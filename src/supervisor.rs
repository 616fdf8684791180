use vstd::prelude::*;
use uuid::Uuid;

verus! {

#[verifier::external_type_specification]
#[verifier::external_body]
pub struct ExUuid(Uuid);

/// Relies on uuid's `Uuid::new_v4`: a random identifier, of which nothing
/// further is promised here.
pub assume_specification[ Uuid::new_v4 ]() -> Uuid;

/// A named collection of actor handles.
pub struct Supervisor<H> {
    pub id: Uuid,
    pub actors: Vec<H>,
}

impl<H> Supervisor<H> {
    /// A supervisor with a fresh random id and no handles.
    pub fn new() -> (r: Self)
        ensures
            r.actors@.len() == 0,
    {
        Supervisor { id: Uuid::new_v4(), actors: Vec::new() }
    }

    /// Adds one handle after those already held; the id is kept.
    pub fn add_actor(self, actor: H) -> (r: Self)
        ensures
            r.id == self.id,
            r.actors@ == self.actors@.push(actor),
    {
        let mut s = self;
        s.actors.push(actor);
        s
    }
}

impl<H> Default for Supervisor<H> {
    fn default() -> (r: Self)
        ensures
            r.actors@.len() == 0,
    {
        Self::new()
    }
}

} // verus!
