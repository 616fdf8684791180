use vstd::prelude::*;

verus! {

/// The largest identifier the actor can hand out.
pub const MAX_ID: u32 = 0xffff_ffff;

/// A request sent to the actor through its mailbox.
#[derive(Clone, Debug, PartialEq, Eq)]
pub enum Command {
    /// Ask for a fresh identifier.
    GetUniqueId,
    /// Ask for the current payload.
    GetData,
    /// Replace the payload and ask for the new one.
    SetData(Option<String>),
    /// Mark the actor as killed; nothing is answered.
    Kill,
}

/// What the actor answers to a request.
#[derive(Clone, Debug, PartialEq, Eq)]
pub enum Reply {
    /// A fresh identifier.
    UniqueId(u32),
    /// Every identifier up to `MAX_ID` has been handed out.
    IdsExhausted,
    /// A copy of the payload.
    Data(Option<String>),
}

/// What the mailbox loop does after one turn.
#[derive(Clone, Debug, PartialEq, Eq)]
pub enum Action {
    /// Send this reply to the caller that asked.
    Respond(Reply),
    /// Nothing to send; wait for the next command.
    Continue,
    /// The mailbox is closed: leave the loop. `killed` tells whether a kill
    /// command was handled before.
    Stop { killed: bool },
}

/// Why a request made through a handle failed.
#[derive(Clone, Copy, Debug, PartialEq, Eq, Structural)]
pub enum ActorError {
    /// The command could not be enqueued: the actor's loop has stopped.
    MailboxClosed,
    /// The command was enqueued but no reply will ever come.
    ActorTerminated,
    /// Every identifier up to `MAX_ID` has been handed out.
    IdsExhausted,
    /// The reply does not answer the kind of request that was made.
    WrongReply,
}

/// The abstract state of an actor.
pub struct ActorState {
    pub counter: nat,
    pub payload: Option<String>,
    pub alive: bool,
}

/// The state of a freshly created actor.
pub open spec fn initial_state() -> ActorState {
    ActorState { counter: 0, payload: None, alive: true }
}

/// The state after handling one command.
pub open spec fn next_state(s: ActorState, c: Command) -> ActorState {
    match c {
        Command::GetUniqueId => if s.counter < MAX_ID {
            ActorState { counter: s.counter + 1, ..s }
        } else {
            s
        },
        Command::GetData => s,
        Command::SetData(v) => ActorState { payload: v, ..s },
        Command::Kill => ActorState { alive: false, ..s },
    }
}

/// The reply, if any, to one command handled in state `s`.
pub open spec fn reply_to(s: ActorState, c: Command) -> Option<Reply> {
    match c {
        Command::GetUniqueId => if s.counter < MAX_ID {
            Some(Reply::UniqueId((s.counter + 1) as u32))
        } else {
            Some(Reply::IdsExhausted)
        },
        Command::GetData => Some(Reply::Data(s.payload)),
        Command::SetData(v) => Some(Reply::Data(v)),
        Command::Kill => None,
    }
}

/// The state after handling the commands in order.
pub open spec fn run(s: ActorState, cmds: Seq<Command>) -> ActorState
    decreases cmds.len(),
{
    if cmds.len() == 0 {
        s
    } else {
        run(next_state(s, cmds[0]), cmds.drop_first())
    }
}

/// The replies given while handling the commands in order, one per command.
pub open spec fn replies(s: ActorState, cmds: Seq<Command>) -> Seq<Option<Reply>>
    decreases cmds.len(),
{
    if cmds.len() == 0 {
        Seq::empty()
    } else {
        seq![reply_to(s, cmds[0])].add(replies(next_state(s, cmds[0]), cmds.drop_first()))
    }
}

/// The owner of the state; it is only changed by handling commands.
pub struct Actor {
    next_id: u32,
    message: Option<String>,
    alive: bool,
}

impl View for Actor {
    type V = ActorState;

    closed spec fn view(&self) -> ActorState {
        ActorState { counter: self.next_id as nat, payload: self.message, alive: self.alive }
    }
}

fn copy_text(t: &Option<String>) -> (r: Option<String>)
    ensures
        r == *t,
{
    match t {
        Some(s) => Some(s.clone()),
        None => None,
    }
}

impl Actor {
    /// A fresh actor: no identifier handed out, no payload, alive.
    pub fn new() -> (r: Actor)
        ensures
            r@ == initial_state(),
    {
        Actor { next_id: 0, message: None, alive: true }
    }

    /// Handles one command: changes the state and gives the reply owed.
    pub fn handle_message(&mut self, msg: Command) -> (r: Option<Reply>)
        ensures
            final(self)@ == next_state(old(self)@, msg),
            r == reply_to(old(self)@, msg),
    {
        match msg {
            Command::GetUniqueId => {
                if self.next_id < MAX_ID {
                    self.next_id = self.next_id + 1;
                    Some(Reply::UniqueId(self.next_id))
                } else {
                    Some(Reply::IdsExhausted)
                }
            },
            Command::GetData => Some(Reply::Data(copy_text(&self.message))),
            Command::SetData(message) => {
                self.message = message;
                Some(Reply::Data(copy_text(&self.message)))
            },
            Command::Kill => {
                self.alive = false;
                None
            },
        }
    }

    /// One turn of the mailbox loop. `event` is the next command, or `None`
    /// once the mailbox is closed. A killed actor still handles what arrives;
    /// only a closed mailbox stops the loop.
    pub fn step(&mut self, event: Option<Command>) -> (r: Action)
        ensures
            event is None ==> final(self)@ == old(self)@ && r == (Action::Stop {
                killed: !old(self)@.alive,
            }),
            event matches Some(c) ==> final(self)@ == next_state(old(self)@, c) && r == match reply_to(old(self)@, c) {
                Some(answer) => Action::Respond(answer),
                None => Action::Continue,
            },
    {
        match event {
            None => Action::Stop { killed: !self.alive },
            Some(c) => match self.handle_message(c) {
                Some(answer) => Action::Respond(answer),
                None => Action::Continue,
            },
        }
    }

    /// Handles the commands in the order they were enqueued and gives the
    /// reply to each, `None` for those that get none.
    pub fn drain(&mut self, cmds: Vec<Command>) -> (r: Vec<Option<Reply>>)
        ensures
            final(self)@ == run(old(self)@, cmds@),
            r@ == replies(old(self)@, cmds@),
    {
        let mut pending = cmds;
        let mut out: Vec<Option<Reply>> = Vec::new();
        while pending.len() > 0
            invariant
                run(self@, pending@) == run(old(self)@, cmds@),
                out@.add(replies(self@, pending@)) == replies(old(self)@, cmds@),
            decreases pending.len(),
        {
            let ghost before = self@;
            let ghost rest = pending@;
            let c = pending.remove(0);
            assert(pending@ == rest.drop_first());
            let answer = self.handle_message(c);
            out.push(answer);
            assert(replies(before, rest) == seq![answer].add(replies(self@, pending@)));
            assert(out@.add(replies(self@, pending@)) =~= out@.drop_last().add(
                replies(before, rest),
            ));
        }
        assert(pending@ =~= Seq::<Command>::empty());
        assert(out@.add(replies(self@, pending@)) =~= out@);
        out
    }

    /// Whether no kill command has been handled yet.
    pub fn is_alive(&self) -> (r: bool)
        ensures
            r == self@.alive,
    {
        self.alive
    }
}

/// The caller's result of an identifier request. `enqueued` tells whether the
/// command entered the mailbox; `reply` is what came back on the reply
/// channel, `None` when the channel closed without a value.
pub fn unique_id_outcome(enqueued: bool, reply: Option<Reply>) -> (r: Result<u32, ActorError>)
    ensures
        !enqueued ==> r == Err::<u32, ActorError>(ActorError::MailboxClosed),
        enqueued ==> r == match reply {
            None => Err(ActorError::ActorTerminated),
            Some(Reply::UniqueId(id)) => Ok(id),
            Some(Reply::IdsExhausted) => Err(ActorError::IdsExhausted),
            Some(Reply::Data(_)) => Err(ActorError::WrongReply),
        },
{
    if !enqueued {
        return Err(ActorError::MailboxClosed);
    }
    match reply {
        None => Err(ActorError::ActorTerminated),
        Some(Reply::UniqueId(id)) => Ok(id),
        Some(Reply::IdsExhausted) => Err(ActorError::IdsExhausted),
        Some(Reply::Data(_)) => Err(ActorError::WrongReply),
    }
}

/// The caller's result of a payload request (read or write), as for
/// `unique_id_outcome`.
pub fn data_outcome(enqueued: bool, reply: Option<Reply>) -> (r: Result<Option<String>, ActorError>)
    ensures
        !enqueued ==> r == Err::<Option<String>, ActorError>(ActorError::MailboxClosed),
        enqueued ==> r == match reply {
            None => Err(ActorError::ActorTerminated),
            Some(Reply::Data(d)) => Ok(d),
            Some(_) => Err(ActorError::WrongReply),
        },
{
    if !enqueued {
        return Err(ActorError::MailboxClosed);
    }
    match reply {
        None => Err(ActorError::ActorTerminated),
        Some(Reply::Data(d)) => Ok(d),
        Some(_) => Err(ActorError::WrongReply),
    }
}

} // verus!
