use vstd::prelude::*;
use crate::actor::{
    ActorState, Command, Reply, next_state, reply_to, run, replies, MAX_ID,
};

verus! {

/// The identifiers handed out while handling the commands in order.
pub open spec fn issued_ids(s: ActorState, cmds: Seq<Command>) -> Seq<nat>
    decreases cmds.len(),
{
    if cmds.len() == 0 {
        Seq::empty()
    } else {
        let rest = issued_ids(next_state(s, cmds[0]), cmds.drop_first());
        match reply_to(s, cmds[0]) {
            Some(Reply::UniqueId(id)) => seq![id as nat].add(rest),
            _ => rest,
        }
    }
}

/// Whether none of the commands replaces the payload.
pub open spec fn no_writes(cmds: Seq<Command>) -> bool {
    forall|i: int| 0 <= i < cmds.len() ==> !(#[trigger] cmds[i] is SetData)
}

/// Identifiers are handed out in one gapless, strictly increasing run that
/// continues from the counter, whatever the commands in between and however
/// many handles sent them: each is one more than the one before, so none is
/// ever handed out twice.
pub proof fn lemma_ids_unique(s: ActorState, cmds: Seq<Command>)
    requires
        s.counter <= MAX_ID,
    ensures
        forall|i: int|
            0 <= i < issued_ids(s, cmds).len() ==> #[trigger] issued_ids(s, cmds)[i] == s.counter
                + i + 1,
        forall|i: int, j: int|
            0 <= i < j < issued_ids(s, cmds).len() ==> issued_ids(s, cmds)[i] < issued_ids(
                s,
                cmds,
            )[j],
        run(s, cmds).counter == s.counter + issued_ids(s, cmds).len(),
    decreases cmds.len(),
{
    if cmds.len() > 0 {
        let t = next_state(s, cmds[0]);
        lemma_ids_unique(t, cmds.drop_first());
        let ids = issued_ids(s, cmds);
        let rest = issued_ids(t, cmds.drop_first());
        if reply_to(s, cmds[0]) matches Some(Reply::UniqueId(_)) {
            assert forall|i: int| 0 <= i < ids.len() implies #[trigger] ids[i] == s.counter + i
                + 1 by {
                if i > 0 {
                    assert(ids[i] == rest[i - 1]);
                }
            }
        }
    }
}

/// One reply per command.
proof fn lemma_replies_len(s: ActorState, cmds: Seq<Command>)
    ensures
        replies(s, cmds).len() == cmds.len(),
    decreases cmds.len(),
{
    if cmds.len() > 0 {
        lemma_replies_len(next_state(s, cmds[0]), cmds.drop_first());
    }
}

/// A run without writes leaves the payload as it was.
proof fn lemma_payload_kept(s: ActorState, cmds: Seq<Command>)
    requires
        no_writes(cmds),
    ensures
        run(s, cmds).payload == s.payload,
    decreases cmds.len(),
{
    if cmds.len() > 0 {
        assert(!(cmds[0] is SetData));
        assert(no_writes(cmds.drop_first())) by {
            assert forall|i: int| 0 <= i < cmds.drop_first().len() implies !(
            #[trigger] cmds.drop_first()[i] is SetData) by {
                assert(cmds.drop_first()[i] == cmds[i + 1]);
            }
        }
        lemma_payload_kept(next_state(s, cmds[0]), cmds.drop_first());
    }
}

/// After a write of `v`, a read returns `v` as long as no other write was
/// handled in between, whatever else was.
pub proof fn lemma_read_your_write(s: ActorState, v: Option<String>, between: Seq<Command>)
    requires
        no_writes(between),
    ensures
        reply_to(run(next_state(s, Command::SetData(v)), between), Command::GetData) == Some(
            Reply::Data(v),
        ),
{
    lemma_payload_kept(next_state(s, Command::SetData(v)), between);
}

/// Writes are applied whole and one at a time: the payload after any run is
/// the one it started with or the value of one of the writes, and each write
/// echoes exactly the payload stored once it has been handled.
pub proof fn lemma_writes_serialize(s: ActorState, cmds: Seq<Command>)
    ensures
        run(s, cmds).payload == s.payload || exists|i: int|
            0 <= i < cmds.len() && #[trigger] cmds[i] == Command::SetData(run(s, cmds).payload),
        forall|i: int|
            0 <= i < cmds.len() && #[trigger] cmds[i] is SetData ==> replies(s, cmds)[i] == Some(
                Reply::Data(run(s, cmds.take(i + 1)).payload),
            ),
    decreases cmds.len(),
{
    if cmds.len() > 0 {
        let t = next_state(s, cmds[0]);
        let tail = cmds.drop_first();
        lemma_writes_serialize(t, tail);
        lemma_replies_len(t, tail);
        if run(t, tail).payload != t.payload {
            let k = choose|k: int|
                0 <= k < tail.len() && #[trigger] tail[k] == Command::SetData(run(t, tail).payload);
            assert(cmds[k + 1] == tail[k]);
        } else if cmds[0] is SetData {
            assert(cmds[0] == Command::SetData(run(s, cmds).payload));
        }
        assert forall|i: int|
            0 <= i < cmds.len() && #[trigger] cmds[i] is SetData implies replies(s, cmds)[i] == Some(
            Reply::Data(run(s, cmds.take(i + 1)).payload),
        ) by {
            let pre = cmds.take(i + 1);
            assert(pre[0] == cmds[0]);
            assert(pre.drop_first() =~= tail.take(i));
            if i == 0 {
                assert(tail.take(0) =~= Seq::<Command>::empty());
            } else {
                assert(tail[i - 1] == cmds[i]);
                assert(replies(s, cmds)[i] == replies(t, tail)[i - 1]);
                assert(tail.take(i) == tail.take((i - 1) + 1));
            }
        }
    }
}

/// A kill changes nothing but the alive flag: every later command is still
/// handled and answered exactly as without it.
pub proof fn lemma_kill_keeps_state(s: ActorState, cmds: Seq<Command>)
    ensures
        run(next_state(s, Command::Kill), cmds) == (ActorState { alive: false, ..run(s, cmds) }),
        replies(next_state(s, Command::Kill), cmds) == replies(s, cmds),
    decreases cmds.len(),
{
    if cmds.len() > 0 {
        let k = next_state(s, Command::Kill);
        let t = next_state(s, cmds[0]);
        assert(next_state(k, cmds[0]) == next_state(t, Command::Kill));
        lemma_kill_keeps_state(t, cmds.drop_first());
    }
}

} // verus!
