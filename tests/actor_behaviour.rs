use actor_demo::actor::{
    data_outcome, unique_id_outcome, Action, Actor, ActorError, Command, Reply,
};
use actor_demo::supervisor::Supervisor;

fn text(s: &str) -> Option<String> {
    Some(s.to_string())
}

#[test]
fn end_to_end_scenario() {
    let mut actor = Actor::new();
    assert_eq!(actor.handle_message(Command::GetUniqueId), Some(Reply::UniqueId(1)));
    assert_eq!(actor.handle_message(Command::GetData), Some(Reply::Data(None)));
    assert_eq!(
        actor.handle_message(Command::SetData(text("Hehe!"))),
        Some(Reply::Data(text("Hehe!")))
    );
    assert_eq!(actor.handle_message(Command::GetData), Some(Reply::Data(text("Hehe!"))));
    assert_eq!(actor.handle_message(Command::GetUniqueId), Some(Reply::UniqueId(2)));
}

#[test]
fn ids_are_consecutive_across_other_commands() {
    let mut actor = Actor::new();
    let replies = actor.drain(vec![
        Command::GetUniqueId,
        Command::SetData(text("a")),
        Command::GetUniqueId,
        Command::GetData,
        Command::Kill,
        Command::GetUniqueId,
    ]);
    let ids: Vec<u32> = replies
        .iter()
        .filter_map(|r| match r {
            Some(Reply::UniqueId(id)) => Some(*id),
            _ => None,
        })
        .collect();
    assert_eq!(ids, vec![1, 2, 3]);
}

#[test]
fn interleaved_callers_share_one_sequence() {
    // Two callers' requests end up in one mailbox: their ids come from one
    // sequence, with no repeat and no gap.
    let mut actor = Actor::new();
    let mut first = Vec::new();
    let mut second = Vec::new();
    for round in 0..6u32 {
        let r = actor.handle_message(Command::GetUniqueId);
        if round % 3 == 0 {
            first.push(r);
        } else {
            second.push(r);
        }
    }
    let ids = |v: &Vec<Option<Reply>>| -> Vec<u32> {
        v.iter()
            .map(|r| match r {
                Some(Reply::UniqueId(id)) => *id,
                _ => panic!("no id"),
            })
            .collect()
    };
    assert_eq!(ids(&first), vec![1, 4]);
    assert_eq!(ids(&second), vec![2, 3, 5, 6]);
}

#[test]
fn read_your_write_survives_other_commands() {
    let mut actor = Actor::new();
    actor.handle_message(Command::SetData(text("v")));
    actor.drain(vec![Command::GetUniqueId, Command::GetData, Command::Kill]);
    assert_eq!(actor.handle_message(Command::GetData), Some(Reply::Data(text("v"))));
}

#[test]
fn last_write_wins_and_echoes_match() {
    let mut actor = Actor::new();
    let replies = actor.drain(vec![
        Command::SetData(text("a")),
        Command::SetData(text("b")),
        Command::GetData,
    ]);
    assert_eq!(
        replies,
        vec![
            Some(Reply::Data(text("a"))),
            Some(Reply::Data(text("b"))),
            Some(Reply::Data(text("b"))),
        ]
    );
}

#[test]
fn clearing_the_payload() {
    let mut actor = Actor::new();
    actor.handle_message(Command::SetData(text("x")));
    assert_eq!(actor.handle_message(Command::SetData(None)), Some(Reply::Data(None)));
    assert_eq!(actor.handle_message(Command::GetData), Some(Reply::Data(None)));
}

#[test]
fn kill_gets_no_reply_and_keeps_state() {
    let mut actor = Actor::new();
    actor.handle_message(Command::SetData(text("kept")));
    actor.handle_message(Command::GetUniqueId);
    assert!(actor.is_alive());
    assert_eq!(actor.handle_message(Command::Kill), None);
    assert!(!actor.is_alive());
    assert_eq!(actor.handle_message(Command::GetData), Some(Reply::Data(text("kept"))));
    assert_eq!(actor.handle_message(Command::GetUniqueId), Some(Reply::UniqueId(2)));
    assert!(!actor.is_alive());
}

#[test]
fn loop_stops_only_when_mailbox_closes() {
    let mut actor = Actor::new();
    assert_eq!(actor.step(Some(Command::Kill)), Action::Continue);
    assert_eq!(
        actor.step(Some(Command::GetUniqueId)),
        Action::Respond(Reply::UniqueId(1))
    );
    assert_eq!(actor.step(None), Action::Stop { killed: true });
}

#[test]
fn loop_stop_without_kill() {
    let mut actor = Actor::new();
    assert_eq!(actor.step(Some(Command::GetData)), Action::Respond(Reply::Data(None)));
    assert_eq!(actor.step(None), Action::Stop { killed: false });
}

#[test]
fn unique_id_outcomes() {
    assert_eq!(unique_id_outcome(true, Some(Reply::UniqueId(7))), Ok(7));
    assert_eq!(
        unique_id_outcome(false, Some(Reply::UniqueId(7))),
        Err(ActorError::MailboxClosed)
    );
    assert_eq!(unique_id_outcome(false, None), Err(ActorError::MailboxClosed));
    assert_eq!(unique_id_outcome(true, None), Err(ActorError::ActorTerminated));
    assert_eq!(
        unique_id_outcome(true, Some(Reply::IdsExhausted)),
        Err(ActorError::IdsExhausted)
    );
    assert_eq!(
        unique_id_outcome(true, Some(Reply::Data(None))),
        Err(ActorError::WrongReply)
    );
}

#[test]
fn data_outcomes() {
    assert_eq!(data_outcome(true, Some(Reply::Data(text("d")))), Ok(text("d")));
    assert_eq!(data_outcome(true, Some(Reply::Data(None))), Ok(None));
    assert_eq!(data_outcome(false, None), Err(ActorError::MailboxClosed));
    assert_eq!(data_outcome(true, None), Err(ActorError::ActorTerminated));
    assert_eq!(
        data_outcome(true, Some(Reply::UniqueId(1))),
        Err(ActorError::WrongReply)
    );
}

#[test]
fn supervisor_collects_handles() {
    let s: Supervisor<u8> = Supervisor::new();
    let id = s.id;
    assert_eq!(id.get_version_num(), 4);
    let s = s.add_actor(3).add_actor(5);
    assert_eq!(s.actors, vec![3, 5]);
    assert_eq!(s.id, id);
    let d: Supervisor<u8> = Supervisor::default();
    assert!(d.actors.is_empty());
    assert_ne!(d.id, id);
}
