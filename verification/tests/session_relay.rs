use chat_relay::guard::RoomFacts;
use chat_relay::records::Records;
use chat_relay::session::{Action, JoinPrep, Session, SessionPhase};

fn participant() -> RoomFacts {
    RoomFacts { room_exists: true, banned: false, participant: true }
}

#[test]
fn new_session_subscribes_own_private_channel() {
    let (session, acts) = Session::new(7, String::from("conn-1"));
    assert_eq!(session.user_id, 7);
    assert_eq!(session.phase, SessionPhase::Active);
    assert!(session.rooms.is_empty());
    assert_eq!(acts.len(), 1);
    assert!(matches!(&acts[0], Action::Subscribe(name) if name == "priv_user:7"));
}

#[test]
fn join_subscribes_and_acknowledges() {
    let (mut session, _) = Session::new(7, String::from("conn-1"));
    assert!(matches!(session.prepare_join_chat("42"), JoinPrep::NeedsFacts(42)));
    let acts = session.on_join_chat("42", 42, participant());
    assert_eq!(acts.len(), 2);
    assert!(matches!(&acts[0], Action::Subscribe(name) if name == "chat:42"));
    match &acts[1] {
        Action::Send(env) => {
            assert_eq!(env.record, Records::JoinedQueue);
            assert_eq!(env.queue, "42");
            assert_eq!(
                env.encode(),
                "{\"record\":\"msg_g2c_joined_queue\",\"queue\":\"42\",\"data\":{\"data\":\"You joined the queue\",\"code\":200}}"
            );
        },
        other => panic!("expected a send, got {:?}", other),
    }
    assert_eq!(session.rooms, vec![42]);
}

#[test]
fn second_join_is_a_no_op() {
    let (mut session, _) = Session::new(7, String::from("conn-1"));
    let first = session.on_join_chat("42", 42, participant());
    assert_eq!(first.len(), 2);
    // The dedup rule: the same request again asks for nothing, so the
    // driver issues no second subscribe and no second acknowledgement.
    assert!(matches!(session.prepare_join_chat("42"), JoinPrep::AlreadySubscribed));
    assert_eq!(session.rooms, vec![42]);
}

#[test]
fn banned_join_yields_error_and_no_subscribe() {
    let (mut session, _) = Session::new(7, String::from("conn-1"));
    let facts = RoomFacts { room_exists: true, banned: true, participant: true };
    let acts = session.on_join_chat("42", 42, facts);
    assert_eq!(acts.len(), 1);
    match &acts[0] {
        Action::Send(env) => {
            assert_eq!(env.record, Records::Message);
            assert_eq!(env.queue, "42");
            assert_eq!(env.data, "{\"message\":\"Banned from the room\",\"code\":500}");
        },
        other => panic!("expected a send, got {:?}", other),
    }
    assert!(session.rooms.is_empty());
}

#[test]
fn join_checks_run_in_order() {
    let (mut session, _) = Session::new(7, String::from("conn-1"));
    let missing = RoomFacts { room_exists: false, banned: true, participant: false };
    let acts = session.on_join_chat("1", 1, missing);
    assert!(matches!(&acts[0], Action::Send(env)
        if env.data == "{\"message\":\"Invalid queue id\",\"code\":500}"));
    let outsider = RoomFacts { room_exists: true, banned: false, participant: false };
    let acts = session.on_join_chat("2", 2, outsider);
    assert!(matches!(&acts[0], Action::Send(env)
        if env.data == "{\"message\":\"Not a participant\",\"code\":500}"));
}

#[test]
fn leave_of_unjoined_room_is_silent() {
    let (mut session, _) = Session::new(7, String::from("conn-1"));
    let acts = session.on_leave_chat("99");
    assert!(acts.is_empty());
    assert!(session.rooms.is_empty());
}

#[test]
fn leave_unsubscribes_and_acknowledges() {
    let (mut session, _) = Session::new(7, String::from("conn-1"));
    session.on_join_chat("42", 42, participant());
    let acts = session.on_leave_chat("42");
    assert_eq!(acts.len(), 2);
    assert!(matches!(&acts[0], Action::Unsubscribe(name) if name == "chat:42"));
    assert!(matches!(&acts[1], Action::Send(env)
        if env.record == Records::LeftQueue && env.queue == "42"
            && env.data == "{\"data\":\"You left the queue\",\"code\":200}"));
    assert!(session.rooms.is_empty());
}

#[test]
fn leave_of_bad_queue_is_refused() {
    let (mut session, _) = Session::new(7, String::from("conn-1"));
    let acts = session.on_leave_chat("lobby");
    assert_eq!(acts.len(), 1);
    assert!(matches!(&acts[0], Action::Send(env)
        if env.data == "{\"message\":\"Invalid queue id\",\"code\":500}"));
}

#[test]
fn join_user_acknowledges_without_subscribing() {
    let (mut session, _) = Session::new(7, String::from("conn-1"));
    let acts = session.on_join_user();
    assert_eq!(acts.len(), 1);
    assert!(matches!(&acts[0], Action::Send(env)
        if env.record == Records::JoinedQueue && env.queue == "7"));
}

#[test]
fn leave_user_is_refused() {
    let (mut session, _) = Session::new(7, String::from("conn-1"));
    let acts = session.on_leave_user();
    assert_eq!(acts.len(), 1);
    assert!(matches!(&acts[0], Action::Send(env)
        if env.record == Records::Message
            && env.data == "{\"message\":\"The private queue cannot be left\",\"code\":500}"));
    assert!(session.rooms.is_empty());
}

#[test]
fn ban_signal_evicts_before_forwarding() {
    let (mut session, _) = Session::new(7, String::from("conn-1"));
    session.on_join_chat("42", 42, participant());
    let acts = session.on_backplane(
        "priv_user:7",
        "{\"record\":\"msg_g2c_left_queue\",\"queue\":\"chat:42\",\"data\":{\"reason\":\"ban\"}}",
    );
    assert_eq!(acts.len(), 2);
    assert!(matches!(&acts[0], Action::Unsubscribe(name) if name == "chat:42"));
    assert!(matches!(&acts[1], Action::Send(env)
        if env.record == Records::LeftQueue && env.queue == "chat:42"));
    assert!(session.rooms.is_empty());
}

#[test]
fn ban_signal_for_unjoined_room_only_forwards() {
    let (mut session, _) = Session::new(7, String::from("conn-1"));
    let acts = session.on_backplane(
        "priv_user:7",
        "{\"record\":\"msg_g2c_left_queue\",\"queue\":\"chat:42\",\"data\":{}}",
    );
    assert_eq!(acts.len(), 1);
    assert!(matches!(&acts[0], Action::Send(env) if env.queue == "chat:42"));
}

#[test]
fn room_traffic_is_forwarded_verbatim() {
    let (mut session, _) = Session::new(7, String::from("conn-1"));
    session.on_join_chat("42", 42, participant());
    let acts = session.on_backplane(
        "chat:42",
        "{\"record\":\"msg_g2c_send_message\",\"queue\":\"chat:42\",\"data\":{\"text\":\"hi\"}}",
    );
    assert_eq!(acts.len(), 1);
    assert!(matches!(&acts[0], Action::Send(env)
        if env.record == Records::Message && env.data == "{\"text\":\"hi\"}"));
    assert_eq!(session.rooms, vec![42]);
}

#[test]
fn left_queue_on_room_channel_is_no_control_signal() {
    let (mut session, _) = Session::new(7, String::from("conn-1"));
    session.on_join_chat("42", 42, participant());
    let acts = session.on_backplane(
        "chat:42",
        "{\"record\":\"msg_g2c_left_queue\",\"queue\":\"chat:42\",\"data\":{}}",
    );
    assert_eq!(acts.len(), 1);
    assert!(matches!(&acts[0], Action::Send(_)));
    assert_eq!(session.rooms, vec![42]);
}

#[test]
fn unreadable_backplane_payload_is_reported() {
    let (mut session, _) = Session::new(7, String::from("conn-1"));
    let acts = session.on_backplane("chat:42", "not an envelope");
    assert_eq!(acts.len(), 1);
    assert!(matches!(&acts[0], Action::Send(env)
        if env.record == Records::Message && env.queue == "chat:42"
            && env.data == "{\"message\":\"Failed to parse message\",\"code\":500}"));
}

#[test]
fn rate_limited_frame_gets_a_notice() {
    let (session, _) = Session::new(7, String::from("conn-1"));
    let acts = session.on_rate_limited();
    assert_eq!(acts.len(), 1);
    assert!(matches!(&acts[0], Action::Send(env)
        if env.record == Records::RateLimit
            && env.data == "{\"message\":\"Too many messages\",\"code\":429}"));
}

#[test]
fn close_walks_through_the_phases() {
    let (mut session, _) = Session::new(7, String::from("conn-1"));
    session.begin_close();
    assert_eq!(session.phase, SessionPhase::Closing);
    session.finish_close();
    assert_eq!(session.phase, SessionPhase::Closed);
}
