//! The closed set of record kinds an envelope can carry, with the
//! bidirectional table between kinds and their wire names.
use vstd::prelude::*;

verus! {

/// The record kinds of the wire protocol. A client addresses the server with
/// `JoinedQueue` / `LeftQueue` requests (wire names `msg_c2g_*`); the server
/// emits all six kinds (wire names `msg_g2c_*`).
#[derive(Clone, Copy, Debug, PartialEq, Eq, Structural)]
pub enum Records {
    Message,
    JoinedQueue,
    LeftQueue,
    RateLimit,
    ParticipantJoined,
    ParticipantLeft,
}

/// The mount a client join/leave request targets: a chat room or the
/// user's own private channel.
#[derive(Clone, Copy, Debug, PartialEq, Eq, Structural)]
pub enum Mounts {
    Chat,
    User,
}

/// The server-to-client wire name of a record kind.
pub open spec fn record_wire_name(r: Records) -> Seq<char> {
    match r {
        Records::Message => "msg_g2c_send_message"@,
        Records::JoinedQueue => "msg_g2c_joined_queue"@,
        Records::LeftQueue => "msg_g2c_left_queue"@,
        Records::RateLimit => "msg_g2c_ratelimit"@,
        Records::ParticipantJoined => "msg_g2c_participant_joined"@,
        Records::ParticipantLeft => "msg_g2c_participant_left"@,
    }
}

/// The record kind a wire name denotes, if any: the two client-to-server
/// names and the six server-to-client names are accepted, anything else is
/// rejected.
pub open spec fn record_of_wire_name(s: Seq<char>) -> Option<Records> {
    if s == "msg_c2g_subscribe_queue"@ {
        Some(Records::JoinedQueue)
    } else if s == "msg_c2g_unsubscribe_queue"@ {
        Some(Records::LeftQueue)
    } else if s == "msg_g2c_send_message"@ {
        Some(Records::Message)
    } else if s == "msg_g2c_joined_queue"@ {
        Some(Records::JoinedQueue)
    } else if s == "msg_g2c_left_queue"@ {
        Some(Records::LeftQueue)
    } else if s == "msg_g2c_ratelimit"@ {
        Some(Records::RateLimit)
    } else if s == "msg_g2c_participant_joined"@ {
        Some(Records::ParticipantJoined)
    } else if s == "msg_g2c_participant_left"@ {
        Some(Records::ParticipantLeft)
    } else {
        None
    }
}

/// The mount a wire value denotes, if any.
pub open spec fn mount_of_wire_name(s: Seq<char>) -> Option<Mounts> {
    if s == "chat"@ {
        Some(Mounts::Chat)
    } else if s == "user"@ {
        Some(Mounts::User)
    } else {
        None
    }
}

/// Every record kind decodes back from the name it is encoded to.
pub proof fn lemma_record_name_round_trip(r: Records)
    ensures
        record_of_wire_name(record_wire_name(r)) == Some(r),
{
    reveal_strlit("msg_c2g_subscribe_queue");
    reveal_strlit("msg_c2g_unsubscribe_queue");
    reveal_strlit("msg_g2c_send_message");
    reveal_strlit("msg_g2c_joined_queue");
    reveal_strlit("msg_g2c_left_queue");
    reveal_strlit("msg_g2c_ratelimit");
    reveal_strlit("msg_g2c_participant_joined");
    reveal_strlit("msg_g2c_participant_left");
    assert("msg_c2g_subscribe_queue"@.len() == 23);
    assert("msg_c2g_unsubscribe_queue"@.len() == 25);
    assert("msg_g2c_send_message"@.len() == 20);
    assert("msg_g2c_joined_queue"@.len() == 20);
    assert("msg_g2c_left_queue"@.len() == 18);
    assert("msg_g2c_ratelimit"@.len() == 17);
    assert("msg_g2c_participant_joined"@.len() == 26);
    assert("msg_g2c_participant_left"@.len() == 24);
    assert("msg_g2c_joined_queue"@.index(8) != "msg_g2c_send_message"@.index(8));
}

} // verus!
