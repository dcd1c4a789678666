//! The per-connection session: its subscription set, identity and
//! rate-limit scope, and the decisions it takes on each event. The driver
//! owns the transports; it decodes nothing and decides nothing itself. For
//! every event it calls one method here and then performs the returned
//! actions in order: backplane subscribes and unsubscribes, and frames sent
//! to the client.
//!
//! On a throughput violation the offending frame is skipped and a
//! rate-limit notice is sent; the session stays active (the alternative,
//! closing the connection, would make every later event of a briefly noisy
//! client vanish).
use vstd::prelude::*;

use crate::channel::{
    chat_channel_chars, chat_channel_name, priv_channel_chars, priv_channel_name, Channel,
    lemma_channel_names_injective,
};
use crate::envelope::{decode_envelope, decode_envelope_text, Envelope, ProtocolError};
use crate::guard::{authorize_join, join_outcome, GuardError, RoomFacts};
use crate::records::Records;
use crate::text::{chars_to_string, copy_range, string_eq_chars};
use crate::textnum::{dec_digits, dec_value, is_digit_seq, parse_u64_digits};
use vstd::string::StrSliceExecFns;

verus! {

/// The session lifecycle: active, draining after a fatal condition, done.
#[derive(Clone, Copy, Debug, PartialEq, Eq, Structural)]
pub enum SessionPhase {
    Active,
    Closing,
    Closed,
}

/// One effect the driver must perform, in order.
#[derive(Clone, Debug)]
pub enum Action {
    /// Subscribe the session's backplane connection to this channel.
    Subscribe(String),
    /// Unsubscribe the session's backplane connection from this channel.
    Unsubscribe(String),
    /// Send this envelope to the client.
    Send(Envelope),
}

/// A reason a client action is refused, reported inside an error envelope.
#[derive(Clone, Copy, Debug, PartialEq, Eq, Structural)]
pub enum Fault {
    /// The frame is not in the documented shape.
    Malformed,
    /// The record name is not in the closed set.
    UnknownRecord,
    /// The mount value is neither `chat` nor `user`.
    UnknownMount,
    /// The queue of a chat request is not a room id.
    InvalidQueue,
    /// The room does not exist.
    RoomMissing,
    /// The user is banned from the room.
    Banned,
    /// The user is not a participant of the room.
    NotParticipant,
    /// The private channel cannot be left while the session lives.
    PrivateLeave,
}

/// The error payload reported to the client for a fault.
pub open spec fn fault_data(f: Fault) -> Seq<char> {
    match f {
        Fault::Malformed => "{\"message\":\"Failed to parse message\",\"code\":500}"@,
        Fault::UnknownRecord => "{\"message\":\"Unknown record\",\"code\":500}"@,
        Fault::UnknownMount => "{\"message\":\"Unknown mount\",\"code\":500}"@,
        Fault::InvalidQueue => "{\"message\":\"Invalid queue id\",\"code\":500}"@,
        Fault::RoomMissing => "{\"message\":\"Invalid queue id\",\"code\":500}"@,
        Fault::Banned => "{\"message\":\"Banned from the room\",\"code\":500}"@,
        Fault::NotParticipant => "{\"message\":\"Not a participant\",\"code\":500}"@,
        Fault::PrivateLeave => "{\"message\":\"The private queue cannot be left\",\"code\":500}"@,
    }
}

/// The fault reported for a rejected client frame.
pub open spec fn protocol_fault(e: ProtocolError) -> Fault {
    match e {
        ProtocolError::Malformed => Fault::Malformed,
        ProtocolError::UnknownRecord => Fault::UnknownRecord,
        ProtocolError::UnknownMount => Fault::UnknownMount,
    }
}

/// The fault reported for a failed guard check.
pub open spec fn guard_fault(e: GuardError) -> Fault {
    match e {
        GuardError::RoomMissing => Fault::RoomMissing,
        GuardError::Banned => Fault::Banned,
        GuardError::NotParticipant => Fault::NotParticipant,
    }
}

/// The payload acknowledging a join.
pub open spec fn joined_ack_data() -> Seq<char> {
    "{\"data\":\"You joined the queue\",\"code\":200}"@
}

/// The payload acknowledging a leave.
pub open spec fn left_ack_data() -> Seq<char> {
    "{\"data\":\"You left the queue\",\"code\":200}"@
}

/// The payload of a throughput notice.
pub open spec fn rate_limited_data() -> Seq<char> {
    "{\"message\":\"Too many messages\",\"code\":429}"@
}

/// The room id a chat request's queue denotes, if any: the queue must be
/// decimal digits whose value fits in a `u64` (leading zeros allowed, as a
/// plain integer parse accepts them).
pub open spec fn queue_room(q: Seq<char>) -> Option<u64> {
    if is_digit_seq(q) && dec_value(q) <= u64::MAX as nat {
        Some(dec_value(q) as u64)
    } else {
        None
    }
}

/// What a chat-mount join request needs next.
#[derive(Clone, Copy, Debug, PartialEq, Eq, Structural)]
pub enum JoinPrep {
    /// The queue is not a room id: refuse it.
    BadQueue,
    /// The room's channel is already subscribed: nothing to do.
    AlreadySubscribed,
    /// Ask the membership store about this room, then join.
    NeedsFacts(u64),
}

/// The preparation a session state and a queue call for.
pub open spec fn join_prep(s: Session, q: Seq<char>) -> JoinPrep {
    match queue_room(q) {
        None => JoinPrep::BadQueue,
        Some(room) => if s.subscribed(room) {
            JoinPrep::AlreadySubscribed
        } else {
            JoinPrep::NeedsFacts(room)
        },
    }
}

/// The live state of one connection.
pub struct Session {
    /// The authenticated user, fixed for the session's lifetime.
    pub user_id: u64,
    /// The connection's identifier, the resource part of its rate-limit
    /// scope.
    pub conn_id: String,
    /// The rooms whose broadcast channels the session receives, besides
    /// the always-subscribed private channel.
    pub rooms: Vec<u64>,
    /// Where the session stands in its lifecycle.
    pub phase: SessionPhase,
}

impl Session {
    /// Room subscriptions are never recorded twice.
    pub open spec fn wf(self) -> bool {
        forall|i: int, j: int|
            0 <= i < j < self.rooms@.len() ==> self.rooms@[i] != self.rooms@[j]
    }

    /// Whether the session listens on this room's channel.
    pub open spec fn subscribed(self, room: u64) -> bool {
        self.rooms@.contains(room)
    }

    /// The names of every channel the session listens on: its own private
    /// channel and one broadcast channel per subscribed room.
    pub open spec fn channels(self) -> Set<Seq<char>> {
        Set::new(
            |name: Seq<char>|
                name == priv_channel_name(self.user_id as nat) || exists|room: u64|
                    #[trigger] self.subscribed(room) && name == chat_channel_name(room as nat),
        )
    }

    /// Everything but the subscription set is as it was.
    pub open spec fn same_identity(self, other: Session) -> bool {
        self.user_id == other.user_id && self.conn_id == other.conn_id && self.phase
            == other.phase
    }

    /// A fresh session for an authenticated user: no rooms yet, and one
    /// action, subscribing the user's private channel.
    pub fn new(user_id: u64, conn_id: String) -> (r: (Session, Vec<Action>))
        ensures
            r.0.wf(),
            r.0.user_id == user_id,
            r.0.conn_id == conn_id,
            r.0.rooms@.len() == 0,
            r.0.phase == SessionPhase::Active,
            r.1@.len() == 1,
            (r.1@[0] matches Action::Subscribe(name) && name@ == priv_channel_name(
                user_id as nat,
            )),
    {
        let session = Session { user_id, conn_id, rooms: Vec::new(), phase: SessionPhase::Active };
        let mut acts: Vec<Action> = Vec::new();
        acts.push(Action::Subscribe(chars_to_string(priv_channel_chars(user_id))));
        (session, acts)
    }

    /// Whether this room is among the subscribed ones.
    pub fn is_subscribed(&self, room: u64) -> (b: bool)
        ensures
            b == self.subscribed(room),
    {
        let n = self.rooms.len();
        let mut i: usize = 0;
        while i < n
            invariant
                n == self.rooms@.len(),
                i <= n,
                forall|j: int| 0 <= j < i ==> self.rooms@[j] != room,
            decreases n - i,
        {
            if self.rooms[i] == room {
                return true;
            }
            i = i + 1;
        }
        proof {
            if self.rooms@.contains(room) {
                let j = choose|j: int| 0 <= j < self.rooms@.len() && self.rooms@[j] == room;
            }
        }
        false
    }

    /// Classifies a chat-mount join request: a bad queue is refused, an
    /// already-subscribed room needs nothing (the dedup rule), and
    /// otherwise the caller must bring the membership store's answers.
    pub fn prepare_join_chat(&self, queue: &str) -> (r: JoinPrep)
        ensures
            r == join_prep(*self, queue@),
    {
        let n = queue.unicode_len();
        let chars = copy_range(queue, 0, n);
        proof {
            assert(chars@ =~= queue@);
        }
        match parse_u64_digits(&chars) {
            None => JoinPrep::BadQueue,
            Some(room) => if self.is_subscribed(room) {
                JoinPrep::AlreadySubscribed
            } else {
                JoinPrep::NeedsFacts(room)
            },
        }
    }

    /// Reports a client frame that is no request: the reason goes back to
    /// the client inside an error envelope, and the session goes on.
    pub fn on_protocol_error(&self, err: ProtocolError) -> (acts: Vec<Action>)
        ensures
            acts@.len() == 1,
            (acts@[0] matches Action::Send(env) && env.record == Records::Message && env.queue@
                == Seq::<char>::empty() && env.data@ == fault_data(protocol_fault(err))),
    {
        let fault = match err {
            ProtocolError::Malformed => Fault::Malformed,
            ProtocolError::UnknownRecord => Fault::UnknownRecord,
            ProtocolError::UnknownMount => Fault::UnknownMount,
        };
        let mut acts: Vec<Action> = Vec::new();
        acts.push(
            Action::Send(
                Envelope {
                    record: Records::Message,
                    queue: str_to_string(""),
                    data: fault_data_string(fault),
                },
            ),
        );
        proof {
            reveal_strlit("");
            assert(""@ =~= Seq::<char>::empty());
        }
        acts
    }

    /// Refuses a chat-mount join whose queue is no room id.
    pub fn on_bad_join_queue(&self, queue: &str) -> (acts: Vec<Action>)
        requires
            queue_room(queue@) == None::<u64>,
        ensures
            acts@.len() == 1,
            (acts@[0] matches Action::Send(env) && env.record == Records::Message && env.queue@
                == queue@ && env.data@ == fault_data(Fault::InvalidQueue)),
    {
        let mut acts: Vec<Action> = Vec::new();
        acts.push(
            Action::Send(
                Envelope {
                    record: Records::Message,
                    queue: str_to_string(queue),
                    data: fault_data_string(Fault::InvalidQueue),
                },
            ),
        );
        acts
    }

    /// Joins a room's broadcast channel, under the membership guard. On a
    /// passed check the channel is subscribed, recorded, and acknowledged;
    /// on a failed check nothing changes and the client is told why. A
    /// banned caller never causes a subscribe.
    pub fn on_join_chat(&mut self, queue: &str, room: u64, facts: RoomFacts) -> (acts: Vec<
        Action,
    >)
        requires
            old(self).wf(),
            old(self).phase == SessionPhase::Active,
            queue_room(queue@) == Some(room),
            !old(self).subscribed(room),
        ensures
            final(self).wf(),
            final(self).same_identity(*old(self)),
            join_outcome(facts) == Ok::<(), GuardError>(()) ==> final(self).rooms@ == old(self).rooms@.push(room) && acts@.len() == 2 && (acts@[0] matches Action::Subscribe(name)
                && name@ == chat_channel_name(room as nat)) && (acts@[1] matches Action::Send(env)
                && env.record == Records::JoinedQueue && env.queue@ == queue@ && env.data@
                == joined_ack_data()),
            forall|e: GuardError|
                join_outcome(facts) == Err::<(), GuardError>(e) ==> final(self).rooms@ == old(self).rooms@ && acts@.len() == 1 && (acts@[0] matches Action::Send(env) && env.record
                    == Records::Message && env.queue@ == queue@ && env.data@ == fault_data(
                    guard_fault(e),
                )),
    {
        let mut acts: Vec<Action> = Vec::new();
        match authorize_join(&facts) {
            Ok(()) => {
                let name = chars_to_string(chat_channel_chars(room));
                acts.push(Action::Subscribe(name));
                acts.push(
                    Action::Send(
                        Envelope {
                            record: Records::JoinedQueue,
                            queue: str_to_string(queue),
                            data: str_to_string("{\"data\":\"You joined the queue\",\"code\":200}"),
                        },
                    ),
                );
                self.rooms.push(room);
                proof {
                    assert forall|i: int, j: int|
                        0 <= i < j < self.rooms@.len() implies self.rooms@[i] != self.rooms@[j] by {
                        if j == self.rooms@.len() - 1 {
                            assert(old(self).rooms@.contains(old(self).rooms@[i]));
                        }
                    }
                }
                acts
            },
            Err(e) => {
                acts.push(
                    Action::Send(
                        Envelope {
                            record: Records::Message,
                            queue: str_to_string(queue),
                            data: fault_data_string(match e {
                                GuardError::RoomMissing => Fault::RoomMissing,
                                GuardError::Banned => Fault::Banned,
                                GuardError::NotParticipant => Fault::NotParticipant,
                            }),
                        },
                    ),
                );
                acts
            },
        }
    }

    /// Acknowledges a user-mount join: the private channel was subscribed
    /// when the session was built, so nothing is subscribed again.
    pub fn on_join_user(&mut self) -> (acts: Vec<Action>)
        requires
            old(self).wf(),
            old(self).phase == SessionPhase::Active,
        ensures
            *final(self) == *old(self),
            acts@.len() == 1,
            (acts@[0] matches Action::Send(env) && env.record == Records::JoinedQueue
                && env.queue@ == dec_digits(old(self).user_id as nat) && env.data@
                == joined_ack_data()),
    {
        let mut acts: Vec<Action> = Vec::new();
        acts.push(
            Action::Send(
                Envelope {
                    record: Records::JoinedQueue,
                    queue: chars_to_string(crate::textnum::render_u64(self.user_id)),
                    data: str_to_string("{\"data\":\"You joined the queue\",\"code\":200}"),
                },
            ),
        );
        acts
    }

    /// Refuses a user-mount leave: the private channel cannot be left
    /// while the session is alive, and the subscription set is untouched.
    pub fn on_leave_user(&mut self) -> (acts: Vec<Action>)
        requires
            old(self).wf(),
            old(self).phase == SessionPhase::Active,
        ensures
            *final(self) == *old(self),
            acts@.len() == 1,
            (acts@[0] matches Action::Send(env) && env.record == Records::Message && env.queue@
                == dec_digits(old(self).user_id as nat) && env.data@ == fault_data(
                Fault::PrivateLeave,
            )),
    {
        let mut acts: Vec<Action> = Vec::new();
        acts.push(
            Action::Send(
                Envelope {
                    record: Records::Message,
                    queue: chars_to_string(crate::textnum::render_u64(self.user_id)),
                    data: fault_data_string(Fault::PrivateLeave),
                },
            ),
        );
        acts
    }

    /// Leaves a room's broadcast channel. Leaving a room that was never
    /// joined is a silent no-op; a queue that is no room id is refused;
    /// otherwise the channel is unsubscribed, dropped from the set, and
    /// the leave acknowledged.
    pub fn on_leave_chat(&mut self, queue: &str) -> (acts: Vec<Action>)
        requires
            old(self).wf(),
            old(self).phase == SessionPhase::Active,
        ensures
            final(self).wf(),
            final(self).same_identity(*old(self)),
            queue_room(queue@) == None::<u64> ==> final(self).rooms@ == old(self).rooms@
                && acts@.len() == 1 && (acts@[0] matches Action::Send(env) && env.record
                == Records::Message && env.queue@ == queue@ && env.data@ == fault_data(
                Fault::InvalidQueue,
            )),
            forall|room: u64|
                queue_room(queue@) == Some(room) && !old(self).subscribed(room) ==> final(self).rooms@ == old(self).rooms@ && acts@.len() == 0,
            forall|room: u64|
                queue_room(queue@) == Some(room) && old(self).subscribed(room) ==> (exists|i: int|
                    0 <= i < old(self).rooms@.len() && old(self).rooms@[i] == room && final(self).rooms@ == old(self).rooms@.remove(i)) && !final(self).subscribed(room) && (
                forall|r2: u64|
                    r2 != room ==> final(self).subscribed(r2) == old(self).subscribed(r2))
                    && acts@.len() == 2 && (acts@[0] matches Action::Unsubscribe(name) && name@
                    == chat_channel_name(room as nat)) && (acts@[1] matches Action::Send(env)
                    && env.record == Records::LeftQueue && env.queue@ == queue@ && env.data@
                    == left_ack_data()),
    {
        let n = queue.unicode_len();
        let chars = copy_range(queue, 0, n);
        proof {
            assert(chars@ =~= queue@);
        }
        let mut acts: Vec<Action> = Vec::new();
        let room = match parse_u64_digits(&chars) {
            None => {
                acts.push(
                    Action::Send(
                        Envelope {
                            record: Records::Message,
                            queue: str_to_string(queue),
                            data: fault_data_string(Fault::InvalidQueue),
                        },
                    ),
                );
                return acts;
            },
            Some(room) => room,
        };
        let count = self.rooms.len();
        let mut i: usize = 0;
        while i < count
            invariant
                *self == *old(self),
                self.wf(),
                count == self.rooms@.len(),
                i <= count,
                queue_room(queue@) == Some(room),
                acts@.len() == 0,
                forall|j: int| 0 <= j < i ==> self.rooms@[j] != room,
            decreases count - i,
        {
            if self.rooms[i] == room {
                self.rooms.remove(i);
                acts.push(
                    Action::Unsubscribe(chars_to_string(chat_channel_chars(room))),
                );
                acts.push(
                    Action::Send(
                        Envelope {
                            record: Records::LeftQueue,
                            queue: str_to_string(queue),
                            data: str_to_string("{\"data\":\"You left the queue\",\"code\":200}"),
                        },
                    ),
                );
                proof {
                    lemma_remove_keeps_others(old(self).rooms@, i as int);
                    assert(old(self).rooms@.contains(room));
                }
                return acts;
            }
            i = i + 1;
        }
        proof {
            if self.rooms@.contains(room) {
                let j = choose|j: int| 0 <= j < self.rooms@.len() && self.rooms@[j] == room;
            }
        }
        acts
    }

    /// Sends the client a throughput notice for a frame the rate limiter
    /// refused. The frame itself is skipped; the session stays active.
    pub fn on_rate_limited(&self) -> (acts: Vec<Action>)
        ensures
            acts@.len() == 1,
            (acts@[0] matches Action::Send(env) && env.record == Records::RateLimit
                && env.queue@ == Seq::<char>::empty() && env.data@ == rate_limited_data()),
    {
        let mut acts: Vec<Action> = Vec::new();
        acts.push(
            Action::Send(
                Envelope {
                    record: Records::RateLimit,
                    queue: str_to_string(""),
                    data: rate_limited_data_string(),
                },
            ),
        );
        proof {
            reveal_strlit("");
            assert(""@ =~= Seq::<char>::empty());
        }
        acts
    }

    /// Handles one backplane delivery. A payload that is no envelope is
    /// reported to the client and the session goes on. A `LeftQueue`
    /// record arriving on the session's own private channel is the control
    /// signal that the user was removed from a room: if the named room
    /// channel is subscribed it is unsubscribed and dropped first, and the
    /// envelope is then forwarded; every other message is forwarded
    /// verbatim.
    pub fn on_backplane(&mut self, channel: &str, payload: &str) -> (acts: Vec<Action>)
        requires
            old(self).wf(),
            old(self).phase == SessionPhase::Active,
        ensures
            final(self).wf(),
            final(self).same_identity(*old(self)),
            decode_envelope_text(payload@) == None::<(Records, Seq<char>, Seq<char>)> ==> final(self).rooms@ == old(self).rooms@ && acts@.len() == 1 && (acts@[0] matches Action::Send(
                env,
            ) && env.record == Records::Message && env.queue@ == channel@ && env.data@
                == fault_data(Fault::Malformed)),
            forall|rec: Records, q: Seq<char>, d: Seq<char>|
                decode_envelope_text(payload@) == Some((rec, q, d)) ==> ({
                    let evicting = channel@ == priv_channel_name(old(self).user_id as nat) && rec
                        == Records::LeftQueue && (exists|room: u64|
                        old(self).subscribed(room) && q == chat_channel_name(room as nat));
                    &&& (!evicting ==> final(self).rooms@ == old(self).rooms@ && acts@.len() == 1
                        && (acts@[0] matches Action::Send(env) && env.record == rec && env.queue@
                        == q && env.data@ == d))
                    &&& (evicting ==> (forall|room: u64|
                        old(self).subscribed(room) && q == chat_channel_name(room as nat)
                            ==> !final(self).subscribed(room) && (exists|i: int|
                            0 <= i < old(self).rooms@.len() && old(self).rooms@[i] == room
                                && final(self).rooms@ == old(self).rooms@.remove(i)) && (
                        forall|r2: u64|
                            r2 != room ==> final(self).subscribed(r2) == old(self).subscribed(
                                r2,
                            ))) && acts@.len() == 2 && (acts@[0] matches Action::Unsubscribe(name)
                        && name@ == q) && (acts@[1] matches Action::Send(env) && env.record == rec
                        && env.queue@ == q && env.data@ == d))
                }),
    {
        let mut acts: Vec<Action> = Vec::new();
        let env = match decode_envelope(payload) {
            None => {
                acts.push(
                    Action::Send(
                        Envelope {
                            record: Records::Message,
                            queue: str_to_string(channel),
                            data: fault_data_string(Fault::Malformed),
                        },
                    ),
                );
                return acts;
            },
            Some(env) => env,
        };
        let own_priv = priv_channel_chars(self.user_id);
        let is_control = string_eq_chars(channel, &own_priv) && matches!(
            env.record,
            Records::LeftQueue
        );
        if is_control {
            let count = self.rooms.len();
            let mut i: usize = 0;
            while i < count
                invariant
                    *self == *old(self),
                    self.wf(),
                    count == self.rooms@.len(),
                    i <= count,
                    acts@.len() == 0,
                    channel@ == priv_channel_name(old(self).user_id as nat),
                    env.record == Records::LeftQueue,
                    decode_envelope_text(payload@) == Some(
                        (env.record, env.queue@, env.data@),
                    ),
                    forall|j: int|
                        0 <= j < i ==> env.queue@ != chat_channel_name(
                            self.rooms@[j] as nat,
                        ),
                decreases count - i,
            {
                let name = chat_channel_chars(self.rooms[i]);
                if string_eq_chars(env.queue.as_str(), &name) {
                    let ghost room = self.rooms@[i as int];
                    self.rooms.remove(i);
                    acts.push(Action::Unsubscribe(clone_str(&env.queue)));
                    acts.push(Action::Send(env));
                    proof {
                        lemma_remove_keeps_others(old(self).rooms@, i as int);
                        assert(old(self).rooms@.contains(room));
                        assert forall|r: u64|
                            old(self).subscribed(r) && chat_channel_name(room as nat)
                                == chat_channel_name(r as nat) implies r == room by {
                            lemma_channel_names_injective(Channel::Chat(room), Channel::Chat(r));
                        }
                    }
                    return acts;
                }
                i = i + 1;
            }
            proof {
                assert forall|room: u64|
                    !(old(self).subscribed(room) && env.queue@ == chat_channel_name(
                        room as nat,
                    )) by {
                    if old(self).subscribed(room) {
                        let j = choose|j: int|
                            0 <= j < self.rooms@.len() && self.rooms@[j] == room;
                    }
                }
            }
            acts.push(Action::Send(env));
            acts
        } else {
            acts.push(Action::Send(env));
            acts
        }
    }

    /// Records a fatal condition: the session begins draining.
    pub fn begin_close(&mut self)
        requires
            old(self).phase == SessionPhase::Active,
        ensures
            *final(self) == (Session { phase: SessionPhase::Closing, ..*old(self) }),
    {
        self.phase = SessionPhase::Closing;
    }

    /// Finishes the drain: the session is done and its backplane
    /// connection can be released.
    pub fn finish_close(&mut self)
        requires
            old(self).phase == SessionPhase::Closing,
        ensures
            *final(self) == (Session { phase: SessionPhase::Closed, ..*old(self) }),
    {
        self.phase = SessionPhase::Closed;
    }
}

/// The error payload of a fault, as an owned string.
fn fault_data_string(f: Fault) -> (s: String)
    ensures
        s@ == fault_data(f),
{
    match f {
        Fault::Malformed => str_to_string("{\"message\":\"Failed to parse message\",\"code\":500}"),
        Fault::UnknownRecord => str_to_string("{\"message\":\"Unknown record\",\"code\":500}"),
        Fault::UnknownMount => str_to_string("{\"message\":\"Unknown mount\",\"code\":500}"),
        Fault::InvalidQueue => str_to_string("{\"message\":\"Invalid queue id\",\"code\":500}"),
        Fault::RoomMissing => str_to_string("{\"message\":\"Invalid queue id\",\"code\":500}"),
        Fault::Banned => str_to_string("{\"message\":\"Banned from the room\",\"code\":500}"),
        Fault::NotParticipant => str_to_string("{\"message\":\"Not a participant\",\"code\":500}"),
        Fault::PrivateLeave => str_to_string(
            "{\"message\":\"The private queue cannot be left\",\"code\":500}",
        ),
    }
}

/// The payload of a throughput notice, as an owned string.
fn rate_limited_data_string() -> (s: String)
    ensures
        s@ == rate_limited_data(),
{
    str_to_string("{\"message\":\"Too many messages\",\"code\":429}")
}

/// A string slice as an owned string.
fn str_to_string(s: &str) -> (r: String)
    ensures
        r@ == s@,
{
    s.to_owned()
}

/// A copy of a string.
fn clone_str(s: &String) -> (r: String)
    ensures
        r@ == s@,
{
    s.clone()
}

/// Removing one element leaves every other position's membership intact.
proof fn lemma_remove_keeps_others(s: Seq<u64>, i: int)
    requires
        0 <= i < s.len(),
        forall|a: int, b: int| 0 <= a < b < s.len() ==> s[a] != s[b],
    ensures
        forall|a: int, b: int|
            0 <= a < b < s.remove(i).len() ==> s.remove(i)[a] != s.remove(i)[b],
        !s.remove(i).contains(s[i]),
        forall|x: u64| x != s[i] ==> s.remove(i).contains(x) == s.contains(x),
{
    let t = s.remove(i);
    assert forall|a: int, b: int| 0 <= a < b < t.len() implies t[a] != t[b] by {
        assert(t[a] == if a < i {
            s[a]
        } else {
            s[a + 1]
        });
        assert(t[b] == if b < i {
            s[b]
        } else {
            s[b + 1]
        });
    }
    assert forall|x: u64| x != s[i] implies t.contains(x) == s.contains(x) by {
        if s.contains(x) {
            let j = choose|j: int| 0 <= j < s.len() && s[j] == x;
            if j < i {
                assert(t[j] == x);
            } else {
                assert(j > i);
                assert(t[j - 1] == x);
            }
        }
        if t.contains(x) {
            let j = choose|j: int| 0 <= j < t.len() && t[j] == x;
            assert(t[j] == if j < i {
                s[j]
            } else {
                s[j + 1]
            });
        }
    }
    if t.contains(s[i]) {
        let j = choose|j: int| 0 <= j < t.len() && t[j] == s[i];
        assert(t[j] == if j < i {
            s[j]
        } else {
            s[j + 1]
        });
    }
}

/// A session always holds its own private channel, and no other user's:
/// among its channels, exactly one is a private channel.
pub proof fn lemma_one_private_channel(s: Session)
    requires
        s.wf(),
    ensures
        s.channels().contains(priv_channel_name(s.user_id as nat)),
        forall|u: u64|
            s.channels().contains(priv_channel_name(u as nat)) ==> u == s.user_id,
{
    assert forall|u: u64|
        s.channels().contains(priv_channel_name(u as nat)) implies u == s.user_id by {
        let name = priv_channel_name(u as nat);
        if name == priv_channel_name(s.user_id as nat) {
            lemma_channel_names_injective(
                Channel::PrivUser(u),
                Channel::PrivUser(s.user_id),
            );
        } else {
            let room = choose|room: u64|
                #[trigger] s.subscribed(room) && name == chat_channel_name(room as nat);
            lemma_channel_names_injective(Channel::PrivUser(u), Channel::Chat(room));
        }
    }
}

/// A room's broadcast channel is in the session's channel set exactly when
/// the room is subscribed: adding or dropping a room adds or drops its
/// channel name, and no other name.
pub proof fn lemma_channels_track_rooms(s: Session, room: u64)
    ensures
        s.channels().contains(chat_channel_name(room as nat)) == s.subscribed(room),
{
    let name = chat_channel_name(room as nat);
    if s.channels().contains(name) {
        if name == priv_channel_name(s.user_id as nat) {
            lemma_channel_names_injective(Channel::Chat(room), Channel::PrivUser(s.user_id));
        } else {
            let found = choose|r: u64|
                #[trigger] s.subscribed(r) && name == chat_channel_name(r as nat);
            lemma_channel_names_injective(Channel::Chat(room), Channel::Chat(found));
        }
    }
}

/// Joining a room twice in a row: once the first join succeeded, preparing
/// the same request again reports the room as already subscribed, so the
/// driver issues no second backplane subscribe and no second
/// acknowledgement.
pub proof fn lemma_second_join_is_noop(s: Session, queue: Seq<char>, room: u64)
    requires
        queue_room(queue) == Some(room),
        s.subscribed(room),
    ensures
        join_prep(s, queue) == JoinPrep::AlreadySubscribed,
{
}

} // verus!
