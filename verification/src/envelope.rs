//! The wire envelope codec: every message crossing the boundary is a JSON
//! object `{"record":..,"queue":..,"data":..}` (server to client and on the
//! backplane) or `{"record":..,"mount":..,"queue":..}` with an optional
//! trailing `data` member (client to server). Frames are accepted in this
//! documented shape; the `data` payload is carried opaquely, and string
//! members are taken verbatim up to their closing quote (escape sequences
//! are not interpreted).
use vstd::prelude::*;

use vstd::string::StrSliceExecFns;

use crate::records::{
    mount_of_wire_name, record_of_wire_name, record_wire_name, Mounts, Records,
};
use crate::text::{chars_to_string, copy_range, find_quote, has_at, push_str_chars, str_eq};

verus! {

/// A typed wire message: a record kind, the channel or queue it concerns,
/// and an opaque JSON payload.
#[derive(Clone, Debug)]
pub struct Envelope {
    pub record: Records,
    pub queue: String,
    pub data: String,
}

/// A decoded client request: a record kind, the mount it targets, and the
/// queue argument (a room-id string for the chat mount).
#[derive(Clone, Debug)]
pub struct ClientRequest {
    pub record: Records,
    pub mount: Mounts,
    pub queue: String,
}

/// Why a client frame was rejected.
#[derive(Clone, Copy, Debug, PartialEq, Eq, Structural)]
pub enum ProtocolError {
    Malformed,
    UnknownRecord,
    UnknownMount,
}

/// Text with no double quote: it can stand inside a JSON string member
/// without escaping.
pub open spec fn plain_text(s: Seq<char>) -> bool {
    forall|i: int| 0 <= i < s.len() ==> s[i] != '"'
}

/// Splits text at its first `'"'`: the part before it and the part after
/// it, or nothing if there is no quote.
pub open spec fn quote_split(s: Seq<char>) -> Option<(Seq<char>, Seq<char>)>
    decreases s.len(),
{
    if s.len() == 0 {
        None
    } else if s[0] == '"' {
        Some((Seq::<char>::empty(), s.skip(1)))
    } else {
        match quote_split(s.skip(1)) {
            None => None,
            Some(p) => Some((seq![s[0]] + p.0, p.1)),
        }
    }
}

/// The encoded text of an envelope.
pub open spec fn encode_envelope_text(r: Records, q: Seq<char>, d: Seq<char>) -> Seq<char> {
    "{\"record\":\""@ + record_wire_name(r) + "\",\"queue\":\""@ + q + "\",\"data\":"@ + d
        + "}"@
}

/// The envelope an encoded text denotes, if any: the documented shape with
/// the three members in order, the `data` member running to the closing
/// brace.
pub open spec fn decode_envelope_text(s: Seq<char>) -> Option<(Records, Seq<char>, Seq<char>)> {
    let h1 = "{\"record\":\""@;
    let h2 = ",\"queue\":\""@;
    let h3 = ",\"data\":"@;
    if s.len() < h1.len() || s.take(h1.len() as int) != h1 {
        None
    } else {
        match quote_split(s.skip(h1.len() as int)) {
            None => None,
            Some(p1) => match record_of_wire_name(p1.0) {
                None => None,
                Some(rec) => if p1.1.len() < h2.len() || p1.1.take(h2.len() as int) != h2 {
                    None
                } else {
                    match quote_split(p1.1.skip(h2.len() as int)) {
                        None => None,
                        Some(p2) => if p2.1.len() < h3.len() + 2 || p2.1.take(h3.len() as int)
                            != h3 {
                            None
                        } else {
                            let body = p2.1.skip(h3.len() as int);
                            if body.last() == '}' {
                                Some((rec, p2.0, body.drop_last()))
                            } else {
                                None
                            }
                        },
                    }
                },
            },
        }
    }
}

/// The client request an encoded frame denotes, or why it is rejected:
/// the documented shape `{"record":..,"mount":..,"queue":..}`, optionally
/// with a trailing `data` member, which is accepted and ignored.
pub open spec fn decode_client_text(s: Seq<char>) -> Result<
    (Records, Mounts, Seq<char>),
    ProtocolError,
> {
    let h1 = "{\"record\":\""@;
    let hm = ",\"mount\":\""@;
    let hq = ",\"queue\":\""@;
    if s.len() < h1.len() || s.take(h1.len() as int) != h1 {
        Err(ProtocolError::Malformed)
    } else {
        match quote_split(s.skip(h1.len() as int)) {
            None => Err(ProtocolError::Malformed),
            Some(p1) => match record_of_wire_name(p1.0) {
                None => Err(ProtocolError::UnknownRecord),
                Some(rec) => if p1.1.len() < hm.len() || p1.1.take(hm.len() as int) != hm {
                    Err(ProtocolError::Malformed)
                } else {
                    match quote_split(p1.1.skip(hm.len() as int)) {
                        None => Err(ProtocolError::Malformed),
                        Some(pm) => match mount_of_wire_name(pm.0) {
                            None => Err(ProtocolError::UnknownMount),
                            Some(mount) => if pm.1.len() < hq.len() || pm.1.take(hq.len() as int)
                                != hq {
                                Err(ProtocolError::Malformed)
                            } else {
                                match quote_split(pm.1.skip(hq.len() as int)) {
                                    None => Err(ProtocolError::Malformed),
                                    Some(pq) => if client_tail_ok(pq.1) {
                                        Ok((rec, mount, pq.0))
                                    } else {
                                        Err(ProtocolError::Malformed)
                                    },
                                }
                            },
                        },
                    }
                },
            },
        }
    }
}

/// What may follow the queue member of a client frame: the closing brace,
/// or a `data` member running to the closing brace.
pub open spec fn client_tail_ok(rest: Seq<char>) -> bool {
    let hd = ",\"data\":"@;
    rest == "}"@ || (rest.len() >= hd.len() + 2 && rest.take(hd.len() as int) == hd
        && rest.last() == '}')
}

/// Splitting plain text followed by a quote finds exactly that text.
proof fn lemma_quote_split_plain(q: Seq<char>, rest: Seq<char>)
    requires
        plain_text(q),
    ensures
        quote_split(q + seq!['"'] + rest) == Some((q, rest)),
    decreases q.len(),
{
    let s = q + seq!['"'] + rest;
    if q.len() == 0 {
        assert(s[0] == '"');
        assert(s.skip(1) =~= rest);
        assert(q + seq!['"'] =~= seq!['"']);
        assert(quote_split(s).unwrap().0 =~= q);
    } else {
        assert(s[0] == q[0]);
        assert(s[0] != '"');
        assert(s.skip(1) =~= q.skip(1) + seq!['"'] + rest);
        lemma_quote_split_plain(q.skip(1), rest);
        assert(seq![s[0]] + q.skip(1) =~= q);
    }
}

/// Splitting at a found quote position: if nothing before position `i` is a
/// quote and position `i` is one, the split is exactly there.
proof fn lemma_quote_split_at(s: Seq<char>, from: int, i: int)
    requires
        0 <= from <= i < s.len(),
        s[i] == '"',
        forall|j: int| from <= j < i ==> s[j] != '"',
    ensures
        quote_split(s.skip(from)) == Some((s.subrange(from, i), s.skip(i + 1))),
    decreases i - from,
{
    if from == i {
        assert(s.skip(from)[0] == '"');
        assert(s.skip(from).skip(1) =~= s.skip(i + 1));
        assert(s.subrange(from, i) =~= Seq::<char>::empty());
        assert(quote_split(s.skip(from)).unwrap().0 =~= s.subrange(from, i));
    } else {
        assert(s.skip(from)[0] == s[from]);
        lemma_quote_split_at(s, from + 1, i);
        assert(s.skip(from).skip(1) =~= s.skip(from + 1));
        assert(seq![s[from]] + s.subrange(from + 1, i) =~= s.subrange(from, i));
    }
}

/// If text holds no quote at all, it does not split.
proof fn lemma_quote_split_none(s: Seq<char>, from: int)
    requires
        0 <= from <= s.len(),
        forall|j: int| from <= j < s.len() ==> s[j] != '"',
    ensures
        quote_split(s.skip(from)) == None::<(Seq<char>, Seq<char>)>,
    decreases s.len() - from,
{
    if from < s.len() {
        assert(s.skip(from)[0] == s[from]);
        lemma_quote_split_none(s, from + 1);
        assert(s.skip(from).skip(1) =~= s.skip(from + 1));
    }
}

/// No record's wire name holds a quote.
proof fn lemma_record_names_plain(r: Records)
    ensures
        plain_text(record_wire_name(r)),
{
    reveal_strlit("msg_g2c_send_message");
    reveal_strlit("msg_g2c_joined_queue");
    reveal_strlit("msg_g2c_left_queue");
    reveal_strlit("msg_g2c_ratelimit");
    reveal_strlit("msg_g2c_participant_joined");
    reveal_strlit("msg_g2c_participant_left");
    assert("msg_g2c_send_message"@.len() == 20);
    assert("msg_g2c_joined_queue"@.len() == 20);
    assert("msg_g2c_left_queue"@.len() == 18);
    assert("msg_g2c_ratelimit"@.len() == 17);
    assert("msg_g2c_participant_joined"@.len() == 26);
    assert("msg_g2c_participant_left"@.len() == 24);
}

/// Encoding an envelope and decoding the text gives the envelope back,
/// whenever the queue needs no escaping and the payload is not empty.
pub proof fn lemma_envelope_round_trip(r: Records, q: Seq<char>, d: Seq<char>)
    requires
        plain_text(q),
        d.len() > 0,
    ensures
        decode_envelope_text(encode_envelope_text(r, q, d)) == Some((r, q, d)),
{
    let h1 = "{\"record\":\""@;
    let h2 = ",\"queue\":\""@;
    let h3 = ",\"data\":"@;
    let name = record_wire_name(r);
    let s = encode_envelope_text(r, q, d);
    reveal_strlit("{\"record\":\"");
    reveal_strlit("\",\"queue\":\"");
    reveal_strlit(",\"queue\":\"");
    reveal_strlit("\",\"data\":");
    reveal_strlit(",\"data\":");
    reveal_strlit("}");
    assert(h1.len() == 11);
    assert("\",\"queue\":\""@.len() == 11);
    assert(h2.len() == 10);
    assert("\",\"data\":"@.len() == 9);
    assert(h3.len() == 8);
    assert("}"@.len() == 1);
    lemma_record_names_plain(r);
    crate::records::lemma_record_name_round_trip(r);
    // The literal after each quoted member opens with that member's closing
    // quote, followed by the literal the decoder expects.
    assert("\",\"queue\":\""@ =~= seq!['"'] + h2);
    assert("\",\"data\":"@ =~= seq!['"'] + h3);
    let rest2 = h3 + d + "}"@;
    let rest1 = h2 + (q + seq!['"'] + rest2);
    let tail1 = name + seq!['"'] + rest1;
    assert(s =~= h1 + tail1);
    assert(s.take(h1.len() as int) =~= h1);
    assert(s.skip(h1.len() as int) =~= tail1);
    // The record member.
    lemma_quote_split_plain(name, rest1);
    assert(quote_split(s.skip(h1.len() as int)) == Some((name, rest1)));
    // The queue member.
    assert(rest1.take(h2.len() as int) =~= h2);
    assert(rest1.skip(h2.len() as int) =~= q + seq!['"'] + rest2);
    lemma_quote_split_plain(q, rest2);
    // The data member and the closing brace.
    assert(rest2.len() >= h3.len() + 2);
    assert(rest2.take(h3.len() as int) =~= h3);
    let body = rest2.skip(h3.len() as int);
    assert(body =~= d + "}"@);
    assert("}"@ =~= seq!['}']);
    assert(body.last() == '}');
    assert(body.drop_last() =~= d);
}

/// The wire name of a record kind, as a string slice.
pub fn record_wire_str(r: Records) -> (s: &'static str)
    ensures
        s@ == record_wire_name(r),
{
    match r {
        Records::Message => "msg_g2c_send_message",
        Records::JoinedQueue => "msg_g2c_joined_queue",
        Records::LeftQueue => "msg_g2c_left_queue",
        Records::RateLimit => "msg_g2c_ratelimit",
        Records::ParticipantJoined => "msg_g2c_participant_joined",
        Records::ParticipantLeft => "msg_g2c_participant_left",
    }
}

/// The record kind a wire name denotes, if any.
fn record_of_str(s: &str) -> (r: Option<Records>)
    ensures
        r == record_of_wire_name(s@),
{
    if str_eq(s, "msg_c2g_subscribe_queue") {
        Some(Records::JoinedQueue)
    } else if str_eq(s, "msg_c2g_unsubscribe_queue") {
        Some(Records::LeftQueue)
    } else if str_eq(s, "msg_g2c_send_message") {
        Some(Records::Message)
    } else if str_eq(s, "msg_g2c_joined_queue") {
        Some(Records::JoinedQueue)
    } else if str_eq(s, "msg_g2c_left_queue") {
        Some(Records::LeftQueue)
    } else if str_eq(s, "msg_g2c_ratelimit") {
        Some(Records::RateLimit)
    } else if str_eq(s, "msg_g2c_participant_joined") {
        Some(Records::ParticipantJoined)
    } else if str_eq(s, "msg_g2c_participant_left") {
        Some(Records::ParticipantLeft)
    } else {
        None
    }
}

/// The mount a wire value denotes, if any.
fn mount_of_str(s: &str) -> (r: Option<Mounts>)
    ensures
        r == mount_of_wire_name(s@),
{
    if str_eq(s, "chat") {
        Some(Mounts::Chat)
    } else if str_eq(s, "user") {
        Some(Mounts::User)
    } else {
        None
    }
}

impl Envelope {
    /// Encodes the envelope as its wire text.
    pub fn encode(&self) -> (s: String)
        ensures
            s@ == encode_envelope_text(self.record, self.queue@, self.data@),
    {
        let mut v: Vec<char> = Vec::new();
        push_str_chars(&mut v, "{\"record\":\"");
        push_str_chars(&mut v, record_wire_str(self.record));
        push_str_chars(&mut v, "\",\"queue\":\"");
        push_str_chars(&mut v, self.queue.as_str());
        push_str_chars(&mut v, "\",\"data\":");
        push_str_chars(&mut v, self.data.as_str());
        push_str_chars(&mut v, "}");
        chars_to_string(v)
    }
}

/// Reads one quoted member starting at `at` (just after the opening
/// quote): the text before the closing quote and the position after it.
fn read_quoted(s: &str, at: usize) -> (r: Option<(Vec<char>, usize)>)
    requires
        at <= s@.len(),
    ensures
        match r {
            Some(p) => quote_split(s@.skip(at as int)) == Some(
                (p.0@, s@.skip(p.1 as int)),
            ) && at <= p.1 <= s@.len(),
            None => quote_split(s@.skip(at as int)) == None::<(Seq<char>, Seq<char>)>,
        },
{
    let n = s.unicode_len();
    match find_quote(s, at) {
        Some(i) => {
            let contents = copy_range(s, at, i);
            proof {
                lemma_quote_split_at(s@, at as int, i as int);
            }
            Some((contents, i + 1))
        },
        None => {
            proof {
                lemma_quote_split_none(s@, at as int);
            }
            None
        },
    }
}

/// Decodes a backplane or server frame into an envelope. Returns nothing
/// exactly when the text is not in the documented envelope shape.
pub fn decode_envelope(s: &str) -> (r: Option<Envelope>)
    ensures
        match r {
            Some(env) => decode_envelope_text(s@) == Some((env.record, env.queue@, env.data@)),
            None => decode_envelope_text(s@) == None::<(Records, Seq<char>, Seq<char>)>,
        },
{
    let h1 = "{\"record\":\"";
    let n = s.unicode_len();
    let h1n = h1.unicode_len();
    if h1n > n {
        return None;
    }
    if !has_at(s, 0, h1) {
        proof {
            assert(s@.take(h1@.len() as int) == s@.subrange(0, h1@.len() as int));
        }
        return None;
    }
    proof {
        assert(s@.take(h1@.len() as int) == s@.subrange(0, h1@.len() as int));
    }
    let (rec_chars, after_rec) = match read_quoted(s, h1n) {
        Some(p) => p,
        None => {
            return None;
        },
    };
    let rec_name = chars_to_string(rec_chars);
    let rec = match record_of_str(rec_name.as_str()) {
        Some(rec) => rec,
        None => {
            return None;
        },
    };
    let h2 = ",\"queue\":\"";
    let h2n = h2.unicode_len();
    if !has_at(s, after_rec, h2) {
        proof {
            lemma_skip_take(s@, after_rec as int, h2@.len() as int);
        }
        return None;
    }
    proof {
        lemma_skip_take(s@, after_rec as int, h2@.len() as int);
        lemma_skip_skip(s@, after_rec as int, h2@.len() as int);
    }
    let (q_chars, after_q) = match read_quoted(s, after_rec + h2n) {
        Some(p) => p,
        None => {
            return None;
        },
    };
    let h3 = ",\"data\":";
    let h3n = h3.unicode_len();
    proof {
        reveal_strlit(",\"data\":");
        assert(",\"data\":"@.len() == 8);
    }
    let rest_len = n - after_q;
    if rest_len < h3n + 2 || !has_at(s, after_q, h3) {
        proof {
            lemma_skip_take(s@, after_q as int, h3@.len() as int);
        }
        return None;
    }
    proof {
        lemma_skip_take(s@, after_q as int, h3@.len() as int);
        lemma_skip_skip(s@, after_q as int, h3@.len() as int);
    }
    let last = s.get_char(n - 1);
    let ghost body = s@.skip(after_q + h3@.len() as int);
    proof {
        assert(body.last() == s@[n - 1]);
    }
    if last != '}' {
        return None;
    }
    let data_chars = copy_range(s, after_q + h3n, n - 1);
    proof {
        assert(body.drop_last() =~= s@.subrange(after_q + h3@.len() as int, n - 1));
    }
    Some(
        Envelope {
            record: rec,
            queue: chars_to_string(q_chars),
            data: chars_to_string(data_chars),
        },
    )
}

/// Decodes a client frame into a request, or says why it is rejected.
pub fn decode_client(s: &str) -> (r: Result<ClientRequest, ProtocolError>)
    ensures
        match r {
            Ok(req) => decode_client_text(s@) == Ok::<_, ProtocolError>(
                (req.record, req.mount, req.queue@),
            ),
            Err(e) => decode_client_text(s@) == Err::<(Records, Mounts, Seq<char>), _>(e),
        },
{
    let h1 = "{\"record\":\"";
    let n = s.unicode_len();
    let h1n = h1.unicode_len();
    if h1n > n {
        return Err(ProtocolError::Malformed);
    }
    if !has_at(s, 0, h1) {
        proof {
            assert(s@.take(h1@.len() as int) == s@.subrange(0, h1@.len() as int));
        }
        return Err(ProtocolError::Malformed);
    }
    proof {
        assert(s@.take(h1@.len() as int) == s@.subrange(0, h1@.len() as int));
    }
    let (rec_chars, after_rec) = match read_quoted(s, h1n) {
        Some(p) => p,
        None => {
            return Err(ProtocolError::Malformed);
        },
    };
    let rec_name = chars_to_string(rec_chars);
    let rec = match record_of_str(rec_name.as_str()) {
        Some(rec) => rec,
        None => {
            return Err(ProtocolError::UnknownRecord);
        },
    };
    let hm = ",\"mount\":\"";
    let hmn = hm.unicode_len();
    if !has_at(s, after_rec, hm) {
        proof {
            lemma_skip_take(s@, after_rec as int, hm@.len() as int);
        }
        return Err(ProtocolError::Malformed);
    }
    proof {
        lemma_skip_take(s@, after_rec as int, hm@.len() as int);
        lemma_skip_skip(s@, after_rec as int, hm@.len() as int);
    }
    let (mount_chars, after_mount) = match read_quoted(s, after_rec + hmn) {
        Some(p) => p,
        None => {
            return Err(ProtocolError::Malformed);
        },
    };
    let mount_name = chars_to_string(mount_chars);
    let mount = match mount_of_str(mount_name.as_str()) {
        Some(mount) => mount,
        None => {
            return Err(ProtocolError::UnknownMount);
        },
    };
    let hq = ",\"queue\":\"";
    let hqn = hq.unicode_len();
    if !has_at(s, after_mount, hq) {
        proof {
            lemma_skip_take(s@, after_mount as int, hq@.len() as int);
        }
        return Err(ProtocolError::Malformed);
    }
    proof {
        lemma_skip_take(s@, after_mount as int, hq@.len() as int);
        lemma_skip_skip(s@, after_mount as int, hq@.len() as int);
    }
    let (q_chars, after_q) = match read_quoted(s, after_mount + hqn) {
        Some(p) => p,
        None => {
            return Err(ProtocolError::Malformed);
        },
    };
    if !client_tail_check(s, after_q) {
        return Err(ProtocolError::Malformed);
    }
    Ok(ClientRequest { record: rec, mount, queue: chars_to_string(q_chars) })
}

/// Whether what follows position `at` is an accepted client-frame tail.
fn client_tail_check(s: &str, at: usize) -> (b: bool)
    requires
        at <= s@.len(),
    ensures
        b == client_tail_ok(s@.skip(at as int)),
{
    let n = s.unicode_len();
    let hd = ",\"data\":";
    let hdn = hd.unicode_len();
    proof {
        reveal_strlit(",\"data\":");
        reveal_strlit("}");
        assert(",\"data\":"@.len() == 8);
        assert("}"@.len() == 1);
    }
    let ghost rest = s@.skip(at as int);
    if n - at == 1 && s.get_char(at) == '}' {
        proof {
            assert(rest =~= "}"@);
        }
        return true;
    }
    proof {
        if rest == "}"@ {
            assert(rest.len() == 1);
            assert(s@[at as int] == rest[0]);
        }
    }
    if n - at >= hdn + 2 {
        if !has_at(s, at, hd) {
            proof {
                lemma_skip_take(s@, at as int, hd@.len() as int);
            }
            return false;
        }
        proof {
            lemma_skip_take(s@, at as int, hd@.len() as int);
            assert(rest.last() == s@[n - 1]);
        }
        s.get_char(n - 1) == '}'
    } else {
        false
    }
}

/// Taking from a skipped sequence reads the original by subrange.
proof fn lemma_skip_take(s: Seq<char>, at: int, k: int)
    requires
        0 <= at <= s.len(),
        0 <= k,
    ensures
        at + k <= s.len() ==> s.skip(at).take(k) == s.subrange(at, at + k),
        s.skip(at).len() == s.len() - at,
{
    if at + k <= s.len() {
        assert(s.skip(at).take(k) =~= s.subrange(at, at + k));
    }
}

/// Skipping twice is skipping once by the sum.
proof fn lemma_skip_skip(s: Seq<char>, at: int, k: int)
    requires
        0 <= at,
        0 <= k,
        at + k <= s.len(),
    ensures
        s.skip(at).skip(k) == s.skip(at + k),
{
    assert(s.skip(at).skip(k) =~= s.skip(at + k));
}

} // verus!
