//! Backplane channel names. Two namespaces exist: `chat:{room_id}` for a
//! room's broadcast channel and `priv_user:{user_id}` for a user's private
//! channel.
use vstd::prelude::*;

use crate::textnum::{dec_digits, lemma_dec_digits_value, render_u64};

verus! {

/// A channel: a room's broadcast channel or a user's private channel.
#[derive(Clone, Copy, Debug, PartialEq, Eq, Structural)]
pub enum Channel {
    Chat(u64),
    PrivUser(u64),
}

/// The broadcast channel name of a room.
pub open spec fn chat_channel_name(room: nat) -> Seq<char> {
    "chat:"@ + dec_digits(room)
}

/// The private channel name of a user.
pub open spec fn priv_channel_name(user: nat) -> Seq<char> {
    "priv_user:"@ + dec_digits(user)
}

/// The name of a channel.
pub open spec fn channel_name(c: Channel) -> Seq<char> {
    match c {
        Channel::Chat(room) => chat_channel_name(room as nat),
        Channel::PrivUser(user) => priv_channel_name(user as nat),
    }
}

/// Digit strings of the same value are equal (they are canonical).
proof fn lemma_canonical_digits_unique(a: nat, b: nat)
    requires
        dec_digits(a) == dec_digits(b),
    ensures
        a == b,
{
    lemma_dec_digits_value(a);
    lemma_dec_digits_value(b);
}

/// Distinct channels have distinct names: `chat:` names and `priv_user:`
/// names never collide, and each name determines its identifier.
pub proof fn lemma_channel_names_injective(a: Channel, b: Channel)
    requires
        channel_name(a) == channel_name(b),
    ensures
        a == b,
{
    reveal_strlit("chat:");
    reveal_strlit("priv_user:");
    assert("chat:"@.len() == 5);
    assert("priv_user:"@.len() == 10);
    match (a, b) {
        (Channel::Chat(x), Channel::Chat(y)) => {
            assert(chat_channel_name(x as nat).skip(5) =~= dec_digits(x as nat));
            assert(chat_channel_name(y as nat).skip(5) =~= dec_digits(y as nat));
            lemma_canonical_digits_unique(x as nat, y as nat);
        },
        (Channel::PrivUser(x), Channel::PrivUser(y)) => {
            assert(priv_channel_name(x as nat).skip(10) =~= dec_digits(x as nat));
            assert(priv_channel_name(y as nat).skip(10) =~= dec_digits(y as nat));
            lemma_canonical_digits_unique(x as nat, y as nat);
        },
        (Channel::Chat(x), Channel::PrivUser(y)) => {
            assert(chat_channel_name(x as nat)[0] == 'c');
            assert(priv_channel_name(y as nat)[0] == 'p');
        },
        (Channel::PrivUser(x), Channel::Chat(y)) => {
            assert(priv_channel_name(x as nat)[0] == 'p');
            assert(chat_channel_name(y as nat)[0] == 'c');
        },
    }
}

/// The characters of a room's broadcast channel name.
pub fn chat_channel_chars(room: u64) -> (v: Vec<char>)
    ensures
        v@ == chat_channel_name(room as nat),
{
    let mut v: Vec<char> = Vec::new();
    v.push('c');
    v.push('h');
    v.push('a');
    v.push('t');
    v.push(':');
    proof {
        reveal_strlit("chat:");
        assert(v@ =~= "chat:"@);
    }
    let mut digits = render_u64(room);
    v.append(&mut digits);
    v
}

/// The characters of a user's private channel name.
pub fn priv_channel_chars(user: u64) -> (v: Vec<char>)
    ensures
        v@ == priv_channel_name(user as nat),
{
    let mut v: Vec<char> = Vec::new();
    v.push('p');
    v.push('r');
    v.push('i');
    v.push('v');
    v.push('_');
    v.push('u');
    v.push('s');
    v.push('e');
    v.push('r');
    v.push(':');
    proof {
        reveal_strlit("priv_user:");
        assert(v@ =~= "priv_user:"@);
    }
    let mut digits = render_u64(user);
    v.append(&mut digits);
    v
}

} // verus!
