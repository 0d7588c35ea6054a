//! The message counter of the shared-state bot.

use vstd::prelude::*;
use vstd::string::*;

use crate::text::{decimal, decimal_text};

verus! {

/// How many messages the bot has received in total, modulo 2^64 as with an
/// atomic counter that is incremented on each message.
pub struct MessageCounter {
    total: u64,
}

impl View for MessageCounter {
    type V = nat;

    closed spec fn view(&self) -> nat {
        self.total as nat
    }
}

/// The total after `k` more messages, starting from `total`.
pub open spec fn after_messages(total: nat, k: nat) -> nat {
    (total + k) % 0x1_0000_0000_0000_0000
}

impl MessageCounter {
    /// A counter that has seen no message.
    pub fn new() -> (c: Self)
        ensures
            c@ == 0,
    {
        MessageCounter { total: 0 }
    }

    /// The number of messages counted so far.
    pub fn total(&self) -> (t: u64)
        ensures
            t == self@,
    {
        self.total
    }

    /// Counts one more message and returns the number counted before it.
    pub fn record(&mut self) -> (previous: u64)
        ensures
            previous == old(self)@,
            final(self)@ == after_messages(old(self)@, 1),
    {
        let previous = self.total;
        self.total = self.total.wrapping_add(1);
        previous
    }
}

/// Counting `j` messages and then `k` more is counting `j + k` messages.
pub proof fn lemma_after_messages_add(total: nat, j: nat, k: nat)
    requires
        total < 0x1_0000_0000_0000_0000,
    ensures
        after_messages(after_messages(total, j), k) == after_messages(total, j + k),
{
    let m: int = 0x1_0000_0000_0000_0000;
    vstd::arithmetic::div_mod::lemma_add_mod_noop_right(k as int, (total + j) as int, m);
    assert(k + (total + j) == total + (j + k));
}

/// From a fresh counter, the `k`-th message (counting from 0) is told that
/// `k` messages came before it, as long as fewer than 2^64 messages came.
pub proof fn lemma_fresh_counter_counts(k: nat)
    requires
        k < 0x1_0000_0000_0000_0000,
    ensures
        after_messages(0, k) == k,
{
}

/// The reply to a message, given how many messages came before it.
pub open spec fn total_reply(previous: u64) -> Seq<char> {
    "I received "@ + decimal(previous as nat) + " messages in total."@
}

/// The reply tells exactly the number of earlier messages, in decimal.
pub proof fn lemma_total_reply(previous: u64)
    ensures
        total_reply(previous) == "I received "@ + decimal(previous as nat)
            + " messages in total."@,
{
}

/// Tells how many messages came before this one.
pub fn messages_total_reply(previous: u64) -> (r: String)
    ensures
        r@ == total_reply(previous),
{
    String::from_str("I received ").concat(decimal_text(previous).as_str()).concat(
        " messages in total.",
    )
}

} // verus!
