use vstd::prelude::*;

use crate::DhtError;

verus! {

/// The byte-sum checksum of a data word: the sum of its four bytes, modulo 256.
pub open spec fn crc_of(data: u32) -> u32 {
    (((data & 0xFF) + ((data >> 8) & 0xFF) + ((data >> 16) & 0xFF) + ((data >> 24) & 0xFF)) % 256) as u32
}

/// Computes the checksum that the sensor sends after its data word.
pub fn compute_crc(data: u32) -> (r: u32)
    ensures
        r == crc_of(data),
        r < 256,
{
    proof {
        assert(data & 0x000000FF < 256) by (bit_vector);
        assert((data & 0x0000FF00) >> 8 == (data >> 8) & 0xFF) by (bit_vector);
        assert((data & 0x00FF0000) >> 16 == (data >> 16) & 0xFF) by (bit_vector);
        assert((data & 0xFF000000) >> 24 == (data >> 24) & 0xFF) by (bit_vector);
        assert((data >> 8) & 0xFF < 256) by (bit_vector);
        assert((data >> 16) & 0xFF < 256) by (bit_vector);
        assert((data >> 24) & 0xFF < 256) by (bit_vector);
    }
    let mut crc: u32 = 0;
    crc += data & 0x000000FF;
    crc += (data & 0x0000FF00) >> 8;
    crc += (data & 0x00FF0000) >> 16;
    crc += (data & 0xFF000000) >> 24;
    crc % 256
}

/// What the library expects of the two words of a reading: the two halves of the data word
/// (low half first) when the checksum matches, else a `CrcMismatch` carrying both words.
pub open spec fn checked(word0: u32, word1: u32) -> Result<(u16, u16), DhtError> {
    if crc_of(word0) != word1 % 256 {
        Err(DhtError::CrcMismatch(word0, word1))
    } else {
        Ok(((word0 % 0x10000) as u16, (word0 / 0x10000) as u16))
    }
}

/// Validates a received data word against its checksum word and splits it into its halves.
pub fn check_reading(word0: u32, word1: u32) -> (r: Result<(u16, u16), DhtError>)
    ensures
        r == checked(word0, word1),
{
    if compute_crc(word0) != word1 & 0xFF {
        proof {
            assert(word1 & 0xFF == word1 % 256) by (bit_vector);
        }
        Err(DhtError::CrcMismatch(word0, word1))
    } else {
        proof {
            assert(word1 & 0xFF == word1 % 256) by (bit_vector);
            assert(word0 & 0xFFFF == word0 % 0x10000) by (bit_vector);
            assert(word0 >> 16 == word0 / 0x10000) by (bit_vector);
        }
        Ok(((word0 & 0xFFFF) as u16, (word0 >> 16) as u16))
    }
}

/// The state machine's clock divisor for a system clock of `system_clock_mhz` megahertz, so
/// that one state-machine cycle lasts one microsecond; `None` where no 16-bit integer divisor
/// gives that.
pub fn clock_divisor(system_clock_mhz: u32) -> (r: Option<u16>)
    ensures
        r == (if 1 <= system_clock_mhz <= u16::MAX {
            Some(system_clock_mhz as u16)
        } else {
            None::<u16>
        }),
{
    if system_clock_mhz >= 1 && system_clock_mhz <= 0xFFFF {
        Some(system_clock_mhz as u16)
    } else {
        None
    }
}

/// What the caller does after one poll of the co-processor's output queue, once it has
/// slept for one millisecond.
#[derive(Debug, Clone, Copy, PartialEq, Eq)]
pub enum Next {
    /// Poll the queue again.
    Continue,
    /// The countdown ran out with fewer than two words: restart the state machine; the
    /// transaction fails with `Timeout`.
    Restart,
    /// Both words arrived in time; the transaction ends with this result.
    Finish(Result<(u16, u16), DhtError>),
}

/// One read transaction: the start-signal length it was begun with, the polls it has left,
/// and the words received so far.
#[derive(Debug, Clone, Copy, PartialEq, Eq)]
pub struct Transaction {
    pub start_signal_length: u32,
    pub countdown: u32,
    pub first: Option<u32>,
    pub second: Option<u32>,
}

/// The start-signal lengths a transaction can be begun with.
pub open spec fn valid_start_signal_length(start_signal_length: u32) -> bool {
    1 <= start_signal_length <= u32::MAX - 10
}

/// A fresh transaction: ten polls of margin beyond the start signal, no words yet.
pub open spec fn initial(start_signal_length: u32) -> Transaction {
    Transaction {
        start_signal_length,
        countdown: (start_signal_length + 10) as u32,
        first: None,
        second: None,
    }
}

/// How many words a transaction holds.
pub open spec fn held(t: Transaction) -> nat {
    (if t.first is Some { 1nat } else { 0nat }) + (if t.second is Some { 1nat } else { 0nat })
}

impl Transaction {
    /// The transaction is still waiting for words and has polls left.
    pub open spec fn polling(self) -> bool {
        &&& self.countdown > 0
        &&& self.second is None
    }

    /// A second word is never held without a first.
    pub open spec fn well_formed(self) -> bool {
        self.second is Some ==> self.first is Some
    }

    /// The transaction after one poll that yielded `received`: the word, if any, fills the
    /// first empty slot, and the countdown drops by one.
    pub open spec fn after(self, received: Option<u32>) -> Transaction {
        let (first, second) = match received {
            Some(d) => if self.first is None {
                (Some(d), self.second)
            } else {
                (self.first, Some(d))
            },
            None => (self.first, self.second),
        };
        Transaction {
            start_signal_length: self.start_signal_length,
            countdown: (self.countdown - 1) as u32,
            first,
            second,
        }
    }

    /// What a transaction in this state asks of its caller. Two words held end it with
    /// the result of checking them, also where they completed on the last poll; only a
    /// countdown spent with fewer than two words asks for a restart.
    pub open spec fn next(self) -> Next {
        match (self.first, self.second) {
            (Some(w0), Some(w1)) => Next::Finish(checked(w0, w1)),
            _ => if self.countdown == 0 {
                Next::Restart
            } else {
                Next::Continue
            },
        }
    }

    /// Begins a transaction with the given start-signal length.
    pub fn begin(start_signal_length: u32) -> (t: Transaction)
        requires
            valid_start_signal_length(start_signal_length),
        ensures
            t == initial(start_signal_length),
            t.polling(),
            t.well_formed(),
    {
        Transaction { start_signal_length, countdown: start_signal_length + 10, first: None, second: None }
    }

    /// The value written to the co-processor's input queue to start the transaction: the
    /// start-signal length less one, since the program counts at least one tick.
    pub fn start_command(&self) -> (r: u32)
        requires
            valid_start_signal_length(self.start_signal_length),
        ensures
            r == self.start_signal_length - 1,
    {
        self.start_signal_length - 1
    }

    /// Takes the outcome of one poll of the output queue and says what to do next.
    pub fn step(&mut self, received: Option<u32>) -> (r: Next)
        requires
            old(self).polling(),
            old(self).well_formed(),
        ensures
            *final(self) == old(self).after(received),
            final(self).well_formed(),
            r == final(self).next(),
    {
        match received {
            Some(d) => {
                if self.first.is_none() {
                    self.first = Some(d);
                } else {
                    self.second = Some(d);
                }
            },
            None => {},
        }
        self.countdown = self.countdown - 1;
        match (self.first, self.second) {
            (Some(w0), Some(w1)) => Next::Finish(check_reading(w0, w1)),
            _ => if self.countdown == 0 {
                Next::Restart
            } else {
                Next::Continue
            },
        }
    }
}

/// Feeds the outcomes of successive polls to a transaction until it asks for something other
/// than another poll or the outcomes run out; gives the last state and what it asked.
pub open spec fn run(t: Transaction, polls: Seq<Option<u32>>) -> (Transaction, Next)
    decreases polls.len(),
{
    if polls.len() == 0 {
        (t, Next::Continue)
    } else {
        let t2 = t.after(polls[0]);
        match t2.next() {
            Next::Continue => run(t2, polls.drop_first()),
            n => (t2, n),
        }
    }
}

/// How many of the polls yielded a word.
pub open spec fn words_in(polls: Seq<Option<u32>>) -> nat
    decreases polls.len(),
{
    if polls.len() == 0 {
        0
    } else {
        (if polls[0] is Some { 1nat } else { 0nat }) + words_in(polls.drop_first())
    }
}

/// `k` polls that each found the queue empty.
pub open spec fn empty_polls(k: nat) -> Seq<Option<u32>> {
    Seq::new(k, |i: int| None::<u32>)
}

proof fn lemma_timeout_from(t: Transaction, polls: Seq<Option<u32>>)
    requires
        t.polling(),
        t.well_formed(),
        polls.len() >= t.countdown,
        held(t) + words_in(polls.take(t.countdown as int)) < 2,
    ensures
        run(t, polls).1 == Next::Restart,
        run(t, polls).0.countdown == 0,
    decreases t.countdown,
{
    let c = t.countdown as int;
    let t2 = t.after(polls[0]);
    assert(polls.take(c).drop_first() =~= polls.drop_first().take(c - 1));
    assert(polls.take(c)[0] == polls[0]);
    if t2.countdown > 0 {
        lemma_timeout_from(t2, polls.drop_first());
    }
}

proof fn lemma_skip_empty(t: Transaction, k: nat, rest: Seq<Option<u32>>)
    requires
        t.polling(),
        t.well_formed(),
        k < t.countdown,
    ensures
        run(t, empty_polls(k) + rest) == run(
            Transaction { countdown: (t.countdown - k) as u32, ..t },
            rest,
        ),
    decreases k,
{
    if k > 0 {
        let polls = empty_polls(k) + rest;
        let t2 = t.after(None);
        assert(polls[0] == None::<u32>);
        assert(polls.drop_first() =~= empty_polls((k - 1) as nat) + rest);
        lemma_skip_empty(t2, (k - 1) as nat, rest);
    } else {
        assert(empty_polls(k) + rest =~= rest);
    }
}

/// A transaction that receives fewer than two words during its countdown of
/// `start_signal_length + 10` polls ends by asking for a restart of the state machine, which
/// it does exactly when the countdown is spent, and so fails with `Timeout`.
pub proof fn timeout_without_two_words(start_signal_length: u32, polls: Seq<Option<u32>>)
    requires
        valid_start_signal_length(start_signal_length),
        polls.len() >= start_signal_length + 10,
        words_in(polls.take(start_signal_length + 10)) < 2,
    ensures
        run(initial(start_signal_length), polls).1 == Next::Restart,
        run(initial(start_signal_length), polls).0.countdown == 0,
{
    lemma_timeout_from(initial(start_signal_length), polls);
}

/// Two words that arrive within the countdown, its last poll included, end the transaction
/// with the result of checking them, never with a restart; where the checksum does not match, that result is
/// `CrcMismatch` carrying exactly the two words received.
pub proof fn two_words_in_time(
    start_signal_length: u32,
    gap0: nat,
    word0: u32,
    gap1: nat,
    word1: u32,
    rest: Seq<Option<u32>>,
)
    requires
        valid_start_signal_length(start_signal_length),
        gap0 + gap1 + 2 <= start_signal_length + 10,
    ensures
        ({
            let polls = empty_polls(gap0) + seq![Some(word0)] + empty_polls(gap1) + seq![Some(word1)]
                + rest;
            &&& run(initial(start_signal_length), polls).1 == Next::Finish(checked(word0, word1))
            &&& crc_of(word0) != word1 & 0xFF ==> run(initial(start_signal_length), polls).1
                == Next::Finish(Err(DhtError::CrcMismatch(word0, word1)))
        }),
{
    let t0 = initial(start_signal_length);
    let tail1 = seq![Some(word1)] + rest;
    let tail0 = seq![Some(word0)] + (empty_polls(gap1) + tail1);
    let polls = empty_polls(gap0) + seq![Some(word0)] + empty_polls(gap1) + seq![Some(word1)] + rest;
    assert(polls =~= empty_polls(gap0) + tail0);
    lemma_skip_empty(t0, gap0, tail0);
    let ta = Transaction { countdown: (t0.countdown - gap0) as u32, ..t0 };
    let tb = ta.after(Some(word0));
    assert(tail0[0] == Some(word0));
    assert(tail0.drop_first() =~= empty_polls(gap1) + tail1);
    lemma_skip_empty(tb, gap1, tail1);
    let tc = Transaction { countdown: (tb.countdown - gap1) as u32, ..tb };
    assert(tail1[0] == Some(word1));
    assert(word1 & 0xFF == word1 % 256) by (bit_vector);
}

} // verus!
