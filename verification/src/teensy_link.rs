//! The decisions of the motor-controller connection task: reconnect
//! back-off, classification of read results, and which payload to write.
//!
//! The task itself (opening the HID device, reading, writing, sleeping)
//! runs outside the library and asks these functions what to do next.

use crate::communication::{
    hid_report, spec_hid_report, spec_latest_after, spec_rec_msg_from_report, TeensyLastState,
    TeensyRecMSG, HID_REPORT_SIZE,
};
use vstd::prelude::*;
use vstd::string::StringSliceAdditionalSpecFns;

verus! {

/// Delay before the first reconnection attempt, in milliseconds.
pub const INITIAL_BACKOFF_MS: u64 = 100;

/// Longest delay between reconnection attempts, in milliseconds.
pub const MAX_BACKOFF_MS: u64 = 5000;

/// The next delay after waiting `backoff_ms`: doubled, at most
/// `MAX_BACKOFF_MS`.
pub open spec fn spec_next_backoff(backoff_ms: u64) -> u64 {
    if 2 * backoff_ms < MAX_BACKOFF_MS {
        (2 * backoff_ms) as u64
    } else {
        MAX_BACKOFF_MS
    }
}

/// State of the controller connection.
#[derive(Debug, Clone, Copy, PartialEq, Eq, Structural)]
pub struct TeensyLink {
    /// Delay before the next reconnection attempt.
    pub backoff_ms: u64,
    /// Sequence number of the last payload written on this connection.
    pub last_seq: u64,
}

/// What a read from the controller means for the task.
#[derive(Debug, Clone, Copy, PartialEq, Eq, Structural)]
pub enum ReadOutcome {
    /// A full report: store the message and read again.
    Store(TeensyRecMSG),
    /// Nothing (more) to read now: go on to writing.
    Drained,
    /// The device is gone: reconnect.
    Disconnected,
}

/// Whether `pat` occurs in `hay`.
pub open spec fn bytes_contain(hay: Seq<u8>, pat: Seq<u8>) -> bool {
    exists|i: int| 0 <= i && i + pat.len() <= hay.len() && #[trigger] hay.subrange(i, i + pat.len()) == pat
}

fn matches_at(hay: &[u8], pat: &[u8], i: usize) -> (r: bool)
    requires
        i + pat@.len() <= hay@.len(),
    ensures
        r == (hay@.subrange(i as int, i + pat@.len()) == pat@),
{
    let mut k: usize = 0;
    while k < pat.len()
        invariant
            k <= pat@.len(),
            i + pat@.len() <= hay@.len(),
            hay@.len() == hay.len(),
            forall|j: int| 0 <= j < k ==> hay@[i + j] == pat@[j],
        decreases pat@.len() - k,
    {
        if hay[i + k] != pat[k] {
            assert(hay@.subrange(i as int, i + pat@.len())[k as int] != pat@[k as int]);
            return false;
        }
        k = k + 1;
    }
    assert(hay@.subrange(i as int, i + pat@.len()) =~= pat@);
    true
}

/// Whether the byte string `pat` occurs in `hay`.
pub fn contains_bytes(hay: &[u8], pat: &[u8]) -> (r: bool)
    ensures
        r == bytes_contain(hay@, pat@),
{
    if pat.len() > hay.len() {
        return false;
    }
    let last: usize = hay.len() - pat.len();
    let mut i: usize = 0;
    loop
        invariant
            last + pat@.len() == hay@.len(),
            i <= last,
            forall|j: int| 0 <= j < i ==> #[trigger] hay@.subrange(j, j + pat@.len()) != pat@,
        decreases last - i,
    {
        if matches_at(hay, pat, i) {
            return true;
        }
        if i == last {
            return false;
        }
        i = i + 1;
    }
}

/// Whether a read error message means only that nothing is available now.
pub open spec fn spec_is_would_block(message: Seq<u8>) -> bool {
    ||| bytes_contain(message, "Would block".spec_bytes())
    ||| bytes_contain(message, "would block".spec_bytes())
    ||| bytes_contain(message, "Resource temporarily unavailable".spec_bytes())
}

/// Whether a read error message means only that nothing is available now
/// ("Would block", "would block" or "Resource temporarily unavailable").
pub fn is_would_block(message: &str) -> (r: bool)
    ensures
        r == spec_is_would_block(message.spec_bytes()),
{
    let m = message.as_bytes();
    contains_bytes(m, "Would block".as_bytes()) || contains_bytes(m, "would block".as_bytes())
        || contains_bytes(m, "Resource temporarily unavailable".as_bytes())
}

/// A successful read of `data`: a full report is stored, a shorter one ends
/// the reading.
pub fn read_ok_outcome(data: &[u8]) -> (r: ReadOutcome)
    ensures
        r == match spec_rec_msg_from_report(data@) {
            Some(m) => ReadOutcome::Store(m),
            None => ReadOutcome::Drained,
        },
{
    match TeensyRecMSG::from_report(data) {
        Some(m) => ReadOutcome::Store(m),
        None => ReadOutcome::Drained,
    }
}

/// A failed read with error `message`: nothing available ends the reading,
/// anything else means the device is gone.
pub fn read_error_outcome(message: &str) -> (r: ReadOutcome)
    ensures
        r == if spec_is_would_block(message.spec_bytes()) {
            ReadOutcome::Drained
        } else {
            ReadOutcome::Disconnected
        },
{
    if is_would_block(message) {
        ReadOutcome::Drained
    } else {
        ReadOutcome::Disconnected
    }
}

impl TeensyLink {
    /// The back-off stays within its bounds.
    pub open spec fn wf(&self) -> bool {
        INITIAL_BACKOFF_MS <= self.backoff_ms <= MAX_BACKOFF_MS
    }

    /// Not connected yet.
    pub fn new() -> (r: Self)
        ensures
            r.wf(),
            r.backoff_ms == INITIAL_BACKOFF_MS,
            r.last_seq == 0,
    {
        TeensyLink { backoff_ms: INITIAL_BACKOFF_MS, last_seq: 0 }
    }

    /// A connection attempt failed or the device went away: returns how long
    /// to wait before the next attempt, and doubles the delay (up to
    /// `MAX_BACKOFF_MS`).
    pub fn retry_delay(&mut self) -> (wait_ms: u64)
        requires
            old(self).wf(),
        ensures
            wait_ms == old(self).backoff_ms,
            final(self).backoff_ms == spec_next_backoff(old(self).backoff_ms),
            final(self).last_seq == old(self).last_seq,
            final(self).wf(),
    {
        let wait = self.backoff_ms;
        let doubled: u64 = self.backoff_ms * 2;
        self.backoff_ms = if doubled < MAX_BACKOFF_MS {
            doubled
        } else {
            MAX_BACKOFF_MS
        };
        wait
    }

    /// The device is connected: the back-off starts over and nothing has been
    /// written on this connection yet.
    pub fn connected(&mut self)
        ensures
            final(self).backoff_ms == INITIAL_BACKOFF_MS,
            final(self).last_seq == 0,
            final(self).wf(),
    {
        self.backoff_ms = INITIAL_BACKOFF_MS;
        self.last_seq = 0;
    }

    /// The HID report to write next: the latest published payload if it is
    /// newer than the last one written, remembering its sequence number.
    pub fn next_write(&mut self, mailbox: &TeensyLastState) -> (r: Option<[u8; HID_REPORT_SIZE]>)
        ensures
            match spec_latest_after(*mailbox, old(self).last_seq) {
                Some((seq, payload)) => {
                    &&& r matches Some(report) && report@ == spec_hid_report(payload@)
                    &&& final(self).last_seq == seq
                },
                None => r is None && final(self).last_seq == old(self).last_seq,
            },
            final(self).backoff_ms == old(self).backoff_ms,
    {
        match mailbox.latest_after(self.last_seq) {
            Some((seq, payload)) => {
                self.last_seq = seq;
                Some(hid_report(&payload))
            },
            None => None,
        }
    }
}

/// The delay after `failures` consecutive failed attempts.
pub open spec fn backoff_after(failures: nat) -> u64
    decreases failures,
{
    if failures == 0 {
        INITIAL_BACKOFF_MS
    } else {
        spec_next_backoff(backoff_after((failures - 1) as nat))
    }
}

/// The delay doubles from `INITIAL_BACKOFF_MS` with every failure and
/// never exceeds `MAX_BACKOFF_MS`.
pub proof fn lemma_backoff_bounded(failures: nat)
    ensures
        INITIAL_BACKOFF_MS <= backoff_after(failures) <= MAX_BACKOFF_MS,
        failures >= 6 ==> backoff_after(failures) == MAX_BACKOFF_MS,
    decreases failures,
{
    if failures > 0 {
        lemma_backoff_bounded((failures - 1) as nat);
    }
    if failures >= 6 {
        reveal_with_fuel(backoff_after, 7);
        if failures > 6 {
            lemma_backoff_bounded((failures - 1) as nat);
        }
    }
}

/// A payload is written once: right after a write, the same mailbox offers
/// nothing more until the next publication.
pub proof fn lemma_written_once(link: TeensyLink, mailbox: TeensyLastState)
    requires
        spec_latest_after(mailbox, link.last_seq) is Some,
    ensures
        spec_latest_after(mailbox, spec_latest_after(mailbox, link.last_seq).unwrap().0) is None,
{
}

} // verus!
