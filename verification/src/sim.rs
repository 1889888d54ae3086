use vstd::prelude::*;

use crate::block::{block_views, Block};
use crate::card::{Card, CardError, CardLink, ClockClass};
use crate::presence::{RetryDelay, StatusIndicator};

verus! {

/// How a saturating `u64` observer relates to an unbounded transaction
/// count: equal until the observer tops out.
pub open spec fn counter_shows(shown: u64, actual: nat) -> bool {
    if actual <= u64::MAX {
        shown == actual
    } else {
        shown == u64::MAX
    }
}

/// Saturating increment for the observable counters.
fn sat_inc(c: u64) -> (r: u64)
    ensures
        c < u64::MAX ==> r == c + 1,
        c == u64::MAX ==> r == u64::MAX,
{
    if c < u64::MAX {
        c + 1
    } else {
        c
    }
}

/// A RAM-backed card link: the whole card lives in memory.
///
/// It implements the same contract as the hardware link, counts every bus
/// transaction, and can be told to fail upcoming operations, so the retry
/// policy and the partial-batch semantics of the adapters can be exercised
/// without a card. Exact transaction counts are ghost state; the `u64`
/// observers saturate instead of overflowing.
pub struct RamCardLink {
    storage: Vec<Block>,
    card_up: bool,
    init_failures_left: u32,
    read_fault_in: Option<u32>,
    write_fault_in: Option<u32>,
    reads: u64,
    writes: u64,
    inits: u64,
    g_reads: Ghost<nat>,
    g_writes: Ghost<nat>,
    g_inits: Ghost<nat>,
}

impl RamCardLink {
    /// A link over the given card image. The first `init_failures`
    /// initialization attempts will fail with `CardError::NoResponse`,
    /// simulating a card that is absent or slow to come up.
    pub fn new(storage: Vec<Block>, init_failures: u32) -> (r: RamCardLink)
        requires
            1 <= storage@.len() <= u32::MAX,
        ensures
            r.inv(),
            !r.present(),
            r.content() == block_views(storage@),
            r.reads_issued() == 0,
            r.writes_issued() == 0,
            r.init_attempts() == 0,
    {
        RamCardLink {
            storage,
            card_up: false,
            init_failures_left: init_failures,
            read_fault_in: None,
            write_fault_in: None,
            reads: 0,
            writes: 0,
            inits: 0,
            g_reads: Ghost(0),
            g_writes: Ghost(0),
            g_inits: Ghost(0),
        }
    }

    /// Make the read transaction that comes after the next `after`
    /// successful reads fail once.
    pub fn inject_read_fault(&mut self, after: u32)
        requires
            old(self).inv(),
        ensures
            final(self).inv(),
            final(self).present() == old(self).present(),
            final(self).content() == old(self).content(),
            final(self).reads_issued() == old(self).reads_issued(),
            final(self).writes_issued() == old(self).writes_issued(),
            final(self).init_attempts() == old(self).init_attempts(),
    {
        self.read_fault_in = Some(after);
    }

    /// Make the write transaction that comes after the next `after`
    /// successful writes fail once.
    pub fn inject_write_fault(&mut self, after: u32)
        requires
            old(self).inv(),
        ensures
            final(self).inv(),
            final(self).present() == old(self).present(),
            final(self).content() == old(self).content(),
            final(self).reads_issued() == old(self).reads_issued(),
            final(self).writes_issued() == old(self).writes_issued(),
            final(self).init_attempts() == old(self).init_attempts(),
    {
        self.write_fault_in = Some(after);
    }

    /// How many read transactions have been issued, saturating at
    /// `u64::MAX`.
    pub fn read_count(&self) -> (r: u64)
        requires
            self.inv(),
        ensures
            counter_shows(r, self.reads_issued()),
    {
        self.reads
    }

    /// How many write transactions have been issued, saturating at
    /// `u64::MAX`.
    pub fn write_count(&self) -> (r: u64)
        requires
            self.inv(),
        ensures
            counter_shows(r, self.writes_issued()),
    {
        self.writes
    }

    /// How many initialization handshakes have been attempted, saturating
    /// at `u64::MAX`.
    pub fn init_count(&self) -> (r: u64)
        requires
            self.inv(),
        ensures
            counter_shows(r, self.init_attempts()),
    {
        self.inits
    }
}

impl CardLink for RamCardLink {
    closed spec fn present(&self) -> bool {
        self.card_up
    }

    closed spec fn content(&self) -> Seq<Seq<u8>> {
        block_views(self.storage@)
    }

    closed spec fn reads_issued(&self) -> nat {
        self.g_reads@
    }

    closed spec fn writes_issued(&self) -> nat {
        self.g_writes@
    }

    closed spec fn init_attempts(&self) -> nat {
        self.g_inits@
    }

    closed spec fn inv(&self) -> bool {
        &&& 1 <= self.storage@.len() <= u32::MAX
        &&& counter_shows(self.reads, self.g_reads@)
        &&& counter_shows(self.writes, self.g_writes@)
        &&& counter_shows(self.inits, self.g_inits@)
    }

    fn init(&mut self, clock: ClockClass) -> (r: Result<(), CardError>) {
        self.inits = sat_inc(self.inits);
        proof {
            self.g_inits@ = self.g_inits@ + 1;
        }
        if self.init_failures_left > 0 {
            self.init_failures_left = self.init_failures_left - 1;
            Err(CardError::NoResponse)
        } else {
            self.card_up = true;
            Ok(())
        }
    }

    fn card(&self) -> (r: Result<Card, CardError>) {
        if self.card_up {
            Ok(Card { block_count: self.storage.len() as u32 })
        } else {
            Err(CardError::NoResponse)
        }
    }

    fn read_block(&mut self, addr: u32, out: &mut Block) -> (r: Result<(), CardError>) {
        self.reads = sat_inc(self.reads);
        proof {
            self.g_reads@ = self.g_reads@ + 1;
        }
        match self.read_fault_in {
            Some(0) => {
                self.read_fault_in = None;
                Err(CardError::Timeout)
            },
            remaining => {
                if let Some(n) = remaining {
                    self.read_fault_in = Some(n - 1);
                }
                *out = self.storage[addr as usize];
                proof {
                    assert(final(out)@ == old(self).content()[addr as int]);
                }
                Ok(())
            },
        }
    }

    fn write_block(&mut self, addr: u32, data: &Block) -> (r: Result<(), CardError>) {
        self.writes = sat_inc(self.writes);
        proof {
            self.g_writes@ = self.g_writes@ + 1;
        }
        match self.write_fault_in {
            Some(0) => {
                self.write_fault_in = None;
                Err(CardError::Timeout)
            },
            remaining => {
                if let Some(n) = remaining {
                    self.write_fault_in = Some(n - 1);
                }
                self.storage[addr as usize] = *data;
                proof {
                    assert(self.content() =~= old(self).content().update(addr as int, data@));
                }
                Ok(())
            },
        }
    }
}

/// A status indicator that only counts its toggles, standing in for the
/// board's LED. The exact count is ghost state; the `u64` observer
/// saturates instead of overflowing.
pub struct CountingIndicator {
    toggled: u64,
    g_toggles: Ghost<nat>,
}

impl CountingIndicator {
    /// An indicator that has never been toggled.
    pub fn new() -> (r: CountingIndicator)
        ensures
            r.inv(),
            r.toggles() == 0,
    {
        CountingIndicator { toggled: 0, g_toggles: Ghost(0) }
    }

    /// How many times the indicator has been toggled, saturating at
    /// `u64::MAX`.
    pub fn toggle_count(&self) -> (r: u64)
        requires
            self.inv(),
        ensures
            counter_shows(r, self.toggles()),
    {
        self.toggled
    }
}

impl StatusIndicator for CountingIndicator {
    closed spec fn toggles(&self) -> nat {
        self.g_toggles@
    }

    closed spec fn inv(&self) -> bool {
        counter_shows(self.toggled, self.g_toggles@)
    }

    fn toggle(&mut self) {
        self.toggled = sat_inc(self.toggled);
        proof {
            self.g_toggles@ = self.g_toggles@ + 1;
        }
    }
}

/// A backoff that elapses instantly and only counts how often it was
/// awaited, so a harness can run many retry rounds at once. The exact
/// count is ghost state; the `u64` observer saturates instead of
/// overflowing.
pub struct InstantDelay {
    paused: u64,
    g_pauses: Ghost<nat>,
}

impl InstantDelay {
    /// A delay that has never been awaited.
    pub fn new() -> (r: InstantDelay)
        ensures
            r.inv(),
            r.pauses() == 0,
    {
        InstantDelay { paused: 0, g_pauses: Ghost(0) }
    }

    /// How many backoff intervals have been awaited, saturating at
    /// `u64::MAX`.
    pub fn pause_count(&self) -> (r: u64)
        requires
            self.inv(),
        ensures
            counter_shows(r, self.pauses()),
    {
        self.paused
    }
}

impl RetryDelay for InstantDelay {
    closed spec fn pauses(&self) -> nat {
        self.g_pauses@
    }

    closed spec fn inv(&self) -> bool {
        counter_shows(self.paused, self.g_pauses@)
    }

    fn pause(&mut self) {
        self.paused = sat_inc(self.paused);
        proof {
            self.g_pauses@ = self.g_pauses@ + 1;
        }
    }
}

} // verus!
