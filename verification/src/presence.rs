use vstd::prelude::*;

use crate::card::{Card, CardLink, ClockClass};

verus! {

/// A binary status output toggled once per failed initialization attempt.
/// The only observable model is how often it has been toggled.
///
/// The model functions carry placeholder default bodies so that an
/// implementation outside the verifier's view — the board's LED — can be
/// written without one; implementations the verifier checks override them.
pub trait StatusIndicator: Sized {
    /// How many times the indicator has been toggled.
    open spec fn toggles(&self) -> nat {
        0
    }

    /// Well-formedness of the indicator state.
    open spec fn inv(&self) -> bool {
        true
    }

    /// Flip the indicator.
    fn toggle(&mut self)
        requires
            old(self).inv(),
        ensures
            final(self).inv(),
            final(self).toggles() == old(self).toggles() + 1,
    ;
}

/// The fixed backoff between initialization attempts, kept behind a trait
/// so a harness can make the wait instantaneous. The only observable model
/// is how often it has been awaited.
///
/// The model functions carry placeholder default bodies so that an
/// implementation outside the verifier's view — a hardware busy-wait — can
/// be written without one; implementations the verifier checks override
/// them.
pub trait RetryDelay: Sized {
    /// How many backoff intervals have been awaited.
    open spec fn pauses(&self) -> nat {
        0
    }

    /// Well-formedness of the delay state.
    open spec fn inv(&self) -> bool {
        true
    }

    /// Wait one backoff interval, on the order of one second.
    fn pause(&mut self)
        requires
            old(self).inv(),
        ensures
            final(self).inv(),
            final(self).pauses() == old(self).pauses() + 1,
    ;
}

/// One attempt of the card presence loop.
///
/// Try the initialization handshake once. On success hand back the card; on
/// failure toggle the status indicator, wait one backoff interval, and
/// report that the caller should try again. The loop itself is the
/// caller's: absence of a card is an expected, indefinitely retried
/// condition, never an error to propagate, so the retry has no upper bound
/// and cannot be a terminating function of this crate. Drive this step
/// until it yields a card; each round adds exactly one initialization
/// attempt, and a failed round exactly one toggle and one pause.
pub fn presence_step<L: CardLink, I: StatusIndicator, D: RetryDelay>(
    link: &mut L,
    indicator: &mut I,
    delay: &mut D,
    clock: ClockClass,
) -> (r: Option<Card>)
    requires
        old(link).inv(),
        old(indicator).inv(),
        old(delay).inv(),
    ensures
        final(link).inv(),
        final(indicator).inv(),
        final(delay).inv(),
        final(link).init_attempts() == old(link).init_attempts() + 1,
        final(link).content() == old(link).content(),
        final(link).reads_issued() == old(link).reads_issued(),
        final(link).writes_issued() == old(link).writes_issued(),
        match r {
            Some(card) => {
                &&& final(link).present()
                &&& card.block_count == final(link).content().len()
                &&& final(indicator).toggles() == old(indicator).toggles()
                &&& final(delay).pauses() == old(delay).pauses()
            },
            None => {
                &&& final(indicator).toggles() == old(indicator).toggles() + 1
                &&& final(delay).pauses() == old(delay).pauses() + 1
            },
        },
{
    match link.init(clock) {
        Ok(()) => {
            match link.card() {
                Ok(card) => Some(card),
                // After a successful handshake a card is present, and the
                // card query cannot fail.
                Err(_) => {
                    proof {
                        assert(false);
                    }
                    None
                },
            }
        },
        Err(_) => {
            indicator.toggle();
            delay.pause();
            None
        },
    }
}

} // verus!
