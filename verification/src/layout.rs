//! What happened when a saved layout was asked for, and which of those
//! outcomes the user is told about.

use vstd::prelude::*;
use crate::text::{dec, push_dec, push_str};

verus! {

/// How much the saved layout's cluster-identity check is worth.
#[derive(Debug, Clone, Copy, PartialEq, Eq, Structural)]
pub enum Trust {
    /// The stored cluster fingerprint matched the one observed now.
    Verified,
    /// The identity could not be confirmed (no fingerprint on one side).
    Unverified,
}

/// What happened when a layout was asked for.
#[derive(Debug, Clone, PartialEq, Eq)]
pub enum Loaded {
    /// No file yet: an ordinary first run, nothing to announce.
    Fresh,
    /// Loaded, with how much the identity check is worth.
    Restored { slots: usize, trust: Trust },
    /// A file existed and was not usable; the map starts fresh and the
    /// reason is worth surfacing.
    Discarded(String),
}

/// The line a load outcome announces, or `None` when there is nothing
/// worth saying.
pub open spec fn announce_spec(l: Loaded) -> Option<Seq<char>> {
    match l {
        Loaded::Fresh => None,
        Loaded::Restored { slots, trust } => match trust {
            Trust::Verified => None,
            Trust::Unverified => Some(
                "restored "@ + dec(slots as nat)
                    + " map positions \u{2014} could not confirm this is the same cluster"@,
            ),
        },
        Loaded::Discarded(why) => Some(why@),
    }
}

/// The message for a layout file that exists but could not be read.
pub open spec fn read_failed_spec(err: Seq<char>) -> Seq<char> {
    "could not read the saved map ("@ + err + ") \u{2014} starting fresh"@
}

/// The message for a layout file that could not be parsed; it was moved to
/// `aside` rather than deleted.
pub open spec fn unreadable_spec(err: Seq<char>, aside: Seq<char>) -> Seq<char> {
    "the saved map was unreadable ("@ + err + ") \u{2014} starting fresh; the old file is at "@
        + aside
}

impl Loaded {
    /// A line for the user, or `None` when there is nothing worth saying.
    pub fn announce(&self) -> (r: Option<String>)
        ensures
            match announce_spec(*self) {
                Some(t) => r is Some && r->0@ == t,
                None => r is None,
            },
    {
        match self {
            Loaded::Fresh => None,
            Loaded::Restored { slots, trust } => match trust {
                Trust::Verified => None,
                Trust::Unverified => {
                    let mut s = String::new();
                    push_str(&mut s, "restored ");
                    push_dec(&mut s, *slots as u64);
                    push_str(
                        &mut s,
                        " map positions \u{2014} could not confirm this is the same cluster",
                    );
                    Some(s)
                },
            },
            Loaded::Discarded(why) => Some(why.clone()),
        }
    }

    /// The outcome for a layout file that exists but could not be read.
    pub fn read_failed(err: &str) -> (r: Loaded)
        ensures
            r matches Loaded::Discarded(why) && why@ == read_failed_spec(err@),
    {
        let mut s = String::new();
        push_str(&mut s, "could not read the saved map (");
        push_str(&mut s, err);
        push_str(&mut s, ") \u{2014} starting fresh");
        Loaded::Discarded(s)
    }

    /// The outcome for a layout file that could not be parsed and was moved
    /// to `aside`.
    pub fn unreadable(err: &str, aside: &str) -> (r: Loaded)
        ensures
            r matches Loaded::Discarded(why) && why@ == unreadable_spec(err@, aside@),
    {
        let mut s = String::new();
        push_str(&mut s, "the saved map was unreadable (");
        push_str(&mut s, err);
        push_str(&mut s, ") \u{2014} starting fresh; the old file is at ");
        push_str(&mut s, aside);
        Loaded::Discarded(s)
    }
}

/// Only an unverified restore or a discarded file announces itself: a
/// fresh start and a verified restore say nothing.
pub proof fn lemma_only_worth_reporting_announces(l: Loaded)
    ensures
        announce_spec(l) is Some <==> (l is Discarded || l matches Loaded::Restored {
            trust: Trust::Unverified,
            ..
        }),
{
}

} // verus!
