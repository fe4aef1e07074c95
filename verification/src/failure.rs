//! The failure latch of a component: a write-once error store plus a
//! notification channel. The latch records at most one error for the life
//! of the component; every failure, first or subsequent, produces one more
//! notification, and a notification always carries the latched error.

use crate::errors::{PluginError, PluginErrorV};
use vstd::prelude::*;

verus! {

/// The mathematical model of a failure latch: the latched error, whether
/// an observer is installed, and how many notifications were delivered.
pub struct FailureView {
    pub error: Option<PluginErrorV>,
    pub installed: bool,
    pub notified: nat,
}

/// The effect of one failure on a latch model: the first error is latched;
/// a later error is dropped; either way one more notification, carrying
/// the latched error, is delivered.
pub open spec fn fail_step(f: FailureView, e: PluginErrorV) -> FailureView {
    match f.error {
        None => FailureView { error: Some(e), installed: f.installed, notified: f.notified + 1 },
        Some(first) => FailureView {
            error: Some(first),
            installed: f.installed,
            notified: f.notified + 1,
        },
    }
}

/// The failure latch. The notification callback of the design is modeled
/// as a counter of deliveries: every delivery carries the latched error,
/// so an observer's view is the pair (latched error, delivery count),
/// which the host reads back through `failure` and `notified`.
pub struct FailureHandler {
    error: Option<PluginError>,
    installed: bool,
    notified: u64,
}

impl FailureHandler {
    /// The model of this latch.
    pub closed spec fn view(self) -> FailureView {
        FailureView {
            error: match self.error {
                Some(e) => Some(e@),
                None => None,
            },
            installed: self.installed,
            notified: self.notified as nat,
        }
    }

    /// The latched error, exactly as it was stored.
    pub closed spec fn error_spec(self) -> Option<PluginError> {
        self.error
    }

    /// A fresh latch: unfailed, no observer, nothing notified.
    pub fn new() -> (r: FailureHandler)
        ensures
            r@ == (FailureView { error: None, installed: false, notified: 0 }),
            r.error_spec() is None,
    {
        FailureHandler { error: None, installed: false, notified: 0 }
    }

    /// Install (or replace) the notification observer. Deliveries are only
    /// counted while an observer is installed, so installation must happen
    /// before the first failure.
    pub fn set_handler(&mut self)
        ensures
            final(self)@ == (FailureView {
                error: old(self)@.error,
                installed: true,
                notified: old(self)@.notified,
            }),
            final(self).error_spec() == old(self).error_spec(),
    {
        self.installed = true;
    }

    /// Record a failure. If the latch is empty the error is stored; a
    /// later error is dropped. Either way the observer is notified once
    /// more with the latched error. Failing without an installed observer
    /// is a programming error.
    pub fn fail(&mut self, error: PluginError)
        requires
            old(self)@.installed,
            old(self)@.notified < u64::MAX,
        ensures
            final(self)@ == fail_step(old(self)@, error@),
            final(self).error_spec() == (match old(self).error_spec() {
                None => Some(error),
                Some(first) => Some(first),
            }),
    {
        if self.error.is_none() {
            self.error = Some(error);
        }
        self.notified = self.notified + 1;
    }

    /// The latched error, if the component has failed.
    pub fn failure(&self) -> (r: Option<&PluginError>)
        ensures
            match r {
                Some(e) => self.error_spec() == Some(*e),
                None => self.error_spec() is None,
            },
    {
        self.error.as_ref()
    }

    /// How many failure notifications were delivered to the observer.
    pub fn notified(&self) -> (r: u64)
        ensures
            r as nat == self@.notified,
    {
        self.notified
    }
}

/// Idempotence of failure: two failures on one latch, however different
/// their errors, leave the first error latched, and each of the two
/// deliveries carries that first error.
pub proof fn lemma_failure_idempotent(f: FailureView, e1: PluginErrorV, e2: PluginErrorV)
    requires
        f.error is None,
    ensures
        fail_step(fail_step(f, e1), e2).error == Some(e1),
        fail_step(fail_step(f, e1), e2).notified == f.notified + 2,
{
}

} // verus!
