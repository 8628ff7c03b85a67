//! A quota tracker that reports how much of an allowance is used.
//!
//! The tracker holds a current value and a maximum, and on every update
//! classifies the usage into a level; for the warning levels it sends a
//! fixed message through a caller-supplied messenger.

use vstd::prelude::*;

verus! {

/// A sink for the tracker's messages; callers implement it themselves.
pub trait Messenger {
    fn send(&self, msg: &str);
}

/// How far along its allowance a tracker's value is.
#[derive(PartialEq, Eq, Structural, Clone, Copy, Debug)]
pub enum QuotaLevel {
    /// Below three quarters of the maximum.
    Normal,
    /// At least three quarters, but under nine tenths.
    Warning,
    /// At least nine tenths, but under the whole allowance.
    Urgent,
    /// The allowance is reached or exceeded.
    Exceeded,
}

/// The level of a value against a maximum, by exact rational comparison.
///
/// A maximum of zero is exceeded by any positive value, while a value
/// of zero against it still counts as normal.
pub open spec fn quota_level(value: int, max: int) -> QuotaLevel {
    if max == 0 {
        if value == 0 {
            QuotaLevel::Normal
        } else {
            QuotaLevel::Exceeded
        }
    } else if value >= max {
        QuotaLevel::Exceeded
    } else if 10 * value >= 9 * max {
        QuotaLevel::Urgent
    } else if 4 * value >= 3 * max {
        QuotaLevel::Warning
    } else {
        QuotaLevel::Normal
    }
}

/// Classifies `value` against `max`.
pub fn level_for(value: usize, max: usize) -> (level: QuotaLevel)
    ensures
        level == quota_level(value as int, max as int),
{
    let v = value as u128;
    let m = max as u128;
    if m == 0 {
        if v == 0 {
            QuotaLevel::Normal
        } else {
            QuotaLevel::Exceeded
        }
    } else if v >= m {
        QuotaLevel::Exceeded
    } else if 10 * v >= 9 * m {
        QuotaLevel::Urgent
    } else if 4 * v >= 3 * m {
        QuotaLevel::Warning
    } else {
        QuotaLevel::Normal
    }
}

/// The message a level calls for: none while usage is normal, a fixed
/// warning line for each threshold that was crossed.
pub fn message_for(level: QuotaLevel) -> (msg: Option<&'static str>)
    ensures
        msg is None <==> level is Normal,
        level is Warning ==> (msg matches Some(m) && m@
            == "Warning: You've used up over 75% of your quota!"@),
        level is Urgent ==> (msg matches Some(m) && m@
            == "Urgent warning: You've used up over 90% of your quota!"@),
        level is Exceeded ==> (msg matches Some(m) && m@ == "Error: You are over your quota!"@),
{
    match level {
        QuotaLevel::Normal => None,
        QuotaLevel::Warning => Some("Warning: You've used up over 75% of your quota!"),
        QuotaLevel::Urgent => Some("Urgent warning: You've used up over 90% of your quota!"),
        QuotaLevel::Exceeded => Some("Error: You are over your quota!"),
    }
}

/// Tracks a value against a maximum and reports threshold crossings.
pub struct LimitTracker<'a, T: Messenger> {
    messenger: &'a T,
    value: usize,
    max: usize,
}

impl<'a, T: Messenger> LimitTracker<'a, T> {
    /// The current value.
    pub closed spec fn value(&self) -> usize {
        self.value
    }

    /// The allowance the value is measured against.
    pub closed spec fn max(&self) -> usize {
        self.max
    }

    /// A fresh tracker starting at zero.
    pub fn new(messenger: &'a T, max: usize) -> (tracker: LimitTracker<'a, T>)
        ensures
            tracker.value() == 0,
            tracker.max() == max,
    {
        LimitTracker { messenger, value: 0, max }
    }

    /// Stores `value` and sends the message of its level, if any.
    pub fn set_value(&mut self, value: usize)
        ensures
            final(self).value() == value,
            final(self).max() == old(self).max(),
    {
        self.value = value;
        match message_for(level_for(value, self.max)) {
            Some(msg) => self.messenger.send(msg),
            None => {},
        }
    }
}

} // verus!
