//! Tracking a value against a quota and warning through a messenger as the
//! quota fills up.

use vstd::prelude::*;

verus! {

/// Delivers a message; implemented by users of the library, who choose how
/// the message is sent.
pub trait Messenger {
    fn send(&self, msg: &str);
}

/// How full the quota is, and so which message is owed.
#[derive(Debug, Clone, Copy, PartialEq, Eq, Structural)]
pub enum QuotaLevel {
    Quiet,
    Warning,
    Urgent,
    OverQuota,
}

/// The level for a value against a maximum: over quota from the maximum
/// itself upward, urgent from nine tenths, a warning from three quarters,
/// and quiet below that. A zero value against a zero maximum stays quiet.
pub open spec fn quota_level_spec(value: int, max: int) -> QuotaLevel {
    if value == 0 && max == 0 {
        QuotaLevel::Quiet
    } else if value >= max {
        QuotaLevel::OverQuota
    } else if 10 * value >= 9 * max {
        QuotaLevel::Urgent
    } else if 4 * value >= 3 * max {
        QuotaLevel::Warning
    } else {
        QuotaLevel::Quiet
    }
}

/// Computes the quota level of a value against a maximum.
pub fn quota_level(value: usize, max: usize) -> (r: QuotaLevel)
    ensures
        r == quota_level_spec(value as int, max as int),
{
    let v = value as u128;
    let m = max as u128;
    if value == 0 && max == 0 {
        QuotaLevel::Quiet
    } else if value >= max {
        QuotaLevel::OverQuota
    } else if 10 * v >= 9 * m {
        QuotaLevel::Urgent
    } else if 4 * v >= 3 * m {
        QuotaLevel::Warning
    } else {
        QuotaLevel::Quiet
    }
}

pub struct LimitTracker<'a, T: Messenger> {
    messenger: &'a T,
    value: usize,
    max: usize,
}

impl<'a, T> LimitTracker<'a, T> where T: Messenger {
    /// The tracked value, as seen by specifications.
    pub closed spec fn value_spec(&self) -> usize {
        self.value
    }

    /// The maximum the value is tracked against.
    pub closed spec fn max_spec(&self) -> usize {
        self.max
    }

    /// A tracker starting at zero against the given maximum.
    pub fn new(messenger: &T, max: usize) -> (r: LimitTracker<T>)
        ensures
            r.value_spec() == 0,
            r.max_spec() == max,
    {
        LimitTracker { messenger, value: 0, max }
    }

    /// Records a new value and sends the message its quota level calls for:
    /// one message at warning, urgent and over-quota levels, none below.
    pub fn set_value(&mut self, value: usize)
        ensures
            final(self).value_spec() == value,
            final(self).max_spec() == old(self).max_spec(),
    {
        self.value = value;

        let level = quota_level(self.value, self.max);
        match level {
            QuotaLevel::OverQuota => {
                self.messenger.send("Error: You are over your quota!");
            },
            QuotaLevel::Urgent => {
                self.messenger.send("Urgent warning: You've used up over 90% of your quota!");
            },
            QuotaLevel::Warning => {
                self.messenger.send("Warning: You've used up over 75% of your quota!");
            },
            QuotaLevel::Quiet => {
            },
        }
    }
}

} // verus!
