//! Tracks a value against a quota and sends a message as it nears the quota.
use vstd::prelude::*;

verus! {

/// Something that can deliver a message.
pub trait Messenger {
    fn send(&self, msg: &str);
}

/// How close a value has come to its quota.
#[derive(Clone, Copy, Debug, PartialEq, Eq, Structural)]
pub enum Alert {
    /// At least three quarters of the quota is used.
    Warning,
    /// At least nine tenths of the quota is used.
    Urgent,
    /// The quota is used up.
    Over,
}

/// The alert that `value` raises against `max`: none below three quarters,
/// then a warning, an urgent warning from nine tenths, and over the quota from
/// the quota itself. A zero value raises none.
pub open spec fn alert_for(value: nat, max: nat) -> Option<Alert> {
    if value == 0 || 4 * value < 3 * max {
        None
    } else if 10 * value < 9 * max {
        Some(Alert::Warning)
    } else if value < max {
        Some(Alert::Urgent)
    } else {
        Some(Alert::Over)
    }
}

/// The alert that `value` raises against `max`.
pub fn quota_alert(value: usize, max: usize) -> (r: Option<Alert>)
    ensures
        r == alert_for(value as nat, max as nat),
{
    let v = value as u128;
    let m = max as u128;
    if value == 0 || 4 * v < 3 * m {
        None
    } else if 10 * v < 9 * m {
        Some(Alert::Warning)
    } else if value < max {
        Some(Alert::Urgent)
    } else {
        Some(Alert::Over)
    }
}

impl Alert {
    /// The message sent for this alert.
    pub fn message(&self) -> (r: &'static str)
        ensures
            r@ == alert_message(*self),
    {
        match self {
            Alert::Warning => "Warning: You've used up over 75% of your quota!",
            Alert::Urgent => "Urgent warning: You've used up over 90% of your quota!",
            Alert::Over => "Error: You are over your quota!",
        }
    }
}

/// The message of each alert.
pub open spec fn alert_message(a: Alert) -> Seq<char> {
    match a {
        Alert::Warning => "Warning: You've used up over 75% of your quota!"@,
        Alert::Urgent => "Urgent warning: You've used up over 90% of your quota!"@,
        Alert::Over => "Error: You are over your quota!"@,
    }
}

/// A value tracked against a quota, with the messenger that hears of it.
pub struct LimitTracker<'a, T: Messenger> {
    messenger: &'a T,
    value: usize,
    max: usize,
}

impl<'a, T: Messenger> LimitTracker<'a, T> {
    /// The tracked value.
    pub closed spec fn spec_value(&self) -> usize {
        self.value
    }

    /// The messenger that hears of the alerts.
    pub closed spec fn spec_messenger(&self) -> &'a T {
        self.messenger
    }

    /// The quota.
    pub closed spec fn spec_max(&self) -> usize {
        self.max
    }

    /// A tracker at zero against the quota `max`, reporting to `messenger`.
    pub fn new(messenger: &'a T, max: usize) -> (r: LimitTracker<'a, T>)
        ensures
            r.spec_value() == 0,
            r.spec_max() == max,
            r.spec_messenger() == messenger,
    {
        LimitTracker { messenger, value: 0, max }
    }

    /// Sets the tracked value, and sends the message of the alert that it
    /// raises against the quota, if any.
    pub fn set_value(&mut self, value: usize)
        ensures
            final(self).spec_value() == value,
            final(self).spec_max() == old(self).spec_max(),
            final(self).spec_messenger() == old(self).spec_messenger(),
    {
        self.value = value;
        match quota_alert(value, self.max) {
            Some(alert) => self.messenger.send(alert.message()),
            None => {},
        }
    }
}

} // verus!
