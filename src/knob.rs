//! Knobs: bounded settings that a filter is tuned with.
use vstd::prelude::*;
use crate::text::{decimal, decimal_text};

verus! {

/// A bounded setting, moved one step at a time, with a display text.
pub trait Knob {
    /// The setting.
    spec fn setting(&self) -> int;

    /// The least setting.
    spec fn lowest(&self) -> int;

    /// The greatest setting.
    spec fn highest(&self) -> int;

    /// How far one step moves the setting.
    spec fn stride(&self) -> int;

    /// The text shown for the setting.
    spec fn text_view(&self) -> Seq<char>;

    /// Lowers the setting by one step, not below the least setting.
    fn decrement(&mut self)
        requires
            old(self).lowest() <= old(self).setting() <= old(self).highest(),
            0 <= old(self).stride(),
        ensures
            final(self).lowest() <= final(self).setting() <= final(self).highest(),
            final(self).lowest() == old(self).lowest(),
            final(self).highest() == old(self).highest(),
            final(self).stride() == old(self).stride(),
            final(self).setting() == if old(self).setting() - old(self).stride() < old(
                self,
            ).lowest() {
                old(self).lowest()
            } else {
                old(self).setting() - old(self).stride()
            },
    ;

    /// Raises the setting by one step, not above the greatest setting.
    fn increment(&mut self)
        requires
            old(self).lowest() <= old(self).setting() <= old(self).highest(),
            0 <= old(self).stride(),
        ensures
            final(self).lowest() <= final(self).setting() <= final(self).highest(),
            final(self).lowest() == old(self).lowest(),
            final(self).highest() == old(self).highest(),
            final(self).stride() == old(self).stride(),
            final(self).setting() == if old(self).setting() + old(self).stride() > old(
                self,
            ).highest() {
                old(self).highest()
            } else {
                old(self).setting() + old(self).stride()
            },
    ;

    /// The text shown for the setting.
    fn text(&self) -> (r: String)
        ensures
            r@ == self.text_view(),
    ;
}

/// A knob over whole numbers from `minimum` to `maximum`, moved by `step`,
/// and shown as its setting in decimal.
#[derive(Clone, Copy, Debug, PartialEq, Eq, Structural)]
pub struct StepKnob {
    value: u32,
    minimum: u32,
    maximum: u32,
    step: u32,
}

impl StepKnob {
    /// A knob at `value`, within `minimum` and `maximum`.
    pub fn new(minimum: u32, maximum: u32, step: u32, value: u32) -> (r: StepKnob)
        requires
            minimum <= value <= maximum,
        ensures
            r.setting() == value,
            r.lowest() == minimum,
            r.highest() == maximum,
            r.stride() == step,
            r.stride() >= 0,
            r.text_view() == decimal(value as nat),
    {
        StepKnob { value, minimum, maximum, step }
    }

    /// A step knob shows its setting in decimal.
    pub proof fn lemma_text(self)
        ensures
            0 <= self.setting(),
            self.text_view() == decimal(self.setting() as nat),
    {
    }

    /// The setting.
    pub fn value(&self) -> (r: u32)
        ensures
            r == self.setting(),
            self.text_view() == decimal(r as nat),
    {
        self.value
    }
}

impl Knob for StepKnob {
    closed spec fn setting(&self) -> int {
        self.value as int
    }

    closed spec fn lowest(&self) -> int {
        self.minimum as int
    }

    closed spec fn highest(&self) -> int {
        self.maximum as int
    }

    closed spec fn stride(&self) -> int {
        self.step as int
    }

    closed spec fn text_view(&self) -> Seq<char> {
        decimal(self.value as nat)
    }

    fn decrement(&mut self) {
        if self.value - self.minimum < self.step {
            self.value = self.minimum;
        } else {
            self.value = self.value - self.step;
        }
    }

    fn increment(&mut self) {
        if self.maximum - self.value < self.step {
            self.value = self.maximum;
        } else {
            self.value = self.value + self.step;
        }
    }

    fn text(&self) -> (r: String) {
        decimal_text(self.value)
    }
}

/// The setting lies within its bounds, and a step does not go backwards.
pub open spec fn knob_ok<K: Knob>(k: K) -> bool {
    k.lowest() <= k.setting() <= k.highest() && 0 <= k.stride()
}

/// The setting of `k` after one `decrement`.
pub open spec fn lowered<K: Knob>(k: K) -> int {
    if k.setting() - k.stride() < k.lowest() {
        k.lowest()
    } else {
        k.setting() - k.stride()
    }
}

/// The setting of `k` after one `increment`.
pub open spec fn raised<K: Knob>(k: K) -> int {
    if k.setting() + k.stride() > k.highest() {
        k.highest()
    } else {
        k.setting() + k.stride()
    }
}

} // verus!
