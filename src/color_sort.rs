//! Decisions of the ring color sorter.
//!
//! The sorter watches an optical sensor next to the intake. When a ring of
//! the rejected color passes, the ejector is raised for up to a second; a
//! ring of the other color lowers it at once. Each pass of the sorter's loop
//! is one call of [`ColorSort::step`].

use vstd::prelude::*;
use crate::angle::DEGREE;
use crate::intake::ElementColor;

verus! {

/// Proximity, in millionths of full scale, above which a ring is present.
pub const PROXIMITY_THRESHOLD: i64 = 300_000;

/// Milliseconds for which a ring counts as present after it was first seen.
pub const PROXIMITY_WINDOW_MS: u64 = 20;

/// Milliseconds for which the ejector stays up after a rejected ring.
pub const REJECT_HOLD_MS: u64 = 1000;

/// What the sorter reads on one pass.
#[derive(Clone, Copy, Debug, PartialEq, Eq, Structural)]
pub struct SortInputs {
    pub now_ms: u64,
    /// The color to reject; `None` turns sorting off.
    pub reject_color: Option<ElementColor>,
    /// Proximity in millionths of full scale, `None` if the read failed.
    pub proximity: Option<i64>,
    /// Hue in microdegrees, `None` if the read failed.
    pub hue: Option<i64>,
    /// Whether the driver holds the ejector up.
    pub emergency_override: bool,
    /// Whether the ejector is up, `None` if the read failed.
    pub ejector_high: Option<bool>,
}

/// What the sorter does to the ejector on one pass.
#[derive(Clone, Copy, Debug, PartialEq, Eq, Structural)]
pub struct SortCommands {
    /// Lower the ejector because a ring of the kept color arrived.
    pub release: bool,
    /// Then set the ejector up (`true`) or down (`false`), if anything.
    pub ejector: Option<bool>,
}

/// The sorter's memory between passes.
#[derive(Clone, Copy, Debug, PartialEq, Eq, Structural)]
pub struct ColorSort {
    /// When the current ring was first seen.
    pub prox_ms: u64,
    /// When the last rejected ring was seen.
    pub reject_ms: u64,
    /// Whether a ring is in front of the sensor.
    pub in_prox: bool,
    /// Whether the ejector is raised for a rejected ring.
    pub rejecting: bool,
}

/// Whether a hue is blue.
pub open spec fn is_blue(hue: i64) -> bool {
    200 * DEGREE <= hue < 250 * DEGREE
}

/// Whether a hue is red.
pub open spec fn is_red(hue: i64) -> bool {
    (0 <= hue < 20 * DEGREE) || (340 * DEGREE <= hue < 360 * DEGREE)
}

/// Whether a hue is of the rejected color.
pub open spec fn is_bad(reject: ElementColor, hue: i64) -> bool {
    match reject {
        ElementColor::Blue => is_blue(hue),
        ElementColor::Red => is_red(hue),
    }
}

/// Whether a hue is of the kept color.
pub open spec fn is_good(reject: ElementColor, hue: i64) -> bool {
    match reject {
        ElementColor::Blue => is_red(hue),
        ElementColor::Red => is_blue(hue),
    }
}

impl ColorSort {
    /// The sorter before its first pass.
    pub fn new(now_ms: u64) -> (r: ColorSort)
        ensures
            r == (ColorSort { prox_ms: now_ms, reject_ms: now_ms, in_prox: false, rejecting: false }),
    {
        ColorSort { prox_ms: now_ms, reject_ms: now_ms, in_prox: false, rejecting: false }
    }

    /// Presence tracking: a ring is present from the first reading above the
    /// threshold until the window has passed.
    pub open spec fn presence_updated(self, inp: SortInputs) -> ColorSort {
        match inp.proximity {
            None => self,
            Some(p) => {
                let t = if p > PROXIMITY_THRESHOLD && !self.in_prox {
                    ColorSort { prox_ms: inp.now_ms, in_prox: true, ..self }
                } else {
                    self
                };
                if t.in_prox && inp.now_ms as int - t.prox_ms as int > PROXIMITY_WINDOW_MS as int {
                    ColorSort { in_prox: false, ..t }
                } else {
                    t
                }
            },
        }
    }

    /// Color detection on a present ring: a rejected color starts (or
    /// renews) the rejection; a kept color ends it and releases the ejector.
    pub open spec fn classified(self, reject: ElementColor, inp: SortInputs) -> (ColorSort, bool) {
        match inp.hue {
            Some(h) if self.in_prox => {
                let t = if is_bad(reject, h) {
                    ColorSort { reject_ms: inp.now_ms, rejecting: true, ..self }
                } else {
                    self
                };
                if is_good(reject, h) && t.rejecting {
                    (ColorSort { rejecting: false, ..t }, true)
                } else {
                    (t, false)
                }
            },
            _ => (self, false),
        }
    }

    /// The sorter after one pass, and what that pass does to the ejector.
    pub open spec fn stepped(self, inp: SortInputs) -> (ColorSort, SortCommands) {
        let (s, release) = match inp.reject_color {
            Some(rc) => self.presence_updated(inp).classified(rc, inp),
            None => (self, false),
        };
        let level = if release {
            Some(false)
        } else {
            inp.ejector_high
        };
        if inp.emergency_override {
            (s, SortCommands { release, ejector: if level == Some(false) { Some(true) } else { None } })
        } else if s.rejecting {
            if (inp.now_ms as int - s.reject_ms as int) < (REJECT_HOLD_MS as int) {
                (s, SortCommands { release, ejector: Some(true) })
            } else {
                (ColorSort { rejecting: false, ..s }, SortCommands { release, ejector: Some(false) })
            }
        } else {
            (s, SortCommands { release, ejector: if level == Some(true) { Some(false) } else { None } })
        }
    }

    /// Runs one pass of the sorter. A release counts as having lowered the
    /// ejector for the rest of the pass.
    pub fn step(&mut self, inp: &SortInputs) -> (r: SortCommands)
        ensures
            (*final(self), r) == old(self).stepped(*inp),
    {
        let now = inp.now_ms;
        let mut release = false;
        if let Some(rc) = inp.reject_color {
            if let Some(p) = inp.proximity {
                if p > PROXIMITY_THRESHOLD && !self.in_prox {
                    self.prox_ms = now;
                    self.in_prox = true;
                }
                if self.in_prox && now >= self.prox_ms && now - self.prox_ms > PROXIMITY_WINDOW_MS {
                    self.in_prox = false;
                }
            }
            if let Some(h) = inp.hue {
                if self.in_prox {
                    let blue = 200 * DEGREE <= h && h < 250 * DEGREE;
                    let red = (0 <= h && h < 20 * DEGREE) || (340 * DEGREE <= h && h < 360 * DEGREE);
                    let (bad, good) = match rc {
                        ElementColor::Blue => (blue, red),
                        ElementColor::Red => (red, blue),
                    };
                    if bad {
                        self.reject_ms = now;
                        self.rejecting = true;
                    }
                    if good && self.rejecting {
                        self.rejecting = false;
                        release = true;
                    }
                }
            }
        }
        let level = if release {
            Some(false)
        } else {
            inp.ejector_high
        };
        let ejector = if inp.emergency_override {
            if level == Some(false) {
                Some(true)
            } else {
                None
            }
        } else if self.rejecting {
            if now < self.reject_ms || now - self.reject_ms < REJECT_HOLD_MS {
                Some(true)
            } else {
                self.rejecting = false;
                Some(false)
            }
        } else if level == Some(true) {
            Some(false)
        } else {
            None
        };
        SortCommands { release, ejector }
    }
}

} // verus!
