//! Memory-pressure classification against a baseline that is learned once.
//!
//! The baseline is the first nonzero memory reading. A later reading is
//! elevated when it is more than twice the baseline. The baseline never
//! changes once it is set, so the verdict does not drift with the readings.

use vstd::prelude::*;
use rgb::RGB8;
use crate::palette::{green, red};

verus! {

/// The verdict on one memory reading.
#[derive(Clone, Copy, Debug, PartialEq, Eq, Structural)]
pub enum PressureFlag {
    Normal,
    Elevated,
}

impl PressureFlag {
    /// The colour that the memory series is drawn in.
    pub open spec fn color_spec(self) -> RGB8 {
        match self {
            PressureFlag::Normal => RGB8 { r: 0x00, g: 0xFF, b: 0x00 },
            PressureFlag::Elevated => RGB8 { r: 0xFF, g: 0x00, b: 0x00 },
        }
    }

    /// Green for normal pressure, red for elevated.
    pub fn color(self) -> (c: RGB8)
        ensures
            c == self.color_spec(),
    {
        match self {
            PressureFlag::Normal => green(),
            PressureFlag::Elevated => red(),
        }
    }
}

/// The baseline after a reading: the first nonzero reading sets it, and
/// nothing changes it afterwards.
pub open spec fn baseline_after(baseline: Option<u64>, latest: u64) -> Option<u64> {
    match baseline {
        Some(b) => Some(b),
        None => if latest > 0 {
            Some(latest)
        } else {
            None
        },
    }
}

/// The verdict on a reading against a baseline: elevated when the reading is
/// more than twice the baseline.
pub open spec fn flag_for(baseline: Option<u64>, latest: u64) -> PressureFlag {
    match baseline {
        Some(b) => if latest > 2 * b {
            PressureFlag::Elevated
        } else {
            PressureFlag::Normal
        },
        None => PressureFlag::Normal,
    }
}

/// The classifier's state: the baseline, once learned, and the latest verdict.
#[derive(Clone, Copy, Debug, PartialEq, Eq, Structural)]
pub struct PressureClassifier {
    pub baseline: Option<u64>,
    pub current_flag: PressureFlag,
}

impl PressureClassifier {
    /// The state after the reading `latest`.
    pub open spec fn after(self, latest: u64) -> PressureClassifier {
        PressureClassifier {
            baseline: baseline_after(self.baseline, latest),
            current_flag: flag_for(baseline_after(self.baseline, latest), latest),
        }
    }

    /// A classifier that has seen no reading.
    pub fn new() -> (c: PressureClassifier)
        ensures
            c == (PressureClassifier { baseline: None, current_flag: PressureFlag::Normal }),
    {
        PressureClassifier { baseline: None, current_flag: PressureFlag::Normal }
    }

    /// Takes one memory reading: learns the baseline if this is the first
    /// nonzero reading, and gives the verdict on the reading.
    pub fn classify(&mut self, latest_memory: u64) -> (flag: PressureFlag)
        ensures
            *final(self) == old(self).after(latest_memory),
            flag == final(self).current_flag,
    {
        if self.baseline.is_none() && latest_memory > 0 {
            self.baseline = Some(latest_memory);
        }
        let flag: PressureFlag = match self.baseline {
            Some(b) => if latest_memory as u128 > 2 * (b as u128) {
                PressureFlag::Elevated
            } else {
                PressureFlag::Normal
            },
            None => PressureFlag::Normal,
        };
        self.current_flag = flag;
        flag
    }
}

/// Once the baseline is set, no reading changes it.
pub proof fn lemma_baseline_sticky(c: PressureClassifier, latest: u64)
    requires
        c.baseline is Some,
    ensures
        c.after(latest).baseline == c.baseline,
{
}

/// The reading that sets the baseline is itself normal.
pub proof fn lemma_first_reading_normal(c: PressureClassifier, latest: u64)
    requires
        c.baseline is None,
    ensures
        c.after(latest).current_flag == PressureFlag::Normal,
{
}

} // verus!
