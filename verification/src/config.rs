//! The inputs of a run: zoom intervals, backgrounds, the mouse log and the
//! source window, as plain values.
//!
//! Times are whole milliseconds.  Ratios and colour levels are fixed-point
//! millionths (see [`crate::fixed`]).

use crate::error::ConfigError;
use crate::fixed::{MAX_RATIO, ONE};
use vstd::prelude::*;

verus! {

/// A span of the recording during which the camera zooms in.
///
/// `zoom_factor` is the share of the canvas that stays visible: one half
/// shows half the width and half the height, magnified twice.
#[derive(Clone, Copy, Debug, PartialEq, Eq)]
pub struct ZoomInterval {
    pub start_ms: i32,
    pub end_ms: i32,
    pub zoom_factor: i64,
}

/// A colour as three fixed-point levels.
#[derive(Clone, Copy, Debug, PartialEq, Eq)]
pub struct Rgb {
    pub r: i64,
    pub g: i64,
    pub b: i64,
}

/// A horizontal gradient from `start_rgb` at the left edge to `end_rgb` at
/// the right edge.
#[derive(Clone, Copy, Debug, PartialEq, Eq)]
pub struct BackgroundSpec {
    pub start_rgb: Rgb,
    pub end_rgb: Rgb,
}

/// One sample of the mouse position, in device coordinates.
#[derive(Clone, Copy, Debug, PartialEq, Eq)]
pub struct MouseEvent {
    pub x: u32,
    pub y: u32,
    pub timestamp_ms: i32,
}

/// Where the recorded window sat on screen, and the display's DPI scale.
#[derive(Clone, Copy, Debug, PartialEq, Eq)]
pub struct SourceWindowInfo {
    pub x: i32,
    pub y: i32,
    pub width: i32,
    pub height: i32,
    pub scale_factor: i64,
}

/// What the user configured for one run.
#[derive(Clone, Debug, PartialEq, Eq)]
pub struct Config {
    pub duration_ms: i32,
    pub zoom_info: Vec<ZoomInterval>,
    pub background_info: Vec<BackgroundSpec>,
}

impl Rgb {
    /// A colour from whole levels.
    pub fn from_levels(r: u8, g: u8, b: u8) -> (c: Rgb)
        ensures
            c.r == r * ONE,
            c.g == g * ONE,
            c.b == b * ONE,
    {
        Rgb { r: (r as i64) * ONE, g: (g as i64) * ONE, b: (b as i64) * ONE }
    }
}

impl ZoomInterval {
    /// The factor is a positive ratio within the supported range.
    pub open spec fn factor_in_range(self) -> bool {
        0 < self.zoom_factor <= MAX_RATIO
    }

    /// The interval and `other` share at least one millisecond.
    pub open spec fn overlaps(self, other: ZoomInterval) -> bool {
        &&& self.start_ms < other.end_ms
        &&& other.start_ms < self.end_ms
        &&& self.start_ms < self.end_ms
        &&& other.start_ms < other.end_ms
    }

    /// Decides [`ZoomInterval::overlaps`].
    pub fn is_overlapping(&self, other: &ZoomInterval) -> (b: bool)
        ensures
            b == self.overlaps(*other),
    {
        self.start_ms < other.end_ms && other.start_ms < self.end_ms && self.start_ms
            < self.end_ms && other.start_ms < other.end_ms
    }
}

/// Some two different intervals of the list overlap.
pub open spec fn some_overlap(intervals: Seq<ZoomInterval>) -> bool {
    exists|i: int, j: int|
        0 <= i < j < intervals.len() && #[trigger] intervals[i].overlaps(#[trigger] intervals[j])
}

/// The first interval from `from` on whose zoom factor is out of range.
pub open spec fn first_bad_factor(intervals: Seq<ZoomInterval>, from: int) -> Option<int>
    decreases intervals.len() - from,
{
    if from < 0 || from >= intervals.len() {
        None
    } else if !intervals[from].factor_in_range() {
        Some(from)
    } else {
        first_bad_factor(intervals, from + 1)
    }
}

impl Config {
    /// What [`Config::validate`] answers for this configuration.
    ///
    /// The checks run in a fixed order, so that each malformed
    /// configuration has exactly one error.
    pub open spec fn verdict(self) -> Result<(), ConfigError> {
        if self.background_info@.len() == 0 {
            Err(ConfigError::MissingBackground)
        } else {
            match first_bad_factor(self.zoom_info@, 0) {
                Some(i) => Err(ConfigError::ZoomFactorOutOfRange { index: i as usize }),
                None => Ok(()),
            }
        }
    }

    /// The configuration passes every check of [`Config::validate`].
    pub open spec fn wf(self) -> bool {
        &&& self.background_info@.len() > 0
        &&& forall|i: int|
            0 <= i < self.zoom_info@.len() ==> (#[trigger] self.zoom_info@[i]).factor_in_range()
    }

    /// Checks a configuration before any frame is read.
    ///
    /// A configuration without a background, or with a zoom factor outside
    /// `(0, 1000]`, is rejected; every other one is accepted.
    pub fn validate(&self) -> (res: Result<(), ConfigError>)
        ensures
            res == self.verdict(),
            res is Ok <==> self.wf(),
    {
        if self.background_info.len() == 0 {
            return Err(ConfigError::MissingBackground);
        }
        let mut j: usize = 0;
        while j < self.zoom_info.len()
            invariant
                self.background_info@.len() > 0,
                j <= self.zoom_info@.len(),
                first_bad_factor(self.zoom_info@, 0) == first_bad_factor(self.zoom_info@, j as int),
                forall|k: int| 0 <= k < j ==> (#[trigger] self.zoom_info@[k]).factor_in_range(),
            decreases self.zoom_info@.len() - j,
        {
            let z: i64 = self.zoom_info[j].zoom_factor;
            if !(0 < z && z <= MAX_RATIO) {
                return Err(ConfigError::ZoomFactorOutOfRange { index: j });
            }
            j += 1;
        }
        Ok(())
    }

    /// The background that the whole run is painted with: the first one.
    pub fn background(&self) -> (res: Result<BackgroundSpec, ConfigError>)
        ensures
            self.background_info@.len() == 0 ==> res == Err::<BackgroundSpec, ConfigError>(
                ConfigError::MissingBackground,
            ),
            self.background_info@.len() > 0 ==> res == Ok::<BackgroundSpec, ConfigError>(
                self.background_info@[0],
            ),
    {
        if self.background_info.len() == 0 {
            Err(ConfigError::MissingBackground)
        } else {
            Ok(self.background_info[0])
        }
    }

    /// Tells whether two intervals of the configuration overlap.
    ///
    /// Overlapping intervals are accepted: on each frame the last interval
    /// of the list that matches decides.  A caller may want to warn about
    /// them.
    pub fn has_overlapping_intervals(&self) -> (b: bool)
        ensures
            b == some_overlap(self.zoom_info@),
    {
        let n: usize = self.zoom_info.len();
        let mut i: usize = 0;
        while i < n
            invariant
                n == self.zoom_info@.len(),
                i <= n,
                forall|a: int, c: int|
                    0 <= a < i && a < c < n ==> !(#[trigger] self.zoom_info@[a]).overlaps(
                        #[trigger] self.zoom_info@[c],
                    ),
            decreases n - i,
        {
            let mut j: usize = i + 1;
            while j < n
                invariant
                    n == self.zoom_info@.len(),
                    i < n,
                    i < j <= n,
                    forall|a: int, c: int|
                        0 <= a < i && a < c < n ==> !(#[trigger] self.zoom_info@[a]).overlaps(
                            #[trigger] self.zoom_info@[c],
                        ),
                    forall|c: int|
                        i < c < j ==> !self.zoom_info@[i as int].overlaps(
                            #[trigger] self.zoom_info@[c],
                        ),
                decreases n - j,
            {
                if self.zoom_info[i].is_overlapping(&self.zoom_info[j]) {
                    assert(self.zoom_info@[i as int].overlaps(self.zoom_info@[j as int]));
                    return true;
                }
                j += 1;
            }
            i += 1;
        }
        false
    }
}

} // verus!
