//! The camera's heading: yaw and pitch in whole degrees.
use vstd::prelude::*;

use crate::intent::Direction;

verus! {

/// The largest pitch, up or down, in degrees. Keeping the view short of the
/// poles avoids the singular basis that straight up or down would give.
pub const PITCH_LIMIT: i64 = 89;

/// `v` held within `[lo, hi]`.
pub open spec fn clamp(v: int, lo: int, hi: int) -> int {
    if v < lo {
        lo
    } else if v > hi {
        hi
    } else {
        v
    }
}

/// `v` held within the range of `i64`.
pub open spec fn saturate(v: int) -> i64 {
    clamp(v, i64::MIN as int, i64::MAX as int) as i64
}

/// Where the camera looks: `yaw` turns about the vertical axis, `pitch` tilts
/// up (positive) or down, both in degrees. Each look intent turns by
/// `rotate_speed` degrees.
#[derive(Clone, Copy, Debug, PartialEq, Eq, Structural)]
pub struct Orientation {
    pub yaw: i64,
    pub pitch: i64,
    pub rotate_speed: i64,
}

impl Orientation {
    /// The pitch stays short of the poles.
    pub open spec fn wf(self) -> bool {
        -PITCH_LIMIT <= self.pitch <= PITCH_LIMIT
    }

    /// The heading after one look intent toward `d`. Up and down tilt and then
    /// clamp the pitch; left and right turn the yaw, which has no bound of its
    /// own and only saturates at the range of `i64`; forward and backward
    /// leave the heading as it is.
    pub open spec fn turned(self, d: Direction) -> Orientation {
        let s = self.rotate_speed as int;
        match d {
            Direction::Up => Orientation {
                yaw: self.yaw,
                pitch: clamp(self.pitch + s, -PITCH_LIMIT as int, PITCH_LIMIT as int) as i64,
                rotate_speed: self.rotate_speed,
            },
            Direction::Down => Orientation {
                yaw: self.yaw,
                pitch: clamp(self.pitch - s, -PITCH_LIMIT as int, PITCH_LIMIT as int) as i64,
                rotate_speed: self.rotate_speed,
            },
            Direction::Left => Orientation {
                yaw: saturate(self.yaw - s),
                pitch: self.pitch,
                rotate_speed: self.rotate_speed,
            },
            Direction::Right => Orientation {
                yaw: saturate(self.yaw + s),
                pitch: self.pitch,
                rotate_speed: self.rotate_speed,
            },
            Direction::Forward | Direction::Backward => self,
        }
    }

    /// Level, facing along +z, turning five degrees per look intent.
    pub open spec fn default_spec() -> Orientation {
        Orientation { yaw: 0, pitch: 0, rotate_speed: 5 }
    }

    pub fn default() -> (r: Orientation)
        ensures
            r == Orientation::default_spec(),
            r.wf(),
    {
        Orientation { yaw: 0, pitch: 0, rotate_speed: 5 }
    }

    /// Applies one look intent toward `d`.
    pub fn look(&mut self, d: Direction)
        ensures
            *final(self) == old(self).turned(d),
    {
        let s = self.rotate_speed as i128;
        match d {
            Direction::Up => {
                self.pitch = clamp_pitch(self.pitch as i128 + s);
            },
            Direction::Down => {
                self.pitch = clamp_pitch(self.pitch as i128 - s);
            },
            Direction::Left => {
                self.yaw = saturate_yaw(self.yaw as i128 - s);
            },
            Direction::Right => {
                self.yaw = saturate_yaw(self.yaw as i128 + s);
            },
            Direction::Forward | Direction::Backward => {},
        }
    }
}

fn clamp_pitch(v: i128) -> (r: i64)
    ensures
        r == clamp(v as int, -PITCH_LIMIT as int, PITCH_LIMIT as int),
{
    if v < -PITCH_LIMIT as i128 {
        -PITCH_LIMIT
    } else if v > PITCH_LIMIT as i128 {
        PITCH_LIMIT
    } else {
        v as i64
    }
}

fn saturate_yaw(v: i128) -> (r: i64)
    ensures
        r == saturate(v as int),
{
    if v < i64::MIN as i128 {
        i64::MIN
    } else if v > i64::MAX as i128 {
        i64::MAX
    } else {
        v as i64
    }
}

} // verus!
