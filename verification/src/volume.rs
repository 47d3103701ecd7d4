//! The playback volume and its adjustment commands.
//!
//! The player holds one volume per playback queue, ranging from silence to
//! full scale. The `vu` and `vd` commands move it by a fixed step and clamp
//! it to that range; what the user sees is the level as a whole percentage,
//! rounded to the nearest integer with halves rounding up. Levels are kept
//! in thousandths of full scale so that the step, clamp and rounding
//! arithmetic is exact.

use vstd::prelude::*;

verus! {

/// Full scale, in thousandths: the loudest level a queue plays at, and the
/// level every playback starts at.
pub const VOLUME_MAX: u32 = 1000;

/// How far one `vu` or `vd` command moves the level, in thousandths of full
/// scale: one tenth of the range.
pub const VOLUME_STEP: u32 = 100;

/// The level after one increase command: one step up, clamped to full
/// scale. A level already at full scale stays exactly where it is.
pub open spec fn vol_up_spec(v: int) -> int {
    if v >= VOLUME_MAX {
        v
    } else if v + VOLUME_STEP <= VOLUME_MAX {
        v + VOLUME_STEP
    } else {
        VOLUME_MAX as int
    }
}

/// The level after one decrease command: one step down, clamped to
/// silence. A level already at silence stays exactly where it is.
pub open spec fn vol_down_spec(v: int) -> int {
    if v <= 0 {
        v
    } else if v - VOLUME_STEP >= 0 {
        v - VOLUME_STEP
    } else {
        0
    }
}

/// The whole percentage a level is printed as: the nearest integer to one
/// tenth of the level in thousandths, with halves rounding up.
pub open spec fn percent_spec(v: int) -> int {
    (v + 5) / 10
}

/// A playback volume level, held in thousandths of full scale.
pub struct Volume {
    permille: u32,
}

impl View for Volume {
    type V = int;

    closed spec fn view(&self) -> int {
        self.permille as int
    }
}

impl Volume {
    #[verifier::type_invariant]
    spec fn inv(self) -> bool {
        self.permille <= VOLUME_MAX
    }

    /// Full scale: the level playback starts at.
    pub fn full() -> (v: Volume)
        ensures
            v@ == VOLUME_MAX as int,
    {
        Volume { permille: VOLUME_MAX }
    }

    /// A level set directly in thousandths, clamped to full scale.
    pub fn from_permille(p: u32) -> (v: Volume)
        ensures
            v@ == (if p <= VOLUME_MAX {
                p as int
            } else {
                VOLUME_MAX as int
            }),
    {
        if p <= VOLUME_MAX {
            Volume { permille: p }
        } else {
            Volume { permille: VOLUME_MAX }
        }
    }

    /// The level, in thousandths of full scale; never past full scale.
    pub fn permille(&self) -> (p: u32)
        ensures
            p as int == self@,
            0 <= self@ <= VOLUME_MAX,
    {
        proof {
            use_type_invariant(&*self);
        }
        self.permille
    }

    /// One `vu` command: raise the level by one step, clamped to full
    /// scale. Returns whether anything changed; at full scale the command
    /// is a no-op, and the caller prints nothing.
    pub fn up(&mut self) -> (changed: bool)
        ensures
            final(self)@ == vol_up_spec(old(self)@),
            changed == (old(self)@ < VOLUME_MAX),
            old(self)@ == VOLUME_MAX ==> final(self)@ == old(self)@ && !changed,
    {
        if self.permille < VOLUME_MAX {
            let next: u32 = self.permille + VOLUME_STEP;
            self.permille = if next > VOLUME_MAX {
                VOLUME_MAX
            } else {
                next
            };
            true
        } else {
            false
        }
    }

    /// One `vd` command: lower the level by one step, clamped to silence.
    /// Returns whether anything changed; at silence the command is a
    /// no-op, and the caller prints nothing.
    pub fn down(&mut self) -> (changed: bool)
        ensures
            final(self)@ == vol_down_spec(old(self)@),
            changed == (old(self)@ > 0),
            old(self)@ == 0 ==> final(self)@ == old(self)@ && !changed,
    {
        proof {
            use_type_invariant(&*self);
        }
        if self.permille > 0 {
            self.permille = if self.permille >= VOLUME_STEP {
                self.permille - VOLUME_STEP
            } else {
                0
            };
            true
        } else {
            false
        }
    }

    /// The whole-number percentage this level is printed as.
    pub fn percent(&self) -> (p: u32)
        ensures
            p as int == percent_spec(self@),
    {
        proof {
            use_type_invariant(&*self);
        }
        (self.permille + 5) / 10
    }

}

/// Law: one increase followed by one decrease returns the level to where it
/// began, whenever the increase is not cut short by the full-scale clamp.
/// (Within one step of full scale, the clamp loses the excess: from there
/// the pair of commands lands one full step below full scale instead.)
pub proof fn lemma_step_round_trip(v: int)
    requires
        0 <= v,
        v + VOLUME_STEP <= VOLUME_MAX,
    ensures
        vol_down_spec(vol_up_spec(v)) == v,
{
}

/// Law: the printed percentage is the nearest whole percent, halves
/// rounding up — it sits within half a percent of the exact level — and
/// never leaves the zero-to-hundred range.
pub proof fn lemma_percent_nearest(v: int)
    requires
        0 <= v <= VOLUME_MAX,
    ensures
        10 * percent_spec(v) - 5 <= v <= 10 * percent_spec(v) + 4,
        0 <= percent_spec(v) <= 100,
{
}

} // verus!
