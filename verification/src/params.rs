//! The three user-tunable synthesis knobs, bounds-checked on construction.
//!
//! Knob values are fixed-point integers with denominator [`PARAM_SCALE_ONE`]:
//! a stored value `v` stands for `v / 100` of the knob's unit.  All bounds are
//! strictly exclusive, and validation is the only way to construct a
//! [`SynthesisParams`].

use vstd::prelude::*;

use crate::types::AudioQuery;
use crate::types::AudioQueryModel;
use crate::EngineError;
use crate::EngineErrorDescription;
use crate::error::GenericError;

verus! {

/// Fixed-point denominator of the knob values: one unit is 100 stored steps.
pub const PARAM_SCALE_ONE: i64 = 100;

/// Exclusive lower bound of the pitch offset knob (-100 units).
pub const PITCH_OFFSET_MIN: i64 = -10000;

/// Exclusive upper bound of the pitch offset knob (100 units).
pub const PITCH_OFFSET_MAX: i64 = 10000;

/// Exclusive lower bound of the pitch range knob (0.01 units).
pub const PITCH_RANGE_MIN: i64 = 1;

/// Exclusive upper bound of the pitch range knob (100 units).
pub const PITCH_RANGE_MAX: i64 = 10000;

/// Exclusive lower bound of the speed scale knob (0.01 units).
pub const SPEED_SCALE_MIN: i64 = 1;

/// Exclusive upper bound of the speed scale knob (100 units).
pub const SPEED_SCALE_MAX: i64 = 10000;

/// Mathematical model of a [`SynthesisParams`].
pub ghost struct SynthesisParamsModel {
    pub pitch_offset: int,
    pub pitch_range: int,
    pub speed_scale: int,
}

impl SynthesisParamsModel {
    /// Every knob lies strictly inside its bounds.
    pub open spec fn valid(self) -> bool {
        &&& PITCH_OFFSET_MIN < self.pitch_offset < PITCH_OFFSET_MAX
        &&& PITCH_RANGE_MIN < self.pitch_range < PITCH_RANGE_MAX
        &&& SPEED_SCALE_MIN < self.speed_scale < SPEED_SCALE_MAX
    }
}

/// The validated, immutable triple of synthesis knobs.
#[derive(Debug, Copy, Clone, PartialEq, Eq)]
pub struct SynthesisParams {
    pitch_offset: i64,
    pitch_range: i64,
    speed_scale: i64,
}

impl View for SynthesisParams {
    type V = SynthesisParamsModel;

    closed spec fn view(&self) -> SynthesisParamsModel {
        SynthesisParamsModel {
            pitch_offset: self.pitch_offset as int,
            pitch_range: self.pitch_range as int,
            speed_scale: self.speed_scale as int,
        }
    }
}

impl Default for SynthesisParams {
    /// The neutral knob triple: no pitch offset, unit pitch range, unit speed.
    fn default() -> (r: Self)
        ensures
            r@ == (SynthesisParamsModel { pitch_offset: 0, pitch_range: 100, speed_scale: 100 }),
            r@.valid(),
    {
        Self { pitch_offset: 0, pitch_range: 100, speed_scale: 100 }
    }
}

impl SynthesisParams {
    /// Validates the knob triple; succeeds exactly when every knob lies
    /// strictly inside its bounds, and then stores the triple unchanged.
    pub fn new(pitch_offset: i64, pitch_range: i64, speed_scale: i64) -> (r: Result<
        Self,
        EngineError,
    >)
        ensures
            ({
                let m = SynthesisParamsModel {
                    pitch_offset: pitch_offset as int,
                    pitch_range: pitch_range as int,
                    speed_scale: speed_scale as int,
                };
                if m.valid() {
                    r matches Ok(p) && p@ == m
                } else {
                    r matches Err(e) && e.0 == EngineErrorDescription::InvalidParameter
                }
            }),
    {
        if pitch_offset <= PITCH_OFFSET_MIN || pitch_offset >= PITCH_OFFSET_MAX {
            return Err(GenericError::new(EngineErrorDescription::InvalidParameter));
        }

        if pitch_range <= PITCH_RANGE_MIN || pitch_range >= PITCH_RANGE_MAX {
            return Err(GenericError::new(EngineErrorDescription::InvalidParameter));
        }

        if speed_scale <= SPEED_SCALE_MIN || speed_scale >= SPEED_SCALE_MAX {
            return Err(GenericError::new(EngineErrorDescription::InvalidParameter));
        }

        Ok(Self { pitch_offset, pitch_range, speed_scale })
    }

    /// Applies the knobs to a query's global scalars: the speed scale is
    /// multiplied by the speed knob, and the pitch and intonation scales are
    /// shifted by the pitch offset and pitch range knobs.
    pub fn apply(&self, query: &mut AudioQuery)
        requires
            0 <= old(query)@.speed_scale <= crate::types::VALUE_LIMIT,
            -(crate::types::VALUE_LIMIT as int) <= old(query)@.pitch_scale
                <= crate::types::VALUE_LIMIT,
            -(crate::types::VALUE_LIMIT as int) <= old(query)@.intonation_scale
                <= crate::types::VALUE_LIMIT,
            self@.valid(),
        ensures
            final(query)@ == (AudioQueryModel {
                speed_scale: old(query)@.speed_scale * self@.speed_scale / (
                PARAM_SCALE_ONE as int),
                pitch_scale: old(query)@.pitch_scale + self@.pitch_offset,
                intonation_scale: old(query)@.intonation_scale + self@.pitch_range,
                ..old(query)@
            }),
    {
        proof {
            let base = query.speed_scale as int;
            let knob = self.speed_scale as int;
            assert(base * knob <= 10_000_000_000_000_000) by (nonlinear_arith)
                requires
                    0 <= base <= 1_000_000_000_000,
                    0 <= knob <= 10000,
            ;
        }
        query.speed_scale = query.speed_scale * (self.speed_scale as u64) / (PARAM_SCALE_ONE
            as u64);
        query.pitch_scale = query.pitch_scale + self.pitch_offset;
        query.intonation_scale = query.intonation_scale + self.pitch_range;
    }

    /// The pitch offset knob, in hundredths of a unit.
    pub fn pitch_offset(&self) -> (r: i64)
        ensures
            r == self@.pitch_offset,
    {
        self.pitch_offset
    }

    /// The pitch range knob, in hundredths of a unit.
    pub fn pitch_range(&self) -> (r: i64)
        ensures
            r == self@.pitch_range,
    {
        self.pitch_range
    }

    /// The speed scale knob, in hundredths of a unit.
    pub fn speed_scale(&self) -> (r: i64)
        ensures
            r == self@.speed_scale,
    {
        self.speed_scale
    }
}

} // verus!
