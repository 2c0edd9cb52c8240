//! Per-channel joystick mapping for the control panel: a raw 10-bit
//! analog-to-digital reading is mapped to a servo pulse width, with a dead
//! zone around the stick's centre and a clamped linear ramp to each side.

use vstd::prelude::*;

verus! {

/// One channel's mapping: the dead zone half-width around the centre
/// reading (512), and the output range `min..=max` with its resting value
/// `center`.
#[derive(Debug, Clone, Copy, PartialEq, Eq, Structural)]
pub struct ChannelConfig {
    pub deadzone: u16,
    pub min: u16,
    pub max: u16,
    pub center: u16,
}

/// What every mapping needs of a configuration: an ordered output range and
/// a dead zone that leaves both ramps a non-empty input range (the divisors
/// `511 - deadzone` and `512 - deadzone` must stay positive).
pub open spec fn config_wf(c: ChannelConfig) -> bool {
    &&& c.min <= c.center <= c.max
    &&& c.deadzone <= 510
}

pub open spec fn clamp_int(x: int, lo: int, hi: int) -> int {
    if x < lo {
        lo
    } else if x > hi {
        hi
    } else {
        x
    }
}

/// The mapping itself, over the integers: inside the dead zone the output
/// rests at `center`; above it, `[512 + deadzone, 1023]` ramps linearly
/// from `center` to `max`; below it, `[0, 512 - deadzone]` ramps linearly
/// from `min` to `center`; both ramps clamped to their half of the range.
pub open spec fn spec_transform_adc(c: ChannelConfig, adc: int) -> int {
    let dz = c.deadzone as int;
    if (if adc >= 512 {
        adc - 512
    } else {
        512 - adc
    }) < dz {
        c.center as int
    } else if adc > 512 {
        clamp_int(
            c.center + (adc - 512 - dz) * (c.max - c.center) / (1023 - (512 + dz)),
            c.center as int,
            c.max as int,
        )
    } else {
        clamp_int(
            c.center - (512 - dz - adc) * (c.center - c.min) / (512 - dz),
            c.min as int,
            c.center as int,
        )
    }
}

impl Default for ChannelConfig {
    /// The stock mapping: dead zone of 50 counts, pulse range 1000–2000
    /// microseconds resting at 1500.
    fn default() -> (c: ChannelConfig)
        ensures
            c == (ChannelConfig { deadzone: 50, min: 1000, max: 2000, center: 1500 }),
            config_wf(c),
    {
        ChannelConfig { deadzone: 50, min: 1000, max: 2000, center: 1500 }
    }
}

impl ChannelConfig {
    /// Map one raw reading to an output value, per [`spec_transform_adc`].
    /// The reading comes from a 10-bit converter, so it is at most 1023.
    pub fn transform_adc(&self, adc_value: u16) -> (r: u16)
        requires
            config_wf(*self),
            adc_value <= 1023,
        ensures
            r as int == spec_transform_adc(*self, adc_value as int),
            self.min <= r <= self.max,
    {
        let adc = adc_value as i32;
        let center = 512i32;
        let dz = self.deadzone as i32;

        // inside the dead zone the output rests at the centre value
        let distance = if adc >= center {
            adc - center
        } else {
            center - adc
        };
        if distance < dz {
            return self.center;
        }
        if adc > center {
            // above centre: map [512 + deadzone, 1023] onto [center, max]
            let adc_range = 1023 - (center + dz);
            let out_range = self.max as i32 - self.center as i32;
            let normalized = adc - center - dz;
            proof {
                assert(0 <= normalized as int * out_range as int <= 512 * 65535)
                    by (nonlinear_arith)
                    requires
                        0 <= normalized <= 511,
                        0 <= out_range <= 65535,
                ;
                assert(normalized as int * out_range as int / (adc_range as int) <= normalized
                    as int * out_range as int) by (nonlinear_arith)
                    requires
                        0 <= normalized as int * out_range as int,
                        1 <= adc_range as int,
                ;
                assert(0 <= normalized as int * out_range as int / (adc_range as int))
                    by (nonlinear_arith)
                    requires
                        0 <= normalized as int * out_range as int,
                        1 <= adc_range as int,
                ;
            }
            let output = self.center as i32 + (normalized * out_range / adc_range);
            let clamped = if output < self.center as i32 {
                self.center as i32
            } else if output > self.max as i32 {
                self.max as i32
            } else {
                output
            };
            clamped as u16
        } else {
            // below centre: map [0, 512 - deadzone] onto [min, center]
            let adc_range = center - dz;
            let out_range = self.center as i32 - self.min as i32;
            let normalized = center - dz - adc;
            proof {
                assert(0 <= normalized as int * out_range as int <= 512 * 65535)
                    by (nonlinear_arith)
                    requires
                        0 <= normalized <= 512,
                        0 <= out_range <= 65535,
                ;
                assert(normalized as int * out_range as int / (adc_range as int) <= normalized
                    as int * out_range as int) by (nonlinear_arith)
                    requires
                        0 <= normalized as int * out_range as int,
                        1 <= adc_range as int,
                ;
                assert(0 <= normalized as int * out_range as int / (adc_range as int))
                    by (nonlinear_arith)
                    requires
                        0 <= normalized as int * out_range as int,
                        1 <= adc_range as int,
                ;
            }
            let output = self.center as i32 - (normalized * out_range / adc_range);
            let clamped = if output < self.min as i32 {
                self.min as i32
            } else if output > self.center as i32 {
                self.center as i32
            } else {
                output
            };
            clamped as u16
        }
    }
}

} // verus!
