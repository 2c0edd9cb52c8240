//! Remote-control settings: five named channels whose joystick mappings add
//! a per-update step limit, two sail channels driven by buttons, and a
//! five-value menu.  Persisting the settings to disk is the embedding
//! program's concern; [`Settings::handle_button`] reports when a save is
//! due.

use vstd::prelude::*;

use crate::pzconfig::clamp_int;

verus! {

/// The menu's mode: driving normally, choosing a channel, or adjusting one
/// of the chosen channel's values.
#[derive(Debug, Clone, Copy, PartialEq, Eq, Structural)]
pub enum ControlMode {
    Normal,
    Settings,
    SettingsValue,
}

/// Which of a channel's values the menu is adjusting.
#[derive(Debug, Clone, Copy, PartialEq, Eq, Structural)]
pub enum SettingsValue {
    Deadzone,
    Center,
    Min,
    Max,
    Step,
}

/// A named output channel: the dead zone half-width around the centre
/// reading (512), the output range `min..=max` resting at `center`, the
/// largest change allowed between two updates (`step`), and the previous
/// output that the step limit is measured from.
#[derive(Debug, Clone, PartialEq)]
pub struct ChannelConfig {
    pub name: String,
    pub deadzone: u16,
    pub center: u16,
    pub min: u16,
    pub max: u16,
    pub step: u16,
    pub previous_value: u16,
}

pub const BUTTON_CANCEL_MODE: usize = 0;

pub const BUTTON_UP: usize = 1;

pub const BUTTON_CHANGE_MODE: usize = 2;

pub const BUTTON_LEFT: usize = 3;

pub const BUTTON_DOWN: usize = 4;

pub const BUTTON_RIGHT: usize = 5;

/// What the mapping needs of a channel: an ordered output range, a dead
/// zone that leaves both ramps a non-empty input range, and a step window
/// `previous_value ± step` that stays within the type.
pub open spec fn config_wf(c: ChannelConfig) -> bool {
    &&& c.min <= c.center <= c.max
    &&& c.deadzone <= 510
    &&& c.step <= c.previous_value
    &&& c.previous_value + c.step <= u16::MAX
}

/// The raw ramp value before any clamping: resting at `center` inside the
/// dead zone, a linear ramp to `max` above it and to `min` below it.
pub open spec fn spec_ramp(c: ChannelConfig, adc: int) -> int {
    let dz = c.deadzone as int;
    if adc > 512 {
        c.center + (adc - 512 - dz) * (c.max - c.center) / (1023 - (512 + dz))
    } else {
        c.center - (512 - dz - adc) * (c.center - c.min) / (512 - dz)
    }
}

/// The mapped output: the ramp value clamped into the output range and then
/// into the step window around the previous output; inside the dead zone
/// the centre value, clamped into the step window only.
pub open spec fn spec_transform_adc(c: ChannelConfig, adc: int) -> int {
    let dz = c.deadzone as int;
    let lo = c.previous_value - c.step;
    let hi = c.previous_value + c.step;
    if (if adc >= 512 {
        adc - 512
    } else {
        512 - adc
    }) < dz {
        clamp_int(c.center as int, lo as int, hi as int)
    } else {
        clamp_int(clamp_int(spec_ramp(c, adc), c.min as int, c.max as int), lo as int, hi as int)
    }
}

/// The sail offset a button press applies: the joystick reading scaled into
/// the channel's output range.
pub open spec fn spec_button_diff(c: ChannelConfig, adc: int) -> int {
    adc * (c.max - c.min) / 1024
}

impl ChannelConfig {
    /// A channel with the stock mapping: dead zone 50, range 1000–2000
    /// resting at 1500, at most 100 counts of change per update.
    fn new(name: &str) -> (c: ChannelConfig)
        ensures
            c.name@ == name@,
            c.deadzone == 50,
            c.min == 1000,
            c.max == 2000,
            c.center == 1500,
            c.step == 100,
            c.previous_value == 1500,
            config_wf(c),
    {
        ChannelConfig {
            name: String::from_str(name),
            deadzone: 50,
            min: 1000,
            max: 2000,
            center: 1500,
            step: 100,
            previous_value: 1500,
        }
    }

    /// Map one raw 10-bit reading to this channel's output, remembering the
    /// output as the new `previous_value`: the result never moves more than
    /// `step` away from the previous output.
    pub fn transform_adc(&mut self, adc_value: u16) -> (r: u16)
        requires
            config_wf(*old(self)),
            adc_value <= 1023,
        ensures
            r as int == spec_transform_adc(*old(self), adc_value as int),
            *final(self) == (ChannelConfig { previous_value: r, ..*old(self) }),
            old(self).previous_value - old(self).step <= r <= old(self).previous_value + old(
                self,
            ).step,
    {
        let adc = adc_value as i32;
        let center = 512i32;
        let dz = self.deadzone as i32;
        let lo = self.previous_value - self.step;
        let hi = self.previous_value + self.step;

        let distance = if adc >= center {
            adc - center
        } else {
            center - adc
        };
        if distance < dz {
            // inside the dead zone the output rests at the centre value,
            // still limited to one step from the previous output
            let output = if self.center < lo {
                lo
            } else if self.center > hi {
                hi
            } else {
                self.center
            };
            self.previous_value = output;
            return output;
        }

        let ramp: i32 = if adc > center {
            // above centre: map [512 + deadzone, 1023] onto [center, max]
            let adc_range = 1023 - (center + dz);
            let out_range = self.max as i32 - self.center as i32;
            let normalized = adc - center - dz;
            proof {
                assert(0 <= normalized as int * out_range as int <= 511 * 65535)
                    by (nonlinear_arith)
                    requires
                        0 <= normalized <= 511,
                        0 <= out_range <= 65535,
                ;
                assert(0 <= normalized as int * out_range as int / (adc_range as int))
                    by (nonlinear_arith)
                    requires
                        0 <= normalized as int * out_range as int,
                        1 <= adc_range as int,
                ;
                assert(normalized as int * out_range as int / (adc_range as int) <= normalized
                    as int * out_range as int) by (nonlinear_arith)
                    requires
                        0 <= normalized as int * out_range as int,
                        1 <= adc_range as int,
                ;
            }
            self.center as i32 + (normalized * out_range / adc_range)
        } else {
            // below centre: map [0, 512 - deadzone] onto [min, center]
            let adc_range = center - dz;
            let out_range = self.center as i32 - self.min as i32;
            let normalized = center - dz - adc;
            proof {
                assert(0 <= normalized as int * out_range as int <= 512 * 65535)
                    by (nonlinear_arith)
                    requires
                        0 <= normalized <= 512,
                        0 <= out_range <= 65535,
                ;
                assert(0 <= normalized as int * out_range as int / (adc_range as int))
                    by (nonlinear_arith)
                    requires
                        0 <= normalized as int * out_range as int,
                        1 <= adc_range as int,
                ;
                assert(normalized as int * out_range as int / (adc_range as int) <= normalized
                    as int * out_range as int) by (nonlinear_arith)
                    requires
                        0 <= normalized as int * out_range as int,
                        1 <= adc_range as int,
                ;
            }
            self.center as i32 - (normalized * out_range / adc_range)
        };

        let ranged: i32 = if ramp < self.min as i32 {
            self.min as i32
        } else if ramp > self.max as i32 {
            self.max as i32
        } else {
            ramp
        };
        let output: u16 = if ranged < lo as i32 {
            lo
        } else if ranged > hi as i32 {
            hi
        } else {
            ranged as u16
        };
        self.previous_value = output;
        output
    }

    /// The sail output a pair of buttons selects: the centre value, raised
    /// by the scaled joystick reading while the up button is held, lowered
    /// by it while only the down button is held.
    pub fn apply_button(&self, up: bool, down: bool, adc_value: u16) -> (r: u16)
        requires
            self.min <= self.max,
            adc_value <= 1023,
            self.center + (self.max - self.min) <= u16::MAX,
            self.center >= self.max - self.min,
        ensures
            r as int == (if up {
                self.center + spec_button_diff(*self, adc_value as int)
            } else if down {
                self.center - spec_button_diff(*self, adc_value as int)
            } else {
                self.center as int
            }),
    {
        let out_range = self.max as u32 - self.min as u32;
        proof {
            assert(0 <= adc_value as int * out_range as int <= 1023 * 65535) by (nonlinear_arith)
                requires
                    0 <= adc_value <= 1023,
                    0 <= out_range <= 65535,
            ;
        }
        let diff32 = (adc_value as u32 * out_range) / 1024;
        proof {
            assert(adc_value as int * out_range as int / 1024 <= out_range as int)
                by (nonlinear_arith)
                requires
                    0 <= adc_value <= 1023,
                    0 <= out_range,
            ;
            assert(0 <= adc_value as int * out_range as int / 1024) by (nonlinear_arith)
                requires
                    0 <= adc_value,
                    0 <= out_range,
            ;
        }
        let diff = diff32 as u16;

        if up {
            self.center + diff
        } else if down {
            self.center - diff
        } else {
            self.center
        }
    }
}

/// The value the menu shows for a channel under a selection.
pub open spec fn value_of(c: ChannelConfig, v: SettingsValue) -> u16 {
    match v {
        SettingsValue::Deadzone => c.deadzone,
        SettingsValue::Center => c.center,
        SettingsValue::Min => c.min,
        SettingsValue::Max => c.max,
        SettingsValue::Step => c.step,
    }
}

/// The selection one step backwards in the cycle.
pub open spec fn value_prev(v: SettingsValue) -> SettingsValue {
    match v {
        SettingsValue::Deadzone => SettingsValue::Step,
        SettingsValue::Center => SettingsValue::Deadzone,
        SettingsValue::Min => SettingsValue::Center,
        SettingsValue::Max => SettingsValue::Min,
        SettingsValue::Step => SettingsValue::Max,
    }
}

/// The selection one step forwards in the cycle.
pub open spec fn value_next(v: SettingsValue) -> SettingsValue {
    match v {
        SettingsValue::Deadzone => SettingsValue::Center,
        SettingsValue::Center => SettingsValue::Min,
        SettingsValue::Min => SettingsValue::Max,
        SettingsValue::Max => SettingsValue::Step,
        SettingsValue::Step => SettingsValue::Deadzone,
    }
}

/// The channel index one step backwards, wrapping at the ends.
pub open spec fn index_prev(idx: int, len: int) -> int {
    if idx == 0 {
        len - 1
    } else {
        idx - 1
    }
}

/// The channel index one step forwards, wrapping at the ends.
pub open spec fn index_next(idx: int, len: int) -> int {
    if idx == len - 1 {
        0
    } else {
        idx + 1
    }
}

/// The channel with the selected value raised: by `d` for the four range
/// values, by one for the step limit.
pub open spec fn bump_up(c: ChannelConfig, v: SettingsValue, d: u16) -> ChannelConfig {
    match v {
        SettingsValue::Deadzone => ChannelConfig { deadzone: (c.deadzone + d) as u16, ..c },
        SettingsValue::Center => ChannelConfig { center: (c.center + d) as u16, ..c },
        SettingsValue::Min => ChannelConfig { min: (c.min + d) as u16, ..c },
        SettingsValue::Max => ChannelConfig { max: (c.max + d) as u16, ..c },
        SettingsValue::Step => ChannelConfig { step: (c.step + 1) as u16, ..c },
    }
}

/// The channel with the selected value lowered: by `d` for the four range
/// values, by one for the step limit.
pub open spec fn bump_down(c: ChannelConfig, v: SettingsValue, d: u16) -> ChannelConfig {
    match v {
        SettingsValue::Deadzone => ChannelConfig { deadzone: (c.deadzone - d) as u16, ..c },
        SettingsValue::Center => ChannelConfig { center: (c.center - d) as u16, ..c },
        SettingsValue::Min => ChannelConfig { min: (c.min - d) as u16, ..c },
        SettingsValue::Max => ChannelConfig { max: (c.max - d) as u16, ..c },
        SettingsValue::Step => ChannelConfig { step: (c.step - 1) as u16, ..c },
    }
}

/// Mode after the change-mode button.
pub open spec fn mode_after_change(m: ControlMode) -> ControlMode {
    match m {
        ControlMode::Normal => ControlMode::Settings,
        ControlMode::Settings => ControlMode::SettingsValue,
        ControlMode::SettingsValue => ControlMode::Settings,
    }
}

/// Mode after the cancel button.
pub open spec fn mode_after_cancel(m: ControlMode) -> ControlMode {
    match m {
        ControlMode::Normal => ControlMode::Normal,
        ControlMode::Settings => ControlMode::Normal,
        ControlMode::SettingsValue => ControlMode::Settings,
    }
}

/// How much one up or down press changes the selected value (the step
/// limit itself always moves by one).
pub const VALUE_STEP: u16 = 10;

/// The remote's settings: the menu mode, where they are persisted, the five
/// channels, and which channel and value the menu points at.
#[derive(Debug, Clone, PartialEq)]
pub struct Settings {
    pub mode: ControlMode,
    pub settings_path: String,
    pub channels: Vec<ChannelConfig>,
    pub current_channel: usize,
    pub current_value: SettingsValue,
}

impl Settings {
    /// The index of the channel the menu points at.
    pub open spec fn channel_index(self) -> int {
        self.current_channel as int
    }

    /// There is at least one channel and the menu points inside the list.
    pub open spec fn wf(self) -> bool {
        0 <= self.channel_index() < self.channels@.len()
    }

    /// The channel the menu points at.
    pub open spec fn current(self) -> ChannelConfig {
        self.channels@[self.channel_index()]
    }

    /// Five channels — two rudders, the motor and two sails — with the
    /// stock mapping; the menu at the first channel's dead zone, in normal
    /// mode.
    pub fn new(settings_path: &str) -> (s: Settings)
        ensures
            s.wf(),
            s.mode == ControlMode::Normal,
            s.current_value == SettingsValue::Deadzone,
            s.channel_index() == 0,
            s.settings_path@ == settings_path@,
            s.channels@.len() == 5,
            s.channels@[0].name@ == "RudderStar"@,
            s.channels@[1].name@ == "RudderPort"@,
            s.channels@[2].name@ == "Motor"@,
            s.channels@[3].name@ == "Boom"@,
            s.channels@[4].name@ == "Genoa"@,
            forall|i: int| 0 <= i < 5 ==> config_wf(#[trigger] s.channels@[i]) && s.channels@[i].min
                == 1000 && s.channels@[i].max == 2000 && s.channels@[i].center == 1500
                && s.channels@[i].deadzone == 50 && s.channels@[i].step == 100
                && s.channels@[i].previous_value == 1500,
    {
        let mut channels = Vec::new();
        channels.push(ChannelConfig::new("RudderStar"));
        channels.push(ChannelConfig::new("RudderPort"));
        channels.push(ChannelConfig::new("Motor"));
        channels.push(ChannelConfig::new("Boom"));
        channels.push(ChannelConfig::new("Genoa"));
        Settings {
            mode: ControlMode::Normal,
            settings_path: String::from_str(settings_path),
            channels,
            current_channel: 0,
            current_value: SettingsValue::Deadzone,
        }
    }

    /// Step to the previous channel, wrapping at the first.
    fn previous_channel(&mut self)
        requires
            old(self).wf(),
        ensures
            final(self).wf(),
            *final(self) == (Settings {
                current_channel: (index_prev(
                    old(self).channel_index(),
                    old(self).channels@.len() as int,
                ) as usize),
                ..*old(self)
            }),
    {
        self.current_channel = if self.current_channel == 0 {
            self.channels.len() - 1
        } else {
            self.current_channel - 1
        };
    }

    /// Step to the next channel, wrapping at the last.
    fn next_channel(&mut self)
        requires
            old(self).wf(),
        ensures
            final(self).wf(),
            *final(self) == (Settings {
                current_channel: (index_next(
                    old(self).channel_index(),
                    old(self).channels@.len() as int,
                ) as usize),
                ..*old(self)
            }),
    {
        self.current_channel = if self.current_channel == self.channels.len() - 1 {
            0
        } else {
            self.current_channel + 1
        };
    }

    /// The name of the channel the menu points at.
    pub fn current_channel_name(&self) -> (name: String)
        requires
            self.wf(),
        ensures
            name@ == self.current().name@,
    {
        self.channels[self.current_channel].name.clone()
    }

    /// Step the value selection backwards in its cycle.
    fn previous_value(&mut self)
        ensures
            *final(self) == (Settings { current_value: value_prev(old(self).current_value), ..*old(
                self,
            ) }),
    {
        self.current_value = match self.current_value {
            SettingsValue::Deadzone => SettingsValue::Step,
            SettingsValue::Center => SettingsValue::Deadzone,
            SettingsValue::Min => SettingsValue::Center,
            SettingsValue::Max => SettingsValue::Min,
            SettingsValue::Step => SettingsValue::Max,
        }
    }

    /// Step the value selection forwards in its cycle.
    fn next_value(&mut self)
        ensures
            *final(self) == (Settings { current_value: value_next(old(self).current_value), ..*old(
                self,
            ) }),
    {
        self.current_value = match self.current_value {
            SettingsValue::Deadzone => SettingsValue::Center,
            SettingsValue::Center => SettingsValue::Min,
            SettingsValue::Min => SettingsValue::Max,
            SettingsValue::Max => SettingsValue::Step,
            SettingsValue::Step => SettingsValue::Deadzone,
        }
    }

    /// The selected value of the channel the menu points at.
    pub fn get_value(&self) -> (r: u16)
        requires
            self.wf(),
        ensures
            r == value_of(self.current(), self.current_value),
    {
        match self.current_value {
            SettingsValue::Deadzone => self.channels[self.current_channel].deadzone,
            SettingsValue::Center => self.channels[self.current_channel].center,
            SettingsValue::Min => self.channels[self.current_channel].min,
            SettingsValue::Max => self.channels[self.current_channel].max,
            SettingsValue::Step => self.channels[self.current_channel].step,
        }
    }

    /// Raise the selected value of the current channel (the step limit
    /// moves by one, everything else by `diff`).
    fn add_value(&mut self, diff: u16)
        requires
            old(self).wf(),
            value_of(old(self).current(), old(self).current_value) + diff <= u16::MAX,
            old(self).current_value == SettingsValue::Step ==> old(self).current().step + 1
                <= u16::MAX,
        ensures
            final(self).wf(),
            final(self).channels@ == old(self).channels@.update(
                old(self).channel_index(),
                bump_up(old(self).current(), old(self).current_value, diff),
            ),
            final(self).mode == old(self).mode,
            final(self).settings_path == old(self).settings_path,
            final(self).channel_index() == old(self).channel_index(),
            final(self).current_value == old(self).current_value,
    {
        match self.current_value {
            SettingsValue::Deadzone => {
                let v = self.channels[self.current_channel].deadzone;
                self.channels[self.current_channel].deadzone = v + diff;
            },
            SettingsValue::Center => {
                let v = self.channels[self.current_channel].center;
                self.channels[self.current_channel].center = v + diff;
            },
            SettingsValue::Min => {
                let v = self.channels[self.current_channel].min;
                self.channels[self.current_channel].min = v + diff;
            },
            SettingsValue::Max => {
                let v = self.channels[self.current_channel].max;
                self.channels[self.current_channel].max = v + diff;
            },
            SettingsValue::Step => {
                let v = self.channels[self.current_channel].step;
                self.channels[self.current_channel].step = v + 1;
            },
        }
    }

    /// Lower the selected value of the current channel (the step limit
    /// moves by one, everything else by `diff`).
    fn sub_value(&mut self, diff: u16)
        requires
            old(self).wf(),
            value_of(old(self).current(), old(self).current_value) >= diff,
            old(self).current_value == SettingsValue::Step ==> old(self).current().step >= 1,
        ensures
            final(self).wf(),
            final(self).channels@ == old(self).channels@.update(
                old(self).channel_index(),
                bump_down(old(self).current(), old(self).current_value, diff),
            ),
            final(self).mode == old(self).mode,
            final(self).settings_path == old(self).settings_path,
            final(self).channel_index() == old(self).channel_index(),
            final(self).current_value == old(self).current_value,
    {
        match self.current_value {
            SettingsValue::Deadzone => {
                let v = self.channels[self.current_channel].deadzone;
                self.channels[self.current_channel].deadzone = v - diff;
            },
            SettingsValue::Center => {
                let v = self.channels[self.current_channel].center;
                self.channels[self.current_channel].center = v - diff;
            },
            SettingsValue::Min => {
                let v = self.channels[self.current_channel].min;
                self.channels[self.current_channel].min = v - diff;
            },
            SettingsValue::Max => {
                let v = self.channels[self.current_channel].max;
                self.channels[self.current_channel].max = v - diff;
            },
            SettingsValue::Step => {
                let v = self.channels[self.current_channel].step;
                self.channels[self.current_channel].step = v - 1;
            },
        }
    }

    /// One button press, dispatched on the menu mode, as in the panel's
    /// menu; leaving value adjustment through the change-mode button asks
    /// for the settings to be persisted, which the returned flag reports to
    /// the caller (writing the file is the embedding program's concern).
    pub fn handle_button(&mut self, button: usize) -> (save: bool)
        requires
            old(self).wf(),
            button == BUTTON_UP && old(self).mode == ControlMode::SettingsValue ==> value_of(
                old(self).current(),
                old(self).current_value,
            ) + VALUE_STEP <= u16::MAX,
            button == BUTTON_DOWN && old(self).mode == ControlMode::SettingsValue ==> value_of(
                old(self).current(),
                old(self).current_value,
            ) >= VALUE_STEP,
        ensures
            final(self).wf(),
            save == (button == BUTTON_CHANGE_MODE && old(self).mode == ControlMode::SettingsValue),
            final(self).settings_path == old(self).settings_path,
            button == BUTTON_CHANGE_MODE ==> *final(self) == (Settings {
                mode: mode_after_change(old(self).mode),
                ..*old(self)
            }),
            button == BUTTON_CANCEL_MODE ==> *final(self) == (Settings {
                mode: mode_after_cancel(old(self).mode),
                ..*old(self)
            }),
            button == BUTTON_LEFT ==> *final(self) == (match old(self).mode {
                ControlMode::Normal => *old(self),
                ControlMode::Settings => Settings {
                    current_channel: (index_prev(
                        old(self).channel_index(),
                        old(self).channels@.len() as int,
                    ) as usize),
                    ..*old(self)
                },
                ControlMode::SettingsValue => Settings {
                    current_value: value_prev(old(self).current_value),
                    ..*old(self)
                },
            }),
            button == BUTTON_RIGHT ==> *final(self) == (match old(self).mode {
                ControlMode::Normal => *old(self),
                ControlMode::Settings => Settings {
                    current_channel: (index_next(
                        old(self).channel_index(),
                        old(self).channels@.len() as int,
                    ) as usize),
                    ..*old(self)
                },
                ControlMode::SettingsValue => Settings {
                    current_value: value_next(old(self).current_value),
                    ..*old(self)
                },
            }),
            button == BUTTON_UP ==> {
                &&& final(self).mode == old(self).mode
                &&& final(self).channel_index() == old(self).channel_index()
                &&& final(self).current_value == old(self).current_value
                &&& final(self).channels@ == (if old(self).mode == ControlMode::SettingsValue {
                    old(self).channels@.update(
                        old(self).channel_index(),
                        bump_up(old(self).current(), old(self).current_value, VALUE_STEP),
                    )
                } else {
                    old(self).channels@
                })
            },
            button == BUTTON_DOWN ==> {
                &&& final(self).mode == old(self).mode
                &&& final(self).channel_index() == old(self).channel_index()
                &&& final(self).current_value == old(self).current_value
                &&& final(self).channels@ == (if old(self).mode == ControlMode::SettingsValue {
                    old(self).channels@.update(
                        old(self).channel_index(),
                        bump_down(old(self).current(), old(self).current_value, VALUE_STEP),
                    )
                } else {
                    old(self).channels@
                })
            },
            button > BUTTON_RIGHT ==> *final(self) == *old(self),
    {
        let mut save = false;
        match button {
            BUTTON_CHANGE_MODE => {
                self.mode = match self.mode {
                    ControlMode::Normal => ControlMode::Settings,
                    ControlMode::Settings => ControlMode::SettingsValue,
                    ControlMode::SettingsValue => {
                        save = true;
                        ControlMode::Settings
                    },
                };
            },
            BUTTON_CANCEL_MODE => {
                self.mode = match self.mode {
                    ControlMode::Normal => ControlMode::Normal,
                    ControlMode::Settings => ControlMode::Normal,
                    ControlMode::SettingsValue => ControlMode::Settings,
                };
            },
            BUTTON_LEFT => {
                match self.mode {
                    ControlMode::Normal => {},
                    ControlMode::Settings => {
                        self.previous_channel();
                    },
                    ControlMode::SettingsValue => {
                        self.previous_value();
                    },
                }
            },
            BUTTON_RIGHT => {
                match self.mode {
                    ControlMode::Normal => {},
                    ControlMode::Settings => {
                        self.next_channel();
                    },
                    ControlMode::SettingsValue => {
                        self.next_value();
                    },
                }
            },
            BUTTON_UP => {
                match self.mode {
                    ControlMode::SettingsValue => {
                        self.add_value(VALUE_STEP);
                    },
                    _ => {},
                }
            },
            BUTTON_DOWN => {
                match self.mode {
                    ControlMode::SettingsValue => {
                        self.sub_value(VALUE_STEP);
                    },
                    _ => {},
                }
            },
            _ => {},
        }
        save
    }
}

} // verus!
