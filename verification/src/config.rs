//! Control-panel settings: named channels with their joystick mappings, and
//! the three-state button-driven menu that selects a channel, selects one of
//! its values and adjusts it in steps of ten.

#![allow(non_snake_case)]

use vstd::prelude::*;

use crate::pzconfig;

verus! {

/// The menu's mode: driving normally, choosing a channel, or adjusting one
/// of the chosen channel's values.
#[derive(Debug, Clone, Copy, PartialEq, Eq, Structural)]
pub enum ControlMode {
    Normal,
    Settings,
    SettingsValue,
}

/// Which of a channel's values the menu is adjusting.
#[derive(Debug, Clone, Copy, PartialEq, Eq, Structural)]
pub enum SettingsValue {
    Deadzone,
    Min,
    Max,
}

/// A named output channel with its joystick mapping.
#[derive(Debug, Clone, PartialEq)]
pub struct ChannelConfig {
    pub name: String,
    pub deadzone: u16,
    pub min: u16,
    pub max: u16,
    pub center: u16,
}

pub const BUTTON_CANCEL_MODE: usize = 0;

pub const BUTTON_UP: usize = 1;

pub const BUTTON_CHANGE_MODE: usize = 2;

pub const BUTTON_LEFT: usize = 3;

pub const BUTTON_DOWN: usize = 4;

pub const BUTTON_RIGHT: usize = 5;

impl ChannelConfig {
    /// The channel's numeric mapping, without its name.
    pub open spec fn mapping(self) -> pzconfig::ChannelConfig {
        pzconfig::ChannelConfig {
            deadzone: self.deadzone,
            min: self.min,
            max: self.max,
            center: self.center,
        }
    }

    /// A channel with the stock mapping.
    fn new(name: &str) -> (c: ChannelConfig)
        ensures
            c.name@ == name@,
            c.mapping() == (pzconfig::ChannelConfig {
                deadzone: 50,
                min: 1000,
                max: 2000,
                center: 1500,
            }),
    {
        ChannelConfig {
            name: String::from_str(name),
            deadzone: 50,
            min: 1000,
            max: 2000,
            center: 1500,
        }
    }

    /// Map one raw 10-bit reading to this channel's output value; the
    /// mapping itself is [`pzconfig::spec_transform_adc`].
    pub fn transform_adc(&self, adc_value: u16) -> (r: u16)
        requires
            pzconfig::config_wf(self.mapping()),
            adc_value <= 1023,
        ensures
            r as int == pzconfig::spec_transform_adc(self.mapping(), adc_value as int),
            self.min <= r <= self.max,
    {
        let numeric = pzconfig::ChannelConfig {
            deadzone: self.deadzone,
            min: self.min,
            max: self.max,
            center: self.center,
        };
        numeric.transform_adc(adc_value)
    }
}

/// The value the menu shows for a channel under a selection.
pub open spec fn value_of(c: ChannelConfig, v: SettingsValue) -> u16 {
    match v {
        SettingsValue::Deadzone => c.deadzone,
        SettingsValue::Min => c.min,
        SettingsValue::Max => c.max,
    }
}

/// The selection one step backwards in the cycle.
pub open spec fn value_prev(v: SettingsValue) -> SettingsValue {
    match v {
        SettingsValue::Deadzone => SettingsValue::Max,
        SettingsValue::Min => SettingsValue::Deadzone,
        SettingsValue::Max => SettingsValue::Min,
    }
}

/// The selection one step forwards in the cycle.
pub open spec fn value_next(v: SettingsValue) -> SettingsValue {
    match v {
        SettingsValue::Deadzone => SettingsValue::Min,
        SettingsValue::Min => SettingsValue::Max,
        SettingsValue::Max => SettingsValue::Deadzone,
    }
}

/// The channel index one step backwards, wrapping at the ends.
pub open spec fn index_prev(idx: int, len: int) -> int {
    if idx == 0 {
        len - 1
    } else {
        idx - 1
    }
}

/// The channel index one step forwards, wrapping at the ends.
pub open spec fn index_next(idx: int, len: int) -> int {
    if idx == len - 1 {
        0
    } else {
        idx + 1
    }
}

/// The channel with the selected value raised by `d`.
pub open spec fn bump_up(c: ChannelConfig, v: SettingsValue, d: u16) -> ChannelConfig {
    match v {
        SettingsValue::Deadzone => ChannelConfig { deadzone: (c.deadzone + d) as u16, ..c },
        SettingsValue::Min => ChannelConfig { min: (c.min + d) as u16, ..c },
        SettingsValue::Max => ChannelConfig { max: (c.max + d) as u16, ..c },
    }
}

/// The channel with the selected value lowered by `d`.
pub open spec fn bump_down(c: ChannelConfig, v: SettingsValue, d: u16) -> ChannelConfig {
    match v {
        SettingsValue::Deadzone => ChannelConfig { deadzone: (c.deadzone - d) as u16, ..c },
        SettingsValue::Min => ChannelConfig { min: (c.min - d) as u16, ..c },
        SettingsValue::Max => ChannelConfig { max: (c.max - d) as u16, ..c },
    }
}

/// Mode after the change-mode button: normal enters the channel menu; the
/// channel menu enters value adjustment; value adjustment returns to the
/// channel menu.
pub open spec fn mode_after_change(m: ControlMode) -> ControlMode {
    match m {
        ControlMode::Normal => ControlMode::Settings,
        ControlMode::Settings => ControlMode::SettingsValue,
        ControlMode::SettingsValue => ControlMode::Settings,
    }
}

/// Mode after the cancel button: one level back out, never further than
/// normal.
pub open spec fn mode_after_cancel(m: ControlMode) -> ControlMode {
    match m {
        ControlMode::Normal => ControlMode::Normal,
        ControlMode::Settings => ControlMode::Normal,
        ControlMode::SettingsValue => ControlMode::Settings,
    }
}

/// The panel's settings: the menu mode, the channels, and which channel and
/// value the menu currently points at.
#[derive(Debug, Clone, PartialEq)]
pub struct Settings {
    pub mode: ControlMode,
    pub channels: Vec<ChannelConfig>,
    pub currentChannel: usize,
    pub currentValue: SettingsValue,
}

impl Settings {
    /// The index of the channel the menu points at.
    pub open spec fn channel_index(self) -> int {
        self.currentChannel as int
    }

    /// There is at least one channel and the menu points inside the list.
    pub open spec fn wf(self) -> bool {
        0 <= self.channel_index() < self.channels@.len()
    }

    /// The channel the menu points at.
    pub open spec fn current(self) -> ChannelConfig {
        self.channels@[self.channel_index()]
    }

    /// Two channels, rudder and motor, with the stock mapping; the menu at
    /// the first channel's dead zone, in normal mode.
    pub fn new() -> (s: Settings)
        ensures
            s.wf(),
            s.mode == ControlMode::Normal,
            s.currentValue == SettingsValue::Deadzone,
            s.channel_index() == 0,
            s.channels@.len() == 2,
            s.channels@[0].name@ == "Rudder"@,
            s.channels@[1].name@ == "Motor"@,
            forall|i: int| 0 <= i < 2 ==> (#[trigger] s.channels@[i].mapping())
                == (pzconfig::ChannelConfig { deadzone: 50, min: 1000, max: 2000, center: 1500 }),
    {
        let mut channels = Vec::new();
        channels.push(ChannelConfig::new("Rudder"));
        channels.push(ChannelConfig::new("Motor"));
        Settings {
            mode: ControlMode::Normal,
            channels,
            currentChannel: 0,
            currentValue: SettingsValue::Deadzone,
        }
    }

    /// Point the menu back at the first channel's dead zone.
    pub fn firstChannel(&mut self)
        requires
            old(self).wf(),
        ensures
            final(self).wf(),
            final(self).channel_index() == 0,
            final(self).currentValue == SettingsValue::Deadzone,
            final(self).mode == old(self).mode,
            final(self).channels == old(self).channels,
    {
        self.currentChannel = 0;
        self.currentValue = SettingsValue::Deadzone;
    }

    /// Step to the previous channel, wrapping at the first.
    pub fn previousChannel(&mut self)
        requires
            old(self).wf(),
        ensures
            final(self).wf(),
            final(self).channel_index() == index_prev(
                old(self).channel_index(),
                old(self).channels@.len() as int,
            ),
            final(self).mode == old(self).mode,
            final(self).currentValue == old(self).currentValue,
            final(self).channels == old(self).channels,
    {
        self.currentChannel = if self.currentChannel == 0 {
            self.channels.len() - 1
        } else {
            self.currentChannel - 1
        };
    }

    /// Step to the next channel, wrapping at the last.
    pub fn nextChannel(&mut self)
        requires
            old(self).wf(),
        ensures
            final(self).wf(),
            final(self).channel_index() == index_next(
                old(self).channel_index(),
                old(self).channels@.len() as int,
            ),
            final(self).mode == old(self).mode,
            final(self).currentValue == old(self).currentValue,
            final(self).channels == old(self).channels,
    {
        self.currentChannel = if self.currentChannel == self.channels.len() - 1 {
            0
        } else {
            self.currentChannel + 1
        };
    }

    /// The name of the channel the menu points at.
    pub fn currentChannelName(&self) -> (name: String)
        requires
            self.wf(),
        ensures
            name@ == self.current().name@,
    {
        self.channels[self.currentChannel].name.clone()
    }

    /// Step the value selection backwards in its cycle.
    pub fn previousValue(&mut self)
        ensures
            final(self).currentValue == value_prev(old(self).currentValue),
            final(self).mode == old(self).mode,
            final(self).channel_index() == old(self).channel_index(),
            final(self).channels == old(self).channels,
    {
        self.currentValue = match self.currentValue {
            SettingsValue::Deadzone => SettingsValue::Max,
            SettingsValue::Min => SettingsValue::Deadzone,
            SettingsValue::Max => SettingsValue::Min,
        }
    }

    /// Step the value selection forwards in its cycle.
    pub fn nextValue(&mut self)
        ensures
            final(self).currentValue == value_next(old(self).currentValue),
            final(self).mode == old(self).mode,
            final(self).channel_index() == old(self).channel_index(),
            final(self).channels == old(self).channels,
    {
        self.currentValue = match self.currentValue {
            SettingsValue::Deadzone => SettingsValue::Min,
            SettingsValue::Min => SettingsValue::Max,
            SettingsValue::Max => SettingsValue::Deadzone,
        }
    }

    /// The selected value of the channel the menu points at.
    pub fn getValue(&self) -> (r: u16)
        requires
            self.wf(),
        ensures
            r == value_of(self.current(), self.currentValue),
    {
        match self.currentValue {
            SettingsValue::Deadzone => self.channels[self.currentChannel].deadzone,
            SettingsValue::Min => self.channels[self.currentChannel].min,
            SettingsValue::Max => self.channels[self.currentChannel].max,
        }
    }

    /// Raise the selected value of the current channel by `diff`.
    pub fn addValue(&mut self, diff: u16)
        requires
            old(self).wf(),
            value_of(old(self).current(), old(self).currentValue) + diff <= u16::MAX,
        ensures
            final(self).wf(),
            final(self).channels@ == old(self).channels@.update(
                old(self).channel_index(),
                bump_up(old(self).current(), old(self).currentValue, diff),
            ),
            final(self).mode == old(self).mode,
            final(self).channel_index() == old(self).channel_index(),
            final(self).currentValue == old(self).currentValue,
    {
        match self.currentValue {
            SettingsValue::Deadzone => {
                let v = self.channels[self.currentChannel].deadzone;
                self.channels[self.currentChannel].deadzone = v + diff;
            },
            SettingsValue::Min => {
                let v = self.channels[self.currentChannel].min;
                self.channels[self.currentChannel].min = v + diff;
            },
            SettingsValue::Max => {
                let v = self.channels[self.currentChannel].max;
                self.channels[self.currentChannel].max = v + diff;
            },
        }
    }

    /// Lower the selected value of the current channel by `diff`.
    pub fn subValue(&mut self, diff: u16)
        requires
            old(self).wf(),
            value_of(old(self).current(), old(self).currentValue) >= diff,
        ensures
            final(self).wf(),
            final(self).channels@ == old(self).channels@.update(
                old(self).channel_index(),
                bump_down(old(self).current(), old(self).currentValue, diff),
            ),
            final(self).mode == old(self).mode,
            final(self).channel_index() == old(self).channel_index(),
            final(self).currentValue == old(self).currentValue,
    {
        match self.currentValue {
            SettingsValue::Deadzone => {
                let v = self.channels[self.currentChannel].deadzone;
                self.channels[self.currentChannel].deadzone = v - diff;
            },
            SettingsValue::Min => {
                let v = self.channels[self.currentChannel].min;
                self.channels[self.currentChannel].min = v - diff;
            },
            SettingsValue::Max => {
                let v = self.channels[self.currentChannel].max;
                self.channels[self.currentChannel].max = v - diff;
            },
        }
    }

    /// One button press, dispatched on the menu mode: change-mode walks the
    /// mode cycle (entering the menu points it at the first channel's dead
    /// zone), cancel backs one level out, left/right step the channel or
    /// value selection, and up/down adjust the selected value by ten while
    /// adjusting.  Any other button, and left/right in normal mode, do
    /// nothing.
    pub fn handle_button(&mut self, button: usize)
        requires
            old(self).wf(),
            button == BUTTON_UP && old(self).mode == ControlMode::SettingsValue ==> value_of(
                old(self).current(),
                old(self).currentValue,
            ) + 10 <= u16::MAX,
            button == BUTTON_DOWN && old(self).mode == ControlMode::SettingsValue ==> value_of(
                old(self).current(),
                old(self).currentValue,
            ) >= 10,
        ensures
            final(self).wf(),
            button == BUTTON_CHANGE_MODE ==> {
                &&& final(self).mode == mode_after_change(old(self).mode)
                &&& final(self).channels == old(self).channels
                &&& final(self).channel_index() == (if old(self).mode == ControlMode::Normal {
                    0int
                } else {
                    old(self).channel_index()
                })
                &&& final(self).currentValue == (if old(self).mode == ControlMode::Normal {
                    SettingsValue::Deadzone
                } else {
                    old(self).currentValue
                })
            },
            button == BUTTON_CANCEL_MODE ==> {
                &&& final(self).mode == mode_after_cancel(old(self).mode)
                &&& final(self).channels == old(self).channels
                &&& final(self).channel_index() == old(self).channel_index()
                &&& final(self).currentValue == old(self).currentValue
            },
            button == BUTTON_LEFT ==> {
                &&& final(self).mode == old(self).mode
                &&& final(self).channels == old(self).channels
                &&& final(self).channel_index() == (if old(self).mode == ControlMode::Settings {
                    index_prev(old(self).channel_index(), old(self).channels@.len() as int)
                } else {
                    old(self).channel_index()
                })
                &&& final(self).currentValue == (if old(self).mode == ControlMode::SettingsValue {
                    value_prev(old(self).currentValue)
                } else {
                    old(self).currentValue
                })
            },
            button == BUTTON_RIGHT ==> {
                &&& final(self).mode == old(self).mode
                &&& final(self).channels == old(self).channels
                &&& final(self).channel_index() == (if old(self).mode == ControlMode::Settings {
                    index_next(old(self).channel_index(), old(self).channels@.len() as int)
                } else {
                    old(self).channel_index()
                })
                &&& final(self).currentValue == (if old(self).mode == ControlMode::SettingsValue {
                    value_next(old(self).currentValue)
                } else {
                    old(self).currentValue
                })
            },
            button == BUTTON_UP ==> {
                &&& final(self).mode == old(self).mode
                &&& final(self).channel_index() == old(self).channel_index()
                &&& final(self).currentValue == old(self).currentValue
                &&& final(self).channels@ == (if old(self).mode == ControlMode::SettingsValue {
                    old(self).channels@.update(
                        old(self).channel_index(),
                        bump_up(old(self).current(), old(self).currentValue, 10),
                    )
                } else {
                    old(self).channels@
                })
            },
            button == BUTTON_DOWN ==> {
                &&& final(self).mode == old(self).mode
                &&& final(self).channel_index() == old(self).channel_index()
                &&& final(self).currentValue == old(self).currentValue
                &&& final(self).channels@ == (if old(self).mode == ControlMode::SettingsValue {
                    old(self).channels@.update(
                        old(self).channel_index(),
                        bump_down(old(self).current(), old(self).currentValue, 10),
                    )
                } else {
                    old(self).channels@
                })
            },
            button > BUTTON_RIGHT ==> *final(self) == *old(self),
    {
        match button {
            BUTTON_CHANGE_MODE => {
                self.mode = match self.mode {
                    ControlMode::Normal => {
                        self.firstChannel();
                        ControlMode::Settings
                    },
                    ControlMode::Settings => ControlMode::SettingsValue,
                    ControlMode::SettingsValue => ControlMode::Settings,
                };
            },
            BUTTON_CANCEL_MODE => {
                self.mode = match self.mode {
                    ControlMode::Normal => ControlMode::Normal,
                    ControlMode::Settings => ControlMode::Normal,
                    ControlMode::SettingsValue => ControlMode::Settings,
                };
            },
            BUTTON_LEFT => {
                match self.mode {
                    ControlMode::Normal => {},
                    ControlMode::Settings => {
                        self.previousChannel();
                    },
                    ControlMode::SettingsValue => {
                        self.previousValue();
                    },
                }
            },
            BUTTON_RIGHT => {
                match self.mode {
                    ControlMode::Normal => {},
                    ControlMode::Settings => {
                        self.nextChannel();
                    },
                    ControlMode::SettingsValue => {
                        self.nextValue();
                    },
                }
            },
            BUTTON_UP => {
                match self.mode {
                    ControlMode::SettingsValue => {
                        self.addValue(10);
                    },
                    _ => {},
                }
            },
            BUTTON_DOWN => {
                match self.mode {
                    ControlMode::SettingsValue => {
                        self.subValue(10);
                    },
                    _ => {},
                }
            },
            _ => {},
        }
    }
}


} // verus!
