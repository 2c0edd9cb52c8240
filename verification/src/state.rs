//! The panel's shared snapshot: what the main loop last computed, published
//! for the telemetry responder.

use vstd::prelude::*;

use crate::display::ADC_CHANNELS;

verus! {

/// One snapshot of the panel: the raw readings, the debounced button
/// states, the two transformed outputs and the menu mode's name.
#[derive(Clone, Debug)]
pub struct InternalState {
    pub adc_values: [u16; ADC_CHANNELS],
    pub button_states: [bool; 6],
    pub rudder_value: u16,
    pub motor_value: u16,
    pub mode: String,
}

} // verus!
