use boatctl::hx711::{Gain, Hx711Error, HX711};
use boatctl::line::SimLine;

/// The levels a scripted data line must deliver so that successive reads
/// see the given raw values: for each value, one ready (low) level and the
/// 24 bits of the value with its sign bit flipped back, most significant
/// first.
fn script_for_readings(raws: &[i32]) -> Vec<bool> {
    let mut levels = Vec::new();
    for &raw in raws {
        let wire = (raw as u32) ^ 0x800000;
        levels.push(false);
        for bit in (0..24).rev() {
            levels.push((wire >> bit) & 1 == 1);
        }
    }
    levels
}

fn driver_for(raws: &[i32], gain: Gain) -> HX711<SimLine, SimLine> {
    let data = SimLine::new(script_for_readings(raws));
    let clock = SimLine::new(Vec::new());
    HX711::new(data, clock, gain).unwrap()
}

#[test]
fn spin_wait_blocks_at_least_the_requested_time() {
    let start = std::time::Instant::now();
    boatctl::timer::spin_wait(2_000_000);
    assert!(start.elapsed().as_nanos() >= 2_000_000);
}

#[test]
fn sign_flip_is_its_own_inverse() {
    for &c in &[0u32, 1, 0x7FFFFF, 0x800000, 0xABCDEF, 0xFFFFFF] {
        let flipped = c ^ 0x800000;
        assert!(flipped < 0x1000000);
        assert_eq!(flipped ^ 0x800000, c);
    }
}

#[test]
fn single_read_decodes_wire_bits() {
    // all-zero wire bits decode to the mid-scale raw value
    let mut hx = driver_for(&[8388608], Gain::ChAGain128);
    assert_eq!(hx.get_value(), Some(8388608));

    let mut hx = driver_for(&[0x123456], Gain::ChAGain128);
    assert_eq!(hx.get_value(), Some(0x123456));

    // the extremes of the 24-bit range
    let mut hx = driver_for(&[0, 0xFFFFFF], Gain::ChAGain128);
    assert_eq!(hx.get_value(), Some(0));
    assert_eq!(hx.get_value(), Some(0xFFFFFF));
}

#[test]
fn average_skips_timeouts() {
    // one good reading, one timed-out conversion, one good reading: the
    // mean is over exactly the two readings that succeeded
    let mut script = script_for_readings(&[8388610]);
    script.extend(std::iter::repeat(true).take(1_000_001));
    script.extend(script_for_readings(&[8388606]));
    let mut hx = HX711::new(SimLine::new(script), SimLine::new(Vec::new()), Gain::ChAGain128)
        .unwrap();
    assert_eq!(hx.get_value_average(3), Some(8388608));
}

#[test]
fn average_of_no_successes_is_empty() {
    // a data line that never reports ready: every reading times out
    let mut hx = driver_for(&[], Gain::ChAGain128);
    assert_eq!(hx.get_value_average(2), None);
}

#[test]
fn average_truncates() {
    let mut hx = driver_for(&[10, 11], Gain::ChAGain128);
    assert_eq!(hx.get_value_average(2), Some(10));
}

#[test]
fn average_of_zero_reads_is_empty() {
    let mut hx = driver_for(&[8388608], Gain::ChAGain128);
    assert_eq!(hx.get_value_average(0), None);
}

#[test]
fn timeout_comes_exactly_at_the_polling_bound() {
    // ready on the very last tolerated poll: the read still succeeds
    let mut script = vec![true; 1_000_000];
    script.push(false);
    script.extend(std::iter::repeat(false).take(24));
    let mut hx = HX711::new(SimLine::new(script), SimLine::new(Vec::new()), Gain::ChAGain128)
        .unwrap();
    assert_eq!(hx.read_raw_bytes(), 8388608);
    assert_eq!(hx.data_line().remaining(), 0);
}

#[test]
fn timeout_consumes_the_whole_polling_bound() {
    // one more failed poll than the bound tolerates: the read gives up,
    // after the full budget of polls and not one poll earlier
    let script = vec![true; 1_000_001];
    let mut hx = HX711::new(SimLine::new(script), SimLine::new(Vec::new()), Gain::ChAGain128)
        .unwrap();
    assert_eq!(hx.read_raw_bytes(), -1);
    assert_eq!(hx.data_line().remaining(), 0);
    assert_eq!(hx.get_value(), None);
}

#[test]
fn gain_changes_only_the_trailing_pulse_count() {
    let raws = [8388608];
    let mut a128 = driver_for(&raws, Gain::ChAGain128);
    let mut b32 = driver_for(&raws, Gain::ChBGain32);
    let mut a64 = driver_for(&raws, Gain::ChAGain64);

    // the decoded value does not depend on the gain selection
    assert_eq!(a128.read_raw_bytes(), 8388608);
    assert_eq!(b32.read_raw_bytes(), 8388608);
    assert_eq!(a64.read_raw_bytes(), 8388608);

    let startup = 24;  // construction writes: 4 power-cycle levels + 10 pulses
    let wa = a128.clock_line().written_levels().clone();
    let wb = b32.clock_line().written_levels().clone();
    let wc = a64.clock_line().written_levels().clone();

    // the 24 data-bit pulses are identical whatever the gain
    assert_eq!(wa[startup..startup + 48], wb[startup..startup + 48]);
    assert_eq!(wa[startup..startup + 48], wc[startup..startup + 48]);

    // only the trailing pulse count differs: 1, 2 and 3 pulse pairs
    assert_eq!(wa.len(), startup + 48 + 2);
    assert_eq!(wb.len(), startup + 48 + 4);
    assert_eq!(wc.len(), startup + 48 + 6);
}

#[test]
fn set_gain_costs_one_throwaway_read() {
    let mut hx = driver_for(&[8388608, 8388700], Gain::ChAGain128);
    assert_eq!(hx.data_line().remaining(), 50);
    hx.set_gain(Gain::ChBGain32);
    assert_eq!(hx.data_line().remaining(), 25);
    assert_eq!(hx.get_gain(), Gain::ChBGain32);
    assert_eq!(hx.get_value(), Some(8388700));
}

#[test]
fn tare_sets_offset_to_the_running_average() {
    let mut hx = driver_for(&[8388608, 8388610, 8388606, 8388608, 8388610, 8388606],
        Gain::ChAGain128);
    assert_eq!(hx.get_offset_a(), 1);
    hx.tare(3);
    assert_eq!(hx.get_offset_a(), 8388608);
    // with the sensor output unchanged, the net value right after a tare is
    // zero, and so is the weight
    assert_eq!(hx.get_value_net(3), Some(0));
    let weight = 0i64 as f32 / 432.0f32;
    assert_eq!(weight, 0.0);
}

#[test]
fn tare_b_sets_offset_b() {
    // one throwaway reading for the channel switch, then the average
    let mut hx = driver_for(&[8388608, 9000000, 9000002], Gain::ChAGain128);
    hx.tare_b(2);
    assert_eq!(hx.get_offset_b(), 9000001);
    assert_eq!(hx.get_gain(), Gain::ChBGain32);
    assert_eq!(hx.get_offset_a(), 1);
}

#[test]
fn tare_without_readings_keeps_the_offset() {
    let mut hx = driver_for(&[], Gain::ChAGain128);
    hx.set_offset_a(1234);
    hx.tare(1);
    assert_eq!(hx.get_offset_a(), 1234);
}

#[test]
fn weight_scenario_zero() {
    // raw readings around mid-scale, offset at their mean: weight 0.0
    let mut hx = driver_for(&[8388608, 8388610, 8388606], Gain::ChAGain128);
    hx.set_offset_a(8388608);
    let net = hx.get_value_net(3).unwrap();
    assert_eq!(net, 0);
    let weight = net as f32 / 432.0f32;
    assert_eq!(weight, 0.0);
}

#[test]
fn weight_scenario_eight_grams() {
    let mut hx = driver_for(&[8669777], Gain::ChAGain128);
    hx.set_offset_a(8661777);
    let net = hx.get_value_net(1).unwrap();
    assert_eq!(net, 8000);
    let weight = net as f32 / 960.33f32;
    assert!((weight - 8.33).abs() < 0.01);
}

#[test]
fn calibration_changes_affect_only_later_results() {
    let mut hx = driver_for(&[8388708, 8388708], Gain::ChAGain128);
    hx.set_offset_a(8388608);
    let net_before = hx.get_value_net(1).unwrap();
    let weight_before = net_before as f32 / 100.0f32;
    hx.set_offset_a(8388708);
    let net_after = hx.get_value_net(1).unwrap();
    // the result already computed is untouched; only new results move
    assert_eq!(net_before, 100);
    assert_eq!(weight_before, 1.0);
    assert_eq!(net_after, 0);
}

#[test]
fn net_value_b_uses_channel_b_offset() {
    let mut hx = driver_for(&[8388608, 9000100], Gain::ChAGain128);
    hx.set_offset_b(9000000);
    assert_eq!(hx.get_value_net_b(1), Some(100));
}

#[test]
fn construction_reports_the_failing_line() {
    let clock_bad = SimLine::new_failing_setup(Vec::new());
    let data = SimLine::new(Vec::new());
    match HX711::new(data, clock_bad, Gain::ChAGain128) {
        Err(e) => assert_eq!(e, Hx711Error::ClockSetup),
        Ok(_) => panic!("an unconfigurable clock line must fail construction"),
    }

    let clock = SimLine::new(Vec::new());
    let data_bad = SimLine::new_failing_setup(Vec::new());
    match HX711::new(data_bad, clock, Gain::ChAGain128) {
        Err(e) => assert_eq!(e, Hx711Error::DataSetup),
        Ok(_) => panic!("an unconfigurable data line must fail construction"),
    }
}

#[test]
fn construction_power_cycles_and_primes_the_chip() {
    let hx = driver_for(&[], Gain::ChAGain128);
    let writes = hx.clock_line().written_levels();
    // initial low, power down (low then high-and-hold), power up (low)
    assert_eq!(writes[0..4], [false, false, true, false]);
    // ten priming pulses
    assert_eq!(writes.len(), 4 + 20);
    for p in 0..10 {
        assert_eq!(writes[4 + 2 * p], true);
        assert_eq!(writes[4 + 2 * p + 1], false);
    }
    // the data line is never read during construction
    assert_eq!(hx.data_line().remaining(), 0);
}

#[test]
fn power_cycle_does_not_repush_the_gain_selection() {
    // the chip resumes on channel A gain 128 after a power cycle, yet no
    // throwaway read pushes the stored selection back: the reset writes
    // only the three power-cycle levels, and the stored selection stays
    let mut hx = driver_for(&[8388608], Gain::ChAGain128);
    hx.set_gain(Gain::ChBGain32);
    let before = hx.clock_line().written_levels().len();
    hx.reset();
    let after = hx.clock_line().written_levels().len();
    assert_eq!(after - before, 3);
    assert_eq!(hx.get_gain(), Gain::ChBGain32);
}

#[test]
fn is_ready_reads_the_data_line_once() {
    let mut hx = HX711::new(SimLine::new(vec![false, true]), SimLine::new(Vec::new()),
        Gain::ChAGain128).unwrap();
    assert!(hx.is_ready());
    assert!(!hx.is_ready());
}
