use bp5758d::Bp5758d;
use bp5758d::Bp5758dChannel;
use bp5758d::Error;
use bp5758d::FailingBus;
use bp5758d::RecordingBus;

const IDENTITY: [u8; 5] = [1, 2, 3, 4, 5];

#[test]
fn new_rejects_current_above_90() {
    let r = Bp5758d::new(RecordingBus::new(), IDENTITY, [0, 0, 0, 0, 91]);
    assert!(matches!(r, Err(Error::InvalidArg)));
}

#[test]
fn new_rejects_mapping_above_5() {
    let r = Bp5758d::new(RecordingBus::new(), [1, 2, 3, 4, 6], [0, 0, 0, 0, 0]);
    assert!(matches!(r, Err(Error::InvalidArg)));
    let r = Bp5758d::new(RecordingBus::new(), [255, 2, 3, 4, 5], [0, 0, 0, 0, 0]);
    assert!(matches!(r, Err(Error::InvalidArg)));
}

#[test]
fn new_accepts_mapping_zero() {
    // the documented boundary condition: only entries above 5 are rejected
    let r = Bp5758d::new(RecordingBus::new(), [0, 2, 3, 4, 5], [0, 0, 0, 0, 0]);
    assert!(r.is_ok());
}

#[test]
fn new_starts_asleep_without_touching_the_bus() {
    let d = Bp5758d::new(RecordingBus::new(), IDENTITY, [10, 20, 30, 70, 90]).unwrap();
    assert!(d.is_sleeping());
    assert!(d.transport().writes.is_empty());
}

#[test]
fn grayscale_above_1023_rejected_without_bus_activity() {
    let mut d = Bp5758d::new(RecordingBus::new(), IDENTITY, [0; 5]).unwrap();
    assert_eq!(d.set_channel(Bp5758dChannel::OUT1, 1024), Err(Error::InvalidArg));
    assert_eq!(d.set_channel(Bp5758dChannel::OUT5, 65535), Err(Error::InvalidArg));
    assert!(d.transport().writes.is_empty());
    assert!(d.is_sleeping());
}

#[test]
fn rgbcw_above_1023_rejected_without_bus_activity() {
    for bad in 0..5 {
        let mut d = Bp5758d::new(RecordingBus::new(), IDENTITY, [0; 5]).unwrap();
        let mut v = [100u16, 200, 300, 400, 500];
        v[bad] = 1024;
        let r = d.set_rgbcw(v[0], v[1], v[2], v[3], v[4]);
        assert_eq!(r, Err(Error::InvalidArg));
        assert!(d.transport().writes.is_empty());
        assert!(d.is_sleeping());
    }
}

#[test]
fn set_channel_out3_encoding() {
    let mut d = Bp5758d::new(RecordingBus::new(), IDENTITY, [0; 5]).unwrap();
    d.set_channel(Bp5758dChannel::OUT3, 513).unwrap();
    // the wake write comes first, then the grayscale write
    let writes = &d.transport().writes;
    assert_eq!(writes.len(), 2);
    assert_eq!(writes[1].0, 0x80 | 0x20 | 0xA);
    assert_eq!(writes[1].0, 0xAA);
    assert_eq!(writes[1].1, vec![(513u16 & 0x1F) as u8, (513u16 >> 5) as u8]);
    assert_eq!(writes[1].1, vec![0x01, 0x10]);
}

#[test]
fn set_channel_max_value_encoding() {
    let mut d = Bp5758d::new(RecordingBus::new(), IDENTITY, [0; 5]).unwrap();
    d.set_sleep(false).unwrap();
    d.set_channel(Bp5758dChannel::OUT1, 1023).unwrap();
    let writes = &d.transport().writes;
    assert_eq!(writes[1], (0xA6, vec![0x1F, 0x1F]));
}

#[test]
fn grayscale_masks() {
    assert_eq!(Bp5758dChannel::OUT1.get_grayscale_mask(), 0x6);
    assert_eq!(Bp5758dChannel::OUT2.get_grayscale_mask(), 0x8);
    assert_eq!(Bp5758dChannel::OUT3.get_grayscale_mask(), 0xA);
    assert_eq!(Bp5758dChannel::OUT4.get_grayscale_mask(), 0xC);
    assert_eq!(Bp5758dChannel::OUT5.get_grayscale_mask(), 0xE);
}

#[test]
fn sleep_issues_shutdown_then_disable() {
    let mut d = Bp5758d::new(RecordingBus::new(), IDENTITY, [10, 20, 30, 40, 50]).unwrap();
    d.set_sleep(false).unwrap();
    d.set_sleep(true).unwrap();
    let writes = &d.transport().writes;
    assert_eq!(writes.len(), 3);
    assert_eq!(writes[1], (0x80 | 0x20 | 0x6, vec![0; 10]));
    assert_eq!(writes[2], (0x80, vec![0x00, 0, 0, 0, 0, 0]));
    assert!(d.is_sleeping());
}

#[test]
fn sleep_failure_on_shutdown_write_keeps_state_awake() {
    let mut d = Bp5758d::new(FailingBus::new(1), IDENTITY, [0; 5]).unwrap();
    d.set_sleep(false).unwrap();
    assert_eq!(d.set_sleep(true), Err(Error::I2c));
    // only the shutdown write was attempted, and the state stays awake
    assert_eq!(d.transport().writes.len(), 2);
    assert!(!d.is_sleeping());
}

#[test]
fn sleep_failure_on_disable_write_keeps_state_awake() {
    let mut d = Bp5758d::new(FailingBus::new(2), IDENTITY, [0; 5]).unwrap();
    d.set_sleep(false).unwrap();
    assert_eq!(d.set_sleep(true), Err(Error::I2c));
    // both writes were attempted, but the state becomes asleep only if
    // both succeed
    assert_eq!(d.transport().writes.len(), 3);
    assert!(!d.is_sleeping());
}

#[test]
fn wake_issues_one_write_with_transformed_currents() {
    let mut d = Bp5758d::new(RecordingBus::new(), IDENTITY, [10, 20, 30, 70, 90]).unwrap();
    d.set_sleep(false).unwrap();
    let writes = &d.transport().writes;
    assert_eq!(writes.len(), 1);
    assert_eq!(writes[0], (0x80 | 0x20, vec![0x1F, 10, 20, 30, (70 - 62) | 0x60, (90 - 62) | 0x60]));
    assert!(!d.is_sleeping());
}

#[test]
fn wake_failure_keeps_state_asleep() {
    let mut d = Bp5758d::new(FailingBus::new(0), IDENTITY, [0; 5]).unwrap();
    assert_eq!(d.set_sleep(false), Err(Error::I2c));
    assert_eq!(d.transport().writes.len(), 1);
    assert!(d.is_sleeping());
}

#[test]
fn grayscale_calls_wake_only_while_asleep() {
    let mut d = Bp5758d::new(RecordingBus::new(), IDENTITY, [1, 2, 3, 4, 5]).unwrap();
    d.set_channel(Bp5758dChannel::OUT2, 7).unwrap();
    // asleep: the wake write precedes the grayscale write
    assert_eq!(d.transport().writes.len(), 2);
    assert_eq!(d.transport().writes[0], (0xA0, vec![0x1F, 1, 2, 3, 4, 5]));
    assert_eq!(d.transport().writes[1], (0xA8, vec![7, 0]));
    // awake: no further wake write
    d.set_channel(Bp5758dChannel::OUT2, 8).unwrap();
    assert_eq!(d.transport().writes.len(), 3);
    assert_eq!(d.transport().writes[2], (0xA8, vec![8, 0]));
    d.set_rgbcw(1, 2, 3, 4, 5).unwrap();
    assert_eq!(d.transport().writes.len(), 4);
}

#[test]
fn wake_after_sleep_rewrites_no_grayscale_register() {
    let mut d = Bp5758d::new(RecordingBus::new(), IDENTITY, [5, 5, 5, 5, 5]).unwrap();
    d.set_sleep(false).unwrap();
    d.set_rgbcw(100, 200, 300, 400, 500).unwrap();
    d.set_sleep(true).unwrap();
    let before = d.transport().writes.len();
    d.set_sleep(false).unwrap();
    let writes = &d.transport().writes;
    // the wake transition appends exactly one write, and it does not
    // target a grayscale address: grayscale state is not restored
    assert_eq!(writes.len(), before + 1);
    let (addr, payload) = &writes[before];
    assert_eq!(*addr, 0xA0);
    for gs in [0xA6u8, 0xA8, 0xAA, 0xAC, 0xAE] {
        assert_ne!(*addr, gs);
    }
    assert_eq!(*payload, vec![0x1F, 5, 5, 5, 5, 5]);
}

#[test]
fn rgbcw_identity_mapping_places_in_order() {
    let mut d = Bp5758d::new(RecordingBus::new(), IDENTITY, [0; 5]).unwrap();
    d.set_sleep(false).unwrap();
    d.set_rgbcw(1, 2, 3, 4, 5).unwrap();
    let writes = &d.transport().writes;
    assert_eq!(writes[1], (0xA6, vec![1, 0, 2, 0, 3, 0, 4, 0, 5, 0]));
}

#[test]
fn rgbcw_mapping_places_by_physical_slot() {
    let mut d = Bp5758d::new(RecordingBus::new(), [5, 4, 3, 2, 1], [0; 5]).unwrap();
    d.set_sleep(false).unwrap();
    d.set_rgbcw(1, 2, 3, 4, 5).unwrap();
    let writes = &d.transport().writes;
    // each value's 2 bytes land at the offset of its mapped physical
    // slot, not at its logical position
    assert_eq!(writes[1], (0xA6, vec![5, 0, 4, 0, 3, 0, 2, 0, 1, 0]));
}

#[test]
fn rgbcw_splits_ten_bit_values() {
    let mut d = Bp5758d::new(RecordingBus::new(), [3, 1, 2, 4, 5], [0; 5]).unwrap();
    d.set_sleep(false).unwrap();
    d.set_rgbcw(513, 0, 0, 0, 0).unwrap();
    let writes = &d.transport().writes;
    assert_eq!(writes[1], (0xA6, vec![0, 0, 0, 0, 0x01, 0x10, 0, 0, 0, 0]));
}

#[test]
fn rgbcw_duplicate_mapping_later_channel_wins() {
    let mut d = Bp5758d::new(RecordingBus::new(), [1, 1, 2, 3, 4], [0; 5]).unwrap();
    d.set_sleep(false).unwrap();
    d.set_rgbcw(111, 222, 333, 444, 555).unwrap();
    let writes = &d.transport().writes;
    let payload = &writes[1].1;
    // logical green overwrites logical red in physical slot 1
    assert_eq!(payload[0], (222u16 & 0x1F) as u8);
    assert_eq!(payload[1], (222u16 >> 5) as u8);
    assert_eq!(payload[8], 0);
    assert_eq!(payload[9], 0);
}

#[test]
fn sleep_writes_are_issued_even_when_already_asleep() {
    let mut d = Bp5758d::new(RecordingBus::new(), IDENTITY, [0; 5]).unwrap();
    d.set_sleep(true).unwrap();
    d.set_sleep(true).unwrap();
    assert_eq!(d.transport().writes.len(), 4);
    let mut e = Bp5758d::new(RecordingBus::new(), IDENTITY, [0; 5]).unwrap();
    e.set_sleep(false).unwrap();
    e.set_sleep(false).unwrap();
    assert_eq!(e.transport().writes.len(), 2);
}

#[test]
fn power_down_while_awake_issues_the_sleep_sequence_once() {
    let mut d = Bp5758d::new(RecordingBus::new(), IDENTITY, [0; 5]).unwrap();
    d.set_sleep(false).unwrap();
    d.power_down();
    let writes = &d.transport().writes;
    assert_eq!(writes.len(), 3);
    assert_eq!(writes[1], (0xA6, vec![0; 10]));
    assert_eq!(writes[2], (0x80, vec![0; 6]));
    assert!(d.is_sleeping());
}

#[test]
fn power_down_while_asleep_leaves_the_bus_alone() {
    let mut d = Bp5758d::new(RecordingBus::new(), IDENTITY, [0; 5]).unwrap();
    d.power_down();
    assert!(d.transport().writes.is_empty());
    assert!(d.is_sleeping());
}

#[test]
fn power_down_swallows_transport_failure() {
    let mut d = Bp5758d::new(FailingBus::new(1), IDENTITY, [0; 5]).unwrap();
    d.set_sleep(false).unwrap();
    // the forced sleep transition fails on the bus; the failure must not
    // propagate out of the teardown path
    d.power_down();
    assert_eq!(d.transport().writes.len(), 2);
    assert!(!d.is_sleeping());
}
