use btwattch2::collector::Collector;

fn frame_with_voltage(v0: u8) -> Vec<u8> {
    let mut f = vec![0u8; 23];
    f[0] = 0xAA;
    f[5] = v0;
    f
}

#[test]
fn one_sample_per_device_with_fragmented_frames() {
    let mut c = Collector::new();
    c.add_device(vec![0x0A; 6]);
    c.add_device(vec![0x0B; 6]);
    assert_eq!(c.device_count(), 2);

    let frame_a = frame_with_voltage(1);
    let frame_b = frame_with_voltage(2);

    // Device A's frame arrives in two fragments, device B's in one piece,
    // interleaved with A's.
    assert!(c.on_notification(0, &frame_a[..10]).is_none());
    let sample_b = c.on_notification(1, &frame_b).expect("B's frame is complete");
    let sample_a = c.on_notification(0, &frame_a[10..]).expect("A's frame is complete");

    assert_eq!(sample_a.address, vec![0x0A; 6]);
    assert_eq!(sample_a.reading.voltage_code, 1);
    assert_eq!(sample_b.address, vec![0x0B; 6]);
    assert_eq!(sample_b.reading.voltage_code, 2);
}

#[test]
fn no_cross_device_buffer_contamination() {
    let mut c = Collector::new();
    c.add_device(vec![0x0A]);
    c.add_device(vec![0x0B]);

    // 22 bytes for device A: one byte short of a frame.
    let frame_a = frame_with_voltage(9);
    assert!(c.on_notification(0, &frame_a[..22]).is_none());

    // 1 byte for device B: were the buffers shared, this byte would
    // complete A's frame. It must not.
    assert!(c.on_notification(1, &frame_a[22..]).is_none());

    // A's own last byte completes A's frame, and only A's.
    let sample = c.on_notification(0, &frame_a[22..]).expect("A completes");
    assert_eq!(sample.address, vec![0x0A]);
    assert_eq!(sample.reading.voltage_code, 9);
}

#[test]
fn samples_carry_the_devices_own_address() {
    let mut c = Collector::new();
    c.add_device(vec![0xDE, 0xAD]);
    let s = c.on_notification(0, &frame_with_voltage(5)).unwrap();
    assert_eq!(s.address, vec![0xDE, 0xAD]);
    // The session keeps its address for the next frame too.
    let s2 = c.on_notification(0, &frame_with_voltage(6)).unwrap();
    assert_eq!(s2.address, vec![0xDE, 0xAD]);
    assert_eq!(s2.reading.voltage_code, 6);
}
