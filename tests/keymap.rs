use opendeck_ajazz_n1::keymap::{device_to_opendeck_n1, logical_to_device, opendeck_to_device};

#[test]
fn logical_and_device_indices_are_inverse() {
    for key in 0u8..18 {
        let code = logical_to_device(key);
        assert!((1..=18).contains(&code));
        assert_eq!(device_to_opendeck_n1(code as usize), key as usize);
    }
    for code in 1usize..=18 {
        let key = device_to_opendeck_n1(code);
        assert!(key < 18);
        assert_eq!(logical_to_device(key as u8) as usize, code);
    }
}

#[test]
fn device_to_logical_table() {
    assert_eq!(device_to_opendeck_n1(16), 0);
    assert_eq!(device_to_opendeck_n1(17), 1);
    assert_eq!(device_to_opendeck_n1(18), 2);
    assert_eq!(device_to_opendeck_n1(1), 3);
    assert_eq!(device_to_opendeck_n1(5), 7);
    assert_eq!(device_to_opendeck_n1(15), 17);
    assert_eq!(device_to_opendeck_n1(0), 0);
    assert_eq!(device_to_opendeck_n1(30), 29);
}

#[test]
fn image_slots_compensate_firmware_offset() {
    assert_eq!(opendeck_to_device(0), 15);
    assert_eq!(opendeck_to_device(1), 16);
    assert_eq!(opendeck_to_device(2), 17);
    assert_eq!(opendeck_to_device(3), 0);
    assert_eq!(opendeck_to_device(17), 14);
    assert_eq!(opendeck_to_device(18), 18);
    assert_eq!(opendeck_to_device(200), 200);
    for key in 0u8..18 {
        assert_eq!(opendeck_to_device(key) + 1, logical_to_device(key));
    }
}
