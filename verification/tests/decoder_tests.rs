use daydream_input::decoder::parse_raw_controller_data;

fn packet(b16: u8, b17: u8, b18: u8) -> Vec<u8> {
    let mut data = vec![0u8; 20];
    data[16] = b16;
    data[17] = b17;
    data[18] = b18;
    data
}

#[test]
fn decodes_fields_by_bit_layout() {
    // b16 = 0b10110010, b17 = 0b01101011, b18 = 0b10111101
    let snap = parse_raw_controller_data(packet(0b10110010, 0b01101011, 0b10111101)).unwrap();
    // x = (0b10110010 << 3) | ((0b01101011 >> 5) & 0b11111) = 0b10010000 | 0b011
    assert_eq!(snap.touchpad_x, 147);
    // y = (0b01101011 << 3) | ((0b10111101 >> 5) & 0b111) = 0b01011000 | 0b101
    assert_eq!(snap.touchpad_y, 93);
    assert!(snap.app); // bit 2 of b18
    assert!(!snap.home); // bit 1 of b18
    assert!(snap.vol_up); // bit 4 of b18
    assert!(snap.vol_down); // bit 3 of b18
    assert!(snap.touch_click); // bit 0 of b18
    assert!(snap.touch_down); // b17 != 0
}

#[test]
fn decodes_all_zero_packet_to_all_clear() {
    let snap = parse_raw_controller_data(vec![0u8; 20]).unwrap();
    assert_eq!(snap.touchpad_x, 0);
    assert_eq!(snap.touchpad_y, 0);
    assert!(!snap.app);
    assert!(!snap.home);
    assert!(!snap.vol_up);
    assert!(!snap.vol_down);
    assert!(!snap.touch_click);
    assert!(!snap.touch_down);
}

#[test]
fn byte18_five_sets_app_and_touch_click_only() {
    let snap = parse_raw_controller_data(packet(0, 0, 0b00000101)).unwrap();
    assert!(snap.app);
    assert!(snap.touch_click);
    assert!(!snap.home);
    assert!(!snap.vol_up);
    assert!(!snap.vol_down);
    assert!(!snap.touch_down);
}

#[test]
fn decoding_twice_yields_identical_snapshots() {
    let data = packet(0x55, 0xaa, 0xff);
    let first = parse_raw_controller_data(data.clone()).unwrap();
    let second = parse_raw_controller_data(data).unwrap();
    assert_eq!(first, second);
}

#[test]
fn rejects_buffers_of_wrong_length() {
    assert!(parse_raw_controller_data(vec![0u8; 19]).is_none());
    assert!(parse_raw_controller_data(vec![0u8; 21]).is_none());
    assert!(parse_raw_controller_data(Vec::new()).is_none());
    assert!(parse_raw_controller_data(vec![0xffu8; 20]).is_some());
}

#[test]
fn touch_down_is_nonzero_byte17_heuristic() {
    let down = parse_raw_controller_data(packet(0, 0b00000001, 0)).unwrap();
    assert!(down.touch_down);
    let up = parse_raw_controller_data(packet(0xff, 0, 0xe0)).unwrap();
    assert!(!up.touch_down);
}
