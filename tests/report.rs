use opendeck_ajazz_n1::report::{mode_packet, parse_report, SOFTWARE_MODE};

fn frame(code: u8, state: u8) -> Vec<u8> {
    let mut f = vec![0u8; 512];
    f[0] = 65;
    f[1] = 67;
    f[2] = 75;
    f[9] = code;
    f[10] = state;
    f
}

#[test]
fn valid_frame_yields_code_and_state() {
    assert_eq!(parse_report(&frame(35, 1), 512), Some((35, 1)));
    assert_eq!(parse_report(&frame(7, 0), 11), Some((7, 0)));
}

#[test]
fn short_frame_is_ignored() {
    assert_eq!(parse_report(&frame(35, 1), 10), None);
    assert_eq!(parse_report(&[], 0), None);
    assert_eq!(parse_report(&[65, 67], 2), None);
}

#[test]
fn length_past_the_buffer_is_ignored() {
    assert_eq!(parse_report(&[65, 67, 75, 0, 0], 11), None);
    assert_eq!(parse_report(&[], 512), None);
}

#[test]
fn frame_without_marker_is_ignored() {
    let mut f = frame(5, 1);
    f[1] = 0;
    assert_eq!(parse_report(&f, 512), None);
    let mut g = frame(5, 1);
    g[0] = 66;
    assert_eq!(parse_report(&g, 512), None);
}

#[test]
fn software_mode_packet() {
    assert_eq!(
        mode_packet(SOFTWARE_MODE),
        vec![0x00, 0x43, 0x52, 0x54, 0x00, 0x00, 0x4D, 0x4F, 0x44, 0x00, 0x00, b'3']
    );
    assert_eq!(mode_packet(0)[11], b'0');
    assert_eq!(mode_packet(9)[11], b'9');
}
