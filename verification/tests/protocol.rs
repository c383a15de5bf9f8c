use ak500s_mac::protocol::{digits, init_packet, packet, MODE_LOADING, MODE_TEMP_C, MODE_TEMP_F, MODE_USAGE, PID, REPORT_ID, REPORT_LEN, VID};

#[test]
fn standard_packet_layout() {
    let p = packet(MODE_TEMP_C, 5, 47, false, false);
    assert_eq!(p[0], 16);
    assert_eq!(p[1], 19);
    assert_eq!(p[2], 5);
    assert_eq!(&p[3..6], &[0, 4, 7]);
    assert_eq!(p[6], 0);
    assert!(p[7..].iter().all(|&b| b == 0));
}

#[test]
fn se_packet_shifted() {
    let p = packet(MODE_USAGE, 6, 62, true, true);
    assert_eq!(p[0], 76);
    assert_eq!(p[1], 6);
    assert_eq!(&p[2..5], &[0, 6, 2]);
    assert_eq!(p[5], 1);
}

#[test]
fn three_digit_clamp() {
    let p = packet(MODE_TEMP_C, 10, 1234, false, false);
    assert_eq!(&p[3..6], &[9, 9, 9]);
    let p = packet(MODE_TEMP_C, 10, 234, false, false);
    assert_eq!(&p[3..6], &[2, 3, 4]);
}

#[test]
fn constants_of_the_protocol() {
    assert_eq!(VID, 0x3633);
    assert_eq!(PID, 0x0004);
    assert_eq!(REPORT_LEN, 64);
    assert_eq!(REPORT_ID, 16);
    assert_eq!(MODE_LOADING, 170);
    assert_eq!(MODE_TEMP_F, 35);
}

#[test]
fn digits_split_and_clamp() {
    assert_eq!(digits(0), (0, 0, 0));
    assert_eq!(digits(7), (0, 0, 7));
    assert_eq!(digits(90), (0, 9, 0));
    assert_eq!(digits(999), (9, 9, 9));
    assert_eq!(digits(1000), (9, 9, 9));
    assert_eq!(digits(u16::MAX), (9, 9, 9));
}

#[test]
fn se_layout_is_standard_shifted_left() {
    for &(mode, bar, value, alarm) in &[(MODE_TEMP_C, 3u8, 58u16, true), (MODE_USAGE, 0, 1000, false), (MODE_TEMP_F, 10, 5, true)] {
        let std = packet(mode, bar, value, alarm, false);
        let se = packet(mode, bar, value, alarm, true);
        assert_eq!(std[0], REPORT_ID);
        assert_eq!(&se[..63], &std[1..]);
        assert_eq!(se[63], 0);
    }
}

#[test]
fn report_reads_back_value() {
    let p = packet(MODE_TEMP_F, 2, 451, true, false);
    assert_eq!(100 * p[3] as u16 + 10 * p[4] as u16 + p[5] as u16, 451);
    assert_eq!(p[6], 1);
    let p = packet(MODE_TEMP_F, 2, 5000, false, true);
    assert_eq!(100 * p[2] as u16 + 10 * p[3] as u16 + p[4] as u16, 999);
    assert_eq!(p[5], 0);
}

#[test]
fn init_packet_is_loading_frame() {
    let p = init_packet(false);
    assert_eq!(p, packet(MODE_LOADING, 0, 0, false, false));
    assert_eq!(&p[..7], &[16, 170, 0, 0, 0, 0, 0]);
    let p = init_packet(true);
    assert_eq!(&p[..6], &[170, 0, 0, 0, 0, 0]);
    assert!(p.iter().skip(1).all(|&b| b == 0));
}
