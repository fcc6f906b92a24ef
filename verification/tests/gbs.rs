use gbsdiff::gbs::{AddressKind, FormatError, Gbs};

fn header(load: u16, init: u16, play: u16, sp: u16, timer_mod: u8, timer_ctrl: u8) -> Vec<u8> {
    let mut data = vec![0u8; 0x70];
    data[0] = b'G';
    data[1] = b'B';
    data[2] = b'S';
    data[3] = 1;
    data[4] = 3;
    data[5] = 1;
    data[6..8].copy_from_slice(&load.to_le_bytes());
    data[8..10].copy_from_slice(&init.to_le_bytes());
    data[10..12].copy_from_slice(&play.to_le_bytes());
    data[12..14].copy_from_slice(&sp.to_le_bytes());
    data[14] = timer_mod;
    data[15] = timer_ctrl;
    data
}

#[test]
fn parses_a_valid_header() {
    let mut data = header(0x0400, 0x0410, 0x0420, 0xFFFE, 0xC0, 0x86);
    data.extend_from_slice(&[0xC9, 0x00, 0x01]);
    let gbs = Gbs::new(&data).unwrap();
    assert_eq!(gbs.nb_songs(), 3);
    assert_eq!(gbs.first_song(), 1);
    assert_eq!(gbs.addr(AddressKind::Load), 0x0400);
    assert_eq!(gbs.addr(AddressKind::Init), 0x0410);
    assert_eq!(gbs.addr(AddressKind::Play), 0x0420);
    assert_eq!(gbs.stack_ptr(), 0xFFFE);
    assert_eq!(gbs.timer_mod(), 0xC0);
    assert_eq!(gbs.timer_ctrl(), 0x86);
    assert!(gbs.use_timer());
    assert!(gbs.double_speed());
    assert_eq!(gbs.timer_div_bit(), 5);
    assert_eq!(gbs.rom(), &[0xC9, 0x00, 0x01]);
    assert_eq!(gbs.read16(12), 0xFFFE);
    assert_eq!(gbs.as_bytes(), &data[..]);
}

#[test]
fn divider_bits_follow_the_two_low_bits() {
    for (ctrl, bit) in [(0u8, 9u8), (1, 3), (2, 5), (3, 7), (0xFC, 9), (0x05, 3)] {
        let data = header(0x0400, 0x0400, 0x0400, 0xFFFE, 0, ctrl);
        assert_eq!(Gbs::new(&data).unwrap().timer_div_bit(), bit);
    }
}

#[test]
fn timer_flags_are_bits_two_and_seven() {
    let data = header(0x0400, 0x0400, 0x0400, 0xFFFE, 0, 0x04);
    let gbs = Gbs::new(&data).unwrap();
    assert!(gbs.use_timer());
    assert!(!gbs.double_speed());
    let data = header(0x0400, 0x0400, 0x0400, 0xFFFE, 0, 0x80);
    let gbs = Gbs::new(&data).unwrap();
    assert!(!gbs.use_timer());
    assert!(gbs.double_speed());
}

#[test]
fn refuses_a_truncated_header() {
    let data = header(0x0400, 0x0400, 0x0400, 0xFFFE, 0, 0);
    assert!(matches!(Gbs::new(&data[..0x6F]), Err(FormatError::TruncatedHeader(0x6F))));
    assert!(matches!(Gbs::new(&[]), Err(FormatError::TruncatedHeader(0))));
}

#[test]
fn refuses_a_bad_magic() {
    let mut data = header(0x0400, 0x0400, 0x0400, 0xFFFE, 0, 0);
    data[2] = b'X';
    match Gbs::new(&data) {
        Err(FormatError::BadMagic(found)) => assert_eq!(found, b"GBX"),
        other => panic!("unexpected: {:?}", other),
    }
}

#[test]
fn refuses_another_version() {
    let mut data = header(0x0400, 0x0400, 0x0400, 0xFFFE, 0, 0);
    data[3] = 2;
    assert!(matches!(Gbs::new(&data), Err(FormatError::UnsupportedVersion(2))));
}

#[test]
fn refuses_zero_songs() {
    let mut data = header(0x0400, 0x0400, 0x0400, 0xFFFE, 0, 0);
    data[4] = 0;
    assert!(matches!(Gbs::new(&data), Err(FormatError::ZeroSongs)));
}

#[test]
fn refuses_bad_addresses() {
    let data = header(0x03FF, 0x0400, 0x0400, 0xFFFE, 0, 0);
    assert!(matches!(
        Gbs::new(&data),
        Err(FormatError::BadAddress(AddressKind::Load, 0x03FF))
    ));
    let data = header(0x4001, 0x4001, 0x4001, 0xFFFE, 0, 0);
    assert!(matches!(
        Gbs::new(&data),
        Err(FormatError::BadAddress(AddressKind::Load, 0x4001))
    ));
    let data = header(0x0500, 0x04FF, 0x0500, 0xFFFE, 0, 0);
    assert!(matches!(
        Gbs::new(&data),
        Err(FormatError::BadAddress(AddressKind::Init, 0x04FF))
    ));
    let data = header(0x0500, 0x8000, 0x0500, 0xFFFE, 0, 0);
    assert!(matches!(
        Gbs::new(&data),
        Err(FormatError::BadAddress(AddressKind::Init, 0x8000))
    ));
    let data = header(0x0500, 0x0500, 0x0400, 0xFFFE, 0, 0);
    assert!(matches!(
        Gbs::new(&data),
        Err(FormatError::BadAddress(AddressKind::Play, 0x0400))
    ));
    let data = header(0x0500, 0x7FFF, 0x8000, 0xFFFE, 0, 0);
    assert!(matches!(
        Gbs::new(&data),
        Err(FormatError::BadAddress(AddressKind::Play, 0x8000))
    ));
}

#[test]
fn accepts_the_bounds_of_each_address() {
    let data = header(0x4000, 0x7FFF, 0x4000, 0xFFFE, 0, 0);
    let gbs = Gbs::new(&data).unwrap();
    assert_eq!(gbs.addr(AddressKind::Load), 0x4000);
    assert_eq!(gbs.addr(AddressKind::Init), 0x7FFF);
    assert_eq!(gbs.addr(AddressKind::Play), 0x4000);
}

#[test]
fn checks_come_in_order() {
    // A bad magic is reported before a bad version, and so on.
    let mut data = header(0x0000, 0x0000, 0x0000, 0xFFFE, 0, 0);
    data[0] = 0;
    data[3] = 9;
    data[4] = 0;
    assert!(matches!(Gbs::new(&data), Err(FormatError::BadMagic(_))));
    data[0] = b'G';
    assert!(matches!(Gbs::new(&data), Err(FormatError::UnsupportedVersion(9))));
    data[3] = 1;
    assert!(matches!(Gbs::new(&data), Err(FormatError::ZeroSongs)));
    data[4] = 1;
    assert!(matches!(
        Gbs::new(&data),
        Err(FormatError::BadAddress(AddressKind::Load, 0))
    ));
}

#[test]
fn address_offsets() {
    assert_eq!(AddressKind::Load.ofs(), 6);
    assert_eq!(AddressKind::Init.ofs(), 8);
    assert_eq!(AddressKind::Play.ofs(), 10);
}
