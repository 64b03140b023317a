use xchannel::coils::{bool_to_coil, coil_to_bool, pack_coils, unpack_coils};

#[test]
fn single_coil_words() {
    assert_eq!(bool_to_coil(true), 0xFF00);
    assert_eq!(bool_to_coil(false), 0x0000);
    assert!(coil_to_bool(0xFF00));
    assert!(!coil_to_bool(0x0000));
    assert!(coil_to_bool(0x0100));
    assert!(!coil_to_bool(0x00FF));
    assert!(coil_to_bool(0xFFFF));
}

#[test]
fn single_coil_round_trip() {
    assert!(coil_to_bool(bool_to_coil(true)));
    assert!(!coil_to_bool(bool_to_coil(false)));
}

#[test]
fn pack_puts_first_coil_in_lowest_bit() {
    assert_eq!(pack_coils(&[true, false, true]), vec![0b0000_0101]);
    assert_eq!(pack_coils(&[false, false, false, false, false, false, false, true]), vec![0x80]);
    assert_eq!(pack_coils(&[true; 8]), vec![0xFF]);
}

#[test]
fn pack_rounds_the_byte_count_up() {
    assert_eq!(pack_coils(&[]), Vec::<u8>::new());
    assert_eq!(pack_coils(&[true]).len(), 1);
    assert_eq!(pack_coils(&[false; 8]).len(), 1);
    assert_eq!(pack_coils(&[false; 9]).len(), 2);
    assert_eq!(pack_coils(&[false; 16]).len(), 2);
    assert_eq!(pack_coils(&[false; 17]).len(), 3);
}

#[test]
fn pack_spills_into_the_next_byte() {
    let coils = [true, false, true, true, false, false, false, false, true];
    assert_eq!(pack_coils(&coils), vec![0b0000_1101, 0b0000_0001]);
}

#[test]
fn unpack_reads_bits_in_order() {
    assert_eq!(unpack_coils(&[0b0000_0101], 3), vec![true, false, true]);
    assert_eq!(unpack_coils(&[0xFF, 0x00], 0), Vec::<bool>::new());
    assert_eq!(
        unpack_coils(&[0b0000_1101, 0b0000_0001], 9),
        vec![true, false, true, true, false, false, false, false, true]
    );
}

#[test]
fn unpack_leaves_later_bits_alone() {
    assert_eq!(unpack_coils(&[0xFF], 2), vec![true, true]);
    assert_eq!(unpack_coils(&[0xAA, 0xFF], 8), vec![false, true, false, true, false, true, false, true]);
}

#[test]
fn pack_then_unpack_gives_the_coils_back() {
    for len in 0..=70usize {
        let coils: Vec<bool> = (0..len).map(|i| (i * 7 + len) % 3 == 0).collect();
        let packed = pack_coils(&coils);
        assert_eq!(packed.len(), (len + 7) / 8);
        assert_eq!(unpack_coils(&packed, len as u16), coils);
    }
}

#[test]
fn pack_then_unpack_at_the_largest_write() {
    let coils: Vec<bool> = (0..2040usize).map(|i| i % 5 == 1 || i % 11 == 0).collect();
    let packed = pack_coils(&coils);
    assert_eq!(packed.len(), 255);
    assert_eq!(unpack_coils(&packed, 2040), coils);
}
