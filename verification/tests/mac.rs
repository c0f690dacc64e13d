use deepflow_agent::net::{Error, MacAddr, MAC_ADDR_LEN};
use std::str::FromStr;

#[test]
fn mac_addr_len_is_six() {
    assert_eq!(MAC_ADDR_LEN, 6);
}

#[test]
fn zero_and_default_are_all_zero_octets() {
    assert_eq!(MacAddr::zero().octets(), &[0u8; 6]);
    assert_eq!(MacAddr::default(), MacAddr::zero());
}

#[test]
fn from_array_keeps_the_octets() {
    let mac = MacAddr::from([0x00, 0x1b, 0x21, 0x3c, 0x9d, 0xf8]);
    assert_eq!(mac.octets(), &[0x00, 0x1b, 0x21, 0x3c, 0x9d, 0xf8]);
}

#[test]
fn to_lower_32b_reads_the_last_four_octets() {
    let mac = MacAddr::from([0x01, 0x02, 0x03, 0x04, 0x05, 0x06]);
    assert_eq!(mac.to_lower_32b(), 0x0304_0506);
    assert_eq!(MacAddr::from([0xff; 6]).to_lower_32b(), u32::MAX);
}

#[test]
fn get_suffix_reads_the_last_two_octets() {
    let mac = MacAddr::from([0x01, 0x02, 0x03, 0x04, 0x05, 0x06]);
    assert_eq!(mac.get_suffix(), 0x0506);
    assert_eq!(MacAddr::from([0, 0, 0, 0, 0xff, 0x00]).get_suffix(), 0xff00);
}

#[test]
fn u64_from_mac_is_the_big_endian_number() {
    let mac = MacAddr::from([0x01, 0x02, 0x03, 0x04, 0x05, 0x06]);
    assert_eq!(u64::from(mac), 0x0102_0304_0506);
    assert_eq!(mac.to_u64(), 0x0102_0304_0506);
    assert_eq!(u64::from(MacAddr::from([0xff; 6])), 0xffff_ffff_ffff);
    assert_eq!(u64::from(MacAddr::zero()), 0);
}

#[test]
fn try_from_u64_accepts_48_bits_and_no_more() {
    let mac = MacAddr::try_from(0x0102_0304_0506u64).unwrap();
    assert_eq!(mac.octets(), &[0x01, 0x02, 0x03, 0x04, 0x05, 0x06]);
    assert_eq!(
        MacAddr::try_from(0xffff_ffff_ffffu64).unwrap(),
        MacAddr::from([0xff; 6])
    );
    assert_eq!(MacAddr::try_from(0x1_0000_0000_0000u64), Err(0x1_0000_0000_0000));
    assert_eq!(MacAddr::try_from(u64::MAX), Err(u64::MAX));
}

#[test]
fn try_from_u64_and_u64_from_are_inverse() {
    for value in [0u64, 1, 0xff, 0x0100_0000_0000, 0xdead_beef_cafe, 0xffff_ffff_ffff] {
        assert_eq!(u64::from(MacAddr::try_from(value).unwrap()), value);
    }
}

#[test]
fn try_from_slice_wants_six_octets() {
    let six: &[u8] = &[1, 2, 3, 4, 5, 6];
    assert_eq!(MacAddr::try_from(six).unwrap().octets(), &[1, 2, 3, 4, 5, 6]);
    let five: &[u8] = &[1, 2, 3, 4, 5];
    assert!(MacAddr::try_from(five).is_err());
    let seven: &[u8] = &[1, 2, 3, 4, 5, 6, 7];
    assert!(MacAddr::try_from(seven).is_err());
    let none: &[u8] = &[];
    assert!(MacAddr::try_from(none).is_err());
}

#[test]
fn is_multicast_looks_at_the_lowest_bit_of_the_first_octet() {
    assert!(MacAddr::is_multicast(&[0x01, 0, 0x5e, 0, 0, 1, 0]));
    assert!(MacAddr::is_multicast(&[0xff, 0xff, 0xff, 0xff, 0xff, 0xff, 0xff]));
    assert!(!MacAddr::is_multicast(&[0x02, 0, 0, 0, 0, 1, 0]));
    assert!(!MacAddr::is_multicast(&[0x00, 0xff, 0xff, 0xff, 0xff, 0xff, 0xff, 0xff]));
}

#[test]
fn is_unicast_excludes_broadcast_and_group_addresses() {
    assert!(MacAddr::is_unicast(MacAddr::from([0x00, 0x1b, 0x21, 0x3c, 0x9d, 0xf8])));
    assert!(MacAddr::is_unicast(MacAddr::zero()));
    assert!(MacAddr::is_unicast(MacAddr::from([0xfe, 0xff, 0xff, 0xff, 0xff, 0xff])));
    assert!(!MacAddr::is_unicast(MacAddr::from([0xff; 6])));
    assert!(!MacAddr::is_unicast(MacAddr::from([0x01, 0x00, 0x5e, 0x00, 0x00, 0x01])));
    assert!(!MacAddr::is_unicast(MacAddr::from([0x33, 0x33, 0, 0, 0, 1])));
}

#[test]
fn to_string_writes_lower_case_hex_pairs() {
    let mac = MacAddr::from([0x00, 0x1b, 0x21, 0x3c, 0x9d, 0xf8]);
    assert_eq!(mac.to_string(), "00:1b:21:3c:9d:f8");
    assert_eq!(MacAddr::zero().to_string(), "00:00:00:00:00:00");
    assert_eq!(MacAddr::from([0xff; 6]).to_string(), "ff:ff:ff:ff:ff:ff");
    assert_eq!(
        MacAddr::from([0x0a, 0xa0, 0x09, 0x90, 0xaf, 0xfa]).to_string(),
        "0a:a0:09:90:af:fa"
    );
}

#[test]
fn from_str_reads_six_hex_octets() {
    let mac = MacAddr::from_str("00:1b:21:3c:9d:f8").unwrap();
    assert_eq!(mac.octets(), &[0x00, 0x1b, 0x21, 0x3c, 0x9d, 0xf8]);
    let upper: MacAddr = "AA:BB:CC:DD:EE:FF".parse().unwrap();
    assert_eq!(upper.octets(), &[0xaa, 0xbb, 0xcc, 0xdd, 0xee, 0xff]);
    assert_eq!(MacAddr::parse("1:2:3:4:5:6").unwrap().octets(), &[1, 2, 3, 4, 5, 6]);
}

#[test]
fn from_str_pads_a_short_text_with_zeros() {
    assert_eq!(MacAddr::from_str("aa:bb").unwrap().octets(), &[0xaa, 0xbb, 0, 0, 0, 0]);
    assert_eq!(MacAddr::from_str("7").unwrap().octets(), &[7, 0, 0, 0, 0, 0]);
}

#[test]
fn from_str_takes_a_plus_sign_and_leading_zeros() {
    assert_eq!(MacAddr::from_str("+f:0000a").unwrap().octets(), &[0x0f, 0x0a, 0, 0, 0, 0]);
    assert_eq!(MacAddr::from_str("000000ff").unwrap().octets(), &[0xff, 0, 0, 0, 0, 0]);
}

#[test]
fn from_str_refuses_what_is_not_an_address() {
    for text in [
        "",
        ":",
        "aa:",
        ":aa",
        "aa::bb",
        "00:1b:21:3c:9d:f8:00",
        "00:1b:21:3c:9d:f8:",
        "100",
        "1ff:00",
        "gg",
        "0x1f",
        "-1",
        "+",
        "++1",
        "1+",
        " 1",
        "00-1b-21-3c-9d-f8",
        "é",
        "00:1b:21:3c:9d:zz",
    ] {
        assert_eq!(
            MacAddr::from_str(text),
            Err(Error::ParseMacFailed(text.to_string())),
            "{:?}",
            text
        );
    }
}

#[test]
fn from_str_agrees_with_the_standard_radix_parser() {
    for text in ["0", "f", "F", "ff", "0ff", "100", "+a", "+", "-a", "", "a b", "00000000000000001"] {
        let expected = u8::from_str_radix(text, 16).ok();
        let got = MacAddr::from_str(text).ok().map(|m| m.octets()[0]);
        assert_eq!(got, expected, "{:?}", text);
    }
}

#[test]
fn text_written_is_read_back() {
    for octets in [[0u8; 6], [0xff; 6], [0x00, 0x1b, 0x21, 0x3c, 0x9d, 0xf8], [1, 2, 3, 4, 5, 6]] {
        let mac = MacAddr::from(octets);
        assert_eq!(MacAddr::from_str(&mac.to_string()), Ok(mac));
    }
}

#[test]
fn addresses_are_ordered_by_their_octets() {
    assert!(MacAddr::from([0, 0, 0, 0, 0, 1]) < MacAddr::from([0, 0, 0, 0, 1, 0]));
    assert!(MacAddr::from([1, 0, 0, 0, 0, 0]) > MacAddr::from([0, 0xff, 0xff, 0xff, 0xff, 0xff]));
}
