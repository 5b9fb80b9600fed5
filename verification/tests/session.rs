use winquery::error::Error;
use winquery::session::{
    decode_client_address, IpAddress, Session, AF_INET, AF_INET6, AF_IPX, AF_NETBIOS, AF_UNSPEC,
    CLIENT_ADDRESS_BYTES,
};

fn address_buffer(payload: &[u8]) -> Vec<u8> {
    let mut buf = vec![0u8; CLIENT_ADDRESS_BYTES];
    buf[2..2 + payload.len()].copy_from_slice(payload);
    buf
}

#[test]
fn ipv4_decodes_the_four_bytes_at_the_fixed_offset() {
    let buf = address_buffer(&[192, 168, 1, 1]);
    let r = decode_client_address(AF_INET, &buf);
    assert_eq!(r, Ok(Some(IpAddress::V4(192, 168, 1, 1))));
}

#[test]
fn ipv6_round_trips_the_sixteen_byte_payload() {
    let payload: Vec<u8> = (1..=16).collect();
    let buf = address_buffer(&payload);
    match decode_client_address(AF_INET6, &buf) {
        Ok(Some(IpAddress::V6(bytes))) => assert_eq!(bytes, payload),
        other => panic!("expected an IPv6 address, got {:?}", other),
    }
}

#[test]
fn legacy_families_yield_no_address_without_error() {
    let buf = address_buffer(&[10, 0, 0, 1]);
    for family in [AF_IPX, AF_NETBIOS, AF_UNSPEC] {
        assert_eq!(decode_client_address(family, &buf), Ok(None));
    }
}

#[test]
fn unknown_family_is_an_explicit_error() {
    let buf = address_buffer(&[10, 0, 0, 1]);
    assert_eq!(decode_client_address(99, &buf), Err(Error::UnknownAddressFamily(99)));
    // The same family always takes the same path, through every entry point.
    let session = Session::new(1);
    assert_eq!(session.address(1, 0, 99, &buf), Err(Error::UnknownAddressFamily(99)));
    assert_eq!(decode_client_address(99, &buf), Err(Error::UnknownAddressFamily(99)));
}

#[test]
fn failed_address_query_wraps_the_native_call_name() {
    let buf = address_buffer(&[192, 168, 1, 1]);
    let session = Session::new(3);
    let r = session.address(0, 87, AF_INET, &buf);
    assert_eq!(r, Err(Error::SysCall { call: "WTSQuerySessionInformationW", code: 87 }));
}

#[test]
fn successful_address_query_decodes_the_buffer() {
    let buf = address_buffer(&[192, 168, 1, 1]);
    let session = Session::new(3);
    let r = session.address(1, 0, AF_INET, &buf);
    assert_eq!(r, Ok(Some(IpAddress::V4(192, 168, 1, 1))));
}

#[test]
fn session_keeps_its_identifier() {
    assert_eq!(Session::new(7).session_id, 7);
}

#[test]
fn info_hands_the_payload_back_on_success() {
    let session = Session::new(2);
    let payload = vec![1u8, 2, 3, 4];
    assert_eq!(session.info(1, 0, payload.clone()), Ok(payload));
}

#[test]
fn failed_info_query_wraps_the_native_call_name() {
    let session = Session::new(2);
    let r = session.info(0, 6, vec![]);
    assert_eq!(r, Err(Error::SysCall { call: "WTSQuerySessionInformationW", code: 6 }));
}

#[test]
fn wide_buffer_without_null_decodes_as_empty() {
    let chars: Vec<u16> = "garbage".encode_utf16().collect();
    assert_eq!(Session::from_wide(&chars), "");
}

#[test]
fn wide_buffer_truncates_at_the_first_null() {
    let chars: Vec<u16> = "abc\0garbage".encode_utf16().collect();
    assert_eq!(Session::from_wide(&chars), "abc");
}

#[test]
fn unpaired_surrogate_decodes_with_substitution() {
    let chars: Vec<u16> = vec![0xD800, 0x0062, 0x0000];
    assert_eq!(Session::from_wide(&chars), "\u{FFFD}b");
}

#[test]
fn empty_wide_buffer_decodes_as_empty() {
    let chars: Vec<u16> = vec![];
    assert_eq!(Session::from_wide(&chars), "");
}

#[test]
fn wide_buffer_with_leading_null_decodes_as_empty() {
    let chars: Vec<u16> = vec![0, 0x61, 0x62];
    assert_eq!(Session::from_wide(&chars), "");
}
