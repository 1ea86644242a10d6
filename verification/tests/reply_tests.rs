use ping_rs::codec::{make_data, Proto};
use ping_rs::reply::{
    get_reply_header, parse_echo_reply_v4, parse_reply, IcmpV4ReplyHeader, ICMP_REPLY_HEADER_SIZE,
};
use ping_rs::{ip_status, IpAddress, PingError};

/// A v4 raw reply: 20 outer IPv4 header bytes, then the echo header.
fn crafted_v4_reply(reply_type: u8, reply_code: u8) -> Vec<u8> {
    let mut buffer = vec![0u8; ICMP_REPLY_HEADER_SIZE];
    buffer[0] = 0x45; // version 4, header-size nibble 5
    buffer[9] = 1; // protocol: ICMP
    buffer.extend_from_slice(&[reply_type, reply_code, 0, 0, 0, 7, 0, 3]);
    buffer
}

#[test]
fn v4_reply_header_fields() {
    let buffer = crafted_v4_reply(0, 0);
    let header = IcmpV4ReplyHeader::read_from(&buffer);
    assert_eq!(header.version(), 4);
    assert_eq!(header.header_size(), 5);
    assert_eq!(header.protocol, 1);
    assert_eq!(header.reply.ident(), 7);
    assert_eq!(header.reply.seq(), 3);
}

#[test]
fn valid_v4_reply_is_accepted() {
    let buffer = crafted_v4_reply(0, 0);
    let header = get_reply_header(Proto::V4, &buffer).unwrap();
    assert_eq!(header.msg_type, 0);
    assert_eq!(header.code, 0);

    let r = parse_reply(Proto::V4, &buffer, IpAddress::V4(0x01010101), 12);
    let reply = r.unwrap();
    assert_eq!(reply.address, IpAddress::V4(0x01010101));
    assert_eq!(reply.rtt, 12);
}

#[test]
fn mismatched_reply_type_is_a_bad_header() {
    // An echo *request* type in a reply does not match the expected reply
    // type for the family.
    let buffer = crafted_v4_reply(8, 0);
    let r = parse_reply(Proto::V4, &buffer, IpAddress::V4(1), 1);
    assert!(matches!(r, Err(PingError::IpError(c)) if c == ip_status::BadHeader));

    let buffer = crafted_v4_reply(0, 1);
    let r = parse_reply(Proto::V4, &buffer, IpAddress::V4(1), 1);
    assert!(matches!(r, Err(PingError::IpError(c)) if c == ip_status::BadHeader));
}

#[test]
fn wrong_outer_header_is_rejected() {
    // Wrong IP version nibble.
    let mut buffer = crafted_v4_reply(0, 0);
    buffer[0] = 0x55;
    assert!(matches!(
        get_reply_header(Proto::V4, &buffer),
        Err(PingError::IpError(c)) if c == ip_status::BadHeader
    ));

    // Wrong protocol number.
    let mut buffer = crafted_v4_reply(0, 0);
    buffer[9] = 6;
    assert!(matches!(
        get_reply_header(Proto::V4, &buffer),
        Err(PingError::IpError(c)) if c == ip_status::BadHeader
    ));

    // Too short to hold both headers.
    let buffer = vec![0x45u8; 27];
    assert!(matches!(
        get_reply_header(Proto::V4, &buffer),
        Err(PingError::IpError(c)) if c == ip_status::BadHeader
    ));
}

#[test]
fn v6_reply_is_the_echo_header_itself() {
    let buffer = [129u8, 0, 0, 0, 0, 9, 0, 2];
    let header = get_reply_header(Proto::V6, &buffer).unwrap();
    assert_eq!(header.msg_type, 129);
    assert_eq!(header.ident(), 9);
    assert_eq!(header.seq(), 2);

    let r = parse_reply(Proto::V6, &buffer, IpAddress::V6(0x2001), 4);
    assert_eq!(r.unwrap().rtt, 4);

    // A v6 reply carrying the v4 reply type is a header mismatch.
    let buffer = [0u8, 0, 0, 0, 0, 9, 0, 2];
    let r = parse_reply(Proto::V6, &buffer, IpAddress::V6(0x2001), 4);
    assert!(matches!(r, Err(PingError::IpError(c)) if c == ip_status::BadHeader));

    // Too short for the echo header.
    let r = get_reply_header(Proto::V6, &[129, 0, 0]);
    assert!(matches!(r, Err(PingError::IpError(c)) if c == ip_status::BadHeader));
}

#[test]
fn own_replies_decode_as_replies() {
    // An encoded reply-shaped packet decodes through the v6 path, whose
    // payload is the echo header itself.
    let packet = make_data(Proto::V6, &[]).unwrap();
    let header = get_reply_header(Proto::V6, &packet).unwrap();
    assert_eq!(header.msg_type, 128);
}

#[test]
fn native_v4_reply_fixed_layout() {
    // Address in network order, status and round-trip time little-endian.
    let buffer = [8, 8, 4, 4, 0x0A, 0x2B, 0, 0, 200, 1, 0, 0];
    let raw = parse_echo_reply_v4(&buffer);
    assert_eq!(raw.address, IpAddress::V4(0x08080404));
    assert_eq!(raw.status, 0x2B0A);
    assert_eq!(raw.rtt, 456);
}
