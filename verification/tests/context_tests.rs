use ping_rs::codec::{verify_checksum, IcmpEchoHeader, ICMP_HEADER_SIZE, MAX_RAW_PAYLOAD};
use ping_rs::context::PingContext;
use ping_rs::{resolve_options, validate_timeout, DEFAULT_TTL, DONT_FRAGMENT_FLAG};
use ping_rs::{IpAddress, PingError, PingOptions};

#[test]
fn zero_timeout_is_a_bad_parameter() {
    assert!(matches!(validate_timeout(0), Err(PingError::BadParameter("timeout"))));
    assert_eq!(validate_timeout(1000).unwrap(), 1000);

    // The context refuses it too, before building anything.
    let r = PingContext::new(IpAddress::V4(0x08080808), 0, &[1, 2, 3], 77);
    assert!(matches!(r, Err(PingError::BadParameter("timeout"))));
}

#[test]
fn oversized_payload_never_reaches_a_context() {
    let data = vec![0u8; MAX_RAW_PAYLOAD + 1];
    let r = PingContext::new(IpAddress::V4(1), 1000, &data, 77);
    assert!(matches!(r, Err(PingError::DataSizeTooBig(max)) if max == MAX_RAW_PAYLOAD));
}

#[test]
fn sequence_numbers_count_up_from_one() {
    let mut ctx = PingContext::new(IpAddress::V4(0x08080808), 1000, &[9, 9], 0xBEEF).unwrap();
    assert_eq!(ctx.sequence, 0);

    let mut seen = Vec::new();
    for _ in 0..5 {
        ctx.prepare_ping();
        seen.push(ctx.sequence);
        // The wire buffer carries exactly this sequence number.
        let header = IcmpEchoHeader::read_from(&ctx.payload);
        assert_eq!(header.seq(), ctx.sequence);
        assert_eq!(header.ident(), 0xBEEF);
        assert!(verify_checksum(&ctx.payload));
    }
    assert_eq!(seen, vec![1, 2, 3, 4, 5]);
}

#[test]
fn options_default_and_dont_fragment() {
    assert_eq!(resolve_options(None), (DEFAULT_TTL, 0));
    assert_eq!(resolve_options(None), (128, 0));

    let opts = PingOptions { ttl: 64, dont_fragment: true };
    assert_eq!(resolve_options(Some(&opts)), (64, DONT_FRAGMENT_FLAG));

    let opts = PingOptions { ttl: 1, dont_fragment: false };
    assert_eq!(resolve_options(Some(&opts)), (1, 0));
}

#[test]
fn context_payload_carries_the_user_data() {
    let mut ctx = PingContext::new(IpAddress::V6(0x2001), 500, b"payload", 1).unwrap();
    assert_eq!(&ctx.payload[ICMP_HEADER_SIZE..], b"payload");
    assert_eq!(ctx.payload[0], 128);

    ctx.prepare_ping();
    assert_eq!(&ctx.payload[ICMP_HEADER_SIZE..], b"payload");
}
