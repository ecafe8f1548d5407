use bootstrap::address::{bind_address, format_u16};

#[test]
fn format_u16_renders_decimal() {
    assert_eq!(format_u16(0), "0");
    assert_eq!(format_u16(7), "7");
    assert_eq!(format_u16(10), "10");
    assert_eq!(format_u16(100), "100");
    assert_eq!(format_u16(8000), "8000");
    assert_eq!(format_u16(65535), "65535");
}

#[test]
fn bind_address_joins_host_and_port() {
    assert_eq!(bind_address("127.0.0.1", 0), "127.0.0.1:0");
    assert_eq!(bind_address("localhost", 8000), "localhost:8000");
    assert_eq!(bind_address("0.0.0.0", 65535), "0.0.0.0:65535");
    assert_eq!(bind_address("", 1), ":1");
}
