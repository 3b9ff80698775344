use esparrier::config::{
    get_default_brightness, get_default_jiggle_interval, get_default_pid,
    get_default_polling_rate, get_default_screen_height, get_default_screen_width,
    get_default_vid, get_polling_interval, json_range, parse_addr, parse_cidr, parse_endpoint,
    ConfigStore,
};
use esparrier::running_state::{IpAddress, IpCidr};

#[test]
fn defaults_hold_their_values() {
    assert_eq!(get_default_screen_width(), 1920);
    assert_eq!(get_default_screen_height(), 1080);
    assert_eq!(get_default_polling_rate(), 200);
    assert_eq!(get_default_jiggle_interval(), 60);
    assert_eq!(get_default_brightness(), 30);
    assert_eq!(get_default_vid(), 0x0d0a);
    assert_eq!(get_default_pid(), 0xc0de);
}

#[test]
fn polling_interval_is_clamped() {
    assert_eq!(get_polling_interval(200), 5);
    assert_eq!(get_polling_interval(1000), 1);
    assert_eq!(get_polling_interval(2000), 1);
    assert_eq!(get_polling_interval(1), 255);
    assert_eq!(get_polling_interval(10), 100);
}

#[test]
fn json_range_cuts_at_the_first_non_text_byte() {
    let buf = b"{\"a\":1}\0\0garbage";
    assert_eq!(json_range(buf), b"{\"a\":1}");
    let all = b"{\"a\":1}";
    assert_eq!(json_range(all), all);
    let hi = [b'{', 0xf5, b'}'];
    assert_eq!(json_range(&hi), b"{");
    assert_eq!(json_range(b""), b"");
}

#[test]
fn addresses_parse() {
    assert_eq!(
        parse_addr(b"192.168.100.200"),
        Some(IpAddress { a: 192, b: 168, c: 100, d: 200 })
    );
    assert_eq!(parse_addr(b"0.0.0.0"), Some(IpAddress { a: 0, b: 0, c: 0, d: 0 }));
    assert_eq!(parse_addr(b"256.0.0.1"), None);
    assert_eq!(parse_addr(b"1.2.3"), None);
    assert_eq!(parse_addr(b"1.2.3.4.5"), None);
    assert_eq!(parse_addr(b"1.2.3.x"), None);
    assert_eq!(parse_addr(b""), None);
}

#[test]
fn cidrs_parse() {
    assert_eq!(
        parse_cidr(b"10.0.0.1/24"),
        Some(IpCidr { address: IpAddress { a: 10, b: 0, c: 0, d: 1 }, prefix_len: 24 })
    );
    assert_eq!(parse_cidr(b"10.0.0.1/33"), None);
    assert_eq!(parse_cidr(b"10.0.0.1"), None);
    assert_eq!(parse_cidr(b"10.0.0.1/"), None);
}

#[test]
fn endpoints_parse() {
    assert_eq!(
        parse_endpoint(b"192.168.100.200:24800"),
        Some((IpAddress { a: 192, b: 168, c: 100, d: 200 }, 24800))
    );
    assert_eq!(parse_endpoint(b"1.2.3.4:0"), Some((IpAddress { a: 1, b: 2, c: 3, d: 4 }, 0)));
    assert_eq!(
        parse_endpoint(b"1.2.3.4:65535"),
        Some((IpAddress { a: 1, b: 2, c: 3, d: 4 }, 65535))
    );
    assert_eq!(parse_endpoint(b"1.2.3.4:65536"), None);
    assert_eq!(parse_endpoint(b"1.2.3.4"), None);
    assert_eq!(parse_endpoint(b"1.2.3.4:"), None);
    assert_eq!(parse_endpoint(b"1.2.3.4:80x"), None);
}

#[test]
fn config_store_blocks_round_trip() {
    let mut store = ConfigStore::new();
    assert!(store.is_empty());
    assert_eq!(store.len(), 0);
    store.write_block(0, b"{\"ssid\":\"net\"}");
    assert_eq!(store.len(), 14);
    assert!(!store.is_empty());
    // A later block extends the used size.
    store.write_block(64, b"xyz");
    assert_eq!(store.len(), 67);
    // Reads stop at the used size.
    assert_eq!(store.read_block(0, 14), b"{\"ssid\":\"net\"}");
    assert_eq!(store.read_block(64, 64), b"xyz");
    assert_eq!(store.read_block(67, 8), b"");
    // An overwrite inside the used range does not shrink it.
    store.write_block(0, b"12");
    assert_eq!(store.len(), 67);
    assert_eq!(store.read_block(0, 3), b"12s");
}
