use esp32_sensors::text::{
    ipv4_string, mac_string, parse_broker_ip, parse_broker_port, parse_decimal, push_decimal,
    push_signed_decimal, BrokerIpError,
};

#[test]
fn formats_decimals() {
    let mut text = String::new();
    push_decimal(&mut text, 0);
    text.push(' ');
    push_decimal(&mut text, 1_234_567);
    text.push(' ');
    push_decimal(&mut text, u64::MAX);
    assert_eq!(text, "0 1234567 18446744073709551615");
}

#[test]
fn formats_signed_decimals() {
    let mut text = String::new();
    push_signed_decimal(&mut text, -61);
    text.push(' ');
    push_signed_decimal(&mut text, 0);
    text.push(' ');
    push_signed_decimal(&mut text, i32::MIN);
    text.push(' ');
    push_signed_decimal(&mut text, i32::MAX);
    assert_eq!(text, "-61 0 -2147483648 2147483647");
}

#[test]
fn formats_mac_addresses() {
    assert_eq!(mac_string([0xA4, 0xCF, 0x12, 0x0B, 0x3E, 0xF0]), "A4:CF:12:0B:3E:F0");
    assert_eq!(mac_string([0, 0, 0, 0, 0, 0]), "00:00:00:00:00:00");
}

#[test]
fn formats_ipv4_addresses() {
    assert_eq!(ipv4_string([192, 168, 1, 42]), "192.168.1.42");
    assert_eq!(ipv4_string([0, 0, 0, 0]), "0.0.0.0");
    assert_eq!(ipv4_string([255, 255, 255, 255]), "255.255.255.255");
}

#[test]
fn parses_broker_ips() {
    assert_eq!(parse_broker_ip("192.168.1.10"), Ok([192, 168, 1, 10]));
    assert_eq!(parse_broker_ip("+1.002.3.4"), Ok([1, 2, 3, 4]));
    assert_eq!(parse_broker_ip("1.2.3"), Err(BrokerIpError::NotFourOctets));
    assert_eq!(parse_broker_ip(""), Err(BrokerIpError::InvalidOctet));
    assert_eq!(parse_broker_ip("1.2.3.4.5"), Err(BrokerIpError::TooManyParts));
    assert_eq!(parse_broker_ip("1.2.3.4."), Err(BrokerIpError::TooManyParts));
    assert_eq!(parse_broker_ip("1.2.3.4.x"), Err(BrokerIpError::TooManyParts));
    assert_eq!(parse_broker_ip("1.256.3.4.5"), Err(BrokerIpError::InvalidOctet));
    assert_eq!(parse_broker_ip("1..3.4"), Err(BrokerIpError::InvalidOctet));
    assert_eq!(parse_broker_ip("1.2.3.-4"), Err(BrokerIpError::InvalidOctet));
    assert_eq!(parse_broker_ip("1.2.3. 4"), Err(BrokerIpError::InvalidOctet));
}

#[test]
fn parses_broker_ports() {
    assert_eq!(parse_broker_port("1883"), Some(1883));
    assert_eq!(parse_broker_port("+8883"), Some(8883));
    assert_eq!(parse_broker_port("65535"), Some(65535));
    assert_eq!(parse_broker_port("0065535"), Some(65535));
    assert_eq!(parse_broker_port("65536"), None);
    assert_eq!(parse_broker_port("99999999999999999999"), None);
    assert_eq!(parse_broker_port(""), None);
    assert_eq!(parse_broker_port("+"), None);
    assert_eq!(parse_broker_port("18 83"), None);
    assert_eq!(parse_broker_port("-1"), None);
}

#[test]
fn parse_agrees_with_str_parse() {
    for text in ["0", "7", "+7", "255", "256", "", "+", "++1", "-0", "1a", "00000000000000000001"] {
        let ours = parse_decimal(text.as_bytes(), 0, text.len(), 255).map(|v| v as u8);
        assert_eq!(ours, text.parse::<u8>().ok(), "{text}");
    }
}
