use spawner::net::{Ipv4Address, SocketAddress};

fn address(a: u8, b: u8, c: u8, d: u8) -> Ipv4Address {
    Ipv4Address { a, b, c, d }
}

#[test]
fn addresses_are_written_in_dotted_decimal() {
    assert_eq!(address(0, 0, 0, 0).to_text(), "0.0.0.0");
    assert_eq!(address(127, 10, 9, 255).to_text(), "127.10.9.255");
    let socket = SocketAddress {
        ip: address(10, 0, 0, 1),
        port: 65535,
    };
    assert_eq!(socket.to_text(), "10.0.0.1:65535");
}

#[test]
fn written_addresses_are_read_back() {
    for n in 0..=255u8 {
        for x in [
            address(n, 0, 100, 255),
            address(1, n, 10, 99),
            address(9, 9, n, 0),
            address(200, 20, 2, n),
        ] {
            assert_eq!(Ipv4Address::parse(&x.to_text()), Some(x));
        }
    }
}

#[test]
fn other_texts_are_no_addresses() {
    for text in [
        "", ".", "...", "1", "1.2.3", "1.2.3.", ".1.2.3", "1..2.3", "1.2.3.4.", "1.2.3.4.5",
        "256.0.0.1", "0.0.0.256", "999.0.0.1", "1000.0.0.1", "01.2.3.4", "1.2.3.04", "00.0.0.0",
        "1.2.3.4 ", " 1.2.3.4", "+1.2.3.4", "-1.2.3.4", "a.b.c.d", "1.2.3.4:80", "0x1.2.3.4",
        "1,2,3,4", "\u{0661}.2.3.4", "::1",
    ] {
        assert_eq!(Ipv4Address::parse(text), None, "{:?}", text);
    }
}
