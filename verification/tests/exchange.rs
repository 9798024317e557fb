use hyperliquid_ws::exchange::modify::{Cloid, OidOrCloid};
use hyperliquid_ws::exchange::oid_or_cloid::{deserialize, serialize, WireValue};
use hyperliquid_ws::helpers::uuid_to_hex_string;
use hyperliquid_ws::text::{decimal_string, hex_fixed_string};

fn text_of(w: WireValue) -> String {
    match w {
        WireValue::Text(s) => s,
        WireValue::Number(n) => panic!("expected text, got number {}", n),
    }
}

#[test]
fn decimal_renderings() {
    assert_eq!(decimal_string(0), "0");
    assert_eq!(decimal_string(7), "7");
    assert_eq!(decimal_string(10), "10");
    assert_eq!(decimal_string(1234567890), "1234567890");
    assert_eq!(decimal_string(u64::MAX), "18446744073709551615");
}

#[test]
fn hex_renderings_are_fixed_width() {
    assert_eq!(hex_fixed_string(0xab, 4), "00ab");
    assert_eq!(hex_fixed_string(0x12345, 2), "45");
    assert_eq!(hex_fixed_string(0, 0), "");
}

#[test]
fn cloid_hex_form() {
    let c = Cloid { value: 0xa1a2a3a4b1b2c1c2d1d2d3d4d5d6d7d8 };
    assert_eq!(uuid_to_hex_string(c), "0xa1a2a3a4b1b2c1c2d1d2d3d4d5d6d7d8");
    let zero = Cloid { value: 0 };
    assert_eq!(uuid_to_hex_string(zero), "0x00000000000000000000000000000000");
    let max = Cloid { value: u128::MAX };
    assert_eq!(uuid_to_hex_string(max), "0xffffffffffffffffffffffffffffffff");
}

#[test]
fn oid_serializes_as_number() {
    match serialize(&OidOrCloid::Oid(42)) {
        WireValue::Number(n) => assert_eq!(n, 42),
        WireValue::Text(s) => panic!("expected number, got {}", s),
    }
}

#[test]
fn cloid_serializes_as_prefixed_hex() {
    let v = OidOrCloid::Cloid(Cloid { value: 0x550e8400e29b41d4a716446655440000 });
    assert_eq!(text_of(serialize(&v)), "0x550e8400e29b41d4a716446655440000");
}

#[test]
fn number_deserializes_as_oid() {
    assert_eq!(deserialize(WireValue::Number(17)), Ok(OidOrCloid::Oid(17)));
}

#[test]
fn hex_deserializes_with_or_without_prefix() {
    let want = Ok(OidOrCloid::Cloid(Cloid { value: 0x550e8400e29b41d4a716446655440000 }));
    assert_eq!(
        deserialize(WireValue::Text("0x550e8400e29b41d4a716446655440000".to_string())),
        want
    );
    assert_eq!(
        deserialize(WireValue::Text("550e8400e29b41d4a716446655440000".to_string())),
        want
    );
    assert_eq!(
        deserialize(WireValue::Text("0x550E8400E29B41D4A716446655440000".to_string())),
        want
    );
    assert_eq!(
        deserialize(WireValue::Text("550e8400-e29b-41d4-a716-446655440000".to_string())),
        want
    );
}

#[test]
fn bad_cloid_is_an_error() {
    assert!(deserialize(WireValue::Text("0xnothex".to_string())).is_err());
    assert!(deserialize(WireValue::Text("".to_string())).is_err());
    assert!(deserialize(WireValue::Text("0X550e8400e29b41d4a716446655440000".to_string())).is_err());
}

#[test]
fn wire_round_trip() {
    let values = [
        OidOrCloid::Oid(0),
        OidOrCloid::Oid(u64::MAX),
        OidOrCloid::Cloid(Cloid { value: 0 }),
        OidOrCloid::Cloid(Cloid { value: 1 }),
        OidOrCloid::Cloid(Cloid { value: u128::MAX }),
        OidOrCloid::Cloid(Cloid { value: 0x0123456789abcdef0123456789abcdef }),
    ];
    for v in values {
        assert_eq!(deserialize(serialize(&v)), Ok(v));
    }
}
