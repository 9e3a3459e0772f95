use simple_ping::byte_order::{
    native_order, order_of_probe, u16_from_bytes, u16_to_bytes, u32_from_bytes, u32_to_bytes,
    ByteOrder,
};

#[test]
fn u16_is_read_in_either_order() {
    assert_eq!(u16_from_bytes(ByteOrder::Big, [0x12, 0x34]), 0x1234);
    assert_eq!(u16_from_bytes(ByteOrder::Little, [0x12, 0x34]), 0x3412);
}

#[test]
fn u16_is_written_in_either_order() {
    assert_eq!(u16_to_bytes(ByteOrder::Big, 0x1234), [0x12, 0x34]);
    assert_eq!(u16_to_bytes(ByteOrder::Little, 0x1234), [0x34, 0x12]);
}

#[test]
fn u32_is_read_in_either_order() {
    assert_eq!(u32_from_bytes(ByteOrder::Big, [0x12, 0x34, 0x56, 0x78]), 0x1234_5678);
    assert_eq!(u32_from_bytes(ByteOrder::Little, [0x12, 0x34, 0x56, 0x78]), 0x7856_3412);
}

#[test]
fn u32_is_written_in_either_order() {
    assert_eq!(u32_to_bytes(ByteOrder::Big, 0x1234_5678), [0x12, 0x34, 0x56, 0x78]);
    assert_eq!(u32_to_bytes(ByteOrder::Little, 0x1234_5678), [0x78, 0x56, 0x34, 0x12]);
}

#[test]
fn conversions_agree_with_std() {
    for x in [0u16, 1, 0xFF, 0x100, 0x1234, 0xFFFF] {
        assert_eq!(u16_to_bytes(ByteOrder::Big, x), x.to_be_bytes());
        assert_eq!(u16_to_bytes(ByteOrder::Little, x), x.to_le_bytes());
        assert_eq!(u16_from_bytes(ByteOrder::Big, x.to_be_bytes()), x);
        assert_eq!(u16_from_bytes(ByteOrder::Little, x.to_le_bytes()), x);
    }
    for x in [0u32, 1, 0xFF, 0x100, 0x1_0000, 0x100_0000, 0x1234_5678, 0xFFFF_FFFF] {
        assert_eq!(u32_to_bytes(ByteOrder::Big, x), x.to_be_bytes());
        assert_eq!(u32_to_bytes(ByteOrder::Little, x), x.to_le_bytes());
        assert_eq!(u32_from_bytes(ByteOrder::Big, x.to_be_bytes()), x);
        assert_eq!(u32_from_bytes(ByteOrder::Little, x.to_le_bytes()), x);
    }
}

#[test]
fn every_u16_goes_round() {
    for x in 0..=u16::MAX {
        for order in [ByteOrder::Little, ByteOrder::Big] {
            assert_eq!(u16_from_bytes(order, u16_to_bytes(order, x)), x);
        }
    }
}

#[test]
fn native_order_is_the_order_of_the_machine() {
    let order = native_order();
    assert_eq!(u16_to_bytes(order, 0x1234), 0x1234u16.to_ne_bytes());
    assert_eq!(u32_to_bytes(order, 0x1234_5678), 0x1234_5678u32.to_ne_bytes());
    assert_eq!(u16_from_bytes(order, [1, 0]), u16::from_ne_bytes([1, 0]));
    assert_eq!(native_order(), order);
}

#[test]
fn probe_of_one_is_little_and_of_256_is_big() {
    assert_eq!(order_of_probe(1), ByteOrder::Little);
    assert_eq!(order_of_probe(256), ByteOrder::Big);
    assert_eq!(order_of_probe(0), ByteOrder::Big);
    assert_eq!(order_of_probe(u16::from_le_bytes([1, 0])), ByteOrder::Little);
    assert_eq!(order_of_probe(u16::from_be_bytes([1, 0])), ByteOrder::Big);
    assert_eq!(order_of_probe(u16::from_ne_bytes([1, 0])), native_order());
}
