use wayvek::bytes::ByteOrder;
use wayvek::text::{append_decimal, same_text};
use wayvek::ExplicitSync;

#[test]
fn numbers_are_read_in_either_order() {
    let bytes = [0x01u8, 0x02, 0x03, 0x04, 0x05, 0x06, 0x07, 0x08];
    assert_eq!(ByteOrder::Little.read(&bytes), 0x0807_0605_0403_0201);
    assert_eq!(ByteOrder::Big.read(&bytes), 0x0102_0304_0506_0708);
    assert_eq!(ByteOrder::Little.read_u32(&bytes[0..4]), 0x0403_0201);
    assert_eq!(ByteOrder::Big.read_u32(&bytes[0..4]), 0x0102_0304);
    assert_eq!(ByteOrder::Little.read_u16(&bytes[0..2]), 0x0201);
    assert_eq!(ByteOrder::Big.read_u16(&bytes[0..2]), 0x0102);
    assert_eq!(ByteOrder::Little.read(&[]), 0);
    assert_eq!(ByteOrder::Big.read(&[0xff; 8]), u64::MAX);
    assert_eq!(ByteOrder::Little.read(&[0xff; 8]), u64::MAX);
}

#[test]
fn decimal_text_has_no_leading_zeros() {
    let mut text = String::from("n=");
    append_decimal(&mut text, 0);
    append_decimal(&mut text, 128);
    append_decimal(&mut text, u32::MAX);
    append_decimal(&mut text, 1005);
    assert_eq!(text, "n=012842949672951005");
}

#[test]
fn texts_are_compared_whole() {
    assert!(same_text("wl_compositor", "wl_compositor"));
    assert!(!same_text("wl_compositor", "wl_compositor2"));
    assert!(!same_text("", "w"));
}

#[test]
fn a_frame_is_released_one_point_after_it_is_acquired() {
    let sync = ExplicitSync::from_acquire(41);
    assert_eq!(sync.acquire_point, 41);
    assert_eq!(sync.release_point, 42);
}

#[test]
fn the_byte_order_is_known_by_how_one_and_zero_are_read() {
    assert_eq!(ByteOrder::of_probe(Some(1)), ByteOrder::Little);
    assert_eq!(ByteOrder::of_probe(Some(256)), ByteOrder::Big);
    assert_eq!(ByteOrder::of_probe(None), ByteOrder::Big);
    assert_eq!(ByteOrder::of_probe(Some(1)).read_u16(&[1, 0]), 1);
    assert_eq!(ByteOrder::of_probe(Some(256)).read_u16(&[1, 0]), 256);
}

#[test]
fn the_probe_is_one_and_zero() {
    let little = ByteOrder::native_by(|bytes: &[u8]| {
        assert_eq!(bytes, [1, 0]);
        Some(1)
    });
    assert_eq!(little, ByteOrder::Little);
    assert_eq!(ByteOrder::native_by(|_: &[u8]| Some(256)), ByteOrder::Big);
}
