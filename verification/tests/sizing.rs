use compress_bench::compressor::read_le_u32_prefix;
use compress_bench::sizing::{size_class, SizeClass};

#[test]
fn size_class_thresholds() {
    assert_eq!(size_class(0), SizeClass::Bytes);
    assert_eq!(size_class(1), SizeClass::Bytes);
    assert_eq!(size_class(1023), SizeClass::Bytes);
    assert_eq!(size_class(1024), SizeClass::Kibi);
    assert_eq!(size_class(1048575), SizeClass::Kibi);
    assert_eq!(size_class(1048576), SizeClass::Mebi);
    assert_eq!(size_class(1073741823), SizeClass::Mebi);
    assert_eq!(size_class(1073741824), SizeClass::Gibi);
}

#[test]
fn le_prefix_reads_exact_value() {
    let bytes: Vec<u8> = vec![0x78, 0x56, 0x34, 0x12, 0xff];
    assert_eq!(read_le_u32_prefix(&bytes), 0x12345678);
    let max: Vec<u8> = vec![0xff, 0xff, 0xff, 0xff];
    assert_eq!(read_le_u32_prefix(&max), u32::MAX);
    let zero: Vec<u8> = vec![0, 0, 0, 0];
    assert_eq!(read_le_u32_prefix(&zero), 0);
}
