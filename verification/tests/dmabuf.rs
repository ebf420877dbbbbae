use drm_fourcc::DrmFourcc;
use wayvek::backend::wayland::dmabuf::{AdvertisedFormats, DrmFormatTable, FormatTableEntry};
use wayvek::bytes::ByteOrder;

const XRGB: u32 = DrmFourcc::Xrgb8888 as u32;
const ARGB: u32 = DrmFourcc::Argb8888 as u32;

fn record(format: u32, modifier: u64) -> Vec<u8> {
    let mut bytes = format.to_le_bytes().to_vec();
    bytes.extend([0xaa; 4]);
    bytes.extend(modifier.to_le_bytes());
    bytes
}

fn table() -> DrmFormatTable {
    let mut bytes = record(XRGB, 0);
    bytes.extend(record(ARGB, 7));
    bytes.extend(record(XRGB, 0x0100_0000_0000_0002));
    bytes.extend(record(0xdead_beef, 1));
    DrmFormatTable::map(ByteOrder::Little, &bytes).unwrap()
}

fn indices(list: &[u16]) -> Vec<u8> {
    list.iter().flat_map(|i| i.to_le_bytes()).collect()
}

#[test]
fn an_entry_is_a_format_padding_and_a_modifier() {
    let bytes: [u8; 16] = [1, 2, 3, 4, 5, 6, 7, 8, 9, 10, 11, 12, 13, 14, 15, 16];
    let little = FormatTableEntry::decode(ByteOrder::Little, &bytes);
    assert_eq!(little.format, 0x0403_0201);
    assert_eq!(little._pad, 0x0807_0605);
    assert_eq!(little.modifier, 0x100f_0e0d_0c0b_0a09);
    let big = FormatTableEntry::decode(ByteOrder::Big, &bytes);
    assert_eq!(big.format, 0x0102_0304);
    assert_eq!(big._pad, 0x0506_0708);
    assert_eq!(big.modifier, 0x090a_0b0c_0d0e_0f10);
}

#[test]
fn a_table_is_read_entry_by_entry() {
    let table = table();
    assert_eq!(table.get(0), Some((XRGB, 0)));
    assert_eq!(table.get(1), Some((ARGB, 7)));
    assert_eq!(table.get(2), Some((XRGB, 0x0100_0000_0000_0002)));
    assert_eq!(table.get(3), Some((0xdead_beef, 1)));
    assert_eq!(table.get(4), None);
}

#[test]
fn a_table_may_start_at_any_address() {
    let mut bytes = vec![0u8];
    bytes.extend(record(ARGB, 7));
    let table = DrmFormatTable::map(ByteOrder::Little, &bytes[1..]).unwrap();
    assert_eq!(table.get(0), Some((ARGB, 7)));
}

#[test]
fn a_table_holds_whole_entries() {
    let bytes = [0u8; 33];
    assert!(DrmFormatTable::map(ByteOrder::Little, &bytes[0..15]).is_none());
    assert!(DrmFormatTable::map(ByteOrder::Little, &bytes[0..17]).is_none());
    assert!(DrmFormatTable::map(ByteOrder::Little, &bytes).is_none());
    let empty = DrmFormatTable::map(ByteOrder::Little, &[]).unwrap();
    assert_eq!(empty.get(0), None);
    let two = DrmFormatTable::map(ByteOrder::Little, &bytes[0..32]).unwrap();
    assert_eq!(two.get(1), Some((0, 0)));
    assert_eq!(two.get(2), None);
}

#[test]
fn modifiers_gather_under_their_format() {
    let mut formats = AdvertisedFormats::new();
    formats.add_wayland_modifier(XRGB, 3);
    formats.add_wayland_modifier(ARGB, 1);
    formats.add_wayland_modifier(XRGB, 1);
    formats.add_wayland_modifier(XRGB, 3);
    assert_eq!(
        formats.to_vec(),
        vec![(XRGB, vec![3, 1]), (ARGB, vec![1])]
    );
}

#[test]
fn a_tranche_announces_table_entries_in_order() {
    let mut formats = AdvertisedFormats::new();
    formats.add_tranche(ByteOrder::Little, &table(), &indices(&[2, 1, 0, 2]));
    assert_eq!(
        formats.to_vec(),
        vec![(XRGB, vec![0x0100_0000_0000_0002, 0]), (ARGB, vec![7])]
    );
}

#[test]
fn unknown_formats_and_indices_are_passed_over() {
    let mut formats = AdvertisedFormats::new();
    formats.add_tranche(ByteOrder::Little, &table(), &indices(&[3, 4, 65535, 1]));
    assert_eq!(formats.to_vec(), vec![(ARGB, vec![7])]);
}

#[test]
fn a_last_odd_byte_is_no_index() {
    let mut formats = AdvertisedFormats::new();
    formats.add_tranche(ByteOrder::Little, &table(), &[1, 0, 0]);
    assert_eq!(formats.to_vec(), vec![(ARGB, vec![7])]);
    formats.add_tranche(ByteOrder::Big, &table(), &[0, 0]);
    assert_eq!(formats.to_vec(), vec![(ARGB, vec![7]), (XRGB, vec![0])]);
    formats.add_tranche(ByteOrder::Big, &table(), &[]);
    assert_eq!(formats.to_vec(), vec![(ARGB, vec![7]), (XRGB, vec![0])]);
}
