use sequential_storage::marker::{marker_is_set, HALF_MARKER_BITS};
use sequential_storage::{calculate_page_address, FlashGeometry, MAX_WORD_SIZE};

#[test]
fn threshold_is_half_a_byte() {
    assert_eq!(HALF_MARKER_BITS, 4);
    assert_eq!(MAX_WORD_SIZE, 32);
}

#[test]
fn erased_marker_is_not_set() {
    assert!(!marker_is_set(&[0xFF]));
    assert!(!marker_is_set(&[0xFF; 4]));
    assert!(!marker_is_set(&[0xFF; 32]));
}

#[test]
fn empty_marker_is_not_set() {
    assert!(!marker_is_set(&[]));
}

#[test]
fn written_marker_is_set() {
    assert!(marker_is_set(&[0x00]));
    assert!(marker_is_set(&[0x00; 8]));
}

#[test]
fn marker_with_exactly_four_zero_bits_is_set() {
    assert!(marker_is_set(&[0xF0]));
    assert!(marker_is_set(&[0x0F]));
    assert!(marker_is_set(&[0xAA]));
}

#[test]
fn marker_with_three_zero_bits_is_not_set() {
    assert!(!marker_is_set(&[0xF8]));
    assert!(!marker_is_set(&[0x1F]));
    assert!(!marker_is_set(&[0xEE, 0xFE]));
}

#[test]
fn zero_bits_are_summed_over_all_bytes() {
    // One zero bit in each of four bytes.
    assert!(marker_is_set(&[0xFE, 0xFD, 0xFB, 0xF7]));
    // Two and two.
    assert!(marker_is_set(&[0xFF, 0xFC, 0xFF, 0x3F]));
    // The zero bits may sit at the very end of a long marker.
    let mut marker = [0xFF; 32];
    marker[31] = 0xF0;
    assert!(marker_is_set(&marker));
    marker[31] = 0xF1;
    assert!(!marker_is_set(&marker));
}

#[test]
fn threshold_does_not_grow_with_the_marker() {
    let mut marker = [0xFF; 32];
    marker[0] = 0x0F;
    assert!(marker_is_set(&marker));
}

#[test]
fn zero_bits_are_counted_and_not_the_value() {
    // 0x03 is a small number with six zero bits.
    assert!(marker_is_set(&[0x03]));
    // 0xF7 is a large number with one zero bit.
    assert!(!marker_is_set(&[0xF7]));
    // 0x80 has seven zero bits, 0x7F has one.
    assert!(marker_is_set(&[0x80]));
    assert!(!marker_is_set(&[0x7F]));
}

#[test]
fn page_address_is_start_plus_index_times_erase_size() {
    assert_eq!(calculate_page_address(0x00..0x400, 256, 0), 0);
    assert_eq!(calculate_page_address(0x00..0x400, 256, 2), 512);
    assert_eq!(calculate_page_address(0x00..0x400, 256, 3), 768);
    assert_eq!(calculate_page_address(0x1000..0x3000, 4096, 1), 0x2000);
    assert_eq!(calculate_page_address(0xFFFF_F000..0xFFFF_FFFF, 0x400, 3), 0xFFFF_FC00);
    assert_eq!(calculate_page_address(7..7, 0, 5), 7);
}

#[test]
fn geometry_is_supported_up_to_the_word_limit() {
    assert!(FlashGeometry { read_size: 1, erase_size: 256 }.is_supported());
    assert!(FlashGeometry { read_size: 32, erase_size: 32 }.is_supported());
    assert!(FlashGeometry { read_size: 0, erase_size: 0 }.is_supported());
    assert!(!FlashGeometry { read_size: 33, erase_size: 4096 }.is_supported());
    assert!(!FlashGeometry { read_size: 16, erase_size: 8 }.is_supported());
}

#[test]
fn geometry_tells_the_pages_of_a_range() {
    let geometry = FlashGeometry { read_size: 1, erase_size: 256 };
    assert!(geometry.contains_page(&(0x00..0x400), 0));
    assert!(geometry.contains_page(&(0x00..0x400), 3));
    assert!(!geometry.contains_page(&(0x00..0x400), 4));
    assert!(!geometry.contains_page(&(0x00..0x400), usize::MAX));
    // A range that ends inside a page does not hold that page.
    assert!(geometry.contains_page(&(0x100..0x2FF), 0));
    assert!(!geometry.contains_page(&(0x100..0x2FF), 1));
    // An empty or a reversed range holds no page.
    assert!(!geometry.contains_page(&(0x100..0x100), 0));
    assert!(!geometry.contains_page(&(0x400..0x100), 0));
    // Up to the last address.
    assert!(geometry.contains_page(&(0xFFFF_FE00..0xFFFF_FFFF), 0));
    assert!(!geometry.contains_page(&(0xFFFF_FE00..0xFFFF_FFFF), 1));
}
