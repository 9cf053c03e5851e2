use isomech::hsh::bit_cell_map::{BitCellMap, LayoutError};
use std::sync::Arc;

fn layout(widths: Vec<u8>) -> BitCellMap {
    match BitCellMap::new(&Arc::new(widths)) {
        Ok(map) => map,
        Err(e) => panic!("layout refused: {:?}", e),
    }
}

fn fault(widths: Vec<u8>) -> Option<LayoutError> {
    match BitCellMap::new(&Arc::new(widths)) {
        Ok(_) => None,
        Err(e) => Some(e),
    }
}

#[test]
fn widths_are_kept_and_zero_past_the_end() {
    let map = layout(vec![8, 16, 40]);
    assert_eq!(map.bits_at_cell(0), 8);
    assert_eq!(map.bits_at_cell(1), 16);
    assert_eq!(map.bits_at_cell(2), 40);
    assert_eq!(map.bits_at_cell(3), 0);
    assert_eq!(map.bits_at_cell(255), 0);
}

#[test]
fn shifts_add_up_the_cells_below() {
    let mut map = layout(vec![8, 16, 40]);
    assert_eq!(map.bit_shift_cell(0), 0);
    assert_eq!(map.bit_shift_cell(1), 8);
    assert_eq!(map.bit_shift_cell(2), 24);
    // asked again, the kept values come back
    assert_eq!(map.bit_shift_cell(2), 24);
    assert_eq!(map.bit_shift_cell(1), 8);
    // past the last cell the shift is the total
    assert_eq!(map.bit_shift_cell(3), 64);
    assert_eq!(map.bit_shift_cell(200), 64);
}

#[test]
fn each_shift_is_the_one_below_plus_its_width() {
    let mut map = layout(vec![1, 2, 3, 4, 5, 6, 7, 8, 9, 10, 9]);
    assert_eq!(map.bit_shift_cell(0), 0);
    let mut i: u8 = 0;
    while i < 12 {
        let below = map.bit_shift_cell(i);
        let width = map.bits_at_cell(i);
        assert_eq!(map.bit_shift_cell(i + 1), below + width);
        i += 1;
    }
    assert_eq!(map.bit_shift_cell(11), 64);
}

#[test]
fn and_masks_are_low_bits() {
    let mut map = layout(vec![8, 16, 40]);
    assert_eq!(map.and_mask_cell(0), 0xff);
    assert_eq!(map.and_mask_cell(1), 0xffff);
    assert_eq!(map.and_mask_cell(2), 0xff_ffff_ffff);
    assert_eq!(map.and_mask_cell(1), 0xffff);
    assert_eq!(map.and_mask_cell(3), 0);
    let mut i: u8 = 0;
    while i < 3 {
        let mask = map.and_mask_cell(i);
        let width = map.bits_at_cell(i) as u32;
        assert_eq!(mask.count_ones(), width);
        assert_eq!(mask.trailing_ones(), width);
        i += 1;
    }
}

#[test]
fn zero_masks_clear_the_cell_in_place() {
    let mut map = layout(vec![8, 16, 40]);
    assert_eq!(map.zero_mask_cell(0), 0xffff_ffff_ffff_ff00);
    assert_eq!(map.zero_mask_cell(1), 0xffff_ffff_ff00_00ff);
    assert_eq!(map.zero_mask_cell(2), 0x0000_0000_00ff_ffff);
    assert_eq!(map.zero_mask_cell(1), 0xffff_ffff_ff00_00ff);
    assert_eq!(map.zero_mask_cell(3), u64::MAX);
}

#[test]
fn one_cell_of_the_whole_word() {
    let mut map = layout(vec![64]);
    assert_eq!(map.bit_shift_cell(0), 0);
    assert_eq!(map.and_mask_cell(0), u64::MAX);
    assert_eq!(map.zero_mask_cell(0), 0);
    assert_eq!(map.zero_mask_cell(0), 0);
}

#[test]
fn empty_cells_have_empty_masks() {
    let mut map = layout(vec![64, 0]);
    assert_eq!(map.bits_at_cell(1), 0);
    assert_eq!(map.bit_shift_cell(1), 64);
    assert_eq!(map.and_mask_cell(1), 0);
    assert_eq!(map.zero_mask_cell(1), u64::MAX);
    let mut inner = layout(vec![4, 0, 4]);
    assert_eq!(inner.bit_shift_cell(2), 4);
    assert_eq!(inner.and_mask_cell(1), 0);
    assert_eq!(inner.zero_mask_cell(1), u64::MAX);
    assert_eq!(inner.zero_mask_cell(2), 0xffff_ffff_ffff_ff0f);
}

#[test]
fn empty_layout_is_a_layout() {
    let mut map = layout(vec![]);
    assert_eq!(map.bits_at_cell(0), 0);
    assert_eq!(map.bit_shift_cell(0), 0);
    assert_eq!(map.bit_shift_cell(5), 0);
    assert_eq!(map.and_mask_cell(0), 0);
    assert_eq!(map.zero_mask_cell(0), u64::MAX);
    assert_eq!(map.total_bits_at_cells(&[]), 0);
}

#[test]
fn totals_over_selected_cells() {
    let map = layout(vec![8, 16, 40]);
    assert_eq!(map.total_bits_at_cells(&[0, 2]), 48);
    assert_eq!(map.total_bits_at_cells(&[1]), 16);
    assert_eq!(map.total_bits_at_cells(&[2, 1, 0]), 64);
    assert_eq!(map.total_bits_at_cells(&[0, 7, 1]), 24);
    assert_eq!(map.total_bits_at_cells(&[1, 1]), 32);
}

#[test]
fn sum_of_65_bits_is_refused() {
    assert_eq!(fault(vec![32, 33]), Some(LayoutError::TotalTooWide));
    assert_eq!(fault(vec![64, 1]), Some(LayoutError::TotalTooWide));
    assert_eq!(fault(vec![64, 0, 0, 1]), Some(LayoutError::TotalTooWide));
    assert_eq!(fault(vec![32, 32]), None);
}

#[test]
fn more_than_64_cells_are_refused() {
    assert_eq!(fault(vec![0; 65]), Some(LayoutError::TooManyCells));
    assert_eq!(fault(vec![1; 65]), Some(LayoutError::TooManyCells));
    assert_eq!(fault(vec![70; 65]), Some(LayoutError::TooManyCells));
    assert_eq!(fault(vec![1; 64]), None);
    assert_eq!(fault(vec![0; 64]), None);
}

#[test]
fn a_cell_of_65_bits_is_refused() {
    assert_eq!(fault(vec![65]), Some(LayoutError::CellTooWide));
    assert_eq!(fault(vec![1, 65]), Some(LayoutError::CellTooWide));
    assert_eq!(fault(vec![0, 255, 1]), Some(LayoutError::CellTooWide));
    assert_eq!(fault(vec![64]), None);
}

#[test]
fn the_first_fault_is_the_one_reported() {
    // the total passes 64 at the second cell, before the wide cell is met
    assert_eq!(fault(vec![60, 10, 65]), Some(LayoutError::TotalTooWide));
    assert_eq!(fault(vec![60, 65, 10]), Some(LayoutError::CellTooWide));
}

#[test]
fn solid_masks_cover_first_to_last() {
    assert_eq!(BitCellMap::solid_bit_mask(4, 7), 0xf0);
    assert_eq!(BitCellMap::solid_bit_mask(0, 0), 1);
    assert_eq!(BitCellMap::solid_bit_mask(63, 63), 0x8000_0000_0000_0000);
    assert_eq!(BitCellMap::solid_bit_mask(0, 63), u64::MAX);
    assert_eq!(BitCellMap::solid_bit_mask(8, 23), 0x00ff_ff00);
}

#[test]
fn solid_masks_of_bad_ranges_are_zero() {
    assert_eq!(BitCellMap::solid_bit_mask(5, 4), 0);
    assert_eq!(BitCellMap::solid_bit_mask(0, 64), 0);
    assert_eq!(BitCellMap::solid_bit_mask(64, 64), 0);
    assert_eq!(BitCellMap::solid_bit_mask(10, 255), 0);
}
