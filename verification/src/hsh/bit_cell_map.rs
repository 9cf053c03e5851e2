use std::sync::Arc;
use vstd::prelude::*;

verus! {

/// Number of bits in the word that a layout partitions.
pub const WORD_BITS: u8 = 64;

/// Why a list of cell widths is not a layout.
#[derive(Clone, Copy, Debug, PartialEq, Eq, Structural)]
pub enum LayoutError {
    /// The list has more than 64 cells.
    TooManyCells,
    /// A cell is wider than 64 bits.
    CellTooWide,
    /// The running total of the widths passes 64 bits.
    TotalTooWide,
}

/// Whether bit `b` of `x` is set.
pub open spec fn bit_is_set(x: u64, b: u64) -> bool {
    (x >> b) & 1 == 1
}

/// The mask whose `n` lowest bits are set; every bit for `n >= 64`.
pub open spec fn low_mask(n: u8) -> u64 {
    if n == 0 {
        0
    } else if n >= 64 {
        u64::MAX
    } else {
        u64::MAX >> ((64 - n) as u64)
    }
}

/// The contiguous mask of bit positions `first..=last`; 0 when the range is
/// empty or reaches past bit 63.
pub open spec fn solid_mask(first: u8, last: u8) -> u64 {
    if last > 63 || first > last {
        0
    } else {
        (u64::MAX >> ((63 - last) as u64)) & (u64::MAX << (first as u64))
    }
}

/// Sum of the first `n` widths of `w` (of all of them for `n` past the end).
pub open spec fn widths_sum(w: Seq<u8>, n: int) -> int
    decreases n,
{
    if n <= 0 {
        0
    } else if n > w.len() {
        widths_sum(w, w.len() as int)
    } else {
        widths_sum(w, n - 1) + w[n - 1]
    }
}

/// A list of widths that is a layout: at most 64 cells, at most 64 bits in all.
pub open spec fn valid_widths(w: Seq<u8>) -> bool {
    w.len() <= 64 && widths_sum(w, w.len() as int) <= 64
}

/// The cell at which the running total first passes 64 bits.
pub open spec fn first_over(w: Seq<u8>) -> int {
    choose|j: int|
        0 <= j < w.len() && #[trigger] widths_sum(w, j) <= 64 && widths_sum(w, j + 1) > 64
}

/// The fault that construction reports for `w`, if there is one: too many
/// cells before anything else, then whatever the first cell that breaks the
/// budget breaks, its own width before the total.
pub open spec fn layout_fault(w: Seq<u8>) -> Option<LayoutError> {
    if w.len() > 64 {
        Some(LayoutError::TooManyCells)
    } else if widths_sum(w, w.len() as int) <= 64 {
        None
    } else if w[first_over(w)] > 64 {
        Some(LayoutError::CellTooWide)
    } else {
        Some(LayoutError::TotalTooWide)
    }
}

/// Width of cell `i`; 0 past the last cell.
pub open spec fn width_at(w: Seq<u8>, i: u8) -> u8 {
    if i < w.len() {
        w[i as int]
    } else {
        0
    }
}

/// Shift of cell `i`: the widths of all cells below it, added up.
pub open spec fn shift_of(w: Seq<u8>, i: u8) -> int {
    widths_sum(w, i as int)
}

/// And-mask of cell `i`: as many low bits as the cell is wide.
pub open spec fn and_mask_of(w: Seq<u8>, i: u8) -> u64 {
    low_mask(width_at(w, i))
}

/// Zero-mask of cell `i`: every bit but those of the cell in its place.
pub open spec fn zero_mask_of(w: Seq<u8>, i: u8) -> u64 {
    if shift_of(w, i) >= 64 {
        u64::MAX
    } else {
        !(and_mask_of(w, i) << (shift_of(w, i) as u64))
    }
}

/// Sum of the widths of the cells that `sel` names, one term for each entry.
pub open spec fn selected_sum(w: Seq<u8>, sel: Seq<u8>) -> int
    decreases sel.len(),
{
    if sel.len() == 0 {
        0
    } else {
        selected_sum(w, sel.drop_last()) + width_at(w, sel.last())
    }
}

/// Prefix sums never shrink and never pass the sum of all widths.
pub proof fn lemma_widths_sum_monotone(w: Seq<u8>, i: int, j: int)
    requires
        i <= j,
    ensures
        0 <= widths_sum(w, i) <= widths_sum(w, j) <= widths_sum(w, w.len() as int),
    decreases j - i, j,
{
    if j <= 0 {
        lemma_widths_sum_total(w, j);
    } else if i == j {
        lemma_widths_sum_total(w, j);
        lemma_widths_sum_nonneg(w, i);
    } else if j > w.len() {
        lemma_widths_sum_total(w, j);
        if i > w.len() {
            lemma_widths_sum_nonneg(w, i);
        } else {
            lemma_widths_sum_monotone(w, i, w.len() as int);
        }
    } else {
        lemma_widths_sum_monotone(w, i, j - 1);
        lemma_widths_sum_total(w, j);
    }
}

proof fn lemma_widths_sum_nonneg(w: Seq<u8>, n: int)
    ensures
        0 <= widths_sum(w, n),
    decreases n, w.len() - n,
{
    if n <= 0 {
    } else if n > w.len() {
        lemma_widths_sum_nonneg(w, w.len() as int);
    } else {
        lemma_widths_sum_nonneg(w, n - 1);
    }
}

proof fn lemma_widths_sum_total(w: Seq<u8>, n: int)
    ensures
        widths_sum(w, n) <= widths_sum(w, w.len() as int),
    decreases w.len() - n,
{
    if n >= w.len() {
    } else if n <= 0 {
        lemma_widths_sum_nonneg(w, w.len() as int);
    } else {
        lemma_widths_sum_total(w, n + 1);
    }
}


/// `first_over` is the one cell at which the running total passes 64 bits.
proof fn lemma_first_over_is(w: Seq<u8>, i: int)
    requires
        0 <= i < w.len(),
        widths_sum(w, i) <= 64,
        widths_sum(w, i + 1) > 64,
    ensures
        first_over(w) == i,
        widths_sum(w, w.len() as int) > 64,
{
    let j = first_over(w);
    lemma_widths_sum_monotone(w, i + 1, w.len() as int);
    if j < i {
        lemma_widths_sum_monotone(w, j + 1, i);
    } else if j > i {
        lemma_widths_sum_monotone(w, i + 1, j);
    }
}

/// A layout of a 64-bit word: an ordered list of cell widths, with the
/// shift and the two masks of a cell worked out on first request and kept.
pub struct BitCellMap {
    cell: Arc<Vec<u8>>,
    cell_shift: [u8; 64],
    cell_mask: [u64; 64],
    cell_zero: [u64; 64],
    cells: u8,
}

impl BitCellMap {
    /// The cell widths, lowest cell first.
    pub closed spec fn widths(&self) -> Seq<u8> {
        self.cell@
    }

    #[verifier::type_invariant]
    spec fn inv(&self) -> bool {
        &&& valid_widths(self.cell@)
        &&& self.cells == self.cell@.len()
        &&& forall|i: int|
            0 <= i < self.cells ==> #[trigger] self.cell_shift@[i] == 0 || self.cell_shift@[i]
                == shift_of(self.cell@, i as u8)
        &&& forall|i: int|
            0 <= i < self.cells ==> #[trigger] self.cell_mask@[i] == 0 || self.cell_mask@[i]
                == and_mask_of(self.cell@, i as u8)
        &&& forall|i: int|
            0 <= i < self.cells ==> #[trigger] self.cell_zero@[i] == 0 || self.cell_zero@[i]
                == zero_mask_of(self.cell@, i as u8)
    }

    /// Builds the layout of `bit_cell`, or says what is wrong with the list.
    pub fn new(bit_cell: &Arc<Vec<u8>>) -> (r: Result<Self, LayoutError>)
        ensures
            match r {
                Ok(map) => layout_fault(bit_cell@) is None && map.widths() == bit_cell@,
                Err(e) => layout_fault(bit_cell@) == Some(e),
            },
    {
        if bit_cell.len() > WORD_BITS as usize {
            return Err(LayoutError::TooManyCells);
        }
        let cells: u8 = bit_cell.len() as u8;
        let mut bits_sum: u8 = 0;
        let mut i: usize = 0;
        while i < bit_cell.len()
            invariant
                i <= bit_cell@.len() <= 64,
                bits_sum == widths_sum(bit_cell@, i as int),
                bits_sum <= 64,
            decreases bit_cell@.len() - i,
        {
            let cell: u8 = bit_cell[i];
            if cell > WORD_BITS {
                proof {
                    lemma_first_over_is(bit_cell@, i as int);
                }
                return Err(LayoutError::CellTooWide);
            }
            bits_sum = bits_sum + cell;
            if bits_sum > WORD_BITS {
                proof {
                    lemma_first_over_is(bit_cell@, i as int);
                }
                return Err(LayoutError::TotalTooWide);
            }
            i = i + 1;
        }
        let cell_shift: [u8; 64] = [0u8; 64];
        let cell_mask: [u64; 64] = [0u64; 64];
        let cell_zero: [u64; 64] = [0u64; 64];
        Ok(BitCellMap { cell: bit_cell.clone(), cell_shift, cell_mask, cell_zero, cells })
    }

    /// Width of cell `cell`; 0 past the last cell.
    pub fn bits_at_cell(&self, cell: u8) -> (bits: u8)
        ensures
            bits == width_at(self.widths(), cell),
            valid_widths(self.widths()),
    {
        proof {
            use_type_invariant(self);
        }
        if self.cells <= cell {
            0
        } else {
            self.cell[cell as usize]
        }
    }

    /// Adds up the widths of the cells that `cells` names, one term for each
    /// entry. The sum has to fit the result; it does whenever no cell is named
    /// twice, by `law_subset_fits_word`.
    pub fn total_bits_at_cells(&self, cells: &[u8]) -> (bits: u8)
        requires
            selected_sum(self.widths(), cells@) <= u8::MAX,
        ensures
            bits == selected_sum(self.widths(), cells@),
    {
        let mut total: u8 = 0;
        let mut i: usize = 0;
        while i < cells.len()
            invariant
                i <= cells@.len(),
                total == selected_sum(self.widths(), cells@.take(i as int)),
                selected_sum(self.widths(), cells@) <= u8::MAX,
            decreases cells@.len() - i,
        {
            let bits = self.bits_at_cell(cells[i]);
            proof {
                assert(cells@.take(i + 1).drop_last() == cells@.take(i as int));
                lemma_selected_sum_monotone(self.widths(), cells@, i + 1);
            }
            total = total + bits;
            i = i + 1;
        }
        proof {
            assert(cells@.take(cells@.len() as int) == cells@);
        }
        total
    }

    /// Shift of cell `cell`: the widths of all cells below it, added up.
    pub fn bit_shift_cell(&mut self, cell: u8) -> (shift: u8)
        ensures
            shift == shift_of(old(self).widths(), cell),
            final(self).widths() == old(self).widths(),
    {
        proof {
            use_type_invariant(&*self);
        }
        if cell == 0 {
            return 0;
        }
        if cell < self.cells {
            let cached = self.cell_shift[cell as usize];
            if cached != 0 {
                return cached;
            }
        }
        let top: u8 = if cell < self.cells {
            cell
        } else {
            self.cells
        };
        let mut shift: u8 = 0;
        let mut c: u8 = 0;
        while c < top
            invariant
                c <= top <= self.cells,
                self.cells == self.cell@.len(),
                valid_widths(self.cell@),
                shift == widths_sum(self.cell@, c as int),
                shift <= 64,
            decreases top - c,
        {
            proof {
                lemma_widths_sum_monotone(self.cell@, c + 1, self.cell@.len() as int);
            }
            shift = shift + self.cell[c as usize];
            c = c + 1;
        }
        if cell < self.cells {
            self.cell_shift[cell as usize] = shift;
        }
        shift
    }

    /// And-mask of cell `cell`: as many low bits as the cell is wide.
    pub fn and_mask_cell(&mut self, cell: u8) -> (mask: u64)
        ensures
            mask == and_mask_of(old(self).widths(), cell),
            final(self).widths() == old(self).widths(),
    {
        proof {
            use_type_invariant(&*self);
        }
        if cell >= self.cells {
            return 0;
        }
        let cached = self.cell_mask[cell as usize];
        if cached != 0 {
            return cached;
        }
        let bits = self.cell[cell as usize];
        proof {
            lemma_widths_sum_monotone(self.cell@, cell + 1, self.cell@.len() as int);
            lemma_widths_sum_monotone(self.cell@, 0, cell as int);
        }
        let mask = if bits == 0 {
            0
        } else {
            proof {
                lemma_solid_from_zero(bits);
            }
            Self::solid_bit_mask(0, bits - 1)
        };
        self.cell_mask[cell as usize] = mask;
        mask
    }

    /// Zero-mask of cell `cell`: every bit but those of the cell in its place.
    pub fn zero_mask_cell(&mut self, cell: u8) -> (mask: u64)
        ensures
            mask == zero_mask_of(old(self).widths(), cell),
            final(self).widths() == old(self).widths(),
    {
        proof {
            use_type_invariant(&*self);
        }
        if cell < self.cells {
            let cached = self.cell_zero[cell as usize];
            if cached != 0 {
                return cached;
            }
        }
        let and_mask = self.and_mask_cell(cell);
        let shift = self.bit_shift_cell(cell);
        let mask = if shift >= 64 {
            u64::MAX
        } else {
            !(and_mask << shift)
        };
        proof {
            use_type_invariant(&*self);
        }
        if cell < self.cells {
            self.cell_zero[cell as usize] = mask;
        }
        mask
    }

    /// The contiguous mask of bit positions `first_on..=last_on`; 0 when
    /// `last_on` is past bit 63 or below `first_on`.
    pub fn solid_bit_mask(first_on: u8, last_on: u8) -> (mask: u64)
        ensures
            mask == solid_mask(first_on, last_on),
    {
        if last_on > 63 || first_on > last_on {
            return 0;
        }
        (u64::MAX >> (63 - last_on)) & (u64::MAX << first_on)
    }
}

/// A selection's sum only grows as entries are added.
pub proof fn lemma_selected_sum_monotone(w: Seq<u8>, sel: Seq<u8>, n: int)
    requires
        0 <= n <= sel.len(),
    ensures
        0 <= selected_sum(w, sel.take(n)) <= selected_sum(w, sel),
    decreases sel.len() - n,
{
    if n == sel.len() {
        assert(sel.take(n) == sel);
        lemma_selected_sum_nonneg(w, sel);
    } else {
        lemma_selected_sum_monotone(w, sel, n + 1);
        assert(sel.take(n + 1).drop_last() == sel.take(n));
        lemma_selected_sum_nonneg(w, sel.take(n));
    }
}

proof fn lemma_selected_sum_nonneg(w: Seq<u8>, sel: Seq<u8>)
    ensures
        0 <= selected_sum(w, sel),
    decreases sel.len(),
{
    if sel.len() > 0 {
        lemma_selected_sum_nonneg(w, sel.drop_last());
    }
}

/// The solid mask from bit 0 up is the low mask of as many bits.
proof fn lemma_solid_from_zero(bits: u8)
    requires
        1 <= bits <= 64,
    ensures
        solid_mask(0, (bits - 1) as u8) == low_mask(bits),
{
    let n = bits as u64;
    assert((u64::MAX >> ((63 - (n - 1)) as u64)) & (u64::MAX << 0u64) == (if n >= 64 {
        u64::MAX
    } else {
        u64::MAX >> ((64 - n) as u64)
    })) by (bit_vector)
        requires
            1 <= n <= 64,
    ;
}

/// A solid mask has the bits `first..=last` set and no other.
pub proof fn law_solid_mask_covers_range(first: u8, last: u8, b: u64)
    requires
        first <= last <= 63,
        b < 64,
    ensures
        bit_is_set(solid_mask(first, last), b) <==> first <= b <= last,
{
    let f = first as u64;
    let l = last as u64;
    assert(((((u64::MAX >> ((63 - l) as u64)) & (u64::MAX << f)) >> b) & 1 == 1) <==> (f <= b && b
        <= l)) by (bit_vector)
        requires
            f <= l,
            l <= 63,
            b < 64,
    ;
}

/// Sum of the widths of the cells below `n` that `sel` names.
spec fn selected_below(w: Seq<u8>, sel: Seq<u8>, n: int) -> int
    decreases sel.len(),
{
    if sel.len() == 0 {
        0
    } else {
        selected_below(w, sel.drop_last(), n) + if sel.last() < n {
            width_at(w, sel.last()) as int
        } else {
            0
        }
    }
}

proof fn lemma_selected_below_all(w: Seq<u8>, sel: Seq<u8>)
    ensures
        selected_below(w, sel, w.len() as int) == selected_sum(w, sel),
        selected_below(w, sel, 0) == 0,
    decreases sel.len(),
{
    if sel.len() > 0 {
        lemma_selected_below_all(w, sel.drop_last());
    }
}

proof fn lemma_selected_below_step(w: Seq<u8>, sel: Seq<u8>, n: int)
    requires
        sel.no_duplicates(),
        0 <= n < w.len(),
        n < 256,
    ensures
        selected_below(w, sel, n + 1) == selected_below(w, sel, n) + if sel.contains(n as u8) {
            w[n] as int
        } else {
            0
        },
    decreases sel.len(),
{
    if sel.len() > 0 {
        let rest = sel.drop_last();
        let last = sel.last();
        assert(rest.no_duplicates());
        lemma_selected_below_step(w, rest, n);
        if last == n {
            assert(sel[sel.len() - 1] == n as u8);
            if rest.contains(n as u8) {
                let k = choose|k: int| 0 <= k < rest.len() && rest[k] == n as u8;
                assert(sel[k] == sel[sel.len() - 1]);
            }
        } else {
            if sel.contains(n as u8) {
                let k = choose|k: int| 0 <= k < sel.len() && sel[k] == n as u8;
                assert(rest[k] == n as u8);
            }
            if rest.contains(n as u8) {
                let k = choose|k: int| 0 <= k < rest.len() && rest[k] == n as u8;
                assert(sel[k] == n as u8);
            }
        }
    }
}

proof fn lemma_selected_below_bound(w: Seq<u8>, sel: Seq<u8>, n: int)
    requires
        sel.no_duplicates(),
        0 <= n <= w.len() <= 64,
    ensures
        selected_below(w, sel, n) <= widths_sum(w, n),
    decreases n,
{
    if n == 0 {
        lemma_selected_below_all(w, sel);
    } else {
        lemma_selected_below_bound(w, sel, n - 1);
        lemma_selected_below_step(w, sel, n - 1);
    }
}

/// The widths of a selection that names no cell twice add up to no more
/// than the word holds.
pub proof fn law_subset_fits_word(w: Seq<u8>, sel: Seq<u8>)
    requires
        valid_widths(w),
        sel.no_duplicates(),
    ensures
        0 <= selected_sum(w, sel) <= 64,
{
    lemma_selected_below_all(w, sel);
    lemma_selected_below_bound(w, sel, w.len() as int);
    lemma_selected_sum_nonneg(w, sel);
}

/// Construction succeeds on exactly the valid lists of widths.
pub proof fn law_fault_free_iff_valid(w: Seq<u8>)
    ensures
        layout_fault(w) is None <==> valid_widths(w),
{
}

/// The lowest cell starts at bit 0.
pub proof fn law_first_shift_is_zero(w: Seq<u8>)
    ensures
        shift_of(w, 0) == 0,
{
}

/// Each cell starts where the cell below it ends.
pub proof fn law_shift_steps_by_width(w: Seq<u8>, i: u8)
    requires
        i < u8::MAX,
    ensures
        shift_of(w, (i + 1) as u8) == shift_of(w, i) + width_at(w, i),
{
    if i + 1 > w.len() {
        if i > w.len() {
        } else {
            assert(widths_sum(w, i as int) == widths_sum(w, w.len() as int));
        }
    }
}

/// Shifts grow with the cell index, and no cell of a layout ends past bit 64.
pub proof fn law_cells_stay_in_word(w: Seq<u8>, i: u8, j: u8)
    requires
        valid_widths(w),
        i <= j,
    ensures
        shift_of(w, i) <= shift_of(w, j),
        shift_of(w, j) + width_at(w, j) <= 64,
{
    lemma_widths_sum_monotone(w, i as int, j as int);
    lemma_widths_sum_monotone(w, j as int, j + 1);
    if j < u8::MAX {
        law_shift_steps_by_width(w, j);
    }
}

/// The and-mask of a cell has as many bits set as the cell is wide, and
/// they are its lowest bits.
pub proof fn law_and_mask_is_low_bits(w: Seq<u8>, i: u8, b: u64)
    requires
        b < 64,
    ensures
        bit_is_set(and_mask_of(w, i), b) <==> b < width_at(w, i),
{
    let n = width_at(w, i) as u64;
    assert((((if n == 0 {
        0
    } else if n >= 64 {
        u64::MAX
    } else {
        u64::MAX >> ((64 - n) as u64)
    }) >> b) & 1 == 1) <==> b < n) by (bit_vector)
        requires
            b < 64,
            n < 256,
    ;
}

} // verus!
