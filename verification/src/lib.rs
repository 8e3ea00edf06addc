//! Lifecycle state of the erase-units ("pages") of a NOR flash device, and the
//! caches that remember it on behalf of an append-only storage engine.
//!
//! Nothing here touches a device. A query is a small state machine: it names
//! the marker that has to be read next, and is resumed with what the read
//! gave. Whoever owns the device performs the reads.

use core::ops::Range;
use vstd::prelude::*;

pub mod cache;
pub mod marker;
pub mod oracle;

verus! {

/// Size in bytes of the largest minimum read that a marker may take up.
pub const MAX_WORD_SIZE: usize = 32;

/// The lifecycle state of one page.
#[derive(Clone, Copy, Debug, PartialEq, Eq, Structural)]
pub enum PageState {
    /// Fully written and finalized.
    Closed,
    /// Erased and begun, but not yet finalized.
    PartialOpen,
    /// Erased and unused.
    Open,
}

/// Why the state of a page could not be determined.
#[derive(Debug, PartialEq, Eq)]
pub enum Error<S> {
    /// The device failed to read; the value is the device's own error.
    Storage { value: S },
    /// The markers of the page contradict each other.
    Corrupted,
}

/// The two sizes that a flash device publishes, in bytes.
#[derive(Clone, Copy, Debug, PartialEq, Eq, Structural)]
pub struct FlashGeometry {
    /// Smallest number of bytes that the device reads at once.
    pub read_size: usize,
    /// Number of bytes that the device erases at once: the size of a page.
    pub erase_size: usize,
}

impl FlashGeometry {
    /// A marker fits the read buffer, and a page has room for it.
    pub open spec fn supported(self) -> bool {
        self.read_size <= MAX_WORD_SIZE && self.read_size <= self.erase_size
    }

    /// Page `page_index` lies wholly inside `flash_range`.
    pub open spec fn holds_page(self, flash_range: Range<u32>, page_index: usize) -> bool {
        flash_range.start + (page_index + 1) * self.erase_size <= flash_range.end
    }

    /// Tests `supported`.
    pub fn is_supported(&self) -> (ok: bool)
        ensures
            ok == self.supported(),
    {
        self.read_size <= MAX_WORD_SIZE && self.read_size <= self.erase_size
    }

    /// Tests `holds_page`.
    pub fn contains_page(&self, flash_range: &Range<u32>, page_index: usize) -> (ok: bool)
        ensures
            ok == self.holds_page(*flash_range, page_index),
    {
        if flash_range.end < flash_range.start {
            assert(0 <= (page_index + 1) * self.erase_size) by (nonlinear_arith);
            return false;
        }
        let span: usize = (flash_range.end - flash_range.start) as usize;
        if self.erase_size == 0 {
            assert((page_index + 1) * self.erase_size == 0) by (nonlinear_arith)
                requires
                    self.erase_size == 0,
            ;
            return true;
        }
        let pages: usize = span / self.erase_size;
        proof {
            lemma_pages_in_span(span as int, self.erase_size as int, page_index as int);
        }
        page_index < pages
    }
}

/// Page `index` of `size` bytes ends inside `span` bytes exactly when `index`
/// is below the number of whole pages in the span.
proof fn lemma_pages_in_span(span: int, size: int, index: int)
    requires
        0 <= span,
        0 < size,
        0 <= index,
    ensures
        index < span / size <==> (index + 1) * size <= span,
{
    vstd::arithmetic::div_mod::lemma_fundamental_div_mod(span, size);
    vstd::arithmetic::div_mod::lemma_mod_bound(span, size);
    let q: int = span / size;
    assert(size * q == q * size) by (nonlinear_arith);
    if index < q {
        assert((index + 1) * size <= q * size) by (nonlinear_arith)
            requires
                index + 1 <= q,
                0 < size,
        ;
    } else {
        assert((q + 1) * size <= (index + 1) * size) by (nonlinear_arith)
            requires
                q <= index,
                0 < size,
        ;
        assert((q + 1) * size == q * size + size) by (nonlinear_arith);
    }
}

/// Address of the first byte of page `page_index`, as a mathematical integer.
pub open spec fn page_address(flash_range: Range<u32>, erase_size: usize, page_index: usize) -> int {
    flash_range.start + page_index * erase_size
}

/// Computes the address of the first byte of a page from the start of the
/// managed range and the size of an erase-unit.
pub fn calculate_page_address(flash_range: Range<u32>, erase_size: usize, page_index: usize) -> (address: u32)
    requires
        page_address(flash_range, erase_size, page_index) <= u32::MAX,
    ensures
        address == page_address(flash_range, erase_size, page_index),
{
    assert(erase_size * page_index == page_index * erase_size && 0 <= page_index * erase_size)
        by (nonlinear_arith);
    let offset: usize = erase_size * page_index;
    flash_range.start + offset as u32
}

} // verus!
