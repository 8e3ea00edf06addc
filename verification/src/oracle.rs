//! The page state oracle: what the two markers of a page say about it.
//!
//! The oracle reads the marker at the start of the page, then the marker at
//! its end, and decides:
//!
//! | start | end   | result        |
//! |-------|-------|---------------|
//! | set   | set   | `Closed`      |
//! | set   | clear | `PartialOpen` |
//! | clear | set   | corrupted     |
//! | clear | clear | `Open`        |
//!
//! The start marker is always written before the end marker, so an end marker
//! without a start marker is what an interrupted erase leaves behind.
//!
//! The oracle always reads exactly twice. Where the device fails to read the
//! start marker, the end marker is read all the same, and the query then ends
//! with the failure of the start marker; where only the end marker fails, with
//! that one.
//!
//! The oracle never reads by itself. [`begin`] and [`resume`] say which read
//! comes next; the caller performs it and hands the outcome back.

use crate::marker::{is_marked, marker_is_set};
use crate::{calculate_page_address, page_address, Error, FlashGeometry, PageState};
use core::ops::Range;
use vstd::prelude::*;

verus! {

/// One read of a marker: `len` bytes starting at `address`.
#[derive(Clone, Copy, Debug, PartialEq, Eq, Structural)]
pub struct MarkerRead {
    pub address: u32,
    pub len: usize,
}

/// The marker that a probe is waiting for.
#[derive(Debug, PartialEq, Eq)]
pub enum Awaiting<E> {
    /// The marker at the start of the page; the one at its end comes next.
    StartMarker { end_marker: MarkerRead },
    /// The marker at the end of the page. `start` is what the read of the
    /// start marker gave: whether the marker is set, or the device's error.
    EndMarker { start: Result<bool, E> },
}

/// A query for the state of a page that waits for a read of the device.
#[derive(Debug, PartialEq, Eq)]
pub struct Probe<E> {
    /// The page that is being asked about.
    pub page_index: usize,
    pub awaiting: Awaiting<E>,
}

/// Where a query for the state of a page stands.
#[derive(Debug, PartialEq, Eq)]
pub enum Step<E> {
    /// The device has to perform `read`; `probe` is resumed with its outcome.
    Read { read: MarkerRead, probe: Probe<E> },
    /// The query is over.
    Done(Result<PageState, Error<E>>),
}

/// The read of the marker at the start of a page.
pub open spec fn start_marker(
    geometry: FlashGeometry,
    flash_range: Range<u32>,
    page_index: usize,
) -> MarkerRead {
    MarkerRead {
        address: page_address(flash_range, geometry.erase_size, page_index) as u32,
        len: geometry.read_size,
    }
}

/// The read of the marker that ends exactly where the page ends.
pub open spec fn end_marker(
    geometry: FlashGeometry,
    flash_range: Range<u32>,
    page_index: usize,
) -> MarkerRead {
    MarkerRead {
        address: (page_address(flash_range, geometry.erase_size, page_index) + geometry.erase_size
            - geometry.read_size) as u32,
        len: geometry.read_size,
    }
}

/// The decision table over the two markers.
pub open spec fn page_state_from_markers<E>(start_marked: bool, end_marked: bool) -> Result<
    PageState,
    Error<E>,
> {
    if start_marked {
        if end_marked {
            Ok(PageState::Closed)
        } else {
            Ok(PageState::PartialOpen)
        }
    } else {
        if end_marked {
            Err(Error::Corrupted)
        } else {
            Ok(PageState::Open)
        }
    }
}

/// The first step of the oracle on a page.
pub open spec fn began<E>(geometry: FlashGeometry, flash_range: Range<u32>, page_index: usize) -> Step<
    E,
> {
    Step::Read {
        read: start_marker(geometry, flash_range, page_index),
        probe: Probe {
            page_index,
            awaiting: Awaiting::StartMarker {
                end_marker: end_marker(geometry, flash_range, page_index),
            },
        },
    }
}

/// What the read of a marker says of it: whether it is set, or the device's
/// error.
pub open spec fn marker_found<E>(outcome: Result<Seq<u8>, E>) -> Result<bool, E> {
    match outcome {
        Ok(bytes) => Ok(is_marked(bytes)),
        Err(value) => Err(value),
    }
}

/// The end of a query, from what the reads of the two markers said. A failed
/// read is a storage error, and the failure of the start marker comes before
/// that of the end marker; otherwise the decision table gives the result.
pub open spec fn page_state_found<E>(start: Result<bool, E>, end: Result<bool, E>) -> Result<
    PageState,
    Error<E>,
> {
    match start {
        Err(value) => Err(Error::Storage { value }),
        Ok(start_marked) => match end {
            Err(value) => Err(Error::Storage { value }),
            Ok(end_marked) => page_state_from_markers(start_marked, end_marked),
        },
    }
}

/// The step that follows when the read that `probe` waited for ended in
/// `outcome`. After the start marker, read or not, comes the read of the end
/// marker; after the end marker the query is over.
pub open spec fn resumed<E>(probe: Probe<E>, outcome: Result<Seq<u8>, E>) -> Step<E> {
    match probe.awaiting {
        Awaiting::StartMarker { end_marker } => Step::Read {
            read: end_marker,
            probe: Probe {
                page_index: probe.page_index,
                awaiting: Awaiting::EndMarker { start: marker_found(outcome) },
            },
        },
        Awaiting::EndMarker { start } => Step::Done(page_state_found(start, marker_found(outcome))),
    }
}

/// What a read gave, with the bytes as a sequence.
pub open spec fn outcome_view<E>(outcome: Result<&[u8], E>) -> Result<Seq<u8>, E> {
    match outcome {
        Ok(bytes) => Ok(bytes@),
        Err(value) => Err(value),
    }
}

impl<E> Step<E> {
    /// The number of reads that are still to come before the query is over.
    pub open spec fn reads_left(self) -> nat {
        match self {
            Step::Done(_) => 0,
            Step::Read { read, probe } => match probe.awaiting {
                Awaiting::StartMarker { .. } => 2,
                Awaiting::EndMarker { .. } => 1,
            },
        }
    }
}

/// Applies the decision table to the two markers.
pub fn decide_page_state<E>(start_marked: bool, end_marked: bool) -> (result: Result<
    PageState,
    Error<E>,
>)
    ensures
        result == page_state_from_markers::<E>(start_marked, end_marked),
{
    match (start_marked, end_marked) {
        (true, true) => Ok(PageState::Closed),
        (true, false) => Ok(PageState::PartialOpen),
        (false, true) => Err(Error::Corrupted),
        (false, false) => Ok(PageState::Open),
    }
}

/// Starts the oracle on a page: asks for the marker at its start.
pub fn begin<E>(geometry: FlashGeometry, flash_range: Range<u32>, page_index: usize) -> (step: Step<E>)
    requires
        geometry.supported(),
        geometry.holds_page(flash_range, page_index),
    ensures
        step == began::<E>(geometry, flash_range, page_index),
{
    proof {
        lemma_page_inside_range(geometry, flash_range, page_index);
    }
    let page_address: u32 = calculate_page_address(flash_range, geometry.erase_size, page_index);
    let last_word: usize = geometry.erase_size - geometry.read_size;
    Step::Read {
        read: MarkerRead { address: page_address, len: geometry.read_size },
        probe: Probe {
            page_index,
            awaiting: Awaiting::StartMarker {
                end_marker: MarkerRead {
                    address: page_address + last_word as u32,
                    len: geometry.read_size,
                },
            },
        },
    }
}

/// Says of a marker what its read gave: whether it is set, or the device's
/// error.
pub fn find_marker<E>(outcome: Result<&[u8], E>) -> (found: Result<bool, E>)
    ensures
        found == marker_found(outcome_view(outcome)),
{
    match outcome {
        Ok(bytes) => Ok(marker_is_set(bytes)),
        Err(value) => Err(value),
    }
}

/// Ends a query from what the reads of the two markers said.
pub fn conclude_page_state<E>(start: Result<bool, E>, end: Result<bool, E>) -> (result: Result<
    PageState,
    Error<E>,
>)
    ensures
        result == page_state_found(start, end),
{
    match start {
        Err(value) => Err(Error::Storage { value }),
        Ok(start_marked) => match end {
            Err(value) => Err(Error::Storage { value }),
            Ok(end_marked) => decide_page_state(start_marked, end_marked),
        },
    }
}

/// Takes the outcome of the read that `probe` waited for and says what comes
/// next: after the start marker the read of the end marker, whether or not
/// the start marker could be read; after the end marker the state of the
/// page, or the failure.
pub fn resume<E>(probe: Probe<E>, outcome: Result<&[u8], E>) -> (step: Step<E>)
    ensures
        step == resumed(probe, outcome_view(outcome)),
{
    let found: Result<bool, E> = find_marker(outcome);
    match probe.awaiting {
        Awaiting::StartMarker { end_marker } => Step::Read {
            read: end_marker,
            probe: Probe {
                page_index: probe.page_index,
                awaiting: Awaiting::EndMarker { start: found },
            },
        },
        Awaiting::EndMarker { start } => Step::Done(conclude_page_state(start, found)),
    }
}

/// How a query ended, and how many reads of the device it took.
pub struct Outcome<E> {
    pub result: Result<PageState, Error<E>>,
    pub reads: nat,
}

/// Carries a query to its end against a device that answers each read as
/// `device` says: every read that a step asks for is performed and handed
/// back, until a step is `Done`.
pub open spec fn driven<E>(step: Step<E>, device: spec_fn(MarkerRead) -> Result<Seq<u8>, E>) -> Outcome<
    E,
>
    decreases step.reads_left(),
{
    match step {
        Step::Done(result) => Outcome { result, reads: 0 },
        Step::Read { read, probe } => {
            let rest = driven(resumed(probe, device(read)), device);
            Outcome { result: rest.result, reads: rest.reads + 1 }
        },
    }
}

/// What the oracle finds on a page of `device`.
pub open spec fn probed<E>(
    device: spec_fn(MarkerRead) -> Result<Seq<u8>, E>,
    geometry: FlashGeometry,
    flash_range: Range<u32>,
    page_index: usize,
) -> Outcome<E> {
    driven(began(geometry, flash_range, page_index), device)
}

/// The oracle in one formula. It always reads exactly twice, the start marker
/// and the end marker. A failed read ends the query with the device's error,
/// that of the start marker where both fail. Otherwise the decision table
/// gives the result.
pub proof fn probed_page_state<E>(
    device: spec_fn(MarkerRead) -> Result<Seq<u8>, E>,
    geometry: FlashGeometry,
    flash_range: Range<u32>,
    page_index: usize,
)
    ensures
        probed(device, geometry, flash_range, page_index) == match device(
            start_marker(geometry, flash_range, page_index),
        ) {
            Err(value) => Outcome { result: Err(Error::Storage { value }), reads: 2 },
            Ok(start) => match device(end_marker(geometry, flash_range, page_index)) {
                Err(value) => Outcome { result: Err(Error::Storage { value }), reads: 2 },
                Ok(end) => Outcome {
                    result: page_state_from_markers(is_marked(start), is_marked(end)),
                    reads: 2,
                },
            },
        },
{
    reveal_with_fuel(driven, 3);
}

/// From any step on, the reads that a query still takes are fixed by the
/// step alone; no outcome of a read shortens or lengthens it.
pub proof fn reads_are_fixed_by_the_step<E>(
    step: Step<E>,
    device: spec_fn(MarkerRead) -> Result<Seq<u8>, E>,
)
    ensures
        driven(step, device).reads == step.reads_left(),
{
    reveal_with_fuel(driven, 3);
}

/// The oracle performs exactly two reads on every device, whether its reads
/// succeed or fail.
pub proof fn oracle_reads_twice<E>(
    device: spec_fn(MarkerRead) -> Result<Seq<u8>, E>,
    geometry: FlashGeometry,
    flash_range: Range<u32>,
    page_index: usize,
)
    ensures
        probed(device, geometry, flash_range, page_index).reads == 2,
{
    probed_page_state(device, geometry, flash_range, page_index);
}

/// While a query lasts, every step asks for a read: the start marker is
/// followed by the read of the end marker whatever its own read gave, and
/// only the end marker ends the query.
pub proof fn start_marker_is_followed_by_end_marker<E>(
    page_index: usize,
    end_marker: MarkerRead,
    outcome: Result<Seq<u8>, E>,
)
    ensures
        resumed(Probe { page_index, awaiting: Awaiting::StartMarker { end_marker } }, outcome)
            matches Step::Read { read, probe } && read == end_marker && probe.page_index
            == page_index && probe.awaiting is EndMarker,
{
}

/// A page whose two markers both read below the threshold is `Open`.
pub proof fn unmarked_page_is_open<E>(
    device: spec_fn(MarkerRead) -> Result<Seq<u8>, E>,
    geometry: FlashGeometry,
    flash_range: Range<u32>,
    page_index: usize,
)
    requires
        device(start_marker(geometry, flash_range, page_index)) matches Ok(start) && !is_marked(
            start,
        ),
        device(end_marker(geometry, flash_range, page_index)) matches Ok(end) && !is_marked(end),
    ensures
        probed(device, geometry, flash_range, page_index).result == Ok::<PageState, Error<E>>(
            PageState::Open,
        ),
{
    probed_page_state(device, geometry, flash_range, page_index);
}

/// A page whose start marker is set and whose end marker is not is
/// `PartialOpen`.
pub proof fn start_marked_page_is_partial_open<E>(
    device: spec_fn(MarkerRead) -> Result<Seq<u8>, E>,
    geometry: FlashGeometry,
    flash_range: Range<u32>,
    page_index: usize,
)
    requires
        device(start_marker(geometry, flash_range, page_index)) matches Ok(start) && is_marked(
            start,
        ),
        device(end_marker(geometry, flash_range, page_index)) matches Ok(end) && !is_marked(end),
    ensures
        probed(device, geometry, flash_range, page_index).result == Ok::<PageState, Error<E>>(
            PageState::PartialOpen,
        ),
{
    probed_page_state(device, geometry, flash_range, page_index);
}

/// A page both of whose markers are set is `Closed`.
pub proof fn marked_page_is_closed<E>(
    device: spec_fn(MarkerRead) -> Result<Seq<u8>, E>,
    geometry: FlashGeometry,
    flash_range: Range<u32>,
    page_index: usize,
)
    requires
        device(start_marker(geometry, flash_range, page_index)) matches Ok(start) && is_marked(
            start,
        ),
        device(end_marker(geometry, flash_range, page_index)) matches Ok(end) && is_marked(end),
    ensures
        probed(device, geometry, flash_range, page_index).result == Ok::<PageState, Error<E>>(
            PageState::Closed,
        ),
{
    probed_page_state(device, geometry, flash_range, page_index);
}

/// A page whose end marker is set while its start marker is not is reported
/// as corrupted, and never as a state.
pub proof fn end_marked_page_is_corrupted<E>(
    device: spec_fn(MarkerRead) -> Result<Seq<u8>, E>,
    geometry: FlashGeometry,
    flash_range: Range<u32>,
    page_index: usize,
)
    requires
        device(start_marker(geometry, flash_range, page_index)) matches Ok(start) && !is_marked(
            start,
        ),
        device(end_marker(geometry, flash_range, page_index)) matches Ok(end) && is_marked(end),
    ensures
        probed(device, geometry, flash_range, page_index).result == Err::<PageState, Error<E>>(
            Error::Corrupted,
        ),
{
    probed_page_state(device, geometry, flash_range, page_index);
}

/// A page inside the range starts and ends at addresses that fit `u32`.
proof fn lemma_page_inside_range(geometry: FlashGeometry, flash_range: Range<u32>, page_index: usize)
    requires
        geometry.holds_page(flash_range, page_index),
    ensures
        0 <= page_index * geometry.erase_size,
        page_address(flash_range, geometry.erase_size, page_index) + geometry.erase_size
            <= flash_range.end,
{
    assert((page_index + 1) * geometry.erase_size == page_index * geometry.erase_size
        + geometry.erase_size && 0 <= page_index * geometry.erase_size) by (nonlinear_arith);
}

} // verus!
