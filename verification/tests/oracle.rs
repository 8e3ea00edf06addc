use sequential_storage::oracle::{
    begin, conclude_page_state, decide_page_state, find_marker, resume, Awaiting, MarkerRead,
    Probe, Step,
};
use sequential_storage::{Error, FlashGeometry, PageState};

const GEOMETRY: FlashGeometry = FlashGeometry { read_size: 1, erase_size: 256 };

fn start_of<E>(page_index: usize, end_marker: MarkerRead) -> Probe<E> {
    Probe { page_index, awaiting: Awaiting::StartMarker { end_marker } }
}

fn end_of<E>(page_index: usize, start: Result<bool, E>) -> Probe<E> {
    Probe { page_index, awaiting: Awaiting::EndMarker { start } }
}

#[test]
fn decision_table() {
    assert_eq!(decide_page_state::<u8>(true, true), Ok(PageState::Closed));
    assert_eq!(decide_page_state::<u8>(true, false), Ok(PageState::PartialOpen));
    assert_eq!(decide_page_state::<u8>(false, true), Err(Error::Corrupted));
    assert_eq!(decide_page_state::<u8>(false, false), Ok(PageState::Open));
}

#[test]
fn marker_is_found_set_clear_or_unread() {
    assert_eq!(find_marker::<u8>(Ok(&[0xF0])), Ok(true));
    assert_eq!(find_marker::<u8>(Ok(&[0xF8])), Ok(false));
    assert_eq!(find_marker::<u8>(Ok(&[])), Ok(false));
    assert_eq!(find_marker::<u8>(Err(5)), Err(5));
}

#[test]
fn query_is_concluded_from_both_markers() {
    assert_eq!(conclude_page_state::<u8>(Ok(true), Ok(true)), Ok(PageState::Closed));
    assert_eq!(conclude_page_state::<u8>(Ok(true), Ok(false)), Ok(PageState::PartialOpen));
    assert_eq!(conclude_page_state::<u8>(Ok(false), Ok(true)), Err(Error::Corrupted));
    assert_eq!(conclude_page_state::<u8>(Ok(false), Ok(false)), Ok(PageState::Open));
    assert_eq!(conclude_page_state(Err(1u8), Ok(true)), Err(Error::Storage { value: 1 }));
    assert_eq!(conclude_page_state(Ok(false), Err(2u8)), Err(Error::Storage { value: 2 }));
    assert_eq!(conclude_page_state(Err(1u8), Err(2u8)), Err(Error::Storage { value: 1 }));
}

#[test]
fn oracle_begins_with_the_start_marker() {
    let step: Step<u8> = begin(GEOMETRY, 0x00..0x400, 2);
    assert_eq!(
        step,
        Step::Read {
            read: MarkerRead { address: 512, len: 1 },
            probe: start_of(2, MarkerRead { address: 767, len: 1 }),
        }
    );
}

#[test]
fn end_marker_ends_where_the_page_ends() {
    let geometry = FlashGeometry { read_size: 4, erase_size: 4096 };
    let step: Step<u8> = begin(geometry, 0x1000..0x4000, 1);
    assert_eq!(
        step,
        Step::Read {
            read: MarkerRead { address: 0x2000, len: 4 },
            probe: start_of(1, MarkerRead { address: 0x2FFC, len: 4 }),
        }
    );
}

#[test]
fn markers_coincide_when_a_page_is_one_word() {
    let geometry = FlashGeometry { read_size: 32, erase_size: 32 };
    let step: Step<u8> = begin(geometry, 0x40..0x80, 1);
    assert_eq!(
        step,
        Step::Read {
            read: MarkerRead { address: 0x60, len: 32 },
            probe: start_of(1, MarkerRead { address: 0x60, len: 32 }),
        }
    );
}

#[test]
fn last_page_below_the_top_of_the_address_space() {
    let step: Step<u8> = begin(GEOMETRY, 0xFFFF_FD00..0xFFFF_FFFF, 1);
    assert_eq!(
        step,
        Step::Read {
            read: MarkerRead { address: 0xFFFF_FE00, len: 1 },
            probe: start_of(1, MarkerRead { address: 0xFFFF_FEFF, len: 1 }),
        }
    );
}

#[test]
fn start_marker_is_followed_by_the_end_marker() {
    let end_marker = MarkerRead { address: 767, len: 1 };
    let clear: Step<u8> = resume(start_of(2, end_marker), Ok(&[0xFF]));
    assert_eq!(clear, Step::Read { read: end_marker, probe: end_of(2, Ok(false)) });
    let set: Step<u8> = resume(start_of(2, end_marker), Ok(&[0x00]));
    assert_eq!(set, Step::Read { read: end_marker, probe: end_of(2, Ok(true)) });
}

#[test]
fn both_markers_clear_is_open() {
    let step: Step<u8> = resume(end_of(0, Ok(false)), Ok(&[0xFF]));
    assert_eq!(step, Step::Done(Ok(PageState::Open)));
}

#[test]
fn only_start_marker_set_is_partial_open() {
    let step: Step<u8> = resume(end_of(0, Ok(true)), Ok(&[0xFF]));
    assert_eq!(step, Step::Done(Ok(PageState::PartialOpen)));
}

#[test]
fn both_markers_set_is_closed() {
    let step: Step<u8> = resume(end_of(0, Ok(true)), Ok(&[0x00]));
    assert_eq!(step, Step::Done(Ok(PageState::Closed)));
}

#[test]
fn only_end_marker_set_is_corrupted() {
    let step: Step<u8> = resume(end_of(0, Ok(false)), Ok(&[0x00]));
    assert_eq!(step, Step::Done(Err(Error::Corrupted)));
}

#[test]
fn half_written_markers_count_as_set() {
    let step: Step<u8> = resume(end_of(0, Ok(true)), Ok(&[0xF0]));
    assert_eq!(step, Step::Done(Ok(PageState::Closed)));
    let step: Step<u8> = resume(end_of(0, Ok(true)), Ok(&[0xF8]));
    assert_eq!(step, Step::Done(Ok(PageState::PartialOpen)));
}

#[test]
fn failed_read_of_the_start_marker_is_followed_by_the_end_marker() {
    let end_marker = MarkerRead { address: 255, len: 1 };
    let step: Step<u8> = resume(start_of(0, end_marker), Err(17));
    assert_eq!(step, Step::Read { read: end_marker, probe: end_of(0, Err(17)) });
}

#[test]
fn failed_read_of_the_start_marker_is_a_storage_error() {
    // Whatever the end marker reads as, the query ends with the first failure.
    let step: Step<u8> = resume(end_of(0, Err(17)), Ok(&[0xFF]));
    assert_eq!(step, Step::Done(Err(Error::Storage { value: 17 })));
    let step: Step<u8> = resume(end_of(0, Err(17)), Ok(&[0x00]));
    assert_eq!(step, Step::Done(Err(Error::Storage { value: 17 })));
}

#[test]
fn failed_read_of_the_end_marker_is_a_storage_error() {
    let step: Step<&str> = resume(end_of(0, Ok(true)), Err("bus fault"));
    assert_eq!(step, Step::Done(Err(Error::Storage { value: "bus fault" })));
    let step: Step<&str> = resume(end_of(0, Ok(false)), Err("bus fault"));
    assert_eq!(step, Step::Done(Err(Error::Storage { value: "bus fault" })));
}

#[test]
fn first_failure_is_reported_when_both_reads_fail() {
    let step: Step<u8> = resume(end_of(0, Err(17)), Err(18));
    assert_eq!(step, Step::Done(Err(Error::Storage { value: 17 })));
}
