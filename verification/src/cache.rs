//! Strategies for remembering the state of pages between queries.
//!
//! Finding out the state of a page costs two reads of the device. A cache
//! spares them where the state is already known: [`NoCache`] remembers
//! nothing, [`PageStateCache`] keeps one slot for every page.
//!
//! A query runs in steps, as the oracle does: `get_page_state` either answers
//! at once from memory or asks for the first read, and `resume_page_state`
//! takes the outcome of each read. A query that goes to the device always
//! takes exactly two reads.

use crate::oracle::{
    began, begin, outcome_view, probed, probed_page_state, resume, resumed, MarkerRead, Outcome,
    Probe, Step,
};
use crate::{Error, FlashGeometry, PageState};
use core::ops::Range;
use vstd::prelude::*;

verus! {

/// What a cache strategy offers to the storage engine.
pub trait Cache: StateQuery {

}

impl<T: StateQuery> Cache for T {

}

/// The operations of a cache strategy.
///
/// The contracts here say what holds of every strategy; each strategy says
/// of its own methods exactly what they do.
pub trait StateQuery: Sized {
    /// The advisory flag: a state was asserted without a read that confirms it.
    spec fn dirty(&self) -> bool;

    /// The state that is remembered for a page, if any.
    spec fn known_state(&self, page_index: usize) -> Option<PageState>;

    /// Whether the strategy can be asked about page `page_index`.
    spec fn covers(&self, page_index: usize) -> bool;

    /// Tests `covers`.
    fn covers_page(&self, page_index: usize) -> (covered: bool)
        ensures
            covered == self.covers(page_index),
    ;

    /// Looks up the state that is remembered for a page, without a read.
    fn remembered_state(&self, page_index: usize) -> (state: Option<PageState>)
        requires
            self.covers(page_index),
        ensures
            state == self.known_state(page_index),
    ;

    /// Forgets every remembered state and clears the dirty flag.
    fn invalidate_cache_state(&mut self)
        ensures
            !final(self).dirty(),
            forall|page_index: usize| final(self).known_state(page_index) is None,
            forall|page_index: usize| final(self).covers(page_index) == old(self).covers(page_index),
    ;

    /// Raises the dirty flag, where the strategy keeps one.
    fn mark_dirty(&mut self)
        ensures
            forall|page_index: usize|
                final(self).known_state(page_index) == old(self).known_state(page_index),
            forall|page_index: usize| final(self).covers(page_index) == old(self).covers(page_index),
    ;

    /// Clears the dirty flag.
    fn unmark_dirty(&mut self)
        ensures
            !final(self).dirty(),
            forall|page_index: usize|
                final(self).known_state(page_index) == old(self).known_state(page_index),
            forall|page_index: usize| final(self).covers(page_index) == old(self).covers(page_index),
    ;

    /// Reads the dirty flag.
    fn is_dirty(&self) -> (dirty: bool)
        ensures
            dirty == self.dirty(),
    ;

    /// Tells the strategy that page `page_index` has just been brought into
    /// `new_state`. A strategy without memory ignores it.
    fn notice_page_state(&mut self, page_index: usize, new_state: PageState)
        requires
            old(self).covers(page_index),
        ensures
            final(self).known_state(page_index) == old(self).known_state(page_index)
                || final(self).known_state(page_index) == Some(new_state),
            forall|other: usize|
                other != page_index ==> final(self).known_state(other) == old(self).known_state(
                    other,
                ),
            forall|other: usize| final(self).covers(other) == old(self).covers(other),
        default_ensures
            *final(self) == *old(self),
    {
    }

    /// Asks for the state of page `page_index`. A remembered state is the
    /// answer, whatever the flash looks like; a strategy that remembers
    /// nothing for the page starts the oracle, which needs a flash it
    /// supports and a page inside the range.
    fn get_page_state<E>(
        &mut self,
        geometry: FlashGeometry,
        flash_range: Range<u32>,
        page_index: usize,
    ) -> (step: Step<E>)
        requires
            old(self).covers(page_index),
            old(self).known_state(page_index) is None ==> geometry.supported()
                && geometry.holds_page(flash_range, page_index),
        ensures
            *final(self) == *old(self),
            step == (match old(self).known_state(page_index) {
                Some(state) => Step::<E>::Done(Ok(state)),
                None => began::<E>(geometry, flash_range, page_index),
            }),
    {
        match self.remembered_state(page_index) {
            Some(state) => Step::Done(Ok(state)),
            None => begin(geometry, flash_range, page_index),
        }
    }

    /// Continues a query with the outcome of the read that it asked for. The
    /// step is the oracle's; a strategy with memory remembers the state that
    /// the oracle found.
    fn resume_page_state<E>(&mut self, probe: Probe<E>, outcome: Result<&[u8], E>) -> (step: Step<
        E,
    >)
        requires
            old(self).covers(probe.page_index),
        ensures
            step == resumed(probe, outcome_view(outcome)),
            final(self).dirty() == old(self).dirty(),
            final(self).known_state(probe.page_index) == old(self).known_state(probe.page_index)
                || (step matches Step::Done(Ok(state)) && final(self).known_state(probe.page_index)
                == Some(state)),
            forall|other: usize|
                other != probe.page_index ==> final(self).known_state(other) == old(
                    self,
                ).known_state(other),
            forall|other: usize| final(self).covers(other) == old(self).covers(other),
        default_ensures
            *final(self) == *old(self),
    {
        resume(probe, outcome)
    }
}

/// The strategy without memory: every query goes to the oracle.
#[derive(Debug)]
pub struct NoCache;

impl StateQuery for NoCache {
    open spec fn dirty(&self) -> bool {
        false
    }

    open spec fn known_state(&self, page_index: usize) -> Option<PageState> {
        None
    }

    open spec fn covers(&self, page_index: usize) -> bool {
        true
    }

    fn covers_page(&self, page_index: usize) -> (covered: bool) {
        true
    }

    fn remembered_state(&self, page_index: usize) -> (state: Option<PageState>) {
        None
    }

    fn invalidate_cache_state(&mut self) {
    }

    fn mark_dirty(&mut self) {
    }

    fn unmark_dirty(&mut self) {
    }

    fn is_dirty(&self) -> (dirty: bool) {
        false
    }
}

/// The dirty flag alone.
struct DirtyCache {
    dirty: bool,
}

impl StateQuery for DirtyCache {
    closed spec fn dirty(&self) -> bool {
        self.dirty
    }

    closed spec fn known_state(&self, page_index: usize) -> Option<PageState> {
        None
    }

    closed spec fn covers(&self, page_index: usize) -> bool {
        true
    }

    fn covers_page(&self, page_index: usize) -> (covered: bool) {
        true
    }

    fn remembered_state(&self, page_index: usize) -> (state: Option<PageState>) {
        None
    }

    fn invalidate_cache_state(&mut self) {
        self.dirty = false;
    }

    fn mark_dirty(&mut self)
        ensures
            final(self).dirty(),
    {
        self.dirty = true;
    }

    fn unmark_dirty(&mut self) {
        self.dirty = false;
    }

    fn is_dirty(&self) -> (dirty: bool) {
        self.dirty
    }
}

/// What a [`PageStateCache`] holds: the dirty flag, and for each page the
/// state that is remembered for it, if any.
pub struct CacheState {
    pub dirty: bool,
    pub pages: Seq<Option<PageState>>,
}

impl CacheState {
    /// A cache of `page_count` pages that remembers nothing.
    pub open spec fn empty(page_count: nat) -> CacheState {
        CacheState { dirty: false, pages: Seq::new(page_count, |i: int| None) }
    }

    /// The state that is remembered for a page.
    pub open spec fn known(self, page_index: int) -> Option<PageState> {
        if 0 <= page_index < self.pages.len() {
            self.pages[page_index]
        } else {
            None
        }
    }

    /// After `invalidate_cache_state`.
    pub open spec fn invalidated(self) -> CacheState {
        CacheState::empty(self.pages.len())
    }

    /// The same memory with the dirty flag set to `dirty`.
    pub open spec fn with_dirty(self, dirty: bool) -> CacheState {
        CacheState { dirty, pages: self.pages }
    }

    /// The same cache with `state` remembered for a page.
    pub open spec fn remembering(self, page_index: int, state: PageState) -> CacheState {
        CacheState { dirty: self.dirty, pages: self.pages.update(page_index, Some(state)) }
    }

    /// After `notice_page_state`.
    pub open spec fn noticed(self, page_index: int, state: PageState) -> CacheState {
        self.with_dirty(true).remembering(page_index, state)
    }

    /// The first step of a query: the remembered state, or the oracle's
    /// first read.
    pub open spec fn queried<E>(
        self,
        geometry: FlashGeometry,
        flash_range: Range<u32>,
        page_index: usize,
    ) -> Step<E> {
        match self.known(page_index as int) {
            Some(state) => Step::Done(Ok(state)),
            None => began(geometry, flash_range, page_index),
        }
    }

    /// The cache after a resumed query came to `step`: a state that the
    /// oracle found is remembered, and nothing else changes.
    pub open spec fn settled<E>(self, page_index: int, step: Step<E>) -> CacheState {
        match step {
            Step::Done(Ok(state)) => self.remembering(page_index, state),
            _ => self,
        }
    }

    /// Carries a query to its end against a device that answers each read as
    /// `device` says. Gives the cache as the query leaves it, and how the
    /// query ended.
    pub open spec fn driven<E>(
        self,
        step: Step<E>,
        device: spec_fn(MarkerRead) -> Result<Seq<u8>, E>,
    ) -> (CacheState, Outcome<E>)
        decreases step.reads_left(),
    {
        match step {
            Step::Done(result) => (self, Outcome { result, reads: 0 }),
            Step::Read { read, probe } => {
                let next = resumed(probe, device(read));
                let (cache, rest) = self.settled(probe.page_index as int, next).driven(next, device);
                (cache, Outcome { result: rest.result, reads: rest.reads + 1 })
            },
        }
    }

    /// Every remembered state is the one that the oracle finds on `device`.
    pub open spec fn agrees_with<E>(
        self,
        device: spec_fn(MarkerRead) -> Result<Seq<u8>, E>,
        geometry: FlashGeometry,
        flash_range: Range<u32>,
    ) -> bool {
        forall|page_index: usize|
            (#[trigger] self.known(page_index as int)) matches Some(state) ==> probed(
                device,
                geometry,
                flash_range,
                page_index,
            ).result == Ok::<PageState, Error<E>>(state)
    }

    /// A whole query for the state of a page of `device`.
    pub open spec fn asked<E>(
        self,
        device: spec_fn(MarkerRead) -> Result<Seq<u8>, E>,
        geometry: FlashGeometry,
        flash_range: Range<u32>,
        page_index: usize,
    ) -> (CacheState, Outcome<E>) {
        self.driven(self.queried(geometry, flash_range, page_index), device)
    }
}

/// One empty slot for each of `PAGE_COUNT` pages.
fn empty_slots<const PAGE_COUNT: usize>() -> (slots: [Option<PageState>; PAGE_COUNT])
    ensures
        slots@ == CacheState::empty(PAGE_COUNT as nat).pages,
{
    let slots: [Option<PageState>; PAGE_COUNT] = [None; PAGE_COUNT];
    proof {
        // What `[None; PAGE_COUNT]` holds is known of vstd's name for it.
        let filled = vstd::array::spec_array_fill_for_copy_type::<Option<PageState>, PAGE_COUNT>(None);
        assert(slots == filled);
        assert(slots@ =~= CacheState::empty(PAGE_COUNT as nat).pages);
    }
    slots
}

/// The strategy that remembers the state of each of `PAGE_COUNT` pages.
///
/// A slot is filled by the first query for its page and by
/// `notice_page_state`, and emptied only by `invalidate_cache_state`.
pub struct PageStateCache<const PAGE_COUNT: usize> {
    dirty_cache: DirtyCache,
    pages: [Option<PageState>; PAGE_COUNT],
}

impl<const PAGE_COUNT: usize> View for PageStateCache<PAGE_COUNT> {
    type V = CacheState;

    closed spec fn view(&self) -> CacheState {
        CacheState { dirty: self.dirty_cache.dirty, pages: self.pages@ }
    }
}

impl<const PAGE_COUNT: usize> PageStateCache<PAGE_COUNT> {
    /// A cache that remembers nothing and is not dirty.
    pub fn new() -> (cache: Self)
        ensures
            cache@ == CacheState::empty(PAGE_COUNT as nat),
    {
        Self { dirty_cache: DirtyCache { dirty: false }, pages: empty_slots() }
    }

    /// A cache holds exactly one slot for each of its `PAGE_COUNT` pages,
    /// whatever has been done to it.
    pub proof fn one_slot_per_page(&self)
        ensures
            self@.pages.len() == PAGE_COUNT,
    {
    }
}

impl<const PAGE_COUNT: usize> Default for PageStateCache<PAGE_COUNT> {
    fn default() -> (cache: Self)
        ensures
            cache@ == CacheState::empty(PAGE_COUNT as nat),
    {
        Self::new()
    }
}

impl<const PAGE_COUNT: usize> StateQuery for PageStateCache<PAGE_COUNT> {
    open spec fn dirty(&self) -> bool {
        self@.dirty
    }

    open spec fn known_state(&self, page_index: usize) -> Option<PageState> {
        self@.known(page_index as int)
    }

    open spec fn covers(&self, page_index: usize) -> bool {
        page_index < PAGE_COUNT
    }

    fn covers_page(&self, page_index: usize) -> (covered: bool) {
        page_index < PAGE_COUNT
    }

    fn remembered_state(&self, page_index: usize) -> (state: Option<PageState>) {
        self.pages[page_index]
    }

    fn invalidate_cache_state(&mut self)
        ensures
            final(self)@ == old(self)@.invalidated(),
    {
        self.dirty_cache.invalidate_cache_state();
        self.pages = empty_slots();
    }

    fn mark_dirty(&mut self)
        ensures
            final(self)@ == old(self)@.with_dirty(true),
    {
        self.dirty_cache.mark_dirty();
    }

    fn unmark_dirty(&mut self)
        ensures
            final(self)@ == old(self)@.with_dirty(false),
    {
        self.dirty_cache.unmark_dirty();
    }

    fn is_dirty(&self) -> (dirty: bool) {
        self.dirty_cache.is_dirty()
    }

    fn notice_page_state(&mut self, page_index: usize, new_state: PageState)
        ensures
            final(self)@ == old(self)@.noticed(page_index as int, new_state),
    {
        self.mark_dirty();
        self.pages[page_index] = Some(new_state);
    }

    fn get_page_state<E>(
        &mut self,
        geometry: FlashGeometry,
        flash_range: Range<u32>,
        page_index: usize,
    ) -> (step: Step<E>)
        ensures
            step == old(self)@.queried::<E>(geometry, flash_range, page_index),
    {
        match self.pages[page_index] {
            Some(state) => Step::Done(Ok(state)),
            None => begin(geometry, flash_range, page_index),
        }
    }

    fn resume_page_state<E>(&mut self, probe: Probe<E>, outcome: Result<&[u8], E>) -> (step: Step<
        E,
    >)
        ensures
            final(self)@ == old(self)@.settled(probe.page_index as int, step),
    {
        let page_index: usize = probe.page_index;
        let step: Step<E> = resume(probe, outcome);
        if let Step::Done(Ok(state)) = &step {
            self.pages[page_index] = Some(*state);
        }
        step
    }
}

/// A query in one formula. A remembered state is the answer, and costs no
/// read. Otherwise the answer and the two reads are the oracle's, and a
/// state that the oracle found is remembered from then on; a failure changes
/// nothing.
pub proof fn asked_page_state<E>(
    cache: CacheState,
    device: spec_fn(MarkerRead) -> Result<Seq<u8>, E>,
    geometry: FlashGeometry,
    flash_range: Range<u32>,
    page_index: usize,
)
    ensures
        cache.asked(device, geometry, flash_range, page_index) == match cache.known(
            page_index as int,
        ) {
            Some(state) => (cache, Outcome { result: Ok(state), reads: 0 }),
            None => {
                let found = probed(device, geometry, flash_range, page_index);
                (cache.settled(page_index as int, Step::Done(found.result)), found)
            },
        },
{
    reveal_with_fuel(CacheState::driven, 3);
    reveal_with_fuel(crate::oracle::driven, 3);
}

/// A query that fails, by a read or on a corrupted page, leaves the cache as
/// it was: nothing is remembered for the page, and the next query starts
/// from scratch.
pub proof fn failed_query_changes_nothing<E>(
    cache: CacheState,
    device: spec_fn(MarkerRead) -> Result<Seq<u8>, E>,
    geometry: FlashGeometry,
    flash_range: Range<u32>,
    page_index: usize,
)
    requires
        cache.asked(device, geometry, flash_range, page_index).1.result is Err,
    ensures
        cache.asked(device, geometry, flash_range, page_index).0 == cache,
        cache.known(page_index as int) is None,
{
    asked_page_state(cache, device, geometry, flash_range, page_index);
}

/// Idempotence. After a query that found a state, the same query reads
/// nothing, whatever the device holds by then, gives the same state, and
/// leaves the cache as it is.
pub proof fn repeated_query_reads_nothing<E>(
    cache: CacheState,
    device: spec_fn(MarkerRead) -> Result<Seq<u8>, E>,
    later: spec_fn(MarkerRead) -> Result<Seq<u8>, E>,
    geometry: FlashGeometry,
    flash_range: Range<u32>,
    page_index: usize,
)
    requires
        page_index < cache.pages.len(),
        cache.asked(device, geometry, flash_range, page_index).1.result is Ok,
    ensures
        ({
            let first = cache.asked(device, geometry, flash_range, page_index);
            let second = first.0.asked(later, geometry, flash_range, page_index);
            &&& second.1.reads == 0
            &&& second.1.result == first.1.result
            &&& second.0 == first.0
        }),
{
    asked_page_state(cache, device, geometry, flash_range, page_index);
    let first = cache.asked(device, geometry, flash_range, page_index);
    asked_page_state(first.0, later, geometry, flash_range, page_index);
}

/// A state that was noticed is the answer to the next query for that page,
/// without a read, and the cache is dirty.
pub proof fn noticed_state_is_answered_from_memory<E>(
    cache: CacheState,
    device: spec_fn(MarkerRead) -> Result<Seq<u8>, E>,
    geometry: FlashGeometry,
    flash_range: Range<u32>,
    page_index: usize,
    state: PageState,
)
    requires
        page_index < cache.pages.len(),
    ensures
        ({
            let noticed = cache.noticed(page_index as int, state);
            &&& noticed.dirty
            &&& noticed.asked(device, geometry, flash_range, page_index) == (
                noticed,
                Outcome { result: Ok::<PageState, Error<E>>(state), reads: 0 },
            )
        }),
{
    asked_page_state(cache.noticed(page_index as int, state), device, geometry, flash_range, page_index);
}

/// After an invalidation a query goes to the oracle and takes exactly two
/// reads, whatever the cache held before and whether the reads succeed or
/// fail.
pub proof fn query_after_invalidation_reads_twice<E>(
    cache: CacheState,
    device: spec_fn(MarkerRead) -> Result<Seq<u8>, E>,
    geometry: FlashGeometry,
    flash_range: Range<u32>,
    page_index: usize,
)
    ensures
        ({
            let asked = cache.invalidated().asked(device, geometry, flash_range, page_index);
            &&& asked.1 == probed(device, geometry, flash_range, page_index)
            &&& asked.1.reads == 2
        }),
{
    asked_page_state(cache.invalidated(), device, geometry, flash_range, page_index);
    probed_page_state(device, geometry, flash_range, page_index);
}

/// A query takes no read where the state is remembered, and exactly two
/// where it is not.
pub proof fn query_reads_twice_or_not_at_all<E>(
    cache: CacheState,
    device: spec_fn(MarkerRead) -> Result<Seq<u8>, E>,
    geometry: FlashGeometry,
    flash_range: Range<u32>,
    page_index: usize,
)
    ensures
        cache.asked(device, geometry, flash_range, page_index).1.reads == (if cache.known(
            page_index as int,
        ) is Some {
            0nat
        } else {
            2nat
        }),
{
    asked_page_state(cache, device, geometry, flash_range, page_index);
    probed_page_state(device, geometry, flash_range, page_index);
}

/// A query through the cache never reads more often than the oracle alone.
pub proof fn memory_spares_reads<E>(
    cache: CacheState,
    device: spec_fn(MarkerRead) -> Result<Seq<u8>, E>,
    geometry: FlashGeometry,
    flash_range: Range<u32>,
    page_index: usize,
)
    ensures
        cache.asked(device, geometry, flash_range, page_index).1.reads <= probed(
            device,
            geometry,
            flash_range,
            page_index,
        ).reads,
{
    asked_page_state(cache, device, geometry, flash_range, page_index);
}

/// A cache that agrees with the device answers as the oracle does, with no
/// more reads, and still agrees with the device afterwards.
pub proof fn faithful_cache_answers_as_oracle<E>(
    cache: CacheState,
    device: spec_fn(MarkerRead) -> Result<Seq<u8>, E>,
    geometry: FlashGeometry,
    flash_range: Range<u32>,
    page_index: usize,
)
    requires
        page_index < cache.pages.len(),
        cache.agrees_with(device, geometry, flash_range),
    ensures
        ({
            let asked = cache.asked(device, geometry, flash_range, page_index);
            let found = probed(device, geometry, flash_range, page_index);
            &&& asked.1.result == found.result
            &&& asked.1.reads <= found.reads
            &&& asked.0.agrees_with(device, geometry, flash_range)
        }),
{
    asked_page_state(cache, device, geometry, flash_range, page_index);
    let asked = cache.asked(device, geometry, flash_range, page_index);
    assert forall|other: usize| (#[trigger] asked.0.known(other as int)) is Some implies probed(
        device,
        geometry,
        flash_range,
        other,
    ).result == Ok::<PageState, Error<E>>(asked.0.known(other as int)->0) by {
        if other != page_index {
            assert(asked.0.known(other as int) == cache.known(other as int));
        }
    }
}

} // verus!
