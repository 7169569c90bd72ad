//! The bootstrap frame allocator: hands out the frames of the memory areas
//! one by one, lowest area first, and leaves out the frames of the kernel.
//!
//! The allocator goes by address ranges alone. It does not look at the type
//! of an area: which areas it takes frames from is for its caller to say.
//! Given `all_memory_area` it hands out frames of reserved areas too; given
//! `free_memory_area` it hands out frames of free areas only.

use vstd::prelude::*;
use crate::address::PhysAddr;
use crate::layout::{E820Tag, MemoryAreaIter};

verus! {

/// Size in bytes of the frames that the allocator hands out.
pub const PT_SIZE: u64 = 4096;

/// Why no frame was handed out.
#[derive(Debug, Copy, Clone, PartialEq, Eq, Structural)]
pub enum AllocError {
    /// No area has a frame left.
    OutOfMemory,
    /// The frame with this number starts beyond the physical address range.
    FrameOutOfRange { frame: u64 },
}

/// Number of the frame in which `area` starts.
pub open spec fn first_frame(area: E820Tag) -> int {
    area.base_address@ as int / 4096
}

/// Number of the frame in which `area` ends: its frames are those from
/// `first_frame` up to, and without, this one.
pub open spec fn end_frame(area: E820Tag) -> int {
    (area.base_address@ + area.size) / 4096
}

/// Among the areas that end beyond `cursor`, the one with the lowest base,
/// and of several with that base the one that comes first.
pub open spec fn select_area(areas: Seq<E820Tag>, cursor: int) -> Option<E820Tag>
    decreases areas.len(),
{
    if areas.len() == 0 {
        None
    } else {
        let before = select_area(areas.drop_last(), cursor);
        let area = areas.last();
        if end_frame(area) <= cursor {
            before
        } else {
            match before {
                None => Some(area),
                Some(best) => if area.base_address@ < best.base_address@ {
                    Some(area)
                } else {
                    Some(best)
                },
            }
        }
    }
}

/// What `select_area` picks is an area of the table that ends beyond the
/// cursor, no area that ends beyond the cursor has a lower base, and none
/// with the same base comes earlier. It picks nothing only where no area ends
/// beyond the cursor.
pub proof fn lemma_select_area(areas: Seq<E820Tag>, cursor: int)
    ensures
        match select_area(areas, cursor) {
            Some(best) => exists|i: int|
                {
                    &&& 0 <= i < areas.len()
                    &&& #[trigger] areas[i] == best
                    &&& end_frame(best) > cursor
                    &&& forall|j: int|
                        0 <= j < areas.len() && end_frame(#[trigger] areas[j]) > cursor
                            ==> best.base_address@ <= areas[j].base_address@
                    &&& forall|j: int|
                        0 <= j < i && end_frame(#[trigger] areas[j]) > cursor
                            ==> best.base_address@ < areas[j].base_address@
                },
            None => forall|j: int|
                0 <= j < areas.len() ==> end_frame(#[trigger] areas[j]) <= cursor,
        },
    decreases areas.len(),
{
    if areas.len() > 0 {
        let head = areas.drop_last();
        lemma_select_area(head, cursor);
        assert(forall|j: int| 0 <= j < head.len() ==> head[j] == areas[j]);
        match select_area(head, cursor) {
            Some(before) => {
                let i = choose|i: int|
                    {
                        &&& 0 <= i < head.len()
                        &&& #[trigger] head[i] == before
                        &&& end_frame(before) > cursor
                        &&& forall|j: int|
                            0 <= j < head.len() && end_frame(#[trigger] head[j]) > cursor
                                ==> before.base_address@ <= head[j].base_address@
                        &&& forall|j: int|
                            0 <= j < i && end_frame(#[trigger] head[j]) > cursor
                                ==> before.base_address@ < head[j].base_address@
                    };
                assert(areas[i] == before);
                let last: int = areas.len() - 1;
                assert(areas[last] == areas.last());
            },
            None => {
                let last: int = areas.len() - 1;
                assert(areas[last] == areas.last());
            },
        }
    }
}

/// Where the allocator stands: the number of the frame that it will look at
/// next, and the area that it takes frames from.
pub struct AllocState {
    pub cursor: int,
    pub current: Option<E820Tag>,
}

/// Number of frames between the cursor and the end of the current area.
pub open spec fn room(state: AllocState) -> int {
    match state.current {
        Some(area) => if end_frame(area) > state.cursor {
            end_frame(area) - state.cursor
        } else {
            0
        },
        None => 0,
    }
}

/// Number of frames between the end of the current area and the end of what
/// a base and a size of 64 bits can describe.
pub open spec fn slack(state: AllocState) -> int {
    match state.current {
        Some(area) => 0x20_0000_0000_0000 - end_frame(area),
        None => 0,
    }
}

/// The state in which the search for the next frame ends. While there is a
/// current area: a cursor beyond its end moves on to the area that
/// `select_area` picks, and to the frame in which that area starts; a cursor
/// within the kernel's frames jumps behind them. The search ends where the
/// cursor stands on a frame of the current area outside the kernel, or where
/// no area is left.
pub open spec fn settle(
    areas: Seq<E820Tag>,
    kernel_first: int,
    kernel_last: int,
    state: AllocState,
) -> AllocState
    decreases slack(state), room(state),
{
    match state.current {
        None => state,
        Some(area) => if state.cursor >= end_frame(area) {
            match select_area(areas, state.cursor) {
                None => AllocState { cursor: state.cursor, current: None },
                Some(next) => {
                    proof {
                        lemma_select_area(areas, state.cursor);
                    }
                    settle(
                        areas,
                        kernel_first,
                        kernel_last,
                        AllocState { cursor: first_frame(next), current: Some(next) },
                    )
                },
            }
        } else if kernel_first <= state.cursor <= kernel_last {
            settle(
                areas,
                kernel_first,
                kernel_last,
                AllocState { cursor: kernel_last + 1, current: state.current },
            )
        } else {
            state
        },
    }
}

/// What a request for a frame comes to: the state after it, and the address
/// of the frame or the reason why there is none. The frame is the one that
/// the search settles on; the cursor then moves one frame on. Without a
/// current area, and for a frame beyond the physical address range, the
/// request fails and the cursor stays.
pub open spec fn alloc_outcome(
    areas: Seq<E820Tag>,
    kernel_first: int,
    kernel_last: int,
    state: AllocState,
) -> (AllocState, Result<u64, AllocError>) {
    let settled = settle(areas, kernel_first, kernel_last, state);
    if settled.current is None {
        (settled, Err(AllocError::OutOfMemory))
    } else if settled.cursor >= 0x100_0000_0000 {
        (settled, Err(AllocError::FrameOutOfRange { frame: settled.cursor as u64 }))
    } else {
        (
            AllocState { cursor: settled.cursor + 1, current: settled.current },
            Ok((settled.cursor * 4096) as u64),
        )
    }
}

/// The state in which an allocator over `areas` starts: in the area that
/// `select_area` picks for frame 0, at the frame in which that area starts.
pub open spec fn initial_state(areas: Seq<E820Tag>) -> AllocState {
    match select_area(areas, 0) {
        Some(area) => AllocState { cursor: first_frame(area), current: Some(area) },
        None => AllocState { cursor: 0, current: None },
    }
}

/// The current area, if there is one, is an area of the table, and the
/// cursor is not below the frame in which it starts.
pub open spec fn in_table(areas: Seq<E820Tag>, state: AllocState) -> bool {
    match state.current {
        Some(area) => areas.contains(area) && first_frame(area) <= state.cursor,
        None => true,
    }
}

/// No frame belongs to two areas of the table.
pub open spec fn frames_disjoint(areas: Seq<E820Tag>) -> bool {
    forall|i: int, j: int|
        0 <= i < j < areas.len() ==> end_frame(#[trigger] areas[i]) <= first_frame(
            #[trigger] areas[j],
        ) || end_frame(areas[j]) <= first_frame(areas[i])
}

/// An allocator starts in a state that is in the table.
pub proof fn lemma_initial_state(areas: Seq<E820Tag>)
    ensures
        in_table(areas, initial_state(areas)),
{
    lemma_select_area(areas, 0);
}

/// Where the search ends with an area, the cursor stands on a frame of that
/// area and outside the kernel's frames. The search keeps a state in the
/// table, and a second search from where the first ended changes nothing.
pub proof fn lemma_settle(
    areas: Seq<E820Tag>,
    kernel_first: int,
    kernel_last: int,
    state: AllocState,
)
    ensures
        settle(areas, kernel_first, kernel_last, state).current matches Some(area) ==> {
            let cursor = settle(areas, kernel_first, kernel_last, state).cursor;
            cursor < end_frame(area) && !(kernel_first <= cursor <= kernel_last)
        },
        in_table(areas, state) ==> in_table(
            areas,
            settle(areas, kernel_first, kernel_last, state),
        ),
        settle(areas, kernel_first, kernel_last, settle(areas, kernel_first, kernel_last, state))
            == settle(areas, kernel_first, kernel_last, state),
    decreases slack(state), room(state),
{
    match state.current {
        None => {},
        Some(area) => {
            if state.cursor >= end_frame(area) {
                lemma_select_area(areas, state.cursor);
                match select_area(areas, state.cursor) {
                    None => {},
                    Some(next) => {
                        lemma_settle(
                            areas,
                            kernel_first,
                            kernel_last,
                            AllocState { cursor: first_frame(next), current: Some(next) },
                        );
                    },
                }
            } else if kernel_first <= state.cursor <= kernel_last {
                lemma_settle(
                    areas,
                    kernel_first,
                    kernel_last,
                    AllocState { cursor: kernel_last + 1, current: state.current },
                );
            }
        },
    }
}

/// A frame that is handed out starts at a multiple of the frame size within
/// the physical address range, is none of the kernel's frames, and is a frame
/// of the area that is current afterwards, which is an area of the table. A
/// request fails for want of memory exactly where the search ends without an
/// area. A request that has failed changes nothing when it is made again: it
/// fails in the same way.
pub proof fn lemma_alloc_outcome(
    areas: Seq<E820Tag>,
    kernel_first: int,
    kernel_last: int,
    state: AllocState,
)
    requires
        in_table(areas, state),
    ensures
        in_table(areas, alloc_outcome(areas, kernel_first, kernel_last, state).0),
        alloc_outcome(areas, kernel_first, kernel_last, state).1 matches Ok(address) ==> {
            let after = alloc_outcome(areas, kernel_first, kernel_last, state).0;
            &&& address % 4096 == 0
            &&& address < 0x10_0000_0000_0000
            &&& !(kernel_first <= address / 4096 <= kernel_last)
            &&& after.cursor == address / 4096 + 1
            &&& after.current matches Some(area) && areas.contains(area) && first_frame(area)
                <= address / 4096 < end_frame(area)
        },
        alloc_outcome(areas, kernel_first, kernel_last, state).1 == Err::<u64, AllocError>(
            AllocError::OutOfMemory,
        ) <==> settle(areas, kernel_first, kernel_last, state).current is None,
        alloc_outcome(areas, kernel_first, kernel_last, state).1 is Err ==> alloc_outcome(
            areas,
            kernel_first,
            kernel_last,
            alloc_outcome(areas, kernel_first, kernel_last, state).0,
        ) == alloc_outcome(areas, kernel_first, kernel_last, state),
{
    lemma_settle(areas, kernel_first, kernel_last, state);
}

/// While the cursor has passed the frame `floor` of the area `home`, and has
/// left `home` behind where another area is current, the search ends above
/// `floor`.
proof fn lemma_settle_above(
    areas: Seq<E820Tag>,
    kernel_first: int,
    kernel_last: int,
    state: AllocState,
    home: E820Tag,
    floor: int,
)
    requires
        frames_disjoint(areas),
        areas.contains(home),
        first_frame(home) <= floor < end_frame(home),
        state.cursor > floor,
        state.cursor >= end_frame(home) || state.current == Some(home),
    ensures
        settle(areas, kernel_first, kernel_last, state).cursor > floor,
    decreases slack(state), room(state),
{
    match state.current {
        None => {},
        Some(area) => {
            if state.cursor >= end_frame(area) {
                lemma_select_area(areas, state.cursor);
                match select_area(areas, state.cursor) {
                    None => {},
                    Some(next) => {
                        let i = choose|i: int| 0 <= i < areas.len() && areas[i] == next;
                        let j = choose|j: int| 0 <= j < areas.len() && areas[j] == home;
                        assert(i != j);
                        assert(end_frame(areas[i]) <= first_frame(areas[j]) || end_frame(areas[j])
                            <= first_frame(areas[i]));
                        lemma_settle_above(
                            areas,
                            kernel_first,
                            kernel_last,
                            AllocState { cursor: first_frame(next), current: Some(next) },
                            home,
                            floor,
                        );
                    },
                }
            } else if kernel_first <= state.cursor <= kernel_last {
                lemma_settle_above(
                    areas,
                    kernel_first,
                    kernel_last,
                    AllocState { cursor: kernel_last + 1, current: state.current },
                    home,
                    floor,
                );
            }
        },
    }
}

/// Over areas that share no frame, every frame handed out lies above the
/// one handed out before it.
pub proof fn lemma_frames_increase(
    areas: Seq<E820Tag>,
    kernel_first: int,
    kernel_last: int,
    state: AllocState,
)
    requires
        frames_disjoint(areas),
        in_table(areas, state),
    ensures
        ({
            let first = alloc_outcome(areas, kernel_first, kernel_last, state);
            let second = alloc_outcome(areas, kernel_first, kernel_last, first.0);
            first.1 matches Ok(lower) ==> (second.1 matches Ok(upper) ==> lower < upper)
        }),
{
    let first = alloc_outcome(areas, kernel_first, kernel_last, state);
    lemma_alloc_outcome(areas, kernel_first, kernel_last, state);
    if let Ok(lower) = first.1 {
        let home = first.0.current->0;
        lemma_settle_above(areas, kernel_first, kernel_last, first.0, home, lower as int / 4096);
    }
}

/// The allocator of frames for the first page tables.
pub struct PtAllocator {
    number: u64,
    kstart_num: u64,
    kend_num: u64,
    current_area: Option<E820Tag>,
    iterator: MemoryAreaIter,
}

impl View for PtAllocator {
    type V = AllocState;

    closed spec fn view(&self) -> AllocState {
        AllocState { cursor: self.number as int, current: self.current_area }
    }
}

fn end_frame_of(area: &E820Tag) -> (end: u64)
    ensures
        end == end_frame(*area),
        end < 0x20_0000_0000_0000,
{
    let base: u64 = area.base_address.as_u64();
    ((base as u128 + area.size as u128) / 4096) as u64
}

impl PtAllocator {
    #[verifier::type_invariant]
    spec fn kernel_in_range(self) -> bool {
        self.kend_num < 0x100_0000_0000
    }

    /// The areas that the allocator takes frames from.
    pub closed spec fn areas(&self) -> Seq<E820Tag> {
        self.iterator@
    }

    /// Number of the first frame of the kernel.
    pub closed spec fn kernel_first(&self) -> int {
        self.kstart_num as int
    }

    /// Number of the last frame of the kernel.
    pub closed spec fn kernel_last(&self) -> int {
        self.kend_num as int
    }

    /// An allocator over `areas` that keeps clear of the frames from the one
    /// that holds `kernel_start` to the one that holds `kernel_end`. It
    /// starts in the area that `select_area` picks for frame 0.
    pub fn new(kernel_start: PhysAddr, kernel_end: PhysAddr, areas: MemoryAreaIter) -> (allocator:
        Self)
        ensures
            allocator.areas() == areas@,
            allocator.kernel_first() == kernel_start@ / 4096,
            allocator.kernel_last() == kernel_end@ / 4096,
            allocator@ == initial_state(areas@),
    {
        let mut allocator = PtAllocator {
            number: 0,
            kstart_num: kernel_start.as_u64() / PT_SIZE,
            kend_num: kernel_end.as_u64() / PT_SIZE,
            current_area: None,
            iterator: areas,
        };
        allocator.choose_next_area();
        allocator
    }

    /// Hands out the next frame: the address of the frame that the search
    /// settles on.
    pub fn alloc_page(&mut self) -> (page: Result<PhysAddr, AllocError>)
        ensures
            final(self).areas() == old(self).areas(),
            final(self).kernel_first() == old(self).kernel_first(),
            final(self).kernel_last() == old(self).kernel_last(),
            final(self)@ == alloc_outcome(
                old(self).areas(),
                old(self).kernel_first(),
                old(self).kernel_last(),
                old(self)@,
            ).0,
            match page {
                Ok(address) => alloc_outcome(
                    old(self).areas(),
                    old(self).kernel_first(),
                    old(self).kernel_last(),
                    old(self)@,
                ).1 == Ok::<u64, AllocError>(address@),
                Err(e) => alloc_outcome(
                    old(self).areas(),
                    old(self).kernel_first(),
                    old(self).kernel_last(),
                    old(self)@,
                ).1 == Err::<u64, AllocError>(e),
            },
    {
        proof {
            use_type_invariant(&*self);
        }
        loop
            invariant
                self.kend_num < 0x100_0000_0000,
                self.areas() == old(self).areas(),
                self.kernel_first() == old(self).kernel_first(),
                self.kernel_last() == old(self).kernel_last(),
                settle(self.areas(), self.kernel_first(), self.kernel_last(), self@) == settle(
                    old(self).areas(),
                    old(self).kernel_first(),
                    old(self).kernel_last(),
                    old(self)@,
                ),
            decreases slack(self@), room(self@),
        {
            match self.current_area {
                None => {
                    return Err(AllocError::OutOfMemory);
                },
                Some(area) => {
                    let area_end: u64 = end_frame_of(&area);
                    if self.number >= area_end {
                        proof {
                            lemma_select_area(self.areas(), self.number as int);
                        }
                        self.choose_next_area();
                    } else if self.kstart_num <= self.number && self.number <= self.kend_num {
                        self.number = self.kend_num + 1;
                    } else if self.number >= 0x100_0000_0000 {
                        return Err(AllocError::FrameOutOfRange { frame: self.number });
                    } else {
                        let address: PhysAddr = PhysAddr::new_unchecked(self.number * PT_SIZE);
                        self.number += 1;
                        return Ok(address);
                    }
                },
            }
        }
    }

    /// Makes the area that `select_area` picks for the cursor the current
    /// one, and moves the cursor to the frame in which it starts.
    fn choose_next_area(&mut self)
        ensures
            final(self).areas() == old(self).areas(),
            final(self).kernel_first() == old(self).kernel_first(),
            final(self).kernel_last() == old(self).kernel_last(),
            final(self)@.current == select_area(old(self).areas(), old(self)@.cursor),
            final(self)@.cursor == match select_area(old(self).areas(), old(self)@.cursor) {
                Some(area) => first_frame(area),
                None => old(self)@.cursor,
            },
    {
        proof {
            use_type_invariant(&*self);
        }
        let mut walk: MemoryAreaIter = self.iterator.clone();
        let mut best: Option<E820Tag> = None;
        let ghost all: Seq<E820Tag> = walk@;
        let ghost mut seen: int = 0;
        loop
            invariant
                self.kend_num < 0x100_0000_0000,
                all == self.areas(),
                self.number == old(self).number,
                0 <= seen <= all.len(),
                walk@ == all.skip(seen),
                best == select_area(all.take(seen), self.number as int),
            ensures
                best == select_area(all, self.number as int),
            decreases all.len() - seen,
        {
            match walk.next() {
                None => {
                    proof {
                        assert(all.take(seen) =~= all);
                    }
                    break ;
                },
                Some(area) => {
                    proof {
                        assert(all.take(seen + 1).drop_last() =~= all.take(seen));
                        assert(all.take(seen + 1).last() == area);
                    }
                    let end: u64 = end_frame_of(&area);
                    if end > self.number {
                        best =
                        match best {
                            None => Some(area),
                            Some(lowest) => if area.base_address.as_u64()
                                < lowest.base_address.as_u64() {
                                Some(area)
                            } else {
                                Some(lowest)
                            },
                        };
                    }
                    proof {
                        seen = seen + 1;
                    }
                },
            }
        }
        self.current_area = best;
        if let Some(area) = self.current_area {
            self.number = area.base_address.as_u64() / PT_SIZE;
        }
    }
}

} // verus!
