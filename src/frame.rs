//! Bookkeeping of physical page frames in a bitmap.
//!
//! Bit `f % 8` of byte `f / 8` is set while frame `f` is handed out. Frame
//! `f` lies at `FRAME_START + f * PAGE_SIZE`. The count of free frames never
//! exceeds the number of clear bits, so a non-zero count always finds a frame.
use crate::address::{PhysAddr, PAGE_SIZE};
use vstd::prelude::*;

verus! {

/// Bytes in the bitmap.
pub const BITMAP_SIZE: usize = 2048;

/// Frames that the bitmap can track.
pub const MAX_FRAMES: usize = 16384;

/// Physical address of frame 0.
pub const FRAME_START: u64 = 0x4020_0000;

/// Errors of setting up the allocator and of handing frames back.
#[derive(Clone, Copy, PartialEq, Eq, Debug, Structural)]
pub enum FrameError {
    /// The memory range given to `init` holds no frame.
    InvalidRange,
    /// The address handed back is not page-aligned.
    Unaligned,
    /// The address handed back lies outside the managed frames.
    OutOfRange,
    /// The frame handed back is not allocated.
    DoubleFree,
}

/// Bit `k` of byte `b` is set.
pub open spec fn bit_set(b: u8, k: int) -> bool {
    (b >> (k as u8)) & 1u8 == 1u8
}

/// Frame `f` is marked allocated in bitmap `bm`.
pub open spec fn frame_used(bm: Seq<u8>, f: int) -> bool {
    bit_set(bm[f / 8], f % 8)
}

/// Number of frames below `n` that are free in `bm`.
pub open spec fn free_below(bm: Seq<u8>, n: int) -> nat
    decreases n,
{
    if n <= 0 {
        0
    } else {
        free_below(bm, n - 1) + if frame_used(bm, n - 1) {
            0nat
        } else {
            1nat
        }
    }
}

/// One if frame `f` is free in `bm`, zero if it is used.
pub open spec fn free_bit(bm: Seq<u8>, f: int) -> int {
    if frame_used(bm, f) {
        0
    } else {
        1
    }
}

/// The frame number of a frame address.
pub open spec fn frame_number(a: PhysAddr) -> int {
    (a.spec_addr() - FRAME_START) / (PAGE_SIZE as int)
}

proof fn lemma_bit_update(b: u8, k: u8, j: u8)
    requires
        k < 8,
        j < 8,
    ensures
        bit_set(b | (1u8 << k), j as int) == (j == k || bit_set(b, j as int)),
        bit_set(b & !(1u8 << k), j as int) == (j != k && bit_set(b, j as int)),
{
    assert(((b | (1u8 << k)) >> j) & 1u8 == 1u8 <==> (j == k || (b >> j) & 1u8 == 1u8)) by (bit_vector)
        requires
            k < 8,
            j < 8,
    ;
    assert(((b & !(1u8 << k)) >> j) & 1u8 == 1u8 <==> (j != k && (b >> j) & 1u8 == 1u8)) by (bit_vector)
        requires
            k < 8,
            j < 8,
    ;
}

proof fn lemma_full_byte(b: u8, j: u8)
    requires
        b == 0xFF,
        j < 8,
    ensures
        bit_set(b, j as int),
{
    assert((b >> j) & 1u8 == 1u8) by (bit_vector)
        requires
            b == 0xFF,
            j < 8,
    ;
}

proof fn lemma_zero_byte(b: u8, j: u8)
    requires
        b == 0,
        j < 8,
    ensures
        !bit_set(b, j as int),
{
    assert((b >> j) & 1u8 == 0u8) by (bit_vector)
        requires
            b == 0,
            j < 8,
    ;
}

/// Changing the status of frame `f` alone changes the free count below `n`
/// by that frame's contribution.
proof fn lemma_free_below_update(bm: Seq<u8>, bm2: Seq<u8>, f: int, n: int)
    requires
        0 <= f,
        forall|g: int| 0 <= g < n && g != f ==> frame_used(bm2, g) == frame_used(bm, g),
    ensures
        f >= n ==> free_below(bm2, n) == free_below(bm, n),
        f < n ==> free_below(bm2, n) - free_bit(bm2, f) == free_below(bm, n) - free_bit(bm, f),
    decreases n,
{
    if n > 0 {
        lemma_free_below_update(bm, bm2, f, n - 1);
    }
}

/// The free count below `n` is at most `n`.
proof fn lemma_free_below_bound(bm: Seq<u8>, n: int)
    ensures
        free_below(bm, n) <= if n < 0 { 0 } else { n },
    decreases n,
{
    if n > 0 {
        lemma_free_below_bound(bm, n - 1);
    }
}

/// When every frame below `n` is used, none is free.
proof fn lemma_free_below_all_used(bm: Seq<u8>, n: int)
    requires
        forall|g: int| 0 <= g < n ==> frame_used(bm, g),
    ensures
        free_below(bm, n) == 0,
    decreases n,
{
    if n > 0 {
        lemma_free_below_all_used(bm, n - 1);
    }
}

/// When exactly the frames below `s` are used, the free count below `n >= s` is `n - s`.
proof fn lemma_free_below_prefix(bm: Seq<u8>, s: int, n: int)
    requires
        0 <= s <= n,
        forall|g: int| 0 <= g < n ==> (frame_used(bm, g) <==> g < s),
    ensures
        free_below(bm, n) == n - s,
    decreases n,
{
    if n > s {
        lemma_free_below_prefix(bm, s, n - 1);
    } else {
        lemma_free_below_all_used(bm, n);
    }
}

/// The frame bitmap and its counters.
pub struct FrameAllocator {
    pub(crate) bitmap: [u8; BITMAP_SIZE],
    pub(crate) free_count: usize,
    pub(crate) total_frames: usize,
    pub(crate) initialized: bool,
}

impl FrameAllocator {
    /// Frame `f` is marked allocated.
    pub closed spec fn used(&self, f: int) -> bool {
        frame_used(self.bitmap@, f)
    }

    /// Frames that may still be handed out.
    pub closed spec fn spec_free_count(&self) -> nat {
        self.free_count as nat
    }

    /// Frames placed under management by `init`.
    pub closed spec fn spec_total(&self) -> nat {
        self.total_frames as nat
    }

    /// Whether `init` has run.
    pub closed spec fn spec_initialized(&self) -> bool {
        self.initialized
    }

    /// The counters agree with the bitmap: the free count never exceeds the
    /// number of clear bits, and before `init` nothing is marked or counted.
    pub closed spec fn wf(&self) -> bool {
        &&& self.free_count <= free_below(self.bitmap@, MAX_FRAMES as int)
        &&& !self.initialized ==> {
            &&& self.free_count == 0
            &&& self.total_frames == 0
            &&& forall|f: int| 0 <= f < MAX_FRAMES ==> !frame_used(self.bitmap@, f)
        }
    }

    /// Only frame `f` may have changed, and the counters and state stay as they were.
    pub closed spec fn same_except(&self, other: &FrameAllocator, f: int) -> bool {
        &&& forall|g: int| 0 <= g < MAX_FRAMES && g != f ==> #[trigger] self.used(g) == other.used(g)
        &&& self.total_frames == other.total_frames
        &&& self.initialized == other.initialized
    }

    /// An allocator that has not been set up: nothing marked, nothing counted.
    pub fn new() -> (r: FrameAllocator)
        ensures
            r.wf(),
            !r.spec_initialized(),
            r.spec_free_count() == 0,
    {
        let r = FrameAllocator { bitmap: [0u8; BITMAP_SIZE], free_count: 0, total_frames: 0, initialized: false };
        assert forall|f: int| 0 <= f < MAX_FRAMES implies !frame_used(r.bitmap@, f) by {
            lemma_zero_byte(r.bitmap@[f / 8], (f % 8) as u8);
        }
        r
    }

    /// Mark frame `frame` allocated or free; a frame beyond the bitmap is ignored.
    fn set_bit(&mut self, frame: usize, allocated: bool)
        ensures
            frame < MAX_FRAMES ==> frame_used(final(self).bitmap@, frame as int) == allocated,
            forall|g: int|
                0 <= g < MAX_FRAMES && g != frame ==> #[trigger] frame_used(final(self).bitmap@, g) == frame_used(
                    old(self).bitmap@,
                    g,
                ),
            final(self).free_count == old(self).free_count,
            final(self).total_frames == old(self).total_frames,
            final(self).initialized == old(self).initialized,
    {
        let byte_idx = frame / 8;
        let bit_idx = frame % 8;
        if byte_idx >= BITMAP_SIZE {
            return;
        }
        let ghost before = self.bitmap@;
        let b = self.bitmap[byte_idx];
        let k = bit_idx as u8;
        if allocated {
            self.bitmap[byte_idx] = b | (1u8 << k);
        } else {
            self.bitmap[byte_idx] = b & !(1u8 << k);
        }
        proof {
            assert forall|g: int| 0 <= g < MAX_FRAMES implies #[trigger] frame_used(self.bitmap@, g) == (if g == frame {
                allocated
            } else {
                frame_used(before, g)
            }) by {
                if g / 8 == byte_idx {
                    lemma_bit_update(b, k, (g % 8) as u8);
                }
            }
        }
    }

    /// Whether frame `frame` is marked allocated; a frame beyond the bitmap counts as allocated.
    fn is_allocated(&self, frame: usize) -> (r: bool)
        ensures
            r == (frame >= MAX_FRAMES || self.used(frame as int)),
    {
        let byte_idx = frame / 8;
        let bit_idx = frame % 8;
        if byte_idx >= BITMAP_SIZE {
            return true;
        }
        (self.bitmap[byte_idx] >> (bit_idx as u8)) & 1 == 1
    }

    /// Put the frames of `[mem_start, mem_end)` under management, once.
    ///
    /// Frames below `mem_start` are marked allocated. The range is cut to
    /// what the bitmap can track; one that holds no frame is refused. A
    /// second call changes nothing.
    pub fn init(&mut self, mem_start: PhysAddr, mem_end: PhysAddr) -> (r: Result<(), FrameError>)
        requires
            old(self).wf(),
            mem_end.spec_addr() >= FRAME_START,
        ensures
            final(self).wf(),
            old(self).spec_initialized() ==> r is Ok && *final(self) == *old(self),
            !old(self).spec_initialized() ==> ({
                let start = (if mem_start.spec_addr() > FRAME_START { mem_start.spec_addr() } else { FRAME_START })
                    - FRAME_START;
                let s = start / (PAGE_SIZE as int);
                let e0 = (mem_end.spec_addr() - FRAME_START) / (PAGE_SIZE as int);
                let e = if e0 < MAX_FRAMES { e0 } else { MAX_FRAMES as int };
                &&& r is Ok <==> s < e
                &&& r is Err ==> r->Err_0 == FrameError::InvalidRange && *final(self) == *old(self)
                &&& r is Ok ==> {
                    &&& final(self).spec_initialized()
                    &&& final(self).spec_total() == e - s
                    &&& final(self).spec_free_count() == e - s
                    &&& forall|f: int| 0 <= f < MAX_FRAMES ==> (#[trigger] final(self).used(f) <==> f < s)
                }
            }),
    {
        if self.initialized {
            return Ok(());
        }
        let lo = if mem_start.as_u64() > FRAME_START {
            mem_start.as_u64()
        } else {
            FRAME_START
        };
        let start_frame = (lo - FRAME_START) / (PAGE_SIZE as u64);
        let end_raw = (mem_end.as_u64() - FRAME_START) / (PAGE_SIZE as u64);
        let end_frame = if end_raw < MAX_FRAMES as u64 {
            end_raw as usize
        } else {
            MAX_FRAMES
        };
        if end_frame as u64 <= start_frame {
            return Err(FrameError::InvalidRange);
        }
        let start_frame = start_frame as usize;
        self.total_frames = end_frame - start_frame;
        self.free_count = self.total_frames;
        let mut i: usize = 0;
        while i < start_frame
            invariant
                i <= start_frame < end_frame <= MAX_FRAMES,
                self.free_count == end_frame - start_frame,
                self.total_frames == end_frame - start_frame,
                !self.initialized,
                forall|f: int| 0 <= f < MAX_FRAMES ==> (#[trigger] frame_used(self.bitmap@, f) <==> f < i),
            decreases start_frame - i,
        {
            self.set_bit(i, true);
            i = i + 1;
        }
        proof {
            lemma_free_below_prefix(self.bitmap@, start_frame as int, MAX_FRAMES as int);
        }
        self.initialized = true;
        Ok(())
    }

    /// Hand out the lowest free frame and mark it allocated.
    ///
    /// Nothing comes back before `init` or once the free count is zero.
    pub fn allocate(&mut self) -> (r: Option<PhysAddr>)
        requires
            old(self).wf(),
        ensures
            final(self).wf(),
            r is Some <==> old(self).spec_initialized() && old(self).spec_free_count() > 0,
            r is None ==> *final(self) == *old(self),
            r is Some ==> ({
                let f = frame_number(r->Some_0);
                &&& 0 <= f < MAX_FRAMES
                &&& r->Some_0.spec_addr() == FRAME_START + f * PAGE_SIZE
                &&& !old(self).used(f)
                &&& forall|g: int| 0 <= g < f ==> #[trigger] old(self).used(g)
                &&& final(self).used(f)
                &&& final(self).same_except(old(self), f)
                &&& final(self).spec_free_count() == old(self).spec_free_count() - 1
            }),
    {
        if !self.initialized || self.free_count == 0 {
            return None;
        }
        let mut byte_idx: usize = 0;
        while byte_idx < BITMAP_SIZE
            invariant
                byte_idx <= BITMAP_SIZE,
                self == old(self),
                self.wf(),
                self.initialized && self.free_count > 0,
                forall|g: int| 0 <= g < byte_idx * 8 ==> #[trigger] frame_used(self.bitmap@, g),
            decreases BITMAP_SIZE - byte_idx,
        {
            if self.bitmap[byte_idx] != 0xFF {
                let mut bit_idx: usize = 0;
                while bit_idx < 8
                    invariant
                        byte_idx < BITMAP_SIZE,
                        bit_idx <= 8,
                        self == old(self),
                        self.wf(),
                        self.initialized && self.free_count > 0,
                        forall|g: int| 0 <= g < byte_idx * 8 + bit_idx ==> #[trigger] frame_used(self.bitmap@, g),
                    decreases 8 - bit_idx,
                {
                    let frame = byte_idx * 8 + bit_idx;
                    if !self.is_allocated(frame) {
                        let ghost before = *self;
                        self.set_bit(frame, true);
                        proof {
                            lemma_free_below_update(before.bitmap@, self.bitmap@, frame as int, MAX_FRAMES as int);
                        }
                        self.free_count = self.free_count - 1;
                        let f = frame as u64;
                        assert(f << 12 == f * 4096) by (bit_vector)
                            requires
                                f < 16384,
                        ;
                        let addr = PhysAddr(FRAME_START + (f << 12));
                        assert(frame_number(addr) == frame);
                        return Some(addr);
                    }
                    bit_idx = bit_idx + 1;
                }
            } else {
                proof {
                    assert forall|g: int| 0 <= g < byte_idx * 8 + 8 implies #[trigger] frame_used(self.bitmap@, g) by {
                        if g >= byte_idx * 8 {
                            assert(g / 8 == byte_idx);
                            lemma_full_byte(self.bitmap@[g / 8], (g % 8) as u8);
                        }
                    }
                }
            }
            byte_idx = byte_idx + 1;
        }
        proof {
            lemma_free_below_all_used(self.bitmap@, MAX_FRAMES as int);
        }
        None
    }

    /// What handing back the frame at `addr` reports: nothing is checked
    /// before `init`; afterwards the address must be page-aligned, lie among
    /// the managed frames, and name an allocated frame.
    pub closed spec fn free_result(&self, addr: PhysAddr) -> Result<(), FrameError> {
        if !self.initialized {
            Ok(())
        } else if addr.spec_addr() % (PAGE_SIZE as u64) != 0 {
            Err(FrameError::Unaligned)
        } else if addr.spec_addr() < FRAME_START || frame_number(addr) >= MAX_FRAMES {
            Err(FrameError::OutOfRange)
        } else if !self.used(frame_number(addr)) {
            Err(FrameError::DoubleFree)
        } else {
            Ok(())
        }
    }

    /// Hand back the frame at `addr` and mark it free.
    pub fn free(&mut self, addr: PhysAddr) -> (r: Result<(), FrameError>)
        requires
            old(self).wf(),
        ensures
            final(self).wf(),
            r == old(self).free_result(addr),
            (r is Err || !old(self).spec_initialized()) ==> *final(self) == *old(self),
            (r is Ok && old(self).spec_initialized()) ==> {
                &&& !final(self).used(frame_number(addr))
                &&& final(self).same_except(old(self), frame_number(addr))
                &&& final(self).spec_free_count() == old(self).spec_free_count() + 1
            },
    {
        if !self.initialized {
            return Ok(());
        }
        if !addr.is_aligned() {
            return Err(FrameError::Unaligned);
        }
        let a = addr.as_u64();
        if a < FRAME_START {
            return Err(FrameError::OutOfRange);
        }
        let frame64 = (a - FRAME_START) / (PAGE_SIZE as u64);
        if frame64 >= MAX_FRAMES as u64 {
            return Err(FrameError::OutOfRange);
        }
        let frame = frame64 as usize;
        if !self.is_allocated(frame) {
            return Err(FrameError::DoubleFree);
        }
        let ghost before = *self;
        self.set_bit(frame, false);
        proof {
            lemma_free_below_update(before.bitmap@, self.bitmap@, frame as int, MAX_FRAMES as int);
            lemma_free_below_bound(self.bitmap@, MAX_FRAMES as int);
        }
        self.free_count = self.free_count + 1;
        Ok(())
    }

    /// Frames that may still be handed out.
    pub fn free_frames(&self) -> (r: usize)
        ensures
            r == self.spec_free_count(),
    {
        self.free_count
    }
}

} // verus!
