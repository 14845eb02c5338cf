//! The depth-2 swap chain: a single-producer/single-consumer buffer pool.
//!
//! The chain owns exactly two slots.  Each slot is either empty or holds a
//! [`GraphicsBuffer`], with a per-slot fence descriptor (or "no fence"), and
//! an index marks the slot whose buffer is currently on screen.  Three
//! operations drive it:
//!
//! - [`SwapChain::acquire`] hands the producer a writable buffer, skipping
//!   the slot on screen so the displayed buffer is never writable;
//! - [`SwapChain::begin_submit`] places a rendered buffer in the first empty
//!   slot and marks it presented, and [`SwapChain::record_fence`] stores the
//!   release fence the composition pipeline reported for it;
//! - [`SwapChain::release`] returns an unrendered buffer to the pool with no
//!   fence and without touching the presented mark, handing the caller the
//!   unused fence's descriptor to close.
//!
//! Every operation's contract is stated against the spec-level transition
//! functions in this module, so the sequence behaviour of the chain (round
//! robin, the never-hand-out-the-presented-slot rule) can be proved once at
//! the specification level and holds for the executable code by the
//! contracts alone.

use vstd::prelude::*;

use crate::buffer::BufferV;
use crate::buffer::GraphicsBuffer;
use crate::fence::Fence;

verus! {

/// Failure codes of the pool operations.  Both arise only from a caller
/// ordering violation: correct single-producer use, where every `acquire`
/// is matched by exactly one submit or release, cannot trigger them.
#[derive(Clone, Copy, Debug, PartialEq, Eq, Structural)]
pub enum SwapChainError {
    /// Every eligible slot was empty on acquire: both buffers are already
    /// out with the producer or presented.
    NoBufferAvailable,
    /// No slot was empty on submit or release.
    NoSlotAvailable,
}

/// The mathematical value of one slot.
pub ghost struct SlotV {
    /// The buffer held, or `None` for an empty slot.
    pub buf: Option<BufferV>,
    /// The fence descriptor recorded for the slot, or `None` for "no fence".
    pub fence: Option<int>,
}

impl SlotV {
    pub open spec fn wf(self) -> bool {
        &&& (self.buf matches Some(b) ==> b.wf())
        &&& (self.fence matches Some(fd) ==> fd >= 0)
    }

    /// The descriptors owed to the final owner of this slot's fence: one
    /// for a recorded fence, none for "no fence".
    pub open spec fn fence_fds(self) -> Seq<i32> {
        match self.fence {
            Some(fd) => seq![fd as i32],
            None => Seq::empty(),
        }
    }

    /// An empty slot with no fence recorded.
    pub open spec fn vacant() -> SlotV {
        SlotV { buf: None, fence: None }
    }

    /// A slot holding `b` with no fence recorded.
    pub open spec fn holding(b: BufferV) -> SlotV {
        SlotV { buf: Some(b), fence: None }
    }
}

/// The mathematical value of the whole chain.
pub ghost struct ChainV {
    pub s0: SlotV,
    pub s1: SlotV,
    /// The index of the slot currently on screen, or `None`.
    pub last: Option<int>,
}

impl ChainV {
    pub open spec fn wf(self) -> bool {
        &&& self.s0.wf()
        &&& self.s1.wf()
        &&& (self.last matches Some(i) ==> i == 0 || i == 1)
    }

    /// The slot at index `i` (meaningful for `i == 0` or `i == 1`).
    pub open spec fn slot(self, i: int) -> SlotV {
        if i == 0 {
            self.s0
        } else {
            self.s1
        }
    }

    /// The chain with slot `i` replaced by `s`.
    pub open spec fn with_slot(self, i: int, s: SlotV) -> ChainV {
        if i == 0 {
            ChainV { s0: s, ..self }
        } else {
            ChainV { s1: s, ..self }
        }
    }

    /// A chain with both slots empty and nothing presented: the state of a
    /// newly created or invalidated chain.
    pub open spec fn drained() -> ChainV {
        ChainV { s0: SlotV::vacant(), s1: SlotV::vacant(), last: None }
    }

    /// The state right after a successful configure: slot `i` holds `bi`
    /// with no fence, and no slot is marked presented.
    pub open spec fn freshly_filled(b0: BufferV, b1: BufferV) -> ChainV {
        ChainV { s0: SlotV::holding(b0), s1: SlotV::holding(b1), last: None }
    }
}

/// Slot `i` may be handed to the producer: it holds a buffer and is not the
/// slot on screen.
pub open spec fn eligible(c: ChainV, i: int) -> bool {
    &&& c.last != Some(i)
    &&& c.slot(i).buf is Some
}

/// The slot `acquire` hands out: the first eligible slot in the fixed scan
/// order, or `None` when every eligible slot is empty.
pub open spec fn acquire_choice(c: ChainV) -> Option<int> {
    if eligible(c, 0) {
        Some(0)
    } else if eligible(c, 1) {
        Some(1)
    } else {
        None
    }
}

/// The chain after `acquire` took slot `i`: the slot is empty with no
/// fence, and the presented mark is untouched.
pub open spec fn taken(c: ChainV, i: int) -> ChainV {
    c.with_slot(i, SlotV::vacant())
}

/// The slot a submit or release fills: the first empty slot, or `None`.
pub open spec fn empty_choice(c: ChainV) -> Option<int> {
    if c.slot(0).buf is None {
        Some(0)
    } else if c.slot(1).buf is None {
        Some(1)
    } else {
        None
    }
}

/// The chain after submit placed `b` in slot `i`: the slot holds `b` with no
/// fence yet, and `i` becomes the presented slot.
pub open spec fn submitted(c: ChainV, i: int, b: BufferV) -> ChainV {
    ChainV { last: Some(i), ..c.with_slot(i, SlotV::holding(b)) }
}

/// The chain after the release fence `f` was recorded for slot `i`.
pub open spec fn recorded(c: ChainV, i: int, f: Option<int>) -> ChainV {
    c.with_slot(i, SlotV { fence: f, ..c.slot(i) })
}

/// The chain after release returned `b` to slot `i`: the slot holds `b`
/// with no fence, and the presented mark is untouched.
pub open spec fn canceled(c: ChainV, i: int, b: BufferV) -> ChainV {
    c.with_slot(i, SlotV::holding(b))
}

/// The fixed-depth pool of presentable buffers.
pub struct SwapChain {
    slot0: Option<GraphicsBuffer>,
    slot1: Option<GraphicsBuffer>,
    fence0: Fence,
    fence1: Fence,
    last_presented: Option<usize>,
}

impl View for SwapChain {
    type V = ChainV;

    closed spec fn view(&self) -> ChainV {
        ChainV {
            s0: SlotV {
                buf: match self.slot0 {
                    Some(b) => Some(b@),
                    None => None,
                },
                fence: self.fence0@,
            },
            s1: SlotV {
                buf: match self.slot1 {
                    Some(b) => Some(b@),
                    None => None,
                },
                fence: self.fence1@,
            },
            last: match self.last_presented {
                Some(i) => Some(i as int),
                None => None,
            },
        }
    }
}

impl SwapChain {
    /// A chain with both slots empty: nothing can be acquired until a
    /// configure fills it.
    pub fn new() -> (c: SwapChain)
        ensures
            c@ == ChainV::drained(),
            c@.wf(),
    {
        SwapChain {
            slot0: None,
            slot1: None,
            fence0: Fence::NoFence,
            fence1: Fence::NoFence,
            last_presented: None,
        }
    }

    /// Replaces the pool contents with two freshly allocated buffers, as a
    /// configure does: both slots are repopulated, no fence is recorded and
    /// no slot is marked presented.  The descriptors of the fences that were
    /// recorded before are returned for the caller to close; dropping them
    /// silently would leak them, and nothing else owns them any more.
    pub fn fill(&mut self, b0: GraphicsBuffer, b1: GraphicsBuffer) -> (to_close: Vec<i32>)
        requires
            b0@.wf(),
            b1@.wf(),
        ensures
            final(self)@ == ChainV::freshly_filled(b0@, b1@),
            final(self)@.wf(),
            to_close@ == old(self)@.slot(0).fence_fds() + old(self)@.slot(1).fence_fds(),
    {
        let mut to_close: Vec<i32> = Vec::new();
        crate::fence::push_fds_to_close(&mut to_close, self.fence0);
        crate::fence::push_fds_to_close(&mut to_close, self.fence1);
        self.slot0 = Some(b0);
        self.slot1 = Some(b1);
        self.fence0 = Fence::NoFence;
        self.fence1 = Fence::NoFence;
        self.last_presented = None;
        to_close
    }

    /// Empties both slots and forgets the presented mark, as a failed
    /// configure does: the chain is unusable until refilled.  Returns the
    /// recorded fence descriptors for the caller to close.
    pub fn drain(&mut self) -> (to_close: Vec<i32>)
        ensures
            final(self)@ == ChainV::drained(),
            final(self)@.wf(),
            to_close@ == old(self)@.slot(0).fence_fds() + old(self)@.slot(1).fence_fds(),
    {
        let mut to_close: Vec<i32> = Vec::new();
        crate::fence::push_fds_to_close(&mut to_close, self.fence0);
        crate::fence::push_fds_to_close(&mut to_close, self.fence1);
        self.slot0 = None;
        self.slot1 = None;
        self.fence0 = Fence::NoFence;
        self.fence1 = Fence::NoFence;
        self.last_presented = None;
        to_close
    }

    /// Hands the producer a writable buffer together with the release fence
    /// previously recorded for its slot.
    ///
    /// The slots are scanned in a fixed order, skipping the slot currently
    /// on screen, so the buffer being displayed is never simultaneously
    /// writable.  The first non-empty eligible slot is emptied and its fence
    /// reset to "no fence".  Fails with `NoBufferAvailable` exactly when
    /// every eligible slot is empty.
    pub fn acquire(&mut self) -> (r: Result<(GraphicsBuffer, Fence), SwapChainError>)
        requires
            old(self)@.wf(),
        ensures
            final(self)@.wf(),
            ({
                let c = old(self)@;
                match acquire_choice(c) {
                    Some(i) => {
                        &&& r matches Ok(bf)
                        &&& Some(bf.0@) == c.slot(i).buf
                        &&& bf.1@ == c.slot(i).fence
                        &&& bf.1.wf()
                        &&& final(self)@ == taken(c, i)
                    },
                    None => {
                        &&& r == Err::<(GraphicsBuffer, Fence), SwapChainError>(
                            SwapChainError::NoBufferAvailable,
                        )
                        &&& final(self)@ == c
                    },
                }
            }),
            // The slot on screen is never the one handed out.
            (r is Ok ==> acquire_choice(old(self)@) is Some && old(self)@.last != acquire_choice(
                old(self)@,
            )),
    {
        let skip0: bool = match self.last_presented {
            Some(i) => i == 0,
            None => false,
        };
        if !skip0 && self.slot0.is_some() {
            let b = self.slot0.take().unwrap();
            let f = self.fence0;
            self.fence0 = Fence::NoFence;
            return Ok((b, f));
        }
        let skip1: bool = match self.last_presented {
            Some(i) => i == 1,
            None => false,
        };
        if !skip1 && self.slot1.is_some() {
            let b = self.slot1.take().unwrap();
            let f = self.fence1;
            self.fence1 = Fence::NoFence;
            return Ok((b, f));
        }
        Err(SwapChainError::NoBufferAvailable)
    }

    /// Places a rendered buffer in the first empty slot and marks that slot
    /// as the one on screen.  The slot's release fence is not known yet —
    /// the composition pipeline reports it once the compositor has committed
    /// the frame — so the slot is left with "no fence" until
    /// [`SwapChain::record_fence`] stores it.
    ///
    /// Fails exactly when no slot is empty, which a well-ordered producer
    /// cannot cause; the buffer and code are handed back in the error.
    pub fn begin_submit(&mut self, b: GraphicsBuffer) -> (r: Result<
        usize,
        (SwapChainError, GraphicsBuffer),
    >)
        requires
            old(self)@.wf(),
            b@.wf(),
        ensures
            final(self)@.wf(),
            ({
                let c = old(self)@;
                match empty_choice(c) {
                    Some(i) => {
                        &&& r matches Ok(j)
                        &&& j as int == i
                        &&& final(self)@ == submitted(c, i, b@)
                    },
                    None => {
                        &&& r matches Err(e)
                        &&& e.0 == SwapChainError::NoSlotAvailable
                        &&& e.1@ == b@
                        &&& final(self)@ == c
                    },
                }
            }),
    {
        if self.slot0.is_none() {
            self.slot0 = Some(b);
            self.fence0 = Fence::NoFence;
            self.last_presented = Some(0);
            Ok(0)
        } else if self.slot1.is_none() {
            self.slot1 = Some(b);
            self.fence1 = Fence::NoFence;
            self.last_presented = Some(1);
            Ok(1)
        } else {
            Err((SwapChainError::NoSlotAvailable, b))
        }
    }

    /// Records the release fence the composition pipeline reported for the
    /// frame submitted to slot `i`.  The next `acquire` of that slot hands
    /// this fence to the producer, signalling when the buffer's memory is
    /// safe to reuse.
    pub fn record_fence(&mut self, i: usize, f: Fence)
        requires
            old(self)@.wf(),
            i == 0 || i == 1,
            f.wf(),
        ensures
            final(self)@ == recorded(old(self)@, i as int, f@),
            final(self)@.wf(),
    {
        if i == 0 {
            self.fence0 = f;
        } else {
            self.fence1 = f;
        }
    }

    /// Returns an unrendered buffer to the pool (the cancel path, no
    /// presentation).  The buffer lands in the first empty slot with "no
    /// fence" recorded, and the presented mark is never altered, so a
    /// canceled buffer is immediately eligible for the next `acquire`.
    ///
    /// The unused fence `f` is relinquished by the caller without the
    /// hardware ever observing it; its descriptor is returned in `Ok` so the
    /// caller closes it exactly once.  On failure (no empty slot) the buffer
    /// and fence are handed back unconsumed.
    pub fn release(&mut self, b: GraphicsBuffer, f: Fence) -> (r: Result<
        Option<i32>,
        (SwapChainError, GraphicsBuffer, Fence),
    >)
        requires
            old(self)@.wf(),
            b@.wf(),
            f.wf(),
        ensures
            final(self)@.wf(),
            // The presented mark is never altered by a release.
            final(self)@.last == old(self)@.last,
            ({
                let c = old(self)@;
                match empty_choice(c) {
                    Some(i) => {
                        &&& final(self)@ == canceled(c, i, b@)
                        &&& final(self)@.slot(i).fence is None
                        &&& r matches Ok(fd)
                        &&& (match f@ {
                            Some(n) => fd matches Some(x) && x as int == n,
                            None => fd is None,
                        })
                    },
                    None => {
                        &&& r matches Err(e)
                        &&& e.0 == SwapChainError::NoSlotAvailable
                        &&& e.1@ == b@
                        &&& e.2 == f
                        &&& final(self)@ == c
                    },
                }
            }),
    {
        let fd: Option<i32> = match f {
            Fence::NoFence => None,
            Fence::Fd(n) => Some(n),
        };
        if self.slot0.is_none() {
            self.slot0 = Some(b);
            self.fence0 = Fence::NoFence;
            Ok(fd)
        } else if self.slot1.is_none() {
            self.slot1 = Some(b);
            self.fence1 = Fence::NoFence;
            Ok(fd)
        } else {
            Err((SwapChainError::NoSlotAvailable, b, f))
        }
    }
}

} // verus!
