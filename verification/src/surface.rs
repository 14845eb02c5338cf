//! The externally-visible display surface: swap chain, composition state,
//! configuration and the shared-ownership reference count in one handle.
//!
//! A host windowing framework and a rendering client both hold references
//! to a `DisplaySurface`.  It exposes the standard presentable-surface
//! operations: `configure` (re)allocates both swap-chain buffers through
//! the external allocator, `acquire`/`submit`/`release` drive the pool,
//! `query` and the accessors report the current configuration, and
//! `retain`/`release_ref` implement shared ownership.
//!
//! A submit is synchronous from the producer's point of view but crosses
//! the process boundary to the compositor device in the middle:
//! [`DisplaySurface::submit`] places the buffer and returns the layer list
//! to commit, the caller drives the compositor's prepare/commit phases, and
//! [`DisplaySurface::complete_submit`] records what came back.  No other
//! pool operation is permitted between the two halves, which is the
//! blocking behaviour the design asks for.

use vstd::prelude::*;

use crate::buffer::BufferV;
use crate::buffer::GraphicsBuffer;
use crate::buffer::alloc_view;
use crate::compose::CommitReply;
use crate::compose::ComposeError;
use crate::compose::LayerList;
use crate::compose::build_layer_list;
use crate::compose::finish_frame;
use crate::compose::finish_closes;
use crate::compose::frame_for;
use crate::compose::recorded_fence_of;
use crate::fence::Fence;
use crate::swapchain::ChainV;
use crate::swapchain::SwapChain;
use crate::swapchain::SwapChainError;
use crate::swapchain::acquire_choice;
use crate::swapchain::canceled;
use crate::swapchain::empty_choice;
use crate::swapchain::recorded;
use crate::swapchain::submitted;
use crate::swapchain::taken;

verus! {

/// Window query codes understood by [`DisplaySurface::query`].
pub const NATIVE_WINDOW_WIDTH: i32 = 0;

pub const NATIVE_WINDOW_HEIGHT: i32 = 1;

pub const NATIVE_WINDOW_FORMAT: i32 = 2;

pub const NATIVE_WINDOW_DEFAULT_WIDTH: i32 = 6;

pub const NATIVE_WINDOW_DEFAULT_HEIGHT: i32 = 7;

pub const NATIVE_WINDOW_TRANSFORM_HINT: i32 = 8;

pub const NATIVE_WINDOW_CONSUMER_USAGE_BITS: i32 = 10;

pub const NATIVE_WINDOW_DEFAULT_DATASPACE: i32 = 12;

pub const NATIVE_WINDOW_BUFFER_AGE: i32 = 13;

/// Failures of the surface-level operations.
#[derive(Clone, Copy, Debug, PartialEq, Eq, Structural)]
pub enum SurfaceError {
    /// The external allocator could not back one of the two slots; the
    /// surface is unusable until a subsequent successful configure.
    AllocationFailed,
    /// The query code is not one this surface answers.
    UnsupportedQuery,
}

/// What the external buffer allocator reported for one successful
/// allocation request: the opaque platform memory handle and the stride it
/// computed for the requested width.
#[derive(Clone, Copy, Debug)]
pub struct AllocReply {
    pub handle: u64,
    pub stride: i32,
}

/// The mathematical value of a [`DisplaySurface`].
pub ghost struct SurfaceV {
    pub alloc_dev: int,
    pub hwc_dev: int,
    pub width: int,
    pub height: int,
    pub format: int,
    pub usage: int,
    pub chain: ChainV,
    /// The slot whose frame is between `submit` and `complete_submit`.
    pub pending: Option<int>,
    pub refs: int,
}

impl SurfaceV {
    pub open spec fn wf(self) -> bool {
        &&& self.width >= 0
        &&& self.height >= 0
        &&& self.chain.wf()
        &&& (self.pending matches Some(i) ==> i == 0 || i == 1)
    }
}

/// The answer [`DisplaySurface::query`] owes for each code: the dimensions
/// and format of the current configuration, the consumer usage bits, zero
/// for the transform hint, dataspace and buffer age, and
/// `UnsupportedQuery` for every other code.
pub open spec fn query_spec(s: SurfaceV, what: i32) -> Result<i32, SurfaceError> {
    if what == NATIVE_WINDOW_WIDTH || what == NATIVE_WINDOW_DEFAULT_WIDTH {
        Ok(s.width as i32)
    } else if what == NATIVE_WINDOW_HEIGHT || what == NATIVE_WINDOW_DEFAULT_HEIGHT {
        Ok(s.height as i32)
    } else if what == NATIVE_WINDOW_FORMAT {
        Ok(s.format as i32)
    } else if what == NATIVE_WINDOW_CONSUMER_USAGE_BITS {
        Ok(s.usage as i32)
    } else if what == NATIVE_WINDOW_TRANSFORM_HINT || what == NATIVE_WINDOW_DEFAULT_DATASPACE
        || what == NATIVE_WINDOW_BUFFER_AGE {
        Ok(0)
    } else {
        Err(SurfaceError::UnsupportedQuery)
    }
}

/// The externally-visible handle combining the swap chain, the composition
/// pipeline endpoint and the configuration state.
pub struct DisplaySurface {
    alloc_dev: u64,
    hwc_dev: u64,
    width: i32,
    height: i32,
    format: i32,
    usage: i32,
    chain: SwapChain,
    pending: Option<usize>,
    count: i32,
}

impl View for DisplaySurface {
    type V = SurfaceV;

    closed spec fn view(&self) -> SurfaceV {
        SurfaceV {
            alloc_dev: self.alloc_dev as int,
            hwc_dev: self.hwc_dev as int,
            width: self.width as int,
            height: self.height as int,
            format: self.format as int,
            usage: self.usage as int,
            chain: self.chain@,
            pending: match self.pending {
                Some(i) => Some(i as int),
                None => None,
            },
            refs: self.count as int,
        }
    }
}

impl DisplaySurface {
    /// Creates a surface bound to the injected allocator and compositor
    /// endpoints, with the given initial extent and usage flags, format 0,
    /// an empty swap chain and a reference count of 1.  Nothing can be
    /// acquired until a `configure` fills the pool.
    pub fn new(alloc_dev: u64, hwc_dev: u64, width: i32, height: i32, usage: i32) -> (s:
        DisplaySurface)
        requires
            width >= 0,
            height >= 0,
        ensures
            s@ == (SurfaceV {
                alloc_dev: alloc_dev as int,
                hwc_dev: hwc_dev as int,
                width: width as int,
                height: height as int,
                format: 0,
                usage: usage as int,
                chain: ChainV::drained(),
                pending: None,
                refs: 1,
            }),
            s@.wf(),
    {
        DisplaySurface {
            alloc_dev,
            hwc_dev,
            width,
            height,
            format: 0,
            usage,
            chain: SwapChain::new(),
            pending: None,
            count: 1,
        }
    }

    /// (Re)configures the surface and reallocates both slots.
    ///
    /// `a0` and `a1` are the external allocator's replies to the two
    /// `alloc(width, height, format, usage)` requests, `None` where the
    /// allocator failed.  Reconfiguration invalidates both slots
    /// unconditionally; buffers currently out with the producer or on
    /// screen are not reclaimed here, and the descriptors of the fences
    /// that were recorded come back in `to_close`.  On success both slots
    /// hold the new buffers with no fence and no slot is marked presented;
    /// on any allocation failure the error is fatal to the configure and
    /// the pool stays empty until a later successful configure.
    pub fn configure(
        &mut self,
        width: i32,
        height: i32,
        format: i32,
        usage: i32,
        a0: Option<AllocReply>,
        a1: Option<AllocReply>,
    ) -> (r: (Result<(), SurfaceError>, Vec<i32>))
        requires
            old(self)@.wf(),
            old(self)@.pending is None,
            width >= 0,
            height >= 0,
            // The allocator computes the stride for the requested width;
            // a reply that does not cover a row is not a valid reply.
            a0 matches Some(a) ==> a.stride >= width,
            a1 matches Some(a) ==> a.stride >= width,
        ensures
            final(self)@.wf(),
            final(self)@.pending is None,
            ({
                let (outcome, to_close) = r;
                let c = old(self)@.chain;
                &&& to_close@ == c.slot(0).fence_fds() + c.slot(1).fence_fds()
                &&& (match (a0, a1) {
                    (Some(r0), Some(r1)) => {
                        &&& outcome == Ok::<(), SurfaceError>(())
                        &&& final(self)@ == (SurfaceV {
                            width: width as int,
                            height: height as int,
                            format: format as int,
                            usage: usage as int,
                            chain: ChainV::freshly_filled(
                                alloc_view(width, height, format, usage, r0.handle, r0.stride),
                                alloc_view(width, height, format, usage, r1.handle, r1.stride),
                            ),
                            ..old(self)@
                        })
                    },
                    _ => {
                        &&& outcome == Err::<(), SurfaceError>(SurfaceError::AllocationFailed)
                        &&& final(self)@ == (SurfaceV {
                            width: width as int,
                            height: height as int,
                            format: format as int,
                            usage: usage as int,
                            chain: ChainV::drained(),
                            ..old(self)@
                        })
                    },
                })
            }),
    {
        self.width = width;
        self.height = height;
        self.format = format;
        self.usage = usage;
        match (a0, a1) {
            (Some(r0), Some(r1)) => {
                let b0 = GraphicsBuffer::new(width, height, format, usage, r0.handle, r0.stride);
                let b1 = GraphicsBuffer::new(width, height, format, usage, r1.handle, r1.stride);
                let to_close = self.chain.fill(b0, b1);
                (Ok(()), to_close)
            },
            _ => {
                let to_close = self.chain.drain();
                (Err(SurfaceError::AllocationFailed), to_close)
            },
        }
    }

    /// Hands the producer a writable buffer and the release fence recorded
    /// for its slot; see [`SwapChain::acquire`].  The slot on screen is
    /// never the one handed out.
    pub fn acquire(&mut self) -> (r: Result<(GraphicsBuffer, Fence), SwapChainError>)
        requires
            old(self)@.wf(),
            old(self)@.pending is None,
        ensures
            final(self)@.wf(),
            ({
                let c = old(self)@.chain;
                match acquire_choice(c) {
                    Some(i) => {
                        &&& r matches Ok(bf)
                        &&& Some(bf.0@) == c.slot(i).buf
                        &&& bf.1@ == c.slot(i).fence
                        &&& bf.1.wf()
                        &&& final(self)@ == (SurfaceV { chain: taken(c, i), ..old(self)@ })
                    },
                    None => {
                        &&& r == Err::<(GraphicsBuffer, Fence), SwapChainError>(
                            SwapChainError::NoBufferAvailable,
                        )
                        &&& final(self)@ == old(self)@
                    },
                }
            }),
            (r is Ok ==> acquire_choice(old(self)@.chain) is Some && old(self)@.chain.last
                != acquire_choice(old(self)@.chain)),
    {
        self.chain.acquire()
    }

    /// Starts presenting a rendered buffer: places it in the first empty
    /// slot, marks that slot as on screen, and returns the layer list the
    /// caller must drive through the compositor's prepare and commit
    /// phases before calling [`DisplaySurface::complete_submit`] with the
    /// reply.  On failure (no empty slot) the buffer and fence come back
    /// unconsumed and nothing changes.
    pub fn submit(&mut self, b: GraphicsBuffer, render_fence: Fence) -> (r: Result<
        LayerList,
        (SwapChainError, GraphicsBuffer, Fence),
    >)
        requires
            old(self)@.wf(),
            old(self)@.pending is None,
            b@.wf(),
            render_fence.wf(),
        ensures
            final(self)@.wf(),
            ({
                let c = old(self)@.chain;
                match empty_choice(c) {
                    Some(i) => {
                        &&& r == Ok::<LayerList, (SwapChainError, GraphicsBuffer, Fence)>(
                            frame_for(b@, render_fence),
                        )
                        &&& final(self)@ == (SurfaceV {
                            chain: submitted(c, i, b@),
                            pending: Some(i),
                            ..old(self)@
                        })
                    },
                    None => {
                        &&& r matches Err(e)
                        &&& e.0 == SwapChainError::NoSlotAvailable
                        &&& e.1@ == b@
                        &&& e.2 == render_fence
                        &&& final(self)@ == old(self)@
                    },
                }
            }),
    {
        let list = build_layer_list(&b, render_fence);
        match self.chain.begin_submit(b) {
            Ok(i) => {
                self.pending = Some(i);
                Ok(list)
            },
            Err((code, b)) => Err((code, b, render_fence)),
        }
    }

    /// Finishes the presentation started by [`DisplaySurface::submit`] from
    /// the compositor's reply.
    ///
    /// On success the extracted release fence is recorded for the pending
    /// slot — the next `acquire` of that slot hands it to the producer —
    /// and returned.  On a compositor failure the frame is dropped, the
    /// compositor's status is propagated, "no fence" is recorded, and the
    /// slot bookkeeping is exactly what the success path would have left.
    /// `to_close` lists exactly the descriptors the caller must now close:
    /// the frame's retire fence, plus the unused release fence of a dropped
    /// frame.
    pub fn complete_submit(&mut self, reply: CommitReply) -> (r: (
        Result<Fence, ComposeError>,
        Vec<i32>,
    ))
        requires
            old(self)@.wf(),
            old(self)@.pending is Some,
            reply.wf(),
        ensures
            final(self)@.wf(),
            ({
                let (outcome, to_close) = r;
                let i = old(self)@.pending->Some_0;
                &&& final(self)@ == (SurfaceV {
                    chain: recorded(old(self)@.chain, i, recorded_fence_of(reply)@),
                    pending: None,
                    ..old(self)@
                })
                &&& to_close@ == finish_closes(reply)
                &&& (reply.succeeded() ==> outcome == Ok::<Fence, ComposeError>(
                    reply.release_fence,
                ))
                &&& (reply.prepare_status != 0 ==> outcome == Err::<Fence, ComposeError>(
                    ComposeError::PrepareFailed(reply.prepare_status),
                ))
                &&& (reply.prepare_status == 0 && reply.commit_status != 0 ==> outcome == Err::<
                    Fence,
                    ComposeError,
                >(ComposeError::CommitFailed(reply.commit_status)))
            }),
    {
        let (outcome, to_close) = finish_frame(reply);
        let i = self.pending.take().unwrap();
        let recorded_fence = match outcome {
            Ok(f) => f,
            Err(_) => Fence::NoFence,
        };
        self.chain.record_fence(i, recorded_fence);
        (outcome, to_close)
    }

    /// Returns an unrendered buffer to the pool without presentation; see
    /// [`SwapChain::release`].  The slot on screen is never altered, the
    /// slot that takes `b` has "no fence" recorded, and the unused fence's
    /// descriptor comes back in `Ok` for the caller to close exactly once.
    pub fn release(&mut self, b: GraphicsBuffer, f: Fence) -> (r: Result<
        Option<i32>,
        (SwapChainError, GraphicsBuffer, Fence),
    >)
        requires
            old(self)@.wf(),
            old(self)@.pending is None,
            b@.wf(),
            f.wf(),
        ensures
            final(self)@.wf(),
            final(self)@.chain.last == old(self)@.chain.last,
            ({
                let c = old(self)@.chain;
                match empty_choice(c) {
                    Some(i) => {
                        &&& final(self)@ == (SurfaceV { chain: canceled(c, i, b@), ..old(self)@ })
                        &&& final(self)@.chain.slot(i).fence is None
                        &&& r matches Ok(fd)
                        &&& (match f@ {
                            Some(n) => fd matches Some(x) && x as int == n,
                            None => fd is None,
                        })
                    },
                    None => {
                        &&& r matches Err(e)
                        &&& e.0 == SwapChainError::NoSlotAvailable
                        &&& e.1@ == b@
                        &&& e.2 == f
                        &&& final(self)@ == old(self)@
                    },
                }
            }),
    {
        self.chain.release(b, f)
    }

    /// Answers a window query; see [`query_spec`] for the exact table.
    pub fn query(&self, what: i32) -> (r: Result<i32, SurfaceError>)
        requires
            self@.wf(),
        ensures
            r == query_spec(self@, what),
    {
        if what == NATIVE_WINDOW_WIDTH || what == NATIVE_WINDOW_DEFAULT_WIDTH {
            Ok(self.width)
        } else if what == NATIVE_WINDOW_HEIGHT || what == NATIVE_WINDOW_DEFAULT_HEIGHT {
            Ok(self.height)
        } else if what == NATIVE_WINDOW_FORMAT {
            Ok(self.format)
        } else if what == NATIVE_WINDOW_CONSUMER_USAGE_BITS {
            Ok(self.usage)
        } else if what == NATIVE_WINDOW_TRANSFORM_HINT || what == NATIVE_WINDOW_DEFAULT_DATASPACE
            || what == NATIVE_WINDOW_BUFFER_AGE {
            Ok(0)
        } else {
            Err(SurfaceError::UnsupportedQuery)
        }
    }

    pub fn width(&self) -> (r: i32)
        ensures
            r as int == self@.width,
    {
        self.width
    }

    pub fn height(&self) -> (r: i32)
        ensures
            r as int == self@.height,
    {
        self.height
    }

    pub fn format(&self) -> (r: i32)
        ensures
            r as int == self@.format,
    {
        self.format
    }

    /// The usage-flag bitset consumers see.
    pub fn usage(&self) -> (r: i32)
        ensures
            r as int == self@.usage,
    {
        self.usage
    }

    /// The injected allocator endpoint handle.
    pub fn alloc_dev(&self) -> (r: u64)
        ensures
            r as int == self@.alloc_dev,
    {
        self.alloc_dev
    }

    /// The injected compositor endpoint handle.
    pub fn hwc_dev(&self) -> (r: u64)
        ensures
            r as int == self@.hwc_dev,
    {
        self.hwc_dev
    }

    pub fn ref_count(&self) -> (r: i32)
        ensures
            r as int == self@.refs,
    {
        self.count
    }

    /// An external holder (the host framework) takes a reference.
    pub fn retain(&mut self)
        requires
            old(self)@.refs < i32::MAX,
        ensures
            final(self)@ == (SurfaceV { refs: old(self)@.refs + 1, ..old(self)@ }),
    {
        self.count = self.count + 1;
    }

    /// A holder drops its reference.  Returns true exactly when the count
    /// reached 0: the single point at which the caller tears the surface
    /// down (frees all buffers, then the object itself).
    pub fn release_ref(&mut self) -> (destroy: bool)
        requires
            old(self)@.refs >= 1,
        ensures
            final(self)@ == (SurfaceV { refs: old(self)@.refs - 1, ..old(self)@ }),
            destroy == (old(self)@.refs == 1),
    {
        self.count = self.count - 1;
        self.count == 0
    }
}

} // verus!
