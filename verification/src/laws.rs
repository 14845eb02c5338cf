//! The pool-discipline laws of the swap chain, proved once at the
//! specification level.
//!
//! Every executable operation's contract equates its effect with the spec
//! transition functions of [`crate::swapchain`], so a law proved here about
//! those transitions holds of every sequence of calls on the executable
//! chain and surface.

use vstd::prelude::*;

use crate::buffer::BufferV;
use crate::swapchain::ChainV;
use crate::swapchain::acquire_choice;
use crate::swapchain::canceled;
use crate::swapchain::eligible;
use crate::swapchain::empty_choice;
use crate::swapchain::recorded;
use crate::swapchain::submitted;
use crate::swapchain::taken;

verus! {

/// The slot marked as on screen is never the slot `acquire` hands out, in
/// any state and therefore after any sequence of well-formed
/// `acquire`/`submit`/`release` calls.
pub proof fn lemma_acquire_skips_presented(c: ChainV)
    ensures
        acquire_choice(c) matches Some(i) ==> c.last != Some(i),
{
}

/// With distinct physical buffers in the two slots — as every configure
/// installs — the buffer `acquire` hands out is never the buffer held by
/// the slot on screen.
pub proof fn lemma_presented_buffer_never_acquired(c: ChainV)
    requires
        c.wf(),
        c.slot(0).buf is Some && c.slot(1).buf is Some ==> c.slot(0).buf != c.slot(1).buf,
    ensures
        ({
            &&& acquire_choice(c) matches Some(i)
            &&& c.last matches Some(p)
            &&& c.slot(p).buf is Some
        }) ==> c.slot(acquire_choice(c)->Some_0).buf != c.slot(c.last->Some_0).buf,
{
}

/// After a submit of `b` completes — placement in the first empty slot
/// `i`, then recording the release fence `f` the pipeline returned — the
/// presented mark identifies a slot containing `b`, that slot's recorded
/// fence is exactly the pipeline's fence, and no other slot's fence moved.
pub proof fn lemma_submit_records_presented(c: ChainV, b: BufferV, f: Option<int>)
    requires
        empty_choice(c) is Some,
    ensures
        ({
            let i = empty_choice(c)->Some_0;
            let after = recorded(submitted(c, i, b), i, f);
            &&& after.last == Some(i)
            &&& after.slot(i).buf == Some(b)
            &&& after.slot(i).fence == f
            &&& forall|j: int| 0 <= j < 2 && j != i ==> after.slot(j) == c.slot(j)
        }),
{
}

/// A release never moves the presented mark, and the slot that takes the
/// returned buffer has no fence recorded afterwards.
pub proof fn lemma_release_preserves_presented(c: ChainV, b: BufferV)
    requires
        empty_choice(c) is Some,
    ensures
        ({
            let i = empty_choice(c)->Some_0;
            let after = canceled(c, i, b);
            &&& after.last == c.last
            &&& after.slot(i).buf == Some(b)
            &&& after.slot(i).fence is None
        }),
{
}

/// A canceled buffer is immediately eligible for the next `acquire`: the
/// slot that takes it is not the slot on screen (the presented slot is
/// never empty in a reachable state), so nothing blocks handing it out
/// again.
pub proof fn lemma_canceled_buffer_eligible(c: ChainV, b: BufferV)
    requires
        empty_choice(c) is Some,
        c.last != empty_choice(c),
    ensures
        eligible(canceled(c, empty_choice(c)->Some_0, b), empty_choice(c)->Some_0),
{
}

/// Depth-2 round robin: starting from a freshly configured chain holding
/// `b0` and `b1`, two `acquire` → `submit` cycles alternate the physical
/// buffers — the first acquire hands out `b0`, the second hands out `b1`,
/// and the third hands `b0` back together with the release fence `f0`
/// recorded when `b0` was presented.
pub proof fn lemma_depth2_round_robin(b0: BufferV, b1: BufferV, f0: Option<int>, f1: Option<int>)
    ensures
        ({
            let c0 = ChainV::freshly_filled(b0, b1);
            // First cycle: acquire hands out slot 0's buffer, b0 ...
            &&& acquire_choice(c0) == Some(0int)
            &&& c0.slot(0).buf == Some(b0)
            &&& c0.slot(0).fence is None
            &&& ({
                let c1 = taken(c0, 0);
                // ... and submit returns it to slot 0, now on screen.
                &&& empty_choice(c1) == Some(0int)
                &&& ({
                    let c2 = recorded(submitted(c1, 0, b0), 0, f0);
                    // Second cycle: slot 0 is on screen, so acquire hands
                    // out slot 1's buffer, b1 ...
                    &&& acquire_choice(c2) == Some(1int)
                    &&& c2.slot(1).buf == Some(b1)
                    &&& c2.slot(1).fence is None
                    &&& ({
                        let c3 = taken(c2, 1);
                        // ... and submit places it in slot 1, now on screen.
                        &&& empty_choice(c3) == Some(1int)
                        &&& ({
                            let c4 = recorded(submitted(c3, 1, b1), 1, f1);
                            // Third acquire: back to b0, with the release
                            // fence recorded for its presentation.
                            &&& acquire_choice(c4) == Some(0int)
                            &&& c4.slot(0).buf == Some(b0)
                            &&& c4.slot(0).fence == f0
                        })
                    })
                })
            })
        }),
{
}

/// A compositor failure does not corrupt the slot bookkeeping: whatever
/// fence ends up recorded for the submitted slot — the real release fence
/// on success, "no fence" for a dropped frame — the slots hold the same
/// buffers, the same slot is marked presented, and the next `acquire` and
/// the next submit placement choose the same slot.
pub proof fn lemma_commit_failure_keeps_bookkeeping(c: ChainV, i: int, fa: Option<int>, fb: Option<
    int,
>)
    requires
        i == 0 || i == 1,
    ensures
        ({
            let ca = recorded(c, i, fa);
            let cb = recorded(c, i, fb);
            &&& ca.last == cb.last
            &&& forall|j: int| 0 <= j < 2 ==> ca.slot(j).buf == cb.slot(j).buf
            &&& acquire_choice(ca) == acquire_choice(cb)
            &&& empty_choice(ca) == empty_choice(cb)
        }),
{
}

/// Acquire fails exactly when every eligible slot is empty; eligibility
/// spells out the scan rule the pool uses.
pub proof fn lemma_acquire_fails_iff_pool_empty(c: ChainV)
    ensures
        acquire_choice(c) is None <==> (forall|i: int| 0 <= i < 2 ==> !eligible(c, i)),
{
    assert(eligible(c, 0) ==> acquire_choice(c) is Some);
    assert(eligible(c, 1) ==> acquire_choice(c) is Some);
}

} // verus!
