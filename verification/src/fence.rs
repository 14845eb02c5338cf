//! Synchronization-fence handles.
//!
//! A fence stands for a future point at which an asynchronous hardware
//! operation (render completion, display read completion) becomes safe to
//! assume complete.  It is a capability, not an ownership unit of GPU state:
//! whichever party takes final ownership of the value must close its file
//! descriptor exactly once, or descriptors leak.  The verified core never
//! performs the close system call itself; every operation that discards a
//! fence instead hands the descriptor back to its caller in a disposal list,
//! and the contracts pin down exactly which descriptors appear there.

use vstd::prelude::*;

verus! {

/// A synchronization-fence slot: either no fence is recorded, or a fence
/// backed by the file descriptor it carries.
#[derive(Clone, Copy, Debug, PartialEq, Eq, Structural)]
pub enum Fence {
    /// No completion point is pending ("no fence").
    NoFence,
    /// A pending completion point, backed by the given descriptor.
    Fd(i32),
}

impl View for Fence {
    type V = Option<int>;

    open spec fn view(&self) -> Option<int> {
        match *self {
            Fence::NoFence => None,
            Fence::Fd(fd) => Some(fd as int),
        }
    }
}

impl Fence {
    /// A well-formed fence never carries a negative descriptor; the
    /// "no fence" state is `NoFence`, not a sentinel value.
    pub open spec fn wf(self) -> bool {
        match self {
            Fence::NoFence => true,
            Fence::Fd(fd) => fd >= 0,
        }
    }

    /// The descriptors a final owner must close when discarding this fence:
    /// one for a real fence, none otherwise.
    pub open spec fn fds_to_close(self) -> Seq<i32> {
        match self {
            Fence::NoFence => Seq::empty(),
            Fence::Fd(fd) => seq![fd],
        }
    }

    /// True when a fence is recorded.
    pub fn is_real(&self) -> (r: bool)
        ensures
            r == (*self is Fd),
    {
        match *self {
            Fence::NoFence => false,
            Fence::Fd(_) => true,
        }
    }
}

/// Appends the descriptors owed for `f` to a disposal list.
pub fn push_fds_to_close(out: &mut Vec<i32>, f: Fence)
    ensures
        final(out)@ == old(out)@ + f.fds_to_close(),
{
    match f {
        Fence::NoFence => {}
        Fence::Fd(fd) => {
            out.push(fd);
        }
    }
}

} // verus!
