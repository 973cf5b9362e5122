use vstd::prelude::*;
use crate::error::BioError;
use crate::step::{AllocEvent, Next};

verus! {

/// What a memory stream buffer is, abstractly: the native handle it wraps and
/// whether it is responsible for releasing that handle.
pub struct MemBioView<H> {
    pub handle: H,
    pub owned: bool,
}

/// A buffer over a native memory-stream handle of type `H`, either owned
/// (released when the buffer is destroyed) or borrowed (never released here).
#[derive(Debug)]
pub struct MemBio<H> {
    bio: H,
    owned: bool,
}

impl<H> View for MemBio<H> {
    type V = MemBioView<H>;

    closed spec fn view(&self) -> MemBioView<H> {
        MemBioView { handle: self.bio, owned: self.owned }
    }
}

/// The state of a buffer that owns `h`.
pub open spec fn owned_view<H>(h: H) -> MemBioView<H> {
    MemBioView { handle: h, owned: true }
}

/// The state of a buffer that only borrows `h`.
pub open spec fn borrowed_view<H>(h: H) -> MemBioView<H> {
    MemBioView { handle: h, owned: false }
}

/// The handle that destroying a buffer in state `v` must release, if any.
pub open spec fn released_by<H>(v: MemBioView<H>) -> Option<H> {
    if v.owned {
        Some(v.handle)
    } else {
        None
    }
}

/// The state a buffer is left in once its handle has been released or handed
/// out: same handle, no responsibility for it.
pub open spec fn disowned<H>(v: MemBioView<H>) -> MemBioView<H> {
    MemBioView { handle: v.handle, owned: false }
}

/// Destroying a buffer that owns its handle releases that handle, and only
/// once: destroying it again releases nothing, and neither does destroying a
/// buffer whose handle has been handed out.
pub proof fn lemma_single_release<H>(h: H, v: MemBioView<H>)
    ensures
        released_by(owned_view(h)) == Some(h),
        released_by(disowned(owned_view(h))) is None,
        released_by(disowned(v)) is None,
{
}

/// Destroying a borrowed buffer never releases its handle and leaves it
/// wrapped as it was, so the handle's owner can go on using it.
pub proof fn lemma_borrowed_never_releases<H>(h: H)
    ensures
        released_by(borrowed_view(h)) is None,
        disowned(borrowed_view(h)) == borrowed_view(h),
{
}

impl<H: Copy> MemBio<H> {
    /// Decides what follows a native report during the allocation of a fresh
    /// stream: a handle gives a buffer that owns it; a null handle asks for the
    /// native error state, which becomes the detail of an `Allocation` error.
    pub fn new(ev: AllocEvent<H>) -> (r: Next<MemBio<H>>)
        ensures
            match ev {
                AllocEvent::Allocated(Some(h)) => r matches Next::Done(Ok(b)) && b@ == owned_view(h),
                AllocEvent::Allocated(None) => r is CaptureError,
                AllocEvent::ErrorCaptured(d) => r matches Next::Done(Err(e)) && e == BioError::Allocation(d),
            },
    {
        match ev {
            AllocEvent::Allocated(Some(h)) => Next::Done(Ok(MemBio::owning(h))),
            AllocEvent::Allocated(None) => Next::CaptureError,
            AllocEvent::ErrorCaptured(d) => Next::Done(Err(BioError::Allocation(d))),
        }
    }

    /// A buffer that owns the freshly allocated handle `bio`.
    pub fn owning(bio: H) -> (r: MemBio<H>)
        ensures
            r@ == owned_view(bio),
    {
        MemBio { bio, owned: true }
    }

    /// A buffer over a handle owned elsewhere; destroying it releases nothing.
    /// The caller keeps `bio` valid for as long as the buffer is used.
    pub fn borrowed(bio: H) -> (r: MemBio<H>)
        ensures
            r@ == borrowed_view(bio),
    {
        MemBio { bio, owned: false }
    }

    /// The wrapped handle, for native calls; ownership is unchanged.
    pub fn get_handle(&self) -> (r: H)
        ensures
            r == self@.handle,
    {
        self.bio
    }

    /// Whether destroying this buffer releases its handle.
    pub fn owns_handle(&self) -> (r: bool)
        ensures
            r == self@.owned,
    {
        self.owned
    }

    /// Hands the handle out and gives up responsibility for it, so that a
    /// later destruction of this buffer releases nothing.
    pub fn transfer(&mut self) -> (r: H)
        ensures
            r == old(self)@.handle,
            final(self)@ == disowned(old(self)@),
    {
        self.owned = false;
        self.bio
    }

    /// Destruction: yields the handle that must now be released, if this
    /// buffer owns it, and leaves the buffer owning nothing, so a second
    /// destruction yields nothing.
    pub fn release(&mut self) -> (r: Option<H>)
        ensures
            r == released_by(old(self)@),
            final(self)@ == disowned(old(self)@),
    {
        if self.owned {
            self.owned = false;
            Some(self.bio)
        } else {
            None
        }
    }

    /// Consumes the buffer and returns its handle; the caller becomes solely
    /// responsible for it, and nothing is released here.
    pub fn unwrap(self) -> (r: H)
        ensures
            r == self@.handle,
    {
        let mut b = self;
        let h = b.transfer();
        let left = b.release();
        assert(left is None);
        h
    }
}

} // verus!
