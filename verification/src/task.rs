use std::mem::ManuallyDrop;
use std::task::Waker;
use vstd::prelude::*;

use crate::thin_arc_list::ThinArcItem;

verus! {

#[verifier::external_type_specification]
#[verifier::external_body]
pub struct ExWaker(Waker);

/// What a value of a [`crate::thin_arc_list::ThinArcList`] does when the task it stands for is woken.
pub trait ThinItemWake<H>: Sized {
    /// Wakes the task, consuming the item; by default the same as [`ThinItemWake::wake_by_ref`]:
    /// the provided body wakes by reference the very item it is given.
    fn wake(this: ThinArcItem<H, Self>)
        default_ensures
            call_ensures(Self::wake_by_ref, (&this,), ()),
    {
        Self::wake_by_ref(&this);
    }

    /// Wakes the task, leaving the item in place.
    fn wake_by_ref(this: &ThinArcItem<H, Self>);
}

/// Where a [`WakerRef`] has its waker from.
#[derive(Debug)]
enum HeldWaker<'a> {
    /// A waker borrowed for `'a`.
    Borrowed(&'a Waker),
    /// A waker that is never dropped.
    Unowned(ManuallyDrop<Waker>),
}

/// A [`Waker`] that is only valid for a given lifetime.
///
/// Note: this type implements [`Deref<Target = Waker>`](std::ops::Deref),
/// so it can be used to get a `&Waker`.
#[derive(Debug)]
pub struct WakerRef<'a> {
    waker: HeldWaker<'a>,
}

impl<'a> WakerRef<'a> {
    /// The waker this `WakerRef` gives access to.
    pub closed spec fn waker(self) -> Waker {
        match self.waker {
            HeldWaker::Borrowed(w) => *w,
            HeldWaker::Unowned(m) => m@,
        }
    }

    /// Create a new [`WakerRef`] from a [`Waker`] reference; the waker is neither cloned nor dropped.
    pub fn new(waker: &'a Waker) -> (r: Self)
        ensures
            r.waker() == *waker,
    {
        WakerRef { waker: HeldWaker::Borrowed(waker) }
    }

    /// Create a new [`WakerRef`] from a [`Waker`] that must not be dropped.
    ///
    /// Note: this if for rare cases where the caller created a [`Waker`] that will be
    /// valid only for a lifetime to be determined by the caller, and the [`Waker`]
    /// doesn't need to or must not be destroyed.
    pub fn new_unowned(waker: ManuallyDrop<Waker>) -> (r: Self)
        ensures
            r.waker() == waker@,
    {
        WakerRef { waker: HeldWaker::Unowned(waker) }
    }
}

impl std::ops::Deref for WakerRef<'_> {
    type Target = Waker;

    fn deref(&self) -> (waker: &Waker)
        ensures
            *waker == self.waker(),
    {
        match &self.waker {
            HeldWaker::Borrowed(w) => w,
            HeldWaker::Unowned(m) => m,
        }
    }
}

} // verus!
