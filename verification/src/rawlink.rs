//! The kernel's nullable-link utility: an `Option`-like interface over a
//! link that is either unset or bound to a target.
//!
//! The kernel uses such links to thread values together without owning them.
//! The verified model captures what the safe interface observes: whether a
//! target is linked, and — in ghost state — which value was linked when the
//! link was made. Dereferencing a link is outside this model.

use vstd::prelude::*;

verus! {

/// A link that is either unset or bound to a target, with an `Option`-esque
/// interface.
pub struct RawLink<T> {
    present: bool,
    target: Ghost<Option<T>>,
}

impl<T> View for RawLink<T> {
    type V = Option<T>;

    closed spec fn view(&self) -> Option<T> {
        self.target@
    }
}

impl<T> RawLink<T> {
    /// The presence flag agrees with the ghost target.
    pub closed spec fn wf(self) -> bool {
        self.present <==> self@ is Some
    }

    /// The equivalent of `Option::None`: an unset link.
    pub fn none() -> (link: RawLink<T>)
        ensures
            link.wf(),
            link@ is None,
    {
        RawLink { present: false, target: Ghost(None) }
    }

    /// The equivalent of `Option::Some`: a link bound to the given target.
    /// The target itself is left unchanged.
    pub fn some(thing: &mut T) -> (link: RawLink<T>)
        ensures
            link.wf(),
            link@ == Some(*old(thing)),
            *final(thing) == *old(thing),
    {
        let target = Ghost(Some(*thing));
        RawLink { present: true, target }
    }

    /// Whether the link is bound to a target.
    pub fn is_some(&self) -> (r: bool)
        requires
            self.wf(),
        ensures
            r == (self@ is Some),
    {
        self.present
    }

    /// Whether the link is unset.
    pub fn is_none(&self) -> (r: bool)
        requires
            self.wf(),
        ensures
            r == (self@ is None),
    {
        !self.present
    }

    /// Returns the link and leaves an unset one in its place.
    pub fn take(&mut self) -> (taken: RawLink<T>)
        requires
            old(self).wf(),
        ensures
            taken.wf(),
            taken@ == old(self)@,
            final(self).wf(),
            final(self)@ is None,
    {
        let present = self.present;
        let target = Ghost(self.target@);
        self.present = false;
        self.target = Ghost(None);
        RawLink { present, target }
    }
}

impl<T> Default for RawLink<T> {
    /// An unset link, exactly as `none` builds it.
    fn default() -> (link: Self)
        ensures
            link.wf(),
            link@ is None,
    {
        Self::none()
    }
}

} // verus!
