//! The root: the one value every window handle is obtained through.

use crate::capability::{Immutable, Mutable};
use crate::gateway::{make_window, Gateway, ResourceKind};
use crate::window::{Window, WindowView};
use vstd::prelude::*;

verus! {

/// The entry point of the tree. It owns nothing of the gateway; it exists so
/// that window handles borrow from it. A [`Mutable`] window borrows the root
/// exclusively, so while it is alive no other window handle can be obtained;
/// [`Immutable`] windows share the root among themselves.
pub struct Root;

impl Root {
    /// A root with no window handle out yet.
    pub fn new() -> Root {
        Root
    }

    /// Creates a window and hands back the one mutable handle to it. The
    /// window's identifier is new, and from now on the gateway knows it, so
    /// [`Root::get_child`] finds the window again.
    ///
    /// The window counter must have an identifier left: a gateway that cannot
    /// create the window leaves nothing to hand back.
    pub fn make_child<'a>(&'a mut self, gateway: &mut Gateway) -> (child: Window<'a, Mutable>)
        requires
            old(gateway)@.can_issue(ResourceKind::Window),
        ensures
            final(gateway)@ == old(gateway)@.mint(ResourceKind::Window),
            child@ == WindowView::fresh(old(gateway)@.next_id(ResourceKind::Window)),
            !old(gateway)@.is_issued(ResourceKind::Window, child@.id),
            final(gateway)@.is_issued(ResourceKind::Window, child@.id),
    {
        let id: usize = make_window(gateway);
        let child = Window::new(self, id, gateway);
        child.unwrap()
    }

    /// A read-only handle to the window `id`, if the gateway has handed that
    /// identifier out. Any number of these may be alive together.
    pub fn get_child<'a>(&'a self, id: usize, gateway: &Gateway) -> (child: Option<
        Window<'a, Immutable>,
    >)
        ensures
            child.is_some() <==> gateway@.is_issued(ResourceKind::Window, id),
            child matches Some(window) ==> window@ == WindowView::fresh(id),
    {
        Window::new(self, id, gateway)
    }

    /// A mutable handle to the window `id`, if the gateway has handed that
    /// identifier out. The root stays borrowed exclusively while it is alive.
    pub fn get_child_mut<'a>(&'a mut self, id: usize, gateway: &Gateway) -> (child: Option<
        Window<'a, Mutable>,
    >)
        ensures
            child.is_some() <==> gateway@.is_issued(ResourceKind::Window, id),
            child matches Some(window) ==> window@ == WindowView::fresh(id),
    {
        Window::new(self, id, gateway)
    }
}

} // verus!
