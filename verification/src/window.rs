//! Windows: handles to top-level resources.

use crate::button::{ButtonView, WindowButton};
use crate::capability::{Immutable, Mutable, ProbablyMutable};
use crate::frame::{Frame, FrameView};
use crate::gateway::{get_window, Gateway, ResourceKind};
use crate::root::Root;
use std::marker::PhantomData;
use vstd::prelude::*;

verus! {

/// The width every window reports, in pixels. The gateway has no width query,
/// so the figure is fixed.
pub const WINDOW_WIDTH_PX: u16 = 400;

/// A window handle as a mathematical value.
pub struct WindowView {
    /// The identifier the gateway handed out for the window.
    pub id: usize,
    /// The name kept in the handle.
    pub name: Seq<char>,
    /// How many frames were made through this handle.
    pub frames_amount: nat,
    /// How many buttons were made through this handle.
    pub buttons_amount: nat,
}

impl WindowView {
    /// A handle as it is right after it was obtained: no name, nothing made.
    pub open spec fn fresh(id: usize) -> WindowView {
        WindowView { id, name: Seq::empty(), frames_amount: 0, buttons_amount: 0 }
    }

    /// The width the window reports.
    pub open spec fn width(self) -> u16 {
        WINDOW_WIDTH_PX
    }
}

/// A handle to a window, carrying the capability `T`. It borrows the root it
/// was obtained through, so it cannot outlive it.
pub struct Window<'a, T: ProbablyMutable> {
    id: usize,
    name: String,
    frames_amount: usize,
    buttons_amount: usize,
    #[allow(dead_code)]
    root: &'a Root,
    mutability: PhantomData<T>,
}

impl<'a, T: ProbablyMutable> View for Window<'a, T> {
    type V = WindowView;

    closed spec fn view(&self) -> WindowView {
        WindowView {
            id: self.id,
            name: self.name@,
            frames_amount: self.frames_amount as nat,
            buttons_amount: self.buttons_amount as nat,
        }
    }
}

impl<'a, T: ProbablyMutable> Window<'a, T> {
    /// A handle never carries `0`, the gateway's word for "no resource".
    #[verifier::type_invariant]
    spec fn names_a_resource(self) -> bool {
        self.id != 0
    }

    /// Turns a window identifier into a handle, if the gateway confirms that
    /// it has handed the identifier out.
    pub(crate) fn new(root: &'a Root, id: usize, gateway: &Gateway) -> (window: Option<Self>)
        ensures
            window.is_some() <==> gateway@.is_issued(ResourceKind::Window, id),
            window matches Some(w) ==> w@ == WindowView::fresh(id),
    {
        match get_window(gateway, id) {
            0 => None,
            _ => Some(
                Window {
                    id,
                    name: String::new(),
                    frames_amount: 0,
                    buttons_amount: 0,
                    root,
                    mutability: PhantomData,
                },
            ),
        }
    }

    /// The identifier of the window.
    pub fn get_id(&self) -> (id: usize)
        ensures
            id == self@.id,
            id != 0,
    {
        proof {
            use_type_invariant(self);
        }
        self.id
    }

    /// The name kept in the handle. It is empty until [`Window::set_name`]
    /// gives the handle one.
    pub fn get_name(&self) -> (name: &String)
        ensures
            name@ == self@.name,
    {
        &self.name
    }

    /// The width of the window in pixels, which is [`WINDOW_WIDTH_PX`] for
    /// every window.
    pub fn get_width(&self) -> (width: u16)
        ensures
            width == self@.width(),
    {
        WINDOW_WIDTH_PX
    }

    /// How many frames were made through this handle.
    pub fn frames_amount(&self) -> (amount: usize)
        ensures
            amount == self@.frames_amount,
    {
        self.frames_amount
    }

    /// How many buttons were made through this handle.
    pub fn buttons_amount(&self) -> (amount: usize)
        ensures
            amount == self@.buttons_amount,
    {
        self.buttons_amount
    }
}

impl<'a> Window<'a, Immutable> {
    /// A read-only handle to the frame `id`, if the gateway has handed that
    /// identifier out. Nothing is created and no counter moves.
    pub fn get_frame<'b>(&'b self, id: usize, gateway: &Gateway) -> (frame: Option<
        Frame<'b, Immutable>,
    >)
        ensures
            frame.is_some() <==> gateway@.is_issued(ResourceKind::Frame, id),
            frame matches Some(f) ==> f@ == FrameView::fresh(id, self@),
            frame matches Some(f) ==> f@.width() == self@.width(),
    {
        Frame::existing(self, id, gateway)
    }

    /// A read-only handle to the window button `id`, if the gateway has handed
    /// that identifier out. Nothing is created and no counter moves.
    pub fn get_button<'b>(&'b self, id: usize, gateway: &Gateway) -> (button: Option<
        WindowButton<'b, Immutable>,
    >)
        ensures
            button.is_some() <==> gateway@.is_issued(ResourceKind::WindowButton, id),
            button matches Some(b) ==> b@ == ButtonView::fresh(id, self@.id),
    {
        WindowButton::existing(self, id, gateway)
    }
}

impl<'a> Window<'a, Mutable> {
    /// Gives the handle a name. The name lives in the handle alone: the
    /// gateway is not told.
    pub fn set_name(&mut self, name: String)
        ensures
            final(self)@ == (WindowView { name: name@, ..old(self)@ }),
    {
        proof {
            use_type_invariant(&*self);
        }
        self.name = name;
    }

    /// Creates a frame in this window and hands back the mutable handle to it.
    /// The window stays borrowed while the frame handle is alive. The frame's
    /// identifier is new, and from now on the gateway knows it, so
    /// [`Window::get_frame`] finds the frame again.
    ///
    /// Both the gateway's frame counter and the window's own count of frames
    /// must have room for one more.
    pub fn make_frame<'b>(&'b mut self, gateway: &mut Gateway) -> (frame: Frame<'b, Mutable>)
        requires
            old(gateway)@.can_issue(ResourceKind::Frame),
            old(self)@.frames_amount < usize::MAX,
        ensures
            final(gateway)@ == old(gateway)@.mint(ResourceKind::Frame),
            final(self)@ == (WindowView {
                frames_amount: old(self)@.frames_amount + 1,
                ..old(self)@
            }),
            frame@ == FrameView::fresh(old(gateway)@.next_id(ResourceKind::Frame), final(self)@),
            frame@.width() == final(self)@.width(),
            !old(gateway)@.is_issued(ResourceKind::Frame, frame@.id),
            final(gateway)@.is_issued(ResourceKind::Frame, frame@.id),
    {
        proof {
            use_type_invariant(&*self);
        }
        let ordinal: usize = self.frames_amount;
        self.frames_amount = self.frames_amount + 1;
        let frame = Frame::new(&*self, ordinal, gateway);
        frame.unwrap()
    }

    /// Creates a button on this window and hands back the mutable handle to
    /// it. The window stays borrowed while the button handle is alive. The
    /// button's identifier is new, and from now on the gateway knows it, so
    /// [`Window::get_button`] finds the button again.
    ///
    /// Both the gateway's counter of window buttons and the window's own count
    /// of buttons must have room for one more.
    pub fn make_button<'b>(&'b mut self, gateway: &mut Gateway) -> (button: WindowButton<
        'b,
        Mutable,
    >)
        requires
            old(gateway)@.can_issue(ResourceKind::WindowButton),
            old(self)@.buttons_amount < usize::MAX,
        ensures
            final(gateway)@ == old(gateway)@.mint(ResourceKind::WindowButton),
            final(self)@ == (WindowView {
                buttons_amount: old(self)@.buttons_amount + 1,
                ..old(self)@
            }),
            button@ == ButtonView::fresh(
                old(gateway)@.next_id(ResourceKind::WindowButton),
                old(self)@.id,
            ),
            !old(gateway)@.is_issued(ResourceKind::WindowButton, button@.id),
            final(gateway)@.is_issued(ResourceKind::WindowButton, button@.id),
    {
        proof {
            use_type_invariant(&*self);
        }
        let ordinal: usize = self.buttons_amount;
        self.buttons_amount = self.buttons_amount + 1;
        let button = WindowButton::new(&*self, ordinal, gateway);
        button.unwrap()
    }
}

} // verus!
