//! Frames: handles to resources nested in a window.

use crate::button::{ButtonView, FrameButton};
use crate::capability::{Immutable, Mutable, ProbablyMutable};
use crate::gateway::{make_frame, validate, Gateway, ResourceKind};
use crate::window::{Window, WindowView};
use vstd::prelude::*;

verus! {

/// A frame handle as a mathematical value.
pub struct FrameView {
    /// The identifier the gateway handed out for the frame.
    pub id: usize,
    /// The width set on the frame, if one was set.
    pub width_px: Option<u16>,
    /// How many buttons were made through this handle.
    pub buttons_amount: nat,
    /// The window the frame was obtained through.
    pub window: WindowView,
}

impl FrameView {
    /// A handle as it is right after it was obtained: no width of its own,
    /// nothing made.
    pub open spec fn fresh(id: usize, window: WindowView) -> FrameView {
        FrameView { id, width_px: None, buttons_amount: 0, window }
    }

    /// The width the frame reports: its own if one was set, its window's
    /// otherwise.
    pub open spec fn width(self) -> u16 {
        match self.width_px {
            Some(width) => width,
            None => self.window.width(),
        }
    }

    /// A frame without a width of its own reports the width of its window.
    pub proof fn lemma_width_inherited(self)
        requires
            self.width_px is None,
        ensures
            self.width() == self.window.width(),
    {
    }

    /// A frame with a width of its own reports that width, whatever its
    /// window reports.
    pub proof fn lemma_width_overrides(self, width_px: u16)
        requires
            self.width_px == Some(width_px),
        ensures
            self.width() == width_px,
    {
    }
}

/// A handle to a frame, carrying the capability `T` of the window handle it
/// was obtained through. It borrows that handle, so it cannot outlive it.
pub struct Frame<'a, T: ProbablyMutable> {
    window: &'a Window<'a, T>,
    id: usize,
    width_px: Option<u16>,
    buttons_amount: usize,
}

impl<'a, T: ProbablyMutable> View for Frame<'a, T> {
    type V = FrameView;

    closed spec fn view(&self) -> FrameView {
        FrameView {
            id: self.id,
            width_px: self.width_px,
            buttons_amount: self.buttons_amount as nat,
            window: self.window@,
        }
    }
}

impl<'a, T: ProbablyMutable> Frame<'a, T> {
    /// A handle never carries `0`, the gateway's word for "no resource".
    #[verifier::type_invariant]
    spec fn names_a_resource(self) -> bool {
        self.id != 0
    }

    /// Creates a frame through the gateway and wraps the identifier that the
    /// gateway answers. There is no frame when the gateway answers `0`.
    ///
    /// `id` is the number the window gives the request, its count of frames
    /// made so far. It goes to the gateway with the request; the gateway does
    /// not look at it, and the frame's identifier is the one it answers.
    pub(crate) fn new(window: &'a Window<'a, T>, id: usize, gateway: &mut Gateway) -> (frame:
        Option<Self>)
        ensures
            final(gateway)@ == old(gateway)@.mint(ResourceKind::Frame),
            frame.is_some() <==> old(gateway)@.can_issue(ResourceKind::Frame),
            frame matches Some(f) ==> f@ == FrameView::fresh(
                old(gateway)@.next_id(ResourceKind::Frame),
                window@,
            ),
    {
        let id: usize = make_frame(gateway, id);
        match id {
            0 => None,
            id => Some(Frame { window, id, width_px: None, buttons_amount: 0 }),
        }
    }

    /// Wraps the identifier of a frame that exists already, if the gateway
    /// confirms that it has handed the identifier out.
    pub(crate) fn existing(window: &'a Window<'a, T>, id: usize, gateway: &Gateway) -> (frame:
        Option<Self>)
        ensures
            frame.is_some() <==> gateway@.is_issued(ResourceKind::Frame, id),
            frame matches Some(f) ==> f@ == FrameView::fresh(id, window@),
    {
        match validate(gateway, ResourceKind::Frame, id) {
            0 => None,
            id => Some(Frame { window, id, width_px: None, buttons_amount: 0 }),
        }
    }

    /// The identifier of the frame.
    pub fn get_id(&self) -> (id: usize)
        ensures
            id == self@.id,
            id != 0,
    {
        proof {
            use_type_invariant(self);
        }
        self.id
    }

    /// The width of the frame in pixels: the one set on this handle, or else
    /// the width of the window.
    pub fn get_width(&self) -> (width: u16)
        ensures
            width == self@.width(),
    {
        match self.width_px {
            None => self.window.get_width(),
            Some(width) => width,
        }
    }

    /// How many buttons were made through this handle.
    pub fn buttons_amount(&self) -> (amount: usize)
        ensures
            amount == self@.buttons_amount,
    {
        self.buttons_amount
    }
}

impl<'a> Frame<'a, Immutable> {
    /// A read-only handle to the frame button `id`, if the gateway has handed
    /// that identifier out. Nothing is created and no counter moves.
    pub fn get_button<'b>(&'b self, id: usize, gateway: &Gateway) -> (button: Option<
        FrameButton<'b, Immutable>,
    >)
        ensures
            button.is_some() <==> gateway@.is_issued(ResourceKind::FrameButton, id),
            button matches Some(b) ==> b@ == ButtonView::fresh(id, self@.id),
    {
        FrameButton::existing(self, id, gateway)
    }
}

impl<'a> Frame<'a, Mutable> {
    /// Gives the frame a width of its own, which from now on takes the place
    /// of the window's. The width lives in the handle alone: the gateway is
    /// not told.
    pub fn set_width(&mut self, width_px: u16)
        ensures
            final(self)@ == (FrameView { width_px: Some(width_px), ..old(self)@ }),
            final(self)@.width() == width_px,
    {
        proof {
            use_type_invariant(&*self);
        }
        self.width_px = Some(width_px);
    }

    /// Creates a button on this frame and hands back the mutable handle to it.
    /// The frame stays borrowed while the button handle is alive. The button's
    /// identifier is new, and from now on the gateway knows it, so
    /// [`Frame::get_button`] finds the button again.
    ///
    /// Both the gateway's counter of frame buttons and the frame's own count
    /// of buttons must have room for one more.
    pub fn make_button<'b>(&'b mut self, gateway: &mut Gateway) -> (button: FrameButton<
        'b,
        Mutable,
    >)
        requires
            old(gateway)@.can_issue(ResourceKind::FrameButton),
            old(self)@.buttons_amount < usize::MAX,
        ensures
            final(gateway)@ == old(gateway)@.mint(ResourceKind::FrameButton),
            final(self)@ == (FrameView {
                buttons_amount: old(self)@.buttons_amount + 1,
                ..old(self)@
            }),
            button@ == ButtonView::fresh(
                old(gateway)@.next_id(ResourceKind::FrameButton),
                old(self)@.id,
            ),
            !old(gateway)@.is_issued(ResourceKind::FrameButton, button@.id),
            final(gateway)@.is_issued(ResourceKind::FrameButton, button@.id),
    {
        proof {
            use_type_invariant(&*self);
        }
        let ordinal: usize = self.buttons_amount;
        self.buttons_amount = self.buttons_amount + 1;
        let button = FrameButton::new(&*self, ordinal, gateway);
        button.unwrap()
    }
}

} // verus!
