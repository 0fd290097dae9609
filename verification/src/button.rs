//! Buttons: the leaf handles, one type for buttons on a window and one for
//! buttons on a frame.
//!
//! The two types offer the same operations, through [`Button`] and
//! [`ButtonMut`], and are otherwise unrelated: a button on a window cannot
//! stand in for a button on a frame.

use crate::capability::{Mutable, ProbablyMutable};
use crate::frame::Frame;
use crate::gateway::{
    click_state, frame_button_click, frame_button_is_clicked, frame_button_set_text,
    make_frame_button, make_window_button, validate, window_button_click,
    window_button_is_clicked, window_button_set_text, ControlEventView, Gateway, ResourceKind,
};
use crate::window::Window;
use vstd::prelude::*;

verus! {

/// A button handle as a mathematical value.
pub struct ButtonView {
    /// The identifier the gateway handed out for the button.
    pub id: usize,
    /// The identifier of the window or frame the button was obtained through.
    pub parent_id: usize,
    /// The text kept in the handle.
    pub text: Seq<char>,
}

impl ButtonView {
    /// A handle as it is right after it was obtained: no text.
    pub open spec fn fresh(id: usize, parent_id: usize) -> ButtonView {
        ButtonView { id, parent_id, text: Seq::empty() }
    }
}

/// What every button handle offers, whatever its capability.
pub trait Button<T: ProbablyMutable>: Sized + View<V = ButtonView> {
    /// The identifier of the button.
    fn get_id(&self) -> (id: usize)
        ensures
            id == self@.id,
            id != 0,
    ;

    /// Asks the gateway whether the button is held down, naming the button by
    /// its parent's identifier and its own.
    fn is_clicked(&self) -> (clicked: bool)
        ensures
            clicked == click_state(self@.parent_id, self@.id),
    ;

    /// The text kept in the handle. It is empty until
    /// [`ButtonMut::set_text`] gives the handle one.
    fn get_text(&self) -> (text: &String)
        ensures
            text@ == self@.text,
    ;
}

/// What a button handle offers in addition when it is mutable.
pub trait ButtonMut: Button<Mutable> {
    /// The journal entry that a click on `button` leaves.
    spec fn click_event(button: ButtonView) -> ControlEventView;

    /// The journal entry that setting the text of `button` to `text` leaves.
    spec fn text_event(button: ButtonView, text: Seq<char>) -> ControlEventView;

    /// Clicks the button. The click goes to the gateway; the handle is
    /// unchanged.
    fn click(&mut self, gateway: &mut Gateway)
        ensures
            final(self)@ == old(self)@,
            final(gateway)@ == old(gateway)@.record(Self::click_event(old(self)@)),
    ;

    /// Sets the button's text: the gateway is told first, then the handle
    /// keeps the text.
    fn set_text(&mut self, text: String, gateway: &mut Gateway)
        ensures
            final(self)@ == (ButtonView { text: text@, ..old(self)@ }),
            final(gateway)@ == old(gateway)@.record(Self::text_event(old(self)@, text@)),
    ;
}

/// A handle to a button on a window, carrying the capability `T` of the
/// window handle it was obtained through.
pub struct WindowButton<'a, T: ProbablyMutable> {
    id: usize,
    text: String,
    parent: &'a Window<'a, T>,
}

impl<'a, T: ProbablyMutable> View for WindowButton<'a, T> {
    type V = ButtonView;

    closed spec fn view(&self) -> ButtonView {
        ButtonView { id: self.id, parent_id: self.parent@.id, text: self.text@ }
    }
}

impl<'a, T: ProbablyMutable> WindowButton<'a, T> {
    /// A handle never carries `0`, the gateway's word for "no resource".
    #[verifier::type_invariant]
    spec fn names_a_resource(self) -> bool {
        self.id != 0
    }

    /// Creates a button through the gateway and wraps the identifier that the
    /// gateway answers. There is no button when the gateway answers `0`.
    ///
    /// `id` is the number the parent gives the request, its count of buttons
    /// made so far. It goes to the gateway with the request; the gateway does
    /// not look at it, and the button's identifier is the one it answers.
    pub(crate) fn new(parent: &'a Window<'a, T>, id: usize, gateway: &mut Gateway) -> (button:
        Option<Self>)
        ensures
            final(gateway)@ == old(gateway)@.mint(ResourceKind::WindowButton),
            button.is_some() <==> old(gateway)@.can_issue(ResourceKind::WindowButton),
            button matches Some(b) ==> b@ == ButtonView::fresh(
                old(gateway)@.next_id(ResourceKind::WindowButton),
                parent@.id,
            ),
    {
        let id: usize = make_window_button(gateway, id);
        match id {
            0 => None,
            id => Some(WindowButton { id, text: String::new(), parent }),
        }
    }

    /// Wraps the identifier of a window button that exists already, if the
    /// gateway confirms that it has handed the identifier out.
    pub(crate) fn existing(parent: &'a Window<'a, T>, id: usize, gateway: &Gateway) -> (button:
        Option<Self>)
        ensures
            button.is_some() <==> gateway@.is_issued(ResourceKind::WindowButton, id),
            button matches Some(b) ==> b@ == ButtonView::fresh(id, parent@.id),
    {
        match validate(gateway, ResourceKind::WindowButton, id) {
            0 => None,
            id => Some(WindowButton { id, text: String::new(), parent }),
        }
    }
}

impl<'a, T: ProbablyMutable> Button<T> for WindowButton<'a, T> {
    fn get_id(&self) -> (id: usize) {
        proof {
            use_type_invariant(self);
        }
        self.id
    }

    fn is_clicked(&self) -> (clicked: bool) {
        window_button_is_clicked(self.parent.get_id(), self.id)
    }

    fn get_text(&self) -> (text: &String) {
        &self.text
    }
}

impl<'a> ButtonMut for WindowButton<'a, Mutable> {
    open spec fn click_event(button: ButtonView) -> ControlEventView {
        ControlEventView::WindowButtonClicked { window_id: button.parent_id, button_id: button.id }
    }

    open spec fn text_event(button: ButtonView, text: Seq<char>) -> ControlEventView {
        ControlEventView::WindowButtonTextSet {
            window_id: button.parent_id,
            button_id: button.id,
            text,
        }
    }

    fn click(&mut self, gateway: &mut Gateway) {
        window_button_click(gateway, self.parent.get_id(), self.id)
    }

    fn set_text(&mut self, text: String, gateway: &mut Gateway) {
        proof {
            use_type_invariant(&*self);
        }
        window_button_set_text(gateway, self.parent.get_id(), self.id, &text);
        self.text = text;
    }
}

/// A handle to a button on a frame, carrying the capability `T` of the frame
/// handle it was obtained through.
pub struct FrameButton<'a, T: ProbablyMutable> {
    id: usize,
    text: String,
    parent: &'a Frame<'a, T>,
}

impl<'a, T: ProbablyMutable> View for FrameButton<'a, T> {
    type V = ButtonView;

    closed spec fn view(&self) -> ButtonView {
        ButtonView { id: self.id, parent_id: self.parent@.id, text: self.text@ }
    }
}

impl<'a, T: ProbablyMutable> FrameButton<'a, T> {
    /// A handle never carries `0`, the gateway's word for "no resource".
    #[verifier::type_invariant]
    spec fn names_a_resource(self) -> bool {
        self.id != 0
    }

    /// Creates a button through the gateway and wraps the identifier that the
    /// gateway answers. There is no button when the gateway answers `0`.
    ///
    /// `id` is the number the parent gives the request, its count of buttons
    /// made so far. It goes to the gateway with the request; the gateway does
    /// not look at it, and the button's identifier is the one it answers.
    pub(crate) fn new(parent: &'a Frame<'a, T>, id: usize, gateway: &mut Gateway) -> (button:
        Option<Self>)
        ensures
            final(gateway)@ == old(gateway)@.mint(ResourceKind::FrameButton),
            button.is_some() <==> old(gateway)@.can_issue(ResourceKind::FrameButton),
            button matches Some(b) ==> b@ == ButtonView::fresh(
                old(gateway)@.next_id(ResourceKind::FrameButton),
                parent@.id,
            ),
    {
        let id: usize = make_frame_button(gateway, id);
        match id {
            0 => None,
            id => Some(FrameButton { id, text: String::new(), parent }),
        }
    }

    /// Wraps the identifier of a frame button that exists already, if the
    /// gateway confirms that it has handed the identifier out.
    pub(crate) fn existing(parent: &'a Frame<'a, T>, id: usize, gateway: &Gateway) -> (button:
        Option<Self>)
        ensures
            button.is_some() <==> gateway@.is_issued(ResourceKind::FrameButton, id),
            button matches Some(b) ==> b@ == ButtonView::fresh(id, parent@.id),
    {
        match validate(gateway, ResourceKind::FrameButton, id) {
            0 => None,
            id => Some(FrameButton { id, text: String::new(), parent }),
        }
    }
}

impl<'a, T: ProbablyMutable> Button<T> for FrameButton<'a, T> {
    fn get_id(&self) -> (id: usize) {
        proof {
            use_type_invariant(self);
        }
        self.id
    }

    fn is_clicked(&self) -> (clicked: bool) {
        frame_button_is_clicked(self.parent.get_id(), self.id)
    }

    fn get_text(&self) -> (text: &String) {
        &self.text
    }
}

impl<'a> ButtonMut for FrameButton<'a, Mutable> {
    open spec fn click_event(button: ButtonView) -> ControlEventView {
        ControlEventView::FrameButtonClicked { frame_id: button.parent_id, button_id: button.id }
    }

    open spec fn text_event(button: ButtonView, text: Seq<char>) -> ControlEventView {
        ControlEventView::FrameButtonTextSet {
            frame_id: button.parent_id,
            button_id: button.id,
            text,
        }
    }

    fn click(&mut self, gateway: &mut Gateway) {
        frame_button_click(gateway, self.parent.get_id(), self.id)
    }

    fn set_text(&mut self, text: String, gateway: &mut Gateway) {
        proof {
            use_type_invariant(&*self);
        }
        frame_button_set_text(gateway, self.parent.get_id(), self.id, &text);
        self.text = text;
    }
}

} // verus!
