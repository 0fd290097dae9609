//! The resource gateway: four identifier counters and a journal of the
//! changes requested of controls.
//!
//! The gateway is deliberately permissive. It hands out identifiers, answers
//! whether an identifier has been handed out, and writes down what it is asked
//! to change. It never looks at the parent an identifier is used under; tying
//! identifiers to parents is the job of the handle types built on top of it.
//!
//! Identifier `0` is never handed out: it is the gateway's way of saying
//! "no resource". A counter that has reached `usize::MAX` is exhausted, and
//! creation answers `0` from then on, leaving the counter where it is.

use vstd::prelude::*;

verus! {

/// The four identifier spaces of the gateway. Each has a counter of its own,
/// so an identifier means something only together with its kind.
#[derive(Clone, Copy, Debug, PartialEq, Eq, Structural)]
pub enum ResourceKind {
    /// Top-level resources.
    Window,
    /// Resources nested in a window.
    Frame,
    /// Controls on a window.
    WindowButton,
    /// Controls on a frame.
    FrameButton,
}

/// A change requested of a control, as the gateway writes it down.
#[derive(Debug, PartialEq, Eq)]
pub enum ControlEvent {
    WindowButtonClicked { window_id: usize, button_id: usize },
    WindowButtonTextSet { window_id: usize, button_id: usize, text: String },
    FrameButtonClicked { frame_id: usize, button_id: usize },
    FrameButtonTextSet { frame_id: usize, button_id: usize, text: String },
}

/// What a [`ControlEvent`] says, with the text as a sequence of characters.
pub enum ControlEventView {
    WindowButtonClicked { window_id: usize, button_id: usize },
    WindowButtonTextSet { window_id: usize, button_id: usize, text: Seq<char> },
    FrameButtonClicked { frame_id: usize, button_id: usize },
    FrameButtonTextSet { frame_id: usize, button_id: usize, text: Seq<char> },
}

impl View for ControlEvent {
    type V = ControlEventView;

    open spec fn view(&self) -> ControlEventView {
        match *self {
            ControlEvent::WindowButtonClicked { window_id, button_id } => {
                ControlEventView::WindowButtonClicked { window_id, button_id }
            },
            ControlEvent::WindowButtonTextSet { window_id, button_id, text } => {
                ControlEventView::WindowButtonTextSet { window_id, button_id, text: text@ }
            },
            ControlEvent::FrameButtonClicked { frame_id, button_id } => {
                ControlEventView::FrameButtonClicked { frame_id, button_id }
            },
            ControlEvent::FrameButtonTextSet { frame_id, button_id, text } => {
                ControlEventView::FrameButtonTextSet { frame_id, button_id, text: text@ }
            },
        }
    }
}

/// What the click query answers for the button `button_id` under the parent
/// `parent_id`. The gateway keeps no click state, so the answer is `false`
/// for every button.
pub open spec fn click_state(parent_id: usize, button_id: usize) -> bool {
    false
}

/// What a journal says: each entry by its view, in the same order.
pub open spec fn journal(events: Seq<ControlEvent>) -> Seq<ControlEventView> {
    events.map_values(|event: ControlEvent| event@)
}

/// The gateway as a mathematical value: how many identifiers of each kind it
/// has handed out, and the journal of control changes, oldest first.
pub struct GatewayView {
    pub windows: nat,
    pub frames: nat,
    pub window_buttons: nat,
    pub frame_buttons: nat,
    pub events: Seq<ControlEventView>,
}

impl GatewayView {
    /// The gateway before anything was asked of it.
    pub open spec fn initial() -> GatewayView {
        GatewayView {
            windows: 0,
            frames: 0,
            window_buttons: 0,
            frame_buttons: 0,
            events: Seq::empty(),
        }
    }

    /// How many identifiers of `kind` have been handed out.
    pub open spec fn issued(self, kind: ResourceKind) -> nat {
        match kind {
            ResourceKind::Window => self.windows,
            ResourceKind::Frame => self.frames,
            ResourceKind::WindowButton => self.window_buttons,
            ResourceKind::FrameButton => self.frame_buttons,
        }
    }

    /// Whether `id` has been handed out for `kind`. Identifiers are handed out
    /// in the order 1, 2, 3, ..., so these are the identifiers up to the count.
    pub open spec fn is_issued(self, kind: ResourceKind, id: usize) -> bool {
        1 <= id <= self.issued(kind)
    }

    /// Whether the counter of `kind` has an identifier left to hand out.
    pub open spec fn can_issue(self, kind: ResourceKind) -> bool {
        self.issued(kind) < usize::MAX
    }

    /// The identifier that the next creation of `kind` answers: the successor
    /// of the count, or `0` when the counter is exhausted.
    pub open spec fn next_id(self, kind: ResourceKind) -> usize {
        if self.can_issue(kind) {
            (self.issued(kind) + 1) as usize
        } else {
            0
        }
    }

    /// The gateway with the counter of `kind` set to `count`.
    pub open spec fn with_issued(self, kind: ResourceKind, count: nat) -> GatewayView {
        match kind {
            ResourceKind::Window => GatewayView { windows: count, ..self },
            ResourceKind::Frame => GatewayView { frames: count, ..self },
            ResourceKind::WindowButton => GatewayView { window_buttons: count, ..self },
            ResourceKind::FrameButton => GatewayView { frame_buttons: count, ..self },
        }
    }

    /// The gateway after one creation of `kind`: the counter advances by one,
    /// unless it is exhausted, in which case nothing changes.
    pub open spec fn mint(self, kind: ResourceKind) -> GatewayView {
        if self.can_issue(kind) {
            self.with_issued(kind, self.issued(kind) + 1)
        } else {
            self
        }
    }

    /// What validation answers for `id`: the identifier itself if it has been
    /// handed out for `kind`, and `0` otherwise.
    pub open spec fn validate(self, kind: ResourceKind, id: usize) -> usize {
        if self.is_issued(kind, id) {
            id
        } else {
            0
        }
    }

    /// The gateway after `event` was written to the end of the journal.
    pub open spec fn record(self, event: ControlEventView) -> GatewayView {
        GatewayView { events: self.events.push(event), ..self }
    }

    /// An identifier that a creation answers was not handed out before, is
    /// handed out afterwards, and validates to itself right away. Every
    /// identifier handed out before stays handed out, and a creation of one
    /// kind hands out nothing of another.
    pub proof fn lemma_created_is_found(self, kind: ResourceKind)
        requires
            self.can_issue(kind),
        ensures
            self.next_id(kind) != 0,
            !self.is_issued(kind, self.next_id(kind)),
            self.mint(kind).is_issued(kind, self.next_id(kind)),
            self.mint(kind).validate(kind, self.next_id(kind)) == self.next_id(kind),
            forall|other: ResourceKind, id: usize|
                self.mint(kind).is_issued(other, id) <==> self.is_issued(other, id) || (other
                    == kind && id == self.next_id(kind)),
    {
    }

    /// An exhausted counter answers `0` and hands out nothing more.
    pub proof fn lemma_exhausted_creates_nothing(self, kind: ResourceKind)
        requires
            !self.can_issue(kind),
        ensures
            self.next_id(kind) == 0,
            self.mint(kind) == self,
    {
    }

    /// Writing to the journal hands out nothing and takes nothing back.
    pub proof fn lemma_record_keeps_identifiers(self, event: ControlEventView)
        ensures
            forall|kind: ResourceKind, id: usize|
                self.record(event).is_issued(kind, id) <==> self.is_issued(kind, id),
    {
    }
}

/// The gateway's state. All of it is explicit: whoever holds the value holds
/// the counters, and there is no other copy.
pub struct Gateway {
    windows: usize,
    frames: usize,
    window_buttons: usize,
    frame_buttons: usize,
    events: Vec<ControlEvent>,
}

impl View for Gateway {
    type V = GatewayView;

    closed spec fn view(&self) -> GatewayView {
        GatewayView {
            windows: self.windows as nat,
            frames: self.frames as nat,
            window_buttons: self.window_buttons as nat,
            frame_buttons: self.frame_buttons as nat,
            events: journal(self.events@),
        }
    }
}

impl Gateway {
    /// A gateway that has handed out nothing and written down nothing.
    pub fn new() -> (gateway: Gateway)
        ensures
            gateway@ == GatewayView::initial(),
    {
        let gateway = Gateway {
            windows: 0,
            frames: 0,
            window_buttons: 0,
            frame_buttons: 0,
            events: Vec::new(),
        };
        assert(gateway@.events =~= Seq::empty());
        gateway
    }

    /// A gateway that picks up where an earlier one left off: it counts the
    /// given numbers of identifiers as handed out, and its journal is empty.
    pub fn resume(
        windows: usize,
        frames: usize,
        window_buttons: usize,
        frame_buttons: usize,
    ) -> (gateway: Gateway)
        ensures
            gateway@ == (GatewayView {
                windows: windows as nat,
                frames: frames as nat,
                window_buttons: window_buttons as nat,
                frame_buttons: frame_buttons as nat,
                events: Seq::empty(),
            }),
    {
        let gateway = Gateway { windows, frames, window_buttons, frame_buttons, events: Vec::new() };
        assert(gateway@.events =~= Seq::empty());
        gateway
    }

    /// The number of identifiers of `kind` handed out so far.
    pub fn issued(&self, kind: ResourceKind) -> (count: usize)
        ensures
            count == self@.issued(kind),
    {
        match kind {
            ResourceKind::Window => self.windows,
            ResourceKind::Frame => self.frames,
            ResourceKind::WindowButton => self.window_buttons,
            ResourceKind::FrameButton => self.frame_buttons,
        }
    }

    /// Whether a creation of `kind` would hand out an identifier.
    pub fn can_issue(&self, kind: ResourceKind) -> (room: bool)
        ensures
            room == self@.can_issue(kind),
    {
        self.issued(kind) < usize::MAX
    }

    /// The journal of control changes, oldest first.
    pub fn events(&self) -> (events: &Vec<ControlEvent>)
        ensures
            journal(events@) == self@.events,
            events@.len() == self@.events.len(),
            forall|at: int| 0 <= at < events@.len() ==> (#[trigger] events@[at])@ == self@.events[at],
    {
        &self.events
    }

    /// Hands out the next identifier of `kind`.
    fn mint(&mut self, kind: ResourceKind) -> (id: usize)
        ensures
            final(self)@ == old(self)@.mint(kind),
            id == old(self)@.next_id(kind),
    {
        match kind {
            ResourceKind::Window => advance(&mut self.windows),
            ResourceKind::Frame => advance(&mut self.frames),
            ResourceKind::WindowButton => advance(&mut self.window_buttons),
            ResourceKind::FrameButton => advance(&mut self.frame_buttons),
        }
    }

    /// Writes `event` to the end of the journal.
    fn record(&mut self, event: ControlEvent)
        ensures
            final(self)@ == old(self)@.record(event@),
    {
        self.events.push(event);
        assert(self@.events =~= old(self)@.events.push(event@));
    }
}

/// Moves a counter to its successor and answers the new count, or answers `0`
/// and leaves the counter alone when it cannot go further.
fn advance(counter: &mut usize) -> (id: usize)
    ensures
        *old(counter) < usize::MAX ==> *final(counter) == *old(counter) + 1,
        *old(counter) < usize::MAX ==> id == *final(counter),
        *old(counter) == usize::MAX ==> *final(counter) == *old(counter),
        *old(counter) == usize::MAX ==> id == 0,
{
    if *counter < usize::MAX {
        *counter = *counter + 1;
        *counter
    } else {
        0
    }
}

/// Creates a top-level resource and answers its identifier, or `0` when the
/// window counter is exhausted.
pub fn make_window(gateway: &mut Gateway) -> (id: usize)
    ensures
        final(gateway)@ == old(gateway)@.mint(ResourceKind::Window),
        id == old(gateway)@.next_id(ResourceKind::Window),
{
    gateway.mint(ResourceKind::Window)
}

/// Validates a window identifier: answers `window_id` if it has been handed
/// out, and `0` if it has not. Asking changes nothing.
pub fn get_window(gateway: &Gateway, window_id: usize) -> (id: usize)
    ensures
        id == gateway@.validate(ResourceKind::Window, window_id),
{
    validate(gateway, ResourceKind::Window, window_id)
}

/// Validates an identifier of any kind.
pub fn validate(gateway: &Gateway, kind: ResourceKind, candidate: usize) -> (id: usize)
    ensures
        id == gateway@.validate(kind, candidate),
{
    if 1 <= candidate && candidate <= gateway.issued(kind) {
        candidate
    } else {
        0
    }
}

/// Creates a frame and answers its identifier, or `0` when the frame counter
/// is exhausted. The gateway does not look at `_window_id`.
pub fn make_frame(gateway: &mut Gateway, _window_id: usize) -> (id: usize)
    ensures
        final(gateway)@ == old(gateway)@.mint(ResourceKind::Frame),
        id == old(gateway)@.next_id(ResourceKind::Frame),
{
    gateway.mint(ResourceKind::Frame)
}

/// Creates a button on a window and answers its identifier, or `0` when the
/// counter of window buttons is exhausted. The gateway does not look at
/// `_window_id`.
pub fn make_window_button(gateway: &mut Gateway, _window_id: usize) -> (id: usize)
    ensures
        final(gateway)@ == old(gateway)@.mint(ResourceKind::WindowButton),
        id == old(gateway)@.next_id(ResourceKind::WindowButton),
{
    gateway.mint(ResourceKind::WindowButton)
}

/// Creates a button on a frame and answers its identifier, or `0` when the
/// counter of frame buttons is exhausted. The gateway does not look at
/// `_frame_id`.
pub fn make_frame_button(gateway: &mut Gateway, _frame_id: usize) -> (id: usize)
    ensures
        final(gateway)@ == old(gateway)@.mint(ResourceKind::FrameButton),
        id == old(gateway)@.next_id(ResourceKind::FrameButton),
{
    gateway.mint(ResourceKind::FrameButton)
}

/// Whether the button `_button_id` on the window `_window_id` is held down.
/// The gateway keeps no click state, so the answer is always `false`.
pub fn window_button_is_clicked(_window_id: usize, _button_id: usize) -> (clicked: bool)
    ensures
        clicked == click_state(_window_id, _button_id),
{
    false
}

/// Clicks a button on a window: the click is written to the journal.
pub fn window_button_click(gateway: &mut Gateway, window_id: usize, button_id: usize)
    ensures
        final(gateway)@ == old(gateway)@.record(
            ControlEventView::WindowButtonClicked { window_id, button_id },
        ),
{
    gateway.record(ControlEvent::WindowButtonClicked { window_id, button_id });
}

/// Sets the text of a button on a window: the change is written to the
/// journal.
pub fn window_button_set_text(
    gateway: &mut Gateway,
    window_id: usize,
    button_id: usize,
    text: &String,
)
    ensures
        final(gateway)@ == old(gateway)@.record(
            ControlEventView::WindowButtonTextSet { window_id, button_id, text: text@ },
        ),
{
    gateway.record(ControlEvent::WindowButtonTextSet { window_id, button_id, text: text.clone() });
}

/// Whether the button `_button_id` on the frame `_frame_id` is held down. The
/// gateway keeps no click state, so the answer is always `false`.
pub fn frame_button_is_clicked(_frame_id: usize, _button_id: usize) -> (clicked: bool)
    ensures
        clicked == click_state(_frame_id, _button_id),
{
    false
}

/// Clicks a button on a frame: the click is written to the journal.
pub fn frame_button_click(gateway: &mut Gateway, frame_id: usize, button_id: usize)
    ensures
        final(gateway)@ == old(gateway)@.record(
            ControlEventView::FrameButtonClicked { frame_id, button_id },
        ),
{
    gateway.record(ControlEvent::FrameButtonClicked { frame_id, button_id });
}

/// Sets the text of a button on a frame: the change is written to the journal.
pub fn frame_button_set_text(
    gateway: &mut Gateway,
    frame_id: usize,
    button_id: usize,
    text: &String,
)
    ensures
        final(gateway)@ == old(gateway)@.record(
            ControlEventView::FrameButtonTextSet { frame_id, button_id, text: text@ },
        ),
{
    gateway.record(ControlEvent::FrameButtonTextSet { frame_id, button_id, text: text.clone() });
}

} // verus!
