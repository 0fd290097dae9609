//! Capability-scoped handles over a flat, counter-based resource gateway.
//!
//! The [`Gateway`] hands out bare numeric identifiers and checks nothing about
//! how they are used. The handle types of this crate tie every identifier to
//! the parent it was obtained through and to a capability, [`Mutable`] or
//! [`Immutable`], that is fixed in the handle's type:
//!
//! ```text
//! Root
//! +-- Window
//!     +-- Frame
//!     |   +-- FrameButton
//!     +-- WindowButton
//! ```
//!
//! A handle borrows its parent, so it cannot be used once the parent is gone.
//! A mutable handle borrows its parent exclusively: while it is alive, no
//! other handle can be obtained through that parent. Read-only handles share
//! their parent, and offer none of the operations that change anything.
//!
//! Everything the handles promise about identifiers is stated over
//! [`gateway::GatewayView`], the gateway as a mathematical value, and proved;
//! [`history`] relates that value to the requests that led to it.

pub mod button;
pub mod capability;
pub mod frame;
pub mod gateway;
pub mod history;
pub mod root;
pub mod window;

pub use button::{Button, ButtonMut, FrameButton, WindowButton};
pub use capability::{Immutable, Mutable, ProbablyMutable};
pub use frame::Frame;
pub use gateway::{ControlEvent, Gateway, ResourceKind};
pub use root::Root;
pub use window::Window;
