//! Synthetic mouse button input.
//!
//! A [`MouseButton`] is mapped to the event flags and the auxiliary
//! data of one input record of the platform, and the record is handed to the
//! caller's `submit`, which stands for the platform's synthetic-input call.
//! Nothing is kept between two operations.

pub mod button;
pub mod mapper;
pub mod mouse;
pub mod platform;

pub use button::{Button, MouseButton};
pub use mouse::{mouse_click, mouse_press, mouse_release};
pub use platform::{Input, MouseInput};
