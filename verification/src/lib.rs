//! Animations for an 8x8 RGB matrix: the frame type, quarter-turn rotations,
//! four animations behind one trait, and the orientation-driven dispatcher.

pub mod animation;
pub mod color;
pub mod dispatch;
pub mod life;
pub mod orientation;
pub mod pixel;
pub mod rainbow;
pub mod raw;
pub mod rotate;
pub mod sip;
pub mod squares;

pub use animation::Animation;
pub use dispatch::Dispatcher;
pub use life::Life;
pub use orientation::{Orientation, Tilt};
pub use pixel::{Pixel, NUM_PIXELS, PIXEL_WIDTH};
pub use rainbow::Rainbow;
pub use raw::FromRaw;
pub use rotate::{rotate_180, rotate_270, rotate_90};
pub use squares::Squares;
