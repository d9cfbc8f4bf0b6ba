//! Segment encoding for a seven-segment display, and the decisions of the
//! firmware tasks that drive the display and the status LED.

pub mod control;
pub mod segment;

pub use segment::digit_byte;
pub use segment::encode;
pub use segment::SegmentError;
pub use control::blink_step;
pub use control::display_frame;
pub use control::BlinkStep;
