//! Morse-driven actuator frames: a message's Morse symbols become 26-channel
//! frames for percussion, string and lamp outputs, sent on a schedule.
//!
//! * [`morse_converter`]: from a message's text to its Morse code.
//! * [`frame`]: what a frame is, and the frame that follows from given
//!   draws.
//! * [`message_transformer`]: the configuration, and the encoder that draws
//!   a frame for a symbol.
//! * [`lamp_mode`]: when cycles drive the lamps instead of the instruments.
//! * [`scheduler`]: which message a cycle sends, and what a send does next.
//! * [`serial_send`]: the transport's errors, labels and bytes.
//! * [`draw`]: the random generator behind every draw.
//!
//! Every executable item is verified against its contract. The few calls
//! into other crates stand behind small wrappers whose contracts are taken
//! on trust; each wrapper says so in its documentation.

pub mod draw;
pub mod frame;
pub mod lamp_mode;
pub mod message_transformer;
pub mod morse_converter;
pub mod scheduler;
pub mod serial_send;
pub mod strings;
