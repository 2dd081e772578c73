//! Counters fed by two simulated message sources.
//!
//! The library holds the decisions: what a source emits, how a received
//! message is classified and counted, when a source stops and when the
//! dispatch loop has nothing left to wait for. Timers, channels, locks and
//! printing are left to the program that drives it.

mod dispatch;
mod message;
mod source;
mod state;
mod text;

pub use dispatch::{origin_name, receipt_line, Dispatcher, Origin};
pub use message::{
    error_message, is_error_message, message_for_draw, random_message, success_message,
    ERROR_DRAW_LIMIT,
};
pub use source::{Source, CHANNEL_CAPACITY, SOURCE_TICK_SECS};
pub use state::{SharedState, MONITOR_TICK_SECS};
pub use text::{chars_of, contains_text};
