//! Driver for 8- and 16-channel analog multiplexers that are addressed through
//! binary-encoded select lines and an active-low enable line.

pub mod level;
pub mod line;
pub mod multiplexer;
pub mod pins;
pub mod state;

pub use crate::level::Level;
pub use crate::line::{Line, LineState, Pin};
pub use crate::multiplexer::{ChannelOutOfRange, Multiplexer};
pub use crate::pins::Output;
pub use crate::state::{Snapshot, State};
