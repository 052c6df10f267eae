//! A lap stopwatch: pause/resume timekeeping over clock readings, lap
//! recording, and rendering of elapsed time as `HH:MM:SS.mmm`.
//!
//! `state` holds the stopwatch as a value that is handed the clock's
//! readings, `live` a stopwatch that reads the clock itself, `text` the
//! rendering, and `laws` what is proved of them.

pub mod clock;
pub mod laws;
pub mod live;
pub mod state;
pub mod text;

pub use crate::live::LapStopwatch;
pub use crate::state::{Control, StopwatchModel, StopwatchState};
pub use crate::text::format_elapsed;
