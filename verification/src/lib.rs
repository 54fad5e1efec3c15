//! A terminal time-window progress monitor.
//!
//! The crate models a fixed `[from, to)` wall-clock window (`Timespan`), a
//! per-tick snapshot of how far the window has advanced (`Progress`), and a
//! set of renderers that turn a snapshot into the text lines of one terminal
//! frame.  Instants are wall-clock seconds; completion ratios are hundredths
//! (`0` to `100`), so every computation is exact integer arithmetic.

pub mod error;
pub mod progress;
pub mod progress_bar;
pub mod renderer;
pub mod text;
pub mod theme;
pub mod timespan;
pub mod wallclock;

pub use progress::Progress;
pub use renderer::{DefaultRenderer, HourglassRenderer, Line, RetroRenderer, Style, SynthwaveRenderer};
pub use timespan::Timespan;
