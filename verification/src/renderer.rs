//! The per-style frame renderers.
//!
//! Each renderer is a pure strategy: from a progress snapshot, an optional
//! title and a terminal width it computes the ordered text lines of one
//! frame.  Writing those lines to a terminal is the caller's business.

pub mod default_renderer;
pub mod hourglass_renderer;
pub mod retro_renderer;
pub mod styled_renderer;
pub mod synthwave_renderer;

pub use default_renderer::DefaultRenderer;
pub use hourglass_renderer::HourglassRenderer;
pub use retro_renderer::RetroRenderer;
pub use styled_renderer::{Line, LineModel, Style};
pub use synthwave_renderer::SynthwaveRenderer;
