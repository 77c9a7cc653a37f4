//! Core of a live-preview tool for fragment shaders.
//!
//! The library owns the logic of the tool: detecting a shader's declared
//! inputs from its source text, carrying user-set input values across a
//! reload, the compile/swap lifecycle that never leaves the renderer without
//! a working program, the single-pass / two-pass composition decisions, and
//! deterministic frame export.  The windowing, GPU and file-system layers
//! drive these state machines from outside and perform the actions they
//! decide on.

pub mod compositor;
pub mod error;
pub mod export;
pub mod gpu;
pub mod parse;
pub mod reload;
pub mod uniform;
pub mod watch;

pub use error::CoreError;
pub use export::flip_image_vertically_raw;
pub use export::ExportProgress;
pub use export::FrameRequest;
pub use export::VideoExportSession;
pub use gpu::CompiledProgramHandle;
pub use gpu::CompileOutcome;
pub use gpu::ResourceLedger;
pub use parse::parse_uniforms;
pub use reload::ReloadController;
pub use reload::ReloadEvent;
pub use uniform::UniformInfo;
pub use uniform::UniformRegistry;
pub use uniform::UniformType;
pub use uniform::UniformValue;
