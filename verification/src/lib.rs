//! Breadcrumb context for diagnosing failures: a per-thread stack of
//! lightweight scope markers, rendered innermost-first as a synthetic trace
//! when the thread fails.
//!
//! The core of the library is [`ContextStack`], an ownership-safe arena of
//! frame records: entering a scope pushes a record and returns the stack
//! depth saved at entry; exiting truncates the stack back to that depth, so
//! every exit path (normal return, early return, unwinding) restores exactly
//! the state captured on entry. Rendering walks the records from the most
//! recent down and formats one line per frame.

mod context;
mod laws;
mod payload;
mod report;
mod text;

pub use context::ContextStack;
pub use context::DataScope;
pub use context::FrameRecord;
pub use context::FrameView;
pub use context::enter_spec;
pub use context::exit_spec;
pub use context::frame_line;
pub use context::render_spec;
pub use laws::ScopeTrace;
pub use laws::lemma_exit_restores_snapshot;
pub use laws::lemma_nested_roundtrip;
pub use laws::lemma_render_innermost_first;
pub use laws::run_trace;
pub use payload::EmptyDebug;
pub use payload::Entry;
pub use payload::TextPayload;
pub use payload::UintPayload;
pub use report::report;
pub use text::dec_u64;
