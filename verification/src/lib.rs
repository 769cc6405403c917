//! Verified core of a small interactive directory lister.
//!
//! The crate models the parts of the application with real state-machine and
//! resource-lifetime concerns: the snapshot of directory entries and its
//! ordering, the layout of the screen into regions, the input-event state
//! machine, and the terminal-session lifecycle. All terminal, filesystem and
//! database I/O stays outside, behind a device trait that callers implement.

pub mod layout;
pub mod order;
pub mod render;
pub mod render_loop;
pub mod session;
pub mod snapshot;
pub mod state;

pub use layout::Rect;
pub use layout::clamp_to_grid;
pub use layout::split;
pub use order::lex_le_exec;
pub use render::FrameContent;
pub use render::build_frame;
pub use render::content_title;
pub use render::entry_line;
pub use render::render_lines;
pub use render_loop::FrameOutcome;
pub use render_loop::run_frame;
pub use session::AppError;
pub use session::DeviceError;
pub use session::TerminalDevice;
pub use session::TerminalSession;
pub use snapshot::DirectoryEntry;
pub use snapshot::DirectorySnapshot;
pub use snapshot::EntryKind;
pub use snapshot::sort_entries;
pub use state::ApplicationState;
pub use state::InputEvent;
pub use state::Key;
