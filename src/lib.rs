//! The event-bridging core of a command-line agent shell: typed agent events,
//! an ordered event bus, the session hook that turns backend callbacks into
//! events, the per-turn stream driver, the console rendering of events and the
//! formatting done by the local tools.

pub mod event;
pub mod bus;
pub mod hook;
pub mod session;
pub mod text;
pub mod console;
pub mod cli;
pub mod tool;

pub use bus::EventBus;
pub use cli::{CliArgs, ReplInput};
pub use event::AgentEvent;
pub use hook::{HookAction, ResponseContent, SessionIdHook, ToolCallHookAction};
pub use session::{StreamSignal, TurnDriver, TurnError, TurnStep};
pub use tool::{Bash, BashArgs, BashError, FileError, ReadFile, ReadFileArgs};
