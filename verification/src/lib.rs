//! The front end of an instrumentation profiler, kept free of I/O.
//!
//! Application code marks named, colored regions of CPU and GPU work, and a
//! timing backend records them. This library is the part in between that
//! decides: which call the backend must receive, with which arguments, and
//! whether an enter or a leave is legal at all. It makes no call itself.
//! Every operation returns the call that is due as a plain value, and
//! whoever owns the backend makes it.
//!
//! An operation whose result depends on the backend's answer comes in two
//! parts. The part whose name ends in `_call` names the call to make; the
//! operation itself takes the answer.

pub mod call;
pub mod color;
pub mod counter;
pub mod error;
pub mod gpu;
pub mod hierarchy;
pub mod instrument;
pub mod name;
pub mod profiler;
pub mod scope;

pub use call::{Call, TokenKind};
pub use color::Color;
pub use counter::{Counter, LocalCounter};
pub use error::{BackendError, UsageError};
pub use gpu::{GpuContext, GpuThreadLog};
pub use hierarchy::{Category, Group};
pub use instrument::{expand_scope_cpu, Annotatable, Block, Item, ItemKind, ScopeFolder, Site};
pub use name::{Name, NameError};
pub use profiler::{Lifecycle, Phase, Profiler};
pub use scope::{CpuScope, GpuScope, Scope, SmartScope};
