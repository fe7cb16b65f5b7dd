//! The calls that the timing backend takes, as plain values. The library
//! decides which call is due and with which arguments; whoever owns the
//! backend makes it.

use vstd::prelude::*;
use crate::name::Name;

verus! {

/// What a token stands for: a region of CPU work or of GPU work.
#[derive(Clone, Copy, Debug, PartialEq, Eq, Structural)]
pub enum TokenKind {
    Cpu,
    Gpu,
}

/// One call into the timing backend.
#[derive(Debug, PartialEq, Eq)]
pub enum Call {
    /// Start the backend.
    Init,
    /// Stop the backend.
    Shutdown,
    /// Make a group known, with its category and its packed display color.
    RegisterGroup { name: Name, category: Name, color: u32 },
    /// Record every group of a category.
    EnableCategory { name: Name },
    /// Record no group of a category.
    DisableCategory { name: Name },
    /// Ask for the token of a scope in a group. Answered with the token.
    GetToken { group: Name, name: Name, color: u32, kind: TokenKind },
    /// Open a CPU timing record. Answered with the tick of the record.
    Enter { token: u64 },
    /// Close the CPU timing record that `tick` names.
    Leave { token: u64, tick: u64 },
    /// Open a GPU timing record in a thread log. Answered with its tick.
    GpuEnter { log: usize, token: u64 },
    /// Close the GPU timing record that `tick` names.
    GpuLeave { log: usize, token: u64, tick: u64 },
    /// Allocate a GPU thread log. Answered with its handle.
    AllocGpuLog,
    /// Give a GPU thread log back.
    FreeGpuLog { log: usize },
    /// Empty a GPU thread log.
    ResetGpuLog { log: usize },
    /// Ask for the token of a counter. Answered with the token.
    CounterToken { name: Name },
    /// Add `delta` to a counter.
    CounterAdd { token: u64, delta: i64 },
    /// Set a counter to `value`.
    CounterSet { token: u64, value: i64 },
    /// Set how a counter is shown.
    CounterConfig { name: Name, format: u32, limit: i64, flags: u32 },
    /// Tell the backend that the calling thread will record scopes.
    OnThreadCreate { name: Name },
    /// Tell the backend that the calling thread records no more.
    OnThreadExit,
    /// Start tracing context switches.
    StartContextSwitchTrace,
    /// Stop tracing context switches.
    StopContextSwitchTrace,
    /// Record all groups, or only the enabled ones.
    SetEnableAllGroups { enable: bool },
    /// Record the meta counters always, or only on demand.
    SetForceMetaCounters { enable: bool },
    /// Close the current frame. `context` is the GPU context or command
    /// buffer that submits the GPU timers, if there is one.
    Flip { context: Option<usize> },
    /// Ask which port the backend's web server listens on. Answered with the
    /// port.
    WebServerPort,
}

/// A call with each name as the bytes it stands for.
pub ghost enum CallView {
    Init,
    Shutdown,
    RegisterGroup { name: Seq<u8>, category: Seq<u8>, color: u32 },
    EnableCategory { name: Seq<u8> },
    DisableCategory { name: Seq<u8> },
    GetToken { group: Seq<u8>, name: Seq<u8>, color: u32, kind: TokenKind },
    Enter { token: u64 },
    Leave { token: u64, tick: u64 },
    GpuEnter { log: usize, token: u64 },
    GpuLeave { log: usize, token: u64, tick: u64 },
    AllocGpuLog,
    FreeGpuLog { log: usize },
    ResetGpuLog { log: usize },
    CounterToken { name: Seq<u8> },
    CounterAdd { token: u64, delta: i64 },
    CounterSet { token: u64, value: i64 },
    CounterConfig { name: Seq<u8>, format: u32, limit: i64, flags: u32 },
    OnThreadCreate { name: Seq<u8> },
    OnThreadExit,
    StartContextSwitchTrace,
    StopContextSwitchTrace,
    SetEnableAllGroups { enable: bool },
    SetForceMetaCounters { enable: bool },
    Flip { context: Option<usize> },
    WebServerPort,
}

impl View for Call {
    type V = CallView;

    open spec fn view(&self) -> CallView {
        match *self {
            Call::Init => CallView::Init,
            Call::Shutdown => CallView::Shutdown,
            Call::RegisterGroup { name, category, color } => CallView::RegisterGroup {
                name: name@,
                category: category@,
                color,
            },
            Call::EnableCategory { name } => CallView::EnableCategory { name: name@ },
            Call::DisableCategory { name } => CallView::DisableCategory { name: name@ },
            Call::GetToken { group, name, color, kind } => CallView::GetToken {
                group: group@,
                name: name@,
                color,
                kind,
            },
            Call::Enter { token } => CallView::Enter { token },
            Call::Leave { token, tick } => CallView::Leave { token, tick },
            Call::GpuEnter { log, token } => CallView::GpuEnter { log, token },
            Call::GpuLeave { log, token, tick } => CallView::GpuLeave { log, token, tick },
            Call::AllocGpuLog => CallView::AllocGpuLog,
            Call::FreeGpuLog { log } => CallView::FreeGpuLog { log },
            Call::ResetGpuLog { log } => CallView::ResetGpuLog { log },
            Call::CounterToken { name } => CallView::CounterToken { name: name@ },
            Call::CounterAdd { token, delta } => CallView::CounterAdd { token, delta },
            Call::CounterSet { token, value } => CallView::CounterSet { token, value },
            Call::CounterConfig { name, format, limit, flags } => CallView::CounterConfig {
                name: name@,
                format,
                limit,
                flags,
            },
            Call::OnThreadCreate { name } => CallView::OnThreadCreate { name: name@ },
            Call::OnThreadExit => CallView::OnThreadExit,
            Call::StartContextSwitchTrace => CallView::StartContextSwitchTrace,
            Call::StopContextSwitchTrace => CallView::StopContextSwitchTrace,
            Call::SetEnableAllGroups { enable } => CallView::SetEnableAllGroups { enable },
            Call::SetForceMetaCounters { enable } => CallView::SetForceMetaCounters { enable },
            Call::Flip { context } => CallView::Flip { context },
            Call::WebServerPort => CallView::WebServerPort,
        }
    }
}

impl Clone for Call {
    fn clone(&self) -> (copy: Call)
        ensures
            copy@ == self@,
    {
        match self {
            Call::Init => Call::Init,
            Call::Shutdown => Call::Shutdown,
            Call::RegisterGroup { name, category, color } => Call::RegisterGroup {
                name: name.clone(),
                category: category.clone(),
                color: *color,
            },
            Call::EnableCategory { name } => Call::EnableCategory { name: name.clone() },
            Call::DisableCategory { name } => Call::DisableCategory { name: name.clone() },
            Call::GetToken { group, name, color, kind } => Call::GetToken {
                group: group.clone(),
                name: name.clone(),
                color: *color,
                kind: *kind,
            },
            Call::Enter { token } => Call::Enter { token: *token },
            Call::Leave { token, tick } => Call::Leave { token: *token, tick: *tick },
            Call::GpuEnter { log, token } => Call::GpuEnter { log: *log, token: *token },
            Call::GpuLeave { log, token, tick } => Call::GpuLeave {
                log: *log,
                token: *token,
                tick: *tick,
            },
            Call::AllocGpuLog => Call::AllocGpuLog,
            Call::FreeGpuLog { log } => Call::FreeGpuLog { log: *log },
            Call::ResetGpuLog { log } => Call::ResetGpuLog { log: *log },
            Call::CounterToken { name } => Call::CounterToken { name: name.clone() },
            Call::CounterAdd { token, delta } => Call::CounterAdd { token: *token, delta: *delta },
            Call::CounterSet { token, value } => Call::CounterSet { token: *token, value: *value },
            Call::CounterConfig { name, format, limit, flags } => Call::CounterConfig {
                name: name.clone(),
                format: *format,
                limit: *limit,
                flags: *flags,
            },
            Call::OnThreadCreate { name } => Call::OnThreadCreate { name: name.clone() },
            Call::OnThreadExit => Call::OnThreadExit,
            Call::StartContextSwitchTrace => Call::StartContextSwitchTrace,
            Call::StopContextSwitchTrace => Call::StopContextSwitchTrace,
            Call::SetEnableAllGroups { enable } => Call::SetEnableAllGroups { enable: *enable },
            Call::SetForceMetaCounters { enable } => Call::SetForceMetaCounters {
                enable: *enable,
            },
            Call::Flip { context } => Call::Flip { context: *context },
            Call::WebServerPort => Call::WebServerPort,
        }
    }
}

/// The view of a call that may be due or not.
pub open spec fn view_of(call: Option<Call>) -> Option<CallView> {
    match call {
        Some(call) => Some(call@),
        None => None,
    }
}

} // verus!
