//! The process-wide profiler and its life cycle.
//!
//! A process has one life cycle. The profiler comes into being at the first
//! access, which starts the backend, and ends at shutdown, which stops it.
//! Categories, counters and logs borrow the profiler, so none of them
//! outlives it, and the life cycle cannot move on while one of them is
//! alive.

use vstd::prelude::*;
use vstd::string::StringSliceAdditionalSpecFns;
use crate::call::{view_of, Call, CallView};
use crate::counter::{Counter, LocalCounter};
use crate::error::{BackendError, UsageError};
use crate::gpu::{GpuContext, GpuThreadLog};
use crate::hierarchy::Category;
use crate::name::{first_nul, nul_free, Name, NameError};

verus! {

/// The one profiler of a process. It exists from the backend's start to its
/// shutdown, and everything else borrows from it.
#[derive(Debug)]
pub struct Profiler {
    hidden: (),
}

/// Where a process stands with its profiler.
#[derive(Clone, Copy, Debug, PartialEq, Eq, Structural)]
pub enum Phase {
    /// Nothing has asked for the profiler yet. The backend is not started.
    Uninitialized,
    /// The backend is started, and there is a profiler.
    Running,
    /// The backend is stopped. There is no profiler any more.
    ShutDown,
}

impl Phase {
    /// The phase after an access: a first access starts the profiler, and
    /// no other access changes anything.
    pub open spec fn accessed(self) -> Phase {
        match self {
            Phase::Uninitialized => Phase::Running,
            Phase::Running => Phase::Running,
            Phase::ShutDown => Phase::ShutDown,
        }
    }

    /// What an access asks of the backend: to start, at the first access;
    /// nothing, while the profiler runs. After shutdown an access is a
    /// usage error.
    pub open spec fn access_call(self) -> Result<Option<CallView>, UsageError> {
        match self {
            Phase::Uninitialized => Ok(Some(CallView::Init)),
            Phase::Running => Ok(None),
            Phase::ShutDown => Err(UsageError::ShutDown),
        }
    }

    /// What shutdown asks of the backend: to stop, if it was started.
    pub open spec fn shutdown_call(self) -> Option<CallView> {
        match self {
            Phase::Running => Some(CallView::Shutdown),
            _ => None,
        }
    }

    /// How many times the backend is started by `count` accesses in a row.
    pub open spec fn starts(self, count: nat) -> nat
        decreases count,
    {
        if count == 0 {
            0
        } else {
            (if self.access_call() == Ok::<Option<CallView>, UsageError>(Some(CallView::Init)) {
                1nat
            } else {
                0nat
            }) + self.accessed().starts((count - 1) as nat)
        }
    }

    /// Access is idempotent. Whatever the phase, a second access changes
    /// nothing, and short of shutdown it finds the profiler running and
    /// asks nothing of the backend.
    pub proof fn lemma_access_idempotent(self)
        ensures
            self.accessed().accessed() == self.accessed(),
            self != Phase::ShutDown ==> self.accessed() == Phase::Running,
            self != Phase::ShutDown ==> self.accessed().access_call() == Ok::<
                Option<CallView>,
                UsageError,
            >(None),
    {
    }

    /// The backend is started once: any number of accesses in a row, from a
    /// new process, start it exactly one time, and from any later phase
    /// not at all.
    pub proof fn lemma_started_once(self, count: nat)
        ensures
            self.starts(count) == if self == Phase::Uninitialized && count > 0 {
                1nat
            } else {
                0nat
            },
        decreases count,
    {
        if count > 0 {
            self.accessed().lemma_started_once((count - 1) as nat);
        }
    }

    /// The phase after `op`.
    pub open spec fn after(self, op: LifeOp) -> Phase {
        match op {
            LifeOp::Access => self.accessed(),
            LifeOp::Shutdown => Phase::ShutDown,
        }
    }

    /// What `op` asks of the backend, if anything.
    pub open spec fn call_of(self, op: LifeOp) -> Option<CallView> {
        match op {
            LifeOp::Access => match self.access_call() {
                Ok(call) => call,
                Err(_) => None,
            },
            LifeOp::Shutdown => self.shutdown_call(),
        }
    }

    /// All that `ops`, one after the other, ask of the backend, in order.
    pub open spec fn calls(self, ops: Seq<LifeOp>) -> Seq<CallView>
        decreases ops.len(),
    {
        if ops.len() == 0 {
            Seq::empty()
        } else {
            let rest = self.after(ops.first()).calls(ops.drop_first());
            match self.call_of(ops.first()) {
                Some(call) => seq![call] + rest,
                None => rest,
            }
        }
    }

    /// The backend is started at most once and stopped at most once, and
    /// never stopped before it is started: whatever accesses and shutdowns
    /// a process makes, and in whatever order, the backend sees nothing, or
    /// one start, or one start and then one stop. It is started by the
    /// first operation if that is an access, and never after a shutdown.
    pub proof fn lemma_backend_life(self, ops: Seq<LifeOp>)
        ensures
            match self {
                Phase::Uninitialized => {
                    ||| self.calls(ops) == Seq::<CallView>::empty()
                    ||| self.calls(ops) == seq![CallView::Init]
                    ||| self.calls(ops) == seq![CallView::Init, CallView::Shutdown]
                },
                Phase::Running => {
                    ||| self.calls(ops) == Seq::<CallView>::empty()
                    ||| self.calls(ops) == seq![CallView::Shutdown]
                },
                Phase::ShutDown => self.calls(ops) == Seq::<CallView>::empty(),
            },
            self == Phase::Uninitialized && ops.len() > 0 && ops[0] is Access ==> self.calls(
                ops,
            ).len() > 0 && self.calls(ops)[0] == CallView::Init,
            self == Phase::Uninitialized && ops.len() > 0 && ops[0] is Shutdown ==> self.calls(ops)
                == Seq::<CallView>::empty(),
        decreases ops.len(),
    {
        if ops.len() > 0 {
            self.after(ops.first()).lemma_backend_life(ops.drop_first());
        }
    }
}

/// What moves the life cycle on.
pub ghost enum LifeOp {
    /// The profiler is asked for.
    Access,
    /// The process ends its profiling.
    Shutdown,
}

#[derive(Debug)]
enum Stage {
    Uninitialized,
    Running(Profiler),
    ShutDown,
}

/// The profiler state of a process: which phase it is in and, while it
/// runs, the profiler itself. It moves forward only, from uninitialized to
/// running to shut down.
#[derive(Debug)]
pub struct Lifecycle {
    stage: Stage,
}

impl View for Lifecycle {
    type V = Phase;

    /// The phase that the process is in.
    closed spec fn view(&self) -> Phase {
        match self.stage {
            Stage::Uninitialized => Phase::Uninitialized,
            Stage::Running(_) => Phase::Running,
            Stage::ShutDown => Phase::ShutDown,
        }
    }
}

impl Lifecycle {
    /// The state of a new process.
    pub fn new() -> (state: Lifecycle)
        ensures
            state@ == Phase::Uninitialized,
    {
        Lifecycle { stage: Stage::Uninitialized }
    }

    /// The phase that the process is in.
    pub fn phase(&self) -> (phase: Phase)
        ensures
            phase == self@,
    {
        match self.stage {
            Stage::Uninitialized => Phase::Uninitialized,
            Stage::Running(_) => Phase::Running,
            Stage::ShutDown => Phase::ShutDown,
        }
    }

    /// The profiler, while it runs.
    pub fn profiler(&self) -> (profiler: Option<&Profiler>)
        ensures
            profiler is Some <==> self@ == Phase::Running,
    {
        match &self.stage {
            Stage::Running(instance) => Some(instance),
            _ => None,
        }
    }
}

impl Profiler {
    /// There is one profiler: any two are the same.
    pub proof fn lemma_one_instance(first: Profiler, second: Profiler)
        ensures
            first == second,
    {
    }

    /// The profiler of the process, with the call that starts the backend
    /// if this is the first access. Every later access gives the same
    /// profiler and no call. After shutdown there is no profiler: the
    /// access is a usage error and changes nothing.
    pub fn global<'a>(state: &'a mut Lifecycle) -> (result: Result<
        (&'a Profiler, Option<Call>),
        UsageError,
    >)
        ensures
            final(state)@ == old(state)@.after(LifeOp::Access),
            match result {
                Ok((_, call)) => old(state)@.access_call() == Ok::<Option<CallView>, UsageError>(
                    view_of(call),
                ),
                Err(error) => old(state)@.access_call() == Err::<Option<CallView>, UsageError>(
                    error,
                ),
            },
    {
        let call = if let Stage::Uninitialized = state.stage {
            state.stage = Stage::Running(Profiler { hidden: () });
            Some(Call::Init)
        } else {
            None
        };
        match &state.stage {
            Stage::Running(profiler) => Ok((profiler, call)),
            _ => Err(UsageError::ShutDown),
        }
    }

    /// Ends the life cycle: the call that stops the backend, if the backend
    /// was started. It is due once; a second shutdown asks nothing.
    pub fn shutdown(state: &mut Lifecycle) -> (call: Option<Call>)
        ensures
            final(state)@ == old(state)@.after(LifeOp::Shutdown),
            view_of(call) == old(state)@.call_of(LifeOp::Shutdown),
    {
        let call = if let Stage::Running(_) = state.stage {
            Some(Call::Shutdown)
        } else {
            None
        };
        state.stage = Stage::ShutDown;
        call
    }

    /// The call that has all groups recorded, or only the enabled ones.
    pub fn enable_all_groups(&self, enable: bool) -> (call: Call)
        ensures
            call@ == (CallView::SetEnableAllGroups { enable }),
    {
        Call::SetEnableAllGroups { enable }
    }

    /// The call that has the meta counters recorded always, or only on
    /// demand.
    pub fn enable_all_meta_counters(&self, enable: bool) -> (call: Call)
        ensures
            call@ == (CallView::SetForceMetaCounters { enable }),
    {
        Call::SetForceMetaCounters { enable }
    }

    /// The call that closes the current frame. It carries the native
    /// handle of `gpu_context` where the graphics API has one.
    pub fn flip(&self, gpu_context: GpuContext) -> (call: Call)
        ensures
            call@ == (CallView::Flip { context: gpu_context.handle() }),
    {
        Call::Flip { context: gpu_context.native_handle() }
    }

    /// The call that announces the calling thread under `name`. A name with
    /// a NUL byte is rejected.
    pub fn begin_thread(&self, name: &str) -> (result: Result<Call, NameError>)
        ensures
            match result {
                Ok(call) => {
                    &&& nul_free(name.spec_bytes())
                    &&& call@ == (CallView::OnThreadCreate { name: name.spec_bytes() })
                },
                Err(error) => first_nul(name.spec_bytes(), error.position as int),
            },
    {
        match Name::new(name) {
            Ok(name) => Ok(Call::OnThreadCreate { name }),
            Err(error) => Err(error),
        }
    }

    /// The call that signs the calling thread off.
    pub fn end_thread(&self) -> (call: Call)
        ensures
            call@ == CallView::OnThreadExit,
    {
        Call::OnThreadExit
    }

    /// The call that starts the tracing of context switches.
    pub fn begin_context_switch_trace(&self) -> (call: Call)
        ensures
            call@ == CallView::StartContextSwitchTrace,
    {
        Call::StartContextSwitchTrace
    }

    /// The call that stops the tracing of context switches.
    pub fn end_context_switch_trace(&self) -> (call: Call)
        ensures
            call@ == CallView::StopContextSwitchTrace,
    {
        Call::StopContextSwitchTrace
    }

    /// The call that asks for the token of the counter `name`. A name with
    /// a NUL byte is rejected.
    pub fn define_counter_call(&self, name: &str) -> (result: Result<Call, NameError>)
        ensures
            match result {
                Ok(call) => {
                    &&& nul_free(name.spec_bytes())
                    &&& call@ == (CallView::CounterToken { name: name.spec_bytes() })
                },
                Err(error) => first_nul(name.spec_bytes(), error.position as int),
            },
    {
        match Name::new(name) {
            Ok(name) => Ok(Call::CounterToken { name }),
            Err(error) => Err(error),
        }
    }

    /// The counter `name` with the token that the backend answered. A name
    /// with a NUL byte is rejected.
    pub fn define_counter(&self, name: &str, token: u64) -> (result: Result<Counter<'_>, NameError>)
        ensures
            match result {
                Ok(counter) => {
                    &&& nul_free(name.spec_bytes())
                    &&& counter.name()@ == name.spec_bytes()
                    &&& counter.token() == token
                },
                Err(error) => first_nul(name.spec_bytes(), error.position as int),
            },
    {
        match Name::new(name) {
            Ok(name) => Ok(Counter::new(name, token)),
            Err(error) => Err(error),
        }
    }

    /// The call that asks for the token of the local counter `name`. A name
    /// with a NUL byte is rejected.
    pub fn define_local_counter_call(&self, name: &str) -> (result: Result<Call, NameError>)
        ensures
            match result {
                Ok(call) => {
                    &&& nul_free(name.spec_bytes())
                    &&& call@ == (CallView::CounterToken { name: name.spec_bytes() })
                },
                Err(error) => first_nul(name.spec_bytes(), error.position as int),
            },
    {
        self.define_counter_call(name)
    }

    /// The local counter with the token that the backend answered, at zero.
    pub fn define_local_counter(&self, token: u64) -> (counter: LocalCounter<'_>)
        ensures
            counter.token() == token,
            counter.value() == 0,
    {
        LocalCounter::new(token)
    }

    /// The category `name`. Nothing is asked of the backend: a category is
    /// a key, and the backend learns of it with its groups. A name with a
    /// NUL byte is rejected.
    pub fn define_category<'a>(&'a self, name: &str) -> (result: Result<Category<'a>, NameError>)
        ensures
            match result {
                Ok(category) => {
                    &&& nul_free(name.spec_bytes())
                    &&& category.name()@ == name.spec_bytes()
                },
                Err(error) => first_nul(name.spec_bytes(), error.position as int),
            },
    {
        match Name::new(name) {
            Ok(name) => Ok(Category::new(name)),
            Err(error) => Err(error),
        }
    }

    /// The call that asks for a GPU thread log.
    pub fn alloc_gpu_thread_log_call(&self) -> (call: Call)
        ensures
            call@ == CallView::AllocGpuLog,
    {
        Call::AllocGpuLog
    }

    /// The GPU thread log of the handle that the backend answered. A null
    /// handle is the backend's way to say that it has none to give.
    pub fn alloc_gpu_thread_log<'a>(&'a self, handle: usize) -> (result: Result<
        GpuThreadLog<'a>,
        BackendError,
    >)
        ensures
            match result {
                Ok(log) => handle != 0 && log.handle() == handle,
                Err(error) => handle == 0 && error == BackendError::LogAllocation,
            },
    {
        if handle == 0 {
            Err(BackendError::LogAllocation)
        } else {
            Ok(GpuThreadLog::new(handle))
        }
    }

    /// The call that asks which port the backend's web server listens on.
    pub fn get_webserver_port_call(&self) -> (call: Call)
        ensures
            call@ == CallView::WebServerPort,
    {
        Call::WebServerPort
    }

    /// The port that the backend's web server listens on: the low 16 bits
    /// of the number that the backend answered.
    pub fn get_webserver_port(&self, answer: u32) -> (port: u16)
        ensures
            port == answer % 0x1_0000,
    {
        assert(answer & 0xffff == answer % 0x1_0000) by (bit_vector);
        (answer & 0xffff) as u16
    }
}

} // verus!
