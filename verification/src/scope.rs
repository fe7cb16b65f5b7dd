//! Scopes: named regions of work that are timed between an enter and a
//! leave. A scope is idle or active; it stores the tick that the backend
//! answered when it was entered, and hands that tick back when it is left.

use core::marker::PhantomData;
use vstd::prelude::*;
use crate::call::{Call, CallView};
use crate::error::UsageError;
use crate::gpu::GpuThreadLog;
use crate::profiler::Profiler;

verus! {

/// What a scope can be asked to do.
pub ghost enum ScopeOp {
    /// Become active and store the tick of the backend's answer.
    Enter { tick: u64 },
    /// Become idle and give the stored tick back.
    Leave,
}

/// The scope state machine. The state is the stored tick: `None` is idle,
/// `Some` is active. Entering an active scope and leaving an idle one are
/// usage errors.
pub open spec fn step(state: Option<u64>, op: ScopeOp) -> Result<Option<u64>, UsageError> {
    match op {
        ScopeOp::Enter { tick } => if state is None {
            Ok(Some(tick))
        } else {
            Err(UsageError::Reentered)
        },
        ScopeOp::Leave => if state is Some {
            Ok(None)
        } else {
            Err(UsageError::NotEntered)
        },
    }
}

/// The state after `ops`, one after the other, or the first usage error.
pub open spec fn run(state: Option<u64>, ops: Seq<ScopeOp>) -> Result<Option<u64>, UsageError>
    decreases ops.len(),
{
    if ops.len() == 0 {
        Ok(state)
    } else {
        match step(state, ops.first()) {
            Ok(next) => run(next, ops.drop_first()),
            Err(error) => Err(error),
        }
    }
}

/// Enters and leaves take turns in `ops`, and the first one is an enter if
/// `idle` and a leave if not.
pub open spec fn alternating(idle: bool, ops: Seq<ScopeOp>) -> bool {
    forall|i: int| 0 <= i < ops.len() ==> ((#[trigger] ops[i]) is Enter <==> (i % 2 == 0) == idle)
}

/// A leave right after a successful enter is legal, from every state and
/// for every tick, and it leaves the scope idle.
pub proof fn lemma_leave_after_enter(state: Option<u64>, tick: u64)
    requires
        step(state, ScopeOp::Enter { tick }) is Ok,
    ensures
        step(step(state, ScopeOp::Enter { tick })->Ok_0, ScopeOp::Leave) == Ok::<
            Option<u64>,
            UsageError,
        >(None),
{
}

/// A leave that no enter went before fails: on a new scope, and after every
/// sequence of operations that ended with a leave.
pub proof fn lemma_leave_without_enter(ops: Seq<ScopeOp>)
    requires
        ops.len() == 0 || ops.last() is Leave,
        run(None, ops) is Ok,
    ensures
        run(None, ops.push(ScopeOp::Leave)) == Err::<Option<u64>, UsageError>(
            UsageError::NotEntered,
        ),
{
    lemma_run_state(None, ops);
    lemma_run_push(None, ops, ScopeOp::Leave);
}

/// An enter right after a successful enter fails, from every state and for
/// every pair of ticks.
pub proof fn lemma_enter_after_enter(state: Option<u64>, first: u64, second: u64)
    requires
        step(state, ScopeOp::Enter { tick: first }) is Ok,
    ensures
        step(step(state, ScopeOp::Enter { tick: first })->Ok_0, ScopeOp::Enter { tick: second })
            == Err::<Option<u64>, UsageError>(UsageError::Reentered),
{
}

/// The legal sequences are the alternating ones: a sequence of operations
/// runs without a usage error if and only if its enters and leaves take
/// turns, starting with the one that the state allows. After a legal
/// sequence the scope is active exactly if the last operation was an enter,
/// and it then holds that enter's tick.
pub proof fn lemma_run_state(state: Option<u64>, ops: Seq<ScopeOp>)
    ensures
        run(state, ops) is Ok <==> alternating(state is None, ops),
        run(state, ops) matches Ok(end) ==> end == if ops.len() == 0 {
            state
        } else {
            match ops.last() {
                ScopeOp::Enter { tick } => Some(tick),
                ScopeOp::Leave => None,
            }
        },
    decreases ops.len(),
{
    if ops.len() > 0 {
        let rest = ops.drop_first();
        match step(state, ops.first()) {
            Ok(next) => {
                lemma_run_state(next, rest);
                if alternating(next is None, rest) {
                    assert forall|i: int| 0 <= i < ops.len() implies ((#[trigger] ops[i]) is Enter
                        <==> (i % 2 == 0) == (state is None)) by {
                        if i > 0 {
                            assert(ops[i] == rest[i - 1]);
                        }
                    }
                }
                if alternating(state is None, ops) {
                    assert forall|i: int| 0 <= i < rest.len() implies ((#[trigger] rest[i]) is Enter
                        <==> (i % 2 == 0) == (next is None)) by {
                        assert(rest[i] == ops[i + 1]);
                    }
                }
            },
            Err(_) => {},
        }
    }
}

/// Running a sequence and then one more operation is one more step from
/// where the sequence ended.
pub proof fn lemma_run_push(state: Option<u64>, ops: Seq<ScopeOp>, op: ScopeOp)
    ensures
        run(state, ops.push(op)) == match run(state, ops) {
            Ok(end) => step(end, op),
            Err(error) => Err(error),
        },
    decreases ops.len(),
{
    let longer = ops.push(op);
    if ops.len() == 0 {
        match step(state, op) {
            Ok(next) => {
                assert(run(next, longer.drop_first()) == Ok::<Option<u64>, UsageError>(next));
            },
            Err(_) => {},
        }
    } else {
        assert(longer.drop_first() =~= ops.drop_first().push(op));
        match step(state, ops.first()) {
            Ok(next) => {
                lemma_run_push(next, ops.drop_first(), op);
            },
            Err(_) => {},
        }
    }
}

/// A region of work that can be timed. The methods decide and keep state;
/// the calls they name are for the backend.
///
/// Entering takes two parts, because the backend answers an enter with a
/// tick: `enter_call` names the call, `enter` stores the answer.
pub trait Scope: Sized {
    /// The stored tick: `None` while the scope is idle, the tick of the
    /// last enter while it is active.
    spec fn tick(&self) -> Option<u64>;

    /// The call that opens a timing record for this scope.
    spec fn entering(&self) -> CallView;

    /// The call that closes the timing record that `tick` names.
    spec fn leaving(&self, tick: u64) -> CallView;

    /// The call that enters the scope, if the scope is idle; the usage
    /// error if it is active.
    fn enter_call(&self) -> (result: Result<Call, UsageError>)
        ensures
            match result {
                Ok(call) => self.tick() is None && call@ == self.entering(),
                Err(error) => self.tick() is Some && error == UsageError::Reentered,
            },
    ;

    /// Makes an idle scope active with the tick that the backend answered.
    /// An active scope is left as it is, with the usage error.
    fn enter(&mut self, tick: u64) -> (result: Result<(), UsageError>)
        ensures
            match step(old(self).tick(), ScopeOp::Enter { tick }) {
                Ok(next) => {
                    &&& result is Ok
                    &&& final(self).tick() == next
                    &&& final(self).entering() == old(self).entering()
                    &&& forall|at: u64| #[trigger] final(self).leaving(at) == old(self).leaving(at)
                },
                Err(error) => {
                    &&& result == Err::<(), UsageError>(error)
                    &&& *final(self) == *old(self)
                },
            },
    ;

    /// Makes an active scope idle and names the call that closes its
    /// timing record, with the tick that was stored. An idle scope is left
    /// as it is, with the usage error.
    fn leave(&mut self) -> (result: Result<Call, UsageError>)
        ensures
            match step(old(self).tick(), ScopeOp::Leave) {
                Ok(next) => {
                    &&& result matches Ok(call)
                    &&& call@ == old(self).leaving(old(self).tick()->Some_0)
                    &&& final(self).tick() == next
                    &&& final(self).entering() == old(self).entering()
                    &&& forall|at: u64| #[trigger] final(self).leaving(at) == old(self).leaving(at)
                },
                Err(error) => {
                    &&& result matches Err(reported)
                    &&& reported == error
                    &&& *final(self) == *old(self)
                },
            },
    ;
}

/// `before` and `after` are one scope in two states: they name the same
/// calls.
pub open spec fn same_scope<T: Scope>(before: T, after: T) -> bool {
    &&& after.entering() == before.entering()
    &&& forall|tick: u64| #[trigger] after.leaving(tick) == before.leaving(tick)
}

/// A region of CPU work.
#[derive(Debug)]
pub struct CpuScope<'a> {
    token: u64,
    tick: Option<u64>,
    profiler: PhantomData<&'a Profiler>,
}

impl<'a> CpuScope<'a> {
    /// The backend's token of the scope.
    pub closed spec fn spec_token(&self) -> u64 {
        self.token
    }

    /// The backend's token of the scope.
    #[verifier::when_used_as_spec(spec_token)]
    pub fn token(&self) -> (token: u64)
        ensures
            token == self.spec_token(),
    {
        self.token
    }

    /// Whether the scope is entered and not yet left.
    pub fn is_active(&self) -> (active: bool)
        ensures
            active == self.tick() is Some,
    {
        self.tick.is_some()
    }

    /// An idle scope for the token that the backend answered.
    pub(crate) fn new(token: u64) -> (scope: CpuScope<'a>)
        ensures
            scope.token() == token,
            scope.tick() is None,
    {
        CpuScope { token, tick: None, profiler: PhantomData }
    }
}

impl<'a> Scope for CpuScope<'a> {
    closed spec fn tick(&self) -> Option<u64> {
        self.tick
    }

    open spec fn entering(&self) -> CallView {
        CallView::Enter { token: self.token() }
    }

    open spec fn leaving(&self, tick: u64) -> CallView {
        CallView::Leave { token: self.token(), tick }
    }

    fn enter_call(&self) -> (result: Result<Call, UsageError>) {
        if self.tick.is_some() {
            Err(UsageError::Reentered)
        } else {
            Ok(Call::Enter { token: self.token })
        }
    }

    fn enter(&mut self, tick: u64) -> (result: Result<(), UsageError>) {
        if self.tick.is_some() {
            Err(UsageError::Reentered)
        } else {
            self.tick = Some(tick);
            Ok(())
        }
    }

    fn leave(&mut self) -> (result: Result<Call, UsageError>) {
        match self.tick {
            Some(tick) => {
                self.tick = None;
                Ok(Call::Leave { token: self.token, tick })
            },
            None => Err(UsageError::NotEntered),
        }
    }
}

/// A region of GPU work, recorded into a GPU thread log. The scope borrows
/// the log for as long as it exists.
#[derive(Debug)]
pub struct GpuScope<'a, 'b> {
    token: u64,
    tick: Option<u64>,
    log: &'b GpuThreadLog<'a>,
}

impl<'a, 'b> GpuScope<'a, 'b> {
    /// The backend's token of the scope.
    pub closed spec fn spec_token(&self) -> u64 {
        self.token
    }

    /// The backend's token of the scope.
    #[verifier::when_used_as_spec(spec_token)]
    pub fn token(&self) -> (token: u64)
        ensures
            token == self.spec_token(),
    {
        self.token
    }

    /// The log that the scope records into.
    pub closed spec fn spec_log(&self) -> &'b GpuThreadLog<'a> {
        self.log
    }

    /// The log that the scope records into.
    #[verifier::when_used_as_spec(spec_log)]
    pub fn log(&self) -> (log: &'b GpuThreadLog<'a>)
        ensures
            log == self.spec_log(),
    {
        self.log
    }

    /// Whether the scope is entered and not yet left.
    pub fn is_active(&self) -> (active: bool)
        ensures
            active == self.tick() is Some,
    {
        self.tick.is_some()
    }

    /// An idle scope for the token that the backend answered, recording
    /// into `log`.
    pub(crate) fn new(token: u64, log: &'b GpuThreadLog<'a>) -> (scope: GpuScope<'a, 'b>)
        ensures
            scope.token() == token,
            scope.log() == log,
            scope.tick() is None,
    {
        GpuScope { token, tick: None, log }
    }
}

impl<'a, 'b> Scope for GpuScope<'a, 'b> {
    closed spec fn tick(&self) -> Option<u64> {
        self.tick
    }

    open spec fn entering(&self) -> CallView {
        CallView::GpuEnter { log: self.log().handle(), token: self.token() }
    }

    open spec fn leaving(&self, tick: u64) -> CallView {
        CallView::GpuLeave { log: self.log().handle(), token: self.token(), tick }
    }

    fn enter_call(&self) -> (result: Result<Call, UsageError>) {
        if self.tick.is_some() {
            Err(UsageError::Reentered)
        } else {
            Ok(Call::GpuEnter { log: self.log.handle(), token: self.token })
        }
    }

    fn enter(&mut self, tick: u64) -> (result: Result<(), UsageError>) {
        if self.tick.is_some() {
            Err(UsageError::Reentered)
        } else {
            self.tick = Some(tick);
            Ok(())
        }
    }

    fn leave(&mut self) -> (result: Result<Call, UsageError>) {
        match self.tick {
            Some(tick) => {
                self.tick = None;
                Ok(Call::GpuLeave { log: self.log.handle(), token: self.token, tick })
            },
            None => Err(UsageError::NotEntered),
        }
    }
}

/// An entered scope that is left when the guard is released. The guard
/// borrows the scope alone for as long as it exists, so nothing else can
/// enter or leave the scope meanwhile, and releasing consumes the guard, so
/// the scope is left once.
pub struct SmartScope<'b, T: Scope> {
    scope: &'b mut T,
}

impl<'b, T: Scope> SmartScope<'b, T> {
    #[verifier::type_invariant]
    spec fn active(self) -> bool {
        self.scope.tick() is Some
    }

    /// The guarded scope.
    pub closed spec fn scope(self) -> &'b mut T {
        self.scope
    }

    /// Enters `scope` with the tick that the backend answered and guards
    /// it. An active scope is left as it is, with the usage error.
    pub fn new(scope: &'b mut T, tick: u64) -> (result: Result<SmartScope<'b, T>, UsageError>)
        ensures
            match result {
                Ok(guard) => {
                    &&& old(scope).tick() is None
                    &&& guard.scope().tick() == Some(tick)
                    &&& same_scope(*old(scope), *guard.scope())
                    &&& *final(scope) == *final(guard.scope())
                },
                Err(error) => {
                    &&& old(scope).tick() is Some
                    &&& error == UsageError::Reentered
                    &&& *final(scope) == *old(scope)
                },
            },
    {
        match scope.enter(tick) {
            Ok(()) => Ok(SmartScope { scope }),
            Err(error) => Err(error),
        }
    }

    /// Leaves the guarded scope: the call that closes its timing record,
    /// with the tick that the guard was made with. The scope is idle
    /// afterwards.
    pub fn release(self) -> (call: Call)
        ensures
            self.scope().tick() is Some,
            call@ == self.scope().leaving(self.scope().tick()->Some_0),
            final(self.scope()).tick() is None,
            same_scope(*self.scope(), *final(self.scope())),
    {
        proof {
            use_type_invariant(&self);
        }
        let SmartScope { scope } = self;
        match scope.leave() {
            Ok(call) => call,
            Err(_) => unreached(),
        }
    }

    /// Runs `operation` inside `scope`: enters the scope with the tick that
    /// the backend answered, runs the operation, and leaves the scope.
    /// Whatever the operation returns, a value, an error or an early
    /// result, comes back unchanged beside the one call that closes the
    /// timing record. An active scope is left as it is, with the usage
    /// error, and the operation does not run.
    pub fn protect<R, F: FnOnce() -> R>(scope: &'b mut T, tick: u64, operation: F) -> (result:
        Result<(R, Call), UsageError>)
        requires
            operation.requires(()),
        ensures
            match result {
                Ok((value, call)) => {
                    &&& old(scope).tick() is None
                    &&& operation.ensures((), value)
                    &&& call@ == old(scope).leaving(tick)
                    &&& final(scope).tick() is None
                    &&& same_scope(*old(scope), *final(scope))
                },
                Err(error) => {
                    &&& old(scope).tick() is Some
                    &&& error == UsageError::Reentered
                    &&& *final(scope) == *old(scope)
                },
            },
    {
        match SmartScope::new(scope, tick) {
            Ok(guard) => {
                let value = operation();
                let call = guard.release();
                Ok((value, call))
            },
            Err(error) => Err(error),
        }
    }
}

} // verus!
