use std::cell::Cell;

use microprofile::{Call, Color, CpuScope, Lifecycle, Profiler, Scope, SmartScope, UsageError};

fn scope_of(profiler: &Profiler, token: u64) -> CpuScope<'_> {
    let category = profiler.define_category("profile").unwrap();
    let (group, _) = category.define_group("trace", Color(40, 0, 250)).unwrap();
    group.get_cpu_scope(token)
}

#[test]
fn a_guard_enters_at_once_and_leaves_at_release() {
    let mut state = Lifecycle::new();
    let (profiler, _) = Profiler::global(&mut state).unwrap();
    let mut scope = scope_of(profiler, 5);
    let guard = SmartScope::new(&mut scope, 30).unwrap();
    assert_eq!(guard.release(), Call::Leave { token: 5, tick: 30 });
    assert!(!scope.is_active());
}

#[test]
fn a_guard_on_an_active_scope_is_refused() {
    let mut state = Lifecycle::new();
    let (profiler, _) = Profiler::global(&mut state).unwrap();
    let mut scope = scope_of(profiler, 5);
    scope.enter(30).unwrap();
    assert!(matches!(SmartScope::new(&mut scope, 31), Err(UsageError::Reentered)));
    assert!(scope.is_active());
    assert_eq!(scope.leave(), Ok(Call::Leave { token: 5, tick: 30 }));
}

#[test]
fn a_scope_can_be_guarded_again_after_release() {
    let mut state = Lifecycle::new();
    let (profiler, _) = Profiler::global(&mut state).unwrap();
    let mut scope = scope_of(profiler, 5);
    for tick in [1u64, 2, 3] {
        let guard = SmartScope::new(&mut scope, tick).unwrap();
        assert_eq!(guard.release(), Call::Leave { token: 5, tick });
    }
    assert!(!scope.is_active());
}

#[test]
fn protect_hands_the_value_back_beside_one_leave() {
    let mut state = Lifecycle::new();
    let (profiler, _) = Profiler::global(&mut state).unwrap();
    let mut scope = scope_of(profiler, 8);
    let outcome = SmartScope::protect(&mut scope, 64, || 6 * 7);
    assert_eq!(outcome, Ok((42, Call::Leave { token: 8, tick: 64 })));
    assert!(!scope.is_active());
}

#[test]
fn protect_leaves_once_when_the_operation_fails() {
    let mut state = Lifecycle::new();
    let (profiler, _) = Profiler::global(&mut state).unwrap();
    let mut scope = scope_of(profiler, 8);
    let failing = || -> Result<u32, String> { Err("no such file".to_string()) };
    let outcome = SmartScope::protect(&mut scope, 64, failing);
    assert_eq!(
        outcome,
        Ok((Err("no such file".to_string()), Call::Leave { token: 8, tick: 64 }))
    );
    assert!(!scope.is_active());
}

#[test]
fn protect_leaves_once_when_the_operation_returns_early() {
    let mut state = Lifecycle::new();
    let (profiler, _) = Profiler::global(&mut state).unwrap();
    let mut scope = scope_of(profiler, 8);
    let steps = Cell::new(0u32);
    let early = || -> u32 {
        for i in 0..10u32 {
            steps.set(steps.get() + 1);
            if i == 3 {
                return i;
            }
        }
        99
    };
    let outcome = SmartScope::protect(&mut scope, 64, early);
    assert_eq!(outcome, Ok((3, Call::Leave { token: 8, tick: 64 })));
    assert_eq!(steps.get(), 4);
    assert!(!scope.is_active());
}

#[test]
fn protect_runs_the_operation_while_the_scope_is_active() {
    let mut state = Lifecycle::new();
    let (profiler, _) = Profiler::global(&mut state).unwrap();
    let mut outer = scope_of(profiler, 1);
    let mut inner = scope_of(profiler, 2);
    let nested = || SmartScope::protect(&mut inner, 20, || "done");
    let outcome = SmartScope::protect(&mut outer, 10, nested);
    assert_eq!(
        outcome,
        Ok((
            Ok(("done", Call::Leave { token: 2, tick: 20 })),
            Call::Leave { token: 1, tick: 10 }
        ))
    );
}

#[test]
fn protect_does_not_run_the_operation_in_an_active_scope() {
    let mut state = Lifecycle::new();
    let (profiler, _) = Profiler::global(&mut state).unwrap();
    let mut scope = scope_of(profiler, 8);
    scope.enter(1).unwrap();
    let ran = Cell::new(false);
    let outcome = SmartScope::protect(&mut scope, 2, || ran.set(true));
    assert_eq!(outcome, Err(UsageError::Reentered));
    assert!(!ran.get());
    assert_eq!(scope.leave(), Ok(Call::Leave { token: 8, tick: 1 }));
}

#[test]
fn a_guard_works_on_a_gpu_scope_too() {
    let mut state = Lifecycle::new();
    let (profiler, _) = Profiler::global(&mut state).unwrap();
    let category = profiler.define_category("render").unwrap();
    let (group, _) = category.define_group("cull", Color(40, 0, 250)).unwrap();
    let log = profiler.alloc_gpu_thread_log(0x40).unwrap();
    let mut scope = group.get_gpu_scope(&log, 9);
    let guard = SmartScope::new(&mut scope, 70).unwrap();
    assert_eq!(guard.release(), Call::GpuLeave { log: 0x40, token: 9, tick: 70 });
    let outcome = SmartScope::protect(&mut scope, 71, || 'x');
    assert_eq!(outcome, Ok(('x', Call::GpuLeave { log: 0x40, token: 9, tick: 71 })));
    assert!(!scope.is_active());
}
