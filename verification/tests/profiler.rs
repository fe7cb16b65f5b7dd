use microprofile::{
    BackendError, Call, GpuContext, Lifecycle, Name, NameError, Phase, Profiler, UsageError,
};

#[test]
fn a_new_process_has_no_profiler() {
    let state = Lifecycle::new();
    assert_eq!(state.phase(), Phase::Uninitialized);
    assert!(state.profiler().is_none());
}

#[test]
fn the_first_access_starts_the_backend() {
    let mut state = Lifecycle::new();
    let (_, call) = Profiler::global(&mut state).unwrap();
    assert_eq!(call, Some(Call::Init));
    assert_eq!(state.phase(), Phase::Running);
    assert!(state.profiler().is_some());
}

#[test]
fn a_later_access_asks_nothing() {
    let mut state = Lifecycle::new();
    Profiler::global(&mut state).unwrap();
    let (_, call) = Profiler::global(&mut state).unwrap();
    assert_eq!(call, None);
    assert_eq!(state.phase(), Phase::Running);
}

#[test]
fn many_accesses_start_the_backend_once() {
    let mut state = Lifecycle::new();
    let mut starts = 0;
    for _ in 0..1000 {
        if let (_, Some(call)) = Profiler::global(&mut state).unwrap() {
            assert_eq!(call, Call::Init);
            starts += 1;
        }
    }
    assert_eq!(starts, 1);
}

#[test]
fn every_access_gives_the_same_profiler() {
    let mut state = Lifecycle::new();
    Profiler::global(&mut state).unwrap();
    Profiler::global(&mut state).unwrap();
    let first = state.profiler().unwrap();
    let second = state.profiler().unwrap();
    assert!(std::ptr::eq(first, second));
}

#[test]
fn shutdown_stops_a_started_backend_once() {
    let mut state = Lifecycle::new();
    Profiler::global(&mut state).unwrap();
    assert_eq!(Profiler::shutdown(&mut state), Some(Call::Shutdown));
    assert_eq!(state.phase(), Phase::ShutDown);
    assert_eq!(Profiler::shutdown(&mut state), None);
    assert_eq!(state.phase(), Phase::ShutDown);
    assert!(state.profiler().is_none());
}

#[test]
fn shutdown_of_a_backend_that_never_started_asks_nothing() {
    let mut state = Lifecycle::new();
    assert_eq!(Profiler::shutdown(&mut state), None);
    assert_eq!(state.phase(), Phase::ShutDown);
}

#[test]
fn an_access_after_shutdown_is_a_usage_error() {
    let mut state = Lifecycle::new();
    Profiler::global(&mut state).unwrap();
    Profiler::shutdown(&mut state);
    assert_eq!(Profiler::global(&mut state).err(), Some(UsageError::ShutDown));
    assert_eq!(state.phase(), Phase::ShutDown);
    assert_eq!(UsageError::ShutDown.message(), "The profiler has shut down");
}

#[test]
fn an_access_after_an_early_shutdown_does_not_start_the_backend() {
    let mut state = Lifecycle::new();
    Profiler::shutdown(&mut state);
    assert_eq!(Profiler::global(&mut state).err(), Some(UsageError::ShutDown));
}

#[test]
fn the_group_and_meta_counter_switches_carry_their_flag() {
    let mut state = Lifecycle::new();
    let (profiler, _) = Profiler::global(&mut state).unwrap();
    assert_eq!(profiler.enable_all_groups(true), Call::SetEnableAllGroups { enable: true });
    assert_eq!(profiler.enable_all_groups(false), Call::SetEnableAllGroups { enable: false });
    assert_eq!(
        profiler.enable_all_meta_counters(true),
        Call::SetForceMetaCounters { enable: true }
    );
    assert_eq!(
        profiler.enable_all_meta_counters(false),
        Call::SetForceMetaCounters { enable: false }
    );
}

#[test]
fn a_flip_carries_the_native_handle_of_its_context() {
    let mut state = Lifecycle::new();
    let (profiler, _) = Profiler::global(&mut state).unwrap();
    assert_eq!(profiler.flip(GpuContext::D3D11(0x1000)), Call::Flip { context: Some(0x1000) });
    assert_eq!(profiler.flip(GpuContext::D3D12(0x2000)), Call::Flip { context: Some(0x2000) });
    assert_eq!(profiler.flip(GpuContext::Vulkan(0x3000)), Call::Flip { context: Some(0x3000) });
}

#[test]
fn a_flip_without_a_native_handle_carries_none() {
    let mut state = Lifecycle::new();
    let (profiler, _) = Profiler::global(&mut state).unwrap();
    assert_eq!(profiler.flip(GpuContext::GL), Call::Flip { context: None });
    assert_eq!(profiler.flip(GpuContext::NoContext), Call::Flip { context: None });
    assert_eq!(GpuContext::GL.native_handle(), None);
    assert_eq!(GpuContext::Vulkan(9).native_handle(), Some(9));
}

#[test]
fn a_thread_is_announced_by_name_and_signed_off_without() {
    let mut state = Lifecycle::new();
    let (profiler, _) = Profiler::global(&mut state).unwrap();
    assert_eq!(
        profiler.begin_thread("main"),
        Ok(Call::OnThreadCreate { name: Name::new("main").unwrap() })
    );
    assert_eq!(profiler.end_thread(), Call::OnThreadExit);
}

#[test]
fn a_thread_name_with_a_nul_byte_is_rejected() {
    let mut state = Lifecycle::new();
    let (profiler, _) = Profiler::global(&mut state).unwrap();
    assert_eq!(profiler.begin_thread("worker\0 1"), Err(NameError { position: 6 }));
}

#[test]
fn the_context_switch_trace_starts_and_stops() {
    let mut state = Lifecycle::new();
    let (profiler, _) = Profiler::global(&mut state).unwrap();
    assert_eq!(profiler.begin_context_switch_trace(), Call::StartContextSwitchTrace);
    assert_eq!(profiler.end_context_switch_trace(), Call::StopContextSwitchTrace);
}

#[test]
fn a_gpu_log_is_asked_for_reset_and_freed_by_its_handle() {
    let mut state = Lifecycle::new();
    let (profiler, _) = Profiler::global(&mut state).unwrap();
    assert_eq!(profiler.alloc_gpu_thread_log_call(), Call::AllocGpuLog);
    let mut log = profiler.alloc_gpu_thread_log(0xbeef).unwrap();
    assert_eq!(log.handle(), 0xbeef);
    assert_eq!(log.reset(), Call::ResetGpuLog { log: 0xbeef });
    assert_eq!(log.handle(), 0xbeef);
    assert_eq!(log.free(), Call::FreeGpuLog { log: 0xbeef });
}

#[test]
fn a_null_log_handle_is_a_backend_error() {
    let mut state = Lifecycle::new();
    let (profiler, _) = Profiler::global(&mut state).unwrap();
    assert_eq!(profiler.alloc_gpu_thread_log(0).err(), Some(BackendError::LogAllocation));
    assert!(profiler.alloc_gpu_thread_log(1).is_ok());
    assert!(profiler.alloc_gpu_thread_log(usize::MAX).is_ok());
}

#[test]
fn the_web_server_port_is_the_low_half_of_the_answer() {
    let mut state = Lifecycle::new();
    let (profiler, _) = Profiler::global(&mut state).unwrap();
    assert_eq!(profiler.get_webserver_port_call(), Call::WebServerPort);
    assert_eq!(profiler.get_webserver_port(1338), 1338);
    assert_eq!(profiler.get_webserver_port(0), 0);
    assert_eq!(profiler.get_webserver_port(65_535), 65_535);
    assert_eq!(profiler.get_webserver_port(65_536), 0);
    assert_eq!(profiler.get_webserver_port(65_536 + 80), 80);
    assert_eq!(profiler.get_webserver_port(u32::MAX), u16::MAX);
}
