//! GPU contexts and per-thread GPU logs.

use core::marker::PhantomData;
use vstd::prelude::*;
use crate::call::{Call, CallView};
use crate::profiler::Profiler;

verus! {

/// The GPU context or command buffer that a frame's GPU timers are
/// submitted through, by graphics API. Each handle is the native pointer or
/// handle as a number.
#[derive(Clone, Copy, Debug, PartialEq, Eq, Structural)]
pub enum GpuContext {
    /// A Direct3D 11 device context.
    D3D11(usize),
    /// A Direct3D 12 graphics command list.
    D3D12(usize),
    /// A Vulkan command buffer.
    Vulkan(usize),
    /// OpenGL: the context is the thread's current one.
    GL,
    /// No GPU timing.
    NoContext,
}

impl GpuContext {
    /// The native handle that the backend is given, if the API has one.
    pub open spec fn handle(self) -> Option<usize> {
        match self {
            GpuContext::D3D11(context) => Some(context),
            GpuContext::D3D12(list) => Some(list),
            GpuContext::Vulkan(buffer) => Some(buffer),
            GpuContext::GL => None,
            GpuContext::NoContext => None,
        }
    }

    /// The native handle that the backend is given, if the API has one.
    pub fn native_handle(&self) -> (handle: Option<usize>)
        ensures
            handle == self.handle(),
    {
        match self {
            GpuContext::D3D11(context) => Some(*context),
            GpuContext::D3D12(list) => Some(*list),
            GpuContext::Vulkan(buffer) => Some(*buffer),
            GpuContext::GL => None,
            GpuContext::NoContext => None,
        }
    }
}

/// A per-thread buffer of GPU timing events that the backend allocated. It
/// has one owner and one writer; the GPU scopes that record into it borrow
/// it, so none of them outlives it.
#[derive(Debug)]
pub struct GpuThreadLog<'a> {
    handle: usize,
    profiler: PhantomData<&'a Profiler>,
}

impl<'a> GpuThreadLog<'a> {
    #[verifier::type_invariant]
    spec fn allocated(self) -> bool {
        self.handle != 0
    }

    /// The backend's handle of the log.
    pub closed spec fn spec_handle(&self) -> usize {
        self.handle
    }

    /// The backend's handle of the log, never null.
    #[verifier::when_used_as_spec(spec_handle)]
    pub fn handle(&self) -> (handle: usize)
        ensures
            handle == self.spec_handle(),
            handle != 0,
    {
        proof {
            use_type_invariant(self);
        }
        self.handle
    }

    /// The log that the backend's answer `handle` names. `handle` is not
    /// null.
    pub(crate) fn new(handle: usize) -> (log: GpuThreadLog<'a>)
        requires
            handle != 0,
        ensures
            log.handle() == handle,
    {
        GpuThreadLog { handle, profiler: PhantomData }
    }

    /// Empties the log: the call that resets it. The log stays the same
    /// log.
    pub fn reset(&mut self) -> (call: Call)
        ensures
            call@ == (CallView::ResetGpuLog { log: old(self).handle() }),
            final(self).handle() == old(self).handle(),
    {
        Call::ResetGpuLog { log: self.handle }
    }

    /// Ends the log's life: the call that gives it back to the backend.
    /// The log is consumed, so it is freed once.
    pub fn free(self) -> (call: Call)
        ensures
            call@ == (CallView::FreeGpuLog { log: self.handle() }),
    {
        Call::FreeGpuLog { log: self.handle }
    }
}

} // verus!
