use vstd::prelude::*;

use crate::config::{
    spec_formatted_conflict, spec_marshaled, BufferRef, Config, ConfigError, ConfigGuard,
};
use crate::error::{check_status, spec_check_status, spec_error_of, Error, STATUS_SUCCESS};

verus! {

/// A mandatory launch parameter that was missing.
#[derive(Debug, Clone, Copy, PartialEq, Eq, Structural)]
pub enum BuildError {
    NoCommandBuffer,
}

/// A buffer given at launch that the plan's configuration already fixes.
#[derive(Debug, Clone, Copy, PartialEq, Eq, Structural)]
pub enum LaunchError {
    ConfigSpecifiesBuffer,
    ConfigSpecifiesTempBuffer,
    ConfigSpecifiesInputBuffer,
    ConfigSpecifiesOutputBuffer,
    ConfigSpecifiesKernel,
}

/// The staged description of one launch: the command buffer to record into and the
/// buffers that the plan's configuration leaves to the launch.
pub struct LaunchParamsBuilder<B> {
    pub command_buffer: Option<u64>,
    pub buffer: Option<BufferRef<B>>,
    pub temp_buffer: Option<BufferRef<B>>,
    pub input_buffer: Option<BufferRef<B>>,
    pub output_buffer: Option<BufferRef<B>>,
    pub kernel: Option<BufferRef<B>>,
}

impl<B> LaunchParamsBuilder<B> {
    pub fn new() -> (r: LaunchParamsBuilder<B>)
        ensures
            r.command_buffer is None,
            r.buffer is None,
            r.temp_buffer is None,
            r.input_buffer is None,
            r.output_buffer is None,
            r.kernel is None,
    {
        LaunchParamsBuilder {
            command_buffer: None,
            buffer: None,
            temp_buffer: None,
            input_buffer: None,
            output_buffer: None,
            kernel: None,
        }
    }

    /// Records into the command buffer whose raw handle is `command_buffer`.
    pub fn command_buffer(self, command_buffer: u64) -> (r: LaunchParamsBuilder<B>)
        ensures
            r == (LaunchParamsBuilder { command_buffer: Some(command_buffer), ..self }),
    {
        LaunchParamsBuilder { command_buffer: Some(command_buffer), ..self }
    }

    pub fn buffer(self, buffer: BufferRef<B>) -> (r: LaunchParamsBuilder<B>)
        ensures
            r == (LaunchParamsBuilder { buffer: Some(buffer), ..self }),
    {
        LaunchParamsBuilder { buffer: Some(buffer), ..self }
    }

    pub fn temp_buffer(self, temp_buffer: BufferRef<B>) -> (r: LaunchParamsBuilder<B>)
        ensures
            r == (LaunchParamsBuilder { temp_buffer: Some(temp_buffer), ..self }),
    {
        LaunchParamsBuilder { temp_buffer: Some(temp_buffer), ..self }
    }

    pub fn input_buffer(self, input_buffer: BufferRef<B>) -> (r: LaunchParamsBuilder<B>)
        ensures
            r == (LaunchParamsBuilder { input_buffer: Some(input_buffer), ..self }),
    {
        LaunchParamsBuilder { input_buffer: Some(input_buffer), ..self }
    }

    pub fn output_buffer(self, output_buffer: BufferRef<B>) -> (r: LaunchParamsBuilder<B>)
        ensures
            r == (LaunchParamsBuilder { output_buffer: Some(output_buffer), ..self }),
    {
        LaunchParamsBuilder { output_buffer: Some(output_buffer), ..self }
    }

    pub fn kernel(self, kernel: BufferRef<B>) -> (r: LaunchParamsBuilder<B>)
        ensures
            r == (LaunchParamsBuilder { kernel: Some(kernel), ..self }),
    {
        LaunchParamsBuilder { kernel: Some(kernel), ..self }
    }

    /// The launch parameters; fails exactly when no command buffer was given.
    pub fn build(self) -> (r: Result<LaunchParams<B>, BuildError>)
        ensures
            self.command_buffer is None ==> r == Err::<LaunchParams<B>, BuildError>(
                BuildError::NoCommandBuffer,
            ),
            self.command_buffer is Some ==> r == Ok::<LaunchParams<B>, BuildError>(
                LaunchParams {
                    command_buffer: self.command_buffer.unwrap(),
                    buffer: self.buffer,
                    temp_buffer: self.temp_buffer,
                    input_buffer: self.input_buffer,
                    output_buffer: self.output_buffer,
                    kernel: self.kernel,
                },
            ),
    {
        let command_buffer = match self.command_buffer {
            Some(c) => c,
            None => return Err(BuildError::NoCommandBuffer),
        };
        Ok(LaunchParams {
            command_buffer,
            buffer: self.buffer,
            temp_buffer: self.temp_buffer,
            input_buffer: self.input_buffer,
            output_buffer: self.output_buffer,
            kernel: self.kernel,
        })
    }
}

/// The parameters of one launch.
pub struct LaunchParams<B> {
    pub command_buffer: u64,
    pub buffer: Option<BufferRef<B>>,
    pub temp_buffer: Option<BufferRef<B>>,
    pub input_buffer: Option<BufferRef<B>>,
    pub output_buffer: Option<BufferRef<B>>,
    pub kernel: Option<BufferRef<B>>,
}

/// A scalar slot of a [`LaunchParamsGuard`], the target of a pointer field of the
/// native launch parameters.
#[derive(Debug, Clone, Copy, PartialEq, Eq, Structural)]
pub enum LaunchSlot {
    CommandBuffer,
    Buffer,
    TempBuffer,
    InputBuffer,
    OutputBuffer,
    Kernel,
}

/// The launch parameters that the native engine reads; each pointer field is null or
/// names the slot it points to.
#[derive(Debug, Clone, Copy, PartialEq, Eq, Structural)]
pub struct NativeLaunchParams {
    pub command_buffer: Option<LaunchSlot>,
    pub buffer: Option<LaunchSlot>,
    pub temp_buffer: Option<LaunchSlot>,
    pub input_buffer: Option<LaunchSlot>,
    pub output_buffer: Option<LaunchSlot>,
    pub kernel: Option<LaunchSlot>,
}

/// The native launch parameters with the handles they point to. It borrows the
/// launch parameters, so the buffers stay alive while it exists, and it is handed out
/// boxed so the slots keep their addresses.
pub struct LaunchParamsGuard<'a, B> {
    pub source: &'a LaunchParams<B>,
    pub params: NativeLaunchParams,
    pub command_buffer: u64,
    pub buffer: u64,
    pub temp_buffer: u64,
    pub input_buffer: u64,
    pub output_buffer: u64,
    pub kernel: u64,
}

/// The value stored in a slot of a launch guard.
pub open spec fn spec_launch_slot_value<B>(g: LaunchParamsGuard<B>, slot: LaunchSlot) -> u64 {
    match slot {
        LaunchSlot::CommandBuffer => g.command_buffer,
        LaunchSlot::Buffer => g.buffer,
        LaunchSlot::TempBuffer => g.temp_buffer,
        LaunchSlot::InputBuffer => g.input_buffer,
        LaunchSlot::OutputBuffer => g.output_buffer,
        LaunchSlot::Kernel => g.kernel,
    }
}

/// The launch guard lays `p` out: the command buffer always, each buffer's handle
/// exactly when that buffer is given.
pub open spec fn spec_launch_marshaled<B>(p: LaunchParams<B>, g: LaunchParamsGuard<B>) -> bool {
    &&& *g.source == p
    &&& g.params.command_buffer == Some(LaunchSlot::CommandBuffer)
    &&& g.command_buffer == p.command_buffer
    &&& g.params.buffer == (match p.buffer {
        Some(_) => Some(LaunchSlot::Buffer),
        None => None::<LaunchSlot>,
    })
    &&& g.buffer == (match p.buffer {
        Some(b) => b.handle,
        None => 0u64,
    })
    &&& g.params.temp_buffer == (match p.temp_buffer {
        Some(_) => Some(LaunchSlot::TempBuffer),
        None => None::<LaunchSlot>,
    })
    &&& g.temp_buffer == (match p.temp_buffer {
        Some(b) => b.handle,
        None => 0u64,
    })
    &&& g.params.input_buffer == (match p.input_buffer {
        Some(_) => Some(LaunchSlot::InputBuffer),
        None => None::<LaunchSlot>,
    })
    &&& g.input_buffer == (match p.input_buffer {
        Some(b) => b.handle,
        None => 0u64,
    })
    &&& g.params.output_buffer == (match p.output_buffer {
        Some(_) => Some(LaunchSlot::OutputBuffer),
        None => None::<LaunchSlot>,
    })
    &&& g.output_buffer == (match p.output_buffer {
        Some(b) => b.handle,
        None => 0u64,
    })
    &&& g.params.kernel == (match p.kernel {
        Some(_) => Some(LaunchSlot::Kernel),
        None => None::<LaunchSlot>,
    })
    &&& g.kernel == (match p.kernel {
        Some(b) => b.handle,
        None => 0u64,
    })
}

impl<'a, B> LaunchParamsGuard<'a, B> {
    /// What the native engine reads at the address of `slot`.
    pub fn slot_value(&self, slot: LaunchSlot) -> (r: u64)
        ensures
            r == spec_launch_slot_value(*self, slot),
    {
        match slot {
            LaunchSlot::CommandBuffer => self.command_buffer,
            LaunchSlot::Buffer => self.buffer,
            LaunchSlot::TempBuffer => self.temp_buffer,
            LaunchSlot::InputBuffer => self.input_buffer,
            LaunchSlot::OutputBuffer => self.output_buffer,
            LaunchSlot::Kernel => self.kernel,
        }
    }
}

impl<B> LaunchParams<B> {
    pub fn builder() -> (r: LaunchParamsBuilder<B>)
        ensures
            r.command_buffer is None,
            r.buffer is None,
            r.temp_buffer is None,
            r.input_buffer is None,
            r.output_buffer is None,
            r.kernel is None,
    {
        LaunchParamsBuilder::new()
    }

    /// Lays the parameters out as the native engine expects them.
    pub fn as_sys(&self) -> (r: Box<LaunchParamsGuard<'_, B>>)
        ensures
            spec_launch_marshaled(*self, *r),
    {
        let (buffer_ptr, buffer): (Option<LaunchSlot>, u64) = match &self.buffer {
            Some(b) => (Some(LaunchSlot::Buffer), b.handle),
            None => (None, 0),
        };
        let (temp_buffer_ptr, temp_buffer): (Option<LaunchSlot>, u64) = match &self.temp_buffer {
            Some(b) => (Some(LaunchSlot::TempBuffer), b.handle),
            None => (None, 0),
        };
        let (input_buffer_ptr, input_buffer): (Option<LaunchSlot>, u64) = match &self.input_buffer {
            Some(b) => (Some(LaunchSlot::InputBuffer), b.handle),
            None => (None, 0),
        };
        let (output_buffer_ptr, output_buffer): (Option<LaunchSlot>, u64) = match &self.output_buffer {
            Some(b) => (Some(LaunchSlot::OutputBuffer), b.handle),
            None => (None, 0),
        };
        let (kernel_ptr, kernel): (Option<LaunchSlot>, u64) = match &self.kernel {
            Some(b) => (Some(LaunchSlot::Kernel), b.handle),
            None => (None, 0),
        };
        Box::new(LaunchParamsGuard {
            source: self,
            params: NativeLaunchParams {
                command_buffer: Some(LaunchSlot::CommandBuffer),
                buffer: buffer_ptr,
                temp_buffer: temp_buffer_ptr,
                input_buffer: input_buffer_ptr,
                output_buffer: output_buffer_ptr,
                kernel: kernel_ptr,
            },
            command_buffer: self.command_buffer,
            buffer,
            temp_buffer,
            input_buffer,
            output_buffer,
            kernel,
        })
    }
}

/// The lifecycle of a compute plan. `Failed` is a plan whose native initialization
/// reported an error: it may hold native state, so it still has to be torn down.
#[derive(Debug, Clone, Copy, PartialEq, Eq, Structural)]
pub enum PlanState {
    Uninitialized,
    Ready,
    Failed,
    Destroyed,
}

/// The state after the native initialization reported `status`.
pub open spec fn spec_init_state(status: u32) -> PlanState {
    if status == STATUS_SUCCESS {
        PlanState::Ready
    } else {
        PlanState::Failed
    }
}

/// Whether a plan in state `s` holds native state that a teardown call must release.
pub open spec fn spec_needs_teardown(s: PlanState) -> bool {
    s == PlanState::Ready || s == PlanState::Failed
}

/// The direction flag that the native engine expects: -1 forward, +1 inverse.
pub open spec fn spec_direction(inverse: bool) -> i32 {
    if inverse {
        1i32
    } else {
        -1i32
    }
}

/// The launch error for `p` under the marshaled configuration `g`: the first buffer
/// category, in the order buffer, temp buffer, input buffer, output buffer, kernel, that
/// both name as a concrete buffer.
pub open spec fn spec_launch_conflict<B>(g: ConfigGuard<B>, p: LaunchParams<B>) -> Option<LaunchError> {
    if g.config.buffer is Some && p.buffer is Some {
        Some(LaunchError::ConfigSpecifiesBuffer)
    } else if g.config.temp_buffer is Some && p.temp_buffer is Some {
        Some(LaunchError::ConfigSpecifiesTempBuffer)
    } else if g.config.input_buffer is Some && p.input_buffer is Some {
        Some(LaunchError::ConfigSpecifiesInputBuffer)
    } else if g.config.output_buffer is Some && p.output_buffer is Some {
        Some(LaunchError::ConfigSpecifiesOutputBuffer)
    } else if g.config.kernel is Some && p.kernel is Some {
        Some(LaunchError::ConfigSpecifiesKernel)
    } else {
        None
    }
}

/// The work that a launch asks the native engine to append to the command buffer.
pub struct Append<'a, B> {
    pub direction: i32,
    pub params: Box<LaunchParamsGuard<'a, B>>,
}

/// A compute plan: the marshaled configuration, which it owns for its whole life, and
/// where it stands in its lifecycle. The native calls are made by its holder, which
/// reports each outcome back.
pub struct App<B> {
    config: Box<ConfigGuard<B>>,
    state: PlanState,
}

impl<B> App<B> {
    pub closed spec fn spec_state(&self) -> PlanState {
        self.state
    }

    pub closed spec fn spec_guard(&self) -> ConfigGuard<B> {
        *self.config
    }

    /// Marshals `config` into a plan that awaits its native initialization.
    pub fn new(config: Config<B>) -> (r: Result<App<B>, Error>)
        ensures
            r is Err <==> spec_formatted_conflict(config),
            r is Err ==> r == Err::<App<B>, Error>(Error::Config(ConfigError::InvalidConfig)),
            r is Ok ==> r.unwrap().spec_state() == PlanState::Uninitialized && spec_marshaled(
                config,
                r.unwrap().spec_guard(),
            ),
    {
        match config.as_sys() {
            Ok(guard) => Ok(App { config: guard, state: PlanState::Uninitialized }),
            Err(e) => Err(Error::from(e)),
        }
    }

    pub fn state(&self) -> (r: PlanState)
        ensures
            r == self.spec_state(),
    {
        self.state
    }

    /// The marshaled configuration, for the native initialization call.
    pub fn native_config(&self) -> (r: &ConfigGuard<B>)
        ensures
            *r == self.spec_guard(),
    {
        &self.config
    }

    /// Takes the status of the native initialization: the plan becomes ready on
    /// success, and otherwise fails with the mapped error and awaits its teardown.
    pub fn initialized(&mut self, status: u32) -> (r: Result<(), Error>)
        requires
            old(self).spec_state() == PlanState::Uninitialized,
        ensures
            r == spec_check_status(status),
            final(self).spec_state() == spec_init_state(status),
            final(self).spec_guard() == old(self).spec_guard(),
    {
        let r = check_status(status);
        if status == STATUS_SUCCESS {
            self.state = PlanState::Ready;
        } else {
            self.state = PlanState::Failed;
        }
        r
    }

    /// Checks `params` against the configuration and lays them out for the native
    /// append call in the given direction.
    pub fn launch<'a>(&self, params: &'a LaunchParams<B>, inverse: bool) -> (r: Result<
        Append<'a, B>,
        Error,
    >)
        requires
            self.spec_state() == PlanState::Ready,
        ensures
            match spec_launch_conflict(self.spec_guard(), *params) {
                Some(e) => r is Err && r->Err_0 == Error::Launch(e),
                None => r is Ok && r->Ok_0.direction == spec_direction(inverse)
                    && spec_launch_marshaled(*params, *r->Ok_0.params),
            },
    {
        if self.config.config.buffer.is_some() && params.buffer.is_some() {
            return Err(Error::from(LaunchError::ConfigSpecifiesBuffer));
        }
        if self.config.config.temp_buffer.is_some() && params.temp_buffer.is_some() {
            return Err(Error::from(LaunchError::ConfigSpecifiesTempBuffer));
        }
        if self.config.config.input_buffer.is_some() && params.input_buffer.is_some() {
            return Err(Error::from(LaunchError::ConfigSpecifiesInputBuffer));
        }
        if self.config.config.output_buffer.is_some() && params.output_buffer.is_some() {
            return Err(Error::from(LaunchError::ConfigSpecifiesOutputBuffer));
        }
        if self.config.config.kernel.is_some() && params.kernel.is_some() {
            return Err(Error::from(LaunchError::ConfigSpecifiesKernel));
        }
        let guard = params.as_sys();
        let direction: i32 = if inverse {
            1
        } else {
            -1
        };
        Ok(Append { direction, params: guard })
    }

    pub fn forward<'a>(&self, params: &'a LaunchParams<B>) -> (r: Result<Append<'a, B>, Error>)
        requires
            self.spec_state() == PlanState::Ready,
        ensures
            match spec_launch_conflict(self.spec_guard(), *params) {
                Some(e) => r is Err && r->Err_0 == Error::Launch(e),
                None => r is Ok && r->Ok_0.direction == -1i32
                    && spec_launch_marshaled(*params, *r->Ok_0.params),
            },
    {
        self.launch(params, false)
    }

    pub fn inverse<'a>(&self, params: &'a LaunchParams<B>) -> (r: Result<Append<'a, B>, Error>)
        requires
            self.spec_state() == PlanState::Ready,
        ensures
            match spec_launch_conflict(self.spec_guard(), *params) {
                Some(e) => r is Err && r->Err_0 == Error::Launch(e),
                None => r is Ok && r->Ok_0.direction == 1
                    && spec_launch_marshaled(*params, *r->Ok_0.params),
            },
    {
        self.launch(params, true)
    }

    /// Ends the plan. Returns whether the native teardown call must be made now, which
    /// is the case exactly once for a plan whose initialization was attempted.
    pub fn destroy(&mut self) -> (r: bool)
        ensures
            r == spec_needs_teardown(old(self).spec_state()),
            final(self).spec_state() == PlanState::Destroyed,
            final(self).spec_guard() == old(self).spec_guard(),
    {
        let r = self.state == PlanState::Ready || self.state == PlanState::Failed;
        self.state = PlanState::Destroyed;
        r
    }
}

/// A plan is torn down at most once: after `destroy`, a second `destroy` asks for no
/// native teardown.
pub proof fn lemma_teardown_at_most_once(s: PlanState)
    ensures
        !spec_needs_teardown(PlanState::Destroyed),
        spec_needs_teardown(s) <==> (s == PlanState::Ready || s == PlanState::Failed),
{
}

/// A plan whose native initialization reports a failure status surfaces exactly the
/// error that the status maps to, and still needs its one teardown call.
pub proof fn lemma_failed_init_is_torn_down(status: u32)
    requires
        status != STATUS_SUCCESS,
    ensures
        spec_check_status(status) == Err::<(), Error>(
            match spec_error_of(status) {
                Some(e) => e,
                None => Error::UnrecognizedStatus(status),
            },
        ),
        spec_init_state(status) == PlanState::Failed,
        spec_needs_teardown(spec_init_state(status)),
        !spec_needs_teardown(PlanState::Destroyed),
{
}

} // verus!
