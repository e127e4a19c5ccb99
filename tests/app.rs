use vkfft::app::{App, BuildError, LaunchError, LaunchParams, LaunchSlot, PlanState};
use vkfft::config::{BufferDesc, BufferRef, Config, ConfigBuilder, ConfigError, Precision};
use vkfft::error::{check_status, Error};

type Owner = &'static str;

fn base() -> ConfigBuilder<Owner> {
    Config::builder().physical_device(1).device(2).queue(3).fence(4).command_pool(5).dim(&[32, 32])
}

fn buf(handle: u64) -> BufferRef<Owner> {
    BufferRef { owner: "launch", handle, size: 256 }
}

fn ready(b: ConfigBuilder<Owner>) -> App<Owner> {
    let mut app = App::new(b.build().unwrap()).ok().unwrap();
    assert_eq!(app.state(), PlanState::Uninitialized);
    assert_eq!(app.initialized(0), Ok(()));
    assert_eq!(app.state(), PlanState::Ready);
    app
}

#[test]
fn launch_needs_a_command_buffer() {
    assert_eq!(LaunchParams::<Owner>::builder().build().err(), Some(BuildError::NoCommandBuffer));
    let p = LaunchParams::<Owner>::builder().command_buffer(9).build().ok().unwrap();
    assert_eq!(p.command_buffer, 9);
}

#[test]
fn launch_marshals_handles_and_direction() {
    let app = ready(base());
    let p = LaunchParams::builder()
        .command_buffer(0x99)
        .buffer(buf(0x10))
        .kernel(buf(0x20))
        .build()
        .ok()
        .unwrap();
    let fwd = app.forward(&p).ok().unwrap();
    assert_eq!(fwd.direction, -1);
    assert_eq!(fwd.params.params.command_buffer, Some(LaunchSlot::CommandBuffer));
    assert_eq!(fwd.params.slot_value(LaunchSlot::CommandBuffer), 0x99);
    assert_eq!(fwd.params.params.buffer, Some(LaunchSlot::Buffer));
    assert_eq!(fwd.params.slot_value(LaunchSlot::Buffer), 0x10);
    assert_eq!(fwd.params.slot_value(LaunchSlot::Kernel), 0x20);
    assert_eq!(fwd.params.params.temp_buffer, None);
    assert_eq!(fwd.params.params.input_buffer, None);
    let inv = app.inverse(&p).ok().unwrap();
    assert_eq!(inv.direction, 1);
}

fn conflict(b: ConfigBuilder<Owner>, p: LaunchParams<Owner>) -> Option<Error> {
    let app = ready(b);
    app.forward(&p).err()
}

fn cfg_buf() -> BufferDesc<Owner> {
    BufferDesc::from_buffer("config", 0x5, 256)
}

fn params() -> vkfft::app::LaunchParamsBuilder<Owner> {
    LaunchParams::builder().command_buffer(7)
}

#[test]
fn launch_rejects_buffer_given_twice() {
    let e = conflict(base().buffer(cfg_buf()), params().buffer(buf(1)).build().ok().unwrap());
    assert_eq!(e, Some(Error::Launch(LaunchError::ConfigSpecifiesBuffer)));
}

#[test]
fn launch_rejects_temp_buffer_given_twice() {
    let e = conflict(base().temp_buffer(cfg_buf()), params().temp_buffer(buf(1)).build().ok().unwrap());
    assert_eq!(e, Some(Error::Launch(LaunchError::ConfigSpecifiesTempBuffer)));
}

#[test]
fn launch_rejects_input_buffer_given_twice() {
    let e = conflict(base().input_buffer(cfg_buf()), params().input_buffer(buf(1)).build().ok().unwrap());
    assert_eq!(e, Some(Error::Launch(LaunchError::ConfigSpecifiesInputBuffer)));
}

#[test]
fn launch_rejects_output_buffer_given_twice() {
    let e = conflict(base().output_buffer(cfg_buf()), params().output_buffer(buf(1)).build().ok().unwrap());
    assert_eq!(e, Some(Error::Launch(LaunchError::ConfigSpecifiesOutputBuffer)));
}

#[test]
fn launch_rejects_kernel_given_twice() {
    let e = conflict(base().kernel(cfg_buf()), params().kernel(buf(1)).build().ok().unwrap());
    assert_eq!(e, Some(Error::Launch(LaunchError::ConfigSpecifiesKernel)));
}

#[test]
fn size_only_config_buffer_leaves_the_buffer_to_the_launch() {
    let e = conflict(base().buffer(BufferDesc::from_size(256)), params().buffer(buf(1)).build().ok().unwrap());
    assert_eq!(e, None);
}

#[test]
fn plan_rejects_contradictory_configuration() {
    let c = base().precision(Precision::HalfMemory).output_formatted(false).build().unwrap();
    assert_eq!(App::new(c).err(), Some(Error::Config(ConfigError::InvalidConfig)));
}

/// A stand-in for the native engine that fails its initialization with a given status
/// and counts its teardown calls.
struct FaultyEngine {
    init_status: u32,
    teardowns: u32,
}

impl FaultyEngine {
    fn run(&mut self, app: &mut App<Owner>) -> Result<(), Error> {
        let r = app.initialized(self.init_status);
        for _ in 0..3 {
            if app.destroy() {
                self.teardowns += 1;
            }
        }
        r
    }
}

#[test]
fn failed_initialization_surfaces_mapped_error_and_tears_down_once() {
    for (status, expected) in [
        (3002u32, Error::UnsupportedFftLength),
        (4024, Error::FailedToCreateBuffer),
        (77, Error::UnrecognizedStatus(77)),
    ] {
        let mut app = App::new(base().build().unwrap()).ok().unwrap();
        let mut engine = FaultyEngine { init_status: status, teardowns: 0 };
        assert_eq!(engine.run(&mut app), Err(expected));
        assert_eq!(check_status(status), Err(expected));
        assert_eq!(engine.teardowns, 1);
        assert_eq!(app.state(), PlanState::Destroyed);
    }
}

#[test]
fn ready_plan_is_torn_down_once() {
    let mut app = ready(base());
    assert!(app.destroy());
    assert!(!app.destroy());
}

#[test]
fn uninitialized_plan_needs_no_teardown() {
    let mut app = App::new(base().build().unwrap()).ok().unwrap();
    assert!(!app.destroy());
    assert_eq!(app.state(), PlanState::Destroyed);
}

#[test]
fn configuration_guard_keeps_its_address_when_plan_moves() {
    let app = ready(base().buffer(BufferDesc::from_size(64)));
    let before = format!("{:p}", app.native_config());
    let mut moved = Vec::new();
    moved.push(app);
    let relocated = moved.pop().unwrap();
    let boxed = Box::new(relocated);
    let after = format!("{:p}", boxed.native_config());
    assert_eq!(before, after);
    assert_eq!(boxed.native_config().config.buffer_num, 1);
}
