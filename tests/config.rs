use std::rc::Rc;

use vkfft::config::{
    BufferDesc, BuildError, Config, ConfigBuilder, ConfigError, ConfigSlot, Precision,
};

type Owner = Rc<Vec<f32>>;

fn devices(b: ConfigBuilder<Owner>) -> ConfigBuilder<Owner> {
    b.physical_device(11).device(12).queue(13).fence(14).command_pool(15)
}

fn full() -> ConfigBuilder<Owner> {
    devices(Config::builder())
}

#[test]
fn builder_defaults() {
    let c = full().build().unwrap();
    assert_eq!(c.fft_dim, 1);
    assert_eq!(c.size, [1, 1, 1]);
    assert_eq!(c.coordinate_features, 1);
    assert_eq!(c.precision, Precision::Single);
    assert!(c.buffer.is_none() && c.kernel.is_none());
    assert_eq!(c.buffer_size(), 0);
    assert_eq!(c.batch_count(), None);
    assert!(!c.normalize() && !c.r2c() && !c.use_lut() && !c.convolution());
}

#[test]
fn build_reports_first_missing_device_object() {
    let b = || Config::<Owner>::builder();
    assert_eq!(b().build().err(), Some(BuildError::NoPhysicalDevice));
    assert_eq!(b().physical_device(1).build().err(), Some(BuildError::NoDevice));
    assert_eq!(b().physical_device(1).device(2).build().err(), Some(BuildError::NoQueue));
    assert_eq!(b().physical_device(1).device(2).queue(3).build().err(), Some(BuildError::NoFence));
    assert_eq!(
        b().physical_device(1).device(2).queue(3).fence(4).build().err(),
        Some(BuildError::NoCommandPool)
    );
    assert_eq!(
        b().device(2).queue(3).fence(4).command_pool(5).build().err(),
        Some(BuildError::NoPhysicalDevice)
    );
    assert!(b().physical_device(1).device(2).queue(3).fence(4).command_pool(5).build().is_ok());
}

#[test]
fn dim_and_padding_overlay_leading_axes() {
    let c = full()
        .dim(&[32, 16, 8])
        .dim(&[4, 2])
        .zero_padding(&[true])
        .zeropad_left(&[1, 2])
        .zeropad_right(&[3, 4, 5])
        .build()
        .unwrap();
    assert_eq!(c.fft_dim, 2);
    assert_eq!(c.size, [4, 2, 8]);
    assert_eq!(c.zero_padding, [true, false, false]);
    assert_eq!(c.zeropad_left, [1, 2, 0]);
    assert_eq!(c.zeropad_right, [3, 4, 5]);
}

#[test]
fn descriptor_sizes() {
    let owner: Owner = Rc::new(vec![0.0; 16]);
    let d = BufferDesc::from_buffer(owner.clone(), 0xabc, 64);
    assert_eq!(d.size(), 64);
    assert_eq!(d.as_buffer().map(|b| b.handle), Some(0xabc));
    assert!(d.as_buffer_size().is_none());
    let s = BufferDesc::<Owner>::from_size(4096);
    assert_eq!(s.size(), 4096);
    assert!(s.as_buffer().is_none());
    assert_eq!(s.as_buffer_size(), Some(&4096));
}

#[test]
fn marshaling_copies_handles_and_flags() {
    let c = full()
        .dim(&[32, 32])
        .r2c()
        .normalize()
        .kernel_convolution()
        .symmetric_kernel()
        .use_lut()
        .disable_reorder_four_step()
        .coordinate_features(2)
        .batch_count(3)
        .precision(Precision::Double)
        .zero_padding(&[false, true, true])
        .build()
        .unwrap();
    assert!(c.kernel_convolution() && c.symmetric_kernel());
    let g = c.as_sys().ok().unwrap();
    let n = g.config;
    assert_eq!(n.fft_dim, 2);
    assert_eq!(n.size, [32, 32, 1]);
    assert_eq!(n.device, Some(ConfigSlot::Device));
    assert_eq!(g.slot_value(ConfigSlot::PhysicalDevice), 11);
    assert_eq!(g.slot_value(ConfigSlot::Device), 12);
    assert_eq!(g.slot_value(ConfigSlot::Queue), 13);
    assert_eq!(g.slot_value(ConfigSlot::Fence), 14);
    assert_eq!(g.slot_value(ConfigSlot::CommandPool), 15);
    assert_eq!(n.perform_r2c, 1);
    assert_eq!(n.normalize, 1);
    assert_eq!(n.kernel_convolution, 1);
    assert_eq!(n.symmetric_kernel, 1);
    assert_eq!(n.use_lut, 1);
    assert_eq!(n.disable_reorder_four_step, 1);
    assert_eq!(n.convolution, 0);
    assert_eq!(n.coordinate_features, 2);
    assert_eq!(n.number_batches, 3);
    assert_eq!(n.perform_zeropadding, [0, 1, 1]);
    assert_eq!((n.double_precision, n.half_precision, n.half_precision_memory_only), (1, 0, 0));
    assert_eq!((n.buffer_num, n.kernel_num), (0, 0));
    assert_eq!(n.buffer_size, None);
}

#[test]
fn size_only_descriptor_has_size_but_no_handle() {
    let g = full().buffer(BufferDesc::from_size(1024)).build().unwrap().as_sys().ok().unwrap();
    assert_eq!(g.config.buffer_num, 1);
    assert_eq!(g.config.buffer_size, Some(ConfigSlot::BufferSize));
    assert_eq!(g.slot_value(ConfigSlot::BufferSize), 1024);
    assert_eq!(g.config.buffer, None);
    assert!(g.keep_alive.buffer.is_none());
}

#[test]
fn concrete_buffer_is_pointed_to_and_kept_alive() {
    let owner: Owner = Rc::new(vec![1.0; 8]);
    let c = full()
        .kernel(BufferDesc::from_buffer(owner.clone(), 0x77, 32))
        .build()
        .unwrap();
    let g = c.as_sys().ok().unwrap();
    assert_eq!(g.config.kernel_num, 1);
    assert_eq!(g.config.kernel_size, Some(ConfigSlot::KernelSize));
    assert_eq!(g.config.kernel, Some(ConfigSlot::Kernel));
    assert_eq!(g.slot_value(ConfigSlot::KernelSize), 32);
    assert_eq!(g.slot_value(ConfigSlot::Kernel), 0x77);
    assert_eq!(Rc::strong_count(&owner), 2);
    drop(g);
    assert_eq!(Rc::strong_count(&owner), 1);
}

#[test]
fn half_memory_conflicts_with_padded_input_or_output() {
    let bad_in = full().precision(Precision::HalfMemory).input_formatted(false).build().unwrap();
    assert_eq!(bad_in.as_sys().err(), Some(ConfigError::InvalidConfig));
    let bad_out = full().precision(Precision::HalfMemory).output_formatted(false).build().unwrap();
    assert_eq!(bad_out.as_sys().err(), Some(ConfigError::InvalidConfig));
}

#[test]
fn half_memory_forces_formatted_flags() {
    for (i, o) in [(None, None), (Some(true), None), (None, Some(true)), (Some(true), Some(true))] {
        let mut b = full().precision(Precision::HalfMemory);
        if let Some(i) = i {
            b = b.input_formatted(i);
        }
        if let Some(o) = o {
            b = b.output_formatted(o);
        }
        let g = b.build().unwrap().as_sys().ok().unwrap();
        assert_eq!((g.config.is_input_formatted, g.config.is_output_formatted), (1, 1));
        assert_eq!(g.config.half_precision_memory_only, 1);
    }
}

#[test]
fn formatted_flags_pass_through_otherwise() {
    let g = full().input_formatted(false).output_formatted(true).build().unwrap().as_sys().ok().unwrap();
    assert_eq!((g.config.is_input_formatted, g.config.is_output_formatted), (0, 1));
    let g = full().precision(Precision::Half).build().unwrap().as_sys().ok().unwrap();
    assert_eq!((g.config.is_input_formatted, g.config.is_output_formatted), (0, 0));
    assert_eq!(g.config.half_precision, 1);
}

#[test]
fn size_converts_into_a_size_only_descriptor() {
    let d: BufferDesc<Owner> = BufferDesc::from(512usize);
    assert_eq!(d.size(), 512);
    assert_eq!(d.as_buffer_size(), Some(&512));
    let c = full().temp_buffer(d).build().unwrap();
    assert_eq!(c.temp_buffer().map(|d| d.size()), Some(512));
    assert!(c.buffer().is_none() && c.input_buffer().is_none() && c.output_buffer().is_none());
}
