use vstd::prelude::*;

verus! {

/// A mandatory field that was missing when a configuration was built.
#[derive(Debug, Clone, Copy, PartialEq, Eq, Structural)]
pub enum BuildError {
    NoPhysicalDevice,
    NoDevice,
    NoQueue,
    NoFence,
    NoCommandPool,
    NoBuffer,
}

/// A configuration that contradicts itself.
#[derive(Debug, Clone, Copy, PartialEq, Eq, Structural)]
pub enum ConfigError {
    InvalidConfig,
}

#[derive(Debug, Clone, Copy, PartialEq, Eq, Structural)]
pub enum Precision {
    /// Perform calculations in single precision (32-bit)
    Single,
    /// Perform calculations in double precision (64-bit)
    Double,
    /// Perform calculations in half precision (16-bit)
    Half,
    /// Use half precision only as input/output buffer. Input/Output have to be allocated as half,
    /// buffer/tempBuffer have to be allocated as float (out of place mode only).
    HalfMemory,
}

/// A concrete device buffer: the object that keeps it alive, its raw handle and its
/// size in bytes.
#[derive(Debug)]
pub struct BufferRef<B> {
    pub owner: B,
    pub handle: u64,
    pub size: usize,
}

/// A buffer given either as a concrete buffer or as a byte size whose allocation is
/// left to the native engine.
#[derive(Debug)]
pub enum BufferDesc<B> {
    Buffer(BufferRef<B>),
    BufferSize(usize),
}

/// The byte size that a descriptor stands for.
pub open spec fn spec_desc_size<B>(d: BufferDesc<B>) -> usize {
    match d {
        BufferDesc::Buffer(b) => b.size,
        BufferDesc::BufferSize(s) => s,
    }
}

impl<B> BufferDesc<B> {
    /// A descriptor of a concrete buffer of `size` bytes whose raw handle is `handle`.
    pub fn from_buffer(owner: B, handle: u64, size: usize) -> (r: BufferDesc<B>)
        ensures
            r == BufferDesc::Buffer(BufferRef { owner, handle, size }),
    {
        BufferDesc::Buffer(BufferRef { owner, handle, size })
    }

    /// A descriptor of `size` bytes with no buffer behind it yet.
    pub fn from_size(size: usize) -> (r: BufferDesc<B>)
        ensures
            r == BufferDesc::<B>::BufferSize(size),
    {
        BufferDesc::BufferSize(size)
    }

    pub fn size(&self) -> (r: usize)
        ensures
            r == spec_desc_size(*self),
    {
        match self {
            BufferDesc::Buffer(b) => b.size,
            BufferDesc::BufferSize(s) => *s,
        }
    }

    pub fn as_buffer(&self) -> (r: Option<&BufferRef<B>>)
        ensures
            match *self {
                BufferDesc::Buffer(b) => r == Some(&b),
                BufferDesc::BufferSize(_) => r is None,
            },
    {
        match self {
            BufferDesc::Buffer(b) => Some(b),
            BufferDesc::BufferSize(_) => None,
        }
    }

    pub fn as_buffer_size(&self) -> (r: Option<&usize>)
        ensures
            match *self {
                BufferDesc::Buffer(_) => r is None,
                BufferDesc::BufferSize(s) => r == Some(&s),
            },
    {
        match self {
            BufferDesc::Buffer(_) => None,
            BufferDesc::BufferSize(s) => Some(s),
        }
    }
}

impl<B> From<usize> for BufferDesc<B> {
    fn from(size: usize) -> BufferDesc<B> {
        BufferDesc::BufferSize(size)
    }
}

impl<B> vstd::std_specs::convert::FromSpecImpl<usize> for BufferDesc<B> {
    open spec fn obeys_from_spec() -> bool {
        true
    }

    open spec fn from_spec(size: usize) -> BufferDesc<B> {
        BufferDesc::BufferSize(size)
    }
}

/// The staged description of a job. Device objects are given by their raw handles;
/// buffers by descriptors whose owners `B` keep them alive.
pub struct ConfigBuilder<B> {
    pub fft_dim: u32,
    pub size: [u32; 3],
    pub physical_device: Option<u64>,
    pub device: Option<u64>,
    pub queue: Option<u64>,
    pub fence: Option<u64>,
    pub command_pool: Option<u64>,
    pub buffer: Option<BufferDesc<B>>,
    pub input_buffer: Option<BufferDesc<B>>,
    pub output_buffer: Option<BufferDesc<B>>,
    pub temp_buffer: Option<BufferDesc<B>>,
    pub kernel: Option<BufferDesc<B>>,
    pub normalize: bool,
    pub zero_padding: [bool; 3],
    pub zeropad_left: [u32; 3],
    pub zeropad_right: [u32; 3],
    pub kernel_convolution: bool,
    pub convolution: bool,
    pub r2c: bool,
    pub coordinate_features: u32,
    pub disable_reorder_four_step: bool,
    pub batch_count: Option<u32>,
    pub precision: Precision,
    pub use_lut: bool,
    pub symmetric_kernel: bool,
    pub input_formatted: Option<bool>,
    pub output_formatted: Option<bool>,
}

/// `dst` with its first `src.len()` entries replaced by those of `src`.
pub open spec fn spec_overlay<T>(dst: [T; 3], src: Seq<T>) -> Seq<T> {
    Seq::new(3, |i: int| if i < src.len() { src[i] } else { dst@[i] })
}

/// The values that a fresh builder holds.
pub open spec fn spec_is_default<B>(r: ConfigBuilder<B>) -> bool {
    r.fft_dim == 1
    && r.size@ == seq![1u32, 1u32, 1u32]
    && r.physical_device is None
    && r.device is None
    && r.queue is None
    && r.fence is None
    && r.command_pool is None
    && r.buffer is None
    && r.input_buffer is None
    && r.output_buffer is None
    && r.temp_buffer is None
    && r.kernel is None
    && !r.normalize
    && r.zero_padding@ == seq![false, false, false]
    && r.zeropad_left@ == seq![0u32, 0u32, 0u32]
    && r.zeropad_right@ == seq![0u32, 0u32, 0u32]
    && !r.kernel_convolution
    && !r.convolution
    && !r.r2c
    && r.coordinate_features == 1
    && !r.disable_reorder_four_step
    && r.batch_count is None
    && r.precision == Precision::Single
    && !r.use_lut
    && !r.symmetric_kernel
    && r.input_formatted is None
    && r.output_formatted is None
}

impl<B> ConfigBuilder<B> {
    /// A one-dimensional single-precision transform of length 1, with no padding, no
    /// convolution, no buffers and no device objects.
    pub fn new() -> (r: ConfigBuilder<B>)
        ensures
            spec_is_default(r),
    {
        ConfigBuilder {
            fft_dim: 1,
            size: [1, 1, 1],
            physical_device: None,
            device: None,
            queue: None,
            fence: None,
            command_pool: None,
            buffer: None,
            input_buffer: None,
            output_buffer: None,
            temp_buffer: None,
            kernel: None,
            normalize: false,
            zero_padding: [false, false, false],
            zeropad_left: [0, 0, 0],
            zeropad_right: [0, 0, 0],
            kernel_convolution: false,
            convolution: false,
            r2c: false,
            coordinate_features: 1,
            disable_reorder_four_step: false,
            batch_count: None,
            precision: Precision::Single,
            use_lut: false,
            symmetric_kernel: false,
            input_formatted: None,
            output_formatted: None,
        }
    }

    /// Sets the number of dimensions and their extents.
    pub fn dim(self, dim: &[u32]) -> (r: ConfigBuilder<B>)
        requires
            1 <= dim@.len() <= 3,
        ensures
            r.fft_dim == dim@.len(),
            r.size@ == spec_overlay(self.size, dim@),
            r == (ConfigBuilder { fft_dim: r.fft_dim, size: r.size, ..self }),
    {
        let len: usize = dim.len();
        let s0: u32 = dim[0];
        let s1: u32 = if len > 1 { dim[1] } else { self.size[1] };
        let s2: u32 = if len > 2 { dim[2] } else { self.size[2] };
        let r = ConfigBuilder { fft_dim: len as u32, size: [s0, s1, s2], ..self };
        assert(r.size@ =~= spec_overlay(self.size, dim@));
        r
    }

    pub fn physical_device(self, physical_device: u64) -> (r: ConfigBuilder<B>)
        ensures
            r == (ConfigBuilder { physical_device: Some(physical_device), ..self }),
    {
        ConfigBuilder { physical_device: Some(physical_device), ..self }
    }

    pub fn device(self, device: u64) -> (r: ConfigBuilder<B>)
        ensures
            r == (ConfigBuilder { device: Some(device), ..self }),
    {
        ConfigBuilder { device: Some(device), ..self }
    }

    pub fn queue(self, queue: u64) -> (r: ConfigBuilder<B>)
        ensures
            r == (ConfigBuilder { queue: Some(queue), ..self }),
    {
        ConfigBuilder { queue: Some(queue), ..self }
    }

    pub fn command_pool(self, command_pool: u64) -> (r: ConfigBuilder<B>)
        ensures
            r == (ConfigBuilder { command_pool: Some(command_pool), ..self }),
    {
        ConfigBuilder { command_pool: Some(command_pool), ..self }
    }

    pub fn fence(self, fence: u64) -> (r: ConfigBuilder<B>)
        ensures
            r == (ConfigBuilder { fence: Some(fence), ..self }),
    {
        ConfigBuilder { fence: Some(fence), ..self }
    }

    pub fn buffer(self, buffer: BufferDesc<B>) -> (r: ConfigBuilder<B>)
        ensures
            r == (ConfigBuilder { buffer: Some(buffer), ..self }),
    {
        ConfigBuilder { buffer: Some(buffer), ..self }
    }

    pub fn temp_buffer(self, temp_buffer: BufferDesc<B>) -> (r: ConfigBuilder<B>)
        ensures
            r == (ConfigBuilder { temp_buffer: Some(temp_buffer), ..self }),
    {
        ConfigBuilder { temp_buffer: Some(temp_buffer), ..self }
    }

    pub fn input_buffer(self, input_buffer: BufferDesc<B>) -> (r: ConfigBuilder<B>)
        ensures
            r == (ConfigBuilder { input_buffer: Some(input_buffer), ..self }),
    {
        ConfigBuilder { input_buffer: Some(input_buffer), ..self }
    }

    pub fn output_buffer(self, output_buffer: BufferDesc<B>) -> (r: ConfigBuilder<B>)
        ensures
            r == (ConfigBuilder { output_buffer: Some(output_buffer), ..self }),
    {
        ConfigBuilder { output_buffer: Some(output_buffer), ..self }
    }

    pub fn kernel(self, kernel: BufferDesc<B>) -> (r: ConfigBuilder<B>)
        ensures
            r == (ConfigBuilder { kernel: Some(kernel), ..self }),
    {
        ConfigBuilder { kernel: Some(kernel), ..self }
    }

    /// Normalize inverse transform.
    pub fn normalize(self) -> (r: ConfigBuilder<B>)
        ensures
            r == (ConfigBuilder { normalize: true, ..self }),
    {
        ConfigBuilder { normalize: true, ..self }
    }

    /// Make this plan create the kernel of a convolution.
    pub fn kernel_convolution(self) -> (r: ConfigBuilder<B>)
        ensures
            r == (ConfigBuilder { kernel_convolution: true, ..self }),
    {
        ConfigBuilder { kernel_convolution: true, ..self }
    }

    /// Declare the kernel of a 2x2 or 3x3 matrix convolution symmetric.
    pub fn symmetric_kernel(self) -> (r: ConfigBuilder<B>)
        ensures
            r == (ConfigBuilder { symmetric_kernel: true, ..self }),
    {
        ConfigBuilder { symmetric_kernel: true, ..self }
    }

    /// Perform a convolution; this disables the four-step reorder.
    pub fn convolution(self) -> (r: ConfigBuilder<B>)
        ensures
            r == (ConfigBuilder { convolution: true, ..self }),
    {
        ConfigBuilder { convolution: true, ..self }
    }

    /// Perform the real-to-complex decomposition.
    pub fn r2c(self) -> (r: ConfigBuilder<B>)
        ensures
            r == (ConfigBuilder { r2c: true, ..self }),
    {
        ConfigBuilder { r2c: true, ..self }
    }

    /// Use precomputed lookup tables instead of computing sines and cosines.
    pub fn use_lut(self) -> (r: ConfigBuilder<B>)
        ensures
            r == (ConfigBuilder { use_lut: true, ..self }),
    {
        ConfigBuilder { use_lut: true, ..self }
    }

    /// Keep the four-step algorithm's output unshuffled; needs a temp buffer.
    pub fn disable_reorder_four_step(self) -> (r: ConfigBuilder<B>)
        ensures
            r == (ConfigBuilder { disable_reorder_four_step: true, ..self }),
    {
        ConfigBuilder { disable_reorder_four_step: true, ..self }
    }

    pub fn coordinate_features(self, coordinate_features: u32) -> (r: ConfigBuilder<B>)
        ensures
            r == (ConfigBuilder { coordinate_features, ..self }),
    {
        ConfigBuilder { coordinate_features, ..self }
    }

    pub fn batch_count(self, batch_count: u32) -> (r: ConfigBuilder<B>)
        ensures
            r == (ConfigBuilder { batch_count: Some(batch_count), ..self }),
    {
        ConfigBuilder { batch_count: Some(batch_count), ..self }
    }

    pub fn precision(self, precision: Precision) -> (r: ConfigBuilder<B>)
        ensures
            r == (ConfigBuilder { precision, ..self }),
    {
        ConfigBuilder { precision, ..self }
    }

    /// Declares whether the input buffer is unpadded (`true`) or padded (`false`).
    pub fn input_formatted(self, input_formatted: bool) -> (r: ConfigBuilder<B>)
        ensures
            r == (ConfigBuilder { input_formatted: Some(input_formatted), ..self }),
    {
        ConfigBuilder { input_formatted: Some(input_formatted), ..self }
    }

    /// Declares whether the output buffer is unpadded (`true`) or padded (`false`).
    pub fn output_formatted(self, output_formatted: bool) -> (r: ConfigBuilder<B>)
        ensures
            r == (ConfigBuilder { output_formatted: Some(output_formatted), ..self }),
    {
        ConfigBuilder { output_formatted: Some(output_formatted), ..self }
    }

    /// Skips reading zero-padded input per axis. Axes past the end of `zero_padding` keep their value.
    pub fn zero_padding(self, zero_padding: &[bool]) -> (r: ConfigBuilder<B>)
        requires
            zero_padding@.len() <= 3,
        ensures
            r.zero_padding@ == spec_overlay(self.zero_padding, zero_padding@),
            r == (ConfigBuilder { zero_padding: r.zero_padding, ..self }),
    {
        let len: usize = zero_padding.len();
        let v0: bool = if len > 0 { zero_padding[0] } else { self.zero_padding[0] };
        let v1: bool = if len > 1 { zero_padding[1] } else { self.zero_padding[1] };
        let v2: bool = if len > 2 { zero_padding[2] } else { self.zero_padding[2] };
        let r = ConfigBuilder { zero_padding: [v0, v1, v2], ..self };
        assert(r.zero_padding@ =~= spec_overlay(self.zero_padding, zero_padding@));
        r
    }

    /// Sets the start of the zero block per axis. Axes past the end of `zeropad_left` keep their value.
    pub fn zeropad_left(self, zeropad_left: &[u32]) -> (r: ConfigBuilder<B>)
        requires
            zeropad_left@.len() <= 3,
        ensures
            r.zeropad_left@ == spec_overlay(self.zeropad_left, zeropad_left@),
            r == (ConfigBuilder { zeropad_left: r.zeropad_left, ..self }),
    {
        let len: usize = zeropad_left.len();
        let v0: u32 = if len > 0 { zeropad_left[0] } else { self.zeropad_left[0] };
        let v1: u32 = if len > 1 { zeropad_left[1] } else { self.zeropad_left[1] };
        let v2: u32 = if len > 2 { zeropad_left[2] } else { self.zeropad_left[2] };
        let r = ConfigBuilder { zeropad_left: [v0, v1, v2], ..self };
        assert(r.zeropad_left@ =~= spec_overlay(self.zeropad_left, zeropad_left@));
        r
    }

    /// Sets the end of the zero block per axis. Axes past the end of `zeropad_right` keep their value.
    pub fn zeropad_right(self, zeropad_right: &[u32]) -> (r: ConfigBuilder<B>)
        requires
            zeropad_right@.len() <= 3,
        ensures
            r.zeropad_right@ == spec_overlay(self.zeropad_right, zeropad_right@),
            r == (ConfigBuilder { zeropad_right: r.zeropad_right, ..self }),
    {
        let len: usize = zeropad_right.len();
        let v0: u32 = if len > 0 { zeropad_right[0] } else { self.zeropad_right[0] };
        let v1: u32 = if len > 1 { zeropad_right[1] } else { self.zeropad_right[1] };
        let v2: u32 = if len > 2 { zeropad_right[2] } else { self.zeropad_right[2] };
        let r = ConfigBuilder { zeropad_right: [v0, v1, v2], ..self };
        assert(r.zeropad_right@ =~= spec_overlay(self.zeropad_right, zeropad_right@));
        r
    }
}

/// The validated description of one transform or convolution job.
pub struct Config<B> {
    pub fft_dim: u32,
    pub size: [u32; 3],
    pub physical_device: u64,
    pub device: u64,
    pub queue: u64,
    pub fence: u64,
    pub command_pool: u64,
    pub buffer: Option<BufferDesc<B>>,
    pub input_buffer: Option<BufferDesc<B>>,
    pub output_buffer: Option<BufferDesc<B>>,
    pub temp_buffer: Option<BufferDesc<B>>,
    pub kernel: Option<BufferDesc<B>>,
    /// Normalize inverse transform
    pub normalize: bool,
    /// Don't read some data/perform computations if some input sequences are zeropadded for each axis
    pub zero_padding: [bool; 3],
    /// Specify start boundary of zero block in the system for each axis
    pub zeropad_left: [u32; 3],
    /// Specify end boundary of zero block in the system for each axis
    pub zeropad_right: [u32; 3],
    /// Specify if this application is used to create kernel for convolution, so it has the same properties
    pub kernel_convolution: bool,
    /// Perform convolution in this application. Disables reorderFourStep parameter
    pub convolution: bool,
    /// Perform R2C/C2R decomposition
    pub r2c: bool,
    /// C - coordinate, or dimension of features vector. In matrix convolution - size of vector
    pub coordinate_features: u32,
    /// Disables unshuffling of four step algorithm. Requires `temp_buffer` allocation.
    pub disable_reorder_four_step: bool,
    /// Used to perform multiple batches of initial data
    pub batch_count: Option<u32>,
    pub precision: Precision,
    /// Switches from calculating sincos to using precomputed LUT tables
    pub use_lut: bool,
    /// Specify if kernel in 2x2 or 3x3 matrix convolution is symmetric
    pub symmetric_kernel: bool,
    /// Whether the input buffer is unpadded (`true`) or padded (`false`).
    pub input_formatted: Option<bool>,
    /// Whether the output buffer is unpadded (`true`) or padded (`false`).
    pub output_formatted: Option<bool>,
}

/// What `build` returns: the first missing device object, in the order physical device,
/// device, queue, fence, command pool, as an error; else the configuration.
pub open spec fn spec_build<B>(b: ConfigBuilder<B>) -> Result<Config<B>, BuildError> {
    if b.physical_device is None {
        Err(BuildError::NoPhysicalDevice)
    } else if b.device is None {
        Err(BuildError::NoDevice)
    } else if b.queue is None {
        Err(BuildError::NoQueue)
    } else if b.fence is None {
        Err(BuildError::NoFence)
    } else if b.command_pool is None {
        Err(BuildError::NoCommandPool)
    } else {
        Ok(Config {
            physical_device: b.physical_device.unwrap(),
            device: b.device.unwrap(),
            queue: b.queue.unwrap(),
            fence: b.fence.unwrap(),
            command_pool: b.command_pool.unwrap(),
            fft_dim: b.fft_dim,
            size: b.size,
            buffer: b.buffer,
            input_buffer: b.input_buffer,
            output_buffer: b.output_buffer,
            temp_buffer: b.temp_buffer,
            kernel: b.kernel,
            normalize: b.normalize,
            zero_padding: b.zero_padding,
            zeropad_left: b.zeropad_left,
            zeropad_right: b.zeropad_right,
            kernel_convolution: b.kernel_convolution,
            convolution: b.convolution,
            r2c: b.r2c,
            coordinate_features: b.coordinate_features,
            disable_reorder_four_step: b.disable_reorder_four_step,
            batch_count: b.batch_count,
            precision: b.precision,
            use_lut: b.use_lut,
            symmetric_kernel: b.symmetric_kernel,
            input_formatted: b.input_formatted,
            output_formatted: b.output_formatted,
        })
    }
}

impl<B> ConfigBuilder<B> {
    /// The configuration, or the first mandatory device object that is missing.
    pub fn build(self) -> (r: Result<Config<B>, BuildError>)
        ensures
            r == spec_build(self),
    {
        let physical_device = match self.physical_device {
            Some(v) => v,
            None => return Err(BuildError::NoPhysicalDevice),
        };
        let device = match self.device {
            Some(v) => v,
            None => return Err(BuildError::NoDevice),
        };
        let queue = match self.queue {
            Some(v) => v,
            None => return Err(BuildError::NoQueue),
        };
        let fence = match self.fence {
            Some(v) => v,
            None => return Err(BuildError::NoFence),
        };
        let command_pool = match self.command_pool {
            Some(v) => v,
            None => return Err(BuildError::NoCommandPool),
        };
        Ok(Config {
            physical_device,
            device,
            queue,
            fence,
            command_pool,
            fft_dim: self.fft_dim,
            size: self.size,
            buffer: self.buffer,
            input_buffer: self.input_buffer,
            output_buffer: self.output_buffer,
            temp_buffer: self.temp_buffer,
            kernel: self.kernel,
            normalize: self.normalize,
            zero_padding: self.zero_padding,
            zeropad_left: self.zeropad_left,
            zeropad_right: self.zeropad_right,
            kernel_convolution: self.kernel_convolution,
            convolution: self.convolution,
            r2c: self.r2c,
            coordinate_features: self.coordinate_features,
            disable_reorder_four_step: self.disable_reorder_four_step,
            batch_count: self.batch_count,
            precision: self.precision,
            use_lut: self.use_lut,
            symmetric_kernel: self.symmetric_kernel,
            input_formatted: self.input_formatted,
            output_formatted: self.output_formatted,
        })
    }
}

/// The byte size of an optional descriptor; zero when there is none.
pub open spec fn spec_opt_size<B>(d: Option<BufferDesc<B>>) -> usize {
    match d {
        Some(d) => spec_desc_size(d),
        None => 0,
    }
}

impl<B> Config<B> {
    pub fn builder() -> (r: ConfigBuilder<B>)
        ensures
            spec_is_default(r),
    {
        ConfigBuilder::new()
    }

    /// The byte size of the main buffer, zero when there is none.
    pub fn buffer_size(&self) -> (r: usize)
        ensures
            r == spec_opt_size(self.buffer),
    {
        match &self.buffer {
            Some(d) => d.size(),
            None => 0,
        }
    }

    pub fn kernel_convolution(&self) -> (r: bool)
        ensures
            r == self.kernel_convolution,
    {
        self.kernel_convolution
    }

    pub fn symmetric_kernel(&self) -> (r: bool)
        ensures
            r == self.symmetric_kernel,
    {
        self.symmetric_kernel
    }

    pub fn convolution(&self) -> (r: bool)
        ensures
            r == self.convolution,
    {
        self.convolution
    }

    pub fn r2c(&self) -> (r: bool)
        ensures
            r == self.r2c,
    {
        self.r2c
    }

    pub fn normalize(&self) -> (r: bool)
        ensures
            r == self.normalize,
    {
        self.normalize
    }

    pub fn coordinate_features(&self) -> (r: u32)
        ensures
            r == self.coordinate_features,
    {
        self.coordinate_features
    }

    pub fn batch_count(&self) -> (r: Option<u32>)
        ensures
            r == self.batch_count,
    {
        self.batch_count
    }

    pub fn use_lut(&self) -> (r: bool)
        ensures
            r == self.use_lut,
    {
        self.use_lut
    }

    pub fn buffer(&self) -> (r: Option<&BufferDesc<B>>)
        ensures
            r == match self.buffer {
                Some(d) => Some(&d),
                None => None::<&BufferDesc<B>>,
            },
    {
        match &self.buffer {
            Some(d) => Some(d),
            None => None,
        }
    }

    pub fn temp_buffer(&self) -> (r: Option<&BufferDesc<B>>)
        ensures
            r == match self.temp_buffer {
                Some(d) => Some(&d),
                None => None::<&BufferDesc<B>>,
            },
    {
        match &self.temp_buffer {
            Some(d) => Some(d),
            None => None,
        }
    }

    pub fn input_buffer(&self) -> (r: Option<&BufferDesc<B>>)
        ensures
            r == match self.input_buffer {
                Some(d) => Some(&d),
                None => None::<&BufferDesc<B>>,
            },
    {
        match &self.input_buffer {
            Some(d) => Some(d),
            None => None,
        }
    }

    pub fn output_buffer(&self) -> (r: Option<&BufferDesc<B>>)
        ensures
            r == match self.output_buffer {
                Some(d) => Some(&d),
                None => None::<&BufferDesc<B>>,
            },
    {
        match &self.output_buffer {
            Some(d) => Some(d),
            None => None,
        }
    }
}

/// A scalar slot of a [`ConfigGuard`]. A pointer field of the native configuration is
/// either null (`None`) or the address of one of these slots.
#[derive(Debug, Clone, Copy, PartialEq, Eq, Structural)]
pub enum ConfigSlot {
    PhysicalDevice,
    Device,
    Queue,
    CommandPool,
    Fence,
    BufferSize,
    Buffer,
    TempBufferSize,
    TempBuffer,
    InputBufferSize,
    InputBuffer,
    OutputBufferSize,
    OutputBuffer,
    KernelSize,
    Kernel,
}

/// The configuration structure that the native engine reads, field for field. Flags
/// are `0` or `1`; every field that the engine reads through a pointer names the slot
/// of the guard that it points to.
#[derive(Debug, Clone, Copy)]
pub struct NativeConfig {
    pub fft_dim: u32,
    pub size: [u32; 3],
    pub physical_device: Option<ConfigSlot>,
    pub device: Option<ConfigSlot>,
    pub queue: Option<ConfigSlot>,
    pub command_pool: Option<ConfigSlot>,
    pub fence: Option<ConfigSlot>,
    pub normalize: u32,
    pub buffer_num: u32,
    pub buffer_size: Option<ConfigSlot>,
    pub buffer: Option<ConfigSlot>,
    pub temp_buffer_num: u32,
    pub temp_buffer_size: Option<ConfigSlot>,
    pub temp_buffer: Option<ConfigSlot>,
    pub input_buffer_num: u32,
    pub input_buffer_size: Option<ConfigSlot>,
    pub input_buffer: Option<ConfigSlot>,
    pub output_buffer_num: u32,
    pub output_buffer_size: Option<ConfigSlot>,
    pub output_buffer: Option<ConfigSlot>,
    pub kernel_num: u32,
    pub kernel_size: Option<ConfigSlot>,
    pub kernel: Option<ConfigSlot>,
    pub perform_zeropadding: [u32; 3],
    pub fft_zeropad_left: [u32; 3],
    pub fft_zeropad_right: [u32; 3],
    pub kernel_convolution: u32,
    pub convolution: u32,
    pub perform_r2c: u32,
    pub coordinate_features: u32,
    pub disable_reorder_four_step: u32,
    pub symmetric_kernel: u32,
    pub use_lut: u32,
    pub is_input_formatted: u32,
    pub is_output_formatted: u32,
    pub double_precision: u32,
    pub half_precision: u32,
    pub half_precision_memory_only: u32,
    pub number_batches: u32,
}

/// The owners of the buffers that a marshaled configuration refers to.
pub struct KeepAlive<B> {
    pub buffer: Option<B>,
    pub temp_buffer: Option<B>,
    pub input_buffer: Option<B>,
    pub output_buffer: Option<B>,
    pub kernel: Option<B>,
}

/// The native configuration together with the scalars that its pointer fields refer
/// to and the owners of every buffer whose handle it holds. It is handed out boxed and
/// never moved out of its box, so the slots keep their addresses while it lives.
pub struct ConfigGuard<B> {
    pub keep_alive: KeepAlive<B>,
    pub config: NativeConfig,
    pub physical_device: u64,
    pub device: u64,
    pub queue: u64,
    pub command_pool: u64,
    pub fence: u64,
    pub buffer_size: u64,
    pub buffer: u64,
    pub temp_buffer_size: u64,
    pub temp_buffer: u64,
    pub input_buffer_size: u64,
    pub input_buffer: u64,
    pub output_buffer_size: u64,
    pub output_buffer: u64,
    pub kernel_size: u64,
    pub kernel: u64,
}

/// The value stored in a slot of the guard.
pub open spec fn spec_slot_value<B>(g: ConfigGuard<B>, slot: ConfigSlot) -> u64 {
    match slot {
        ConfigSlot::PhysicalDevice => g.physical_device,
        ConfigSlot::Device => g.device,
        ConfigSlot::Queue => g.queue,
        ConfigSlot::CommandPool => g.command_pool,
        ConfigSlot::Fence => g.fence,
        ConfigSlot::BufferSize => g.buffer_size,
        ConfigSlot::Buffer => g.buffer,
        ConfigSlot::TempBufferSize => g.temp_buffer_size,
        ConfigSlot::TempBuffer => g.temp_buffer,
        ConfigSlot::InputBufferSize => g.input_buffer_size,
        ConfigSlot::InputBuffer => g.input_buffer,
        ConfigSlot::OutputBufferSize => g.output_buffer_size,
        ConfigSlot::OutputBuffer => g.output_buffer,
        ConfigSlot::KernelSize => g.kernel_size,
        ConfigSlot::Kernel => g.kernel,
    }
}

impl<B> ConfigGuard<B> {
    /// What the native engine reads at the address of `slot`.
    pub fn slot_value(&self, slot: ConfigSlot) -> (r: u64)
        ensures
            r == spec_slot_value(*self, slot),
    {
        match slot {
            ConfigSlot::PhysicalDevice => self.physical_device,
            ConfigSlot::Device => self.device,
            ConfigSlot::Queue => self.queue,
            ConfigSlot::CommandPool => self.command_pool,
            ConfigSlot::Fence => self.fence,
            ConfigSlot::BufferSize => self.buffer_size,
            ConfigSlot::Buffer => self.buffer,
            ConfigSlot::TempBufferSize => self.temp_buffer_size,
            ConfigSlot::TempBuffer => self.temp_buffer,
            ConfigSlot::InputBufferSize => self.input_buffer_size,
            ConfigSlot::InputBuffer => self.input_buffer,
            ConfigSlot::OutputBufferSize => self.output_buffer_size,
            ConfigSlot::OutputBuffer => self.output_buffer,
            ConfigSlot::KernelSize => self.kernel_size,
            ConfigSlot::Kernel => self.kernel,
        }
    }
}

/// How one optional buffer is laid out: its count, its two pointer fields, the two
/// slot values and the owner kept alive.
pub struct BufferSlots<B> {
    pub num: u32,
    pub size_ptr: Option<ConfigSlot>,
    pub handle_ptr: Option<ConfigSlot>,
    pub size: u64,
    pub handle: u64,
    pub owner: Option<B>,
}

/// A present buffer counts one and its size pointer refers to its size slot; only a
/// concrete buffer also has its handle stored and pointed to, and its owner kept. An
/// absent buffer leaves everything zero and null.
pub open spec fn spec_slots_of<B>(
    d: Option<BufferDesc<B>>,
    size_slot: ConfigSlot,
    handle_slot: ConfigSlot,
) -> BufferSlots<B> {
    match d {
        None => BufferSlots {
            num: 0,
            size_ptr: None,
            handle_ptr: None,
            size: 0,
            handle: 0,
            owner: None,
        },
        Some(BufferDesc::BufferSize(s)) => BufferSlots {
            num: 1,
            size_ptr: Some(size_slot),
            handle_ptr: None,
            size: s as u64,
            handle: 0,
            owner: None,
        },
        Some(BufferDesc::Buffer(b)) => BufferSlots {
            num: 1,
            size_ptr: Some(size_slot),
            handle_ptr: Some(handle_slot),
            size: b.size as u64,
            handle: b.handle,
            owner: Some(b.owner),
        },
    }
}

fn slots_of<B>(d: Option<BufferDesc<B>>, size_slot: ConfigSlot, handle_slot: ConfigSlot) -> (r:
    BufferSlots<B>)
    ensures
        r == spec_slots_of(d, size_slot, handle_slot),
{
    match d {
        None => BufferSlots {
            num: 0,
            size_ptr: None,
            handle_ptr: None,
            size: 0,
            handle: 0,
            owner: None,
        },
        Some(BufferDesc::BufferSize(s)) => BufferSlots {
            num: 1,
            size_ptr: Some(size_slot),
            handle_ptr: None,
            size: s as u64,
            handle: 0,
            owner: None,
        },
        Some(BufferDesc::Buffer(b)) => BufferSlots {
            num: 1,
            size_ptr: Some(size_slot),
            handle_ptr: Some(handle_slot),
            size: b.size as u64,
            handle: b.handle,
            owner: Some(b.owner),
        },
    }
}

/// A boolean as the native engine encodes it.
pub open spec fn spec_flag(b: bool) -> u32 {
    if b {
        1
    } else {
        0
    }
}

fn flag(b: bool) -> (r: u32)
    ensures
        r == spec_flag(b),
{
    if b {
        1
    } else {
        0
    }
}

/// Half precision in memory only asks for formatted input and output, so declaring
/// either of them padded contradicts it.
pub open spec fn spec_formatted_conflict<B>(c: Config<B>) -> bool {
    c.precision == Precision::HalfMemory && (c.input_formatted == Some(false)
        || c.output_formatted == Some(false))
}

/// The encoding of an optional "formatted" flag under a precision mode: forced to one
/// in half-memory mode, else the flag itself, zero when absent.
pub open spec fn spec_formatted(precision: Precision, f: Option<bool>) -> u32 {
    if precision == Precision::HalfMemory {
        1
    } else {
        match f {
            Some(b) => spec_flag(b),
            None => 0,
        }
    }
}

/// Every field of the native configuration in `g` as the job `c` prescribes it, with
/// each device handle copied into its slot and pointed to.
pub open spec fn spec_marshaled<B>(c: Config<B>, g: ConfigGuard<B>) -> bool {
    &&& g.config.fft_dim == c.fft_dim
    &&& g.config.size == c.size
    &&& g.physical_device == c.physical_device
    &&& g.device == c.device
    &&& g.queue == c.queue
    &&& g.command_pool == c.command_pool
    &&& g.fence == c.fence
    &&& g.config.physical_device == Some(ConfigSlot::PhysicalDevice)
    &&& g.config.device == Some(ConfigSlot::Device)
    &&& g.config.queue == Some(ConfigSlot::Queue)
    &&& g.config.command_pool == Some(ConfigSlot::CommandPool)
    &&& g.config.fence == Some(ConfigSlot::Fence)
    &&& g.config.normalize == spec_flag(c.normalize)
    && spec_slots_of(c.buffer, ConfigSlot::BufferSize, ConfigSlot::Buffer) == (BufferSlots {
        num: g.config.buffer_num,
        size_ptr: g.config.buffer_size,
        handle_ptr: g.config.buffer,
        size: g.buffer_size,
        handle: g.buffer,
        owner: g.keep_alive.buffer,
    })
    && spec_slots_of(c.temp_buffer, ConfigSlot::TempBufferSize, ConfigSlot::TempBuffer) == (BufferSlots {
        num: g.config.temp_buffer_num,
        size_ptr: g.config.temp_buffer_size,
        handle_ptr: g.config.temp_buffer,
        size: g.temp_buffer_size,
        handle: g.temp_buffer,
        owner: g.keep_alive.temp_buffer,
    })
    && spec_slots_of(c.input_buffer, ConfigSlot::InputBufferSize, ConfigSlot::InputBuffer) == (BufferSlots {
        num: g.config.input_buffer_num,
        size_ptr: g.config.input_buffer_size,
        handle_ptr: g.config.input_buffer,
        size: g.input_buffer_size,
        handle: g.input_buffer,
        owner: g.keep_alive.input_buffer,
    })
    && spec_slots_of(c.output_buffer, ConfigSlot::OutputBufferSize, ConfigSlot::OutputBuffer) == (BufferSlots {
        num: g.config.output_buffer_num,
        size_ptr: g.config.output_buffer_size,
        handle_ptr: g.config.output_buffer,
        size: g.output_buffer_size,
        handle: g.output_buffer,
        owner: g.keep_alive.output_buffer,
    })
    && spec_slots_of(c.kernel, ConfigSlot::KernelSize, ConfigSlot::Kernel) == (BufferSlots {
        num: g.config.kernel_num,
        size_ptr: g.config.kernel_size,
        handle_ptr: g.config.kernel,
        size: g.kernel_size,
        handle: g.kernel,
        owner: g.keep_alive.kernel,
    })
    &&& forall|i: int| 0 <= i < 3 ==> g.config.perform_zeropadding[i] == spec_flag(c.zero_padding[i])
    &&& g.config.fft_zeropad_left == c.zeropad_left
    &&& g.config.fft_zeropad_right == c.zeropad_right
    &&& g.config.kernel_convolution == spec_flag(c.kernel_convolution)
    &&& g.config.convolution == spec_flag(c.convolution)
    &&& g.config.perform_r2c == spec_flag(c.r2c)
    &&& g.config.coordinate_features == c.coordinate_features
    &&& g.config.disable_reorder_four_step == spec_flag(c.disable_reorder_four_step)
    &&& g.config.symmetric_kernel == spec_flag(c.symmetric_kernel)
    &&& g.config.use_lut == spec_flag(c.use_lut)
    &&& g.config.is_input_formatted == spec_formatted(c.precision, c.input_formatted)
    &&& g.config.is_output_formatted == spec_formatted(c.precision, c.output_formatted)
    &&& g.config.double_precision == spec_flag(c.precision == Precision::Double)
    &&& g.config.half_precision == spec_flag(c.precision == Precision::Half)
    &&& g.config.half_precision_memory_only == spec_flag(c.precision == Precision::HalfMemory)
    &&& g.config.number_batches == match c.batch_count {
        Some(n) => n,
        None => 0u32,
    }
}

impl<B> Config<B> {
    /// Lays the job out as the native engine expects it, in a guard that owns every
    /// buffer the layout refers to. Fails exactly when half-memory precision meets an
    /// input or output declared padded.
    pub fn as_sys(self) -> (r: Result<Box<ConfigGuard<B>>, ConfigError>)
        ensures
            r is Err <==> spec_formatted_conflict(self),
            r is Err ==> r == Err::<Box<ConfigGuard<B>>, ConfigError>(ConfigError::InvalidConfig),
            r is Ok ==> spec_marshaled(self, *r.unwrap()),
    {
        let config = self;
        if config.precision == Precision::HalfMemory {
            if config.input_formatted == Some(false) || config.output_formatted == Some(false) {
                return Err(ConfigError::InvalidConfig);
            }
        }
        let half_memory = config.precision == Precision::HalfMemory;
        let is_input_formatted: u32 = if half_memory {
            1
        } else {
            match config.input_formatted {
                Some(b) => flag(b),
                None => 0,
            }
        };
        let is_output_formatted: u32 = if half_memory {
            1
        } else {
            match config.output_formatted {
                Some(b) => flag(b),
                None => 0,
            }
        };
        let number_batches: u32 = match config.batch_count {
            Some(n) => n,
            None => 0,
        };
        let zp = [
            flag(config.zero_padding[0]),
            flag(config.zero_padding[1]),
            flag(config.zero_padding[2]),
        ];
        let native = NativeConfig {
            fft_dim: config.fft_dim,
            size: config.size,
            physical_device: Some(ConfigSlot::PhysicalDevice),
            device: Some(ConfigSlot::Device),
            queue: Some(ConfigSlot::Queue),
            command_pool: Some(ConfigSlot::CommandPool),
            fence: Some(ConfigSlot::Fence),
            normalize: flag(config.normalize),
            buffer_num: 0,
            buffer_size: None,
            buffer: None,
            temp_buffer_num: 0,
            temp_buffer_size: None,
            temp_buffer: None,
            input_buffer_num: 0,
            input_buffer_size: None,
            input_buffer: None,
            output_buffer_num: 0,
            output_buffer_size: None,
            output_buffer: None,
            kernel_num: 0,
            kernel_size: None,
            kernel: None,
            perform_zeropadding: zp,
            fft_zeropad_left: config.zeropad_left,
            fft_zeropad_right: config.zeropad_right,
            kernel_convolution: flag(config.kernel_convolution),
            convolution: flag(config.convolution),
            perform_r2c: flag(config.r2c),
            coordinate_features: config.coordinate_features,
            disable_reorder_four_step: flag(config.disable_reorder_four_step),
            symmetric_kernel: flag(config.symmetric_kernel),
            use_lut: flag(config.use_lut),
            is_input_formatted,
            is_output_formatted,
            double_precision: flag(config.precision == Precision::Double),
            half_precision: flag(config.precision == Precision::Half),
            half_precision_memory_only: flag(half_memory),
            number_batches,
        };
        let physical_device = config.physical_device;
        let device = config.device;
        let queue = config.queue;
        let command_pool = config.command_pool;
        let fence = config.fence;
        let buffer_slots = slots_of(config.buffer, ConfigSlot::BufferSize, ConfigSlot::Buffer);
        let temp_buffer_slots = slots_of(config.temp_buffer, ConfigSlot::TempBufferSize, ConfigSlot::TempBuffer);
        let input_buffer_slots = slots_of(config.input_buffer, ConfigSlot::InputBufferSize, ConfigSlot::InputBuffer);
        let output_buffer_slots = slots_of(config.output_buffer, ConfigSlot::OutputBufferSize, ConfigSlot::OutputBuffer);
        let kernel_slots = slots_of(config.kernel, ConfigSlot::KernelSize, ConfigSlot::Kernel);
        let native = NativeConfig {
            buffer_num: buffer_slots.num,
            buffer_size: buffer_slots.size_ptr,
            buffer: buffer_slots.handle_ptr,
            temp_buffer_num: temp_buffer_slots.num,
            temp_buffer_size: temp_buffer_slots.size_ptr,
            temp_buffer: temp_buffer_slots.handle_ptr,
            input_buffer_num: input_buffer_slots.num,
            input_buffer_size: input_buffer_slots.size_ptr,
            input_buffer: input_buffer_slots.handle_ptr,
            output_buffer_num: output_buffer_slots.num,
            output_buffer_size: output_buffer_slots.size_ptr,
            output_buffer: output_buffer_slots.handle_ptr,
            kernel_num: kernel_slots.num,
            kernel_size: kernel_slots.size_ptr,
            kernel: kernel_slots.handle_ptr,
            ..native
        };
        let guard = ConfigGuard {
            keep_alive: KeepAlive {
            buffer: buffer_slots.owner,
            temp_buffer: temp_buffer_slots.owner,
            input_buffer: input_buffer_slots.owner,
            output_buffer: output_buffer_slots.owner,
            kernel: kernel_slots.owner,
            },
            config: native,
            physical_device,
            device,
            queue,
            command_pool,
            fence,
            buffer_size: buffer_slots.size,
            buffer: buffer_slots.handle,
            temp_buffer_size: temp_buffer_slots.size,
            temp_buffer: temp_buffer_slots.handle,
            input_buffer_size: input_buffer_slots.size,
            input_buffer: input_buffer_slots.handle,
            output_buffer_size: output_buffer_slots.size,
            output_buffer: output_buffer_slots.handle,
            kernel_size: kernel_slots.size,
            kernel: kernel_slots.handle,
        };
        Ok(Box::new(guard))
    }
}

} // verus!
