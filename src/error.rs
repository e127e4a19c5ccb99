use vstd::prelude::*;

use crate::app::LaunchError;
use crate::config::ConfigError;

verus! {

/// The status code by which the native engine reports success.
pub const STATUS_SUCCESS: u32 = 0;

/// Every failure of the library: one variant per failure status of the native engine,
/// then configuration and launch validation errors, then a status that the engine
/// should never report.
#[derive(Debug, Clone, Copy, PartialEq, Eq, Structural)]
pub enum Error {
    InvalidPhysicalDevice,
    InvalidDevice,
    InvalidQueue,
    InvalidCommandPool,
    InvalidFence,
    OnlyForwardFftInitialized,
    OnlyInverseFftInitialized,
    InvalidContext,
    InvalidPlatform,
    EmptyFftDim,
    EmptySize,
    EmptyBufferSize,
    EmptyBuffer,
    EmptyTempBufferSize,
    EmptyTempBuffer,
    EmptyInputBufferSize,
    EmptyInputBuffer,
    EmptyOutputBufferSize,
    EmptyOutputBuffer,
    EmptyKernelSize,
    EmptyKernel,
    UnsupportedRadix,
    UnsupportedFftLength,
    UnsupportedFftLengthR2C,
    FailedToAllocate,
    FailedToMapMemory,
    FailedToAllocateCommandBuffers,
    FailedToBeginCommandBuffer,
    FailedToEndCommandBuffer,
    FailedToSubmitQueue,
    FailedToWaitForFences,
    FailedToResetFences,
    FailedToCreateDescriptorPool,
    FailedToCreatedDescriptorSetLayout,
    FailedToAllocateDescriptorSets,
    FailedToCreatePipelineLayout,
    FailedShaderPreprocess,
    FailedShaderParse,
    FailedShaderLink,
    FailedSpirvGenerate,
    FailedToCreateShaderModule,
    FailedToCreateInstance,
    FailedToSetupDebugMessenger,
    FailedToFindPhysicalDevice,
    FailedToCreateDevice,
    FailedToCreateFence,
    FailedToCreateCommandPool,
    FailedToCreateBuffer,
    FailedToAllocateMemory,
    FailedToBindBufferMemory,
    FailedToFindMemory,
    FailedToSynchronize,
    FailedToCopy,
    FailedToCreateProgram,
    FailedToCompileProgram,
    FailedToGetCodeSize,
    FailedToGetCode,
    FailedToDestroyProgram,
    FailedToLoadModule,
    FailedToGetFunction,
    FailedToSetDynamicSharedMemory,
    FailedToModuleGetGlobal,
    FailedToLaunchKernel,
    FailedToEventRecord,
    FailedToAddNameExpression,
    FailedToInitialize,
    FailedToSetDeviceId,
    FailedToGetDevice,
    FailedToCreateContext,
    FailedToCreatePipeline,
    FailedToSetKernelArg,
    FailedToCreateCommandQueue,
    FailedToReleaseCommandQueue,
    FailedToEnumerateDevices,
    Config(ConfigError),
    Launch(LaunchError),
    /// The engine returned a status that is neither success nor one of its failures.
    UnrecognizedStatus(u32),
}

/// The named failure that a native status code stands for, if any.
pub open spec fn spec_error_of(code: u32) -> Option<Error> {
    match code {
        1001u32 => Some(Error::InvalidPhysicalDevice),
        1002u32 => Some(Error::InvalidDevice),
        1003u32 => Some(Error::InvalidQueue),
        1004u32 => Some(Error::InvalidCommandPool),
        1005u32 => Some(Error::InvalidFence),
        1006u32 => Some(Error::OnlyForwardFftInitialized),
        1007u32 => Some(Error::OnlyInverseFftInitialized),
        1008u32 => Some(Error::InvalidContext),
        1009u32 => Some(Error::InvalidPlatform),
        2001u32 => Some(Error::EmptyFftDim),
        2002u32 => Some(Error::EmptySize),
        2003u32 => Some(Error::EmptyBufferSize),
        2004u32 => Some(Error::EmptyBuffer),
        2005u32 => Some(Error::EmptyTempBufferSize),
        2006u32 => Some(Error::EmptyTempBuffer),
        2007u32 => Some(Error::EmptyInputBufferSize),
        2008u32 => Some(Error::EmptyInputBuffer),
        2009u32 => Some(Error::EmptyOutputBufferSize),
        2010u32 => Some(Error::EmptyOutputBuffer),
        2011u32 => Some(Error::EmptyKernelSize),
        2012u32 => Some(Error::EmptyKernel),
        3001u32 => Some(Error::UnsupportedRadix),
        3002u32 => Some(Error::UnsupportedFftLength),
        3003u32 => Some(Error::UnsupportedFftLengthR2C),
        4001u32 => Some(Error::FailedToAllocate),
        4002u32 => Some(Error::FailedToMapMemory),
        4003u32 => Some(Error::FailedToAllocateCommandBuffers),
        4004u32 => Some(Error::FailedToBeginCommandBuffer),
        4005u32 => Some(Error::FailedToEndCommandBuffer),
        4006u32 => Some(Error::FailedToSubmitQueue),
        4007u32 => Some(Error::FailedToWaitForFences),
        4008u32 => Some(Error::FailedToResetFences),
        4009u32 => Some(Error::FailedToCreateDescriptorPool),
        4010u32 => Some(Error::FailedToCreatedDescriptorSetLayout),
        4011u32 => Some(Error::FailedToAllocateDescriptorSets),
        4012u32 => Some(Error::FailedToCreatePipelineLayout),
        4013u32 => Some(Error::FailedShaderPreprocess),
        4014u32 => Some(Error::FailedShaderParse),
        4015u32 => Some(Error::FailedShaderLink),
        4016u32 => Some(Error::FailedSpirvGenerate),
        4017u32 => Some(Error::FailedToCreateShaderModule),
        4018u32 => Some(Error::FailedToCreateInstance),
        4019u32 => Some(Error::FailedToSetupDebugMessenger),
        4020u32 => Some(Error::FailedToFindPhysicalDevice),
        4021u32 => Some(Error::FailedToCreateDevice),
        4022u32 => Some(Error::FailedToCreateFence),
        4023u32 => Some(Error::FailedToCreateCommandPool),
        4024u32 => Some(Error::FailedToCreateBuffer),
        4025u32 => Some(Error::FailedToAllocateMemory),
        4026u32 => Some(Error::FailedToBindBufferMemory),
        4027u32 => Some(Error::FailedToFindMemory),
        4028u32 => Some(Error::FailedToSynchronize),
        4029u32 => Some(Error::FailedToCopy),
        4030u32 => Some(Error::FailedToCreateProgram),
        4031u32 => Some(Error::FailedToCompileProgram),
        4032u32 => Some(Error::FailedToGetCodeSize),
        4033u32 => Some(Error::FailedToGetCode),
        4034u32 => Some(Error::FailedToDestroyProgram),
        4035u32 => Some(Error::FailedToLoadModule),
        4036u32 => Some(Error::FailedToGetFunction),
        4037u32 => Some(Error::FailedToSetDynamicSharedMemory),
        4038u32 => Some(Error::FailedToModuleGetGlobal),
        4039u32 => Some(Error::FailedToLaunchKernel),
        4040u32 => Some(Error::FailedToEventRecord),
        4041u32 => Some(Error::FailedToAddNameExpression),
        4042u32 => Some(Error::FailedToInitialize),
        4043u32 => Some(Error::FailedToSetDeviceId),
        4044u32 => Some(Error::FailedToGetDevice),
        4045u32 => Some(Error::FailedToCreateContext),
        4046u32 => Some(Error::FailedToCreatePipeline),
        4047u32 => Some(Error::FailedToSetKernelArg),
        4048u32 => Some(Error::FailedToCreateCommandQueue),
        4049u32 => Some(Error::FailedToReleaseCommandQueue),
        4050u32 => Some(Error::FailedToEnumerateDevices),
        _ => None,
    }
}

/// The outcome that a native status code reports: success, a named failure, or an
/// unrecognized status, which is an error too.
pub open spec fn spec_check_status(code: u32) -> Result<(), Error> {
    if code == STATUS_SUCCESS {
        Ok(())
    } else {
        match spec_error_of(code) {
            Some(e) => Err(e),
            None => Err(Error::UnrecognizedStatus(code)),
        }
    }
}

impl Error {
    /// The named failure for a native status code; `None` for success and for codes
    /// the engine does not define.
    pub fn from_status(code: u32) -> (r: Option<Error>)
        ensures
            r == spec_error_of(code),
    {
        match code {
            1001u32 => Some(Error::InvalidPhysicalDevice),
            1002u32 => Some(Error::InvalidDevice),
            1003u32 => Some(Error::InvalidQueue),
            1004u32 => Some(Error::InvalidCommandPool),
            1005u32 => Some(Error::InvalidFence),
            1006u32 => Some(Error::OnlyForwardFftInitialized),
            1007u32 => Some(Error::OnlyInverseFftInitialized),
            1008u32 => Some(Error::InvalidContext),
            1009u32 => Some(Error::InvalidPlatform),
            2001u32 => Some(Error::EmptyFftDim),
            2002u32 => Some(Error::EmptySize),
            2003u32 => Some(Error::EmptyBufferSize),
            2004u32 => Some(Error::EmptyBuffer),
            2005u32 => Some(Error::EmptyTempBufferSize),
            2006u32 => Some(Error::EmptyTempBuffer),
            2007u32 => Some(Error::EmptyInputBufferSize),
            2008u32 => Some(Error::EmptyInputBuffer),
            2009u32 => Some(Error::EmptyOutputBufferSize),
            2010u32 => Some(Error::EmptyOutputBuffer),
            2011u32 => Some(Error::EmptyKernelSize),
            2012u32 => Some(Error::EmptyKernel),
            3001u32 => Some(Error::UnsupportedRadix),
            3002u32 => Some(Error::UnsupportedFftLength),
            3003u32 => Some(Error::UnsupportedFftLengthR2C),
            4001u32 => Some(Error::FailedToAllocate),
            4002u32 => Some(Error::FailedToMapMemory),
            4003u32 => Some(Error::FailedToAllocateCommandBuffers),
            4004u32 => Some(Error::FailedToBeginCommandBuffer),
            4005u32 => Some(Error::FailedToEndCommandBuffer),
            4006u32 => Some(Error::FailedToSubmitQueue),
            4007u32 => Some(Error::FailedToWaitForFences),
            4008u32 => Some(Error::FailedToResetFences),
            4009u32 => Some(Error::FailedToCreateDescriptorPool),
            4010u32 => Some(Error::FailedToCreatedDescriptorSetLayout),
            4011u32 => Some(Error::FailedToAllocateDescriptorSets),
            4012u32 => Some(Error::FailedToCreatePipelineLayout),
            4013u32 => Some(Error::FailedShaderPreprocess),
            4014u32 => Some(Error::FailedShaderParse),
            4015u32 => Some(Error::FailedShaderLink),
            4016u32 => Some(Error::FailedSpirvGenerate),
            4017u32 => Some(Error::FailedToCreateShaderModule),
            4018u32 => Some(Error::FailedToCreateInstance),
            4019u32 => Some(Error::FailedToSetupDebugMessenger),
            4020u32 => Some(Error::FailedToFindPhysicalDevice),
            4021u32 => Some(Error::FailedToCreateDevice),
            4022u32 => Some(Error::FailedToCreateFence),
            4023u32 => Some(Error::FailedToCreateCommandPool),
            4024u32 => Some(Error::FailedToCreateBuffer),
            4025u32 => Some(Error::FailedToAllocateMemory),
            4026u32 => Some(Error::FailedToBindBufferMemory),
            4027u32 => Some(Error::FailedToFindMemory),
            4028u32 => Some(Error::FailedToSynchronize),
            4029u32 => Some(Error::FailedToCopy),
            4030u32 => Some(Error::FailedToCreateProgram),
            4031u32 => Some(Error::FailedToCompileProgram),
            4032u32 => Some(Error::FailedToGetCodeSize),
            4033u32 => Some(Error::FailedToGetCode),
            4034u32 => Some(Error::FailedToDestroyProgram),
            4035u32 => Some(Error::FailedToLoadModule),
            4036u32 => Some(Error::FailedToGetFunction),
            4037u32 => Some(Error::FailedToSetDynamicSharedMemory),
            4038u32 => Some(Error::FailedToModuleGetGlobal),
            4039u32 => Some(Error::FailedToLaunchKernel),
            4040u32 => Some(Error::FailedToEventRecord),
            4041u32 => Some(Error::FailedToAddNameExpression),
            4042u32 => Some(Error::FailedToInitialize),
            4043u32 => Some(Error::FailedToSetDeviceId),
            4044u32 => Some(Error::FailedToGetDevice),
            4045u32 => Some(Error::FailedToCreateContext),
            4046u32 => Some(Error::FailedToCreatePipeline),
            4047u32 => Some(Error::FailedToSetKernelArg),
            4048u32 => Some(Error::FailedToCreateCommandQueue),
            4049u32 => Some(Error::FailedToReleaseCommandQueue),
            4050u32 => Some(Error::FailedToEnumerateDevices),
            _ => None,
        }
    }

}

impl From<ConfigError> for Error {
    fn from(e: ConfigError) -> Error {
        Error::Config(e)
    }
}

impl vstd::std_specs::convert::FromSpecImpl<ConfigError> for Error {
    open spec fn obeys_from_spec() -> bool {
        true
    }

    open spec fn from_spec(e: ConfigError) -> Error {
        Error::Config(e)
    }
}

impl From<LaunchError> for Error {
    fn from(e: LaunchError) -> Error {
        Error::Launch(e)
    }
}

impl vstd::std_specs::convert::FromSpecImpl<LaunchError> for Error {
    open spec fn obeys_from_spec() -> bool {
        true
    }

    open spec fn from_spec(e: LaunchError) -> Error {
        Error::Launch(e)
    }
}

/// Maps a native status code to a result: `Ok` exactly for success.
pub fn check_status(code: u32) -> (r: Result<(), Error>)
    ensures
        r == spec_check_status(code),
        r is Ok <==> code == STATUS_SUCCESS,
{
    if code == STATUS_SUCCESS {
        Ok(())
    } else {
        match Error::from_status(code) {
            Some(e) => Err(e),
            None => Err(Error::UnrecognizedStatus(code)),
        }
    }
}

} // verus!
