use vstd::prelude::*;

verus! {

/// Status code the engine returns when a call succeeded.
pub const STATUS_SUCCESS: u32 = 0;
/// The engine ran out of memory, or an I/O buffer was undersized.
pub const STATUS_OUT_OF_MEM: u32 = 1;
/// The engine was built for a float model the CPU does not provide.
pub const STATUS_BAD_CPU_FLOAT: u32 = 2;
/// A parameter was out of range.
pub const STATUS_BAD_PARAM: u32 = 3;
/// The block size is not one the format defines.
pub const STATUS_BAD_BLOCK_SIZE: u32 = 4;
/// The color profile is not supported.
pub const STATUS_BAD_PROFILE: u32 = 5;
/// The quality level is not supported.
pub const STATUS_BAD_QUALITY: u32 = 6;
/// The swizzle is not supported.
pub const STATUS_BAD_SWIZZLE: u32 = 7;
/// The flags are contradictory.
pub const STATUS_BAD_FLAGS: u32 = 8;
/// The context cannot serve the request.
pub const STATUS_BAD_CONTEXT: u32 = 9;
/// The request reached code that is not implemented.
pub const STATUS_NOT_IMPLEMENTED: u32 = 10;
/// The decode mode does not match the build of the engine.
pub const STATUS_BAD_DECODE_MODE: u32 = 11;

/// An error during initialization, compression or decompression.
#[derive(Debug, Copy, Clone, PartialEq, Eq, Structural, Hash)]
pub enum Error {
    /// The block size is out of range of the supported sizes.
    BadBlockSize,
    /// The context cannot serve the request.
    BadContext,
    /// The CPU lacks the float support the engine was built for.
    BadCpuFloat,
    /// The engine was built for a decode mode other than the one requested.
    BadDecodeMode,
    /// The flags are contradictory or otherwise incorrect.
    BadFlags,
    /// A bad parameter was supplied.
    BadParam,
    /// The supplied preset is unsupported.
    BadQuality,
    /// The supplied profile is unsupported.
    BadProfile,
    /// The supplied swizzle is unsupported.
    BadSwizzle,
    /// Some unimplemented code was reached.
    NotImplemented,
    /// The engine ran out of memory.
    OutOfMem,
    /// A status code outside the known set.
    Unknown,
}

/// The error that a failing status code stands for.
pub open spec fn error_of_status(code: u32) -> Error {
    if code == STATUS_OUT_OF_MEM {
        Error::OutOfMem
    } else if code == STATUS_BAD_CPU_FLOAT {
        Error::BadCpuFloat
    } else if code == STATUS_BAD_PARAM {
        Error::BadParam
    } else if code == STATUS_BAD_BLOCK_SIZE {
        Error::BadBlockSize
    } else if code == STATUS_BAD_PROFILE {
        Error::BadProfile
    } else if code == STATUS_BAD_QUALITY {
        Error::BadQuality
    } else if code == STATUS_BAD_SWIZZLE {
        Error::BadSwizzle
    } else if code == STATUS_BAD_FLAGS {
        Error::BadFlags
    } else if code == STATUS_BAD_CONTEXT {
        Error::BadContext
    } else if code == STATUS_NOT_IMPLEMENTED {
        Error::NotImplemented
    } else if code == STATUS_BAD_DECODE_MODE {
        Error::BadDecodeMode
    } else {
        Error::Unknown
    }
}

/// The outcome that a status code reports: success, or the error it stands for.
pub open spec fn status_result(code: u32) -> Result<(), Error> {
    if code == STATUS_SUCCESS {
        Ok(())
    } else {
        Err(error_of_status(code))
    }
}

/// The codes that the engine defines, success included.
pub open spec fn is_known_status(code: u32) -> bool {
    code <= STATUS_BAD_DECODE_MODE
}

/// Translates a status code of the engine into the error model.
pub fn error_code_to_result(code: u32) -> (r: Result<(), Error>)
    ensures
        r == status_result(code),
{
    match code {
        STATUS_SUCCESS => Ok(()),
        STATUS_OUT_OF_MEM => Err(Error::OutOfMem),
        STATUS_BAD_CPU_FLOAT => Err(Error::BadCpuFloat),
        STATUS_BAD_PARAM => Err(Error::BadParam),
        STATUS_BAD_BLOCK_SIZE => Err(Error::BadBlockSize),
        STATUS_BAD_PROFILE => Err(Error::BadProfile),
        STATUS_BAD_QUALITY => Err(Error::BadQuality),
        STATUS_BAD_SWIZZLE => Err(Error::BadSwizzle),
        STATUS_BAD_FLAGS => Err(Error::BadFlags),
        STATUS_BAD_CONTEXT => Err(Error::BadContext),
        STATUS_NOT_IMPLEMENTED => Err(Error::NotImplemented),
        STATUS_BAD_DECODE_MODE => Err(Error::BadDecodeMode),
        _ => Err(Error::Unknown),
    }
}

/// Every status code has exactly one outcome: only the success code succeeds,
/// each known failure code has an error of its own that no other known code
/// shares, and every code outside the known set is reported as `Unknown`.
pub proof fn lemma_status_mapping_exact(a: u32, b: u32)
    ensures
        status_result(a) is Ok <==> a == STATUS_SUCCESS,
        !is_known_status(a) ==> status_result(a) == Err::<(), Error>(Error::Unknown),
        is_known_status(a) ==> status_result(a) != Err::<(), Error>(Error::Unknown),
        is_known_status(a) && is_known_status(b) && a != b ==> status_result(a) != status_result(b),
{
}

} // verus!
