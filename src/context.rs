use vstd::prelude::*;
use crate::config::{Config, ConfigView};
use crate::error::{Error, STATUS_SUCCESS, error_code_to_result, error_of_status};
use crate::format::{SwizzleCodes, Swizzle, Type, swizzle_codes, type_code};
use crate::geometry::{Extents, component_count, compressed_len, compressed_size};

verus! {

/// The number of workers with which a context asks the engine to run.
pub const DEFAULT_WORKER_COUNT: u32 = 1;

/// Where a context stands between engine calls.
#[derive(Debug, Copy, Clone, PartialEq, Eq, Structural, Hash)]
pub enum Phase {
    /// Ready for a compress or decompress call.
    Ready,
    /// The engine is compressing into a buffer of `out_len` bytes.
    Compressing { out_len: usize },
    /// Compression succeeded; the engine's compression state is being reset.
    Resetting { out_len: usize },
    /// The engine is decompressing.
    Decompressing,
}

/// What the engine is handed to compress an image.
#[derive(Debug, Copy, Clone, PartialEq, Eq, Structural, Hash)]
pub struct CompressRequest {
    /// Width of the image.
    pub dim_x: u32,
    /// Height of the image.
    pub dim_y: u32,
    /// Depth of the image.
    pub dim_z: u32,
    /// Code of the component type.
    pub data_type: u32,
    /// Codes of the swizzle.
    pub swizzle: SwizzleCodes,
    /// Exact byte length of the compressed output.
    pub out_len: usize,
}

/// What the engine is handed to decompress into an image.
#[derive(Debug, Copy, Clone, PartialEq, Eq, Structural, Hash)]
pub struct DecompressRequest {
    /// Width of the image.
    pub dim_x: u32,
    /// Height of the image.
    pub dim_y: u32,
    /// Depth of the image.
    pub dim_z: u32,
    /// Code of the component type.
    pub data_type: u32,
    /// Codes of the swizzle.
    pub swizzle: SwizzleCodes,
    /// Number of components that the output buffer holds.
    pub out_len: usize,
}

/// The compression of an image of `extents` whose buffer holds `data_len`
/// components, with blocks of `block`: a wrong length is refused before the
/// engine is called, and the output takes one 16-byte block per cell of the
/// block grid.
pub open spec fn compress_outcome(
    block: Extents,
    extents: Extents,
    data_len: nat,
    data_type: Type,
    swizzle: Swizzle,
) -> Result<CompressRequest, Error> {
    if data_len != extents.components() {
        Err(Error::BadParam)
    } else if compressed_size(extents, block) > usize::MAX {
        Err(Error::OutOfMem)
    } else {
        Ok(
            CompressRequest {
                dim_x: extents.x,
                dim_y: extents.y,
                dim_z: extents.z,
                data_type: type_code(data_type),
                swizzle: swizzle_codes(swizzle),
                out_len: compressed_size(extents, block) as usize,
            },
        )
    }
}

/// The decompression into an image of `extents` whose buffer holds
/// `out_len` components: a buffer of the wrong length is refused.
pub open spec fn decompress_into_outcome(
    extents: Extents,
    out_len: nat,
    data_type: Type,
    swizzle: Swizzle,
) -> Result<DecompressRequest, Error> {
    if out_len != extents.components() {
        Err(Error::BadParam)
    } else {
        Ok(
            DecompressRequest {
                dim_x: extents.x,
                dim_y: extents.y,
                dim_z: extents.z,
                data_type: type_code(data_type),
                swizzle: swizzle_codes(swizzle),
                out_len: out_len as usize,
            },
        )
    }
}

/// The decompression into a new buffer sized for `extents`.
pub open spec fn decompress_outcome(extents: Extents, data_type: Type, swizzle: Swizzle) -> Result<
    DecompressRequest,
    Error,
> {
    if extents.components() > usize::MAX {
        Err(Error::OutOfMem)
    } else {
        decompress_into_outcome(extents, extents.components(), data_type, swizzle)
    }
}

/// The output length that a compressing or resetting phase carries.
pub open spec fn out_len_of(p: Phase) -> usize {
    match p {
        Phase::Compressing { out_len } => out_len,
        Phase::Resetting { out_len } => out_len,
        _ => 0,
    }
}

/// The phase that follows a request: the engine is called only on `Ok`.
pub open spec fn phase_after_compress_request(r: Result<CompressRequest, Error>) -> Phase {
    match r {
        Ok(q) => Phase::Compressing { out_len: q.out_len },
        Err(_) => Phase::Ready,
    }
}

/// The phase that follows a decompress request.
pub open spec fn phase_after_decompress_request(r: Result<DecompressRequest, Error>) -> Phase {
    match r {
        Ok(_) => Phase::Decompressing,
        Err(_) => Phase::Ready,
    }
}

/// The phase after the engine answered a compression with `status`: a
/// success is always followed by a reset.
pub open spec fn phase_after_compress_status(out_len: usize, status: u32) -> Phase {
    if status == STATUS_SUCCESS {
        Phase::Resetting { out_len }
    } else {
        Phase::Ready
    }
}

/// The outcome of a compression once the reset answered `status`: the
/// output length on success.
pub open spec fn reset_outcome(out_len: usize, status: u32) -> Result<usize, Error> {
    if status == STATUS_SUCCESS {
        Ok(out_len)
    } else {
        Err(error_of_status(status))
    }
}

/// What a context holds: its configuration and its phase.
pub struct ContextView {
    pub config: ConfigView,
    pub phase: Phase,
}

/// A compression and decompression session bound to one configuration.
/// Its methods take the engine's answers and say what to hand the engine
/// next; one call at a time runs on a context, as `&mut self` enforces.
pub struct Context {
    config: Config,
    block_size: Extents,
    phase: Phase,
}

impl View for Context {
    type V = ContextView;

    closed spec fn view(&self) -> ContextView {
        ContextView { config: self.config@, phase: self.phase }
    }
}

impl Context {
    #[verifier::type_invariant]
    spec fn inv(&self) -> bool {
        self.block_size == self.config@.block_size && self.block_size.is_nonzero()
    }

    /// Binds a configuration to the engine handle that was allocated for it
    /// with `status`; `allocated` tells whether a handle came back at all.
    pub fn new(config: Config, status: u32, allocated: bool) -> (r: Result<Context, Error>)
        ensures
            status != STATUS_SUCCESS ==> r == Err::<Context, Error>(error_of_status(status)),
            status == STATUS_SUCCESS && !allocated ==> r == Err::<Context, Error>(Error::Unknown),
            status == STATUS_SUCCESS && allocated ==> (r matches Ok(c) && c@ == (ContextView {
                config: config@,
                phase: Phase::Ready,
            })),
    {
        match error_code_to_result(status) {
            Err(e) => Err(e),
            Ok(()) => {
                if !allocated {
                    Err(Error::Unknown)
                } else {
                    let block_size = config.block_size();
                    Ok(Context { config, block_size, phase: Phase::Ready })
                }
            },
        }
    }

    /// The configuration the context was made with.
    pub fn config(&self) -> (r: &Config)
        ensures
            r@ == self@.config,
    {
        &self.config
    }

    /// The phase the context stands in.
    pub fn phase(&self) -> (r: Phase)
        ensures
            r == self@.phase,
    {
        self.phase
    }

    /// Starts compressing an image of `extents` whose buffer holds `data_len`
    /// components of type `data_type`. On `Ok` the engine is to compress
    /// into a buffer of the request's `out_len` bytes; on `Err` it is not called.
    pub fn compress_request(
        &mut self,
        extents: Extents,
        data_len: usize,
        data_type: Type,
        swizzle: Swizzle,
    ) -> (r: Result<CompressRequest, Error>)
        requires
            old(self)@.phase == Phase::Ready,
        ensures
            r == compress_outcome(
                old(self)@.config.block_size,
                extents,
                data_len as nat,
                data_type,
                swizzle,
            ),
            final(self)@ == (ContextView { phase: phase_after_compress_request(r), ..old(self)@ }),
            old(self)@.config.block_size.is_nonzero(),
            data_len != extents.components() ==> r == Err::<CompressRequest, Error>(
                Error::BadParam,
            ) && final(self)@ == old(self)@,
            r matches Ok(q) ==> q.out_len as nat == compressed_size(
                extents,
                old(self)@.config.block_size,
            ),
    {
        proof {
            use_type_invariant(&*self);
        }
        match component_count(extents) {
            None => {
                return Err(Error::BadParam);
            },
            Some(n) => {
                if n != data_len {
                    return Err(Error::BadParam);
                }
            },
        }
        match compressed_len(extents, self.block_size) {
            None => Err(Error::OutOfMem),
            Some(out_len) => {
                self.phase = Phase::Compressing { out_len };
                Ok(
                    CompressRequest {
                        dim_x: extents.x,
                        dim_y: extents.y,
                        dim_z: extents.z,
                        data_type: data_type.into_sys(),
                        swizzle: swizzle.into_sys(),
                        out_len,
                    },
                )
            },
        }
    }

    /// Takes the engine's answer to a compression. On success the engine's
    /// compression state is to be reset next, before the context is used again.
    pub fn compress_status(&mut self, status: u32) -> (r: Result<(), Error>)
        requires
            old(self)@.phase is Compressing,
        ensures
            r == crate::error::status_result(status),
            final(self)@ == (ContextView {
                phase: phase_after_compress_status(out_len_of(old(self)@.phase), status),
                ..old(self)@
            }),
    {
        proof {
            use_type_invariant(&*self);
        }
        let out_len = match self.phase {
            Phase::Compressing { out_len } => out_len,
            _ => 0,
        };
        let r = error_code_to_result(status);
        match r {
            Ok(()) => {
                self.phase = Phase::Resetting { out_len };
            },
            Err(_) => {
                self.phase = Phase::Ready;
            },
        }
        r
    }

    /// Takes the engine's answer to the reset that follows a compression, and
    /// gives the byte length of the compressed output.
    pub fn reset_status(&mut self, status: u32) -> (r: Result<usize, Error>)
        requires
            old(self)@.phase is Resetting,
        ensures
            r == reset_outcome(out_len_of(old(self)@.phase), status),
            final(self)@ == (ContextView { phase: Phase::Ready, ..old(self)@ }),
    {
        proof {
            use_type_invariant(&*self);
        }
        let out_len = match self.phase {
            Phase::Resetting { out_len } => out_len,
            _ => 0,
        };
        self.phase = Phase::Ready;
        match error_code_to_result(status) {
            Ok(()) => Ok(out_len),
            Err(e) => Err(e),
        }
    }

    /// Starts decompressing into an existing buffer of `out_len` components
    /// that is to hold an image of `extents`.
    pub fn decompress_into_request(
        &mut self,
        extents: Extents,
        out_len: usize,
        data_type: Type,
        swizzle: Swizzle,
    ) -> (r: Result<DecompressRequest, Error>)
        requires
            old(self)@.phase == Phase::Ready,
        ensures
            r == decompress_into_outcome(extents, out_len as nat, data_type, swizzle),
            final(self)@ == (ContextView { phase: phase_after_decompress_request(r), ..old(self)@ }),
    {
        proof {
            use_type_invariant(&*self);
        }
        match component_count(extents) {
            None => Err(Error::BadParam),
            Some(n) => {
                if n != out_len {
                    Err(Error::BadParam)
                } else {
                    self.phase = Phase::Decompressing;
                    Ok(
                        DecompressRequest {
                            dim_x: extents.x,
                            dim_y: extents.y,
                            dim_z: extents.z,
                            data_type: data_type.into_sys(),
                            swizzle: swizzle.into_sys(),
                            out_len,
                        },
                    )
                }
            },
        }
    }

    /// Starts decompressing into a new buffer sized for `extents`: the
    /// request's `out_len` is the number of components to allocate.
    pub fn decompress_request(&mut self, extents: Extents, data_type: Type, swizzle: Swizzle) -> (r:
        Result<DecompressRequest, Error>)
        requires
            old(self)@.phase == Phase::Ready,
        ensures
            r == decompress_outcome(extents, data_type, swizzle),
            final(self)@ == (ContextView { phase: phase_after_decompress_request(r), ..old(self)@ }),
    {
        match component_count(extents) {
            None => Err(Error::OutOfMem),
            Some(n) => self.decompress_into_request(extents, n, data_type, swizzle),
        }
    }

    /// Takes the engine's answer to a decompression. No reset follows one.
    pub fn decompress_status(&mut self, status: u32) -> (r: Result<(), Error>)
        requires
            old(self)@.phase == Phase::Decompressing,
        ensures
            r == crate::error::status_result(status),
            final(self)@ == (ContextView { phase: Phase::Ready, ..old(self)@ }),
    {
        proof {
            use_type_invariant(&*self);
        }
        self.phase = Phase::Ready;
        error_code_to_result(status)
    }
}

/// Compressing an image and decompressing the result with the same extents
/// and swizzle gives an image of the same extents whose buffer has the
/// length of the input buffer.
pub proof fn lemma_round_trip_shape(
    block: Extents,
    extents: Extents,
    data_len: usize,
    data_type: Type,
    swizzle: Swizzle,
)
    requires
        compress_outcome(block, extents, data_len as nat, data_type, swizzle) is Ok,
    ensures
        decompress_outcome(extents, data_type, swizzle) matches Ok(q) && q.out_len == data_len
            && q.dim_x == extents.x && q.dim_y == extents.y && q.dim_z == extents.z,
{
}

/// A context serves one compression after another without being made anew:
/// a successful compression of `a` ends, after its reset, with the context
/// ready and its configuration unchanged, and a compression of `b` then
/// succeeds with its own exact output length.
pub proof fn lemma_context_reusable(
    v: ContextView,
    a: Extents,
    a_len: nat,
    b: Extents,
    b_len: nat,
    data_type: Type,
    swizzle: Swizzle,
)
    requires
        v.phase == Phase::Ready,
        a_len == a.components(),
        b_len == b.components(),
        compressed_size(a, v.config.block_size) <= usize::MAX,
        compressed_size(b, v.config.block_size) <= usize::MAX,
    ensures
        ({
            let ra = compress_outcome(v.config.block_size, a, a_len, data_type, swizzle);
            let out = out_len_of(phase_after_compress_request(ra));
            let after = ContextView {
                phase: phase_after_compress_status(out, STATUS_SUCCESS),
                ..v
            };
            let rb = compress_outcome(v.config.block_size, b, b_len, data_type, swizzle);
            &&& ra matches Ok(qa) && qa.out_len as nat == compressed_size(a, v.config.block_size)
            &&& phase_after_compress_request(ra) == Phase::Compressing { out_len: out }
            &&& after.phase == Phase::Resetting { out_len: out }
            &&& reset_outcome(out, STATUS_SUCCESS) == Ok::<usize, Error>(out)
            &&& (ContextView { phase: Phase::Ready, ..after }) == v
            &&& rb matches Ok(qb) && qb.out_len as nat == compressed_size(b, v.config.block_size)
        }),
{
}

} // verus!
