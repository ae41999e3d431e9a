use vstd::prelude::*;
use crate::error::{Error, STATUS_SUCCESS, error_code_to_result, error_of_status};
use crate::geometry::Extents;

verus! {

/// The color profile, i.e. the range and meaning of the input components.
/// HDR and LDR sRGB require images with float components.
#[derive(Debug, Copy, Clone, PartialEq, Eq, Structural, Hash)]
pub enum Profile {
    /// HDR in all 4 components.
    HdrRgba,
    /// HDR color, with LDR alpha clamped to 0..1.
    HdrRgbLdrA,
    /// LDR in all 4 components.
    LdrRgba,
    /// LDR with sRGB color.
    LdrSrgb,
}

impl Default for Profile {
    fn default() -> (r: Self)
        ensures
            r == Profile::LdrRgba,
    {
        Profile::LdrRgba
    }
}

/// The engine's code for a profile.
pub open spec fn profile_code(p: Profile) -> u32 {
    match p {
        Profile::LdrSrgb => 0,
        Profile::LdrRgba => 1,
        Profile::HdrRgbLdrA => 2,
        Profile::HdrRgba => 3,
    }
}

impl Profile {
    /// The engine's code for this profile.
    pub fn into_sys(self) -> (r: u32)
        ensures
            r == profile_code(self),
    {
        match self {
            Profile::HdrRgba => 3,
            Profile::HdrRgbLdrA => 2,
            Profile::LdrRgba => 1,
            Profile::LdrSrgb => 0,
        }
    }
}

/// Effort of the fastest, lowest quality, search preset.
pub const EFFORT_FASTEST: u8 = 0;
/// Effort of the fast search preset.
pub const EFFORT_FAST: u8 = 10;
/// Effort of the medium quality search preset.
pub const EFFORT_MEDIUM: u8 = 60;
/// Effort of the thorough search preset.
pub const EFFORT_THOROUGH: u8 = 98;
/// Effort of the very thorough search preset.
pub const EFFORT_VERY_THOROUGH: u8 = 99;
/// Effort of the exhaustive, highest quality, search preset.
pub const EFFORT_EXHAUSTIVE: u8 = 100;

/// The search effort: higher settings take more time and give higher quality.
/// They do not give better compression: the block size alone decides that.
/// The engine accepts efforts from 0 to 100 and refuses others with `BadQuality`.
#[derive(Debug, Copy, Clone, PartialEq, Eq, Structural, Hash)]
pub struct Preset {
    /// The effort level.
    pub effort: u8,
}

impl Default for Preset {
    fn default() -> (r: Self)
        ensures
            r.effort == EFFORT_MEDIUM,
    {
        Preset { effort: EFFORT_MEDIUM }
    }
}

/// Bit of the flag that treats the image as a 2-component normal map when
/// measuring error; Z is always reconstructed.
pub const FLAG_MAP_NORMAL: u32 = 1;
/// Bit of the flag that weights RGB error by alpha.
pub const FLAG_USE_ALPHA_WEIGHT: u32 = 4;
/// Bit of the flag that measures error perceptually.
pub const FLAG_USE_PERCEPTUAL: u32 = 8;
/// Bit of the flag that disables compression support.
pub const FLAG_DECOMPRESS_ONLY: u32 = 16;

/// Behavior flags of a configuration, as a set of bits.
#[derive(Debug, Copy, Clone, PartialEq, Eq, Structural, Hash)]
pub struct Flags {
    /// The bits that are set.
    pub bits: u32,
}

impl Default for Flags {
    /// Alpha-weighted error, and nothing else.
    fn default() -> (r: Self)
        ensures
            r.bits == FLAG_USE_ALPHA_WEIGHT,
    {
        Flags { bits: FLAG_USE_ALPHA_WEIGHT }
    }
}

impl Flags {
    /// The flags set in either `self` or `other`.
    pub fn union(self, other: Flags) -> (r: Flags)
        ensures
            r.bits == self.bits | other.bits,
    {
        Flags { bits: self.bits | other.bits }
    }

    /// The bits that the engine reads.
    pub fn into_sys(self) -> (r: u32)
        ensures
            r == self.bits,
    {
        self.bits
    }
}

/// What a builder holds.
pub struct BuilderView {
    pub profile: Profile,
    pub preset: Preset,
    pub block_size: Extents,
}

/// Builder for the context configuration.
#[derive(Clone, Copy)]
pub struct ConfigBuilder {
    profile: Profile,
    preset: Preset,
    block_size: Extents,
}

impl View for ConfigBuilder {
    type V = BuilderView;

    closed spec fn view(&self) -> BuilderView {
        BuilderView { profile: self.profile, preset: self.preset, block_size: self.block_size }
    }
}

impl Default for ConfigBuilder {
    /// Profile LDR RGBA, medium preset, 4x4x1 blocks.
    fn default() -> (r: Self)
        ensures
            r@ == (BuilderView {
                profile: Profile::LdrRgba,
                preset: Preset { effort: EFFORT_MEDIUM },
                block_size: Extents { x: 4, y: 4, z: 1 },
            }),
    {
        ConfigBuilder {
            profile: Profile::default(),
            preset: Preset::default(),
            block_size: Extents::default_block_size(),
        }
    }
}

/// The block size that validation keeps: a depth of 0 stands for a 2D
/// block, of depth 1.
pub open spec fn validated_block_size(b: Extents) -> Extents {
    Extents { x: b.x, y: b.y, z: if b.z == 0 { 1 } else { b.z } }
}

/// What a validated configuration holds.
pub struct ConfigView {
    pub profile: Profile,
    pub preset: Preset,
    pub block_size: Extents,
    pub flags: Flags,
}

/// The values that the engine's configuration entry point validates.
#[derive(Debug, Copy, Clone, PartialEq, Eq, Structural, Hash)]
pub struct ConfigRequest {
    /// Code of the color profile.
    pub profile: u32,
    /// Block width.
    pub block_x: u32,
    /// Block height.
    pub block_y: u32,
    /// Block depth.
    pub block_z: u32,
    /// Search effort, 0 to 100.
    pub effort: u8,
    /// Behavior flag bits.
    pub flags: u32,
}

/// A configuration that the engine has validated. It is made only by
/// `ConfigBuilder::build`, and its block size has no zero dimension.
pub struct Config {
    profile: Profile,
    preset: Preset,
    block_size: Extents,
    flags: Flags,
}

impl View for Config {
    type V = ConfigView;

    closed spec fn view(&self) -> ConfigView {
        ConfigView {
            profile: self.profile,
            preset: self.preset,
            block_size: self.block_size,
            flags: self.flags,
        }
    }
}

impl Config {
    #[verifier::type_invariant]
    spec fn inv(&self) -> bool {
        self.block_size.is_nonzero()
    }

    /// The block footprint; none of its dimensions is zero.
    pub fn block_size(&self) -> (r: Extents)
        ensures
            r == self@.block_size,
            r.is_nonzero(),
    {
        proof {
            use_type_invariant(self);
        }
        self.block_size
    }

    /// The color profile.
    pub fn profile(&self) -> (r: Profile)
        ensures
            r == self@.profile,
    {
        self.profile
    }

    /// The search preset.
    pub fn preset(&self) -> (r: Preset)
        ensures
            r == self@.preset,
    {
        self.preset
    }

    /// The behavior flags.
    pub fn flags(&self) -> (r: Flags)
        ensures
            r == self@.flags,
    {
        self.flags
    }
}

impl ConfigBuilder {
    /// A new, default configuration.
    pub fn new() -> (r: Self)
        ensures
            r@ == (BuilderView {
                profile: Profile::LdrRgba,
                preset: Preset { effort: EFFORT_MEDIUM },
                block_size: Extents { x: 4, y: 4, z: 1 },
            }),
    {
        Self::default()
    }

    /// Sets the color profile, i.e. the accepted range of the input components.
    pub fn profile(&mut self, profile: Profile) -> (r: &mut Self)
        ensures
            r@ == (BuilderView { profile, ..old(self)@ }),
            final(self)@ == final(r)@,
    {
        self.profile = profile;
        self
    }

    /// Sets the color profile, consuming the builder.
    pub fn with_profile(self, profile: Profile) -> (r: Self)
        ensures
            r@ == (BuilderView { profile, ..self@ }),
    {
        let mut b = self;
        b.profile(profile);
        b
    }

    /// Sets the preset, i.e. the balance between speed and quality.
    pub fn preset(&mut self, preset: Preset) -> (r: &mut Self)
        ensures
            r@ == (BuilderView { preset, ..old(self)@ }),
            final(self)@ == final(r)@,
    {
        self.preset = preset;
        self
    }

    /// Sets the preset, consuming the builder.
    pub fn with_preset(self, preset: Preset) -> (r: Self)
        ensures
            r@ == (BuilderView { preset, ..self@ }),
    {
        let mut b = self;
        b.preset(preset);
        b
    }

    /// Sets the block size, which decides the compression ratio: each block
    /// takes 16 bytes.
    pub fn block_size(&mut self, block_size: Extents) -> (r: &mut Self)
        ensures
            r@ == (BuilderView { block_size, ..old(self)@ }),
            final(self)@ == final(r)@,
    {
        self.block_size = block_size;
        self
    }

    /// Sets the block size, consuming the builder.
    pub fn with_block_size(self, block_size: Extents) -> (r: Self)
        ensures
            r@ == (BuilderView { block_size, ..self@ }),
    {
        let mut b = self;
        b.block_size(block_size);
        b
    }

    /// What the engine is asked to validate for these settings: the default
    /// flags, alpha-weighted error, go with them.
    pub fn request(&self) -> (r: ConfigRequest)
        ensures
            r == (ConfigRequest {
                profile: profile_code(self@.profile),
                block_x: self@.block_size.x,
                block_y: self@.block_size.y,
                block_z: self@.block_size.z,
                effort: self@.preset.effort,
                flags: FLAG_USE_ALPHA_WEIGHT,
            }),
    {
        ConfigRequest {
            profile: self.profile.into_sys(),
            block_x: self.block_size.x,
            block_y: self.block_size.y,
            block_z: self.block_size.z,
            effort: self.preset.effort,
            flags: Flags::default().into_sys(),
        }
    }

    /// Creates the config from these settings, given the status with which the
    /// engine answered `self.request()`. A failing status gives its error and
    /// no config. The engine takes a block depth of 0 as 1, as the config
    /// does; it accepts no zero width or height, and a success reported for
    /// one is refused as `BadBlockSize`.
    pub fn build(self, status: u32) -> (r: Result<Config, Error>)
        ensures
            status != STATUS_SUCCESS ==> r == Err::<Config, Error>(error_of_status(status)),
            status == STATUS_SUCCESS && (self@.block_size.x == 0 || self@.block_size.y == 0)
                ==> r == Err::<Config, Error>(Error::BadBlockSize),
            status == STATUS_SUCCESS && self@.block_size.x >= 1 && self@.block_size.y >= 1 ==> (r matches Ok(c)
                && c@ == (ConfigView {
                profile: self@.profile,
                preset: self@.preset,
                block_size: validated_block_size(self@.block_size),
                flags: Flags { bits: FLAG_USE_ALPHA_WEIGHT },
            })),
    {
        match error_code_to_result(status) {
            Err(e) => Err(e),
            Ok(()) => {
                let b = self.block_size;
                if b.x == 0 || b.y == 0 {
                    Err(Error::BadBlockSize)
                } else {
                    let z: u32 = if b.z == 0 {
                        1
                    } else {
                        b.z
                    };
                    Ok(
                        Config {
                            profile: self.profile,
                            preset: self.preset,
                            block_size: Extents { x: b.x, y: b.y, z },
                            flags: Flags::default(),
                        },
                    )
                }
            },
        }
    }
}

} // verus!
