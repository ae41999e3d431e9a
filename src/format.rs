use vstd::prelude::*;
use crate::geometry::Extents;

verus! {

/// Which of the supported component types an image's components are.
/// Floating-point types must be used for HDR data.
#[derive(Debug, Copy, Clone, PartialEq, Eq, Structural, Hash)]
pub enum Type {
    /// Half-precision floats.
    F16,
    /// Single-precision floats.
    F32,
    /// Individual bytes.
    U8,
}

/// The engine's code for a component type.
pub open spec fn type_code(t: Type) -> u32 {
    match t {
        Type::U8 => 0,
        Type::F16 => 1,
        Type::F32 => 2,
    }
}

impl Type {
    /// The engine's code for this component type.
    pub fn into_sys(self) -> (r: u32)
        ensures
            r == type_code(self),
    {
        match self {
            Type::F16 => 1,
            Type::F32 => 2,
            Type::U8 => 0,
        }
    }
}

/// A valid type for an image component, tagged with its runtime type.
pub trait DataType: Sized {
    /// The runtime component type associated with this compile-time type.
    const TYPE: Type;
}

impl DataType for u8 {
    const TYPE: Type = Type::U8;
}

/// A 3D image of RGBA texels: four interleaved components per texel,
/// row-major, without padding. `data` holds the components.
#[derive(Default)]
pub struct Image<T> {
    /// The dimensions of the image. They must match the length of the data.
    pub extents: Extents,
    /// The component buffer.
    pub data: T,
}

/// An individual component of a swizzle.
#[derive(Debug, Copy, Clone, PartialEq, Eq, Structural, Hash)]
pub enum Selector {
    /// Select the red component
    Red,
    /// Select the green component
    Green,
    /// Select the blue component
    Blue,
    /// Select the alpha component
    Alpha,
    /// The z component, reconstructed from the red and green components.
    Z,
    /// Constant 1.
    One,
    /// Constant 0.
    Zero,
}

/// The engine's code for a selector.
pub open spec fn selector_code(s: Selector) -> u32 {
    match s {
        Selector::Red => 0,
        Selector::Green => 1,
        Selector::Blue => 2,
        Selector::Alpha => 3,
        Selector::Zero => 4,
        Selector::One => 5,
        Selector::Z => 6,
    }
}

impl Selector {
    /// The engine's code for this selector.
    pub fn into_sys(self) -> (r: u32)
        ensures
            r == selector_code(self),
    {
        match self {
            Selector::Red => 0,
            Selector::Green => 1,
            Selector::Blue => 2,
            Selector::Alpha => 3,
            Selector::Z => 6,
            Selector::One => 5,
            Selector::Zero => 4,
        }
    }
}

/// A component selection swizzle. Images are always stored in RGBA order,
/// even when some components are never used.
#[derive(Debug, Copy, Clone, PartialEq, Eq, Structural)]
pub struct Swizzle {
    /// The component to use for the red channel.
    pub r: Selector,
    /// The component to use for the green channel.
    pub g: Selector,
    /// The component to use for the blue channel.
    pub b: Selector,
    /// The component to use for the alpha channel.
    pub a: Selector,
}

/// A swizzle as the engine reads it: one selector code per channel.
#[derive(Debug, Copy, Clone, PartialEq, Eq, Structural, Hash)]
pub struct SwizzleCodes {
    /// Code for the red channel.
    pub r: u32,
    /// Code for the green channel.
    pub g: u32,
    /// Code for the blue channel.
    pub b: u32,
    /// Code for the alpha channel.
    pub a: u32,
}

/// The engine's codes for a swizzle, channel by channel.
pub open spec fn swizzle_codes(s: Swizzle) -> SwizzleCodes {
    SwizzleCodes {
        r: selector_code(s.r),
        g: selector_code(s.g),
        b: selector_code(s.b),
        a: selector_code(s.a),
    }
}

impl Swizzle {
    /// Greyscale without alpha.
    ///
    /// To access the output in a shader, use the `.g` swizzle.
    pub fn rrr1() -> (r: Self)
        ensures
            r == (Swizzle { r: Selector::Red, g: Selector::Red, b: Selector::Red, a: Selector::One }),
    {
        Swizzle { r: Selector::Red, g: Selector::Red, b: Selector::Red, a: Selector::One }
    }

    /// Greyscale with alpha.
    ///
    /// To access the output in a shader, use the `.ga` swizzle.
    pub fn rrrg() -> (r: Self)
        ensures
            r == (Swizzle {
                r: Selector::Red,
                g: Selector::Red,
                b: Selector::Red,
                a: Selector::Green,
            }),
    {
        Swizzle { r: Selector::Red, g: Selector::Red, b: Selector::Red, a: Selector::Green }
    }

    /// RGB without alpha.
    ///
    /// To access the output in a shader, use the `.rga` swizzle.
    pub fn rgb1() -> (r: Self)
        ensures
            r == (Swizzle {
                r: Selector::Red,
                g: Selector::Green,
                b: Selector::Blue,
                a: Selector::One,
            }),
    {
        Swizzle { r: Selector::Red, g: Selector::Green, b: Selector::Blue, a: Selector::One }
    }

    /// RGB with alpha.
    ///
    /// To access the output in a shader, use the `.rga` swizzle.
    pub fn rgba() -> (r: Self)
        ensures
            r == (Swizzle {
                r: Selector::Red,
                g: Selector::Green,
                b: Selector::Blue,
                a: Selector::Alpha,
            }),
    {
        Swizzle { r: Selector::Red, g: Selector::Green, b: Selector::Blue, a: Selector::Alpha }
    }

    /// The engine's codes for this swizzle.
    pub fn into_sys(self) -> (r: SwizzleCodes)
        ensures
            r == swizzle_codes(self),
    {
        SwizzleCodes {
            r: self.r.into_sys(),
            g: self.g.into_sys(),
            b: self.b.into_sys(),
            a: self.a.into_sys(),
        }
    }
}

} // verus!
