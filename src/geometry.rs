use vstd::prelude::*;

verus! {

/// Bytes that one compressed block occupies, whatever its footprint.
pub const BYTES_PER_BLOCK: usize = 16;

/// Components stored for each texel: red, green, blue and alpha.
pub const COMPONENTS_PER_TEXEL: usize = 4;

/// A 3-dimensional set of width, height and depth, used both for images and
/// for block footprints. A 2D extent has a depth of 1.
#[derive(Debug, Default, Copy, Clone, PartialEq, Eq, Structural, Hash)]
pub struct Extents {
    /// Width
    pub x: u32,
    /// Height
    pub y: u32,
    /// Depth
    pub z: u32,
}

impl Extents {
    /// The default block footprint, 4x4x1.
    pub fn default_block_size() -> (r: Self)
        ensures
            r == (Extents { x: 4, y: 4, z: 1 }),
    {
        Self::new(4, 4)
    }

    /// A 2D extent: the depth is 1.
    pub fn new(x: u32, y: u32) -> (r: Self)
        ensures
            r == (Extents { x, y, z: 1 }),
    {
        Extents { x, y, z: 1 }
    }

    /// A 3D extent.
    pub fn new_3d(x: u32, y: u32, z: u32) -> (r: Self)
        ensures
            r == (Extents { x, y, z }),
    {
        Extents { x, y, z }
    }

    /// Every dimension is at least 1, as a block footprint must be.
    pub open spec fn is_nonzero(self) -> bool {
        self.x >= 1 && self.y >= 1 && self.z >= 1
    }

    /// The number of texels.
    pub open spec fn texels(self) -> nat {
        (self.x as nat) * (self.y as nat) * (self.z as nat)
    }

    /// The number of RGBA components that an image of these extents holds.
    pub open spec fn components(self) -> nat {
        self.texels() * (COMPONENTS_PER_TEXEL as nat)
    }
}

/// `a / b`, rounded up.
pub open spec fn ceil_div(a: nat, b: nat) -> nat
    recommends
        b > 0,
{
    ((a + b - 1) as nat) / b
}

/// The number of blocks of a footprint that cover an image, axis by axis.
pub open spec fn block_count(image: Extents, block: Extents) -> nat {
    ceil_div(image.x as nat, block.x as nat) * ceil_div(image.y as nat, block.y as nat)
        * ceil_div(image.z as nat, block.z as nat)
}

/// The exact byte length of an image compressed with a block footprint.
pub open spec fn compressed_size(image: Extents, block: Extents) -> nat {
    block_count(image, block) * (BYTES_PER_BLOCK as nat)
}

/// Rounding up adds one to the quotient exactly when the division leaves a remainder.
proof fn lemma_ceil_div(a: nat, b: nat)
    requires
        b > 0,
    ensures
        ceil_div(a, b) == a / b + (if a % b == 0 { 0nat } else { 1nat }),
{
    let q = a / b;
    let r = a % b;
    vstd::arithmetic::div_mod::lemma_fundamental_div_mod(a as int, b as int);
    if r == 0 {
        vstd::arithmetic::div_mod::lemma_fundamental_div_mod_converse(
            (a + b - 1) as int, b as int, q as int, (b - 1) as int);
    } else {
        assert(q * b + b == (q + 1) * b) by (nonlinear_arith);
        vstd::arithmetic::div_mod::lemma_fundamental_div_mod_converse(
            (a + b - 1) as int, b as int, (q + 1) as int, (r - 1) as int);
    }
}

/// A product of bounded factors is bounded by the product of the bounds.
proof fn lemma_mul_le(a: nat, b: nat, ba: nat, bb: nat)
    requires
        a <= ba,
        b <= bb,
    ensures
        a * b <= ba * bb,
{
    assert(a * b <= ba * bb) by (nonlinear_arith)
        requires
            a <= ba,
            b <= bb,
    ;
}

/// The number of blocks of length `block` that cover `extent` texels.
pub fn blocks_along(extent: u32, block: u32) -> (r: u32)
    requires
        block >= 1,
    ensures
        r as nat == ceil_div(extent as nat, block as nat),
{
    proof {
        lemma_ceil_div(extent as nat, block as nat);
    }
    let q: u32 = extent / block;
    if extent % block == 0 {
        q
    } else {
        proof {
            vstd::arithmetic::div_mod::lemma_fundamental_div_mod(extent as int, block as int);
            assert(q < extent) by (nonlinear_arith)
                requires
                    extent as int == block as int * q as int + (extent % block) as int,
                    block >= 1,
                    (extent % block) >= 1,
            ;
        }
        q + 1
    }
}

/// The number of components of an image of these extents, where it fits in `usize`.
pub fn component_count(extents: Extents) -> (r: Option<usize>)
    ensures
        r matches Some(n) ==> n as nat == extents.components(),
        r is None <==> extents.components() > usize::MAX,
{
    proof {
        lemma_mul_le(extents.x as nat, extents.y as nat, u32::MAX as nat, u32::MAX as nat);
    }
    let xy: u64 = extents.x as u64 * extents.y as u64;
    proof {
        lemma_mul_le(xy as nat, extents.z as nat, u64::MAX as nat, u32::MAX as nat);
    }
    let xyz: u128 = xy as u128 * extents.z as u128;
    if xyz > (usize::MAX / COMPONENTS_PER_TEXEL) as u128 {
        None
    } else {
        Some(xyz as usize * COMPONENTS_PER_TEXEL)
    }
}

/// The byte length of an image of extents `image` compressed with footprint
/// `block`, where it fits in `usize`.
pub fn compressed_len(image: Extents, block: Extents) -> (r: Option<usize>)
    requires
        block.is_nonzero(),
    ensures
        r matches Some(n) ==> n as nat == compressed_size(image, block),
        r is None <==> compressed_size(image, block) > usize::MAX,
{
    let bx: u32 = blocks_along(image.x, block.x);
    let by: u32 = blocks_along(image.y, block.y);
    let bz: u32 = blocks_along(image.z, block.z);
    proof {
        lemma_mul_le(bx as nat, by as nat, u32::MAX as nat, u32::MAX as nat);
    }
    let bxy: u64 = bx as u64 * by as u64;
    proof {
        lemma_mul_le(bxy as nat, bz as nat, u64::MAX as nat, u32::MAX as nat);
    }
    let bxyz: u128 = bxy as u128 * bz as u128;
    if bxyz > (usize::MAX / BYTES_PER_BLOCK) as u128 {
        None
    } else {
        Some(bxyz as usize * BYTES_PER_BLOCK)
    }
}

} // verus!
