use vstd::prelude::*;

use crate::perlin::Perlin;
use crate::rtw_image::RtwImage;
use crate::vec_bits::{ColorBits, Vec3Bits};

verus! {

/// A texture that answers the same color everywhere.
#[derive(Clone, Debug)]
pub struct SolidColor {
    pub color_value: ColorBits,
}

impl SolidColor {
    pub fn from(c: ColorBits) -> (r: SolidColor)
        ensures
            r.color_value == c,
    {
        SolidColor { color_value: c }
    }
}

/// A checkerboard of two sub-textures.  `inv_scale` carries the reciprocal
/// cell size as a raw bit pattern; the rendering layer computes it from the
/// scale and uses it to pick the even or odd sub-texture per lattice cell.
#[derive(Debug)]
pub struct CheckerTexture {
    pub inv_scale: u64,
    pub even: Box<TexEnum>,
    pub odd: Box<TexEnum>,
}

impl CheckerTexture {
    pub fn from_textures(inv_scale: u64, even: Box<TexEnum>, odd: Box<TexEnum>) -> (r:
        CheckerTexture)
        ensures
            r.inv_scale == inv_scale,
            r.even == even,
            r.odd == odd,
    {
        CheckerTexture { inv_scale, even, odd }
    }

    pub fn from_color(inv_scale: u64, c1: ColorBits, c2: ColorBits) -> (r: CheckerTexture)
        ensures
            r.inv_scale == inv_scale,
            *r.even == TexEnum::SolidColor(SolidColor { color_value: c1 }),
            *r.odd == TexEnum::SolidColor(SolidColor { color_value: c2 }),
    {
        CheckerTexture {
            inv_scale,
            even: Box::new(TexEnum::SolidColor(SolidColor::from(c1))),
            odd: Box::new(TexEnum::SolidColor(SolidColor::from(c2))),
        }
    }
}

/// A texture backed by a decoded image.
#[derive(Clone, Debug)]
pub struct ImageTexture {
    pub image: RtwImage,
}

impl ImageTexture {
    pub fn from(image: RtwImage) -> (r: ImageTexture)
        ensures
            r.image == image,
    {
        ImageTexture { image }
    }
}

/// A gradient-noise texture.  `scale` carries the frequency as a raw bit
/// pattern; the noise tables live in `noise`.
#[derive(Clone, Debug)]
pub struct NoiseTexture {
    pub noise: Perlin,
    pub scale: u64,
}

impl NoiseTexture {
    /// Build the noise tables from the given gradients and remember the
    /// frequency.
    pub fn new(scale: u64, ranvec: Vec<Vec3Bits>) -> (r: NoiseTexture)
        requires
            ranvec@.len() == crate::perlin::POINT_COUNT,
        ensures
            r.scale == scale,
            r.noise.wf(),
            r.noise.spec_ranvec() == ranvec@,
    {
        NoiseTexture { noise: Perlin::new(ranvec), scale }
    }
}

/// The closed set of texture kinds a scene can use.
#[derive(Debug)]
pub enum TexEnum {
    CheckerTexture(CheckerTexture),
    ImageTexture(ImageTexture),
    NoiseTexture(NoiseTexture),
    SolidColor(SolidColor),
}

impl TexEnum {
    /// Every image or noise table reachable through the texture is
    /// well-formed.
    pub open spec fn wf(&self) -> bool
        decreases self,
    {
        match self {
            TexEnum::CheckerTexture(t) => (*t.even).wf() && (*t.odd).wf(),
            TexEnum::ImageTexture(t) => t.image.wf(),
            TexEnum::NoiseTexture(t) => t.noise.wf(),
            TexEnum::SolidColor(_) => true,
        }
    }
}

} // verus!
