use vstd::prelude::*;

use crate::textures::{SolidColor, TexEnum};
use crate::vec_bits::ColorBits;

verus! {

/// Placeholder material for freshly built records; the renderer never asks
/// it to scatter or emit.
#[derive(Clone, Debug)]
pub struct DefaultMat {}

/// A diffuse (Lambertian) surface: attenuates by its albedo texture and
/// scatters through a cosine-weighted hemisphere about the normal.
#[derive(Debug)]
pub struct Lambertian {
    pub albedo: TexEnum,
}

impl Lambertian {
    pub fn from_texture(a: TexEnum) -> (r: Lambertian)
        ensures
            r.albedo == a,
    {
        Lambertian { albedo: a }
    }

    pub fn from_color(a: ColorBits) -> (r: Lambertian)
        ensures
            r.albedo == TexEnum::SolidColor(SolidColor { color_value: a }),
    {
        Lambertian { albedo: TexEnum::SolidColor(SolidColor::from(a)) }
    }
}

/// A specular metal surface.  `fuzz` carries the reflection-perturbation
/// radius as a raw bit pattern, already limited to one by the rendering
/// layer.
#[derive(Clone, Debug)]
pub struct Metal {
    pub albedo: ColorBits,
    pub fuzz: u64,
}

impl Metal {
    pub fn from(a: ColorBits, fuzz: u64) -> (r: Metal)
        ensures
            r.albedo == a,
            r.fuzz == fuzz,
    {
        Metal { albedo: a, fuzz }
    }
}

/// A refractive surface.  `ir` carries the index of refraction as a raw bit
/// pattern.
#[derive(Clone, Debug)]
pub struct Dielectric {
    pub ir: u64,
}

impl Dielectric {
    pub fn from(index_of_refraction: u64) -> (r: Dielectric)
        ensures
            r.ir == index_of_refraction,
    {
        Dielectric { ir: index_of_refraction }
    }
}

/// An emitting surface: it never scatters, and it emits its texture only on
/// front-facing hits.
#[derive(Debug)]
pub struct DiffuseLight {
    pub emit: TexEnum,
}

impl DiffuseLight {
    pub fn from_texture(a: TexEnum) -> (r: DiffuseLight)
        ensures
            r.emit == a,
    {
        DiffuseLight { emit: a }
    }

    pub fn from_color(c: ColorBits) -> (r: DiffuseLight)
        ensures
            r.emit == TexEnum::SolidColor(SolidColor { color_value: c }),
    {
        DiffuseLight { emit: TexEnum::SolidColor(SolidColor::from(c)) }
    }
}

/// A volumetric phase function: attenuates by its albedo texture and
/// scatters through the uniform-sphere density.
#[derive(Debug)]
pub struct Isotropic {
    pub albedo: TexEnum,
}

impl Isotropic {
    pub fn from_color(c: ColorBits) -> (r: Isotropic)
        ensures
            r.albedo == TexEnum::SolidColor(SolidColor { color_value: c }),
    {
        Isotropic { albedo: TexEnum::SolidColor(SolidColor::from(c)) }
    }

    pub fn from_texture(a: TexEnum) -> (r: Isotropic)
        ensures
            r.albedo == a,
    {
        Isotropic { albedo: a }
    }
}

/// The closed set of material kinds a scene can use.
#[derive(Debug)]
pub enum MatEnum {
    Default(DefaultMat),
    Lambertian(Lambertian),
    Metal(Metal),
    Dielectric(Dielectric),
    DiffuseLight(DiffuseLight),
    Isotropic(Isotropic),
}

/// How a material answers a scatter request: it declines (absorbing or
/// emitting-only surfaces), it asks for a direction drawn from a named
/// density, or it prescribes a deterministic specular ray with the density
/// machinery skipped.
#[derive(Clone, Copy, PartialEq, Eq, Structural, Debug)]
pub enum ScatterPlan {
    /// No scatter outcome.
    Absorb,
    /// Sample a cosine-weighted hemisphere about the surface normal,
    /// attenuated by the material's albedo texture.
    CosineWeighted,
    /// Sample the uniform sphere, attenuated by the material's albedo
    /// texture.
    UniformSphere,
    /// Follow one deterministic ray; no density is reported.
    Specular,
}

impl MatEnum {
    /// The scatter decision each material kind makes, before any numbers
    /// enter: lights absorb, diffuse surfaces sample the cosine density,
    /// volumetric surfaces sample the uniform sphere, and metal and glass
    /// are specular.
    pub open spec fn scatter_plan_spec(&self) -> ScatterPlan {
        match self {
            MatEnum::Default(_) => ScatterPlan::Absorb,
            MatEnum::Lambertian(_) => ScatterPlan::CosineWeighted,
            MatEnum::Metal(_) => ScatterPlan::Specular,
            MatEnum::Dielectric(_) => ScatterPlan::Specular,
            MatEnum::DiffuseLight(_) => ScatterPlan::Absorb,
            MatEnum::Isotropic(_) => ScatterPlan::UniformSphere,
        }
    }

    /// Which scatter outcome this material produces.  The placeholder
    /// material is excluded: asking it to scatter is a programming error.
    pub fn scatter_plan(&self) -> (r: ScatterPlan)
        requires
            !(self is Default),
        ensures
            r == self.scatter_plan_spec(),
    {
        match self {
            MatEnum::Default(_) => ScatterPlan::Absorb,
            MatEnum::Lambertian(_) => ScatterPlan::CosineWeighted,
            MatEnum::Metal(_) => ScatterPlan::Specular,
            MatEnum::Dielectric(_) => ScatterPlan::Specular,
            MatEnum::DiffuseLight(_) => ScatterPlan::Absorb,
            MatEnum::Isotropic(_) => ScatterPlan::UniformSphere,
        }
    }

    /// The texture a material emits, if any: only a diffuse light emits,
    /// and only on front-facing hits.  `None` stands for black.
    pub open spec fn emitted_spec(&self, front_face: bool) -> Option<TexEnum> {
        match self {
            MatEnum::DiffuseLight(d) => if front_face {
                Some(d.emit)
            } else {
                None
            },
            _ => None,
        }
    }

    /// The emission texture to evaluate for a hit, or `None` for black.
    pub fn emitted_texture(&self, front_face: bool) -> (r: Option<&TexEnum>)
        requires
            !(self is Default),
        ensures
            r is Some <==> self.emitted_spec(front_face) is Some,
            r matches Some(t) ==> self.emitted_spec(front_face) == Some(*t),
    {
        match self {
            MatEnum::DiffuseLight(d) => if front_face {
                Some(&d.emit)
            } else {
                None
            },
            _ => None,
        }
    }
}

/// Law: a diffuse light never yields a scatter outcome, and its emission is
/// exactly its texture on front-facing hits and black on back-facing ones.
pub proof fn lemma_diffuse_light_emits_only(m: MatEnum, front_face: bool)
    requires
        m is DiffuseLight,
    ensures
        m.scatter_plan_spec() is Absorb,
        front_face ==> m.emitted_spec(front_face) == Some(m->DiffuseLight_0.emit),
        !front_face ==> m.emitted_spec(front_face) is None,
{
}

} // verus!
