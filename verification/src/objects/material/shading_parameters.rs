//! Shading parameters of materials.

use vstd::prelude::*;
use crate::definitions::template::{defaults_in, Properties, Templates};
use crate::definitions::PropertyTemplates;
use crate::property::{
    color_in, node_color, node_f32, properties_view, resolve, single_in, GenericProperties,
    OptionalProperties,
};
use crate::text::same_text;

verus! {

#[derive(Debug, Clone)]
pub enum ShadingParameters {
    Lambert(LambertParameters),
    Phong(PhongParameters),
    Unknown(Option<GenericProperties>),
}

/// Shading parameters, as a mathematical value.
pub ghost enum ShadingView {
    Lambert(LambertParameters),
    Phong(PhongParameters),
    Unknown(Option<Properties>),
}

impl View for ShadingParameters {
    type V = ShadingView;

    open spec fn view(&self) -> ShadingView {
        match self {
            ShadingParameters::Lambert(p) => ShadingView::Lambert(*p),
            ShadingParameters::Phong(p) => ShadingView::Phong(*p),
            ShadingParameters::Unknown(p) => ShadingView::Unknown(properties_view(*p)),
        }
    }
}

/// The shading parameters of a material: those of `lambert` or of `phong`
/// shading, read from its properties, or for any other shading model the
/// properties themselves.
pub open spec fn shading_of(shading_model: Seq<char>, properties: Option<Properties>, templates: Templates) -> ShadingView {
    if shading_model == "lambert"@ {
        ShadingView::Lambert(lambert_of(properties, templates))
    } else if shading_model == "phong"@ {
        ShadingView::Phong(phong_of(properties, templates))
    } else {
        ShadingView::Unknown(properties)
    }
}

impl ShadingParameters {
    pub fn from_node_properties(
        shading_model: &str,
        properties: Option<GenericProperties>,
        property_templates: &PropertyTemplates,
    ) -> (r: Self)
        ensures
            r@ == shading_of(shading_model@, properties_view(properties), property_templates@),
    {
        if same_text(shading_model, "lambert") {
            ShadingParameters::Lambert(
                LambertParameters::from_node_properties(&properties, property_templates),
            )
        } else if same_text(shading_model, "phong") {
            ShadingParameters::Phong(
                PhongParameters::from_node_properties(&properties, property_templates),
            )
        } else {
            ShadingParameters::Unknown(properties)
        }
    }
}

/// Parameters for Lambert shading. Colors are three single precision
/// numbers and factors one, by their bit patterns.
#[derive(Debug, Clone, Copy)]
pub struct LambertParameters {
    /// `EmissiveColor` (not `Emissive`)
    pub emissive: [u32; 3],
    /// `EmissiveFactor`
    pub emissive_factor: u32,
    /// `AmbientColor` (not `Ambient`)
    pub ambient: [u32; 3],
    /// `AmbientFactor`
    pub ambient_factor: u32,
    /// `DiffuseColor` (not `Diffuse`)
    pub diffuse: [u32; 3],
    /// `DiffuseFactor`
    pub diffuse_factor: u32,
    /// `NormalMap`
    pub normal_map: [u32; 3],
    /// `Bump`
    pub bump: [u32; 3],
    /// `TransparentColor`
    pub transparent_color: [u32; 3],
    /// `TransparencyFactor`
    pub transparency_factor: u32,
    /// `DisplacementColor`
    pub displacement_color: [u32; 3],
    /// `DisplacementFactor`
    pub displacement_factor: u32,
    /// `VectorDisplacementColor`
    pub vector_displacement_color: [u32; 3],
    /// `VectorDisplacementFactor`
    pub vector_displacement_factor: u32,
}

/// Parameters for Lambert shading that are all zero.
pub open spec fn no_lambert() -> LambertParameters {
    LambertParameters {
        emissive: [0, 0, 0],
        emissive_factor: 0,
        ambient: [0, 0, 0],
        ambient_factor: 0,
        diffuse: [0, 0, 0],
        diffuse_factor: 0,
        normal_map: [0, 0, 0],
        bump: [0, 0, 0],
        transparent_color: [0, 0, 0],
        transparency_factor: 0,
        displacement_color: [0, 0, 0],
        displacement_factor: 0,
        vector_displacement_color: [0, 0, 0],
        vector_displacement_factor: 0,
    }
}

impl Default for LambertParameters {
    /// All parameters are zero.
    fn default() -> (r: Self)
        ensures
            r == no_lambert(),
    {
        LambertParameters {
            emissive: [0, 0, 0],
            emissive_factor: 0,
            ambient: [0, 0, 0],
            ambient_factor: 0,
            diffuse: [0, 0, 0],
            diffuse_factor: 0,
            normal_map: [0, 0, 0],
            bump: [0, 0, 0],
            transparent_color: [0, 0, 0],
            transparency_factor: 0,
            displacement_color: [0, 0, 0],
            displacement_factor: 0,
            vector_displacement_color: [0, 0, 0],
            vector_displacement_factor: 0,
        }
    }
}

/// Whether two colors have the same bit patterns.
fn same_color(a: &[u32; 3], b: &[u32; 3]) -> (r: bool)
    ensures
        r == (a@ == b@),
{
    let r = a[0] == b[0] && a[1] == b[1] && a[2] == b[2];
    proof {
        if r {
            assert(a@ =~= b@);
        } else {
            assert(a@[0] != b@[0] || a@[1] != b@[1] || a@[2] != b@[2]);
        }
    }
    r
}

/// Whether two sets of parameters for Lambert shading hold the same bit
/// patterns.
pub open spec fn same_lambert(a: LambertParameters, b: LambertParameters) -> bool {
    &&& a.emissive@ == b.emissive@
    &&& a.emissive_factor == b.emissive_factor
    &&& a.ambient@ == b.ambient@
    &&& a.ambient_factor == b.ambient_factor
    &&& a.diffuse@ == b.diffuse@
    &&& a.diffuse_factor == b.diffuse_factor
    &&& a.normal_map@ == b.normal_map@
    &&& a.bump@ == b.bump@
    &&& a.transparent_color@ == b.transparent_color@
    &&& a.transparency_factor == b.transparency_factor
    &&& a.displacement_color@ == b.displacement_color@
    &&& a.displacement_factor == b.displacement_factor
    &&& a.vector_displacement_color@ == b.vector_displacement_color@
    &&& a.vector_displacement_factor == b.vector_displacement_factor
}

/// Parameters are equal where the bit patterns of all their numbers are.
impl PartialEq for LambertParameters {
    fn eq(&self, other: &Self) -> (r: bool) {
        same_color(&self.emissive, &other.emissive)
            && self.emissive_factor == other.emissive_factor
            && same_color(&self.ambient, &other.ambient)
            && self.ambient_factor == other.ambient_factor
            && same_color(&self.diffuse, &other.diffuse)
            && self.diffuse_factor == other.diffuse_factor
            && same_color(&self.normal_map, &other.normal_map)
            && same_color(&self.bump, &other.bump)
            && same_color(&self.transparent_color, &other.transparent_color)
            && self.transparency_factor == other.transparency_factor
            && same_color(&self.displacement_color, &other.displacement_color)
            && self.displacement_factor == other.displacement_factor
            && same_color(&self.vector_displacement_color, &other.vector_displacement_color)
            && self.vector_displacement_factor == other.vector_displacement_factor
    }
}

impl vstd::std_specs::cmp::PartialEqSpecImpl for LambertParameters {
    open spec fn obeys_eq_spec() -> bool {
        true
    }

    open spec fn eq_spec(&self, other: &Self) -> bool {
        same_lambert(*self, *other)
    }
}

/// The color under `key` in the properties, else in the defaults, else black.
pub open spec fn color_or_black(properties: Option<Properties>, defaults: Option<Properties>, key: Seq<char>) -> [u32; 3] {
    match color_in(resolve(properties, defaults, key)) {
        Some(c) => c,
        None => [0, 0, 0],
    }
}

/// The number under `key` in the properties, else in the defaults, else zero.
pub open spec fn factor_or_zero(properties: Option<Properties>, defaults: Option<Properties>, key: Seq<char>) -> u32 {
    match single_in(resolve(properties, defaults, key)) {
        Some(v) => v,
        None => 0,
    }
}

fn load_color(properties: &Option<GenericProperties>, defaults: Option<&GenericProperties>, key: &str) -> (r: [u32; 3])
    ensures
        r == color_or_black(
            properties_view(*properties),
            crate::property::defaults_view(defaults),
            key@,
        ),
{
    match node_color(properties.get_or_default(defaults, key)) {
        Some(c) => c,
        None => [0, 0, 0],
    }
}

fn load_factor(properties: &Option<GenericProperties>, defaults: Option<&GenericProperties>, key: &str) -> (r: u32)
    ensures
        r == factor_or_zero(
            properties_view(*properties),
            crate::property::defaults_view(defaults),
            key@,
        ),
{
    match node_f32(properties.get_or_default(defaults, key)) {
        Some(v) => v,
        None => 0,
    }
}

/// The parameters for Lambert shading that properties give: each is looked
/// up in the properties, else in the template `FbxSurfaceLambert` of
/// `Material`, and is zero where it is in neither.
pub open spec fn lambert_of(properties: Option<Properties>, templates: Templates) -> LambertParameters {
    let defaults = defaults_in(templates, "Material"@, "FbxSurfaceLambert"@);
    LambertParameters {
        emissive: color_or_black(properties, defaults, "EmissiveColor"@),
        emissive_factor: factor_or_zero(properties, defaults, "EmissiveFactor"@),
        ambient: color_or_black(properties, defaults, "AmbientColor"@),
        ambient_factor: factor_or_zero(properties, defaults, "AmbientFactor"@),
        diffuse: color_or_black(properties, defaults, "DiffuseColor"@),
        diffuse_factor: factor_or_zero(properties, defaults, "DiffuseFactor"@),
        normal_map: color_or_black(properties, defaults, "NormalMap"@),
        bump: color_or_black(properties, defaults, "Bump"@),
        transparent_color: color_or_black(properties, defaults, "TransparentColor"@),
        transparency_factor: factor_or_zero(properties, defaults, "TransparencyFactor"@),
        displacement_color: color_or_black(properties, defaults, "DisplacementColor"@),
        displacement_factor: factor_or_zero(properties, defaults, "DisplacementFactor"@),
        vector_displacement_color: color_or_black(properties, defaults, "VectorDisplacementColor"@),
        vector_displacement_factor: factor_or_zero(
            properties,
            defaults,
            "VectorDisplacementFactor"@,
        ),
    }
}

impl LambertParameters {
    pub fn from_node_properties(
        properties: &Option<GenericProperties>,
        property_templates: &PropertyTemplates,
    ) -> (r: Self)
        ensures
            r == lambert_of(properties_view(*properties), property_templates@),
    {
        let defaults = property_templates.defaults("Material", "FbxSurfaceLambert");
        LambertParameters {
            emissive: load_color(properties, defaults, "EmissiveColor"),
            emissive_factor: load_factor(properties, defaults, "EmissiveFactor"),
            ambient: load_color(properties, defaults, "AmbientColor"),
            ambient_factor: load_factor(properties, defaults, "AmbientFactor"),
            diffuse: load_color(properties, defaults, "DiffuseColor"),
            diffuse_factor: load_factor(properties, defaults, "DiffuseFactor"),
            normal_map: load_color(properties, defaults, "NormalMap"),
            bump: load_color(properties, defaults, "Bump"),
            transparent_color: load_color(properties, defaults, "TransparentColor"),
            transparency_factor: load_factor(properties, defaults, "TransparencyFactor"),
            displacement_color: load_color(properties, defaults, "DisplacementColor"),
            displacement_factor: load_factor(properties, defaults, "DisplacementFactor"),
            vector_displacement_color: load_color(properties, defaults, "VectorDisplacementColor"),
            vector_displacement_factor: load_factor(
                properties,
                defaults,
                "VectorDisplacementFactor",
            ),
        }
    }
}

/// Parameters for Phong shading.
#[derive(Debug, Clone, Copy)]
pub struct PhongParameters {
    /// Parameters common with lambert shading.
    pub lambert: LambertParameters,
    /// `SpecularColor` (not `Specular`)
    pub specular: [u32; 3],
    /// `SpecularFactor`
    pub specular_factor: u32,
    /// `Shininess`
    pub shininess: u32,
    /// `ReflectionColor` (not `Reflection`)
    pub reflection: [u32; 3],
    /// `ReflectionFactor`
    pub reflection_factor: u32,
}

/// Parameters for Phong shading that are all zero.
pub open spec fn no_phong() -> PhongParameters {
    PhongParameters {
        lambert: no_lambert(),
        specular: [0, 0, 0],
        specular_factor: 0,
        shininess: 0,
        reflection: [0, 0, 0],
        reflection_factor: 0,
    }
}

impl Default for PhongParameters {
    /// All parameters are zero.
    fn default() -> (r: Self)
        ensures
            r == no_phong(),
    {
        PhongParameters {
            lambert: LambertParameters::default(),
            specular: [0, 0, 0],
            specular_factor: 0,
            shininess: 0,
            reflection: [0, 0, 0],
            reflection_factor: 0,
        }
    }
}

/// Parameters are equal where the bit patterns of all their numbers are.
impl PartialEq for PhongParameters {
    fn eq(&self, other: &Self) -> (r: bool) {
        self.lambert == other.lambert
            && same_color(&self.specular, &other.specular)
            && self.specular_factor == other.specular_factor
            && self.shininess == other.shininess
            && same_color(&self.reflection, &other.reflection)
            && self.reflection_factor == other.reflection_factor
    }
}

impl vstd::std_specs::cmp::PartialEqSpecImpl for PhongParameters {
    open spec fn obeys_eq_spec() -> bool {
        true
    }

    open spec fn eq_spec(&self, other: &Self) -> bool {
        &&& same_lambert(self.lambert, other.lambert)
        &&& self.specular@ == other.specular@
        &&& self.specular_factor == other.specular_factor
        &&& self.shininess == other.shininess
        &&& self.reflection@ == other.reflection@
        &&& self.reflection_factor == other.reflection_factor
    }
}

/// The parameters for Phong shading that properties give: those for Lambert
/// shading, and the others looked up in the properties, else in the template
/// `FbxSurfacePhong` of `Material`, zero where they are in neither.
pub open spec fn phong_of(properties: Option<Properties>, templates: Templates) -> PhongParameters {
    let defaults = defaults_in(templates, "Material"@, "FbxSurfacePhong"@);
    PhongParameters {
        lambert: lambert_of(properties, templates),
        specular: color_or_black(properties, defaults, "SpecularColor"@),
        specular_factor: factor_or_zero(properties, defaults, "SpecularFactor"@),
        shininess: factor_or_zero(properties, defaults, "Shininess"@),
        reflection: color_or_black(properties, defaults, "ReflectionColor"@),
        reflection_factor: factor_or_zero(properties, defaults, "ReflectionFactor"@),
    }
}

impl PhongParameters {
    pub fn from_node_properties(
        properties: &Option<GenericProperties>,
        property_templates: &PropertyTemplates,
    ) -> (r: Self)
        ensures
            r == phong_of(properties_view(*properties), property_templates@),
    {
        let defaults = property_templates.defaults("Material", "FbxSurfacePhong");
        PhongParameters {
            lambert: LambertParameters::from_node_properties(properties, property_templates),
            specular: load_color(properties, defaults, "SpecularColor"),
            specular_factor: load_factor(properties, defaults, "SpecularFactor"),
            shininess: load_factor(properties, defaults, "Shininess"),
            reflection: load_color(properties, defaults, "ReflectionColor"),
            reflection_factor: load_factor(properties, defaults, "ReflectionFactor"),
        }
    }
}

} // verus!
