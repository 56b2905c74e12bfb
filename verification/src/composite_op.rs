//! The composition operations, and the names that the documents give them.

use vstd::prelude::*;
use vstd::string::*;
use crate::error::UnknownCompositeOp;
use crate::text::str_eq;

verus! {

/// Composition operator: how a node is blended onto what lies under it.
#[allow(missing_docs)]
#[derive(Debug, PartialEq, Eq, Structural, Clone, Copy, Hash)]
pub enum CompositeOp {
    Normal,
    Erase,
    In,
    Out,
    AlphaDarken,
    DestinationIn,
    DestinationAtop,
    Xor,
    Or,
    And,
    Nand,
    Nor,
    Xnor,
    Implication,
    NotImplication,
    Converse,
    NotConverse,
    Plus,
    Minus,
    Add,
    Subtract,
    InverseSubtract,
    Diff,
    Multiply,
    Divide,
    ArcTangent,
    GeometricMean,
    AdditiveSubtractive,
    Negation,
    Modulo,
    ModuloContinuous,
    DivisiveModulo,
    DivisiveModuloContinuous,
    ModuloShift,
    ModuloShiftContinuous,
    Equivalence,
    Allanon,
    Parallel,
    GrainMerge,
    GrainExtract,
    Exclusion,
    HardMix,
    HardMixPhotoshop,
    HardMixSofterPhotoshop,
    Overlay,
    Behind,
    Greater,
    HardOverlay,
    Interpolation,
    Interpolation2X,
    PenumbraA,
    PenumbraB,
    PenumbraC,
    PenumbraD,
    Darken,
    Burn,
    LinearBurn,
    GammaDark,
    ShadeIfsIllusions,
    FogDarkenIfsIllusions,
    EasyBurn,
    Lighten,
    Dodge,
    LinearDodge,
    Screen,
    HardLight,
    SoftLightIfsIllusions,
    SoftLightPegtopDelphi,
    SoftLight,
    SoftLightSvg,
    GammaLight,
    GammaIllumination,
    VividLight,
    FlatLight,
    LinearLight,
    PinLight,
    PnormA,
    PnormB,
    SuperLight,
    TintIfsIllusions,
    FogLightenIfsIllusions,
    EasyDodge,
    LuminositySai,
    Hue,
    Color,
    Saturation,
    IncSaturation,
    DecSaturation,
    Luminize,
    IncLuminosity,
    DecLuminosity,
    HueHsv,
    ColorHsv,
    SaturationHsv,
    IncSaturationHsv,
    DecSaturationHsv,
    Value,
    IncValue,
    DecValue,
    HueHsl,
    ColorHsl,
    SaturationHsl,
    IncSaturationHsl,
    DecSaturationHsl,
    Lightness,
    IncLightness,
    DecLightness,
    HueHsi,
    ColorHsi,
    SaturationHsi,
    IncSaturationHsi,
    DecSaturationHsi,
    Intensity,
    IncIntensity,
    DecIntensity,
    Copy,
    CopyRed,
    CopyGreen,
    CopyBlue,
    TangentNormalmap,
    Colorize,
    Bumpmap,
    CombineNormal,
    Clear,
    Dissolve,
    Displace,
    Nocomposition,
    PassThrough,
    DarkerColor,
    LighterColor,
    Undefined,
    Reflect,
    Glow,
    Freeze,
    Heat,
    GlowHeat,
    HeatGlow,
    ReflectFreeze,
    FreezeReflect,
    HeatGlowFreezeReflectHybrid,
    LambertLighting,
    LambertLightingGamma22,
}

impl CompositeOp {
    /// The name that the documents give the operation.
    pub open spec fn spec_key(self) -> Seq<char> {
        match self {
            CompositeOp::Normal => "normal"@,
            CompositeOp::Erase => "erase"@,
            CompositeOp::In => "in"@,
            CompositeOp::Out => "out"@,
            CompositeOp::AlphaDarken => "alphadarken"@,
            CompositeOp::DestinationIn => "destination-in"@,
            CompositeOp::DestinationAtop => "destination-atop"@,
            CompositeOp::Xor => "xor"@,
            CompositeOp::Or => "or"@,
            CompositeOp::And => "and"@,
            CompositeOp::Nand => "nand"@,
            CompositeOp::Nor => "nor"@,
            CompositeOp::Xnor => "xnor"@,
            CompositeOp::Implication => "implication"@,
            CompositeOp::NotImplication => "not_implication"@,
            CompositeOp::Converse => "converse"@,
            CompositeOp::NotConverse => "not_converse"@,
            CompositeOp::Plus => "plus"@,
            CompositeOp::Minus => "minus"@,
            CompositeOp::Add => "add"@,
            CompositeOp::Subtract => "subtract"@,
            CompositeOp::InverseSubtract => "inverse_subtract"@,
            CompositeOp::Diff => "diff"@,
            CompositeOp::Multiply => "multiply"@,
            CompositeOp::Divide => "divide"@,
            CompositeOp::ArcTangent => "arc_tangent"@,
            CompositeOp::GeometricMean => "geometric_mean"@,
            CompositeOp::AdditiveSubtractive => "additive_subtractive"@,
            CompositeOp::Negation => "negation"@,
            CompositeOp::Modulo => "modulo"@,
            CompositeOp::ModuloContinuous => "modulo_continuous"@,
            CompositeOp::DivisiveModulo => "divisive_modulo"@,
            CompositeOp::DivisiveModuloContinuous => "divisive_modulo_continuous"@,
            CompositeOp::ModuloShift => "modulo_shift"@,
            CompositeOp::ModuloShiftContinuous => "modulo_shift_continuous"@,
            CompositeOp::Equivalence => "equivalence"@,
            CompositeOp::Allanon => "allanon"@,
            CompositeOp::Parallel => "parallel"@,
            CompositeOp::GrainMerge => "grain_merge"@,
            CompositeOp::GrainExtract => "grain_extract"@,
            CompositeOp::Exclusion => "exclusion"@,
            CompositeOp::HardMix => "hard mix"@,
            CompositeOp::HardMixPhotoshop => "hard_mix_photoshop"@,
            CompositeOp::HardMixSofterPhotoshop => "hard_mix_softer_photoshop"@,
            CompositeOp::Overlay => "overlay"@,
            CompositeOp::Behind => "behind"@,
            CompositeOp::Greater => "greater"@,
            CompositeOp::HardOverlay => "hard overlay"@,
            CompositeOp::Interpolation => "interpolation"@,
            CompositeOp::Interpolation2X => "interpolation 2x"@,
            CompositeOp::PenumbraA => "penumbra a"@,
            CompositeOp::PenumbraB => "penumbra b"@,
            CompositeOp::PenumbraC => "penumbra c"@,
            CompositeOp::PenumbraD => "penumbra d"@,
            CompositeOp::Darken => "darken"@,
            CompositeOp::Burn => "burn"@,
            CompositeOp::LinearBurn => "linear_burn"@,
            CompositeOp::GammaDark => "gamma_dark"@,
            CompositeOp::ShadeIfsIllusions => "shade_ifs_illusions"@,
            CompositeOp::FogDarkenIfsIllusions => "fog_darken_ifs_illusions"@,
            CompositeOp::EasyBurn => "easy burn"@,
            CompositeOp::Lighten => "lighten"@,
            CompositeOp::Dodge => "dodge"@,
            CompositeOp::LinearDodge => "linear_dodge"@,
            CompositeOp::Screen => "screen"@,
            CompositeOp::HardLight => "hard_light"@,
            CompositeOp::SoftLightIfsIllusions => "soft_light_ifs_illusions"@,
            CompositeOp::SoftLightPegtopDelphi => "soft_light_pegtop_delphi"@,
            CompositeOp::SoftLight => "soft_light"@,
            CompositeOp::SoftLightSvg => "soft_light_svg"@,
            CompositeOp::GammaLight => "gamma_light"@,
            CompositeOp::GammaIllumination => "gamma_illumination"@,
            CompositeOp::VividLight => "vivid_light"@,
            CompositeOp::FlatLight => "flat_light"@,
            CompositeOp::LinearLight => "linear light"@,
            CompositeOp::PinLight => "pin_light"@,
            CompositeOp::PnormA => "pnorm_a"@,
            CompositeOp::PnormB => "pnorm_b"@,
            CompositeOp::SuperLight => "super_light"@,
            CompositeOp::TintIfsIllusions => "tint_ifs_illusions"@,
            CompositeOp::FogLightenIfsIllusions => "fog_lighten_ifs_illusions"@,
            CompositeOp::EasyDodge => "easy dodge"@,
            CompositeOp::LuminositySai => "luminosity_sai"@,
            CompositeOp::Hue => "hue"@,
            CompositeOp::Color => "color"@,
            CompositeOp::Saturation => "saturation"@,
            CompositeOp::IncSaturation => "inc_saturation"@,
            CompositeOp::DecSaturation => "dec_saturation"@,
            CompositeOp::Luminize => "luminize"@,
            CompositeOp::IncLuminosity => "inc_luminosity"@,
            CompositeOp::DecLuminosity => "dec_luminosity"@,
            CompositeOp::HueHsv => "hue_hsv"@,
            CompositeOp::ColorHsv => "color_hsv"@,
            CompositeOp::SaturationHsv => "saturation_hsv"@,
            CompositeOp::IncSaturationHsv => "inc_saturation_hsv"@,
            CompositeOp::DecSaturationHsv => "dec_saturation_hsv"@,
            CompositeOp::Value => "value"@,
            CompositeOp::IncValue => "inc_value"@,
            CompositeOp::DecValue => "dec_value"@,
            CompositeOp::HueHsl => "hue_hsl"@,
            CompositeOp::ColorHsl => "color_hsl"@,
            CompositeOp::SaturationHsl => "saturation_hsl"@,
            CompositeOp::IncSaturationHsl => "inc_saturation_hsl"@,
            CompositeOp::DecSaturationHsl => "dec_saturation_hsl"@,
            CompositeOp::Lightness => "lightness"@,
            CompositeOp::IncLightness => "inc_lightness"@,
            CompositeOp::DecLightness => "dec_lightness"@,
            CompositeOp::HueHsi => "hue_hsi"@,
            CompositeOp::ColorHsi => "color_hsi"@,
            CompositeOp::SaturationHsi => "saturation_hsi"@,
            CompositeOp::IncSaturationHsi => "inc_saturation_hsi"@,
            CompositeOp::DecSaturationHsi => "dec_saturation_hsi"@,
            CompositeOp::Intensity => "intensity"@,
            CompositeOp::IncIntensity => "inc_intensity"@,
            CompositeOp::DecIntensity => "dec_intensity"@,
            CompositeOp::Copy => "copy"@,
            CompositeOp::CopyRed => "copy_red"@,
            CompositeOp::CopyGreen => "copy_green"@,
            CompositeOp::CopyBlue => "copy_blue"@,
            CompositeOp::TangentNormalmap => "tangent_normalmap"@,
            CompositeOp::Colorize => "colorize"@,
            CompositeOp::Bumpmap => "bumpmap"@,
            CompositeOp::CombineNormal => "combine_normal"@,
            CompositeOp::Clear => "clear"@,
            CompositeOp::Dissolve => "dissolve"@,
            CompositeOp::Displace => "displace"@,
            CompositeOp::Nocomposition => "nocomposition"@,
            CompositeOp::PassThrough => "pass through"@,
            CompositeOp::DarkerColor => "darker color"@,
            CompositeOp::LighterColor => "lighter color"@,
            CompositeOp::Undefined => "undefined"@,
            CompositeOp::Reflect => "reflect"@,
            CompositeOp::Glow => "glow"@,
            CompositeOp::Freeze => "freeze"@,
            CompositeOp::Heat => "heat"@,
            CompositeOp::GlowHeat => "glow_heat"@,
            CompositeOp::HeatGlow => "heat_glow"@,
            CompositeOp::ReflectFreeze => "reflect_freeze"@,
            CompositeOp::FreezeReflect => "freeze_reflect"@,
            CompositeOp::HeatGlowFreezeReflectHybrid => "heat_glow_freeze_reflect_hybrid"@,
            CompositeOp::LambertLighting => "lambert_lighting"@,
            CompositeOp::LambertLightingGamma22 => "lambert_lighting_gamma2.2"@,
        }
    }

    /// The name that the documents give the operation.
    pub fn key(self) -> (name: &'static str)
        ensures
            name@ == self.spec_key(),
    {
        match self {
            CompositeOp::Normal => "normal",
            CompositeOp::Erase => "erase",
            CompositeOp::In => "in",
            CompositeOp::Out => "out",
            CompositeOp::AlphaDarken => "alphadarken",
            CompositeOp::DestinationIn => "destination-in",
            CompositeOp::DestinationAtop => "destination-atop",
            CompositeOp::Xor => "xor",
            CompositeOp::Or => "or",
            CompositeOp::And => "and",
            CompositeOp::Nand => "nand",
            CompositeOp::Nor => "nor",
            CompositeOp::Xnor => "xnor",
            CompositeOp::Implication => "implication",
            CompositeOp::NotImplication => "not_implication",
            CompositeOp::Converse => "converse",
            CompositeOp::NotConverse => "not_converse",
            CompositeOp::Plus => "plus",
            CompositeOp::Minus => "minus",
            CompositeOp::Add => "add",
            CompositeOp::Subtract => "subtract",
            CompositeOp::InverseSubtract => "inverse_subtract",
            CompositeOp::Diff => "diff",
            CompositeOp::Multiply => "multiply",
            CompositeOp::Divide => "divide",
            CompositeOp::ArcTangent => "arc_tangent",
            CompositeOp::GeometricMean => "geometric_mean",
            CompositeOp::AdditiveSubtractive => "additive_subtractive",
            CompositeOp::Negation => "negation",
            CompositeOp::Modulo => "modulo",
            CompositeOp::ModuloContinuous => "modulo_continuous",
            CompositeOp::DivisiveModulo => "divisive_modulo",
            CompositeOp::DivisiveModuloContinuous => "divisive_modulo_continuous",
            CompositeOp::ModuloShift => "modulo_shift",
            CompositeOp::ModuloShiftContinuous => "modulo_shift_continuous",
            CompositeOp::Equivalence => "equivalence",
            CompositeOp::Allanon => "allanon",
            CompositeOp::Parallel => "parallel",
            CompositeOp::GrainMerge => "grain_merge",
            CompositeOp::GrainExtract => "grain_extract",
            CompositeOp::Exclusion => "exclusion",
            CompositeOp::HardMix => "hard mix",
            CompositeOp::HardMixPhotoshop => "hard_mix_photoshop",
            CompositeOp::HardMixSofterPhotoshop => "hard_mix_softer_photoshop",
            CompositeOp::Overlay => "overlay",
            CompositeOp::Behind => "behind",
            CompositeOp::Greater => "greater",
            CompositeOp::HardOverlay => "hard overlay",
            CompositeOp::Interpolation => "interpolation",
            CompositeOp::Interpolation2X => "interpolation 2x",
            CompositeOp::PenumbraA => "penumbra a",
            CompositeOp::PenumbraB => "penumbra b",
            CompositeOp::PenumbraC => "penumbra c",
            CompositeOp::PenumbraD => "penumbra d",
            CompositeOp::Darken => "darken",
            CompositeOp::Burn => "burn",
            CompositeOp::LinearBurn => "linear_burn",
            CompositeOp::GammaDark => "gamma_dark",
            CompositeOp::ShadeIfsIllusions => "shade_ifs_illusions",
            CompositeOp::FogDarkenIfsIllusions => "fog_darken_ifs_illusions",
            CompositeOp::EasyBurn => "easy burn",
            CompositeOp::Lighten => "lighten",
            CompositeOp::Dodge => "dodge",
            CompositeOp::LinearDodge => "linear_dodge",
            CompositeOp::Screen => "screen",
            CompositeOp::HardLight => "hard_light",
            CompositeOp::SoftLightIfsIllusions => "soft_light_ifs_illusions",
            CompositeOp::SoftLightPegtopDelphi => "soft_light_pegtop_delphi",
            CompositeOp::SoftLight => "soft_light",
            CompositeOp::SoftLightSvg => "soft_light_svg",
            CompositeOp::GammaLight => "gamma_light",
            CompositeOp::GammaIllumination => "gamma_illumination",
            CompositeOp::VividLight => "vivid_light",
            CompositeOp::FlatLight => "flat_light",
            CompositeOp::LinearLight => "linear light",
            CompositeOp::PinLight => "pin_light",
            CompositeOp::PnormA => "pnorm_a",
            CompositeOp::PnormB => "pnorm_b",
            CompositeOp::SuperLight => "super_light",
            CompositeOp::TintIfsIllusions => "tint_ifs_illusions",
            CompositeOp::FogLightenIfsIllusions => "fog_lighten_ifs_illusions",
            CompositeOp::EasyDodge => "easy dodge",
            CompositeOp::LuminositySai => "luminosity_sai",
            CompositeOp::Hue => "hue",
            CompositeOp::Color => "color",
            CompositeOp::Saturation => "saturation",
            CompositeOp::IncSaturation => "inc_saturation",
            CompositeOp::DecSaturation => "dec_saturation",
            CompositeOp::Luminize => "luminize",
            CompositeOp::IncLuminosity => "inc_luminosity",
            CompositeOp::DecLuminosity => "dec_luminosity",
            CompositeOp::HueHsv => "hue_hsv",
            CompositeOp::ColorHsv => "color_hsv",
            CompositeOp::SaturationHsv => "saturation_hsv",
            CompositeOp::IncSaturationHsv => "inc_saturation_hsv",
            CompositeOp::DecSaturationHsv => "dec_saturation_hsv",
            CompositeOp::Value => "value",
            CompositeOp::IncValue => "inc_value",
            CompositeOp::DecValue => "dec_value",
            CompositeOp::HueHsl => "hue_hsl",
            CompositeOp::ColorHsl => "color_hsl",
            CompositeOp::SaturationHsl => "saturation_hsl",
            CompositeOp::IncSaturationHsl => "inc_saturation_hsl",
            CompositeOp::DecSaturationHsl => "dec_saturation_hsl",
            CompositeOp::Lightness => "lightness",
            CompositeOp::IncLightness => "inc_lightness",
            CompositeOp::DecLightness => "dec_lightness",
            CompositeOp::HueHsi => "hue_hsi",
            CompositeOp::ColorHsi => "color_hsi",
            CompositeOp::SaturationHsi => "saturation_hsi",
            CompositeOp::IncSaturationHsi => "inc_saturation_hsi",
            CompositeOp::DecSaturationHsi => "dec_saturation_hsi",
            CompositeOp::Intensity => "intensity",
            CompositeOp::IncIntensity => "inc_intensity",
            CompositeOp::DecIntensity => "dec_intensity",
            CompositeOp::Copy => "copy",
            CompositeOp::CopyRed => "copy_red",
            CompositeOp::CopyGreen => "copy_green",
            CompositeOp::CopyBlue => "copy_blue",
            CompositeOp::TangentNormalmap => "tangent_normalmap",
            CompositeOp::Colorize => "colorize",
            CompositeOp::Bumpmap => "bumpmap",
            CompositeOp::CombineNormal => "combine_normal",
            CompositeOp::Clear => "clear",
            CompositeOp::Dissolve => "dissolve",
            CompositeOp::Displace => "displace",
            CompositeOp::Nocomposition => "nocomposition",
            CompositeOp::PassThrough => "pass through",
            CompositeOp::DarkerColor => "darker color",
            CompositeOp::LighterColor => "lighter color",
            CompositeOp::Undefined => "undefined",
            CompositeOp::Reflect => "reflect",
            CompositeOp::Glow => "glow",
            CompositeOp::Freeze => "freeze",
            CompositeOp::Heat => "heat",
            CompositeOp::GlowHeat => "glow_heat",
            CompositeOp::HeatGlow => "heat_glow",
            CompositeOp::ReflectFreeze => "reflect_freeze",
            CompositeOp::FreezeReflect => "freeze_reflect",
            CompositeOp::HeatGlowFreezeReflectHybrid => "heat_glow_freeze_reflect_hybrid",
            CompositeOp::LambertLighting => "lambert_lighting",
            CompositeOp::LambertLightingGamma22 => "lambert_lighting_gamma2.2",
        }
    }

    /// Reads an operation from its name. Any other text is refused, and
    /// given back in the error.
    pub fn from_str(s: &str) -> (r: Result<CompositeOp, UnknownCompositeOp>)
        ensures
            match r {
                Ok(op) => composite_op_named(s@) == Some(op),
                Err(e) => composite_op_named(s@).is_none() && e.0@ == s@,
            },
    {
        if str_eq(s, "normal") {
            return Ok(CompositeOp::Normal);
        }
        if str_eq(s, "erase") {
            return Ok(CompositeOp::Erase);
        }
        if str_eq(s, "in") {
            return Ok(CompositeOp::In);
        }
        if str_eq(s, "out") {
            return Ok(CompositeOp::Out);
        }
        if str_eq(s, "alphadarken") {
            return Ok(CompositeOp::AlphaDarken);
        }
        if str_eq(s, "destination-in") {
            return Ok(CompositeOp::DestinationIn);
        }
        if str_eq(s, "destination-atop") {
            return Ok(CompositeOp::DestinationAtop);
        }
        if str_eq(s, "xor") {
            return Ok(CompositeOp::Xor);
        }
        if str_eq(s, "or") {
            return Ok(CompositeOp::Or);
        }
        if str_eq(s, "and") {
            return Ok(CompositeOp::And);
        }
        if str_eq(s, "nand") {
            return Ok(CompositeOp::Nand);
        }
        if str_eq(s, "nor") {
            return Ok(CompositeOp::Nor);
        }
        if str_eq(s, "xnor") {
            return Ok(CompositeOp::Xnor);
        }
        if str_eq(s, "implication") {
            return Ok(CompositeOp::Implication);
        }
        if str_eq(s, "not_implication") {
            return Ok(CompositeOp::NotImplication);
        }
        if str_eq(s, "converse") {
            return Ok(CompositeOp::Converse);
        }
        if str_eq(s, "not_converse") {
            return Ok(CompositeOp::NotConverse);
        }
        if str_eq(s, "plus") {
            return Ok(CompositeOp::Plus);
        }
        if str_eq(s, "minus") {
            return Ok(CompositeOp::Minus);
        }
        if str_eq(s, "add") {
            return Ok(CompositeOp::Add);
        }
        if str_eq(s, "subtract") {
            return Ok(CompositeOp::Subtract);
        }
        if str_eq(s, "inverse_subtract") {
            return Ok(CompositeOp::InverseSubtract);
        }
        if str_eq(s, "diff") {
            return Ok(CompositeOp::Diff);
        }
        if str_eq(s, "multiply") {
            return Ok(CompositeOp::Multiply);
        }
        if str_eq(s, "divide") {
            return Ok(CompositeOp::Divide);
        }
        if str_eq(s, "arc_tangent") {
            return Ok(CompositeOp::ArcTangent);
        }
        if str_eq(s, "geometric_mean") {
            return Ok(CompositeOp::GeometricMean);
        }
        if str_eq(s, "additive_subtractive") {
            return Ok(CompositeOp::AdditiveSubtractive);
        }
        if str_eq(s, "negation") {
            return Ok(CompositeOp::Negation);
        }
        if str_eq(s, "modulo") {
            return Ok(CompositeOp::Modulo);
        }
        if str_eq(s, "modulo_continuous") {
            return Ok(CompositeOp::ModuloContinuous);
        }
        if str_eq(s, "divisive_modulo") {
            return Ok(CompositeOp::DivisiveModulo);
        }
        if str_eq(s, "divisive_modulo_continuous") {
            return Ok(CompositeOp::DivisiveModuloContinuous);
        }
        if str_eq(s, "modulo_shift") {
            return Ok(CompositeOp::ModuloShift);
        }
        if str_eq(s, "modulo_shift_continuous") {
            return Ok(CompositeOp::ModuloShiftContinuous);
        }
        if str_eq(s, "equivalence") {
            return Ok(CompositeOp::Equivalence);
        }
        if str_eq(s, "allanon") {
            return Ok(CompositeOp::Allanon);
        }
        if str_eq(s, "parallel") {
            return Ok(CompositeOp::Parallel);
        }
        if str_eq(s, "grain_merge") {
            return Ok(CompositeOp::GrainMerge);
        }
        if str_eq(s, "grain_extract") {
            return Ok(CompositeOp::GrainExtract);
        }
        if str_eq(s, "exclusion") {
            return Ok(CompositeOp::Exclusion);
        }
        if str_eq(s, "hard mix") {
            return Ok(CompositeOp::HardMix);
        }
        if str_eq(s, "hard_mix_photoshop") {
            return Ok(CompositeOp::HardMixPhotoshop);
        }
        if str_eq(s, "hard_mix_softer_photoshop") {
            return Ok(CompositeOp::HardMixSofterPhotoshop);
        }
        if str_eq(s, "overlay") {
            return Ok(CompositeOp::Overlay);
        }
        if str_eq(s, "behind") {
            return Ok(CompositeOp::Behind);
        }
        if str_eq(s, "greater") {
            return Ok(CompositeOp::Greater);
        }
        if str_eq(s, "hard overlay") {
            return Ok(CompositeOp::HardOverlay);
        }
        if str_eq(s, "interpolation") {
            return Ok(CompositeOp::Interpolation);
        }
        if str_eq(s, "interpolation 2x") {
            return Ok(CompositeOp::Interpolation2X);
        }
        if str_eq(s, "penumbra a") {
            return Ok(CompositeOp::PenumbraA);
        }
        if str_eq(s, "penumbra b") {
            return Ok(CompositeOp::PenumbraB);
        }
        if str_eq(s, "penumbra c") {
            return Ok(CompositeOp::PenumbraC);
        }
        if str_eq(s, "penumbra d") {
            return Ok(CompositeOp::PenumbraD);
        }
        if str_eq(s, "darken") {
            return Ok(CompositeOp::Darken);
        }
        if str_eq(s, "burn") {
            return Ok(CompositeOp::Burn);
        }
        if str_eq(s, "linear_burn") {
            return Ok(CompositeOp::LinearBurn);
        }
        if str_eq(s, "gamma_dark") {
            return Ok(CompositeOp::GammaDark);
        }
        if str_eq(s, "shade_ifs_illusions") {
            return Ok(CompositeOp::ShadeIfsIllusions);
        }
        if str_eq(s, "fog_darken_ifs_illusions") {
            return Ok(CompositeOp::FogDarkenIfsIllusions);
        }
        if str_eq(s, "easy burn") {
            return Ok(CompositeOp::EasyBurn);
        }
        if str_eq(s, "lighten") {
            return Ok(CompositeOp::Lighten);
        }
        if str_eq(s, "dodge") {
            return Ok(CompositeOp::Dodge);
        }
        if str_eq(s, "linear_dodge") {
            return Ok(CompositeOp::LinearDodge);
        }
        if str_eq(s, "screen") {
            return Ok(CompositeOp::Screen);
        }
        if str_eq(s, "hard_light") {
            return Ok(CompositeOp::HardLight);
        }
        if str_eq(s, "soft_light_ifs_illusions") {
            return Ok(CompositeOp::SoftLightIfsIllusions);
        }
        if str_eq(s, "soft_light_pegtop_delphi") {
            return Ok(CompositeOp::SoftLightPegtopDelphi);
        }
        if str_eq(s, "soft_light") {
            return Ok(CompositeOp::SoftLight);
        }
        if str_eq(s, "soft_light_svg") {
            return Ok(CompositeOp::SoftLightSvg);
        }
        if str_eq(s, "gamma_light") {
            return Ok(CompositeOp::GammaLight);
        }
        if str_eq(s, "gamma_illumination") {
            return Ok(CompositeOp::GammaIllumination);
        }
        if str_eq(s, "vivid_light") {
            return Ok(CompositeOp::VividLight);
        }
        if str_eq(s, "flat_light") {
            return Ok(CompositeOp::FlatLight);
        }
        if str_eq(s, "linear light") {
            return Ok(CompositeOp::LinearLight);
        }
        if str_eq(s, "pin_light") {
            return Ok(CompositeOp::PinLight);
        }
        if str_eq(s, "pnorm_a") {
            return Ok(CompositeOp::PnormA);
        }
        if str_eq(s, "pnorm_b") {
            return Ok(CompositeOp::PnormB);
        }
        if str_eq(s, "super_light") {
            return Ok(CompositeOp::SuperLight);
        }
        if str_eq(s, "tint_ifs_illusions") {
            return Ok(CompositeOp::TintIfsIllusions);
        }
        if str_eq(s, "fog_lighten_ifs_illusions") {
            return Ok(CompositeOp::FogLightenIfsIllusions);
        }
        if str_eq(s, "easy dodge") {
            return Ok(CompositeOp::EasyDodge);
        }
        if str_eq(s, "luminosity_sai") {
            return Ok(CompositeOp::LuminositySai);
        }
        if str_eq(s, "hue") {
            return Ok(CompositeOp::Hue);
        }
        if str_eq(s, "color") {
            return Ok(CompositeOp::Color);
        }
        if str_eq(s, "saturation") {
            return Ok(CompositeOp::Saturation);
        }
        if str_eq(s, "inc_saturation") {
            return Ok(CompositeOp::IncSaturation);
        }
        if str_eq(s, "dec_saturation") {
            return Ok(CompositeOp::DecSaturation);
        }
        if str_eq(s, "luminize") {
            return Ok(CompositeOp::Luminize);
        }
        if str_eq(s, "inc_luminosity") {
            return Ok(CompositeOp::IncLuminosity);
        }
        if str_eq(s, "dec_luminosity") {
            return Ok(CompositeOp::DecLuminosity);
        }
        if str_eq(s, "hue_hsv") {
            return Ok(CompositeOp::HueHsv);
        }
        if str_eq(s, "color_hsv") {
            return Ok(CompositeOp::ColorHsv);
        }
        if str_eq(s, "saturation_hsv") {
            return Ok(CompositeOp::SaturationHsv);
        }
        if str_eq(s, "inc_saturation_hsv") {
            return Ok(CompositeOp::IncSaturationHsv);
        }
        if str_eq(s, "dec_saturation_hsv") {
            return Ok(CompositeOp::DecSaturationHsv);
        }
        if str_eq(s, "value") {
            return Ok(CompositeOp::Value);
        }
        if str_eq(s, "inc_value") {
            return Ok(CompositeOp::IncValue);
        }
        if str_eq(s, "dec_value") {
            return Ok(CompositeOp::DecValue);
        }
        if str_eq(s, "hue_hsl") {
            return Ok(CompositeOp::HueHsl);
        }
        if str_eq(s, "color_hsl") {
            return Ok(CompositeOp::ColorHsl);
        }
        if str_eq(s, "saturation_hsl") {
            return Ok(CompositeOp::SaturationHsl);
        }
        if str_eq(s, "inc_saturation_hsl") {
            return Ok(CompositeOp::IncSaturationHsl);
        }
        if str_eq(s, "dec_saturation_hsl") {
            return Ok(CompositeOp::DecSaturationHsl);
        }
        if str_eq(s, "lightness") {
            return Ok(CompositeOp::Lightness);
        }
        if str_eq(s, "inc_lightness") {
            return Ok(CompositeOp::IncLightness);
        }
        if str_eq(s, "dec_lightness") {
            return Ok(CompositeOp::DecLightness);
        }
        if str_eq(s, "hue_hsi") {
            return Ok(CompositeOp::HueHsi);
        }
        if str_eq(s, "color_hsi") {
            return Ok(CompositeOp::ColorHsi);
        }
        if str_eq(s, "saturation_hsi") {
            return Ok(CompositeOp::SaturationHsi);
        }
        if str_eq(s, "inc_saturation_hsi") {
            return Ok(CompositeOp::IncSaturationHsi);
        }
        if str_eq(s, "dec_saturation_hsi") {
            return Ok(CompositeOp::DecSaturationHsi);
        }
        if str_eq(s, "intensity") {
            return Ok(CompositeOp::Intensity);
        }
        if str_eq(s, "inc_intensity") {
            return Ok(CompositeOp::IncIntensity);
        }
        if str_eq(s, "dec_intensity") {
            return Ok(CompositeOp::DecIntensity);
        }
        if str_eq(s, "copy") {
            return Ok(CompositeOp::Copy);
        }
        if str_eq(s, "copy_red") {
            return Ok(CompositeOp::CopyRed);
        }
        if str_eq(s, "copy_green") {
            return Ok(CompositeOp::CopyGreen);
        }
        if str_eq(s, "copy_blue") {
            return Ok(CompositeOp::CopyBlue);
        }
        if str_eq(s, "tangent_normalmap") {
            return Ok(CompositeOp::TangentNormalmap);
        }
        if str_eq(s, "colorize") {
            return Ok(CompositeOp::Colorize);
        }
        if str_eq(s, "bumpmap") {
            return Ok(CompositeOp::Bumpmap);
        }
        if str_eq(s, "combine_normal") {
            return Ok(CompositeOp::CombineNormal);
        }
        if str_eq(s, "clear") {
            return Ok(CompositeOp::Clear);
        }
        if str_eq(s, "dissolve") {
            return Ok(CompositeOp::Dissolve);
        }
        if str_eq(s, "displace") {
            return Ok(CompositeOp::Displace);
        }
        if str_eq(s, "nocomposition") {
            return Ok(CompositeOp::Nocomposition);
        }
        if str_eq(s, "pass through") {
            return Ok(CompositeOp::PassThrough);
        }
        if str_eq(s, "darker color") {
            return Ok(CompositeOp::DarkerColor);
        }
        if str_eq(s, "lighter color") {
            return Ok(CompositeOp::LighterColor);
        }
        if str_eq(s, "undefined") {
            return Ok(CompositeOp::Undefined);
        }
        if str_eq(s, "reflect") {
            return Ok(CompositeOp::Reflect);
        }
        if str_eq(s, "glow") {
            return Ok(CompositeOp::Glow);
        }
        if str_eq(s, "freeze") {
            return Ok(CompositeOp::Freeze);
        }
        if str_eq(s, "heat") {
            return Ok(CompositeOp::Heat);
        }
        if str_eq(s, "glow_heat") {
            return Ok(CompositeOp::GlowHeat);
        }
        if str_eq(s, "heat_glow") {
            return Ok(CompositeOp::HeatGlow);
        }
        if str_eq(s, "reflect_freeze") {
            return Ok(CompositeOp::ReflectFreeze);
        }
        if str_eq(s, "freeze_reflect") {
            return Ok(CompositeOp::FreezeReflect);
        }
        if str_eq(s, "heat_glow_freeze_reflect_hybrid") {
            return Ok(CompositeOp::HeatGlowFreezeReflectHybrid);
        }
        if str_eq(s, "lambert_lighting") {
            return Ok(CompositeOp::LambertLighting);
        }
        if str_eq(s, "lambert_lighting_gamma2.2") {
            return Ok(CompositeOp::LambertLightingGamma22);
        }
        Err(UnknownCompositeOp(s.to_owned()))
    }
}

/// The operation that a name stands for.
pub open spec fn composite_op_named(name: Seq<char>) -> Option<CompositeOp> {
    if name == "normal"@ {
        Some(CompositeOp::Normal)
    } else if name == "erase"@ {
        Some(CompositeOp::Erase)
    } else if name == "in"@ {
        Some(CompositeOp::In)
    } else if name == "out"@ {
        Some(CompositeOp::Out)
    } else if name == "alphadarken"@ {
        Some(CompositeOp::AlphaDarken)
    } else if name == "destination-in"@ {
        Some(CompositeOp::DestinationIn)
    } else if name == "destination-atop"@ {
        Some(CompositeOp::DestinationAtop)
    } else if name == "xor"@ {
        Some(CompositeOp::Xor)
    } else if name == "or"@ {
        Some(CompositeOp::Or)
    } else if name == "and"@ {
        Some(CompositeOp::And)
    } else if name == "nand"@ {
        Some(CompositeOp::Nand)
    } else if name == "nor"@ {
        Some(CompositeOp::Nor)
    } else if name == "xnor"@ {
        Some(CompositeOp::Xnor)
    } else if name == "implication"@ {
        Some(CompositeOp::Implication)
    } else if name == "not_implication"@ {
        Some(CompositeOp::NotImplication)
    } else if name == "converse"@ {
        Some(CompositeOp::Converse)
    } else if name == "not_converse"@ {
        Some(CompositeOp::NotConverse)
    } else if name == "plus"@ {
        Some(CompositeOp::Plus)
    } else if name == "minus"@ {
        Some(CompositeOp::Minus)
    } else if name == "add"@ {
        Some(CompositeOp::Add)
    } else if name == "subtract"@ {
        Some(CompositeOp::Subtract)
    } else if name == "inverse_subtract"@ {
        Some(CompositeOp::InverseSubtract)
    } else if name == "diff"@ {
        Some(CompositeOp::Diff)
    } else if name == "multiply"@ {
        Some(CompositeOp::Multiply)
    } else if name == "divide"@ {
        Some(CompositeOp::Divide)
    } else if name == "arc_tangent"@ {
        Some(CompositeOp::ArcTangent)
    } else if name == "geometric_mean"@ {
        Some(CompositeOp::GeometricMean)
    } else if name == "additive_subtractive"@ {
        Some(CompositeOp::AdditiveSubtractive)
    } else if name == "negation"@ {
        Some(CompositeOp::Negation)
    } else if name == "modulo"@ {
        Some(CompositeOp::Modulo)
    } else if name == "modulo_continuous"@ {
        Some(CompositeOp::ModuloContinuous)
    } else if name == "divisive_modulo"@ {
        Some(CompositeOp::DivisiveModulo)
    } else if name == "divisive_modulo_continuous"@ {
        Some(CompositeOp::DivisiveModuloContinuous)
    } else if name == "modulo_shift"@ {
        Some(CompositeOp::ModuloShift)
    } else if name == "modulo_shift_continuous"@ {
        Some(CompositeOp::ModuloShiftContinuous)
    } else if name == "equivalence"@ {
        Some(CompositeOp::Equivalence)
    } else if name == "allanon"@ {
        Some(CompositeOp::Allanon)
    } else if name == "parallel"@ {
        Some(CompositeOp::Parallel)
    } else if name == "grain_merge"@ {
        Some(CompositeOp::GrainMerge)
    } else if name == "grain_extract"@ {
        Some(CompositeOp::GrainExtract)
    } else if name == "exclusion"@ {
        Some(CompositeOp::Exclusion)
    } else if name == "hard mix"@ {
        Some(CompositeOp::HardMix)
    } else if name == "hard_mix_photoshop"@ {
        Some(CompositeOp::HardMixPhotoshop)
    } else if name == "hard_mix_softer_photoshop"@ {
        Some(CompositeOp::HardMixSofterPhotoshop)
    } else if name == "overlay"@ {
        Some(CompositeOp::Overlay)
    } else if name == "behind"@ {
        Some(CompositeOp::Behind)
    } else if name == "greater"@ {
        Some(CompositeOp::Greater)
    } else if name == "hard overlay"@ {
        Some(CompositeOp::HardOverlay)
    } else if name == "interpolation"@ {
        Some(CompositeOp::Interpolation)
    } else if name == "interpolation 2x"@ {
        Some(CompositeOp::Interpolation2X)
    } else if name == "penumbra a"@ {
        Some(CompositeOp::PenumbraA)
    } else if name == "penumbra b"@ {
        Some(CompositeOp::PenumbraB)
    } else if name == "penumbra c"@ {
        Some(CompositeOp::PenumbraC)
    } else if name == "penumbra d"@ {
        Some(CompositeOp::PenumbraD)
    } else if name == "darken"@ {
        Some(CompositeOp::Darken)
    } else if name == "burn"@ {
        Some(CompositeOp::Burn)
    } else if name == "linear_burn"@ {
        Some(CompositeOp::LinearBurn)
    } else if name == "gamma_dark"@ {
        Some(CompositeOp::GammaDark)
    } else if name == "shade_ifs_illusions"@ {
        Some(CompositeOp::ShadeIfsIllusions)
    } else if name == "fog_darken_ifs_illusions"@ {
        Some(CompositeOp::FogDarkenIfsIllusions)
    } else if name == "easy burn"@ {
        Some(CompositeOp::EasyBurn)
    } else if name == "lighten"@ {
        Some(CompositeOp::Lighten)
    } else if name == "dodge"@ {
        Some(CompositeOp::Dodge)
    } else if name == "linear_dodge"@ {
        Some(CompositeOp::LinearDodge)
    } else if name == "screen"@ {
        Some(CompositeOp::Screen)
    } else if name == "hard_light"@ {
        Some(CompositeOp::HardLight)
    } else if name == "soft_light_ifs_illusions"@ {
        Some(CompositeOp::SoftLightIfsIllusions)
    } else if name == "soft_light_pegtop_delphi"@ {
        Some(CompositeOp::SoftLightPegtopDelphi)
    } else if name == "soft_light"@ {
        Some(CompositeOp::SoftLight)
    } else if name == "soft_light_svg"@ {
        Some(CompositeOp::SoftLightSvg)
    } else if name == "gamma_light"@ {
        Some(CompositeOp::GammaLight)
    } else if name == "gamma_illumination"@ {
        Some(CompositeOp::GammaIllumination)
    } else if name == "vivid_light"@ {
        Some(CompositeOp::VividLight)
    } else if name == "flat_light"@ {
        Some(CompositeOp::FlatLight)
    } else if name == "linear light"@ {
        Some(CompositeOp::LinearLight)
    } else if name == "pin_light"@ {
        Some(CompositeOp::PinLight)
    } else if name == "pnorm_a"@ {
        Some(CompositeOp::PnormA)
    } else if name == "pnorm_b"@ {
        Some(CompositeOp::PnormB)
    } else if name == "super_light"@ {
        Some(CompositeOp::SuperLight)
    } else if name == "tint_ifs_illusions"@ {
        Some(CompositeOp::TintIfsIllusions)
    } else if name == "fog_lighten_ifs_illusions"@ {
        Some(CompositeOp::FogLightenIfsIllusions)
    } else if name == "easy dodge"@ {
        Some(CompositeOp::EasyDodge)
    } else if name == "luminosity_sai"@ {
        Some(CompositeOp::LuminositySai)
    } else if name == "hue"@ {
        Some(CompositeOp::Hue)
    } else if name == "color"@ {
        Some(CompositeOp::Color)
    } else if name == "saturation"@ {
        Some(CompositeOp::Saturation)
    } else if name == "inc_saturation"@ {
        Some(CompositeOp::IncSaturation)
    } else if name == "dec_saturation"@ {
        Some(CompositeOp::DecSaturation)
    } else if name == "luminize"@ {
        Some(CompositeOp::Luminize)
    } else if name == "inc_luminosity"@ {
        Some(CompositeOp::IncLuminosity)
    } else if name == "dec_luminosity"@ {
        Some(CompositeOp::DecLuminosity)
    } else if name == "hue_hsv"@ {
        Some(CompositeOp::HueHsv)
    } else if name == "color_hsv"@ {
        Some(CompositeOp::ColorHsv)
    } else if name == "saturation_hsv"@ {
        Some(CompositeOp::SaturationHsv)
    } else if name == "inc_saturation_hsv"@ {
        Some(CompositeOp::IncSaturationHsv)
    } else if name == "dec_saturation_hsv"@ {
        Some(CompositeOp::DecSaturationHsv)
    } else if name == "value"@ {
        Some(CompositeOp::Value)
    } else if name == "inc_value"@ {
        Some(CompositeOp::IncValue)
    } else if name == "dec_value"@ {
        Some(CompositeOp::DecValue)
    } else if name == "hue_hsl"@ {
        Some(CompositeOp::HueHsl)
    } else if name == "color_hsl"@ {
        Some(CompositeOp::ColorHsl)
    } else if name == "saturation_hsl"@ {
        Some(CompositeOp::SaturationHsl)
    } else if name == "inc_saturation_hsl"@ {
        Some(CompositeOp::IncSaturationHsl)
    } else if name == "dec_saturation_hsl"@ {
        Some(CompositeOp::DecSaturationHsl)
    } else if name == "lightness"@ {
        Some(CompositeOp::Lightness)
    } else if name == "inc_lightness"@ {
        Some(CompositeOp::IncLightness)
    } else if name == "dec_lightness"@ {
        Some(CompositeOp::DecLightness)
    } else if name == "hue_hsi"@ {
        Some(CompositeOp::HueHsi)
    } else if name == "color_hsi"@ {
        Some(CompositeOp::ColorHsi)
    } else if name == "saturation_hsi"@ {
        Some(CompositeOp::SaturationHsi)
    } else if name == "inc_saturation_hsi"@ {
        Some(CompositeOp::IncSaturationHsi)
    } else if name == "dec_saturation_hsi"@ {
        Some(CompositeOp::DecSaturationHsi)
    } else if name == "intensity"@ {
        Some(CompositeOp::Intensity)
    } else if name == "inc_intensity"@ {
        Some(CompositeOp::IncIntensity)
    } else if name == "dec_intensity"@ {
        Some(CompositeOp::DecIntensity)
    } else if name == "copy"@ {
        Some(CompositeOp::Copy)
    } else if name == "copy_red"@ {
        Some(CompositeOp::CopyRed)
    } else if name == "copy_green"@ {
        Some(CompositeOp::CopyGreen)
    } else if name == "copy_blue"@ {
        Some(CompositeOp::CopyBlue)
    } else if name == "tangent_normalmap"@ {
        Some(CompositeOp::TangentNormalmap)
    } else if name == "colorize"@ {
        Some(CompositeOp::Colorize)
    } else if name == "bumpmap"@ {
        Some(CompositeOp::Bumpmap)
    } else if name == "combine_normal"@ {
        Some(CompositeOp::CombineNormal)
    } else if name == "clear"@ {
        Some(CompositeOp::Clear)
    } else if name == "dissolve"@ {
        Some(CompositeOp::Dissolve)
    } else if name == "displace"@ {
        Some(CompositeOp::Displace)
    } else if name == "nocomposition"@ {
        Some(CompositeOp::Nocomposition)
    } else if name == "pass through"@ {
        Some(CompositeOp::PassThrough)
    } else if name == "darker color"@ {
        Some(CompositeOp::DarkerColor)
    } else if name == "lighter color"@ {
        Some(CompositeOp::LighterColor)
    } else if name == "undefined"@ {
        Some(CompositeOp::Undefined)
    } else if name == "reflect"@ {
        Some(CompositeOp::Reflect)
    } else if name == "glow"@ {
        Some(CompositeOp::Glow)
    } else if name == "freeze"@ {
        Some(CompositeOp::Freeze)
    } else if name == "heat"@ {
        Some(CompositeOp::Heat)
    } else if name == "glow_heat"@ {
        Some(CompositeOp::GlowHeat)
    } else if name == "heat_glow"@ {
        Some(CompositeOp::HeatGlow)
    } else if name == "reflect_freeze"@ {
        Some(CompositeOp::ReflectFreeze)
    } else if name == "freeze_reflect"@ {
        Some(CompositeOp::FreezeReflect)
    } else if name == "heat_glow_freeze_reflect_hybrid"@ {
        Some(CompositeOp::HeatGlowFreezeReflectHybrid)
    } else if name == "lambert_lighting"@ {
        Some(CompositeOp::LambertLighting)
    } else if name == "lambert_lighting_gamma2.2"@ {
        Some(CompositeOp::LambertLightingGamma22)
    } else {
        None
    }
}

/// Every name of the table reads as the operation it belongs to.
pub proof fn lemma_key_reads_back(op: CompositeOp)
    ensures
        composite_op_named(op.spec_key()) == Some(op),
{
    // The names differ in length, or in one of the characters named here.
    reveal_strlit("normal");
    assert("normal"@.len() == 6 && "normal"@[0] == 'n');
    reveal_strlit("erase");
    assert("erase"@.len() == 5 && "erase"@[0] == 'e');
    reveal_strlit("in");
    assert("in"@.len() == 2 && "in"@[0] == 'i');
    reveal_strlit("out");
    assert("out"@.len() == 3 && "out"@[0] == 'o');
    reveal_strlit("alphadarken");
    assert("alphadarken"@.len() == 11 && "alphadarken"@[1] == 'l');
    reveal_strlit("destination-in");
    assert("destination-in"@.len() == 14 && "destination-in"@[2] == 's');
    reveal_strlit("destination-atop");
    assert("destination-atop"@.len() == 16 && "destination-atop"@[0] == 'd');
    reveal_strlit("xor");
    assert("xor"@.len() == 3 && "xor"@[0] == 'x');
    reveal_strlit("or");
    assert("or"@.len() == 2 && "or"@[0] == 'o');
    reveal_strlit("and");
    assert("and"@.len() == 3 && "and"@[1] == 'n');
    reveal_strlit("nand");
    assert("nand"@.len() == 4 && "nand"@[0] == 'n');
    reveal_strlit("nor");
    assert("nor"@.len() == 3 && "nor"@[0] == 'n');
    reveal_strlit("xnor");
    assert("xnor"@.len() == 4 && "xnor"@[0] == 'x');
    reveal_strlit("implication");
    assert("implication"@.len() == 11 && "implication"@[0] == 'i');
    reveal_strlit("not_implication");
    assert("not_implication"@.len() == 15 && "not_implication"@[0] == 'n');
    reveal_strlit("converse");
    assert("converse"@.len() == 8 && "converse"@[2] == 'n');
    reveal_strlit("not_converse");
    assert("not_converse"@.len() == 12 && "not_converse"@[0] == 'n');
    reveal_strlit("plus");
    assert("plus"@.len() == 4 && "plus"@[0] == 'p');
    reveal_strlit("minus");
    assert("minus"@.len() == 5 && "minus"@[0] == 'm');
    reveal_strlit("add");
    assert("add"@.len() == 3 && "add"@[1] == 'd');
    reveal_strlit("subtract");
    assert("subtract"@.len() == 8 && "subtract"@[0] == 's');
    reveal_strlit("inverse_subtract");
    assert("inverse_subtract"@.len() == 16 && "inverse_subtract"@[2] == 'v');
    reveal_strlit("diff");
    assert("diff"@.len() == 4 && "diff"@[0] == 'd');
    reveal_strlit("multiply");
    assert("multiply"@.len() == 8 && "multiply"@[0] == 'm');
    reveal_strlit("divide");
    assert("divide"@.len() == 6 && "divide"@[1] == 'i');
    reveal_strlit("arc_tangent");
    assert("arc_tangent"@.len() == 11 && "arc_tangent"@[2] == 'c');
    reveal_strlit("geometric_mean");
    assert("geometric_mean"@.len() == 14 && "geometric_mean"@[0] == 'g');
    reveal_strlit("additive_subtractive");
    assert("additive_subtractive"@.len() == 20);
    reveal_strlit("negation");
    assert("negation"@.len() == 8 && "negation"@[0] == 'n');
    reveal_strlit("modulo");
    assert("modulo"@.len() == 6 && "modulo"@[0] == 'm');
    reveal_strlit("modulo_continuous");
    assert("modulo_continuous"@.len() == 17 && "modulo_continuous"@[0] == 'm');
    reveal_strlit("divisive_modulo");
    assert("divisive_modulo"@.len() == 15 && "divisive_modulo"@[0] == 'd');
    reveal_strlit("divisive_modulo_continuous");
    assert("divisive_modulo_continuous"@.len() == 26);
    reveal_strlit("modulo_shift");
    assert("modulo_shift"@.len() == 12 && "modulo_shift"@[0] == 'm');
    reveal_strlit("modulo_shift_continuous");
    assert("modulo_shift_continuous"@.len() == 23);
    reveal_strlit("equivalence");
    assert("equivalence"@.len() == 11 && "equivalence"@[0] == 'e');
    reveal_strlit("allanon");
    assert("allanon"@.len() == 7 && "allanon"@[0] == 'a');
    reveal_strlit("parallel");
    assert("parallel"@.len() == 8 && "parallel"@[0] == 'p');
    reveal_strlit("grain_merge");
    assert("grain_merge"@.len() == 11 && "grain_merge"@[2] == 'a');
    reveal_strlit("grain_extract");
    assert("grain_extract"@.len() == 13 && "grain_extract"@[0] == 'g');
    reveal_strlit("exclusion");
    assert("exclusion"@.len() == 9 && "exclusion"@[1] == 'x');
    reveal_strlit("hard mix");
    assert("hard mix"@.len() == 8 && "hard mix"@[0] == 'h');
    reveal_strlit("hard_mix_photoshop");
    assert("hard_mix_photoshop"@.len() == 18 && "hard_mix_photoshop"@[0] == 'h');
    reveal_strlit("hard_mix_softer_photoshop");
    assert("hard_mix_softer_photoshop"@.len() == 25 && "hard_mix_softer_photoshop"@[0] == 'h');
    reveal_strlit("overlay");
    assert("overlay"@.len() == 7 && "overlay"@[0] == 'o');
    reveal_strlit("behind");
    assert("behind"@.len() == 6 && "behind"@[0] == 'b');
    reveal_strlit("greater");
    assert("greater"@.len() == 7 && "greater"@[0] == 'g');
    reveal_strlit("hard overlay");
    assert("hard overlay"@.len() == 12 && "hard overlay"@[0] == 'h');
    reveal_strlit("interpolation");
    assert("interpolation"@.len() == 13 && "interpolation"@[2] == 't');
    reveal_strlit("interpolation 2x");
    assert("interpolation 2x"@.len() == 16 && "interpolation 2x"@[2] == 't');
    reveal_strlit("penumbra a");
    assert("penumbra a"@.len() == 10 && "penumbra a"@[9] == 'a');
    reveal_strlit("penumbra b");
    assert("penumbra b"@.len() == 10 && "penumbra b"@[9] == 'b');
    reveal_strlit("penumbra c");
    assert("penumbra c"@.len() == 10 && "penumbra c"@[9] == 'c');
    reveal_strlit("penumbra d");
    assert("penumbra d"@.len() == 10 && "penumbra d"@[9] == 'd');
    reveal_strlit("darken");
    assert("darken"@.len() == 6 && "darken"@[1] == 'a');
    reveal_strlit("burn");
    assert("burn"@.len() == 4 && "burn"@[0] == 'b');
    reveal_strlit("linear_burn");
    assert("linear_burn"@.len() == 11 && "linear_burn"@[0] == 'l');
    reveal_strlit("gamma_dark");
    assert("gamma_dark"@.len() == 10 && "gamma_dark"@[0] == 'g');
    reveal_strlit("shade_ifs_illusions");
    assert("shade_ifs_illusions"@.len() == 19);
    reveal_strlit("fog_darken_ifs_illusions");
    assert("fog_darken_ifs_illusions"@.len() == 24 && "fog_darken_ifs_illusions"@[0] == 'f');
    reveal_strlit("easy burn");
    assert("easy burn"@.len() == 9 && "easy burn"@[1] == 'a');
    reveal_strlit("lighten");
    assert("lighten"@.len() == 7 && "lighten"@[0] == 'l');
    reveal_strlit("dodge");
    assert("dodge"@.len() == 5 && "dodge"@[0] == 'd');
    reveal_strlit("linear_dodge");
    assert("linear_dodge"@.len() == 12 && "linear_dodge"@[7] == 'd');
    reveal_strlit("screen");
    assert("screen"@.len() == 6 && "screen"@[0] == 's');
    reveal_strlit("hard_light");
    assert("hard_light"@.len() == 10 && "hard_light"@[0] == 'h');
    reveal_strlit("soft_light_ifs_illusions");
    assert("soft_light_ifs_illusions"@.len() == 24
        && "soft_light_ifs_illusions"@[0] == 's'
        && "soft_light_ifs_illusions"@[11] == 'i'
    );
    reveal_strlit("soft_light_pegtop_delphi");
    assert("soft_light_pegtop_delphi"@.len() == 24 && "soft_light_pegtop_delphi"@[11] == 'p');
    reveal_strlit("soft_light");
    assert("soft_light"@.len() == 10 && "soft_light"@[2] == 'f');
    reveal_strlit("soft_light_svg");
    assert("soft_light_svg"@.len() == 14 && "soft_light_svg"@[4] == '_');
    reveal_strlit("gamma_light");
    assert("gamma_light"@.len() == 11 && "gamma_light"@[1] == 'a');
    reveal_strlit("gamma_illumination");
    assert("gamma_illumination"@.len() == 18 && "gamma_illumination"@[0] == 'g');
    reveal_strlit("vivid_light");
    assert("vivid_light"@.len() == 11 && "vivid_light"@[0] == 'v');
    reveal_strlit("flat_light");
    assert("flat_light"@.len() == 10 && "flat_light"@[0] == 'f');
    reveal_strlit("linear light");
    assert("linear light"@.len() == 12 && "linear light"@[7] == 'l');
    reveal_strlit("pin_light");
    assert("pin_light"@.len() == 9 && "pin_light"@[0] == 'p');
    reveal_strlit("pnorm_a");
    assert("pnorm_a"@.len() == 7 && "pnorm_a"@[6] == 'a');
    reveal_strlit("pnorm_b");
    assert("pnorm_b"@.len() == 7 && "pnorm_b"@[6] == 'b');
    reveal_strlit("super_light");
    assert("super_light"@.len() == 11 && "super_light"@[0] == 's');
    reveal_strlit("tint_ifs_illusions");
    assert("tint_ifs_illusions"@.len() == 18 && "tint_ifs_illusions"@[0] == 't');
    reveal_strlit("fog_lighten_ifs_illusions");
    assert("fog_lighten_ifs_illusions"@.len() == 25 && "fog_lighten_ifs_illusions"@[0] == 'f');
    reveal_strlit("easy dodge");
    assert("easy dodge"@.len() == 10 && "easy dodge"@[0] == 'e');
    reveal_strlit("luminosity_sai");
    assert("luminosity_sai"@.len() == 14 && "luminosity_sai"@[0] == 'l');
    reveal_strlit("hue");
    assert("hue"@.len() == 3 && "hue"@[0] == 'h');
    reveal_strlit("color");
    assert("color"@.len() == 5 && "color"@[3] == 'o');
    reveal_strlit("saturation");
    assert("saturation"@.len() == 10 && "saturation"@[2] == 't');
    reveal_strlit("inc_saturation");
    assert("inc_saturation"@.len() == 14
        && "inc_saturation"@[0] == 'i'
        && "inc_saturation"@[4] == 's'
    );
    reveal_strlit("dec_saturation");
    assert("dec_saturation"@.len() == 14
        && "dec_saturation"@[0] == 'd'
        && "dec_saturation"@[4] == 's'
    );
    reveal_strlit("luminize");
    assert("luminize"@.len() == 8 && "luminize"@[0] == 'l');
    reveal_strlit("inc_luminosity");
    assert("inc_luminosity"@.len() == 14
        && "inc_luminosity"@[0] == 'i'
        && "inc_luminosity"@[4] == 'l'
    );
    reveal_strlit("dec_luminosity");
    assert("dec_luminosity"@.len() == 14
        && "dec_luminosity"@[0] == 'd'
        && "dec_luminosity"@[4] == 'l'
    );
    reveal_strlit("hue_hsv");
    assert("hue_hsv"@.len() == 7 && "hue_hsv"@[6] == 'v');
    reveal_strlit("color_hsv");
    assert("color_hsv"@.len() == 9 && "color_hsv"@[8] == 'v');
    reveal_strlit("saturation_hsv");
    assert("saturation_hsv"@.len() == 14 && "saturation_hsv"@[13] == 'v');
    reveal_strlit("inc_saturation_hsv");
    assert("inc_saturation_hsv"@.len() == 18
        && "inc_saturation_hsv"@[0] == 'i'
        && "inc_saturation_hsv"@[17] == 'v'
    );
    reveal_strlit("dec_saturation_hsv");
    assert("dec_saturation_hsv"@.len() == 18
        && "dec_saturation_hsv"@[0] == 'd'
        && "dec_saturation_hsv"@[17] == 'v'
    );
    reveal_strlit("value");
    assert("value"@.len() == 5 && "value"@[0] == 'v');
    reveal_strlit("inc_value");
    assert("inc_value"@.len() == 9 && "inc_value"@[0] == 'i' && "inc_value"@[2] == 'c');
    reveal_strlit("dec_value");
    assert("dec_value"@.len() == 9 && "dec_value"@[0] == 'd');
    reveal_strlit("hue_hsl");
    assert("hue_hsl"@.len() == 7 && "hue_hsl"@[6] == 'l');
    reveal_strlit("color_hsl");
    assert("color_hsl"@.len() == 9 && "color_hsl"@[8] == 'l');
    reveal_strlit("saturation_hsl");
    assert("saturation_hsl"@.len() == 14
        && "saturation_hsl"@[0] == 's'
        && "saturation_hsl"@[13] == 'l'
    );
    reveal_strlit("inc_saturation_hsl");
    assert("inc_saturation_hsl"@.len() == 18
        && "inc_saturation_hsl"@[0] == 'i'
        && "inc_saturation_hsl"@[17] == 'l'
    );
    reveal_strlit("dec_saturation_hsl");
    assert("dec_saturation_hsl"@.len() == 18
        && "dec_saturation_hsl"@[0] == 'd'
        && "dec_saturation_hsl"@[17] == 'l'
    );
    reveal_strlit("lightness");
    assert("lightness"@.len() == 9 && "lightness"@[0] == 'l');
    reveal_strlit("inc_lightness");
    assert("inc_lightness"@.len() == 13
        && "inc_lightness"@[0] == 'i'
        && "inc_lightness"@[4] == 'l'
    );
    reveal_strlit("dec_lightness");
    assert("dec_lightness"@.len() == 13
        && "dec_lightness"@[0] == 'd'
        && "dec_lightness"@[4] == 'l'
    );
    reveal_strlit("hue_hsi");
    assert("hue_hsi"@.len() == 7 && "hue_hsi"@[6] == 'i');
    reveal_strlit("color_hsi");
    assert("color_hsi"@.len() == 9 && "color_hsi"@[8] == 'i');
    reveal_strlit("saturation_hsi");
    assert("saturation_hsi"@.len() == 14
        && "saturation_hsi"@[0] == 's'
        && "saturation_hsi"@[13] == 'i'
    );
    reveal_strlit("inc_saturation_hsi");
    assert("inc_saturation_hsi"@.len() == 18
        && "inc_saturation_hsi"@[0] == 'i'
        && "inc_saturation_hsi"@[17] == 'i'
    );
    reveal_strlit("dec_saturation_hsi");
    assert("dec_saturation_hsi"@.len() == 18
        && "dec_saturation_hsi"@[0] == 'd'
        && "dec_saturation_hsi"@[17] == 'i'
    );
    reveal_strlit("intensity");
    assert("intensity"@.len() == 9 && "intensity"@[2] == 't');
    reveal_strlit("inc_intensity");
    assert("inc_intensity"@.len() == 13
        && "inc_intensity"@[0] == 'i'
        && "inc_intensity"@[4] == 'i'
    );
    reveal_strlit("dec_intensity");
    assert("dec_intensity"@.len() == 13
        && "dec_intensity"@[0] == 'd'
        && "dec_intensity"@[4] == 'i'
    );
    reveal_strlit("copy");
    assert("copy"@.len() == 4 && "copy"@[0] == 'c');
    reveal_strlit("copy_red");
    assert("copy_red"@.len() == 8 && "copy_red"@[2] == 'p');
    reveal_strlit("copy_green");
    assert("copy_green"@.len() == 10 && "copy_green"@[0] == 'c');
    reveal_strlit("copy_blue");
    assert("copy_blue"@.len() == 9 && "copy_blue"@[2] == 'p');
    reveal_strlit("tangent_normalmap");
    assert("tangent_normalmap"@.len() == 17 && "tangent_normalmap"@[0] == 't');
    reveal_strlit("colorize");
    assert("colorize"@.len() == 8 && "colorize"@[3] == 'o');
    reveal_strlit("bumpmap");
    assert("bumpmap"@.len() == 7 && "bumpmap"@[0] == 'b');
    reveal_strlit("combine_normal");
    assert("combine_normal"@.len() == 14 && "combine_normal"@[0] == 'c');
    reveal_strlit("clear");
    assert("clear"@.len() == 5 && "clear"@[1] == 'l');
    reveal_strlit("dissolve");
    assert("dissolve"@.len() == 8 && "dissolve"@[3] == 's');
    reveal_strlit("displace");
    assert("displace"@.len() == 8 && "displace"@[3] == 'p');
    reveal_strlit("nocomposition");
    assert("nocomposition"@.len() == 13 && "nocomposition"@[0] == 'n');
    reveal_strlit("pass through");
    assert("pass through"@.len() == 12 && "pass through"@[0] == 'p');
    reveal_strlit("darker color");
    assert("darker color"@.len() == 12 && "darker color"@[0] == 'd');
    reveal_strlit("lighter color");
    assert("lighter color"@.len() == 13 && "lighter color"@[0] == 'l');
    reveal_strlit("undefined");
    assert("undefined"@.len() == 9 && "undefined"@[0] == 'u');
    reveal_strlit("reflect");
    assert("reflect"@.len() == 7 && "reflect"@[0] == 'r');
    reveal_strlit("glow");
    assert("glow"@.len() == 4 && "glow"@[0] == 'g');
    reveal_strlit("freeze");
    assert("freeze"@.len() == 6 && "freeze"@[0] == 'f');
    reveal_strlit("heat");
    assert("heat"@.len() == 4 && "heat"@[0] == 'h');
    reveal_strlit("glow_heat");
    assert("glow_heat"@.len() == 9 && "glow_heat"@[0] == 'g');
    reveal_strlit("heat_glow");
    assert("heat_glow"@.len() == 9 && "heat_glow"@[0] == 'h');
    reveal_strlit("reflect_freeze");
    assert("reflect_freeze"@.len() == 14 && "reflect_freeze"@[0] == 'r');
    reveal_strlit("freeze_reflect");
    assert("freeze_reflect"@.len() == 14 && "freeze_reflect"@[0] == 'f');
    reveal_strlit("heat_glow_freeze_reflect_hybrid");
    assert("heat_glow_freeze_reflect_hybrid"@.len() == 31);
    reveal_strlit("lambert_lighting");
    assert("lambert_lighting"@.len() == 16 && "lambert_lighting"@[0] == 'l');
    reveal_strlit("lambert_lighting_gamma2.2");
    assert("lambert_lighting_gamma2.2"@.len() == 25 && "lambert_lighting_gamma2.2"@[0] == 'l');
}

/// A text reads as an operation if and only if it is that operation's
/// name: no other string is accepted.
pub proof fn lemma_composite_op_names(op: CompositeOp, name: Seq<char>)
    ensures
        composite_op_named(name) == Some(op) <==> name == op.spec_key(),
{
    lemma_key_reads_back(op);
}

} // verus!
