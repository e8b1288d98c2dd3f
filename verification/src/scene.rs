//! Declarative scene model: identifiers, resolutions, node parameters and the
//! shader parameter schema.

use vstd::prelude::*;

verus! {

/// Opaque unique identifier of a graph vertex.
#[derive(Clone, Copy, PartialEq, Eq, Structural, Debug)]
pub struct NodeId(pub u64);

/// Opaque identifier into an external renderer-resource registry. Namespaces
/// are per registry: a shader id and an image id may coincide.
#[derive(Clone, Copy, PartialEq, Eq, Structural, Debug)]
pub struct RendererId(pub u64);

/// Output size of a texture or transform. Meaningful resolutions have both
/// sides strictly positive.
#[derive(Clone, Copy, PartialEq, Eq, Structural, Debug)]
pub struct Resolution {
    pub width: usize,
    pub height: usize,
}

impl Resolution {
    /// Both sides strictly positive.
    pub open spec fn wf(self) -> bool {
        self.width > 0 && self.height > 0
    }
}

/// A color as four 8-bit channels: red, green, blue, alpha.
#[derive(Clone, Copy, PartialEq, Eq, Structural, Debug)]
pub struct RGBAColor(pub u8, pub u8, pub u8, pub u8);

/// How a `TransformToResolution` built-in maps its input onto the configured
/// output resolution.
#[derive(Clone, Copy, PartialEq, Eq, Structural, Debug)]
pub enum TransformToResolutionStrategy {
    /// Scale to fill the frame, ignoring aspect ratio.
    Stretch,
    /// Scale preserving aspect ratio, cropping what overflows.
    Fill,
    /// Scale preserving aspect ratio, padding with a background color.
    Fit { background_color_rgba: RGBAColor },
}

/// Specification of a built-in transformation.
#[derive(Clone, Copy, PartialEq, Eq, Structural, Debug)]
pub enum BuiltinSpec {
    TransformToResolution {
        resolution: Resolution,
        strategy: TransformToResolutionStrategy,
    },
    FixedPositionLayout {
        resolution: Resolution,
        background_color_rgba: RGBAColor,
    },
}

impl BuiltinSpec {
    /// Every built-in transformation declares a fixed output resolution.
    pub open spec fn spec_resolution(self) -> Resolution {
        match self {
            BuiltinSpec::TransformToResolution { resolution, .. } => resolution,
            BuiltinSpec::FixedPositionLayout { resolution, .. } => resolution,
        }
    }
}

/// The type a shader declares for one of its parameters.
#[derive(Clone, Copy, PartialEq, Eq, Structural, Debug)]
pub enum ShaderParamType {
    I32,
    U32,
    Bool,
}

/// A concrete parameter value supplied by a scene specification.
#[derive(Clone, Copy, PartialEq, Eq, Structural, Debug)]
pub enum ShaderParam {
    I32(i32),
    U32(u32),
    Bool(bool),
}

impl ShaderParam {
    /// The declared type this value satisfies.
    pub open spec fn spec_param_type(self) -> ShaderParamType {
        match self {
            ShaderParam::I32(_) => ShaderParamType::I32,
            ShaderParam::U32(_) => ShaderParamType::U32,
            ShaderParam::Bool(_) => ShaderParamType::Bool,
        }
    }

    /// Executable twin of [`ShaderParam::spec_param_type`].
    pub fn param_type(&self) -> (t: ShaderParamType)
        ensures
            t == self.spec_param_type(),
    {
        match self {
            ShaderParam::I32(_) => ShaderParamType::I32,
            ShaderParam::U32(_) => ShaderParamType::U32,
            ShaderParam::Bool(_) => ShaderParamType::Bool,
        }
    }
}

/// `params` satisfies `schema` iff both have the same length and each value's
/// type matches the declared type at its position.
pub open spec fn shader_params_valid(schema: Seq<ShaderParamType>, params: Seq<ShaderParam>) -> bool {
    &&& params.len() == schema.len()
    &&& forall|i: int| 0 <= i < params.len() ==> params[i].spec_param_type() == schema[i]
}

/// Kind-specific parameters of one declarative node.
#[derive(Clone, PartialEq, Eq, Debug)]
pub enum NodeParams {
    WebRenderer { instance_id: RendererId },
    Shader { shader_id: RendererId, shader_params: Vec<ShaderParam>, resolution: Resolution },
    Builtin { transformation: BuiltinSpec },
    TextRenderer { text: String, resolution: Resolution },
    Image { image_id: RendererId },
}

/// One declarative graph vertex: its id, renderer parameters, ordered input
/// pads and an optional fallback vertex.
#[derive(Clone, Debug)]
pub struct NodeSpec {
    pub node_id: NodeId,
    pub params: NodeParams,
    pub input_pads: Vec<NodeId>,
    pub fallback_id: Option<NodeId>,
}

} // verus!
