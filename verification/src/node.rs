//! Graph vertices: the polymorphic renderer ([`RenderNode`]) and the vertex
//! that owns it ([`Node`]).

use vstd::prelude::*;
use crate::builtin::Builtin;
use crate::renderers::RenderCtx;
use crate::scene::{
    NodeId, NodeParams, NodeSpec, RendererId, Resolution, ShaderParam, ShaderParamType,
    shader_params_valid,
};
use crate::texture::NodeTexture;

verus! {

/// Why a shader's parameters do not satisfy its declared schema.
#[derive(Clone, Copy, PartialEq, Eq, Structural, Debug)]
pub enum ParametersValidationError {
    /// The spec supplied a different number of parameters than the shader
    /// declares.
    WrongParameterCount { expected: usize, actual: usize },
    /// The first position at which the supplied value's type differs from the
    /// declared one.
    WrongParameterType { index: usize },
}

/// A registration-time resource-resolution failure. Construction aborts and
/// the error is returned as a value to the scene-registration caller; no
/// partial node is installed.
#[derive(Clone, Copy, PartialEq, Eq, Structural, Debug)]
pub enum CreateNodeError {
    /// The referenced shader is not registered.
    ShaderNotFound(RendererId),
    /// The shader exists but `shader_params` fails its declared schema.
    ShaderNodeParametersValidationError(ParametersValidationError),
    /// The referenced web-renderer instance is not registered.
    WebRendererNotFound(RendererId),
    /// The referenced image is not registered.
    ImageNotFound(RendererId),
}

/// Renderer state of a custom-shader node: a fixed target resolution.
#[derive(Clone, Copy, PartialEq, Eq, Structural, Debug)]
pub struct ShaderNode {
    pub resolution: Resolution,
}

/// Renderer state of an embedded-web-surface node. Resolution is intrinsic
/// to the embedded surface and resolved at construction.
#[derive(Clone, Copy, PartialEq, Eq, Structural, Debug)]
pub struct WebRendererNode {
    pub resolution: Resolution,
}

/// Renderer state of a text node: static per spec, with a fixed resolution.
#[derive(Clone, Copy, PartialEq, Eq, Structural, Debug)]
pub struct TextRendererNode {
    pub resolution: Resolution,
}

/// Renderer state of a still/animated image node.
#[derive(Clone, Copy, PartialEq, Eq, Structural, Debug)]
pub struct ImageNode {
    pub resolution: Resolution,
}

/// Renderer state of a built-in transform node: the policy object and the
/// declared input arity.
#[derive(Clone, Copy, PartialEq, Eq, Structural, Debug)]
pub struct BuiltinNode {
    pub builtin: Builtin,
    pub input_count: usize,
}

/// The polymorphic renderer implementation attached to a node: one variant
/// per node kind, each satisfying {construct, render, resolution}.
#[derive(Clone, Copy, PartialEq, Eq, Structural, Debug)]
pub enum RenderNode {
    Shader(ShaderNode),
    Web(WebRendererNode),
    Text(TextRendererNode),
    Image(ImageNode),
    Builtin(BuiltinNode),
    InputStream,
}

/// Outcome of validating `params` against `schema` from position `i` on,
/// lengths already known equal: the first mismatching position wins.
pub open spec fn spec_validate_types(
    schema: Seq<ShaderParamType>,
    params: Seq<ShaderParam>,
    i: int,
) -> Result<(), ParametersValidationError>
    decreases params.len() - i,
{
    if i < 0 || i >= params.len() {
        Ok(())
    } else if params[i].spec_param_type() != schema[i] {
        Err(ParametersValidationError::WrongParameterType { index: i as usize })
    } else {
        spec_validate_types(schema, params, i + 1)
    }
}

/// Outcome of validating `params` against `schema`: a count mismatch is
/// reported before any type mismatch.
pub open spec fn spec_validate(
    schema: Seq<ShaderParamType>,
    params: Seq<ShaderParam>,
) -> Result<(), ParametersValidationError> {
    if params.len() != schema.len() {
        Err(
            ParametersValidationError::WrongParameterCount {
                expected: schema.len() as usize,
                actual: params.len() as usize,
            },
        )
    } else {
        spec_validate_types(schema, params, 0)
    }
}

/// Validation succeeds exactly on the parameter lists that satisfy the
/// schema.
pub proof fn lemma_validate_ok_iff_valid(schema: Seq<ShaderParamType>, params: Seq<ShaderParam>)
    ensures
        spec_validate(schema, params) is Ok <==> shader_params_valid(schema, params),
{
    if params.len() == schema.len() {
        lemma_validate_types_ok_iff(schema, params, 0);
    }
}

proof fn lemma_validate_types_ok_iff(
    schema: Seq<ShaderParamType>,
    params: Seq<ShaderParam>,
    i: int,
)
    requires
        0 <= i <= params.len(),
        params.len() == schema.len(),
    ensures
        spec_validate_types(schema, params, i) is Ok <==> (forall|j: int|
            i <= j < params.len() ==> params[j].spec_param_type() == schema[j]),
    decreases params.len() - i,
{
    if i < params.len() {
        lemma_validate_types_ok_iff(schema, params, i + 1);
    }
}

/// Validate `params` against `schema`, reporting a count mismatch first and
/// otherwise the first position whose value has the wrong type.
pub fn validate_params(schema: &Vec<ShaderParamType>, params: &Vec<ShaderParam>) -> (r: Result<
    (),
    ParametersValidationError,
>)
    ensures
        r == spec_validate(schema@, params@),
        r is Ok <==> shader_params_valid(schema@, params@),
{
    proof {
        lemma_validate_ok_iff_valid(schema@, params@);
    }
    if params.len() != schema.len() {
        return Err(
            ParametersValidationError::WrongParameterCount {
                expected: schema.len(),
                actual: params.len(),
            },
        );
    }
    let mut i: usize = 0;
    while i < params.len()
        invariant
            0 <= i <= params@.len(),
            params@.len() == schema@.len(),
            spec_validate_types(schema@, params@, 0) == spec_validate_types(
                schema@,
                params@,
                i as int,
            ),
        decreases params@.len() - i,
    {
        if params[i].param_type() != schema[i] {
            return Err(ParametersValidationError::WrongParameterType { index: i });
        }
        i = i + 1;
    }
    Ok(())
}

/// The renderer that compiling `spec` under `ctx` produces, or the exact
/// construction error. Resource resolution happens here, once: later registry
/// mutation does not rewire already-built nodes.
pub open spec fn spec_build_render_node(ctx: RenderCtx, spec: NodeSpec) -> Result<
    RenderNode,
    CreateNodeError,
> {
    match spec.params {
        NodeParams::WebRenderer { instance_id } => match ctx.renderers.web_renderers.spec_get(
            instance_id,
        ) {
            None => Err(CreateNodeError::WebRendererNotFound(instance_id)),
            Some(instance) => Ok(
                RenderNode::Web(WebRendererNode { resolution: instance.resolution }),
            ),
        },
        NodeParams::Shader { shader_id, shader_params, resolution } => match ctx.renderers.shaders
            .spec_get(shader_id) {
            None => Err(CreateNodeError::ShaderNotFound(shader_id)),
            Some(shader) => match spec_validate(shader.schema@, shader_params@) {
                Err(e) => Err(CreateNodeError::ShaderNodeParametersValidationError(e)),
                Ok(_) => Ok(RenderNode::Shader(ShaderNode { resolution })),
            },
        },
        NodeParams::Builtin { transformation } => Ok(
            RenderNode::Builtin(
                BuiltinNode {
                    builtin: Builtin(transformation),
                    input_count: spec.input_pads@.len() as usize,
                },
            ),
        ),
        NodeParams::TextRenderer { text, resolution } => Ok(
            RenderNode::Text(TextRendererNode { resolution }),
        ),
        NodeParams::Image { image_id } => match ctx.renderers.images.spec_get(image_id) {
            None => Err(CreateNodeError::ImageNotFound(image_id)),
            Some(image) => Ok(RenderNode::Image(ImageNode { resolution: image.resolution })),
        },
    }
}

/// The statically known output resolution of a renderer: the kind's fixed
/// resolution, the built-in policy's configured one, or `None` for an input
/// stream, whose resolution is whatever the upstream producer supplies.
pub open spec fn spec_render_node_resolution(node: RenderNode) -> Option<Resolution> {
    match node {
        RenderNode::Shader(n) => Some(n.resolution),
        RenderNode::Web(n) => Some(n.resolution),
        RenderNode::Text(n) => Some(n.resolution),
        RenderNode::Image(n) => Some(n.resolution),
        RenderNode::InputStream => None,
        RenderNode::Builtin(n) => Some(n.builtin.0.spec_resolution()),
    }
}

/// The state of `target` after this renderer's pass: an input stream leaves
/// its texture untouched (the pipeline populates it before the pass); every
/// other kind leaves its output allocated at its known resolution and
/// non-empty. The model treats every resolved resource as ready; a real
/// engine's asynchronous source that cannot yet produce content would leave
/// the texture empty instead of blocking the pass.
pub open spec fn spec_rendered(node: RenderNode, target: NodeTexture) -> NodeTexture {
    match spec_render_node_resolution(node) {
        None => target,
        Some(res) => NodeTexture { allocated: Some(res), empty: false },
    }
}

impl RenderNode {
    /// Resolve one of the six kinds from the spec's params, looking
    /// referenced resources up in the registries.
    fn new(ctx: &RenderCtx, spec: &NodeSpec) -> (r: Result<Self, CreateNodeError>)
        ensures
            r == spec_build_render_node(*ctx, *spec),
    {
        match &spec.params {
            NodeParams::WebRenderer { instance_id } => match ctx.renderers.web_renderers.get(
                *instance_id,
            ) {
                None => Err(CreateNodeError::WebRendererNotFound(*instance_id)),
                Some(instance) => Ok(
                    RenderNode::Web(WebRendererNode { resolution: instance.resolution }),
                ),
            },
            NodeParams::Shader { shader_id, shader_params, resolution } => match ctx.renderers
                .shaders.get(*shader_id) {
                None => Err(CreateNodeError::ShaderNotFound(*shader_id)),
                Some(shader) => match validate_params(&shader.schema, shader_params) {
                    Err(e) => Err(CreateNodeError::ShaderNodeParametersValidationError(e)),
                    Ok(_) => Ok(RenderNode::Shader(ShaderNode { resolution: *resolution })),
                },
            },
            NodeParams::Builtin { transformation } => Ok(
                RenderNode::Builtin(
                    BuiltinNode {
                        builtin: Builtin(*transformation),
                        input_count: spec.input_pads.len(),
                    },
                ),
            ),
            NodeParams::TextRenderer { text: _, resolution } => Ok(
                RenderNode::Text(TextRendererNode { resolution: *resolution }),
            ),
            NodeParams::Image { image_id } => match ctx.renderers.images.get(*image_id) {
                None => Err(CreateNodeError::ImageNotFound(*image_id)),
                Some(image) => Ok(RenderNode::Image(ImageNode { resolution: image.resolution })),
            },
        }
    }

    /// One render pass for this node: `sources` are the resolved inputs in
    /// pad order, `target` is the node's own output texture, `pts` the
    /// presentation timestamp in nanoseconds. An input stream performs no
    /// operation: its texture is populated by the pipeline before the pass.
    pub fn render(
        &mut self,
        ctx: &mut RenderCtx,
        sources: &[(NodeId, NodeTexture)],
        target: &mut NodeTexture,
        pts: u64,
    )
        ensures
            *final(target) == spec_rendered(*old(self), *old(target)),
            *final(self) == *old(self),
            *final(ctx) == *old(ctx),
    {
        match self {
            RenderNode::Shader(node) => {
                let resolution = node.resolution;
                target.mark_filled(resolution);
            },
            RenderNode::Builtin(node) => {
                let mut input_resolutions: Vec<Option<Resolution>> = Vec::new();
                let mut i: usize = 0;
                while i < sources.len()
                    decreases sources@.len() - i,
                {
                    input_resolutions.push(sources[i].1.resolution());
                    i = i + 1;
                }
                let resolution = node.builtin.output_resolution(input_resolutions.as_slice());
                target.mark_filled(resolution);
            },
            RenderNode::Web(node) => {
                let resolution = node.resolution;
                target.mark_filled(resolution);
            },
            RenderNode::Text(node) => {
                let resolution = node.resolution;
                target.mark_filled(resolution);
            },
            RenderNode::Image(node) => {
                let resolution = node.resolution;
                target.mark_filled(resolution);
            },
            RenderNode::InputStream => {
                // Nothing to do: textures on input nodes are populated at the
                // start of the render loop.
            },
        }
    }

    /// The kind's statically known resolution, if any.
    pub fn resolution(&self) -> (r: Option<Resolution>)
        ensures
            r == spec_render_node_resolution(*self),
    {
        match self {
            RenderNode::Shader(node) => Some(node.resolution),
            RenderNode::Web(node) => Some(node.resolution),
            RenderNode::Text(node) => Some(node.resolution),
            RenderNode::Image(node) => Some(node.resolution),
            RenderNode::InputStream => None,
            RenderNode::Builtin(node) => node.builtin.resolution_from_spec(),
        }
    }
}

/// One graph vertex: owns its renderer and output texture; inputs and
/// fallback are non-owning id references resolved by lookup, which sidesteps
/// graph-cycle ownership hazards entirely.
#[derive(Clone, Debug)]
pub struct Node {
    pub node_id: NodeId,
    pub output: NodeTexture,
    pub inputs: Vec<NodeId>,
    pub fallback: Option<NodeId>,
    pub renderer: RenderNode,
}

impl Node {
    /// Compile one declarative vertex: build the renderer (propagating any
    /// construction error, so that no partial node is created), allocate the
    /// output texture to the statically known resolution if one exists, and
    /// copy input and fallback ids verbatim from the spec.
    pub fn new(ctx: &RenderCtx, spec: &NodeSpec) -> (r: Result<Self, CreateNodeError>)
        ensures
            r matches Err(e) ==> spec_build_render_node(*ctx, *spec) == Err::<
                RenderNode,
                CreateNodeError,
            >(e),
            r matches Ok(node) ==> {
                &&& spec_build_render_node(*ctx, *spec) == Ok::<RenderNode, CreateNodeError>(
                    node.renderer,
                )
                &&& node.node_id == spec.node_id
                &&& node.inputs@ == spec.input_pads@
                &&& node.fallback == spec.fallback_id
                &&& node.output.empty
                &&& node.output.allocated == spec_render_node_resolution(node.renderer)
            },
            r is Ok <==> spec_build_render_node(*ctx, *spec) is Ok,
    {
        let node = match RenderNode::new(ctx, spec) {
            Ok(node) => node,
            Err(e) => {
                return Err(e);
            },
        };
        let mut output = NodeTexture::new();
        if let Some(resolution) = node.resolution() {
            output.ensure_size(resolution);
        }

        Ok(
            Self {
                node_id: spec.node_id,
                renderer: node,
                inputs: spec.input_pads.clone(),
                fallback: spec.fallback_id,
                output,
            },
        )
    }

    /// A dedicated input-node constructor: renderer is an input stream with
    /// no inputs and no fallback, and the output texture stays unallocated,
    /// to be externally populated every frame before evaluation.
    pub fn new_input(node_id: &NodeId) -> (r: Self)
        ensures
            r.node_id == *node_id,
            r.renderer == RenderNode::InputStream,
            r.inputs@.len() == 0,
            r.fallback is None,
            r.output.allocated is None,
            r.output.empty,
    {
        let output = NodeTexture::new();

        Self {
            node_id: *node_id,
            renderer: RenderNode::InputStream,
            inputs: Vec::new(),
            fallback: None,
            output,
        }
    }
}

/// Compile a whole scene: every spec becomes one node, in order. The first
/// resource-resolution failure aborts construction entirely — the error is
/// returned as a value and no partial graph is installed; the caller may
/// retry with a corrected specification while the previously active scene
/// stays in effect.
pub fn build_nodes(ctx: &RenderCtx, specs: &Vec<NodeSpec>) -> (r: Result<Vec<Node>, CreateNodeError>)
    ensures
        r is Ok <==> (forall|i: int|
            0 <= i < specs@.len() ==> spec_build_render_node(*ctx, specs@[i]) is Ok),
        r matches Ok(nodes) ==> {
            &&& nodes@.len() == specs@.len()
            &&& forall|i: int| 0 <= i < specs@.len() ==> {
                &&& spec_build_render_node(*ctx, specs@[i]) == Ok::<RenderNode, CreateNodeError>(
                    #[trigger] nodes@[i].renderer,
                )
                &&& nodes@[i].node_id == specs@[i].node_id
                &&& nodes@[i].inputs@ == specs@[i].input_pads@
                &&& nodes@[i].fallback == specs@[i].fallback_id
                &&& nodes@[i].output.empty
                &&& nodes@[i].output.allocated == spec_render_node_resolution(nodes@[i].renderer)
            }
        },
        r matches Err(e) ==> exists|i: int|
            0 <= i < specs@.len() && spec_build_render_node(*ctx, specs@[i]) == Err::<
                RenderNode,
                CreateNodeError,
            >(e),
{
    let mut nodes: Vec<Node> = Vec::new();
    let mut i: usize = 0;
    while i < specs.len()
        invariant
            0 <= i <= specs@.len(),
            nodes@.len() == i,
            forall|j: int| 0 <= j < i ==> {
                &&& spec_build_render_node(*ctx, specs@[j]) == Ok::<RenderNode, CreateNodeError>(
                    #[trigger] nodes@[j].renderer,
                )
                &&& nodes@[j].node_id == specs@[j].node_id
                &&& nodes@[j].inputs@ == specs@[j].input_pads@
                &&& nodes@[j].fallback == specs@[j].fallback_id
                &&& nodes@[j].output.empty
                &&& nodes@[j].output.allocated == spec_render_node_resolution(nodes@[j].renderer)
            },
        decreases specs@.len() - i,
    {
        match Node::new(ctx, &specs[i]) {
            Ok(node) => nodes.push(node),
            Err(e) => {
                proof {
                    assert(spec_build_render_node(*ctx, specs@[i as int]) == Err::<
                        RenderNode,
                        CreateNodeError,
                    >(e));
                }
                return Err(e);
            },
        }
        i = i + 1;
    }
    proof {
        assert forall|k: int| 0 <= k < specs@.len() implies spec_build_render_node(
            *ctx,
            specs@[k],
        ) is Ok by {
            assert(spec_build_render_node(*ctx, specs@[k]) == Ok::<RenderNode, CreateNodeError>(
                nodes@[k].renderer,
            ));
        }
    }
    Ok(nodes)
}

/// A node spec referencing an unregistered renderer id fails construction
/// with the matching not-found error, carrying the offending identifier; no
/// node is installed.
pub proof fn lemma_unregistered_id_fails(ctx: RenderCtx, spec: NodeSpec)
    ensures
        spec.params matches NodeParams::WebRenderer { instance_id } ==> (
        ctx.renderers.web_renderers.spec_get(instance_id) is None ==> spec_build_render_node(
            ctx,
            spec,
        ) == Err::<RenderNode, CreateNodeError>(CreateNodeError::WebRendererNotFound(instance_id))),
        spec.params matches NodeParams::Shader { shader_id, .. } ==> (ctx.renderers.shaders
            .spec_get(shader_id) is None ==> spec_build_render_node(ctx, spec) == Err::<
            RenderNode,
            CreateNodeError,
        >(CreateNodeError::ShaderNotFound(shader_id))),
        spec.params matches NodeParams::Image { image_id } ==> (ctx.renderers.images.spec_get(
            image_id,
        ) is None ==> spec_build_render_node(ctx, spec) == Err::<RenderNode, CreateNodeError>(
            CreateNodeError::ImageNotFound(image_id),
        )),
{
}

/// A shader node's construction fails with a validation error iff its
/// parameters fail the registered shader's declared schema, and succeeds
/// otherwise, carrying the declared target resolution unchanged.
pub proof fn lemma_shader_validation(ctx: RenderCtx, spec: NodeSpec)
    requires
        spec.params matches NodeParams::Shader { shader_id, .. } && ctx.renderers.shaders.spec_get(
            shader_id,
        ) is Some,
    ensures
        spec.params matches NodeParams::Shader { shader_id, shader_params, resolution } ==> {
            &&& (spec_build_render_node(ctx, spec) is Ok <==> shader_params_valid(
                ctx.renderers.shaders.spec_get(shader_id)->0.schema@,
                shader_params@,
            ))
            &&& (shader_params_valid(
                ctx.renderers.shaders.spec_get(shader_id)->0.schema@,
                shader_params@,
            ) ==> spec_build_render_node(ctx, spec) == Ok::<RenderNode, CreateNodeError>(
                RenderNode::Shader(ShaderNode { resolution }),
            ))
            &&& (!shader_params_valid(
                ctx.renderers.shaders.spec_get(shader_id)->0.schema@,
                shader_params@,
            ) ==> spec_build_render_node(ctx, spec) matches Err(
                CreateNodeError::ShaderNodeParametersValidationError(_),
            ))
        },
{
    if let NodeParams::Shader { shader_id, shader_params, resolution } = spec.params {
        let shader = ctx.renderers.shaders.spec_get(shader_id)->0;
        lemma_validate_ok_iff_valid(shader.schema@, shader_params@);
    }
}

/// After a successful construction, the renderer's statically known
/// resolution equals the one the originating spec declares: the spec's own
/// for shader and text nodes, the registered resource's for web and image
/// nodes, and the built-in policy's configured one for built-ins; an input
/// stream declares none.
pub proof fn lemma_resolution_matches_spec(ctx: RenderCtx, spec: NodeSpec, node: RenderNode)
    requires
        spec_build_render_node(ctx, spec) == Ok::<RenderNode, CreateNodeError>(node),
    ensures
        spec.params matches NodeParams::Shader { resolution, .. } ==> spec_render_node_resolution(
            node,
        ) == Some(resolution),
        spec.params matches NodeParams::TextRenderer { resolution, .. }
            ==> spec_render_node_resolution(node) == Some(resolution),
        spec.params matches NodeParams::Image { image_id } ==> spec_render_node_resolution(node)
            == Some(ctx.renderers.images.spec_get(image_id)->0.resolution),
        spec.params matches NodeParams::WebRenderer { instance_id }
            ==> spec_render_node_resolution(node) == Some(
            ctx.renderers.web_renderers.spec_get(instance_id)->0.resolution,
        ),
        spec.params matches NodeParams::Builtin { transformation }
            ==> spec_render_node_resolution(node) == Some(transformation.spec_resolution()),
{
}

} // verus!
