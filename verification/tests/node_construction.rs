use compositor::builtin::Builtin;
use compositor::node::{
    build_nodes, CreateNodeError, Node, ParametersValidationError, RenderNode,
};
use compositor::renderers::{
    ImageResource, Registry, RenderCtx, Renderers, ShaderHandle, WebRendererInstance,
};
use compositor::scene::{
    BuiltinSpec, NodeId, NodeParams, NodeSpec, RGBAColor, RendererId, Resolution, ShaderParam,
    ShaderParamType, TransformToResolutionStrategy,
};

fn res(width: usize, height: usize) -> Resolution {
    Resolution { width, height }
}

fn empty_ctx() -> RenderCtx {
    RenderCtx {
        renderers: Renderers {
            shaders: Registry::new(),
            web_renderers: Registry::new(),
            images: Registry::new(),
        },
    }
}

fn ctx_with_resources() -> RenderCtx {
    let mut ctx = empty_ctx();
    ctx.renderers.shaders.register(
        RendererId(1),
        ShaderHandle {
            schema: vec![ShaderParamType::I32, ShaderParamType::Bool],
        },
    );
    ctx.renderers
        .web_renderers
        .register(RendererId(2), WebRendererInstance { resolution: res(800, 600) });
    ctx.renderers
        .images
        .register(RendererId(3), ImageResource { resolution: res(128, 64) });
    ctx
}

fn spec(params: NodeParams) -> NodeSpec {
    NodeSpec {
        node_id: NodeId(7),
        params,
        input_pads: vec![],
        fallback_id: None,
    }
}

#[test]
fn unregistered_shader_fails_with_shader_not_found() {
    let ctx = empty_ctx();
    let r = Node::new(
        &ctx,
        &spec(NodeParams::Shader {
            shader_id: RendererId(42),
            shader_params: vec![],
            resolution: res(100, 100),
        }),
    );
    assert!(matches!(
        r,
        Err(CreateNodeError::ShaderNotFound(RendererId(42)))
    ));
}

#[test]
fn unregistered_web_instance_fails_with_web_renderer_not_found() {
    let ctx = empty_ctx();
    let r = Node::new(
        &ctx,
        &spec(NodeParams::WebRenderer {
            instance_id: RendererId(9),
        }),
    );
    assert!(matches!(
        r,
        Err(CreateNodeError::WebRendererNotFound(RendererId(9)))
    ));
}

#[test]
fn unregistered_image_fails_with_image_not_found() {
    let ctx = empty_ctx();
    let r = Node::new(
        &ctx,
        &spec(NodeParams::Image {
            image_id: RendererId(5),
        }),
    );
    assert!(matches!(
        r,
        Err(CreateNodeError::ImageNotFound(RendererId(5)))
    ));
}

#[test]
fn shader_params_failing_schema_fail_validation() {
    let ctx = ctx_with_resources();
    let r = Node::new(
        &ctx,
        &spec(NodeParams::Shader {
            shader_id: RendererId(1),
            shader_params: vec![ShaderParam::U32(4), ShaderParam::Bool(true)],
            resolution: res(100, 100),
        }),
    );
    assert!(matches!(
        r,
        Err(CreateNodeError::ShaderNodeParametersValidationError(
            ParametersValidationError::WrongParameterType { index: 0 }
        ))
    ));
}

#[test]
fn shader_params_with_wrong_count_fail_validation() {
    let ctx = ctx_with_resources();
    let r = Node::new(
        &ctx,
        &spec(NodeParams::Shader {
            shader_id: RendererId(1),
            shader_params: vec![ShaderParam::I32(-3)],
            resolution: res(100, 100),
        }),
    );
    assert!(matches!(
        r,
        Err(CreateNodeError::ShaderNodeParametersValidationError(
            ParametersValidationError::WrongParameterCount {
                expected: 2,
                actual: 1
            }
        ))
    ));
}

#[test]
fn shader_with_valid_params_succeeds_unchanged() {
    let ctx = ctx_with_resources();
    let node = Node::new(
        &ctx,
        &spec(NodeParams::Shader {
            shader_id: RendererId(1),
            shader_params: vec![ShaderParam::I32(-3), ShaderParam::Bool(false)],
            resolution: res(640, 480),
        }),
    )
    .unwrap();
    assert_eq!(node.renderer.resolution(), Some(res(640, 480)));
    assert_eq!(node.output.allocated, Some(res(640, 480)));
    assert!(node.output.empty);
}

#[test]
fn input_node_constructor_yields_bare_input_stream() {
    let node = Node::new_input(&NodeId(11));
    assert_eq!(node.node_id, NodeId(11));
    assert_eq!(node.renderer, RenderNode::InputStream);
    assert!(node.inputs.is_empty());
    assert!(node.fallback.is_none());
    assert_eq!(node.output.allocated, None);
    assert!(node.output.empty);
}

#[test]
fn resolutions_after_construction_match_the_spec() {
    let ctx = ctx_with_resources();

    let text = Node::new(
        &ctx,
        &spec(NodeParams::TextRenderer {
            text: String::from("hello"),
            resolution: res(300, 40),
        }),
    )
    .unwrap();
    assert_eq!(text.renderer.resolution(), Some(res(300, 40)));

    let image = Node::new(
        &ctx,
        &spec(NodeParams::Image {
            image_id: RendererId(3),
        }),
    )
    .unwrap();
    assert_eq!(image.renderer.resolution(), Some(res(128, 64)));

    let web = Node::new(
        &ctx,
        &spec(NodeParams::WebRenderer {
            instance_id: RendererId(2),
        }),
    )
    .unwrap();
    assert_eq!(web.renderer.resolution(), Some(res(800, 600)));

    let builtin_spec = BuiltinSpec::TransformToResolution {
        resolution: res(1920, 1080),
        strategy: TransformToResolutionStrategy::Fit {
            background_color_rgba: RGBAColor(0, 0, 0, 0),
        },
    };
    let builtin = Node::new(
        &ctx,
        &spec(NodeParams::Builtin {
            transformation: builtin_spec,
        }),
    )
    .unwrap();
    assert_eq!(
        builtin.renderer.resolution(),
        Builtin(builtin_spec).resolution_from_spec()
    );
}

#[test]
fn later_registrations_shadow_earlier_ones_without_rewiring_built_nodes() {
    let mut ctx = ctx_with_resources();
    let image_spec = spec(NodeParams::Image {
        image_id: RendererId(3),
    });
    let before = Node::new(&ctx, &image_spec).unwrap();
    assert_eq!(before.renderer.resolution(), Some(res(128, 64)));

    ctx.renderers
        .images
        .register(RendererId(3), ImageResource { resolution: res(512, 512) });

    // the already-built node keeps the resolution it resolved at construction
    assert_eq!(before.renderer.resolution(), Some(res(128, 64)));
    // a node built after the re-registration sees the new resource
    let after = Node::new(&ctx, &image_spec).unwrap();
    assert_eq!(after.renderer.resolution(), Some(res(512, 512)));
}

#[test]
fn scene_construction_aborts_on_the_first_failure_and_installs_nothing() {
    let ctx = ctx_with_resources();
    let specs = vec![
        spec(NodeParams::Image {
            image_id: RendererId(3),
        }),
        spec(NodeParams::WebRenderer {
            instance_id: RendererId(99),
        }),
        spec(NodeParams::TextRenderer {
            text: String::from("after the failure"),
            resolution: res(10, 10),
        }),
    ];
    let r = build_nodes(&ctx, &specs);
    assert!(matches!(
        r,
        Err(CreateNodeError::WebRendererNotFound(RendererId(99)))
    ));

    let good = vec![
        spec(NodeParams::Image {
            image_id: RendererId(3),
        }),
        spec(NodeParams::WebRenderer {
            instance_id: RendererId(2),
        }),
    ];
    let nodes = build_nodes(&ctx, &good).unwrap();
    assert_eq!(nodes.len(), 2);
    assert_eq!(nodes[0].renderer.resolution(), Some(res(128, 64)));
    assert_eq!(nodes[1].renderer.resolution(), Some(res(800, 600)));
}

#[test]
fn render_fills_the_target_and_input_stream_leaves_it_alone() {
    let ctx = ctx_with_resources();
    let mut render_ctx = ctx_with_resources();

    let mut node = Node::new(
        &ctx,
        &spec(NodeParams::Image {
            image_id: RendererId(3),
        }),
    )
    .unwrap();
    let mut target = node.output;
    node.renderer.render(&mut render_ctx, &[], &mut target, 0);
    assert_eq!(target.allocated, Some(res(128, 64)));
    assert!(!target.empty);

    let mut input = Node::new_input(&NodeId(1));
    let mut input_target = input.output;
    input.renderer.render(&mut render_ctx, &[], &mut input_target, 0);
    assert_eq!(input_target.allocated, None);
    assert!(input_target.empty);
}
