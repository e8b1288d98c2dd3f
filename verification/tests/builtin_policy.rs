use compositor::builtin::Builtin;
use compositor::scene::{
    BuiltinSpec, RGBAColor, Resolution, TransformToResolutionStrategy,
};
use compositor::texture::NodeTexture;

fn res(width: usize, height: usize) -> Resolution {
    Resolution { width, height }
}

fn empty_texture() -> NodeTexture {
    NodeTexture::new()
}

fn filled_texture() -> NodeTexture {
    let mut t = NodeTexture::new();
    t.mark_filled(res(16, 16));
    t
}

fn transform(strategy: TransformToResolutionStrategy) -> Builtin {
    Builtin(BuiltinSpec::TransformToResolution {
        resolution: res(1920, 1080),
        strategy,
    })
}

fn fixed_layout(color: RGBAColor) -> Builtin {
    Builtin(BuiltinSpec::FixedPositionLayout {
        resolution: res(1280, 720),
        background_color_rgba: color,
    })
}

#[test]
fn transform_to_resolution_falls_back_when_all_inputs_empty() {
    let b = transform(TransformToResolutionStrategy::Stretch);
    assert!(b.should_fallback(&[empty_texture(), empty_texture()]));
}

#[test]
fn transform_to_resolution_keeps_going_with_one_nonempty_input() {
    let b = transform(TransformToResolutionStrategy::Stretch);
    assert!(!b.should_fallback(&[empty_texture(), filled_texture()]));
    assert!(!b.should_fallback(&[filled_texture(), empty_texture()]));
}

#[test]
fn transform_to_resolution_falls_back_on_no_inputs() {
    let b = transform(TransformToResolutionStrategy::Fill);
    assert!(b.should_fallback(&[]));
}

#[test]
fn fixed_position_layout_never_falls_back() {
    let b = fixed_layout(RGBAColor(0, 0, 0, 255));
    assert!(!b.should_fallback(&[]));
    assert!(!b.should_fallback(&[empty_texture()]));
    assert!(!b.should_fallback(&[filled_texture()]));
    assert!(!b.should_fallback(&[empty_texture(), empty_texture(), empty_texture()]));
    assert!(!b.should_fallback(&[empty_texture(), filled_texture(), empty_texture()]));
}

#[test]
fn stretch_and_fill_skip_clearing() {
    assert_eq!(
        transform(TransformToResolutionStrategy::Stretch).clear_color(),
        None
    );
    assert_eq!(
        transform(TransformToResolutionStrategy::Fill).clear_color(),
        None
    );
}

#[test]
fn fit_and_fixed_layout_clear_with_their_background_color() {
    let red = RGBAColor(255, 0, 0, 255);
    let fit = transform(TransformToResolutionStrategy::Fit {
        background_color_rgba: red,
    });
    assert_eq!(fit.clear_color(), Some(red));
    assert_eq!(fixed_layout(red).clear_color(), Some(red));
}

#[test]
fn output_resolution_ignores_input_resolutions() {
    let b = transform(TransformToResolutionStrategy::Stretch);
    let expected = res(1920, 1080);
    assert_eq!(b.output_resolution(&[]), expected);
    assert_eq!(b.output_resolution(&[Some(res(640, 480))]), expected);
    assert_eq!(
        b.output_resolution(&[None, Some(res(640, 480)), Some(res(100, 100))]),
        expected
    );
}

#[test]
fn resolution_from_spec_exposes_the_configured_resolution() {
    let b = transform(TransformToResolutionStrategy::Stretch);
    assert_eq!(b.resolution_from_spec(), Some(res(1920, 1080)));
    let f = fixed_layout(RGBAColor(1, 2, 3, 4));
    assert_eq!(f.resolution_from_spec(), Some(res(1280, 720)));
}
