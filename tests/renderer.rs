use rt_renderer::capabilities::{alpha_mode_rank, check_immediate_limit, find_alpha_mode, find_surface_format, AlphaMode};
use rt_renderer::error::{RendererError, Stage};
use rt_renderer::immediate::{Immediate, Ratio, Size, IMMEDIATE_SIZE};
use rt_renderer::renderer::{Acquisition, FrameAction, Renderer, SurfaceFault, MAX_FRAME_LATENCY};

#[derive(Clone, Copy, Debug, PartialEq)]
enum Format {
    F,
    G,
}

fn ratio_value(r: Ratio) -> f32 {
    r.num as f32 / r.den as f32
}

#[test]
fn construct_800_by_600() {
    let r = Renderer::new(&vec![Format::F], &vec![AlphaMode::Opaque, AlphaMode::Inherit], 800, 600).unwrap();
    let c = r.config();
    assert_eq!(c.format, Format::F);
    assert_eq!(c.alpha_mode, AlphaMode::Inherit);
    assert_eq!((c.width, c.height), (800, 600));
    assert_eq!(c.desired_maximum_frame_latency, MAX_FRAME_LATENCY);
    let imm = r.immediate();
    assert_eq!(imm.window_size, Size { width: 800, height: 600 });
    assert_eq!(imm.aspect_ratio.x, Ratio { num: 800, den: 600 });
    assert_eq!(imm.aspect_ratio.y, Ratio { num: 1, den: 1 });
    assert_eq!(ratio_value(imm.aspect_ratio.x), 800.0f32 / 600.0f32);
    assert_eq!(ratio_value(imm.aspect_ratio.y), 1.0f32);
}

#[test]
fn construct_portrait_window() {
    let r = Renderer::new(&vec![Format::F], &vec![AlphaMode::Opaque], 400, 800).unwrap();
    let imm = r.immediate();
    assert_eq!(ratio_value(imm.aspect_ratio.x), 1.0f32);
    assert_eq!(ratio_value(imm.aspect_ratio.y), 2.0f32);
}

#[test]
fn resize_to_zero_width_keeps_size() {
    let mut r = Renderer::new(&vec![Format::F], &vec![AlphaMode::Opaque], 800, 600).unwrap();
    let before = r.immediate();
    assert!(!r.resize(0, 600));
    assert_eq!((r.config().width, r.config().height), (800, 600));
    assert_eq!(r.immediate(), before);
    assert!(!r.resize(800, 0));
    assert_eq!((r.config().width, r.config().height), (800, 600));
}

#[test]
fn resize_updates_config_and_immediate() {
    let mut r = Renderer::new(&vec![Format::G], &vec![AlphaMode::Auto], 800, 600).unwrap();
    assert!(r.resize(300, 900));
    assert_eq!((r.config().width, r.config().height), (300, 900));
    assert_eq!(r.config().format, Format::G);
    assert_eq!(r.config().alpha_mode, AlphaMode::Auto);
    assert_eq!(r.immediate(), Immediate::new(300, 900));
    assert_eq!(r.immediate().window_size, Size { width: 300, height: 900 });
    assert_eq!(ratio_value(r.immediate().aspect_ratio.y), 3.0f32);
}

#[test]
fn resize_twice_same_state() {
    let mut r = Renderer::new(&vec![Format::F], &vec![AlphaMode::Opaque], 800, 600).unwrap();
    r.resize(1024, 768);
    let (c1, i1) = (*r.config(), r.immediate());
    r.resize(1024, 768);
    let (c2, i2) = (*r.config(), r.immediate());
    assert_eq!((c1.width, c1.height, c1.format, c1.alpha_mode), (c2.width, c2.height, c2.format, c2.alpha_mode));
    assert_eq!(i1, i2);
}

#[test]
fn outdated_then_success() {
    let mut r = Renderer::new(&vec![Format::F], &vec![AlphaMode::Opaque], 800, 600).unwrap();
    let first = r.render(Acquisition::Failed(SurfaceFault::Outdated), 640, 480);
    assert_eq!(first, FrameAction::Reconfigure);
    assert_eq!((r.config().width, r.config().height), (640, 480));
    let second = r.render(Acquisition::Ready, 640, 480);
    assert_eq!(second, FrameAction::Draw);
    assert_eq!((r.config().width, r.config().height), (640, 480));
}

#[test]
fn lost_with_minimized_window_skips() {
    let mut r = Renderer::new(&vec![Format::F], &vec![AlphaMode::Opaque], 800, 600).unwrap();
    assert_eq!(r.render(Acquisition::Failed(SurfaceFault::Lost), 0, 0), FrameAction::Skip);
    assert_eq!((r.config().width, r.config().height), (800, 600));
}

#[test]
fn other_faults_are_discarded() {
    let mut r = Renderer::new(&vec![Format::F], &vec![AlphaMode::Opaque], 800, 600).unwrap();
    for f in [SurfaceFault::Timeout, SurfaceFault::Occluded, SurfaceFault::Validation] {
        assert_eq!(r.render(Acquisition::Failed(f), 10, 10), FrameAction::Discard(f));
        assert_eq!((r.config().width, r.config().height), (800, 600));
    }
}

#[test]
fn alpha_modes_prefer_premultiplied() {
    let modes = vec![AlphaMode::PostMultiplied, AlphaMode::PreMultiplied, AlphaMode::Opaque];
    assert_eq!(find_alpha_mode(&modes), Ok(AlphaMode::PreMultiplied));
    let r = Renderer::new(&vec![Format::F], &modes, 800, 600).unwrap();
    assert_eq!(r.config().alpha_mode, AlphaMode::PreMultiplied);
}

#[test]
fn alpha_mode_ranks() {
    assert_eq!(alpha_mode_rank(AlphaMode::Inherit), 1);
    assert_eq!(alpha_mode_rank(AlphaMode::PreMultiplied), 2);
    assert_eq!(alpha_mode_rank(AlphaMode::PostMultiplied), 3);
    assert_eq!(alpha_mode_rank(AlphaMode::Opaque), 4);
    assert_eq!(alpha_mode_rank(AlphaMode::Auto), 5);
    assert_eq!(find_alpha_mode(&vec![AlphaMode::Auto, AlphaMode::Opaque, AlphaMode::Opaque]), Ok(AlphaMode::Opaque));
    assert_eq!(find_alpha_mode(&vec![AlphaMode::Auto]), Ok(AlphaMode::Auto));
}

#[test]
fn empty_alpha_modes_fail() {
    assert_eq!(find_alpha_mode(&vec![]), Err(RendererError::CapabilityMissing));
    let r = Renderer::new(&vec![Format::F], &vec![], 800, 600);
    assert_eq!(r.err(), Some(RendererError::CapabilityMissing));
}

#[test]
fn empty_formats_fail() {
    assert_eq!(find_surface_format::<Format>(&vec![]), Err(RendererError::CapabilityMissing));
    assert_eq!(find_surface_format(&vec![Format::G, Format::F]), Ok(Format::G));
    let r = Renderer::new(&Vec::<Format>::new(), &vec![AlphaMode::Opaque], 800, 600);
    assert_eq!(r.err(), Some(RendererError::CapabilityMissing));
}

#[test]
fn immediate_limit() {
    assert_eq!(IMMEDIATE_SIZE, 16);
    assert_eq!(check_immediate_limit(16), Ok(()));
    assert_eq!(check_immediate_limit(128), Ok(()));
    assert_eq!(check_immediate_limit(15), Err(RendererError::ImmediateLimitTooLow));
    assert_eq!(check_immediate_limit(0), Err(RendererError::ImmediateLimitTooLow));
    assert_ne!(RendererError::ImmediateLimitTooLow, RendererError::AcquisitionFailed(Stage::Adapter));
    assert_ne!(RendererError::ImmediateLimitTooLow.message(), RendererError::AcquisitionFailed(Stage::Adapter).message());
}

#[test]
fn immediate_square_and_update() {
    let mut imm = Immediate::new(500, 500);
    assert_eq!(imm.aspect_ratio.x, Ratio { num: 500, den: 500 });
    assert_eq!(imm.aspect_ratio.y, Ratio { num: 1, den: 1 });
    assert_eq!(ratio_value(imm.aspect_ratio.x), 1.0f32);
    imm.update_window_size(1, 4_000_000_000);
    assert_eq!(imm.window_size, Size { width: 1, height: 4_000_000_000 });
    assert_eq!(imm.aspect_ratio.y, Ratio { num: 4_000_000_000, den: 1 });
}
