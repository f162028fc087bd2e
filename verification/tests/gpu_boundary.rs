use spinning_quad::event::Command;
use spinning_quad::setup::{
    first_compatible_adapter, preferred_format_index, select_surface_format,
};
use spinning_quad::state::State;
use spinning_quad::surface::{PhysicalSize, SurfaceConfig};
use wgpu::{SurfaceError, TextureFormat};

#[test]
fn fallback_adapter_is_first_compatible() {
    assert_eq!(first_compatible_adapter(&vec![false, false, true, true]), Some(2));
    assert_eq!(first_compatible_adapter(&vec![true, false]), Some(0));
    assert_eq!(first_compatible_adapter(&vec![true]), Some(0));
    assert_eq!(first_compatible_adapter(&vec![false, false, false, true]), Some(3));
}

#[test]
fn fallback_adapter_missing() {
    assert_eq!(first_compatible_adapter(&vec![]), None);
    assert_eq!(first_compatible_adapter(&vec![false]), None);
    assert_eq!(first_compatible_adapter(&vec![false, false]), None);
}

#[test]
fn preferred_index_is_first_srgb() {
    assert_eq!(preferred_format_index(&vec![false, true, false, true]), 1);
    assert_eq!(preferred_format_index(&vec![true, true]), 0);
    assert_eq!(preferred_format_index(&vec![false, false, true]), 2);
}

#[test]
fn preferred_index_falls_back_to_first() {
    assert_eq!(preferred_format_index(&vec![false]), 0);
    assert_eq!(preferred_format_index(&vec![false, false, false]), 0);
}

#[test]
fn srgb_format_is_selected_over_earlier_linear_ones() {
    let formats = vec![
        TextureFormat::Bgra8Unorm,
        TextureFormat::Rgba16Float,
        TextureFormat::Bgra8UnormSrgb,
        TextureFormat::Rgba8UnormSrgb,
    ];
    assert_eq!(select_surface_format(&formats), TextureFormat::Bgra8UnormSrgb);
}

#[test]
fn first_of_several_srgb_formats_is_selected() {
    let formats = vec![TextureFormat::Rgba8UnormSrgb, TextureFormat::Bgra8UnormSrgb];
    assert_eq!(select_surface_format(&formats), TextureFormat::Rgba8UnormSrgb);
}

#[test]
fn first_format_is_selected_without_srgb() {
    let formats = vec![TextureFormat::Rgba16Float, TextureFormat::Bgra8Unorm];
    assert_eq!(select_surface_format(&formats), TextureFormat::Rgba16Float);
    assert_eq!(select_surface_format(&vec![TextureFormat::Rgba8Unorm]), TextureFormat::Rgba8Unorm);
}

#[test]
fn successful_frame_continues() {
    let mut state = State::new(PhysicalSize::new(450, 400));
    let before = state;
    assert_eq!(state.after_render(Ok(())), Command::Continue);
    assert_eq!(state, before);
}

#[test]
fn lost_and_outdated_frames_reconfigure() {
    let mut state = State::new(PhysicalSize::new(450, 400));
    let before = state;
    let expected = Command::Configure(SurfaceConfig {
        width: 450,
        height: 400,
        desired_maximum_frame_latency: 2,
    });
    assert_eq!(state.after_render(Err(SurfaceError::Lost)), expected);
    assert_eq!(state.after_render(Err(SurfaceError::Outdated)), expected);
    assert_eq!(state, before);
}

#[test]
fn out_of_memory_frame_exits() {
    let mut state = State::new(PhysicalSize::new(450, 400));
    assert_eq!(state.after_render(Err(SurfaceError::OutOfMemory)), Command::Exit);
}

#[test]
fn timed_out_frame_is_skipped() {
    let mut state = State::new(PhysicalSize::new(450, 400));
    assert_eq!(state.after_render(Err(SurfaceError::Timeout)), Command::SkipFrame);
    assert_eq!(state.angle_millirad(), 0);
}
