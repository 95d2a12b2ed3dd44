use avatar_studio::export::gltf::{
    export_composed_avatar_placeholder, validate_destination, AvatarGlbExportError, AvatarGlbExportOptions,
    AvatarGlbFormat,
};
use avatar_studio::export::png::{check_rgba_frame, validate_size, ExportView, PngExportError, PngExportOptions};
use avatar_studio::export::video::{check_rgba_frames, frame_delay_ms, validate_options, GifExportError, GifExportOptions};

#[test]
fn validates_extensions() {
    assert!(validate_destination("avatar.glb", AvatarGlbFormat::Glb).is_ok());
    assert!(validate_destination("avatar.vrm", AvatarGlbFormat::Vrm).is_ok());
    assert!(validate_destination("avatar.png", AvatarGlbFormat::Glb).is_err());
}

#[test]
fn placeholder_returns_clear_blocker() {
    let err = export_composed_avatar_placeholder("avatar.glb", &AvatarGlbExportOptions::default()).unwrap_err();
    assert!(matches!(err, AvatarGlbExportError::CpuMeshDataUnavailable));
}

#[test]
fn destination_extension_follows_path_rules() {
    assert!(validate_destination("out/Avatar.GLB", AvatarGlbFormat::Glb).is_ok());
    assert!(validate_destination("dir.glb/", AvatarGlbFormat::Glb).is_ok());
    assert!(validate_destination(".glb", AvatarGlbFormat::Glb).is_err());
    assert!(validate_destination("x.glb/..", AvatarGlbFormat::Glb).is_err());
    assert!(validate_destination("archive.tar.vrm", AvatarGlbFormat::Vrm).is_ok());
    assert!(validate_destination("glb", AvatarGlbFormat::Glb).is_err());
    match validate_destination("a.vrm", AvatarGlbFormat::Glb) {
        Err(AvatarGlbExportError::UnsupportedDestination { path }) => assert_eq!(path, "a.vrm"),
        other => panic!("unexpected {other:?}"),
    }
    let opts = AvatarGlbExportOptions { format: AvatarGlbFormat::Vrm, include_animation: false };
    assert!(matches!(
        export_composed_avatar_placeholder("a.glb", &opts),
        Err(AvatarGlbExportError::UnsupportedDestination { .. })
    ));
}

#[test]
fn validates_phase_11_sizes() {
    assert!(validate_size(512).is_ok());
    assert!(validate_size(1024).is_ok());
    assert!(validate_size(2048).is_ok());
    assert!(validate_size(768).is_err());
}

#[test]
fn rejects_wrong_pixel_count() {
    assert_eq!(check_rgba_frame(512, 512, 4), Err(PngExportError::PixelLength { actual: 4, expected: 512 * 512 * 4 }));
    assert_eq!(check_rgba_frame(512, 1024, 0), Err(PngExportError::UnsupportedSize(1024)));
    assert_eq!(check_rgba_frame(600, 600, 0), Err(PngExportError::UnsupportedSize(600)));
    assert!(check_rgba_frame(1024, 1024, 1024 * 1024 * 4).is_ok());
}

#[test]
fn png_defaults_and_view_names() {
    let o = PngExportOptions::default();
    assert_eq!(o.size, 1024);
    assert!(o.transparent_background);
    assert_eq!(o.view, ExportView::FullBody);
    assert_eq!(ExportView::Portrait.as_str(), "portrait");
    assert_eq!(ExportView::FullBody.as_str(), "full_body");
}

#[test]
fn validates_options() {
    assert!(validate_options(GifExportOptions::default()).is_ok());
    assert!(validate_options(GifExportOptions { size: 768, ..GifExportOptions::default() }).is_err());
    assert!(validate_options(GifExportOptions { frames: 1, ..GifExportOptions::default() }).is_err());
}

#[test]
fn gif_refusals_come_in_order() {
    let o = GifExportOptions { size: 768, frames: 1, duration_ms: 0 };
    assert_eq!(validate_options(o), Err(GifExportError::UnsupportedSize(768)));
    let o = GifExportOptions { size: 512, frames: 241, duration_ms: 0 };
    assert_eq!(validate_options(o), Err(GifExportError::UnsupportedFrameCount(241)));
    let o = GifExportOptions { size: 512, frames: 2, duration_ms: 0 };
    assert_eq!(validate_options(o), Err(GifExportError::InvalidDuration));
}

#[test]
fn writes_small_gif() {
    let frame = 512 * 512 * 4;
    assert!(check_rgba_frames(512, 512, &vec![frame, frame], 40).is_ok());
    assert_eq!(frame_delay_ms(40), 40);
}

#[test]
fn gif_frames_are_checked() {
    let frame = 512 * 512 * 4;
    assert_eq!(check_rgba_frames(512, 1024, &vec![frame, frame], 40), Err(GifExportError::UnsupportedSize(1024)));
    assert_eq!(check_rgba_frames(512, 512, &vec![frame], 40), Err(GifExportError::UnsupportedFrameCount(1)));
    assert_eq!(check_rgba_frames(512, 512, &vec![frame, frame], 0), Err(GifExportError::InvalidDuration));
    assert_eq!(
        check_rgba_frames(512, 512, &vec![frame, 3, 5], 40),
        Err(GifExportError::PixelLength { actual: 3, expected: frame })
    );
    assert_eq!(frame_delay_ms(0), 1);
}
