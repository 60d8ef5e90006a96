use matrix_lively::frame::{auto_dot_size, FramePlan, RendererState, TextureChannel};

#[test]
fn new_renderer_state() {
    let s = RendererState::new();
    assert!(!s.audio_dirty);
    assert!(s.album_first_frame);
    assert!(!s.album_changed);
}

#[test]
fn first_frame_places_album_once() {
    let mut s = RendererState::new();
    let first = s.begin_frame();
    assert_eq!(
        first,
        FramePlan { upload_audio: false, place_album_initially: true, relocate_album: false }
    );
    let second = s.begin_frame();
    assert!(!second.place_album_initially);
    s.mark_audio_dirty();
    s.album_texture_replaced();
    assert!(!s.begin_frame().place_album_initially);
}

#[test]
fn audio_uploaded_only_after_new_data() {
    let mut s = RendererState::new();
    s.mark_audio_dirty();
    assert!(s.begin_frame().upload_audio);
    assert!(!s.begin_frame().upload_audio);
    s.album_texture_replaced();
    assert!(!s.begin_frame().upload_audio);
    s.mark_audio_dirty();
    s.mark_audio_dirty();
    assert!(s.begin_frame().upload_audio);
    assert!(!s.begin_frame().upload_audio);
}

#[test]
fn new_album_picture_moves_album_once() {
    let mut s = RendererState::new();
    s.begin_frame();
    s.album_texture_replaced();
    s.mark_audio_dirty();
    let plan = s.begin_frame();
    assert!(plan.relocate_album);
    assert!(plan.upload_audio);
    assert!(!s.begin_frame().relocate_album);
}

#[test]
fn frame_clears_everything_pending() {
    let mut s = RendererState::new();
    s.mark_audio_dirty();
    s.album_texture_replaced();
    let plan = s.begin_frame();
    assert_eq!(
        plan,
        FramePlan { upload_audio: true, place_album_initially: true, relocate_album: true }
    );
    assert_eq!(
        s,
        RendererState { audio_dirty: false, album_first_frame: false, album_changed: false }
    );
}

#[test]
fn dot_size_from_height() {
    assert_eq!(auto_dot_size(-5), 3);
    assert_eq!(auto_dot_size(720), 3);
    assert_eq!(auto_dot_size(900), 3);
    assert_eq!(auto_dot_size(901), 4);
    assert_eq!(auto_dot_size(1080), 4);
    assert_eq!(auto_dot_size(1500), 4);
    assert_eq!(auto_dot_size(1501), 5);
    assert_eq!(auto_dot_size(2160), 5);
    assert_eq!(auto_dot_size(i32::MAX), 5);
}

#[test]
fn dot_size_never_shrinks_with_height() {
    let mut last = auto_dot_size(i32::MIN);
    for h in (0..4000).step_by(7) {
        let d = auto_dot_size(h);
        assert!(d >= last);
        last = d;
    }
}

#[test]
fn texture_channels() {
    let all = [TextureChannel::Audio, TextureChannel::Logo, TextureChannel::Noise, TextureChannel::Album];
    for (i, c) in all.iter().enumerate() {
        assert_eq!(c.unit() as usize, i);
        assert_eq!(c.sampler_name(), format!("iChannel{}", i));
    }
    assert!(TextureChannel::Noise.repeats());
    assert!(!TextureChannel::Audio.repeats());
    assert!(!TextureChannel::Logo.repeats());
    assert!(!TextureChannel::Album.repeats());
}
