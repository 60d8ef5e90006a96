use matrix_lively::audio::{
    audio_upload_data, band_of, bin_of_slot, BIN_COUNT, band_width, AudioBuffer, Band, AUDIO_BUFFER_LEN,
    AUDIO_TEXTURE_HEIGHT, AUDIO_TEXTURE_WIDTH, ROW_LEN, WAVE_REST,
};

#[test]
fn new_buffer_is_all_zero() {
    let b = AudioBuffer::new();
    assert_eq!(b.as_slice().len(), AUDIO_BUFFER_LEN);
    assert!(b.as_slice().iter().all(|&x| x == 0));
}

#[test]
fn spectrum_and_wave_rows() {
    let mut b = AudioBuffer::new();
    b.set_spectrum(0, 7);
    b.set_spectrum(511, 9);
    b.set_wave(0, 200);
    b.set_wave(511, 1);
    let s = b.as_slice();
    assert_eq!(s[0], 7);
    assert_eq!(s[511], 9);
    assert_eq!(s[512], 200);
    assert_eq!(s[1023], 1);
    assert_eq!(s.iter().filter(|&&x| x != 0).count(), 4);
}

#[test]
fn texture_dimensions_match_buffer() {
    assert_eq!((AUDIO_TEXTURE_WIDTH * AUDIO_TEXTURE_HEIGHT) as usize, AUDIO_BUFFER_LEN);
    assert_eq!(ROW_LEN * 2, AUDIO_BUFFER_LEN);
}

fn sample_audio() -> Vec<u8> {
    (0..AUDIO_BUFFER_LEN).map(|i| (i * 7 % 251) as u8).collect()
}

#[test]
fn upload_without_silence_sends_buffer() {
    let audio = sample_audio();
    assert_eq!(audio_upload_data(&audio, false), audio);
}

#[test]
fn upload_with_silence_keeps_spectrum_and_flattens_wave() {
    let audio = sample_audio();
    let data = audio_upload_data(&audio, true);
    assert_eq!(data.len(), AUDIO_BUFFER_LEN);
    assert_eq!(&data[..ROW_LEN], &audio[..ROW_LEN]);
    assert!(data[ROW_LEN..].iter().all(|&x| x == WAVE_REST));
    assert_eq!(WAVE_REST, 128);
}

#[test]
fn upload_with_silence_needs_only_spectrum_row() {
    let spectrum: Vec<u8> = (0..ROW_LEN).map(|i| i as u8).collect();
    let data = audio_upload_data(&spectrum, true);
    assert_eq!(&data[..ROW_LEN], &spectrum[..]);
    assert!(data[ROW_LEN..].iter().all(|&x| x == 128));
}

#[test]
fn silenced_and_full_uploads_agree_on_spectrum() {
    let audio = sample_audio();
    let a = audio_upload_data(&audio, true);
    let b = audio_upload_data(&audio, false);
    assert_eq!(&a[..ROW_LEN], &b[..ROW_LEN]);
    assert_ne!(&a[ROW_LEN..], &b[ROW_LEN..]);
}

#[test]
fn band_boundaries() {
    assert_eq!(band_of(0), Band::Bass);
    assert_eq!(band_of(63), Band::Bass);
    assert_eq!(band_of(64), Band::Mid);
    assert_eq!(band_of(223), Band::Mid);
    assert_eq!(band_of(224), Band::High);
    assert_eq!(band_of(511), Band::High);
}

#[test]
fn band_widths_count_their_slots() {
    for b in [Band::Bass, Band::Mid, Band::High] {
        let count = (0..ROW_LEN).filter(|&s| band_of(s) == b).count();
        assert_eq!(count as u32, band_width(b));
    }
    assert_eq!(band_width(Band::Bass), 64);
    assert_eq!(band_width(Band::Mid), 160);
    assert_eq!(band_width(Band::High), 288);
    assert_eq!(
        band_width(Band::Bass) + band_width(Band::Mid) + band_width(Band::High),
        ROW_LEN as u32
    );
}

#[test]
fn each_bin_feeds_four_slots() {
    assert_eq!(bin_of_slot(0), 0);
    assert_eq!(bin_of_slot(3), 0);
    assert_eq!(bin_of_slot(4), 1);
    assert_eq!(bin_of_slot(511), 127);
    for bin in 0..BIN_COUNT {
        assert_eq!((0..ROW_LEN).filter(|&s| bin_of_slot(s) == bin).count(), 4);
    }
}
