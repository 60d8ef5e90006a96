use vstd::prelude::*;
use crate::shader::digit_char;

verus! {

/// What the renderer remembers between frames, apart from GPU objects and
/// floating-point animation values.
#[derive(Clone, Copy, Debug, PartialEq, Eq, Structural)]
pub struct RendererState {
    /// The audio buffer changed since the last upload of the audio texture.
    pub audio_dirty: bool,
    /// No frame has been drawn yet: the album position still has to be set up.
    pub album_first_frame: bool,
    /// The album texture was replaced since the last frame.
    pub album_changed: bool,
}

/// The decisions of one frame.
#[derive(Clone, Copy, Debug, PartialEq, Eq, Structural)]
pub struct FramePlan {
    /// Upload the audio buffer to the audio texture.
    pub upload_audio: bool,
    /// Put the album at its starting position.
    pub place_album_initially: bool,
    /// Move the album to a new position, for a new album picture.
    pub relocate_album: bool,
}

/// The state of a renderer that was just created.
pub open spec fn initial_state() -> RendererState {
    RendererState { audio_dirty: false, album_first_frame: true, album_changed: false }
}

/// The state after new audio data was written.
pub open spec fn marked_dirty(s: RendererState) -> RendererState {
    RendererState { audio_dirty: true, ..s }
}

/// The state after the album texture was replaced.
pub open spec fn album_replaced(s: RendererState) -> RendererState {
    RendererState { album_changed: true, ..s }
}

/// The decisions taken by a frame drawn in state `s`.
pub open spec fn frame_plan(s: RendererState) -> FramePlan {
    FramePlan {
        upload_audio: s.audio_dirty,
        place_album_initially: s.album_first_frame,
        relocate_album: s.album_changed,
    }
}

/// The state after any frame: everything pending was done.
pub open spec fn cleared_state() -> RendererState {
    RendererState { audio_dirty: false, album_first_frame: false, album_changed: false }
}

impl RendererState {
    /// The state of a new renderer: nothing to upload, album not yet placed,
    /// no album picture.
    pub fn new() -> (s: Self)
        ensures
            s == initial_state(),
            !s.audio_dirty,
            s.album_first_frame,
            !s.album_changed,
    {
        RendererState { audio_dirty: false, album_first_frame: true, album_changed: false }
    }

    /// Records that the audio buffer changed, so that the next frame uploads it.
    pub fn mark_audio_dirty(&mut self)
        ensures
            *final(self) == marked_dirty(*old(self)),
            final(self).audio_dirty,
            final(self).album_first_frame == old(self).album_first_frame,
            final(self).album_changed == old(self).album_changed,
    {
        self.audio_dirty = true;
    }

    /// Records that the album texture was replaced, so that the next frame moves the album.
    pub fn album_texture_replaced(&mut self)
        ensures
            *final(self) == album_replaced(*old(self)),
            final(self).album_changed,
            final(self).audio_dirty == old(self).audio_dirty,
            final(self).album_first_frame == old(self).album_first_frame,
    {
        self.album_changed = true;
    }

    /// Takes the decisions of a frame and clears what the frame will do.
    pub fn begin_frame(&mut self) -> (plan: FramePlan)
        ensures
            plan == frame_plan(*old(self)),
            *final(self) == cleared_state(),
            plan.upload_audio == old(self).audio_dirty,
            plan.place_album_initially == old(self).album_first_frame,
            plan.relocate_album == old(self).album_changed,
            !final(self).audio_dirty,
            !final(self).album_first_frame,
            !final(self).album_changed,
    {
        let plan = FramePlan {
            upload_audio: self.audio_dirty,
            place_album_initially: self.album_first_frame,
            relocate_album: self.album_changed,
        };
        self.audio_dirty = false;
        self.album_first_frame = false;
        self.album_changed = false;
        plan
    }
}

/// Each decision of a frame is exactly the matching pending mark of the state
/// it is drawn in: audio is uploaded iff new audio arrived, the album is put at
/// its start iff no frame was drawn yet, and it moves iff a new picture arrived.
/// In particular a renderer that has drawn a frame never puts the album back at
/// its start, whatever audio or pictures arrive.
pub proof fn frame_decisions_follow_pending_marks(s: RendererState)
    ensures
        frame_plan(s).upload_audio == s.audio_dirty,
        frame_plan(s).place_album_initially == s.album_first_frame,
        frame_plan(s).relocate_album == s.album_changed,
        !s.album_first_frame ==> !frame_plan(s).place_album_initially,
{
}

/// New audio and new pictures each set only their own mark; a drawn frame
/// clears all of them; a new renderer has only the first-frame mark.
pub proof fn events_touch_only_their_own_mark(s: RendererState)
    ensures
        marked_dirty(s).audio_dirty,
        marked_dirty(s).album_first_frame == s.album_first_frame,
        marked_dirty(s).album_changed == s.album_changed,
        album_replaced(s).album_changed,
        album_replaced(s).audio_dirty == s.audio_dirty,
        album_replaced(s).album_first_frame == s.album_first_frame,
        !cleared_state().audio_dirty,
        !cleared_state().album_first_frame,
        !cleared_state().album_changed,
        !initial_state().audio_dirty,
        initial_state().album_first_frame,
        !initial_state().album_changed,
{
}

/// A frame drawn after new audio data uploads it, whatever came before.
pub proof fn frame_after_new_audio_uploads(s: RendererState)
    ensures
        frame_plan(marked_dirty(s)).upload_audio,
        frame_plan(album_replaced(marked_dirty(s))).upload_audio,
{
}

/// The audio texture is uploaded only when the data changed: after a frame,
/// the next frame uploads nothing unless new audio data was written, however
/// many album pictures arrive in between.
pub proof fn unchanged_audio_is_not_uploaded()
    ensures
        !frame_plan(cleared_state()).upload_audio,
        !frame_plan(album_replaced(cleared_state())).upload_audio,
        !frame_plan(album_replaced(album_replaced(cleared_state()))).upload_audio,
{
}

/// The album is placed at its start by the first frame of a renderer and by no later one:
/// no event sets the first-frame mark again.
pub proof fn album_placed_only_by_first_frame(s: RendererState)
    ensures
        frame_plan(initial_state()).place_album_initially,
        !frame_plan(cleared_state()).place_album_initially,
        marked_dirty(s).album_first_frame == s.album_first_frame,
        album_replaced(s).album_first_frame == s.album_first_frame,
{
}

/// A new album picture moves the album in the next frame, and only in that one:
/// after a frame, new audio data alone does not move it.
pub proof fn album_moves_once_per_picture(s: RendererState)
    ensures
        frame_plan(album_replaced(s)).relocate_album,
        frame_plan(marked_dirty(album_replaced(s))).relocate_album,
        !frame_plan(cleared_state()).relocate_album,
        !frame_plan(marked_dirty(cleared_state())).relocate_album,
{
}

/// Size of a rain dot when no size is chosen: 3 up to 900 pixels of height,
/// 4 up to 1500, 5 above.
pub open spec fn auto_dot_size_spec(height: int) -> int {
    if height <= 900 {
        3
    } else if height <= 1500 {
        4
    } else {
        5
    }
}

/// Dot size picked from the canvas height when dot mode is off.
pub fn auto_dot_size(height: i32) -> (d: u32)
    ensures
        d == auto_dot_size_spec(height as int),
{
    if height <= 900 {
        3
    } else if height <= 1500 {
        4
    } else {
        5
    }
}

/// The automatic dot size by height band: 3 up to 900 pixels, 4 from 901 to
/// 1500, 5 from 1501 on.
pub proof fn auto_dot_size_thresholds(h: int)
    ensures
        auto_dot_size_spec(h) == 3 <==> h <= 900,
        auto_dot_size_spec(h) == 4 <==> 900 < h <= 1500,
        auto_dot_size_spec(h) == 5 <==> 1500 < h,
{
}

/// The four channels use the four texture units 0 to 3, one each, and only the
/// noise texture repeats.
pub proof fn channels_use_distinct_units(c1: TextureChannel, c2: TextureChannel)
    ensures
        0 <= channel_unit_spec(c1) < 4,
        channel_unit_spec(c1) == channel_unit_spec(c2) ==> c1 == c2,
        channel_unit_spec(TextureChannel::Audio) == 0,
{
}

/// Taller canvases never get smaller dots, and dots stay between 3 and 5.
pub proof fn auto_dot_size_grows_with_height(h1: int, h2: int)
    requires
        h1 <= h2,
    ensures
        auto_dot_size_spec(h1) <= auto_dot_size_spec(h2),
        3 <= auto_dot_size_spec(h1) <= 5,
{
}

/// The four textures a frame samples, in the order of their texture units.
#[derive(Clone, Copy, Debug, PartialEq, Eq, Structural)]
pub enum TextureChannel {
    Audio,
    Logo,
    Noise,
    Album,
}

/// Texture unit of a channel; the shader's sampler `iChannel<unit>` reads it.
pub open spec fn channel_unit_spec(c: TextureChannel) -> int {
    match c {
        TextureChannel::Audio => 0,
        TextureChannel::Logo => 1,
        TextureChannel::Noise => 2,
        TextureChannel::Album => 3,
    }
}

impl TextureChannel {
    /// The texture unit the channel is bound to, which is also the value of its sampler uniform.
    pub fn unit(&self) -> (u: u32)
        ensures
            u == channel_unit_spec(*self),
    {
        match self {
            TextureChannel::Audio => 0,
            TextureChannel::Logo => 1,
            TextureChannel::Noise => 2,
            TextureChannel::Album => 3,
        }
    }

    /// Name of the shader sampler that reads the channel: `iChannel` and the unit.
    pub fn sampler_name(&self) -> (name: &'static str)
        ensures
            name@ == "iChannel"@ + seq![digit_char(channel_unit_spec(*self))],
    {
        proof { reveal_strlit("iChannel"); }
        match self {
            TextureChannel::Audio => {
                proof { reveal_strlit("iChannel0"); }
                "iChannel0"
            },
            TextureChannel::Logo => {
                proof { reveal_strlit("iChannel1"); }
                "iChannel1"
            },
            TextureChannel::Noise => {
                proof { reveal_strlit("iChannel2"); }
                "iChannel2"
            },
            TextureChannel::Album => {
                proof { reveal_strlit("iChannel3"); }
                "iChannel3"
            },
        }
    }

    /// The noise texture repeats across the screen; the others are clamped at their edges.
    pub fn repeats(&self) -> (r: bool)
        ensures
            r == (*self == TextureChannel::Noise),
    {
        match self {
            TextureChannel::Noise => true,
            _ => false,
        }
    }
}

} // verus!
