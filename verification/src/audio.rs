use vstd::prelude::*;

verus! {

/// Number of spectrum slots, and of waveform samples: one row of the audio texture each.
pub const ROW_LEN: usize = 512;

/// Number of bytes in the audio texture: the spectrum row, then the waveform row.
pub const AUDIO_BUFFER_LEN: usize = 1024;

/// Waveform value of silence: the middle of the byte range.
pub const WAVE_REST: u8 = 128;

/// Width of the audio texture in texels.
pub const AUDIO_TEXTURE_WIDTH: i32 = 512;

/// Height of the audio texture in texels: the spectrum row and the waveform row.
pub const AUDIO_TEXTURE_HEIGHT: i32 = 2;

/// Bytes of the audio texture, one per texel: `[0, 512)` holds the smoothed
/// spectrum, `[512, 1024)` the synthesized waveform.
pub struct AudioBuffer {
    bytes: Vec<u8>,
}

impl View for AudioBuffer {
    type V = Seq<u8>;

    closed spec fn view(&self) -> Seq<u8> {
        self.bytes@
    }
}

impl AudioBuffer {
    /// The buffer holds exactly the bytes of one audio texture.
    pub open spec fn well_formed(&self) -> bool {
        self@.len() == AUDIO_BUFFER_LEN
    }

    /// A silent-looking buffer: every byte 0.
    pub fn new() -> (b: Self)
        ensures
            b@ == Seq::new(AUDIO_BUFFER_LEN as nat, |i: int| 0u8),
            b.well_formed(),
    {
        let mut bytes: Vec<u8> = Vec::new();
        let mut i: usize = 0;
        while i < AUDIO_BUFFER_LEN
            invariant
                i <= AUDIO_BUFFER_LEN,
                bytes@ == Seq::new(i as nat, |k: int| 0u8),
            decreases AUDIO_BUFFER_LEN - i,
        {
            bytes.push(0u8);
            i = i + 1;
        }
        AudioBuffer { bytes }
    }

    /// Writes spectrum slot `slot` (texel `slot` of the first row).
    pub fn set_spectrum(&mut self, slot: usize, value: u8)
        requires
            old(self).well_formed(),
            slot < ROW_LEN,
        ensures
            final(self)@ == old(self)@.update(slot as int, value),
            final(self).well_formed(),
    {
        self.bytes.set(slot, value);
    }

    /// Writes waveform sample `slot` (texel `slot` of the second row).
    pub fn set_wave(&mut self, slot: usize, value: u8)
        requires
            old(self).well_formed(),
            slot < ROW_LEN,
        ensures
            final(self)@ == old(self)@.update(ROW_LEN + slot, value),
            final(self).well_formed(),
    {
        self.bytes.set(ROW_LEN + slot, value);
    }

    /// The bytes in texture order.
    pub fn as_slice(&self) -> (s: &[u8])
        ensures
            s@ == self@,
    {
        self.bytes.as_slice()
    }
}

/// What is sent to the audio texture: the buffer itself, or, with the waveform
/// silenced, its spectrum row followed by a flat waveform row at rest.
pub open spec fn upload_spec(audio: Seq<u8>, silence_wave: bool) -> Seq<u8> {
    if silence_wave {
        Seq::new(
            AUDIO_BUFFER_LEN as nat,
            |i: int| if i < ROW_LEN { audio[i] } else { WAVE_REST },
        )
    } else {
        audio
    }
}

/// The bytes to upload to the audio texture for `audio`. With `silence_wave`
/// the spectrum row is kept and every waveform byte is `WAVE_REST`; otherwise
/// the whole buffer is sent as it is.
pub fn audio_upload_data(audio: &[u8], silence_wave: bool) -> (data: Vec<u8>)
    requires
        silence_wave ==> audio@.len() >= ROW_LEN,
        !silence_wave ==> audio@.len() == AUDIO_BUFFER_LEN,
    ensures
        data@ == upload_spec(audio@, silence_wave),
        data@.len() == AUDIO_BUFFER_LEN,
        !silence_wave ==> data@ == audio@,
        forall|i: int| 0 <= i < ROW_LEN ==> data@[i] == audio@[i],
        forall|i: int| silence_wave && ROW_LEN <= i < AUDIO_BUFFER_LEN ==> data@[i] == WAVE_REST,
{
    let mut data: Vec<u8> = Vec::new();
    let mut i: usize = 0;
    while i < AUDIO_BUFFER_LEN
        invariant
            i <= AUDIO_BUFFER_LEN,
            silence_wave ==> audio@.len() >= ROW_LEN,
            !silence_wave ==> audio@.len() == AUDIO_BUFFER_LEN,
            data@ == upload_spec(audio@, silence_wave).take(i as int),
        decreases AUDIO_BUFFER_LEN - i,
    {
        let byte = if silence_wave && i >= ROW_LEN { WAVE_REST } else { audio[i] };
        data.push(byte);
        i = i + 1;
    }
    assert(data@ =~= upload_spec(audio@, silence_wave));
    data
}

/// The upload copies: unsilenced it is the buffer byte for byte; silenced,
/// every spectrum byte is the buffer's own byte at that position and every
/// waveform byte is 128, whatever the neighbouring bytes hold.
pub proof fn upload_copies_the_buffer(audio: Seq<u8>, i: int)
    requires
        audio.len() == AUDIO_BUFFER_LEN,
    ensures
        upload_spec(audio, false) == audio,
        upload_spec(audio, true).len() == AUDIO_BUFFER_LEN,
        0 <= i < 512 ==> upload_spec(audio, true)[i] == audio[i],
        512 <= i < 1024 ==> upload_spec(audio, true)[i] == 128,
{
}

/// Number of frequency bins the host delivers; bins beyond it are ignored.
pub const BIN_COUNT: usize = 128;

/// Input bin that feeds a spectrum slot: every bin is spread over four
/// consecutive slots, so slot `s` reads bin `s / 4`.
pub fn bin_of_slot(slot: usize) -> (bin: usize)
    requires
        slot < ROW_LEN,
    ensures
        bin == slot / 4,
        bin < BIN_COUNT,
{
    slot / 4
}

/// Each of the 128 bins feeds exactly the four slots `4 * bin .. 4 * bin + 3`,
/// and together they cover the spectrum row.
pub proof fn bins_spread_over_four_slots(bin: int, slot: int)
    requires
        0 <= bin < BIN_COUNT,
        0 <= slot < ROW_LEN,
    ensures
        slot / 4 == bin <==> 4 * bin <= slot < 4 * bin + 4,
        BIN_COUNT * 4 == ROW_LEN,
{
}

/// Frequency band of a spectrum slot.
#[derive(Clone, Copy, Debug, PartialEq, Eq, Structural)]
pub enum Band {
    Bass,
    Mid,
    High,
}

/// First slot of a band.
pub open spec fn band_start(b: Band) -> int {
    match b {
        Band::Bass => 0,
        Band::Mid => 64,
        Band::High => 224,
    }
}

/// One past the last slot of a band.
pub open spec fn band_end(b: Band) -> int {
    match b {
        Band::Bass => 64,
        Band::Mid => 224,
        Band::High => ROW_LEN as int,
    }
}

/// The band a slot belongs to: bass below 64, mid below 224, high above.
pub fn band_of(slot: usize) -> (b: Band)
    requires
        slot < ROW_LEN,
    ensures
        band_start(b) <= slot < band_end(b),
        (b == Band::Bass) == (slot < 64),
        (b == Band::Mid) == (64 <= slot < 224),
        (b == Band::High) == (224 <= slot),
{
    if slot < 64 {
        Band::Bass
    } else if slot < 224 {
        Band::Mid
    } else {
        Band::High
    }
}

/// Number of spectrum slots in a band: the divisor of the band's average.
pub fn band_width(b: Band) -> (n: u32)
    ensures
        n == band_end(b) - band_start(b),
        b == Band::Bass ==> n == 64,
        b == Band::Mid ==> n == 160,
        b == Band::High ==> n == 288,
{
    match b {
        Band::Bass => 64,
        Band::Mid => 160,
        Band::High => 288,
    }
}

/// The bands split the spectrum row: they follow one another from slot 0 to
/// the end of the row, so every slot lies in exactly one band, and their
/// widths add up to the row.
pub proof fn bands_partition_the_row(slot: int)
    requires
        0 <= slot < ROW_LEN,
    ensures
        band_start(Band::Bass) == 0,
        band_end(Band::Bass) == band_start(Band::Mid),
        band_end(Band::Mid) == band_start(Band::High),
        band_end(Band::High) == ROW_LEN,
        (band_end(Band::Bass) - band_start(Band::Bass)) + (band_end(Band::Mid) - band_start(
            Band::Mid,
        )) + (band_end(Band::High) - band_start(Band::High)) == ROW_LEN,
        exists|b: Band| #[trigger] band_start(b) <= slot < band_end(b),
        forall|b1: Band, b2: Band|
            #![trigger band_start(b1), band_start(b2)]
            band_start(b1) <= slot < band_end(b1) && band_start(b2) <= slot < band_end(b2) ==> b1
                == b2,
{
    if slot < 64 {
        assert(band_start(Band::Bass) <= slot < band_end(Band::Bass));
    } else if slot < 224 {
        assert(band_start(Band::Mid) <= slot < band_end(Band::Mid));
    } else {
        assert(band_start(Band::High) <= slot < band_end(Band::High));
    }
}

/// The bands by slot number: bass is slots 0 to 63, mid 64 to 223, high 224 to 511.
pub proof fn band_ranges(slot: int)
    ensures
        band_start(Band::Bass) <= slot < band_end(Band::Bass) <==> 0 <= slot < 64,
        band_start(Band::Mid) <= slot < band_end(Band::Mid) <==> 64 <= slot < 224,
        band_start(Band::High) <= slot < band_end(Band::High) <==> 224 <= slot < 512,
{
}

/// Silencing the waveform never touches the spectrum: both uploads agree on the first row.
pub proof fn silencing_keeps_spectrum(audio: Seq<u8>, slot: int)
    requires
        audio.len() == AUDIO_BUFFER_LEN,
        0 <= slot < ROW_LEN,
    ensures
        upload_spec(audio, true)[slot] == upload_spec(audio, false)[slot],
{
}

} // verus!
