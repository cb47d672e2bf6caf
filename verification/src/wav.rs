//! The audio container: 16-bit integer PCM in a RIFF/WAVE file, written by
//! `hound` into memory.

use vstd::prelude::*;
use vstd::string::StringExecFns;

verus! {

/// The sample rate that the transcription service is sent.
pub const TRANSCRIPTION_SAMPLE_RATE: u32 = 16000;

/// The length of the header that stands before the samples.
pub const WAV_HEADER_LEN: usize = 44;

/// The step of writing at which the container could not be produced.
#[derive(Clone, Copy, Debug, PartialEq, Eq, Structural)]
pub enum WavStage {
    /// The header could not be written.
    Create,
    /// A sample could not be written.
    Write,
    /// The lengths in the header could not be filled in.
    Finalize,
}

/// The two bytes of `x`, least significant first. Meant for `0 <= x < 65536`.
pub open spec fn le16(x: int) -> Seq<u8> {
    seq![(x % 256) as u8, (x / 256) as u8]
}

/// The four bytes of `x`, least significant first. Meant for `0 <= x < 2^32`.
pub open spec fn le32(x: int) -> Seq<u8> {
    seq![
        (x % 256) as u8,
        (x / 256 % 256) as u8,
        (x / 65536 % 256) as u8,
        (x / 16777216) as u8,
    ]
}

/// A sample as the unsigned 16-bit word that stores it (two's complement).
pub open spec fn pcm_word(sample: i16) -> int {
    if sample >= 0 {
        sample as int
    } else {
        sample + 65536
    }
}

/// The sample that the word `word` stores.
pub open spec fn word_sample(word: int) -> int {
    if word < 32768 {
        word
    } else {
        word - 65536
    }
}

/// The data chunk's content: every sample as two bytes, least significant
/// first, in order.
pub open spec fn pcm_bytes(samples: Seq<i16>) -> Seq<u8> {
    Seq::new(2 * samples.len(), |i: int| le16(pcm_word(samples[i / 2]))[i % 2])
}

/// The 44 bytes before the samples of a 16-bit integer PCM file with
/// `data_len` bytes of samples.
pub open spec fn wav_header(channels: u16, sample_rate: u32, data_len: int) -> Seq<u8> {
    seq![0x52u8, 0x49u8, 0x46u8, 0x46u8]  // "RIFF"
     + le32(data_len + 36)  // what follows these eight bytes
     + seq![0x57u8, 0x41u8, 0x56u8, 0x45u8]  // "WAVE"
     + seq![0x66u8, 0x6du8, 0x74u8, 0x20u8]  // "fmt "
     + le32(16)  // length of the format chunk
     + le16(1)  // integer PCM
     + le16(channels as int) + le32(sample_rate as int)  //
     + le32(sample_rate * 2 * channels)  // bytes per second
     + le16(2 * channels)  // bytes per frame
     + le16(16)  // bits per sample
     + seq![0x64u8, 0x61u8, 0x74u8, 0x61u8]  // "data"
     + le32(data_len)
}

/// The whole file for `samples`.
pub open spec fn wav_file(channels: u16, sample_rate: u32, samples: Seq<i16>) -> Seq<u8> {
    wav_header(channels, sample_rate, 2 * (samples.len() as int)) + pcm_bytes(samples)
}

/// Which files can be written: the rate is not zero, and the byte rate and the
/// file's length fit the 32-bit fields of the header.
pub open spec fn fits_container(channels: u16, sample_rate: u32, count: nat) -> bool {
    &&& 1 <= channels <= 2
    &&& 1 <= sample_rate
    &&& sample_rate * 2 * channels <= u32::MAX
    &&& 2 * count + 36 <= u32::MAX
}

/// The samples that a file's data chunk holds, read back from behind the
/// header.
pub open spec fn stored_samples(file: Seq<u8>) -> Seq<int> {
    Seq::new(
        ((file.len() - WAV_HEADER_LEN) / 2) as nat,
        |i: int| word_sample(file[WAV_HEADER_LEN + 2 * i] + 256 * file[WAV_HEADER_LEN + 2 * i + 1]),
    )
}

/// `hound::Error`, the writer's account of a failure. It is carried to
/// `hound_error_text` and nothing is known of what it holds.
#[verifier::external_type_specification]
#[verifier::external_body]
pub struct ExHoundError(hound::Error);

/// Runs one `hound::WavWriter` over an in-memory cursor: `WavWriter::new` with
/// a 16-bit integer spec, `write_sample` for each sample, `finalize`.
///
/// Trusted: on these inputs all three succeed, and the cursor then holds the
/// PCMWAVEFORMAT header that hound writes for at most two channels and 16
/// bits, with both length fields filled in, followed by each sample as a
/// little-endian word. Hound refuses a spec only for its bit depth, a 16-bit
/// sample at 16 bits is written as it is, and `finalize` objects only to a
/// count that is no multiple of the channels; a cursor over a `Vec` takes
/// every write. The `requires` keeps away what hound's own arithmetic cannot
/// take: a zero sample rate, and rates and lengths past 32 bits.
#[verifier::external_body]
fn hound_write_pcm16(channels: u16, sample_rate: u32, samples: &[i16]) -> (r: Result<
    Vec<u8>,
    (WavStage, hound::Error),
>)
    requires
        fits_container(channels, sample_rate, samples@.len()),
        samples@.len() % (channels as nat) == 0,
    ensures
        r is Ok,
        r matches Ok(bytes) ==> bytes@ == wav_file(channels, sample_rate, samples@),
{
    let spec = hound::WavSpec { channels, sample_rate, bits_per_sample: 16, sample_format: hound::SampleFormat::Int };
    let mut sink = std::io::Cursor::new(Vec::new());
    let mut writer = match hound::WavWriter::new(&mut sink, spec) {
        Ok(writer) => writer,
        Err(e) => return Err((WavStage::Create, e)),
    };
    for sample in samples {
        if let Err(e) = writer.write_sample(*sample) { return Err((WavStage::Write, e)); }
    }
    if let Err(e) = writer.finalize() { return Err((WavStage::Finalize, e)); }
    Ok(sink.into_inner())
}

/// The text that `hound::Error` shows through `Display`. Nothing is claimed
/// of it.
#[verifier::external_body]
fn hound_error_text(error: &hound::Error) -> String {
    format!("{}", error)
}

/// How a failure at `stage` is introduced.
pub open spec fn stage_prefix(stage: WavStage) -> Seq<char> {
    match stage {
        WavStage::Create => "Failed to create WAV writer: "@,
        WavStage::Write => "Failed to write sample: "@,
        WavStage::Finalize => "Failed to finalize WAV: "@,
    }
}

/// The message for a failure at `stage` that the writer described as `detail`.
pub fn wav_failure(stage: WavStage, detail: &str) -> (message: String)
    ensures
        message@ == stage_prefix(stage) + detail@,
{
    let prefix = match stage {
        WavStage::Create => "Failed to create WAV writer: ",
        WavStage::Write => "Failed to write sample: ",
        WavStage::Finalize => "Failed to finalize WAV: ",
    };
    String::from_str(prefix).concat(detail)
}

/// The message for a sample rate or a length that the container cannot hold.
pub open spec fn unfit_message() -> Seq<char> {
    "Failed to create WAV writer: sample rate or length out of range"@
}

/// Whether `count` mono samples at `sample_rate` can be written.
pub fn fits_mono(sample_rate: u32, count: usize) -> (fits: bool)
    ensures
        fits == fits_container(1, sample_rate, count as nat),
{
    sample_rate >= 1 && sample_rate <= 0x7fff_ffff && count <= 0x7fff_ffed
}

/// The samples as the integers that contracts compare them by.
pub open spec fn sample_values(samples: Seq<i16>) -> Seq<int> {
    samples.map_values(|sample: i16| sample as int)
}

/// What encoding `samples` at `sample_rate` gives: the file, or the refusal of
/// an input that the container's 32-bit fields cannot describe.
pub open spec fn encoded(samples: Seq<i16>, sample_rate: u32) -> Result<Seq<u8>, Seq<char>> {
    if fits_container(1, sample_rate, samples.len()) {
        Ok(wav_file(1, sample_rate, samples))
    } else {
        Err(unfit_message())
    }
}

/// Encodes mono 16-bit samples as a WAVE file in memory.
///
/// An input that the container's 32-bit fields cannot describe is refused
/// before anything is written. Every other input gives the file: its header
/// declares one channel of 16-bit integer PCM at `sample_rate`, and its data
/// chunk holds the samples, each one exactly and in order.
///
/// The writer's own report of a failure is still passed on under the step
/// that failed, though on the inputs that reach it the writer has none to
/// make.
pub fn samples_to_wav(samples: &[i16], sample_rate: u32) -> (r: Result<Vec<u8>, String>)
    ensures
        fits_container(1, sample_rate, samples@.len()) ==> (r matches Ok(bytes) && bytes@
            == wav_file(1, sample_rate, samples@)),
        !fits_container(1, sample_rate, samples@.len()) ==> (r matches Err(m) && m@
            == unfit_message()),
        r matches Ok(bytes) ==> bytes@.len() == WAV_HEADER_LEN + 2 * samples@.len()
            && stored_samples(bytes@) == sample_values(samples@),
{
    if !fits_mono(sample_rate, samples.len()) {
        return Err(String::from_str("Failed to create WAV writer: sample rate or length out of range"));
    }
    proof {
        lemma_wav_len(1, sample_rate, samples@);
        lemma_wav_round_trip(1, sample_rate, samples@);
    }
    match hound_write_pcm16(1, sample_rate, samples) {
        Ok(bytes) => Ok(bytes),
        Err((stage, error)) => {
            let detail = hound_error_text(&error);
            Err(wav_failure(stage, detail.as_str()))
        },
    }
}

/// A written file is its 44-byte header and two bytes for each sample.
pub proof fn lemma_wav_len(channels: u16, sample_rate: u32, samples: Seq<i16>)
    ensures
        wav_file(channels, sample_rate, samples).len() == WAV_HEADER_LEN + 2 * samples.len(),
        wav_header(channels, sample_rate, 2 * (samples.len() as int)).len() == WAV_HEADER_LEN,
{
}

/// Where the header says what the file holds: the format tag at byte 20, the
/// channels at 22, the sample rate at 24, the bits of a sample at 34 and the
/// length of the data at 40, each least significant byte first.
pub proof fn lemma_wav_header_fields(channels: u16, sample_rate: u32, samples: Seq<i16>)
    ensures
        wav_file(channels, sample_rate, samples).subrange(20, 22) == le16(1),
        wav_file(channels, sample_rate, samples).subrange(22, 24) == le16(channels as int),
        wav_file(channels, sample_rate, samples).subrange(24, 28) == le32(sample_rate as int),
        wav_file(channels, sample_rate, samples).subrange(34, 36) == le16(16),
        wav_file(channels, sample_rate, samples).subrange(40, 44) == le32(2 * (samples.len() as int)),
        wav_file(channels, sample_rate, samples).subrange(44, 44 + 2 * (samples.len() as int))
            == pcm_bytes(samples),
{
    let file = wav_file(channels, sample_rate, samples);
    lemma_wav_len(channels, sample_rate, samples);
    assert(file.subrange(20, 22) =~= le16(1));
    assert(file.subrange(22, 24) =~= le16(channels as int));
    assert(file.subrange(24, 28) =~= le32(sample_rate as int));
    assert(file.subrange(34, 36) =~= le16(16));
    assert(file.subrange(40, 44) =~= le32(2 * (samples.len() as int)));
    assert(file.subrange(44, 44 + 2 * (samples.len() as int)) =~= pcm_bytes(samples));
}

/// What was written can be read back: the words stored after the header of a
/// written file are the samples that went in, each one exactly and in order.
pub proof fn lemma_wav_round_trip(channels: u16, sample_rate: u32, samples: Seq<i16>)
    ensures
        stored_samples(wav_file(channels, sample_rate, samples)) == sample_values(samples),
{
    let file = wav_file(channels, sample_rate, samples);
    lemma_wav_len(channels, sample_rate, samples);
    assert forall|i: int| 0 <= i < samples.len() implies #[trigger] stored_samples(file)[i]
        == samples[i] by {
        let w = pcm_word(samples[i]);
        assert(file[44 + 2 * i] == pcm_bytes(samples)[2 * i]);
        assert(file[44 + 2 * i + 1] == pcm_bytes(samples)[2 * i + 1]);
        assert((2 * i) / 2 == i && (2 * i) % 2 == 0);
        assert((2 * i + 1) / 2 == i && (2 * i + 1) % 2 == 1);
        assert(0 <= w < 65536);
        assert(file[44 + 2 * i] == (w % 256) as u8);
        assert(file[44 + 2 * i + 1] == (w / 256) as u8);
        assert(w == w % 256 + 256 * (w / 256));
    }
    assert(stored_samples(file) =~= sample_values(samples));
}

} // verus!
