//! Negotiation of the capture format, and the steps that every captured
//! buffer goes through.

use vstd::prelude::*;
use vstd::string::StringExecFns;
use crate::audio::denoise::DENOISE_SAMPLE_RATE;
use crate::error::AppError;

verus! {

/// Most channels that a capture configuration may have.
pub const MAX_CHANNELS: u16 = 2;

/// A representation of samples that the pipeline cannot take.
#[derive(Debug, Clone, Copy, PartialEq, Eq, Structural)]
pub enum OtherFormat {
    Int8,
    Int64,
    UInt8,
    UInt16,
    UInt32,
    UInt64,
    Float64,
    /// One that has no name here.
    Unknown,
}

/// How a device represents one sample.
#[derive(Debug, Clone, Copy, PartialEq, Eq, Structural)]
pub enum SampleFormat {
    Float32,
    Int16,
    Int32,
    /// Any representation that the pipeline cannot take.
    Unsupported(OtherFormat),
}

impl OtherFormat {
    /// The name under which the format is reported.
    pub open spec fn spec_name(self) -> Seq<char> {
        match self {
            OtherFormat::Int8 => "I8"@,
            OtherFormat::Int64 => "I64"@,
            OtherFormat::UInt8 => "U8"@,
            OtherFormat::UInt16 => "U16"@,
            OtherFormat::UInt32 => "U32"@,
            OtherFormat::UInt64 => "U64"@,
            OtherFormat::Float64 => "F64"@,
            OtherFormat::Unknown => "Unknown"@,
        }
    }

    /// The name under which the format is reported.
    pub fn name(self) -> (n: &'static str)
        ensures
            n@ == self.spec_name(),
    {
        match self {
            OtherFormat::Int8 => "I8",
            OtherFormat::Int64 => "I64",
            OtherFormat::UInt8 => "U8",
            OtherFormat::UInt16 => "U16",
            OtherFormat::UInt32 => "U32",
            OtherFormat::UInt64 => "U64",
            OtherFormat::Float64 => "F64",
            OtherFormat::Unknown => "Unknown",
        }
    }
}

/// One configuration that the input device offers.
#[derive(Debug, Clone, Copy, PartialEq, Eq, Structural)]
pub struct SupportedConfig {
    pub channels: u16,
    pub min_sample_rate: u32,
    pub max_sample_rate: u32,
    pub sample_format: SampleFormat,
}

/// The configuration that a session captures with.
#[derive(Debug, Clone, Copy, PartialEq, Eq, Structural)]
pub struct CaptureConfig {
    pub channels: u16,
    pub sample_format: SampleFormat,
    pub sample_rate: u32,
}

/// Common rates to fall back on, in the order in which they are tried.
pub open spec fn fallback_rates() -> Seq<u32> {
    seq![48000u32, 44100u32, 24000u32, 22050u32]
}

impl SupportedConfig {
    /// At most two channels, and `rate` within the range of rates.
    pub open spec fn spec_supports(self, rate: u32) -> bool {
        self.channels <= MAX_CHANNELS && self.min_sample_rate <= rate <= self.max_sample_rate
    }

    /// Whether this configuration can capture at `rate`.
    pub fn supports(&self, rate: u32) -> (b: bool)
        ensures
            b == self.spec_supports(rate),
    {
        self.channels <= MAX_CHANNELS && self.min_sample_rate <= rate && rate
            <= self.max_sample_rate
    }
}

/// The first configuration from `from` on that supports `rate`.
pub open spec fn first_supporting_from(configs: Seq<SupportedConfig>, rate: u32, from: int)
    -> Option<int>
    decreases configs.len() - from,
{
    if from < 0 || from >= configs.len() {
        None
    } else if configs[from].spec_supports(rate) {
        Some(from)
    } else {
        first_supporting_from(configs, rate, from + 1)
    }
}

/// The first configuration that supports `rate`.
pub open spec fn first_supporting(configs: Seq<SupportedConfig>, rate: u32) -> Option<int> {
    first_supporting_from(configs, rate, 0)
}

/// The first of the fallback rates from `from` on that some configuration
/// supports, with the first configuration that does.
pub open spec fn first_fallback_from(configs: Seq<SupportedConfig>, from: int) -> Option<
    (int, u32),
>
    decreases fallback_rates().len() - from,
{
    if from < 0 || from >= fallback_rates().len() {
        None
    } else {
        match first_supporting(configs, fallback_rates()[from]) {
            Some(i) => Some((i, fallback_rates()[from])),
            None => first_fallback_from(configs, from + 1),
        }
    }
}

/// The configuration and rate to capture with: the first configuration that
/// supports the wanted rate, or else the first fallback rate that any
/// configuration supports.
pub open spec fn spec_select(configs: Seq<SupportedConfig>, target_rate: u32) -> Option<
    (int, u32),
> {
    match first_supporting(configs, target_rate) {
        Some(i) => Some((i, target_rate)),
        None => first_fallback_from(configs, 0),
    }
}

/// `first_supporting_from` finds a supporting configuration, and none
/// stands before it; it finds none only if there is none.
pub proof fn lemma_first_supporting(configs: Seq<SupportedConfig>, rate: u32, from: int)
    requires
        0 <= from,
    ensures
        match first_supporting_from(configs, rate, from) {
            Some(i) => {
                &&& from <= i < configs.len()
                &&& configs[i].spec_supports(rate)
                &&& forall|j: int| from <= j < i ==> !(#[trigger] configs[j]).spec_supports(rate)
            },
            None => forall|j: int|
                from <= j < configs.len() ==> !(#[trigger] configs[j]).spec_supports(rate),
        },
    decreases configs.len() - from,
{
    if from < configs.len() && !configs[from].spec_supports(rate) {
        lemma_first_supporting(configs, rate, from + 1);
    }
}

fn find_supporting(configs: &[SupportedConfig], rate: u32) -> (found: Option<usize>)
    ensures
        match found {
            Some(i) => first_supporting(configs@, rate) == Some(i as int),
            None => first_supporting(configs@, rate) is None,
        },
{
    let mut i: usize = 0;
    while i < configs.len()
        invariant
            i <= configs.len(),
            first_supporting(configs@, rate) == first_supporting_from(configs@, rate, i as int),
        decreases configs.len() - i,
    {
        if configs[i].supports(rate) {
            return Some(i);
        }
        i += 1;
    }
    None
}

/// Picks the configuration and the rate to capture with.
pub fn select_config(configs: &[SupportedConfig], target_rate: u32) -> (choice: Option<
    (usize, u32),
>)
    ensures
        match choice {
            Some((i, rate)) => spec_select(configs@, target_rate) == Some((i as int, rate)),
            None => spec_select(configs@, target_rate) is None,
        },
{
    if let Some(i) = find_supporting(configs, target_rate) {
        return Some((i, target_rate));
    }
    let rates: [u32; 4] = [48000, 44100, 24000, 22050];
    let mut k: usize = 0;
    while k < 4
        invariant
            k <= 4,
            rates@ == fallback_rates(),
            first_supporting(configs@, target_rate) is None,
            spec_select(configs@, target_rate) == first_fallback_from(configs@, k as int),
        decreases 4 - k,
    {
        let rate = rates[k];
        if let Some(i) = find_supporting(configs, rate) {
            return Some((i, rate));
        }
        k += 1;
    }
    None
}

/// What negotiation answers for `configs` and the wanted rate.
pub open spec fn spec_negotiate(configs: Seq<SupportedConfig>, target_rate: u32) -> Result<
    CaptureConfig,
    Seq<char>,
> {
    match spec_select(configs, target_rate) {
        None => Err("No suitable audio configuration found"@),
        Some((i, rate)) => match configs[i].sample_format {
            SampleFormat::Unsupported(other) => Err(
                "Unsupported sample format: "@ + other.spec_name(),
            ),
            _ => Ok(
                CaptureConfig {
                    channels: configs[i].channels,
                    sample_format: configs[i].sample_format,
                    sample_rate: rate,
                },
            ),
        },
    }
}

/// Negotiates the capture format with what the device offers.
///
/// The first configuration with at most two channels whose rates cover
/// `target_rate` is taken at that rate. If there is none, the fallback
/// rates are tried in order. It is an audio error if nothing fits, or if
/// the configuration found has a sample format that the pipeline cannot
/// take; the error then names the format.
pub fn negotiate(configs: &[SupportedConfig], target_rate: u32) -> (r: Result<
    CaptureConfig,
    AppError,
>)
    ensures
        match spec_negotiate(configs@, target_rate) {
            Ok(config) => r == Ok::<CaptureConfig, AppError>(config),
            Err(text) => r matches Err(AppError::Audio(detail)) && detail@ == text,
        },
{
    match select_config(configs, target_rate) {
        None => Err(AppError::Audio(String::from_str("No suitable audio configuration found"))),
        Some((i, rate)) => {
            proof {
                lemma_first_supporting(configs@, rate, 0);
                lemma_select_in_range(configs@, target_rate);
            }
            let chosen = &configs[i];
            match chosen.sample_format {
                SampleFormat::Unsupported(other) => Err(
                    AppError::Audio(
                        String::from_str("Unsupported sample format: ").concat(other.name()),
                    ),
                ),
                _ => Ok(
                    CaptureConfig {
                        channels: chosen.channels,
                        sample_format: chosen.sample_format,
                        sample_rate: rate,
                    },
                ),
            }
        },
    }
}

proof fn lemma_fallback_in_range(configs: Seq<SupportedConfig>, from: int)
    requires
        0 <= from,
    ensures
        first_fallback_from(configs, from) matches Some((i, rate)) ==> {
            &&& 0 <= i < configs.len()
            &&& configs[i].spec_supports(rate)
            &&& first_supporting(configs, rate) == Some(i)
            &&& exists|k: int| from <= k < fallback_rates().len() && fallback_rates()[k] == rate
        },
    decreases fallback_rates().len() - from,
{
    if from < fallback_rates().len() {
        lemma_first_supporting(configs, fallback_rates()[from], 0);
        if first_supporting(configs, fallback_rates()[from]) is None {
            lemma_fallback_in_range(configs, from + 1);
        }
    }
}

/// What is selected is a configuration of the device that supports the
/// rate selected, the first such, and the rate is the wanted one or one of
/// the fallback rates.
pub proof fn lemma_select_in_range(configs: Seq<SupportedConfig>, target_rate: u32)
    ensures
        spec_select(configs, target_rate) matches Some((i, rate)) ==> {
            &&& 0 <= i < configs.len()
            &&& configs[i].spec_supports(rate)
            &&& first_supporting(configs, rate) == Some(i)
            &&& (rate == target_rate || fallback_rates().contains(rate))
        },
{
    lemma_first_supporting(configs, target_rate, 0);
    lemma_fallback_in_range(configs, 0);
}

/// A negotiated configuration has at most two channels and a sample format
/// that the pipeline can take.
pub proof fn lemma_negotiated_is_usable(configs: Seq<SupportedConfig>, target_rate: u32)
    ensures
        spec_negotiate(configs, target_rate) matches Ok(config) ==> {
            &&& config.channels <= MAX_CHANNELS
            &&& !(config.sample_format is Unsupported)
        },
{
    lemma_select_in_range(configs, target_rate);
}

// ============ Per-buffer steps ============

/// Which of the optional steps a captured buffer goes through.
#[derive(Debug, Clone, Copy, PartialEq, Eq, Structural)]
pub struct PipelinePlan {
    /// Average pairs of channels into one.
    pub downmix: bool,
    /// Convert from the device's rate to the suppressor's.
    pub upsample: bool,
    /// Convert from the suppressor's rate to the output rate.
    pub downsample: bool,
}

/// Plans the steps for buffers captured with `config` and wanted at
/// `target_rate`. Rate conversions are left out where the rates agree.
pub fn plan_pipeline(config: &CaptureConfig, target_rate: u32) -> (plan: PipelinePlan)
    ensures
        plan.downmix == (config.channels == 2),
        plan.upsample == (config.sample_rate != DENOISE_SAMPLE_RATE),
        plan.downsample == (target_rate != DENOISE_SAMPLE_RATE),
{
    PipelinePlan {
        downmix: config.channels == 2,
        upsample: config.sample_rate != DENOISE_SAMPLE_RATE,
        downsample: target_rate != DENOISE_SAMPLE_RATE,
    }
}

/// Half of `x`, rounded towards zero.
pub open spec fn half_towards_zero(x: int) -> int {
    if x >= 0 {
        x / 2
    } else {
        -((-x) / 2)
    }
}

/// The sample at `i`, or silence past the end.
pub open spec fn sample_or_silence(data: Seq<int>, i: int) -> int {
    if 0 <= i < data.len() {
        data[i]
    } else {
        0
    }
}

/// Interleaved stereo as mono: each pair of samples becomes half their sum,
/// rounded towards zero. A last sample without a partner is paired with
/// silence.
pub open spec fn mono_mix(data: Seq<int>) -> Seq<int> {
    Seq::new(
        ((data.len() + 1) / 2) as nat,
        |k: int| half_towards_zero(data[2 * k] + sample_or_silence(data, 2 * k + 1)),
    )
}

/// Mixes interleaved 16-bit samples down to mono if there are two channels,
/// and leaves them as they are otherwise.
pub fn downmix_i16(data: &[i16], channels: u16) -> (mono: Vec<i16>)
    ensures
        channels == 2 ==> mono@.map_values(|s: i16| s as int) == mono_mix(
            data@.map_values(|s: i16| s as int),
        ),
        channels != 2 ==> mono@ == data@,
{
    let mut mono: Vec<i16> = Vec::new();
    let ghost wide = data@.map_values(|s: i16| s as int);
    if channels == 2 {
        let pairs: usize = data.len() / 2 + data.len() % 2;
        let mut k: usize = 0;
        while k < pairs
            invariant
                k <= pairs,
                pairs == (data.len() + 1) / 2,
                wide == data@.map_values(|s: i16| s as int),
                mono@.len() == k,
                forall|m: int|
                    0 <= m < mono@.len() ==> (#[trigger] mono@[m]) as int == half_towards_zero(
                        wide[2 * m] + sample_or_silence(wide, 2 * m + 1),
                    ),
            decreases pairs - k,
        {
            let left: i32 = data[2 * k] as i32;
            let right: i32 = if 2 * k + 1 < data.len() {
                data[2 * k + 1] as i32
            } else {
                0
            };
            let sum: i32 = left + right;
            let half: i32 = if sum >= 0 {
                sum / 2
            } else {
                -((-sum) / 2)
            };
            mono.push(half as i16);
            k += 1;
        }
    } else {
        let mut i: usize = 0;
        while i < data.len()
            invariant
                i <= data.len(),
                mono@ == data@.take(i as int),
            decreases data.len() - i,
        {
            mono.push(data[i]);
            i += 1;
        }
    }
    mono
}

/// Mixes interleaved 32-bit samples down to mono if there are two channels,
/// and leaves them as they are otherwise.
pub fn downmix_i32(data: &[i32], channels: u16) -> (mono: Vec<i32>)
    ensures
        channels == 2 ==> mono@.map_values(|s: i32| s as int) == mono_mix(
            data@.map_values(|s: i32| s as int),
        ),
        channels != 2 ==> mono@ == data@,
{
    let mut mono: Vec<i32> = Vec::new();
    let ghost wide = data@.map_values(|s: i32| s as int);
    if channels == 2 {
        let pairs: usize = data.len() / 2 + data.len() % 2;
        let mut k: usize = 0;
        while k < pairs
            invariant
                k <= pairs,
                pairs == (data.len() + 1) / 2,
                wide == data@.map_values(|s: i32| s as int),
                mono@.len() == k,
                forall|m: int|
                    0 <= m < mono@.len() ==> (#[trigger] mono@[m]) as int == half_towards_zero(
                        wide[2 * m] + sample_or_silence(wide, 2 * m + 1),
                    ),
            decreases pairs - k,
        {
            let left: i64 = data[2 * k] as i64;
            let right: i64 = if 2 * k + 1 < data.len() {
                data[2 * k + 1] as i64
            } else {
                0
            };
            let sum: i64 = left + right;
            let half: i64 = if sum >= 0 {
                sum / 2
            } else {
                -((-sum) / 2)
            };
            mono.push(half as i32);
            k += 1;
        }
    } else {
        let mut i: usize = 0;
        while i < data.len()
            invariant
                i <= data.len(),
                mono@ == data@.take(i as int),
            decreases data.len() - i,
        {
            mono.push(data[i]);
            i += 1;
        }
    }
    mono
}

// ============ The recording flag ============

/// The flag that decides whether captured buffers are worked on at all. It
/// is the only state shared between the capture callback and the rest.
#[derive(Debug, Clone, Copy, PartialEq, Eq, Structural)]
pub struct RecordingFlag {
    pub recording: bool,
}

impl RecordingFlag {
    /// A flag that is down: nothing is being recorded.
    pub fn new() -> (f: Self)
        ensures
            !f.recording,
    {
        RecordingFlag { recording: false }
    }

    /// Raises the flag when a capture starts.
    pub fn start(&mut self)
        ensures
            final(self).recording,
    {
        self.recording = true;
    }

    /// Takes note of how starting the stream went. A start that failed
    /// leaves the flag as it was before the attempt, `before`.
    pub fn after_start(&mut self, before: RecordingFlag, started: bool)
        ensures
            *final(self) == (if started {
                *old(self)
            } else {
                before
            }),
    {
        if !started {
            self.recording = before.recording;
        }
    }

    /// Lowers the flag. Stopping twice is the same as stopping once.
    pub fn stop(&mut self)
        ensures
            !final(self).recording,
    {
        self.recording = false;
    }

    pub fn is_recording(&self) -> (b: bool)
        ensures
            b == self.recording,
    {
        self.recording
    }

    /// Whether a buffer that arrives now is worked on: only while recording.
    pub fn admits_buffer(&self) -> (b: bool)
        ensures
            b == self.recording,
    {
        self.recording
    }

    /// Takes note of how handing a frame to the queue went. A frame that
    /// could not be queued means that capturing stops; it is not retried.
    pub fn after_enqueue(&mut self, queued: bool)
        ensures
            final(self).recording == (old(self).recording && queued),
    {
        if !queued {
            self.recording = false;
        }
    }
}

} // verus!
