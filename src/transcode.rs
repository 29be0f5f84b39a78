use vstd::prelude::*;
use vstd::string::*;
use crate::decimal::{append_decimal, decimal};
use crate::error::StageError;

verus! {

/// What the transcoder reports about its position in the output.
pub struct FfmpegProgress {
    pub current_secs: u64,
    pub total_secs: u64,
}

impl FfmpegProgress {
    pub fn current_secs(&self) -> (r: u64)
        ensures
            r == self.current_secs,
    {
        self.current_secs
    }

    pub fn total_secs(&self) -> (r: u64)
        ensures
            r == self.total_secs,
    {
        self.total_secs
    }
}

/// Encoding progress in seconds of output media time.
pub struct EncodeProgress {
    pub current_secs: u64,
    pub total_secs: u64,
}

impl EncodeProgress {
    pub fn current_secs(&self) -> (r: u64)
        ensures
            r == self.current_secs,
    {
        self.current_secs
    }

    pub fn total_secs(&self) -> (r: u64)
        ensures
            r == self.total_secs,
    {
        self.total_secs
    }
}

/// Turns the transcoder's samples into progress values for one run. The
/// reported position never goes back, whatever order the samples come in.
pub struct TranscodeTracker {
    pub total_secs: u64,
    pub current_secs: u64,
}

impl TranscodeTracker {
    /// Starts a run of `total_secs` seconds; the first progress value,
    /// `(0, total_secs)`, is given out before any sample arrives.
    pub fn start(total_secs: u64) -> (r: (TranscodeTracker, FfmpegProgress))
        ensures
            r.0.total_secs == total_secs,
            r.0.current_secs == 0,
            r.1.current_secs == 0,
            r.1.total_secs == total_secs,
    {
        (
            TranscodeTracker { total_secs, current_secs: 0 },
            FfmpegProgress { current_secs: 0, total_secs },
        )
    }

    /// Takes one sample: the output time in whole seconds, when the sample has one.
    pub fn on_sample(&mut self, out_time_secs: Option<u64>) -> (r: Result<FfmpegProgress, StageError>)
        ensures
            final(self).total_secs == old(self).total_secs,
            out_time_secs is None ==> r == Err::<FfmpegProgress, StageError>(
                StageError::MissingProgressSample,
            ) && *final(self) == *old(self),
            out_time_secs matches Some(t) ==> {
                &&& final(self).current_secs == if t > old(self).current_secs {
                    t
                } else {
                    old(self).current_secs
                }
                &&& r matches Ok(p) && p.current_secs == final(self).current_secs && p.total_secs
                    == old(self).total_secs
            },
            final(self).current_secs >= old(self).current_secs,
    {
        match out_time_secs {
            None => Err(StageError::MissingProgressSample),
            Some(t) => {
                if t > self.current_secs {
                    self.current_secs = t;
                }
                Ok(FfmpegProgress { current_secs: self.current_secs, total_secs: self.total_secs })
            },
        }
    }
}

/// One stream of the source as the prober describes it.
pub struct StreamInfo {
    pub codec_type: Option<String>,
    pub channels: Option<i64>,
}

pub open spec fn is_audio(s: StreamInfo) -> bool {
    match s.codec_type {
        Some(t) => t@ == "audio"@,
        None => false,
    }
}

/// An audio stream is carried over unless it declares zero channels.
pub open spec fn keeps_audio(s: StreamInfo) -> bool {
    is_audio(s) && s.channels != Some(0i64)
}

/// An audio stream without a channel count breaks the profile's assumption.
pub open spec fn lacks_channels(s: StreamInfo) -> bool {
    is_audio(s) && s.channels is None
}

/// The stream selector for stream `n` of the first input.
pub open spec fn stream_selector(n: nat) -> Seq<char> {
    "0:"@ + decimal(n)
}

/// The selectors of the audio streams carried over, in stream order.
pub open spec fn audio_maps(streams: Seq<StreamInfo>) -> Seq<Seq<char>>
    decreases streams.len(),
{
    if streams.len() == 0 {
        seq![]
    } else {
        let k = streams.len() - 1;
        audio_maps(streams.drop_last()) + if keeps_audio(streams[k]) {
            seq![stream_selector(k as nat)]
        } else {
            seq![]
        }
    }
}

pub open spec fn strings_view(v: Seq<String>) -> Seq<Seq<char>> {
    v.map_values(|s: String| s@)
}

fn is_audio_stream(s: &StreamInfo) -> (r: bool)
    ensures
        r == is_audio(*s),
{
    match &s.codec_type {
        Some(t) => {
            let audio = String::from_str("audio");
            *t == audio
        },
        None => false,
    }
}

/// The selectors of the audio streams to carry over: every audio stream but
/// those with zero channels, by index. An audio stream without a channel
/// count is an error that names the first such stream.
pub fn audio_stream_maps(streams: &Vec<StreamInfo>) -> (r: Result<Vec<String>, StageError>)
    requires
        streams@.len() <= u64::MAX,
    ensures
        (r is Ok) <==> (forall|i: int|
            0 <= i < streams@.len() ==> !lacks_channels(#[trigger] streams@[i])),
        (r is Ok) ==> strings_view(r->Ok_0@) == audio_maps(streams@),
        (r is Err) ==> (exists|i: int|
            0 <= i < streams@.len() && lacks_channels(#[trigger] streams@[i])
            && r->Err_0 == (StageError::AudioStreamWithoutChannels { index: i as u64 })
            && (forall|j: int| 0 <= j < i ==> !lacks_channels(#[trigger] streams@[j]))),
{
    let mut maps: Vec<String> = Vec::new();
    let mut n: usize = 0;
    while n < streams.len()
        invariant
            n <= streams@.len() <= u64::MAX,
            strings_view(maps@) == audio_maps(streams@.subrange(0, n as int)),
            forall|j: int| 0 <= j < n ==> !lacks_channels(#[trigger] streams@[j]),
        decreases streams@.len() - n,
    {
        let s = &streams[n];
        let ghost before = maps@;
        assert(streams@.subrange(0, n + 1).drop_last() =~= streams@.subrange(0, n as int));
        if is_audio_stream(s) {
            match s.channels {
                None => {
                    return Err(StageError::AudioStreamWithoutChannels { index: n as u64 });
                },
                Some(c) => {
                    if c != 0 {
                        let mut sel = String::from_str("0:");
                        append_decimal(&mut sel, n as u64);
                        maps.push(sel);
                        assert(strings_view(maps@) =~= strings_view(before) + seq![
                            stream_selector(n as nat),
                        ]);
                    } else {
                        assert(strings_view(maps@) =~= strings_view(before) + seq![]);
                    }
                },
            }
        } else {
            assert(strings_view(maps@) =~= strings_view(before) + seq![]);
        }
        n = n + 1;
    }
    assert(streams@.subrange(0, n as int) =~= streams@);
    Ok(maps)
}

/// One command-line option of the transcoder: a flag, or a key with a value.
pub enum ProfileParameter {
    Single(String),
    KeyValue(String, String),
}

pub open spec fn parameter_view(p: ProfileParameter) -> (Seq<char>, Option<Seq<char>>) {
    match p {
        ProfileParameter::Single(k) => (k@, None),
        ProfileParameter::KeyValue(k, v) => (k@, Some(v@)),
    }
}

pub open spec fn parameters_view(v: Seq<ProfileParameter>) -> Seq<(Seq<char>, Option<Seq<char>>)> {
    v.map_values(|p: ProfileParameter| parameter_view(p))
}

/// The options that come before the input: overwrite the output, probe
/// deeply, and keep going past unknown streams.
pub open spec fn global_options() -> Seq<(Seq<char>, Option<Seq<char>>)> {
    seq![
        ("y"@, None),
        ("analyzeduration"@, Some("100M"@)),
        ("probesize"@, Some("100M"@)),
        ("ignore_unknown"@, None),
        ("fix_sub_duration"@, None),
    ]
}

/// The options of the output: the primary video and any subtitle streams,
/// AV1 at a fixed quality, deinterlaced, audio copied, subtitles converted,
/// corrupt packets dropped, then one map for each audio stream carried over.
pub open spec fn output_options(streams: Seq<StreamInfo>) -> Seq<(Seq<char>, Option<Seq<char>>)> {
    seq![
        ("map"@, Some("0:v"@)),
        ("map"@, Some("0:s?"@)),
        ("vcodec"@, Some("libsvtav1"@)),
        ("crf"@, Some("38"@)),
        ("vf"@, Some("yadif=1"@)),
        ("absf"@, Some("aac_adtstoasc"@)),
        ("fflags"@, Some("+discardcorrupt"@)),
        ("acodec"@, Some("copy"@)),
        ("scodec"@, Some("mov_text"@)),
    ] + audio_maps(streams).map_values(|m: Seq<char>| ("map"@, Some(m)))
}

/// The transcoder's options for one source.
pub struct TranscodeProfile {
    pub global_options: Vec<ProfileParameter>,
    pub output_options: Vec<ProfileParameter>,
}

fn push_single(v: &mut Vec<ProfileParameter>, key: &str)
    ensures
        parameters_view(final(v)@) == parameters_view(old(v)@) + seq![(key@, None::<Seq<char>>)],
{
    v.push(ProfileParameter::Single(String::from_str(key)));
    assert(parameters_view(v@) =~= parameters_view(old(v)@) + seq![(key@, None::<Seq<char>>)]);
}

fn push_key_value(v: &mut Vec<ProfileParameter>, key: &str, value: String)
    ensures
        parameters_view(final(v)@) == parameters_view(old(v)@) + seq![(key@, Some(value@))],
{
    v.push(ProfileParameter::KeyValue(String::from_str(key), value));
    assert(parameters_view(v@) =~= parameters_view(old(v)@) + seq![(key@, Some(value@))]);
}

/// The fixed transcoding profile for a source with the given streams. It
/// fails as `audio_stream_maps` does, and only then.
pub fn transcode_profile(streams: &Vec<StreamInfo>) -> (r: Result<TranscodeProfile, StageError>)
    requires
        streams@.len() <= u64::MAX,
    ensures
        (r is Ok) <==> (forall|i: int|
            0 <= i < streams@.len() ==> !lacks_channels(#[trigger] streams@[i])),
        (r is Ok) ==> parameters_view(r->Ok_0.global_options@) == global_options(),
        (r is Ok) ==> parameters_view(r->Ok_0.output_options@) == output_options(streams@),
        (r is Err) ==> (exists|i: int|
            0 <= i < streams@.len() && lacks_channels(#[trigger] streams@[i])
            && r->Err_0 == (StageError::AudioStreamWithoutChannels { index: i as u64 })
            && (forall|j: int| 0 <= j < i ==> !lacks_channels(#[trigger] streams@[j]))),
{
    let maps = match audio_stream_maps(streams) {
        Ok(m) => m,
        Err(e) => {
            return Err(e);
        },
    };
    let mut global: Vec<ProfileParameter> = Vec::new();
    push_single(&mut global, "y");
    push_key_value(&mut global, "analyzeduration", String::from_str("100M"));
    push_key_value(&mut global, "probesize", String::from_str("100M"));
    push_single(&mut global, "ignore_unknown");
    push_single(&mut global, "fix_sub_duration");
    assert(parameters_view(global@) =~= global_options());

    let mut output: Vec<ProfileParameter> = Vec::new();
    push_key_value(&mut output, "map", String::from_str("0:v"));
    push_key_value(&mut output, "map", String::from_str("0:s?"));
    push_key_value(&mut output, "vcodec", String::from_str("libsvtav1"));
    push_key_value(&mut output, "crf", String::from_str("38"));
    push_key_value(&mut output, "vf", String::from_str("yadif=1"));
    push_key_value(&mut output, "absf", String::from_str("aac_adtstoasc"));
    push_key_value(&mut output, "fflags", String::from_str("+discardcorrupt"));
    push_key_value(&mut output, "acodec", String::from_str("copy"));
    push_key_value(&mut output, "scodec", String::from_str("mov_text"));
    let ghost fixed = parameters_view(output@);
    let ghost all_maps = strings_view(maps@);
    let mut k: usize = 0;
    while k < maps.len()
        invariant
            k <= maps@.len(),
            all_maps == strings_view(maps@),
            parameters_view(output@) == fixed + all_maps.subrange(0, k as int).map_values(
                |m: Seq<char>| ("map"@, Some(m)),
            ),
        decreases maps@.len() - k,
    {
        let ghost before = parameters_view(output@);
        push_key_value(&mut output, "map", maps[k].clone());
        assert(all_maps.subrange(0, k + 1).map_values(|m: Seq<char>| ("map"@, Some(m)))
            =~= all_maps.subrange(0, k as int).map_values(|m: Seq<char>| ("map"@, Some(m)))
            + seq![("map"@, Some(maps@[k as int]@))]);
        k = k + 1;
    }
    assert(all_maps.subrange(0, k as int) =~= all_maps);
    assert(parameters_view(output@) =~= output_options(streams@));
    Ok(TranscodeProfile { global_options: global, output_options: output })
}

} // verus!
