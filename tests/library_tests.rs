use epg_transcode::channel::{ProgressSlot, Received};
use epg_transcode::decimal::{parse_u64, u64_text};
use epg_transcode::error::StageError;
use epg_transcode::model::{recorded_query_pairs, upload_form_fields, video_file_path, Record, RecordedQuery, VideoFile, VideoFileProperty};
use epg_transcode::pipeline::{
    download_path_of, encoded_name_of, encoded_path_of, next_stage, select_items, Action, Item, Run, Stage,
};
use epg_transcode::transcode::{
    audio_stream_maps, transcode_profile, ProfileParameter, StreamInfo, TranscodeTracker,
};
use epg_transcode::transfer::{declared_length, DownloadTracker, UploadCounter};

fn pairs(v: &[(&str, &str)]) -> Vec<(String, String)> {
    v.iter().map(|(k, x)| (k.to_string(), x.to_string())).collect()
}

fn stream(kind: Option<&str>, channels: Option<i64>) -> StreamInfo {
    StreamInfo { codec_type: kind.map(|k| k.to_string()), channels }
}

fn video_file(id: u64, filename: &str, kind: &str) -> VideoFile {
    VideoFile {
        id,
        name: "TS".to_string(),
        filename: filename.to_string(),
        type_: kind.to_string(),
        size: 500_000_000,
    }
}

fn record(id: u64, name: &str, files: Vec<VideoFile>) -> Record {
    Record {
        id,
        channel_id: 1,
        start_at: 0,
        end_at: 1,
        name: name.to_string(),
        is_recording: false,
        is_encoding: false,
        is_protected: false,
        rule_id: None,
        program_id: 7,
        description: String::new(),
        extended: None,
        genre1: 0,
        sub_genre1: 0,
        video_type: "mpeg2".to_string(),
        video_resolution: "1080i".to_string(),
        video_stream_content: 1,
        video_component_type: 179,
        audio_sampling_rate: 48000,
        audio_component_type: 3,
        thumbnails: vec![],
        video_files: files,
    }
}

fn item(record_id: u64, file_id: u64, file_name: &str) -> Item {
    Item { record_id, file_id, file_name: file_name.to_string(), name: format!("show {record_id}") }
}

#[test]
fn decimal_text_of_numbers() {
    assert_eq!(u64_text(0), "0");
    assert_eq!(u64_text(164), "164");
    assert_eq!(u64_text(u64::MAX), "18446744073709551615");
}

#[test]
fn parse_u64_accepts_what_from_str_accepts() {
    assert_eq!(parse_u64("500000000"), Some(500_000_000));
    assert_eq!(parse_u64("+7"), Some(7));
    assert_eq!(parse_u64("007"), Some(7));
    assert_eq!(parse_u64("18446744073709551615"), Some(u64::MAX));
    assert_eq!(parse_u64("18446744073709551616"), None);
    assert_eq!(parse_u64("99999999999999999999x"), None);
    assert_eq!(parse_u64(""), None);
    assert_eq!(parse_u64("+"), None);
    assert_eq!(parse_u64("-1"), None);
    assert_eq!(parse_u64("12a"), None);
    assert_eq!(parse_u64(" 12"), None);
}

#[test]
fn query_with_only_the_half_width_flag() {
    assert_eq!(RecordedQuery::new(false).to_parameters(), pairs(&[("isHalfWidth", "false")]));
}

#[test]
fn query_parameters_keep_their_fixed_order() {
    let q = RecordedQuery::new(true).is_reverse(false).channel_id(3273701032).rule_id(12);
    assert_eq!(
        q.to_parameters(),
        pairs(&[
            ("isHalfWidth", "true"),
            ("ruleId", "12"),
            ("channelId", "3273701032"),
            ("isReverse", "false"),
        ])
    );
    let q = RecordedQuery::new(false).is_reverse(true);
    assert_eq!(q.to_parameters(), pairs(&[("isHalfWidth", "false"), ("isReverse", "true")]));
}

#[test]
fn upload_form_without_sub_directory() {
    let p = VideoFileProperty {
        file_name: "rec164.mp4".to_string(),
        recorded_id: 164,
        parent_directory_name: "recorded".to_string(),
        sub_directory: None,
        view_name: "AV1".to_string(),
        file_type: "encoded".to_string(),
    };
    assert_eq!(
        upload_form_fields(&p, 164),
        pairs(&[
            ("recordedId", "164"),
            ("parentDirectoryName", "recorded"),
            ("viewName", "AV1"),
            ("fileType", "encoded"),
        ])
    );
}

#[test]
fn upload_form_with_sub_directory() {
    let p = VideoFileProperty {
        file_name: "x.mp4".to_string(),
        recorded_id: 9,
        parent_directory_name: "recorded".to_string(),
        sub_directory: Some("av1".to_string()),
        view_name: "AV1".to_string(),
        file_type: "encoded".to_string(),
    };
    let f = upload_form_fields(&p, 9);
    assert_eq!(f.len(), 5);
    assert_eq!(f[4], ("subDirectory".to_string(), "av1".to_string()));
}

#[test]
fn audio_streams_with_zero_channels_are_left_out() {
    let streams = vec![
        stream(Some("audio"), Some(0)),
        stream(Some("audio"), Some(2)),
        stream(Some("video"), None),
    ];
    assert_eq!(audio_stream_maps(&streams), Ok(vec!["0:1".to_string()]));
    let profile = match transcode_profile(&streams) {
        Ok(p) => p,
        Err(e) => panic!("unexpected {e:?}"),
    };
    let maps: Vec<String> = profile
        .output_options
        .iter()
        .filter_map(|p| match p {
            ProfileParameter::KeyValue(k, v) if k == "map" => Some(v.clone()),
            _ => None,
        })
        .collect();
    assert_eq!(maps, vec!["0:v", "0:s?", "0:1"]);
}

#[test]
fn every_audio_stream_is_mapped_by_index() {
    let streams = vec![
        stream(Some("video"), None),
        stream(Some("audio"), Some(2)),
        stream(None, None),
        stream(Some("subtitle"), None),
        stream(Some("audio"), Some(6)),
    ];
    assert_eq!(audio_stream_maps(&streams), Ok(vec!["0:1".to_string(), "0:4".to_string()]));
    assert_eq!(audio_stream_maps(&vec![]), Ok(vec![]));
}

#[test]
fn audio_stream_without_channel_count_is_an_error() {
    let streams = vec![
        stream(Some("video"), None),
        stream(Some("audio"), Some(2)),
        stream(Some("audio"), None),
        stream(Some("audio"), None),
    ];
    assert_eq!(
        audio_stream_maps(&streams),
        Err(StageError::AudioStreamWithoutChannels { index: 2 })
    );
    assert!(matches!(
        transcode_profile(&streams),
        Err(StageError::AudioStreamWithoutChannels { index: 2 })
    ));
}

#[test]
fn profile_options_are_fixed() {
    let profile = transcode_profile(&vec![stream(Some("video"), None)]).unwrap();
    let global: Vec<(String, Option<String>)> = profile
        .global_options
        .iter()
        .map(|p| match p {
            ProfileParameter::Single(k) => (k.clone(), None),
            ProfileParameter::KeyValue(k, v) => (k.clone(), Some(v.clone())),
        })
        .collect();
    assert_eq!(
        global,
        vec![
            ("y".to_string(), None),
            ("analyzeduration".to_string(), Some("100M".to_string())),
            ("probesize".to_string(), Some("100M".to_string())),
            ("ignore_unknown".to_string(), None),
            ("fix_sub_duration".to_string(), None),
        ]
    );
    assert_eq!(profile.output_options.len(), 9);
    assert!(matches!(&profile.output_options[2], ProfileParameter::KeyValue(k, v) if k == "vcodec" && v == "libsvtav1"));
    assert!(matches!(&profile.output_options[3], ProfileParameter::KeyValue(k, v) if k == "crf" && v == "38"));
    assert!(matches!(&profile.output_options[4], ProfileParameter::KeyValue(k, v) if k == "vf" && v == "yadif=1"));
}

#[test]
fn transcode_progress_starts_at_zero_and_ends_at_total() {
    let (mut t, first) = TranscodeTracker::start(3600);
    assert_eq!((first.current_secs(), first.total_secs()), (0, 3600));
    let p = t.on_sample(Some(1800)).unwrap();
    assert_eq!((p.current_secs(), p.total_secs()), (1800, 3600));
    let p = t.on_sample(Some(3600)).unwrap();
    assert_eq!((p.current_secs(), p.total_secs()), (3600, 3600));
}

#[test]
fn transcode_progress_never_goes_back() {
    let (mut t, _) = TranscodeTracker::start(100);
    let mut last = 0;
    for s in [5, 3, 40, 39, 70, 0, 100] {
        let p = t.on_sample(Some(s)).unwrap();
        assert!(p.current_secs() >= last);
        last = p.current_secs();
    }
    assert_eq!(last, 100);
}

#[test]
fn transcode_sample_without_time_is_an_error() {
    let (mut t, _) = TranscodeTracker::start(100);
    t.on_sample(Some(10)).unwrap();
    assert!(matches!(t.on_sample(None), Err(StageError::MissingProgressSample)));
    assert_eq!(t.current_secs, 10);
}

#[test]
fn content_length_header() {
    assert_eq!(declared_length(Some("500000000")), Ok(500_000_000));
    assert_eq!(declared_length(None), Err(StageError::MissingContentLength));
    assert_eq!(declared_length(Some("abc")), Err(StageError::MalformedContentLength));
    assert_eq!(declared_length(Some("")), Err(StageError::MalformedContentLength));
}

#[test]
fn download_counts_every_byte_of_the_declared_length() {
    let total: u64 = 500_000_000;
    let mut t = DownloadTracker::new(total);
    let chunk: u64 = 8 * 1024 * 1024;
    let mut last = 0;
    let mut left = total;
    while left > 0 {
        let n = left.min(chunk);
        let p = t.on_chunk(n).unwrap();
        assert!(p.current_bytes() >= last);
        assert_eq!(p.total_bytes(), total);
        last = p.current_bytes();
        left -= n;
    }
    assert_eq!(last, total);
    assert_eq!(t.finish(), Ok(total));
}

#[test]
fn short_download_is_an_error() {
    let mut t = DownloadTracker::new(10);
    let p = t.on_chunk(4).unwrap();
    assert_eq!((p.current_bytes(), p.total_bytes()), (4, 10));
    assert_eq!(t.finish(), Err(StageError::LengthMismatch { declared: 10, received: 4 }));
}

#[test]
fn download_past_declared_length_is_an_error() {
    let mut t = DownloadTracker::new(10);
    t.on_chunk(6).unwrap();
    assert!(matches!(t.on_chunk(5), Err(StageError::BodyExceedsLength { declared: 10 })));
    assert_eq!(t.received_bytes, 6);
    t.on_chunk(4).unwrap();
    assert_eq!(t.finish(), Ok(10));
    assert_eq!(DownloadTracker::new(0).finish(), Ok(0));
}

#[test]
fn upload_total_is_the_file_size() {
    let mut c = UploadCounter::new(1000);
    let p = c.on_read(400);
    assert_eq!((p.current_bytes(), p.total_bytes()), (400, 1000));
    let p = c.on_read(600);
    assert_eq!((p.current_bytes(), p.total_bytes()), (1000, 1000));
    let p = c.on_read(u64::MAX);
    assert_eq!((p.current_bytes(), p.total_bytes()), (u64::MAX, 1000));
}

#[test]
fn burst_of_sends_yields_only_the_latest() {
    let mut slot = ProgressSlot::new();
    for v in 1..=5u64 {
        assert!(slot.try_send(v));
    }
    assert!(matches!(slot.recv(), Received::Value(5)));
    assert!(matches!(slot.recv(), Received::Empty));
    assert!(slot.try_send(6));
    slot.close();
    assert!(!slot.try_send(7));
    assert!(matches!(slot.recv(), Received::Value(6)));
    assert!(matches!(slot.recv(), Received::Closed));
}

#[test]
fn file_names_of_an_item() {
    assert_eq!(download_path_of("rec164.ts"), "./rec164.ts");
    assert_eq!(encoded_path_of("rec164.ts"), "./rec164.mp4");
    assert_eq!(encoded_name_of("a.b.ts"), "a.b.mp4");
    assert_eq!(encoded_name_of("noext"), "noext.mp4");
    assert_eq!(encoded_name_of(".hidden"), ".hidden.mp4");
    assert_eq!(encoded_name_of("trail."), "trail.mp4");
}

#[test]
fn only_recordings_with_one_transport_stream_are_selected() {
    let records = vec![
        record(1, "one", vec![video_file(11, "one.ts", "ts")]),
        record(2, "two", vec![video_file(21, "two.ts", "ts"), video_file(22, "two.mp4", "encoded")]),
        record(3, "three", vec![video_file(31, "three.mp4", "encoded")]),
        record(4, "four", vec![]),
        record(164, "rec", vec![video_file(5, "rec164.ts", "ts")]),
    ];
    let items = select_items(&records);
    let got: Vec<(u64, u64, String, String)> =
        items.into_iter().map(|i| (i.record_id, i.file_id, i.file_name, i.name)).collect();
    assert_eq!(
        got,
        vec![
            (1, 11, "one.ts".to_string(), "one".to_string()),
            (164, 5, "rec164.ts".to_string(), "rec".to_string()),
        ]
    );
}

#[test]
fn stages_follow_each_other() {
    assert_eq!(next_stage(Stage::Pending, true), Stage::Downloading);
    assert_eq!(next_stage(Stage::Downloading, true), Stage::Transcoding);
    assert_eq!(next_stage(Stage::Transcoding, true), Stage::Uploading);
    assert_eq!(next_stage(Stage::Uploading, true), Stage::CleaningUp);
    assert_eq!(next_stage(Stage::CleaningUp, true), Stage::Done);
    assert_eq!(next_stage(Stage::Transcoding, false), Stage::Aborted);
    assert_eq!(next_stage(Stage::Done, false), Stage::Done);
    assert_eq!(next_stage(Stage::Aborted, true), Stage::Aborted);
}

#[test]
fn one_item_goes_through_every_stage() {
    let mut run = Run::new(vec![item(164, 5, "rec164.ts")]);
    match run.next_action() {
        Action::Download { file_id, target } => {
            assert_eq!(file_id, 5);
            assert_eq!(target, "./rec164.ts");
        }
        _ => panic!("download expected"),
    }
    run.report(true);
    match run.next_action() {
        Action::Transcode { source, target } => {
            assert_eq!(source, "./rec164.ts");
            assert_eq!(target, "./rec164.mp4");
        }
        _ => panic!("transcode expected"),
    }
    run.report(true);
    match run.next_action() {
        Action::Upload { path, property, record_id } => {
            assert_eq!(path, "./rec164.mp4");
            assert_eq!(record_id, 164);
            assert_eq!(property.file_name, "rec164.mp4");
            let fields = upload_form_fields(&property, record_id);
            assert_eq!(fields[0], ("recordedId".to_string(), "164".to_string()));
        }
        _ => panic!("upload expected"),
    }
    run.report(true);
    match run.next_action() {
        Action::Delete { source, target } => {
            assert_eq!(source, "./rec164.ts");
            assert_eq!(target, "./rec164.mp4");
        }
        _ => panic!("delete expected"),
    }
    run.report(true);
    assert!(matches!(run.next_action(), Action::Finished));
    assert_eq!(run.stage, Stage::Done);
}

#[test]
fn failed_transcode_stops_the_whole_run() {
    let mut run = Run::new(vec![item(164, 5, "rec164.ts"), item(165, 6, "rec165.ts")]);
    run.report(true);
    assert!(matches!(run.next_action(), Action::Transcode { .. }));
    run.report(false);
    assert!(matches!(run.next_action(), Action::Stopped { record_id: 164 }));
    run.report(true);
    run.report(true);
    assert_eq!(run.stage, Stage::Aborted);
    assert_eq!(run.index, 0);
    assert!(matches!(run.next_action(), Action::Stopped { record_id: 164 }));
}

#[test]
fn second_item_starts_after_the_first_is_cleaned_up() {
    let mut run = Run::new(vec![item(1, 10, "a.ts"), item(2, 20, "b.ts")]);
    for _ in 0..4 {
        run.report(true);
    }
    match run.next_action() {
        Action::Download { file_id, target } => {
            assert_eq!(file_id, 20);
            assert_eq!(target, "./b.ts");
        }
        _ => panic!("download expected"),
    }
    assert!(matches!(Run::new(vec![]).next_action(), Action::Finished));
}

#[test]
fn recordings_query_with_paging() {
    let q = RecordedQuery::new(false).rule_id(3);
    assert_eq!(
        recorded_query_pairs(&q, 0, 1_000_000),
        pairs(&[("isHalfWidth", "false"), ("ruleId", "3"), ("offset", "0"), ("limit", "1000000")])
    );
    assert_eq!(video_file_path(42), "/api/videos/42");
}
