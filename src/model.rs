use vstd::prelude::*;
use vstd::string::*;
use crate::decimal::{bool_text, bool_to_text, decimal, u64_text};

verus! {

pub type RecordId = u64;

pub type VideoFileId = u64;

pub type ChannelId = u64;

pub type RuleId = u64;

pub type ProgramId = u64;

pub type ThumbnailId = u64;

/// One file stored for a recording on the service.
pub struct VideoFile {
    pub id: VideoFileId,
    pub name: String,
    pub filename: String,
    pub type_: String,
    pub size: usize,
}

/// One recording as the service describes it.
pub struct Record {
    pub id: RecordId,
    pub channel_id: ChannelId,
    pub start_at: u64,
    pub end_at: u64,
    pub name: String,
    pub is_recording: bool,
    pub is_encoding: bool,
    pub is_protected: bool,
    pub rule_id: Option<RuleId>,
    pub program_id: ProgramId,
    pub description: String,
    pub extended: Option<String>,
    pub genre1: u16,
    pub sub_genre1: u16,
    pub video_type: String,
    pub video_resolution: String,
    pub video_stream_content: i32,
    pub video_component_type: i32,
    pub audio_sampling_rate: u32,
    pub audio_component_type: u8,
    pub thumbnails: Vec<ThumbnailId>,
    pub video_files: Vec<VideoFile>,
}

/// The description sent along with an uploaded file.
#[derive(Clone, Debug)]
pub struct VideoFileProperty {
    pub file_name: String,
    pub recorded_id: RecordId,
    pub parent_directory_name: String,
    pub sub_directory: Option<String>,
    pub view_name: String,
    pub file_type: String,
}

/// The filters of a query for recordings; a filter that is `None` is not sent.
#[derive(Debug)]
pub struct RecordedQuery {
    pub is_half_width: bool,
    pub is_reverse: Option<bool>,
    pub rule_id: Option<RuleId>,
    pub channel_id: Option<ChannelId>,
}

/// A list of text pairs seen as pairs of character sequences.
pub open spec fn pairs_view(v: Seq<(String, String)>) -> Seq<(Seq<char>, Seq<char>)> {
    v.map_values(|p: (String, String)| (p.0@, p.1@))
}

/// A pair that is present only when the value is.
pub open spec fn optional_pair(key: Seq<char>, value: Option<Seq<char>>) -> Seq<(Seq<char>, Seq<char>)> {
    match value {
        Some(v) => seq![(key, v)],
        None => seq![],
    }
}

pub open spec fn opt_decimal(v: Option<u64>) -> Option<Seq<char>> {
    match v {
        Some(n) => Some(decimal(n as nat)),
        None => None,
    }
}

pub open spec fn opt_bool_text(v: Option<bool>) -> Option<Seq<char>> {
    match v {
        Some(b) => Some(bool_text(b)),
        None => None,
    }
}

/// The query string pairs of a query, in their fixed order: the half-width
/// flag, then the rule, the channel and the order flag where they are set.
pub open spec fn query_parameters(q: RecordedQuery) -> Seq<(Seq<char>, Seq<char>)> {
    seq![("isHalfWidth"@, bool_text(q.is_half_width))] + optional_pair("ruleId"@, opt_decimal(q.rule_id))
        + optional_pair("channelId"@, opt_decimal(q.channel_id)) + optional_pair(
        "isReverse"@,
        opt_bool_text(q.is_reverse),
    )
}

fn push_pair(v: &mut Vec<(String, String)>, key: &str, value: String)
    ensures
        pairs_view(final(v)@) == pairs_view(old(v)@) + seq![(key@, value@)],
{
    let k = String::from_str(key);
    v.push((k, value));
    assert(pairs_view(v@) =~= pairs_view(old(v)@) + seq![(key@, value@)]);
}

impl RecordedQuery {
    pub fn new(is_half_width: bool) -> (r: Self)
        ensures
            r.is_half_width == is_half_width,
            r.is_reverse.is_none(),
            r.rule_id.is_none(),
            r.channel_id.is_none(),
    {
        RecordedQuery { is_half_width, is_reverse: None, rule_id: None, channel_id: None }
    }

    pub fn is_reverse(self, is_reverse: bool) -> (r: Self)
        ensures
            r == (RecordedQuery { is_reverse: Some(is_reverse), ..self }),
    {
        RecordedQuery { is_reverse: Some(is_reverse), ..self }
    }

    pub fn rule_id(self, rule_id: RuleId) -> (r: Self)
        ensures
            r == (RecordedQuery { rule_id: Some(rule_id), ..self }),
    {
        RecordedQuery { rule_id: Some(rule_id), ..self }
    }

    pub fn channel_id(self, channel_id: ChannelId) -> (r: Self)
        ensures
            r == (RecordedQuery { channel_id: Some(channel_id), ..self }),
    {
        RecordedQuery { channel_id: Some(channel_id), ..self }
    }

    /// The query string pairs for this query.
    pub fn to_parameters(&self) -> (r: Vec<(String, String)>)
        ensures
            pairs_view(r@) == query_parameters(*self),
    {
        let mut parameters: Vec<(String, String)> = Vec::new();
        push_pair(&mut parameters, "isHalfWidth", bool_to_text(self.is_half_width));
        let ghost after_flag = pairs_view(parameters@);
        if let Some(rule_id) = self.rule_id {
            push_pair(&mut parameters, "ruleId", u64_text(rule_id));
        }
        let ghost after_rule = pairs_view(parameters@);
        if let Some(channel_id) = self.channel_id {
            push_pair(&mut parameters, "channelId", u64_text(channel_id));
        }
        let ghost after_channel = pairs_view(parameters@);
        if let Some(is_reverse) = self.is_reverse {
            push_pair(&mut parameters, "isReverse", bool_to_text(is_reverse));
        }
        assert(after_flag =~= seq![("isHalfWidth"@, bool_text(self.is_half_width))]);
        assert(after_rule =~= after_flag + optional_pair("ruleId"@, opt_decimal(self.rule_id)));
        assert(after_channel =~= after_rule + optional_pair("channelId"@, opt_decimal(self.channel_id)));
        assert(pairs_view(parameters@) =~= after_channel + optional_pair(
            "isReverse"@,
            opt_bool_text(self.is_reverse),
        ));
        parameters
    }
}

/// The text fields of an upload form, in order: record, parent directory,
/// view name, file type, and the sub-directory where one is given.
pub open spec fn upload_fields(p: VideoFileProperty, record_id: u64) -> Seq<(Seq<char>, Seq<char>)> {
    seq![
        ("recordedId"@, decimal(record_id as nat)),
        ("parentDirectoryName"@, p.parent_directory_name@),
        ("viewName"@, p.view_name@),
        ("fileType"@, p.file_type@),
    ] + optional_pair(
        "subDirectory"@,
        match p.sub_directory {
            Some(d) => Some(d@),
            None => None,
        },
    )
}

/// The text fields that go with an uploaded file; the file part itself is
/// named `file` and carries `property.file_name`.
pub fn upload_form_fields(property: &VideoFileProperty, record_id: RecordId) -> (r: Vec<(String, String)>)
    ensures
        pairs_view(r@) == upload_fields(*property, record_id),
{
    let mut fields: Vec<(String, String)> = Vec::new();
    push_pair(&mut fields, "recordedId", u64_text(record_id));
    push_pair(&mut fields, "parentDirectoryName", property.parent_directory_name.clone());
    push_pair(&mut fields, "viewName", property.view_name.clone());
    push_pair(&mut fields, "fileType", property.file_type.clone());
    if let Some(sub_directory) = &property.sub_directory {
        push_pair(&mut fields, "subDirectory", sub_directory.clone());
    }
    assert(pairs_view(fields@) =~= upload_fields(*property, record_id));
    fields
}

/// The pairs of a recordings query: the query's own, then the page's offset
/// and limit.
pub fn recorded_query_pairs(query: &RecordedQuery, offset: u64, limit: u64) -> (r: Vec<(String, String)>)
    ensures
        pairs_view(r@) == query_parameters(*query) + seq![
            ("offset"@, decimal(offset as nat)),
            ("limit"@, decimal(limit as nat)),
        ],
{
    let mut pairs = query.to_parameters();
    push_pair(&mut pairs, "offset", u64_text(offset));
    push_pair(&mut pairs, "limit", u64_text(limit));
    assert(pairs_view(pairs@) =~= query_parameters(*query) + seq![
        ("offset"@, decimal(offset as nat)),
        ("limit"@, decimal(limit as nat)),
    ]);
    pairs
}

/// The service path of a stored video file.
pub fn video_file_path(id: VideoFileId) -> (r: String)
    ensures
        r@ == "/api/videos/"@ + decimal(id as nat),
{
    let mut p = String::from_str("/api/videos/");
    crate::decimal::append_decimal(&mut p, id);
    p
}

} // verus!
