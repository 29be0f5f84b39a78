use vstd::prelude::*;
use vstd::string::*;
use crate::model::{Record, RecordId, VideoFileId, VideoFileProperty};

verus! {

/// One recording to download, transcode and upload again.
pub struct Item {
    pub record_id: RecordId,
    pub file_id: VideoFileId,
    pub file_name: String,
    pub name: String,
}

pub open spec fn item_view(i: Item) -> (u64, u64, Seq<char>, Seq<char>) {
    (i.record_id, i.file_id, i.file_name@, i.name@)
}

pub open spec fn items_view(v: Seq<Item>) -> Seq<(u64, u64, Seq<char>, Seq<char>)> {
    v.map_values(|i: Item| item_view(i))
}

/// A recording is taken when it has exactly one file, and that file is a
/// raw transport stream.
pub open spec fn eligible(r: Record) -> bool {
    r.video_files@.len() == 1 && r.video_files@[0].type_@ == "ts"@
}

/// The items of the eligible recordings, in their order.
pub open spec fn selected(rs: Seq<Record>) -> Seq<(u64, u64, Seq<char>, Seq<char>)>
    decreases rs.len(),
{
    if rs.len() == 0 {
        seq![]
    } else {
        let r = rs.last();
        selected(rs.drop_last()) + if eligible(r) {
            seq![(r.id, r.video_files@[0].id, r.video_files@[0].filename@, r.name@)]
        } else {
            seq![]
        }
    }
}

/// The items to process: one for each recording whose only file is a
/// transport stream.
pub fn select_items(records: &Vec<Record>) -> (r: Vec<Item>)
    ensures
        items_view(r@) == selected(records@),
{
    let mut items: Vec<Item> = Vec::new();
    let mut k: usize = 0;
    let ts = String::from_str("ts");
    while k < records.len()
        invariant
            k <= records@.len(),
            ts@ == "ts"@,
            items_view(items@) == selected(records@.subrange(0, k as int)),
        decreases records@.len() - k,
    {
        let r = &records[k];
        let ghost before = items_view(items@);
        assert(records@.subrange(0, k + 1).drop_last() =~= records@.subrange(0, k as int));
        if r.video_files.len() == 1 && r.video_files[0].type_ == ts {
            let f = &r.video_files[0];
            items.push(
                Item {
                    record_id: r.id,
                    file_id: f.id,
                    file_name: f.filename.clone(),
                    name: r.name.clone(),
                },
            );
            assert(items_view(items@) =~= before + seq![
                (r.id, f.id, f.filename@, r.name@),
            ]);
        } else {
            assert(items_view(items@) =~= before + seq![]);
        }
        k = k + 1;
    }
    assert(records@.subrange(0, k as int) =~= records@);
    items
}

/// The index of the last `.` in a name, or -1 where there is none.
pub open spec fn last_dot(s: Seq<char>) -> int
    decreases s.len(),
{
    if s.len() == 0 {
        -1
    } else if s.last() == '.' {
        s.len() - 1
    } else {
        last_dot(s.drop_last())
    }
}

/// A file name without its extension; a leading dot starts no extension.
pub open spec fn stem(s: Seq<char>) -> Seq<char> {
    if last_dot(s) > 0 {
        s.subrange(0, last_dot(s))
    } else {
        s
    }
}

/// Where a downloaded recording is kept: the current directory.
pub open spec fn download_path(file_name: Seq<char>) -> Seq<char> {
    "./"@ + file_name
}

/// The name of the transcoded file: the stem with the `.mp4` extension.
pub open spec fn encoded_name(file_name: Seq<char>) -> Seq<char> {
    stem(file_name) + ".mp4"@
}

pub open spec fn encoded_path(file_name: Seq<char>) -> Seq<char> {
    "./"@ + encoded_name(file_name)
}

fn stem_of(name: &str) -> (r: String)
    ensures
        r@ == stem(name@),
{
    let n = name.unicode_len();
    let mut k: usize = n;
    assert(name@.subrange(0, n as int) =~= name@);
    while k > 0 && name.get_char(k - 1) != '.'
        invariant
            k <= n == name@.len(),
            last_dot(name@) == last_dot(name@.subrange(0, k as int)),
        decreases k,
    {
        assert(name@.subrange(0, k - 1) =~= name@.subrange(0, k as int).drop_last());
        k = k - 1;
    }
    proof {
        if k == 0 {
            assert(name@.subrange(0, 0).len() == 0);
        } else {
            assert(name@.subrange(0, k as int).last() == name@[k - 1]);
        }
    }
    if k > 1 {
        String::from_str(name.substring_char(0, k - 1))
    } else {
        String::from_str(name)
    }
}

/// The path that the download of `file_name` goes to.
pub fn download_path_of(file_name: &str) -> (r: String)
    ensures
        r@ == download_path(file_name@),
{
    let mut p = String::from_str("./");
    p.append(file_name);
    p
}

/// The name of the transcoded file made from `file_name`.
pub fn encoded_name_of(file_name: &str) -> (r: String)
    ensures
        r@ == encoded_name(file_name@),
{
    let mut p = stem_of(file_name);
    p.append(".mp4");
    p
}

/// The path of the transcoded file made from `file_name`.
pub fn encoded_path_of(file_name: &str) -> (r: String)
    ensures
        r@ == encoded_path(file_name@),
{
    let mut p = String::from_str("./");
    let e = encoded_name_of(file_name);
    p.append(e.as_str());
    p
}

/// Where one item stands in its processing.
#[derive(Clone, Copy, Debug, PartialEq, Eq, Structural)]
pub enum Stage {
    Pending,
    Downloading,
    Transcoding,
    Uploading,
    CleaningUp,
    Done,
    Aborted,
}

/// The next stage of an item after the current one ended, well or not. The
/// stages run strictly in order; any failure aborts; the ends are final.
pub open spec fn item_step(s: Stage, ok: bool) -> Stage {
    match s {
        Stage::Done => Stage::Done,
        Stage::Aborted => Stage::Aborted,
        _ => if !ok {
            Stage::Aborted
        } else {
            match s {
                Stage::Pending => Stage::Downloading,
                Stage::Downloading => Stage::Transcoding,
                Stage::Transcoding => Stage::Uploading,
                Stage::Uploading => Stage::CleaningUp,
                _ => Stage::Done,
            }
        },
    }
}

/// The stage that follows `s` when it ends with `ok`.
pub fn next_stage(s: Stage, ok: bool) -> (r: Stage)
    ensures
        r == item_step(s, ok),
{
    match s {
        Stage::Done => Stage::Done,
        Stage::Aborted => Stage::Aborted,
        _ => if !ok {
            Stage::Aborted
        } else {
            match s {
                Stage::Pending => Stage::Downloading,
                Stage::Downloading => Stage::Transcoding,
                Stage::Transcoding => Stage::Uploading,
                Stage::Uploading => Stage::CleaningUp,
                _ => Stage::Done,
            }
        },
    }
}

/// Whether a stage has work to do.
pub open spec fn is_working(s: Stage) -> bool {
    s == Stage::Downloading || s == Stage::Transcoding || s == Stage::Uploading || s
        == Stage::CleaningUp
}

/// Where a run over `n` items stands after the current stage of item
/// `index` ended with `ok`: the next stage of the same item, the first
/// stage of the next item once one is cleaned up, or the end. A failure
/// aborts the whole run at the item where it happened.
pub open spec fn run_step(n: nat, index: nat, stage: Stage, ok: bool) -> (nat, Stage) {
    if !is_working(stage) {
        (index, stage)
    } else if !ok {
        (index, Stage::Aborted)
    } else if stage == Stage::CleaningUp {
        if index + 1 < n {
            (index + 1, item_step(Stage::Pending, true))
        } else {
            (index + 1, Stage::Done)
        }
    } else {
        (index, item_step(stage, true))
    }
}

/// Where a run stands after a sequence of stage outcomes.
pub open spec fn run_after(n: nat, index: nat, stage: Stage, oks: Seq<bool>) -> (nat, Stage)
    decreases oks.len(),
{
    if oks.len() == 0 {
        (index, stage)
    } else {
        let p = run_after(n, index, stage, oks.drop_last());
        run_step(n, p.0, p.1, oks.last())
    }
}

/// What the driver of a run is to do next.
pub enum Action {
    /// Fetch the file into `target`.
    Download { file_id: VideoFileId, target: String },
    /// Transcode `source` into `target`.
    Transcode { source: String, target: String },
    /// Send the file at `path` with this description.
    Upload { path: String, property: VideoFileProperty, record_id: RecordId },
    /// Remove both local files of the item.
    Delete { source: String, target: String },
    /// Every item is done.
    Finished,
    /// The run was aborted while this recording was processed.
    Stopped { record_id: RecordId },
}

/// The description of an uploaded file made from `file_name`.
pub open spec fn upload_property(p: VideoFileProperty, file_name: Seq<char>, record_id: u64) -> bool {
    &&& p.file_name@ == encoded_name(file_name)
    &&& p.recorded_id == record_id
    &&& p.parent_directory_name@ == "recorded"@
    &&& p.sub_directory is None
    &&& p.view_name@ == "AV1"@
    &&& p.file_type@ == "encoded"@
}

/// The items of a run, processed one after the other.
pub struct Run {
    pub items: Vec<Item>,
    pub index: usize,
    pub stage: Stage,
}

impl Run {
    pub open spec fn wf(&self) -> bool {
        &&& self.index <= self.items@.len()
        &&& (self.stage == Stage::Done) <==> self.index == self.items@.len()
        &&& self.stage != Stage::Pending
    }

    /// A run over `items`, at the download of the first one.
    pub fn new(items: Vec<Item>) -> (r: Self)
        ensures
            r.wf(),
            r.items@ == items@,
            r.index == 0,
            r.stage == (if items@.len() == 0 {
                Stage::Done
            } else {
                Stage::Downloading
            }),
    {
        let stage = if items.len() == 0 {
            Stage::Done
        } else {
            next_stage(Stage::Pending, true)
        };
        Run { items, index: 0, stage }
    }

    /// Records how the current stage ended.
    pub fn report(&mut self, ok: bool)
        requires
            old(self).wf(),
        ensures
            final(self).wf(),
            final(self).items@ == old(self).items@,
            (final(self).index as nat, final(self).stage) == run_step(
                old(self).items@.len(),
                old(self).index as nat,
                old(self).stage,
                ok,
            ),
    {
        if !(self.stage == Stage::Downloading || self.stage == Stage::Transcoding || self.stage
            == Stage::Uploading || self.stage == Stage::CleaningUp) {
            return ;
        }
        if !ok {
            self.stage = Stage::Aborted;
        } else if self.stage == Stage::CleaningUp {
            let n = self.items.len();
            assert(self.index < n);
            self.index = self.index + 1;
            if self.index < n {
                self.stage = next_stage(Stage::Pending, true);
            } else {
                self.stage = Stage::Done;
            }
        } else {
            self.stage = next_stage(self.stage, true);
        }
    }

    /// The work that the current stage asks for.
    pub fn next_action(&self) -> (r: Action)
        requires
            self.wf(),
        ensures
            self.stage == Stage::Done ==> r is Finished,
            self.stage == Stage::Aborted ==> (r matches Action::Stopped { record_id }
                && record_id == self.items@[self.index as int].record_id),
            self.stage == Stage::Downloading ==> (r matches Action::Download { file_id, target }
                && file_id == self.items@[self.index as int].file_id && target@ == download_path(
                self.items@[self.index as int].file_name@,
            )),
            self.stage == Stage::Transcoding ==> (r matches Action::Transcode { source, target }
                && source@ == download_path(self.items@[self.index as int].file_name@) && target@
                == encoded_path(self.items@[self.index as int].file_name@)),
            self.stage == Stage::Uploading ==> (r matches Action::Upload { path, property, record_id }
                && path@ == encoded_path(self.items@[self.index as int].file_name@) && record_id
                == self.items@[self.index as int].record_id && upload_property(
                property,
                self.items@[self.index as int].file_name@,
                record_id,
            )),
            self.stage == Stage::CleaningUp ==> (r matches Action::Delete { source, target }
                && source@ == download_path(self.items@[self.index as int].file_name@) && target@
                == encoded_path(self.items@[self.index as int].file_name@)),
    {
        if self.stage == Stage::Done {
            return Action::Finished;
        }
        let item = &self.items[self.index];
        match self.stage {
            Stage::Downloading => Action::Download {
                file_id: item.file_id,
                target: download_path_of(item.file_name.as_str()),
            },
            Stage::Transcoding => Action::Transcode {
                source: download_path_of(item.file_name.as_str()),
                target: encoded_path_of(item.file_name.as_str()),
            },
            Stage::Uploading => Action::Upload {
                path: encoded_path_of(item.file_name.as_str()),
                property: VideoFileProperty {
                    file_name: encoded_name_of(item.file_name.as_str()),
                    recorded_id: item.record_id,
                    parent_directory_name: String::from_str("recorded"),
                    sub_directory: None,
                    view_name: String::from_str("AV1"),
                    file_type: String::from_str("encoded"),
                },
                record_id: item.record_id,
            },
            Stage::CleaningUp => Action::Delete {
                source: download_path_of(item.file_name.as_str()),
                target: encoded_path_of(item.file_name.as_str()),
            },
            _ => Action::Stopped { record_id: item.record_id },
        }
    }
}

/// A failure in any working stage of an item aborts the run at that item,
/// whatever outcomes are reported after it: no later stage of the item
/// (no upload after a failed transcode) and no later item is started.
pub proof fn lemma_failure_ends_run(n: nat, index: nat, stage: Stage, later: Seq<bool>)
    requires
        index < n,
        is_working(stage),
    ensures
        run_after(n, index, stage, seq![false] + later) == (index, Stage::Aborted),
    decreases later.len(),
{
    if later.len() == 0 {
        let all = seq![false] + later;
        assert(all.drop_last() =~= Seq::<bool>::empty());
        assert(run_after(n, index, stage, all.drop_last()) == (index, stage));
        assert(all.last() == false);
    } else {
        let all = seq![false] + later;
        lemma_failure_ends_run(n, index, stage, later.drop_last());
        assert(all.drop_last() =~= seq![false] + later.drop_last());
        assert(run_after(n, index, stage, all.drop_last()) == (index, Stage::Aborted));
    }
}

/// A run whose stages all succeed takes each item through download,
/// transcode, upload and clean-up, in that order, then goes on to the next.
pub proof fn lemma_item_stages_in_order(n: nat, index: nat)
    requires
        index < n,
    ensures
        run_after(n, index, Stage::Downloading, seq![true]) == (index, Stage::Transcoding),
        run_after(n, index, Stage::Downloading, seq![true, true]) == (index, Stage::Uploading),
        run_after(n, index, Stage::Downloading, seq![true, true, true]) == (index, Stage::CleaningUp),
        run_after(n, index, Stage::Downloading, seq![true, true, true, true]) == (if index + 1 < n {
            (index + 1, Stage::Downloading)
        } else {
            (index + 1, Stage::Done)
        }),
{
    let s1 = seq![true];
    let s2 = seq![true, true];
    let s3 = seq![true, true, true];
    let s4 = seq![true, true, true, true];
    assert(s1.drop_last() =~= Seq::<bool>::empty());
    assert(s2.drop_last() =~= s1);
    assert(s3.drop_last() =~= s2);
    assert(s4.drop_last() =~= s3);
    assert(run_after(n, index, Stage::Downloading, Seq::<bool>::empty()) == (index, Stage::Downloading));
    assert(run_after(n, index, Stage::Downloading, s1) == (index, Stage::Transcoding));
    assert(run_after(n, index, Stage::Downloading, s2) == (index, Stage::Uploading));
    assert(run_after(n, index, Stage::Downloading, s3) == (index, Stage::CleaningUp));
}

} // verus!
