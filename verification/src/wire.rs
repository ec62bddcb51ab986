//! Raw response shapes of the web service, as plain values, and the
//! adaptation that turns them into domain entities: the nested
//! plugin/file-area structure is unwrapped into a flat file list and the
//! rest of it is discarded; collection responses are validated against the
//! requested id instead of being trusted positionally.

use vstd::prelude::*;
use vstd::string::*;

use crate::model::{MSubmission, SubmissionFile};
use crate::text::{spec_strip, strip_leading_separator};

verus! {

/// The body of the login endpoint's response: either a token or a server
/// message saying why none was granted.
#[derive(Debug)]
pub struct LoginResponse {
    pub token: Option<String>,
    pub error: String,
}

/// A file entry as the server sends it: the directory in `filepath` still
/// carries its leading path separator.
#[derive(Debug)]
pub struct RawSubmissionFile {
    pub filename: String,
    pub fileurl: String,
    pub filepath: String,
}

/// One file area of a submission plugin.
#[derive(Debug)]
pub struct SubmissionFileArea {
    pub area: String,
    pub files: Option<Vec<RawSubmissionFile>>,
}

/// One plugin entry of a raw submission.
#[derive(Debug)]
pub struct SubmissionPlugin {
    pub plugin_type: String,
    pub fileareas: Option<Vec<SubmissionFileArea>>,
}

/// A submission as the server sends it, plugins not yet unwrapped.
#[derive(Debug)]
pub struct RawSubmission {
    pub userid: u64,
    pub timemodified: i64,
    pub plugins: Vec<SubmissionPlugin>,
}

/// The submissions the server grouped under one assignment id.
#[derive(Debug)]
pub struct AssignmentSubmission {
    pub assignmentid: u64,
    pub submissions: Vec<RawSubmission>,
}

/// Whether two strings hold the same characters.
fn str_eq(a: &String, b: &str) -> (r: bool)
    ensures
        r == (a@ == b@),
{
    let t = String::from_str(b);
    *a == t
}

/// The files of the first area named `submission_files`, if such an area
/// exists: an area without a file list counts as an empty one.
pub open spec fn spec_first_area_files(areas: Seq<SubmissionFileArea>) -> Option<
    Seq<RawSubmissionFile>,
>
    decreases areas.len(),
{
    if areas.len() == 0 {
        None
    } else if areas[0].area@ == "submission_files"@ {
        match areas[0].files {
            Some(f) => Some(f@),
            None => Some(Seq::empty()),
        }
    } else {
        spec_first_area_files(areas.subrange(1, areas.len() as int))
    }
}

/// The file list of a raw submission: the first `file` plugin whose areas
/// hold a `submission_files` entry contributes that area's files; every
/// other plugin and area is discarded; with no such plugin the list is
/// empty.
pub open spec fn spec_plugin_files(plugins: Seq<SubmissionPlugin>) -> Seq<
    RawSubmissionFile,
>
    decreases plugins.len(),
{
    if plugins.len() == 0 {
        Seq::empty()
    } else {
        let found = if plugins[0].plugin_type@ == "file"@ {
            match plugins[0].fileareas {
                Some(areas) => spec_first_area_files(areas@),
                None => None,
            }
        } else {
            None
        };
        match found {
            Some(f) => f,
            None => spec_plugin_files(plugins.subrange(1, plugins.len() as int)),
        }
    }
}

fn first_area_files(areas: Vec<SubmissionFileArea>) -> (r: Option<Vec<RawSubmissionFile>>)
    ensures
        match spec_first_area_files(areas@) {
            Some(f) => r matches Some(v) && v@ == f,
            None => r is None,
        },
    decreases areas@.len(),
{
    let mut areas = areas;
    if areas.len() == 0 {
        return None;
    }
    let ghost pre = areas@;
    let head = areas.remove(0);
    proof {
        assert(areas@ =~= pre.subrange(1, pre.len() as int));
    }
    if str_eq(&head.area, "submission_files") {
        match head.files {
            Some(f) => Some(f),
            None => Some(Vec::new()),
        }
    } else {
        first_area_files(areas)
    }
}

/// Unwraps the plugin nesting of one raw submission into its flat file
/// list, exactly as `spec_plugin_files` states.
pub fn files_from_plugins(plugins: Vec<SubmissionPlugin>) -> (r: Vec<RawSubmissionFile>)
    ensures
        r@ == spec_plugin_files(plugins@),
    decreases plugins@.len(),
{
    let mut plugins = plugins;
    if plugins.len() == 0 {
        return Vec::new();
    }
    let ghost pre = plugins@;
    let head = plugins.remove(0);
    proof {
        assert(plugins@ =~= pre.subrange(1, pre.len() as int));
    }
    if str_eq(&head.plugin_type, "file") {
        match head.fileareas {
            Some(areas) => match first_area_files(areas) {
                Some(f) => f,
                None => files_from_plugins(plugins),
            },
            None => files_from_plugins(plugins),
        }
    } else {
        files_from_plugins(plugins)
    }
}

/// How a converted file relates to its raw entry: name and URL are kept
/// and the directory has its leading separators stripped.
pub open spec fn file_matches(f: SubmissionFile, raw: RawSubmissionFile) -> bool {
    &&& f.filename@ == raw.filename@
    &&& f.fileurl@ == raw.fileurl@
    &&& f.filepath@ == spec_strip(raw.filepath@)
}

/// How a converted submission relates to its raw entry: user and instant
/// are kept and the files are exactly the unwrapped plugin files, each
/// converted as `file_matches` states.
pub open spec fn submission_matches(m: MSubmission, raw: RawSubmission) -> bool {
    &&& m.userid == raw.userid
    &&& m.timemodified == raw.timemodified
    &&& m.files@.len() == spec_plugin_files(raw.plugins@).len()
    &&& forall|i: int|
        0 <= i < m.files@.len() ==> file_matches(
            m.files@[i],
            spec_plugin_files(raw.plugins@)[i],
        )
}

/// Converts one raw file entry, stripping the leading separator from its
/// directory.
pub fn submission_file_of(raw: RawSubmissionFile) -> (f: SubmissionFile)
    ensures
        file_matches(f, raw),
{
    let filepath = strip_leading_separator(raw.filepath.as_str());
    SubmissionFile { filename: raw.filename, fileurl: raw.fileurl, filepath }
}

/// Converts one raw submission into its domain form.
pub fn submission_of(raw: RawSubmission) -> (m: MSubmission)
    ensures
        submission_matches(m, raw),
{
    let RawSubmission { userid, timemodified, plugins } = raw;
    let mut rest = files_from_plugins(plugins);
    let ghost all = rest@;
    let mut files: Vec<SubmissionFile> = Vec::new();
    proof {
        assert(rest@ =~= all.subrange(0, all.len() as int));
    }
    while rest.len() > 0
        invariant
            files@.len() + rest@.len() == all.len(),
            rest@ =~= all.subrange(files@.len() as int, all.len() as int),
            forall|i: int| 0 <= i < files@.len() ==> file_matches(files@[i], all[i]),
        decreases rest@.len(),
    {
        let ghost k = files@.len() as int;
        let head = rest.remove(0);
        proof {
            assert(head == all[k]);
            assert(rest@ =~= all.subrange(k + 1, all.len() as int));
        }
        files.push(submission_file_of(head));
    }
    MSubmission { userid, timemodified, files }
}

/// Converts every raw submission of a group, keeping the order.
pub fn submissions_of(raws: Vec<RawSubmission>) -> (r: Vec<MSubmission>)
    ensures
        r@.len() == raws@.len(),
        forall|i: int| 0 <= i < raws@.len() ==> submission_matches(r@[i], raws@[i]),
{
    let mut rest = raws;
    let ghost all = rest@;
    let mut out: Vec<MSubmission> = Vec::new();
    proof {
        assert(rest@ =~= all.subrange(0, all.len() as int));
    }
    while rest.len() > 0
        invariant
            out@.len() + rest@.len() == all.len(),
            rest@ =~= all.subrange(out@.len() as int, all.len() as int),
            forall|i: int| 0 <= i < out@.len() ==> submission_matches(out@[i], all[i]),
        decreases rest@.len(),
    {
        let ghost k = out@.len() as int;
        let head = rest.remove(0);
        proof {
            assert(head == all[k]);
            assert(rest@ =~= all.subrange(k + 1, all.len() as int));
        }
        out.push(submission_of(head));
    }
    out
}

} // verus!
