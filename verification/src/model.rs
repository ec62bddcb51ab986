//! Typed domain entities and their derived values: courses, assignments,
//! submissions, submission files and users, with lateness computation and
//! local by-id lookup.
//!
//! Timestamps are absolute UTC instants in whole unix seconds; grades are
//! whole points.

use vstd::prelude::*;
use vstd::string::*;

use crate::error::{Error, NotFound};
use crate::text::{join_path, spec_dec, spec_join_path, u64_dec};

verus! {

/// An assignment of a course. `max_grade` bounds valid grade values;
/// `duedate` is the due instant in unix seconds.
#[derive(Debug)]
pub struct MAssignment {
    pub id: u64,
    pub name: String,
    pub max_grade: i64,
    pub duedate: i64,
}

/// A course with its embedded assignments.
#[derive(Debug)]
pub struct MCourse {
    pub id: u64,
    pub fullname: String,
    pub assignments: Vec<MAssignment>,
}

/// One file of a submission. `filepath` is the server-provided directory
/// with its leading path separator stripped.
#[derive(Debug)]
pub struct SubmissionFile {
    pub filename: String,
    pub fileurl: String,
    pub filepath: String,
}

/// One user's submission: last-modified instant in unix seconds and the
/// files of the file plugin's submission area.
#[derive(Debug)]
pub struct MSubmission {
    pub userid: u64,
    pub timemodified: i64,
    pub files: Vec<SubmissionFile>,
}

/// A user of the service.
#[derive(Debug)]
pub struct MUser {
    pub id: u64,
    pub fullname: String,
    pub email: String,
}

/// How many whole seconds past the due instant a submission was modified:
/// zero when it was in time, never negative.
pub open spec fn spec_late(duedate: int, timemodified: int) -> int {
    if timemodified <= duedate {
        0
    } else {
        timemodified - duedate
    }
}

/// Lateness is never negative, even when the submission precedes the due
/// instant.
pub proof fn lemma_lateness_nonnegative(duedate: int, timemodified: int)
    ensures
        spec_late(duedate, timemodified) >= 0,
{
}

/// The first assignment of a sequence with the given id, if any.
pub open spec fn spec_find_assignment(s: Seq<MAssignment>, id: u64) -> Option<
    MAssignment,
>
    decreases s.len(),
{
    if s.len() == 0 {
        None
    } else if s[0].id == id {
        Some(s[0])
    } else {
        spec_find_assignment(s.subrange(1, s.len() as int), id)
    }
}

impl MAssignment {
    /// How late a submission is against this assignment's due instant, in
    /// whole seconds, clamped at zero.
    pub fn calculate_late(&self, submission: &MSubmission) -> (late: u64)
        ensures
            late as int == spec_late(self.duedate as int, submission.timemodified as int),
    {
        let due = self.duedate as i128;
        let modified = submission.timemodified as i128;
        if modified <= due {
            0
        } else {
            (modified - due) as u64
        }
    }
}

impl MCourse {
    /// Looks an assignment up by id within this already-fetched course; no
    /// exchange takes place. Reports the assignment missing when no entry
    /// matches.
    pub fn get_assignment(&self, assignment_id: u64) -> (r: Result<&MAssignment, Error>)
        ensures
            match spec_find_assignment(self.assignments@, assignment_id) {
                Some(a) => r matches Ok(found) && *found == a,
                None => r matches Err(e) && e == Error::NotFound(
                    NotFound::Assignment,
                    assignment_id,
                ),
            },
    {
        let n = self.assignments.len();
        let mut i: usize = 0;
        proof {
            assert(self.assignments@.subrange(0, n as int) =~= self.assignments@);
        }
        while i < n
            invariant
                i <= n,
                n == self.assignments@.len(),
                spec_find_assignment(self.assignments@, assignment_id)
                    == spec_find_assignment(
                    self.assignments@.subrange(i as int, n as int),
                    assignment_id,
                ),
            decreases n - i,
        {
            proof {
                let tail = self.assignments@.subrange(i as int, n as int);
                assert(tail[0] == self.assignments@[i as int]);
                assert(tail.subrange(1, tail.len() as int) =~= self.assignments@.subrange(
                    i + 1,
                    n as int,
                ));
            }
            if self.assignments[i].id == assignment_id {
                return Ok(&self.assignments[i]);
            }
            i = i + 1;
        }
        Err(Error::NotFound(NotFound::Assignment, assignment_id))
    }
}

impl MCourse {
    /// The one-line description of this course: its id and full name.
    pub fn heading(&self) -> (r: String)
        ensures
            r@ == "Course (id: "@ + spec_dec(self.id as nat) + ") :: "@ + self.fullname@,
    {
        let mut s = String::from_str("Course (id: ");
        let id = u64_dec(self.id);
        s.append(id.as_str());
        s.append(") :: ");
        s.append(self.fullname.as_str());
        proof {
            assert(s@ =~= "Course (id: "@ + spec_dec(self.id as nat) + ") :: "@
                + self.fullname@);
        }
        s
    }
}

impl SubmissionFile {
    /// The attachment's full relative path: its directory joined with its
    /// file name.
    pub fn fullpath(&self) -> (r: String)
        ensures
            r@ == spec_join_path(self.filepath@, self.filename@),
    {
        join_path(self.filepath.as_str(), self.filename.as_str())
    }
}

} // verus!
