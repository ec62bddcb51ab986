//! The session and every operation it authorizes: parameter lists for the
//! web-service functions, grade clamping, and validation of collection
//! responses against the requested id.
//!
//! Each remote operation appears twice: a builder that produces the exact
//! form fields of the request, and a validator that takes the decoded
//! response and either returns the matching entity or reports it missing.
//! The caller performs the exchange between the two.

use vstd::prelude::*;
use vstd::string::*;

use crate::error::{Error, NotFound};
use crate::model::{MAssignment, MCourse, MSubmission, MUser};
use crate::text::{i64_dec, spec_dec, spec_dec_int, trim_of, trim_str, u64_dec};
use crate::wire::{
    submission_matches, submissions_of, AssignmentSubmission, LoginResponse,
};

verus! {

/// The relative path of the login endpoint.
pub fn login_path() -> (r: &'static str)
    ensures
        r@ == "login/token.php?service=moodle_mobile_app"@,
{
    "login/token.php?service=moodle_mobile_app"
}

/// The relative path of the web-service endpoint.
pub fn ws_path() -> (r: &'static str)
    ensures
        r@ == "webservice/rest/server.php?moodlewsrestformat=json"@,
{
    "webservice/rest/server.php?moodlewsrestformat=json"
}

/// An authenticated session: the web-service endpoint and the bearer token
/// every subsequent operation carries. Immutable once constructed.
#[derive(Debug)]
pub struct Moodle {
    pub url: String,
    pub token: String,
}

/// A grade forced into the valid range: below zero becomes zero, above the
/// maximum becomes the maximum. Out-of-range input is corrected silently,
/// never rejected.
pub open spec fn spec_clamp(grade: int, max_grade: int) -> int {
    let lifted = if grade < 0 {
        0
    } else {
        grade
    };
    if lifted > max_grade {
        max_grade
    } else {
        lifted
    }
}

/// Clamps a grade into `[0, max_grade]`; a grade already in range is kept
/// as it is.
pub fn clamp_grade(grade: i64, max_grade: i64) -> (r: i64)
    ensures
        r as int == spec_clamp(grade as int, max_grade as int),
        0 <= max_grade ==> 0 <= r <= max_grade,
        0 <= grade <= max_grade ==> r == grade,
{
    let lifted: i64 = if grade < 0 {
        0
    } else {
        grade
    };
    if lifted > max_grade {
        max_grade
    } else {
        lifted
    }
}

/// The first course of a sequence with the given id, if any.
pub open spec fn spec_find_course(s: Seq<MCourse>, id: u64) -> Option<MCourse>
    decreases s.len(),
{
    if s.len() == 0 {
        None
    } else if s[0].id == id {
        Some(s[0])
    } else {
        spec_find_course(s.subrange(1, s.len() as int), id)
    }
}

/// The first submission group of a sequence with the given assignment id,
/// if any.
pub open spec fn spec_find_group(s: Seq<AssignmentSubmission>, id: u64) -> Option<
    AssignmentSubmission,
>
    decreases s.len(),
{
    if s.len() == 0 {
        None
    } else if s[0].assignmentid == id {
        Some(s[0])
    } else {
        spec_find_group(s.subrange(1, s.len() as int), id)
    }
}

/// The first user of a sequence with the given id, if any.
pub open spec fn spec_find_user(s: Seq<MUser>, id: u64) -> Option<MUser>
    decreases s.len(),
{
    if s.len() == 0 {
        None
    } else if s[0].id == id {
        Some(s[0])
    } else {
        spec_find_user(s.subrange(1, s.len() as int), id)
    }
}

/// The feedback characters handed in, an absent value counting as empty.
pub open spec fn spec_feedback(feedback: Option<&str>) -> Seq<char> {
    match feedback {
        Some(s) => s@,
        None => Seq::empty(),
    }
}

impl Moodle {
    /// Builds the session from the login response: a granted token yields a
    /// session bound to the given web-service endpoint; a response without
    /// one fails with the server's message verbatim.
    pub fn new(url: String, login: LoginResponse) -> (r: Result<Moodle, Error>)
        ensures
            r is Ok <==> login.token is Some,
            login.token matches Some(t) ==> (r matches Ok(m) && m.url@ == url@
                && m.token@ == t@),
            login.token is None ==> (r matches Err(e) && e matches Error::Login(msg)
                && msg@ == login.error@),
    {
        match login.token {
            Some(token) => Ok(Moodle { url, token }),
            None => Err(Error::Login(login.error)),
        }
    }

    /// Appends the session token, the field every request must carry.
    fn with_token(&self, params: Vec<(String, String)>) -> (r: Vec<(String, String)>)
        ensures
            r@.len() == params@.len() + 1,
            forall|i: int| 0 <= i < params@.len() ==> r@[i] == params@[i],
            r@[params@.len() as int].0@ == "wstoken"@,
            r@[params@.len() as int].1@ == self.token@,
    {
        let mut r = params;
        r.push((String::from_str("wstoken"), self.token.clone()));
        r
    }

    /// The form fields of the assignments-listing request for one course.
    pub fn course_assignments_params(&self, course_id: u64) -> (p: Vec<(String, String)>)
        ensures
            p@.len() == 3,
            p@[0].0@ == "wsfunction"@ && p@[0].1@ == "mod_assign_get_assignments"@,
            p@[1].0@ == "courseids[]"@ && p@[1].1@ == spec_dec(course_id as nat),
            p@[2].0@ == "wstoken"@ && p@[2].1@ == self.token@,
    {
        let mut p: Vec<(String, String)> = Vec::new();
        p.push((
            String::from_str("wsfunction"),
            String::from_str("mod_assign_get_assignments"),
        ));
        p.push((String::from_str("courseids[]"), u64_dec(course_id)));
        self.with_token(p)
    }

    /// The form fields of the submissions-listing request for one
    /// assignment.
    pub fn submissions_params(&self, assignment_id: u64) -> (p: Vec<(String, String)>)
        ensures
            p@.len() == 3,
            p@[0].0@ == "wsfunction"@ && p@[0].1@ == "mod_assign_get_submissions"@,
            p@[1].0@ == "assignmentids[]"@ && p@[1].1@ == spec_dec(assignment_id as nat),
            p@[2].0@ == "wstoken"@ && p@[2].1@ == self.token@,
    {
        let mut p: Vec<(String, String)> = Vec::new();
        p.push((
            String::from_str("wsfunction"),
            String::from_str("mod_assign_get_submissions"),
        ));
        p.push((String::from_str("assignmentids[]"), u64_dec(assignment_id)));
        self.with_token(p)
    }

    /// The form fields of the by-id user lookup request.
    pub fn user_params(&self, user_id: u64) -> (p: Vec<(String, String)>)
        ensures
            p@.len() == 4,
            p@[0].0@ == "wsfunction"@ && p@[0].1@ == "core_user_get_users_by_field"@,
            p@[1].0@ == "field"@ && p@[1].1@ == "id"@,
            p@[2].0@ == "values[]"@ && p@[2].1@ == spec_dec(user_id as nat),
            p@[3].0@ == "wstoken"@ && p@[3].1@ == self.token@,
    {
        let mut p: Vec<(String, String)> = Vec::new();
        p.push((
            String::from_str("wsfunction"),
            String::from_str("core_user_get_users_by_field"),
        ));
        p.push((String::from_str("field"), String::from_str("id")));
        p.push((String::from_str("values[]"), u64_dec(user_id)));
        self.with_token(p)
    }

    /// The form fields that download one attachment: the token alone, sent
    /// to the file's own URL.
    pub fn file_token_params(&self) -> (p: Vec<(String, String)>)
        ensures
            p@.len() == 1,
            p@[0].0@ == "token"@,
            p@[0].1@ == self.token@,
    {
        let mut p: Vec<(String, String)> = Vec::new();
        p.push((String::from_str("token"), self.token.clone()));
        p
    }

    /// The form fields that save one grade with its feedback: the grade is
    /// clamped into `[0, max_grade]`, the feedback trimmed (absent feedback
    /// counts as empty), and the request always addresses the most recent
    /// attempt without adding one, changing workflow state, or applying to
    /// all attempts.
    pub fn upload_grade(
        &self,
        assignment: &MAssignment,
        user: &MUser,
        grade: i64,
        feedback: Option<&str>,
    ) -> (p: Vec<(String, String)>)
        ensures
            p@.len() == 11,
            p@[0].0@ == "wsfunction"@ && p@[0].1@ == "mod_assign_save_grade"@,
            p@[1].0@ == "assignmentid"@ && p@[1].1@ == spec_dec(assignment.id as nat),
            p@[2].0@ == "userid"@ && p@[2].1@ == spec_dec(user.id as nat),
            p@[3].0@ == "grade"@ && p@[3].1@ == spec_dec_int(
                spec_clamp(grade as int, assignment.max_grade as int),
            ),
            p@[4].0@ == "attemptnumber"@ && p@[4].1@ == "-1"@,
            p@[5].0@ == "addattempt"@ && p@[5].1@ == "0"@,
            p@[6].0@ == "workflowstate"@ && p@[6].1@.len() == 0,
            p@[7].0@ == "applytoall"@ && p@[7].1@ == "0"@,
            p@[8].0@ == "plugindata[assignfeedbackcomments_editor][text]"@
                && p@[8].1@ == trim_of(spec_feedback(feedback)),
            p@[9].0@ == "plugindata[assignfeedbackcomments_editor][format]"@
                && p@[9].1@ == "2"@,
            p@[10].0@ == "wstoken"@ && p@[10].1@ == self.token@,
    {
        let clamped = clamp_grade(grade, assignment.max_grade);
        let fb = match feedback {
            Some(s) => s,
            None => "",
        };
        proof {
            reveal_strlit("");
            assert(""@ =~= Seq::<char>::empty());
        }
        let trimmed = trim_str(fb);
        let mut p: Vec<(String, String)> = Vec::new();
        p.push((
            String::from_str("wsfunction"),
            String::from_str("mod_assign_save_grade"),
        ));
        p.push((String::from_str("assignmentid"), u64_dec(assignment.id)));
        p.push((String::from_str("userid"), u64_dec(user.id)));
        p.push((String::from_str("grade"), i64_dec(clamped)));
        p.push((String::from_str("attemptnumber"), String::from_str("-1")));
        p.push((String::from_str("addattempt"), String::from_str("0")));
        p.push((String::from_str("workflowstate"), String::new()));
        p.push((String::from_str("applytoall"), String::from_str("0")));
        p.push((
            String::from_str("plugindata[assignfeedbackcomments_editor][text]"),
            String::from_str(trimmed),
        ));
        p.push((
            String::from_str("plugindata[assignfeedbackcomments_editor][format]"),
            String::from_str("2"),
        ));
        self.with_token(p)
    }

    /// Validates the assignments-listing response against the requested
    /// course id: the server may return other or zero courses, so the first
    /// course with the requested id is returned, and a response without one
    /// reports the course missing.
    pub fn get_course_assignments(&self, course_id: u64, response: Vec<MCourse>) -> (r:
        Result<MCourse, Error>)
        ensures
            match spec_find_course(response@, course_id) {
                Some(c) => r matches Ok(found) && found == c,
                None => r matches Err(e) && e == Error::NotFound(
                    NotFound::Course,
                    course_id,
                ),
            },
        decreases response@.len(),
    {
        let mut response = response;
        if response.len() == 0 {
            return Err(Error::NotFound(NotFound::Course, course_id));
        }
        let ghost pre = response@;
        let head = response.remove(0);
        proof {
            assert(response@ =~= pre.subrange(1, pre.len() as int));
        }
        if head.id == course_id {
            Ok(head)
        } else {
            self.get_course_assignments(course_id, response)
        }
    }

    /// Validates the submissions-listing response against the requested
    /// assignment id: the matching group's submissions are converted to
    /// their domain form; a response without the id reports the assignment
    /// missing, never an empty list.
    pub fn get_submissions(
        &self,
        assignment_id: u64,
        response: Vec<AssignmentSubmission>,
    ) -> (r: Result<Vec<MSubmission>, Error>)
        ensures
            match spec_find_group(response@, assignment_id) {
                Some(g) => r matches Ok(subs) && subs@.len() == g.submissions@.len()
                    && forall|i: int|
                        0 <= i < g.submissions@.len() ==> submission_matches(
                            subs@[i],
                            g.submissions@[i],
                        ),
                None => r matches Err(e) && e == Error::NotFound(
                    NotFound::Assignment,
                    assignment_id,
                ),
            },
        decreases response@.len(),
    {
        let mut response = response;
        if response.len() == 0 {
            return Err(Error::NotFound(NotFound::Assignment, assignment_id));
        }
        let ghost pre = response@;
        let head = response.remove(0);
        proof {
            assert(response@ =~= pre.subrange(1, pre.len() as int));
        }
        if head.assignmentid == assignment_id {
            Ok(submissions_of(head.submissions))
        } else {
            self.get_submissions(assignment_id, response)
        }
    }

    /// Validates the user-lookup response against the requested user id:
    /// the first user with the requested id is returned, and a response
    /// without one reports the user missing.
    pub fn get_user(&self, user_id: u64, response: Vec<MUser>) -> (r: Result<MUser, Error>)
        ensures
            match spec_find_user(response@, user_id) {
                Some(u) => r matches Ok(found) && found == u,
                None => r matches Err(e) && e == Error::NotFound(NotFound::User, user_id),
            },
        decreases response@.len(),
    {
        let mut response = response;
        if response.len() == 0 {
            return Err(Error::NotFound(NotFound::User, user_id));
        }
        let ghost pre = response@;
        let head = response.remove(0);
        proof {
            assert(response@ =~= pre.subrange(1, pre.len() as int));
        }
        if head.id == user_id {
            Ok(head)
        } else {
            self.get_user(user_id, response)
        }
    }
}

} // verus!
