use moodle_client::error::{Error, NotFound};
use moodle_client::model::{MAssignment, MCourse, MSubmission, MUser, SubmissionFile};
use moodle_client::session::{clamp_grade, login_path, ws_path, Moodle};
use moodle_client::text::{i64_dec, strip_leading_separator, u64_dec};
use moodle_client::wire::{
    files_from_plugins, submission_of, AssignmentSubmission, LoginResponse,
    RawSubmission, RawSubmissionFile, SubmissionFileArea, SubmissionPlugin,
};

fn session() -> Moodle {
    Moodle {
        url: "https://school.example/webservice/rest/server.php?moodlewsrestformat=json"
            .to_string(),
        token: "abc".to_string(),
    }
}

fn assignment() -> MAssignment {
    MAssignment {
        id: 3,
        name: "A".to_string(),
        max_grade: 100,
        duedate: 1_700_000_000,
    }
}

fn pair(k: &str, v: &str) -> (String, String) {
    (k.to_string(), v.to_string())
}

#[test]
fn clamp_keeps_in_range_grades() {
    assert_eq!(clamp_grade(50, 100), 50);
    assert_eq!(clamp_grade(0, 100), 0);
    assert_eq!(clamp_grade(100, 100), 100);
}

#[test]
fn clamp_corrects_out_of_range_grades() {
    assert_eq!(clamp_grade(-3, 100), 0);
    assert_eq!(clamp_grade(120, 100), 100);
    assert_eq!(clamp_grade(7, 0), 0);
}

#[test]
fn lateness_is_zero_for_early_submission() {
    let a = assignment();
    let s = MSubmission {
        userid: 11,
        timemodified: 1_699_999_000,
        files: Vec::new(),
    };
    assert_eq!(a.calculate_late(&s), 0);
}

#[test]
fn lateness_counts_whole_seconds_past_due() {
    let a = assignment();
    let on_time = MSubmission { userid: 11, timemodified: 1_700_000_000, files: Vec::new() };
    let late = MSubmission { userid: 11, timemodified: 1_700_000_090, files: Vec::new() };
    assert_eq!(a.calculate_late(&on_time), 0);
    assert_eq!(a.calculate_late(&late), 90);
}

#[test]
fn strip_removes_leading_separators() {
    assert_eq!(strip_leading_separator("/a/b"), "a/b");
    assert_eq!(strip_leading_separator("//x"), "x");
    assert_eq!(strip_leading_separator("a/b"), "a/b");
    assert_eq!(strip_leading_separator(""), "");
    assert_eq!(strip_leading_separator("/"), "");
}

#[test]
fn strip_is_idempotent_on_examples() {
    for p in ["/a/b", "//x", "a", "", "///"] {
        let once = strip_leading_separator(p);
        let twice = strip_leading_separator(&once);
        assert_eq!(once, twice);
    }
}

#[test]
fn fullpath_joins_directory_and_name() {
    let plain = SubmissionFile {
        filename: "f.txt".to_string(),
        fileurl: "https://school.example/f.txt".to_string(),
        filepath: String::new(),
    };
    assert_eq!(plain.fullpath(), "f.txt");
    let nested = SubmissionFile { filepath: "dir/sub/".to_string(), ..plain };
    assert_eq!(nested.fullpath(), "dir/sub/f.txt");
    let bare = SubmissionFile { filepath: "dir".to_string(), ..nested };
    assert_eq!(bare.fullpath(), "dir/f.txt");
}

#[test]
fn decimal_rendering_is_exact() {
    assert_eq!(u64_dec(0), "0");
    assert_eq!(u64_dec(7), "7");
    assert_eq!(u64_dec(1_234_567_890), "1234567890");
    assert_eq!(u64_dec(u64::MAX), "18446744073709551615");
    assert_eq!(i64_dec(0), "0");
    assert_eq!(i64_dec(-1), "-1");
    assert_eq!(i64_dec(i64::MIN), "-9223372036854775808");
}

#[test]
fn login_without_token_fails_with_server_message() {
    let login = LoginResponse { token: None, error: "invalid login".to_string() };
    let r = Moodle::new("u".to_string(), login);
    assert!(matches!(r, Err(Error::Login(m)) if m == "invalid login"));
}

#[test]
fn login_with_token_yields_usable_session() {
    let login = LoginResponse { token: Some("abc".to_string()), error: String::new() };
    let m = Moodle::new("https://school.example/ws".to_string(), login).unwrap();
    assert_eq!(m.url, "https://school.example/ws");
    assert_eq!(m.token, "abc");
    let p = m.course_assignments_params(3);
    assert_eq!(p.last().unwrap(), &pair("wstoken", "abc"));
}

#[test]
fn course_query_round_trip() {
    let m = session();
    let response = vec![MCourse {
        id: 7,
        fullname: "X".to_string(),
        assignments: vec![assignment()],
    }];
    let course = m.get_course_assignments(7, response).unwrap();
    assert_eq!(course.id, 7);
    assert_eq!(course.fullname, "X");
    assert_eq!(course.assignments.len(), 1);
    let a = &course.assignments[0];
    assert_eq!(a.id, 3);
    assert_eq!(a.name, "A");
    assert_eq!(a.max_grade, 100);
    assert_eq!(a.duedate, 1_700_000_000);
}

#[test]
fn course_query_with_other_id_reports_missing() {
    let m = session();
    let response = vec![MCourse {
        id: 7,
        fullname: "X".to_string(),
        assignments: vec![assignment()],
    }];
    let r = m.get_course_assignments(8, response);
    assert!(matches!(r, Err(Error::NotFound(NotFound::Course, 8))));
}

#[test]
fn local_assignment_lookup_matches_id() {
    let course = MCourse {
        id: 7,
        fullname: "X".to_string(),
        assignments: vec![
            MAssignment { id: 2, name: "B".to_string(), max_grade: 10, duedate: 5 },
            assignment(),
        ],
    };
    assert_eq!(course.get_assignment(3).unwrap().name, "A");
    assert!(matches!(
        course.get_assignment(9),
        Err(Error::NotFound(NotFound::Assignment, 9))
    ));
}

fn raw_file(name: &str, dir: &str) -> RawSubmissionFile {
    RawSubmissionFile {
        filename: name.to_string(),
        fileurl: format!("https://school.example/{name}"),
        filepath: dir.to_string(),
    }
}

#[test]
fn only_the_file_plugins_submission_area_is_kept() {
    let plugins = vec![
        SubmissionPlugin {
            plugin_type: "comments".to_string(),
            fileareas: Some(vec![SubmissionFileArea {
                area: "submission_files".to_string(),
                files: Some(vec![raw_file("wrong-plugin.txt", "/")]),
            }]),
        },
        SubmissionPlugin {
            plugin_type: "file".to_string(),
            fileareas: Some(vec![
                SubmissionFileArea {
                    area: "drafts".to_string(),
                    files: Some(vec![raw_file("wrong-area.txt", "/")]),
                },
                SubmissionFileArea {
                    area: "submission_files".to_string(),
                    files: Some(vec![raw_file("kept.txt", "/hw/")]),
                },
            ]),
        },
    ];
    let files = files_from_plugins(plugins);
    assert_eq!(files.len(), 1);
    assert_eq!(files[0].filename, "kept.txt");
}

#[test]
fn file_plugin_without_matching_area_yields_nothing() {
    let plugins = vec![SubmissionPlugin {
        plugin_type: "file".to_string(),
        fileareas: Some(vec![SubmissionFileArea {
            area: "drafts".to_string(),
            files: Some(vec![raw_file("wrong-area.txt", "/")]),
        }]),
    }];
    assert!(files_from_plugins(plugins).is_empty());
}

#[test]
fn file_plugin_without_area_list_is_passed_over() {
    let plugins = vec![
        SubmissionPlugin {
            plugin_type: "file".to_string(),
            fileareas: None,
        },
        SubmissionPlugin {
            plugin_type: "file".to_string(),
            fileareas: Some(vec![SubmissionFileArea {
                area: "submission_files".to_string(),
                files: Some(vec![raw_file("kept.txt", "/")]),
            }]),
        },
    ];
    let files = files_from_plugins(plugins);
    assert_eq!(files.len(), 1);
    assert_eq!(files[0].filename, "kept.txt");
}

#[test]
fn matching_area_without_file_list_ends_the_search_empty() {
    let plugins = vec![
        SubmissionPlugin {
            plugin_type: "file".to_string(),
            fileareas: Some(vec![SubmissionFileArea {
                area: "submission_files".to_string(),
                files: None,
            }]),
        },
        SubmissionPlugin {
            plugin_type: "file".to_string(),
            fileareas: Some(vec![SubmissionFileArea {
                area: "submission_files".to_string(),
                files: Some(vec![raw_file("later.txt", "/")]),
            }]),
        },
    ];
    assert!(files_from_plugins(plugins).is_empty());
}

#[test]
fn converted_submission_strips_file_directories() {
    let raw = RawSubmission {
        userid: 11,
        timemodified: 42,
        plugins: vec![SubmissionPlugin {
            plugin_type: "file".to_string(),
            fileareas: Some(vec![SubmissionFileArea {
                area: "submission_files".to_string(),
                files: Some(vec![raw_file("kept.txt", "/hw/")]),
            }]),
        }],
    };
    let s = submission_of(raw);
    assert_eq!(s.userid, 11);
    assert_eq!(s.timemodified, 42);
    assert_eq!(s.files.len(), 1);
    assert_eq!(s.files[0].filepath, "hw/");
    assert_eq!(s.files[0].fullpath(), "hw/kept.txt");
}

#[test]
fn submissions_for_absent_assignment_report_missing() {
    let m = session();
    let response = vec![
        AssignmentSubmission { assignmentid: 4, submissions: Vec::new() },
        AssignmentSubmission { assignmentid: 6, submissions: Vec::new() },
    ];
    let r = m.get_submissions(5, response);
    assert!(matches!(r, Err(Error::NotFound(NotFound::Assignment, 5))));
}

#[test]
fn submissions_of_matching_group_are_returned() {
    let m = session();
    let response = vec![
        AssignmentSubmission { assignmentid: 4, submissions: Vec::new() },
        AssignmentSubmission {
            assignmentid: 5,
            submissions: vec![RawSubmission {
                userid: 11,
                timemodified: 9,
                plugins: Vec::new(),
            }],
        },
    ];
    let subs = m.get_submissions(5, response).unwrap();
    assert_eq!(subs.len(), 1);
    assert_eq!(subs[0].userid, 11);
    assert!(subs[0].files.is_empty());
}

#[test]
fn user_lookup_matches_requested_id() {
    let m = session();
    let users = vec![
        MUser { id: 1, fullname: "Ada".to_string(), email: "ada@school.example".to_string() },
        MUser { id: 2, fullname: "Bob".to_string(), email: "bob@school.example".to_string() },
    ];
    let u = m.get_user(2, users).unwrap();
    assert_eq!(u.fullname, "Bob");
}

#[test]
fn user_lookup_without_match_reports_missing() {
    let m = session();
    let users = vec![MUser {
        id: 1,
        fullname: "Ada".to_string(),
        email: "ada@school.example".to_string(),
    }];
    let r = m.get_user(9, users);
    assert!(matches!(r, Err(Error::NotFound(NotFound::User, 9))));
}

#[test]
fn grade_upload_builds_the_exact_form_fields() {
    let m = session();
    let a = assignment();
    let u = MUser {
        id: 12,
        fullname: "Ada".to_string(),
        email: "ada@school.example".to_string(),
    };
    let p = m.upload_grade(&a, &u, 120, Some("  good work \n"));
    let expected = vec![
        pair("wsfunction", "mod_assign_save_grade"),
        pair("assignmentid", "3"),
        pair("userid", "12"),
        pair("grade", "100"),
        pair("attemptnumber", "-1"),
        pair("addattempt", "0"),
        pair("workflowstate", ""),
        pair("applytoall", "0"),
        pair("plugindata[assignfeedbackcomments_editor][text]", "good work"),
        pair("plugindata[assignfeedbackcomments_editor][format]", "2"),
        pair("wstoken", "abc"),
    ];
    assert_eq!(p, expected);
}

#[test]
fn grade_upload_without_feedback_sends_empty_text() {
    let m = session();
    let a = assignment();
    let u = MUser {
        id: 12,
        fullname: "Ada".to_string(),
        email: "ada@school.example".to_string(),
    };
    let p = m.upload_grade(&a, &u, -4, None);
    assert_eq!(p[3], pair("grade", "0"));
    assert_eq!(p[8], pair("plugindata[assignfeedbackcomments_editor][text]", ""));
}

#[test]
fn query_params_carry_function_ids_and_token() {
    let m = session();
    assert_eq!(
        m.course_assignments_params(7),
        vec![
            pair("wsfunction", "mod_assign_get_assignments"),
            pair("courseids[]", "7"),
            pair("wstoken", "abc"),
        ]
    );
    assert_eq!(
        m.submissions_params(5),
        vec![
            pair("wsfunction", "mod_assign_get_submissions"),
            pair("assignmentids[]", "5"),
            pair("wstoken", "abc"),
        ]
    );
    assert_eq!(
        m.user_params(12),
        vec![
            pair("wsfunction", "core_user_get_users_by_field"),
            pair("field", "id"),
            pair("values[]", "12"),
            pair("wstoken", "abc"),
        ]
    );
    assert_eq!(m.file_token_params(), vec![pair("token", "abc")]);
}

#[test]
fn course_heading_names_id_and_title() {
    let course = MCourse {
        id: 7,
        fullname: "X".to_string(),
        assignments: Vec::new(),
    };
    assert_eq!(course.heading(), "Course (id: 7) :: X");
}

#[test]
fn error_messages_name_the_failure() {
    let not_found = Error::NotFound(NotFound::Course, 8);
    assert_eq!(not_found.describe(), "Course (id: 8) not found!");
    let login = Error::Login("invalid login".to_string());
    assert_eq!(login.describe(), "Login Error :: invalid login");
    let transport = Error::Transport("connection refused".to_string());
    assert_eq!(transport.describe(), "Moodle Error :: connection refused");
    let decode = Error::Decode("unexpected shape".to_string());
    assert_eq!(decode.describe(), "Moodle Error :: unexpected shape");
}

#[test]
fn endpoint_paths_are_fixed() {
    assert_eq!(login_path(), "login/token.php?service=moodle_mobile_app");
    assert_eq!(ws_path(), "webservice/rest/server.php?moodlewsrestformat=json");
}
