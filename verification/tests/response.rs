use rs115::error::{DeleteError, FolderError, UploadError};
use rs115::response::{
    classify_decoded, classify_response, create_folder_result, delete_result, folder_result,
    probe_outcome, upload_result, CreateDirResponse, DeleteResponse, ErrorCode, NestedStatus, ProbeOutcome,
    UploadResponse,
};

fn response(statuscode: u32, statusmsg: &str, status: NestedStatus) -> UploadResponse {
    UploadResponse { statuscode, statusmsg: statusmsg.to_string(), status }
}

fn failure(reason: &str) -> ProbeOutcome {
    ProbeOutcome::IndeterminateFailure(reason.to_string())
}

#[test]
fn status_414_is_forbidden_whatever_else() {
    let statuses = [
        NestedStatus::Absent,
        NestedStatus::NotInteger,
        NestedStatus::Integer(2),
        NestedStatus::Integer(0),
        NestedStatus::Integer(-7),
    ];
    let messages = ["", "plain", "\\u0038", "\\q broken escape", "\\"];
    for status in statuses {
        for message in messages {
            assert_eq!(classify_response(&response(414, message, status)), ProbeOutcome::Forbidden);
        }
    }
}

#[test]
fn status_0_with_nested_2_is_valid() {
    assert_eq!(classify_response(&response(0, "", NestedStatus::Integer(2))), ProbeOutcome::Valid);
    // the message does not matter, even one that does not unescape
    assert_eq!(
        classify_response(&response(0, "\\q", NestedStatus::Integer(2))),
        ProbeOutcome::Valid
    );
}

#[test]
fn status_0_without_nested_2_is_indeterminate() {
    assert_eq!(
        classify_response(&response(0, "wait", NestedStatus::Absent)),
        failure("not succ: wait")
    );
    assert_eq!(
        classify_response(&response(0, "wait", NestedStatus::NotInteger)),
        failure("not succ: wait")
    );
    assert_eq!(
        classify_response(&response(0, "wait", NestedStatus::Integer(1))),
        failure("not succ: wait")
    );
    assert_eq!(
        classify_response(&response(0, "", NestedStatus::Integer(3))),
        failure("not succ: ")
    );
}

#[test]
fn other_status_codes_are_indeterminate_with_the_message() {
    assert_eq!(
        classify_response(&response(500, "server error", NestedStatus::Integer(2))),
        failure("server error")
    );
    assert_eq!(classify_response(&response(1, "", NestedStatus::Absent)), failure(""));
    assert_eq!(
        classify_response(&response(413, "near", NestedStatus::Absent)),
        failure("near")
    );
    assert_eq!(
        classify_response(&response(415, "near", NestedStatus::Absent)),
        failure("near")
    );
    assert_eq!(
        classify_response(&response(u32::MAX, "far", NestedStatus::Absent)),
        failure("far")
    );
}

#[test]
fn status_message_is_unescaped() {
    // escapes written out with a backslash become the characters they name
    assert_eq!(
        classify_response(&response(402, "\\u0038\\u0039", NestedStatus::Absent)),
        failure("89")
    );
    assert_eq!(
        classify_response(&response(402, "\\u767b\\u5f55\\u8d85\\u65f6", NestedStatus::Absent)),
        failure("登录超时")
    );
    assert_eq!(
        classify_response(&response(0, "a\\tb", NestedStatus::Absent)),
        failure("not succ: a\tb")
    );
    // a message that is already plain stays as it is
    assert_eq!(
        classify_response(&response(402, "登录超时", NestedStatus::Absent)),
        failure("登录超时")
    );
}

#[test]
fn message_that_does_not_unescape_is_its_own_failure() {
    assert_eq!(
        classify_response(&response(402, "\\q", NestedStatus::Absent)),
        failure("js_utf8_decode failed")
    );
    assert_eq!(
        classify_response(&response(0, "ends in \\", NestedStatus::Absent)),
        failure("js_utf8_decode failed")
    );
    assert_eq!(
        classify_response(&response(0, "\\u12", NestedStatus::Integer(1))),
        failure("js_utf8_decode failed")
    );
}

#[test]
fn classify_decoded_follows_the_table() {
    let decoded = |s: &str| Some(s.to_string());
    assert_eq!(classify_decoded(414, NestedStatus::Absent, None), ProbeOutcome::Forbidden);
    assert_eq!(classify_decoded(414, NestedStatus::Integer(2), decoded("x")), ProbeOutcome::Forbidden);
    assert_eq!(classify_decoded(0, NestedStatus::Integer(2), None), ProbeOutcome::Valid);
    assert_eq!(classify_decoded(0, NestedStatus::Integer(2), decoded("x")), ProbeOutcome::Valid);
    assert_eq!(classify_decoded(0, NestedStatus::Integer(1), decoded("x")), failure("not succ: x"));
    assert_eq!(classify_decoded(0, NestedStatus::Absent, None), failure("js_utf8_decode failed"));
    assert_eq!(classify_decoded(7, NestedStatus::Integer(2), decoded("x")), failure("x"));
    assert_eq!(classify_decoded(7, NestedStatus::Integer(2), None), failure("js_utf8_decode failed"));
}

#[test]
fn no_response_is_a_request_error() {
    assert_eq!(probe_outcome(&None), failure("network request error"));
    assert_eq!(
        probe_outcome(&Some(response(414, "", NestedStatus::Absent))),
        ProbeOutcome::Forbidden
    );
}

#[test]
fn outcome_and_result_convert() {
    assert_eq!(ProbeOutcome::Valid.into_result(), Ok(()));
    assert_eq!(ProbeOutcome::Forbidden.into_result(), Err(UploadError::NameForbidden));
    assert_eq!(failure("why").into_result(), Err(UploadError::Other("why".to_string())));
    assert_eq!(ProbeOutcome::from_error(UploadError::NameForbidden), ProbeOutcome::Forbidden);
    assert_eq!(ProbeOutcome::from_error(UploadError::Other("why".to_string())), failure("why"));
    assert_eq!(ProbeOutcome::from_error(UploadError::MissingUserId), failure("missing userid"));
    assert_eq!(ProbeOutcome::from_error(UploadError::MissingUserKey), failure("missing userkey"));
    assert_eq!(
        ProbeOutcome::from_error(UploadError::RequestError),
        failure("network request error")
    );
}

fn created(state: bool, errno: ErrorCode, cid: Option<&str>) -> CreateDirResponse {
    CreateDirResponse { state, errno, cid: cid.map(|s| s.to_string()) }
}

#[test]
fn code_20004_is_already_exists_as_integer_and_as_string() {
    assert_eq!(
        create_folder_result(&created(false, ErrorCode::Number(20004), None)),
        Err(FolderError::AlreadyExists)
    );
    assert_eq!(
        create_folder_result(&created(false, ErrorCode::Text("20004".to_string()), None)),
        Err(FolderError::AlreadyExists)
    );
    // and whatever the id field holds
    assert_eq!(
        create_folder_result(&created(false, ErrorCode::Number(20004), Some("12"))),
        Err(FolderError::AlreadyExists)
    );
}

#[test]
fn other_codes_are_create_failed() {
    assert_eq!(
        create_folder_result(&created(false, ErrorCode::Number(20005), None)),
        Err(FolderError::CreateFailed)
    );
    assert_eq!(
        create_folder_result(&created(false, ErrorCode::Number(0), Some("12"))),
        Err(FolderError::CreateFailed)
    );
    assert_eq!(
        create_folder_result(&created(false, ErrorCode::Text("".to_string()), None)),
        Err(FolderError::CreateFailed)
    );
    assert_eq!(
        create_folder_result(&created(false, ErrorCode::Text("20004 ".to_string()), None)),
        Err(FolderError::CreateFailed)
    );
    assert_eq!(
        create_folder_result(&created(false, ErrorCode::Text("990001".to_string()), None)),
        Err(FolderError::CreateFailed)
    );
}

#[test]
fn created_folder_id_must_be_a_number() {
    assert_eq!(
        create_folder_result(&created(true, ErrorCode::Text("".to_string()), Some("2523356733662786137"))),
        Ok(2523356733662786137)
    );
    // the error code is not looked at on success
    assert_eq!(
        create_folder_result(&created(true, ErrorCode::Number(20004), Some("7"))),
        Ok(7)
    );
    assert_eq!(
        create_folder_result(&created(true, ErrorCode::Number(0), None)),
        Err(FolderError::MalformedId)
    );
    assert_eq!(
        create_folder_result(&created(true, ErrorCode::Number(0), Some(""))),
        Err(FolderError::MalformedId)
    );
    assert_eq!(
        create_folder_result(&created(true, ErrorCode::Number(0), Some("12ab"))),
        Err(FolderError::MalformedId)
    );
    assert_eq!(
        create_folder_result(&created(true, ErrorCode::Number(0), Some("18446744073709551616"))),
        Err(FolderError::MalformedId)
    );
}

#[test]
fn no_response_to_a_creation_is_create_failed() {
    assert_eq!(folder_result(&None), Err(FolderError::CreateFailed));
    assert_eq!(folder_result(&Some(created(true, ErrorCode::Number(0), Some("5")))), Ok(5));
}

#[test]
fn delete_fails_without_a_true_state() {
    assert_eq!(delete_result(&Some(DeleteResponse { state: true })), Ok(()));
    assert_eq!(
        delete_result(&Some(DeleteResponse { state: false })),
        Err(DeleteError::DeleteFailed)
    );
    assert_eq!(delete_result(&None), Err(DeleteError::DeleteFailed));
}

#[test]
fn error_code_says_exists() {
    assert!(ErrorCode::Number(20004).says_exists());
    assert!(ErrorCode::Text("20004".to_string()).says_exists());
    assert!(!ErrorCode::Number(-20004).says_exists());
    assert!(!ErrorCode::Text("020004".to_string()).says_exists());
}

#[test]
fn upload_result_names_each_error() {
    assert_eq!(upload_result(&None), Err(UploadError::RequestError));
    assert_eq!(
        upload_result(&Some(response(414, "", NestedStatus::Absent))),
        Err(UploadError::NameForbidden)
    );
    assert_eq!(
        upload_result(&Some(response(500, "down", NestedStatus::Absent))),
        Err(UploadError::Other("down".to_string()))
    );
    assert_eq!(
        upload_result(&Some(response(0, "half", NestedStatus::Integer(1)))),
        Err(UploadError::Other("not succ: half".to_string()))
    );
    assert_eq!(upload_result(&Some(response(0, "", NestedStatus::Integer(2)))), Ok(()));
}
