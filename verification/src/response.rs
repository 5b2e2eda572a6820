use crate::error::{DeleteError, FolderError, UploadError, UploadErrorView};
use crate::escape::{js_utf8_decode, unescaped};
use crate::text::{parse_u64, parsed_u64, same_text, text_of};
use vstd::prelude::*;
use vstd::string::*;

verus! {

pub const NAME_FORBIDDEN_CODE: u32 = 414;

pub const ACCEPTED_STATUS: i64 = 2;

pub const DIR_EXISTS_CODE: i32 = 20004;

pub const DIR_EXISTS_TEXT: &'static str = "20004";

pub const NOT_ACCEPTED_PREFIX: &'static str = "not succ: ";

pub const DECODE_FAILED: &'static str = "js_utf8_decode failed";

/// The `status` field nested in the response to an upload.
#[derive(Clone, Copy, Debug, PartialEq, Eq, Structural)]
pub enum NestedStatus {
    /// The response has no such field.
    Absent,
    /// The field holds something other than an integer.
    NotInteger,
    /// The field holds this integer.
    Integer(i64),
}

/// What the provider answers to an upload.
#[derive(Clone, Debug, PartialEq, Eq)]
pub struct UploadResponse {
    pub statuscode: u32,
    /// The status message, still escaped as it came.
    pub statusmsg: String,
    pub status: NestedStatus,
}

/// A response to an upload as text.
pub struct UploadResponseView {
    pub statuscode: u32,
    pub statusmsg: Seq<char>,
    pub status: NestedStatus,
}

impl View for UploadResponse {
    type V = UploadResponseView;

    open spec fn view(&self) -> UploadResponseView {
        UploadResponseView {
            statuscode: self.statuscode,
            statusmsg: self.statusmsg@,
            status: self.status,
        }
    }
}

/// An error code, which the provider writes as a string or as an integer.
#[derive(Clone, Debug, PartialEq, Eq)]
pub enum ErrorCode {
    Text(String),
    Number(i32),
}

/// An error code as text or number.
pub enum ErrorCodeView {
    Text(Seq<char>),
    Number(i32),
}

impl View for ErrorCode {
    type V = ErrorCodeView;

    open spec fn view(&self) -> ErrorCodeView {
        match self {
            ErrorCode::Text(t) => ErrorCodeView::Text(t@),
            ErrorCode::Number(n) => ErrorCodeView::Number(*n),
        }
    }
}

impl ErrorCodeView {
    /// Whether the code says that the folder is already there, in either
    /// spelling.
    pub open spec fn says_exists(self) -> bool {
        match self {
            ErrorCodeView::Text(t) => t == DIR_EXISTS_TEXT@,
            ErrorCodeView::Number(n) => n == DIR_EXISTS_CODE,
        }
    }
}

/// What the provider answers to the creation of a folder.
#[derive(Clone, Debug, PartialEq, Eq)]
pub struct CreateDirResponse {
    pub state: bool,
    pub errno: ErrorCode,
    pub cid: Option<String>,
}

/// A response to the creation of a folder as text.
pub struct CreateDirResponseView {
    pub state: bool,
    pub errno: ErrorCodeView,
    pub cid: Option<Seq<char>>,
}

impl View for CreateDirResponse {
    type V = CreateDirResponseView;

    open spec fn view(&self) -> CreateDirResponseView {
        CreateDirResponseView { state: self.state, errno: self.errno@, cid: text_of(self.cid) }
    }
}

/// What the provider answers to a deletion.
#[derive(Clone, Copy, Debug, PartialEq, Eq, Structural)]
pub struct DeleteResponse {
    pub state: bool,
}

/// The verdict of one probe.
#[derive(Clone, Debug, PartialEq, Eq)]
pub enum ProbeOutcome {
    /// The name passed the censor: the provider went on to ask for content.
    Valid,
    /// The provider rejected the name.
    Forbidden,
    /// Neither is known, for the reason given.
    IndeterminateFailure(String),
}

/// A verdict as text.
pub enum ProbeOutcomeView {
    Valid,
    Forbidden,
    IndeterminateFailure(Seq<char>),
}

impl View for ProbeOutcome {
    type V = ProbeOutcomeView;

    open spec fn view(&self) -> ProbeOutcomeView {
        match self {
            ProbeOutcome::Valid => ProbeOutcomeView::Valid,
            ProbeOutcome::Forbidden => ProbeOutcomeView::Forbidden,
            ProbeOutcome::IndeterminateFailure(reason) => ProbeOutcomeView::IndeterminateFailure(
                reason@,
            ),
        }
    }
}

/// The verdict on a response with the given status code and nested status,
/// where `decoded` is its status message unescaped, or nothing if the message
/// does not unescape.
///
/// Code 414 is a rejected name whatever else the response holds. Code 0 with
/// the nested status 2 is an accepted probe. Everything else is indeterminate,
/// with the message as the reason.
pub open spec fn classified(statuscode: u32, status: NestedStatus, decoded: Option<Seq<char>>)
    -> ProbeOutcomeView {
    if statuscode == NAME_FORBIDDEN_CODE {
        ProbeOutcomeView::Forbidden
    } else if statuscode == 0 && status == NestedStatus::Integer(ACCEPTED_STATUS) {
        ProbeOutcomeView::Valid
    } else {
        match decoded {
            None => ProbeOutcomeView::IndeterminateFailure(DECODE_FAILED@),
            Some(message) => if statuscode != 0 {
                ProbeOutcomeView::IndeterminateFailure(message)
            } else {
                ProbeOutcomeView::IndeterminateFailure(NOT_ACCEPTED_PREFIX@ + message)
            },
        }
    }
}

impl ProbeOutcomeView {
    /// The verdict as the result of an upload.
    pub open spec fn as_result(self) -> Result<(), UploadErrorView> {
        match self {
            ProbeOutcomeView::Valid => Ok(()),
            ProbeOutcomeView::Forbidden => Err(UploadErrorView::NameForbidden),
            ProbeOutcomeView::IndeterminateFailure(reason) => Err(UploadErrorView::Other(reason)),
        }
    }

    /// The verdict that stands for an upload that failed with `error`.
    pub open spec fn of_error(error: UploadErrorView) -> ProbeOutcomeView {
        match error {
            UploadErrorView::NameForbidden => ProbeOutcomeView::Forbidden,
            UploadErrorView::Other(reason) => ProbeOutcomeView::IndeterminateFailure(reason),
            _ => ProbeOutcomeView::IndeterminateFailure(error.message()),
        }
    }
}

/// The view of the result of an upload.
pub open spec fn result_view(result: Result<(), UploadError>) -> Result<(), UploadErrorView> {
    match result {
        Ok(()) => Ok(()),
        Err(e) => Err(e@),
    }
}

impl ProbeOutcome {
    /// The verdict as the result of an upload: a valid name is a success, a
    /// forbidden one and an indeterminate one each their own error.
    pub fn into_result(self) -> (result: Result<(), UploadError>)
        ensures
            result_view(result) == self@.as_result(),
    {
        match self {
            ProbeOutcome::Valid => Ok(()),
            ProbeOutcome::Forbidden => Err(UploadError::NameForbidden),
            ProbeOutcome::IndeterminateFailure(reason) => Err(UploadError::Other(reason)),
        }
    }

    /// The verdict that stands for an upload that failed with `error`: a
    /// forbidden name where the error says so, else indeterminate, for the
    /// reason that the error gives.
    pub fn from_error(error: UploadError) -> (outcome: ProbeOutcome)
        ensures
            outcome@ == ProbeOutcomeView::of_error(error@),
    {
        match error {
            UploadError::NameForbidden => ProbeOutcome::Forbidden,
            UploadError::Other(reason) => ProbeOutcome::IndeterminateFailure(reason),
            other => ProbeOutcome::IndeterminateFailure(other.message()),
        }
    }
}

/// Classifies a response of which the status message has been unescaped
/// already: `decoded` is the message, or nothing if it did not unescape.
pub fn classify_decoded(statuscode: u32, status: NestedStatus, decoded: Option<String>) -> (outcome:
    ProbeOutcome)
    ensures
        outcome@ == classified(statuscode, status, text_of(decoded)),
{
    if statuscode == NAME_FORBIDDEN_CODE {
        return ProbeOutcome::Forbidden;
    }
    let accepted = match status {
        NestedStatus::Integer(n) => n == ACCEPTED_STATUS,
        _ => false,
    };
    if statuscode == 0 && accepted {
        return ProbeOutcome::Valid;
    }
    match decoded {
        None => ProbeOutcome::IndeterminateFailure(String::from_str(DECODE_FAILED)),
        Some(message) => if statuscode != 0 {
            ProbeOutcome::IndeterminateFailure(message)
        } else {
            ProbeOutcome::IndeterminateFailure(
                String::from_str(NOT_ACCEPTED_PREFIX).concat(message.as_str()),
            )
        },
    }
}

/// Classifies the response to an upload.
///
/// A status code of 414 is a forbidden name, whatever the other fields hold.
/// A status code of 0 with the nested status 2 is a valid name. Every other
/// response is an indeterminate failure.
pub fn classify_response(response: &UploadResponse) -> (outcome: ProbeOutcome)
    ensures
        outcome@ == classified(
            response.statuscode,
            response.status,
            unescaped(response.statusmsg@),
        ),
        response.statuscode == 414 ==> outcome@ is Forbidden,
        response.statuscode == 0 && response.status == NestedStatus::Integer(2) ==> outcome@
            is Valid,
        response.statuscode == 0 && response.status != NestedStatus::Integer(2)
            ==> outcome@ is IndeterminateFailure,
        response.statuscode != 0 && response.statuscode != 414 ==> outcome@
            is IndeterminateFailure,
{
    let decoded = js_utf8_decode(response.statusmsg.as_str());
    classify_decoded(response.statuscode, response.status, decoded)
}

/// The view of what came back from an upload.
pub open spec fn upload_reply_view(reply: Option<UploadResponse>) -> Option<UploadResponseView> {
    match reply {
        None => None,
        Some(r) => Some(r@),
    }
}

/// The verdict on what came back from an upload, where `reply` is nothing if
/// the request got no usable response: that leaves the name undetermined.
pub open spec fn probe_verdict(reply: Option<UploadResponseView>) -> ProbeOutcomeView {
    match reply {
        None => ProbeOutcomeView::of_error(UploadErrorView::RequestError),
        Some(r) => classified(r.statuscode, r.status, unescaped(r.statusmsg)),
    }
}

/// The result of an upload, by what came back: a request error where `reply`
/// is nothing, else what the verdict on the response amounts to.
pub open spec fn upload_outcome(reply: Option<UploadResponseView>) -> Result<
    (),
    UploadErrorView,
> {
    match reply {
        None => Err(UploadErrorView::RequestError),
        Some(r) => classified(r.statuscode, r.status, unescaped(r.statusmsg)).as_result(),
    }
}

/// The result of an upload: success for a probe that the provider accepted,
/// the error that tells why for any other. `reply` is the response, or
/// nothing if the request got no usable one.
pub fn upload_result(reply: &Option<UploadResponse>) -> (result: Result<(), UploadError>)
    ensures
        result_view(result) == upload_outcome(upload_reply_view(*reply)),
{
    match reply {
        None => Err(UploadError::RequestError),
        Some(response) => classify_response(response).into_result(),
    }
}

/// The verdict on what came back from an upload: `reply` is the response, or
/// nothing if the request got no usable one, which leaves the name
/// undetermined.
pub fn probe_outcome(reply: &Option<UploadResponse>) -> (outcome: ProbeOutcome)
    ensures
        outcome@ == probe_verdict(upload_reply_view(*reply)),
        reply is None ==> outcome@ is IndeterminateFailure,
{
    match reply {
        None => ProbeOutcome::from_error(UploadError::RequestError),
        Some(response) => classify_response(response),
    }
}

/// The folder that a response to a creation reports, or why there is none.
///
/// A response whose state is false reports no folder: the folder is already
/// there if the error code is 20004, written as a string or as an integer, and
/// the creation failed otherwise. A response whose state is true reports the
/// folder that its id names, which must be a number.
pub open spec fn created_folder(response: CreateDirResponseView) -> Result<u64, FolderError> {
    if !response.state {
        if response.errno.says_exists() {
            Err(FolderError::AlreadyExists)
        } else {
            Err(FolderError::CreateFailed)
        }
    } else {
        match response.cid {
            None => Err(FolderError::MalformedId),
            Some(text) => match parsed_u64(text) {
                Some(id) => Ok(id),
                None => Err(FolderError::MalformedId),
            },
        }
    }
}

/// The folder that a reply to a creation reports: none was created where
/// the request got no usable response.
pub open spec fn folder_of_reply(reply: Option<CreateDirResponseView>) -> Result<
    u64,
    FolderError,
> {
    match reply {
        None => Err(FolderError::CreateFailed),
        Some(r) => created_folder(r),
    }
}

/// The view of what came back from the creation of a folder.
pub open spec fn folder_reply_view(reply: Option<CreateDirResponse>) -> Option<
    CreateDirResponseView,
> {
    match reply {
        None => None,
        Some(r) => Some(r@),
    }
}

impl ErrorCode {
    /// Whether the code says that the folder is already there.
    pub fn says_exists(&self) -> (yes: bool)
        ensures
            yes == self@.says_exists(),
    {
        match self {
            ErrorCode::Text(t) => same_text(t.as_str(), DIR_EXISTS_TEXT),
            ErrorCode::Number(n) => *n == DIR_EXISTS_CODE,
        }
    }
}

/// Reads the response to the creation of a folder: the id of the new folder,
/// or why there is none.
pub fn create_folder_result(response: &CreateDirResponse) -> (result: Result<u64, FolderError>)
    ensures
        result == created_folder(response@),
        !response.state && response.errno@ == ErrorCodeView::Number(20004) ==> result == Err::<
            u64,
            FolderError,
        >(FolderError::AlreadyExists),
        !response.state && response.errno@ == ErrorCodeView::Text("20004"@) ==> result == Err::<
            u64,
            FolderError,
        >(FolderError::AlreadyExists),
{
    if !response.state {
        if response.errno.says_exists() {
            Err(FolderError::AlreadyExists)
        } else {
            Err(FolderError::CreateFailed)
        }
    } else {
        match &response.cid {
            None => Err(FolderError::MalformedId),
            Some(text) => match parse_u64(text.as_str()) {
                Some(id) => Ok(id),
                None => Err(FolderError::MalformedId),
            },
        }
    }
}

/// Reads what came back from the creation of a folder, where `reply` is
/// nothing if the request got no usable response.
pub fn folder_result(reply: &Option<CreateDirResponse>) -> (result: Result<u64, FolderError>)
    ensures
        result == folder_of_reply(folder_reply_view(*reply)),
{
    match reply {
        None => Err(FolderError::CreateFailed),
        Some(response) => create_folder_result(response),
    }
}

/// Whether a reply to a deletion says that the node is gone: it does not
/// where the request got no usable response, nor where the state is false.
pub open spec fn deleted(reply: Option<DeleteResponse>) -> Result<(), DeleteError> {
    match reply {
        Some(r) => if r.state {
            Ok(())
        } else {
            Err(DeleteError::DeleteFailed)
        },
        None => Err(DeleteError::DeleteFailed),
    }
}

/// Reads what came back from a deletion, where `reply` is nothing if the
/// request got no usable response.
pub fn delete_result(reply: &Option<DeleteResponse>) -> (result: Result<(), DeleteError>)
    ensures
        result == deleted(*reply),
{
    match reply {
        Some(response) => if response.state {
            Ok(())
        } else {
            Err(DeleteError::DeleteFailed)
        },
        None => Err(DeleteError::DeleteFailed),
    }
}

} // verus!
