use vstd::prelude::*;
use vstd::string::*;

verus! {

/// The keys of a session could not be fetched.
#[derive(Clone, Copy, Debug, PartialEq, Eq, Structural)]
pub enum AuthError {
    KeyFetchFailed,
}

/// Why a probe did not go through.
#[derive(Clone, Debug, PartialEq, Eq)]
pub enum UploadError {
    /// The session has no user id: its keys were never derived.
    MissingUserId,
    /// The session has no user key: its keys were never derived.
    MissingUserKey,
    /// The request got no usable response.
    RequestError,
    /// The provider's censor rejected the file name.
    NameForbidden,
    /// Any other failure, with what the provider said.
    Other(String),
}

/// An upload error as text.
pub enum UploadErrorView {
    MissingUserId,
    MissingUserKey,
    RequestError,
    NameForbidden,
    Other(Seq<char>),
}

impl View for UploadError {
    type V = UploadErrorView;

    open spec fn view(&self) -> UploadErrorView {
        match self {
            UploadError::MissingUserId => UploadErrorView::MissingUserId,
            UploadError::MissingUserKey => UploadErrorView::MissingUserKey,
            UploadError::RequestError => UploadErrorView::RequestError,
            UploadError::NameForbidden => UploadErrorView::NameForbidden,
            UploadError::Other(message) => UploadErrorView::Other(message@),
        }
    }
}

/// Why a folder was not created.
#[derive(Clone, Copy, Debug, PartialEq, Eq, Structural)]
pub enum FolderError {
    /// A folder of that name is already there.
    AlreadyExists,
    /// The provider refused, or gave no usable response.
    CreateFailed,
    /// The provider reported success without a numeric folder id.
    MalformedId,
}

/// A node was not deleted.
#[derive(Clone, Copy, Debug, PartialEq, Eq, Structural)]
pub enum DeleteError {
    DeleteFailed,
}

/// Why a check gave no verdict.
#[derive(Clone, Copy, Debug, PartialEq, Eq, Structural)]
pub enum CheckError {
    /// The probe neither passed nor was rejected for its name.
    Unknown,
    /// A line could not be written to an output list.
    SinkWriteFailed,
    /// No session has been set.
    CredentialsUnset,
    /// The scratch folder could not be opened.
    OpenFailed(FolderError),
}

impl UploadErrorView {
    /// The sentence that describes the error.
    pub open spec fn message(self) -> Seq<char> {
        match self {
            UploadErrorView::MissingUserId => "missing userid"@,
            UploadErrorView::MissingUserKey => "missing userkey"@,
            UploadErrorView::RequestError => "network request error"@,
            UploadErrorView::NameForbidden =>
                "name not allowed by 115, filename may contains word in the censor list"@,
            UploadErrorView::Other(context) => "error: "@ + context,
        }
    }
}

impl UploadError {
    /// The sentence that describes the error.
    pub fn message(&self) -> (text: String)
        ensures
            text@ == self@.message(),
    {
        match self {
            UploadError::MissingUserId => String::from_str("missing userid"),
            UploadError::MissingUserKey => String::from_str("missing userkey"),
            UploadError::RequestError => String::from_str("network request error"),
            UploadError::NameForbidden => String::from_str(
                "name not allowed by 115, filename may contains word in the censor list",
            ),
            UploadError::Other(context) => String::from_str("error: ").concat(context.as_str()),
        }
    }
}

impl FolderError {
    /// The sentence that describes the error.
    pub open spec fn message_text(self) -> Seq<char> {
        match self {
            FolderError::AlreadyExists => "create folder failed, dir already exist"@,
            FolderError::CreateFailed => "create dir failed..."@,
            FolderError::MalformedId => "create folder failed, no valid folder id"@,
        }
    }

    /// The sentence that describes the error.
    pub fn message(&self) -> (text: String)
        ensures
            text@ == self.message_text(),
    {
        match self {
            FolderError::AlreadyExists => String::from_str("create folder failed, dir already exist"),
            FolderError::CreateFailed => String::from_str("create dir failed..."),
            FolderError::MalformedId => String::from_str("create folder failed, no valid folder id"),
        }
    }
}

impl DeleteError {
    /// The sentence that describes the error.
    pub fn message(&self) -> (text: String)
        ensures
            text@ == "delete failed.."@,
    {
        String::from_str("delete failed..")
    }
}

impl AuthError {
    /// The sentence that describes the error.
    pub fn message(&self) -> (text: String)
        ensures
            text@ == "fetching the user key failed"@,
    {
        String::from_str("fetching the user key failed")
    }
}

impl CheckError {
    /// The sentence that describes the error.
    pub open spec fn message_text(self) -> Seq<char> {
        match self {
            CheckError::Unknown => "check fails"@,
            CheckError::SinkWriteFailed => "writing to an output list failed"@,
            CheckError::CredentialsUnset => "cookies not set"@,
            CheckError::OpenFailed(e) => e.message_text(),
        }
    }

    /// The sentence that describes the error.
    pub fn message(&self) -> (text: String)
        ensures
            text@ == self.message_text(),
    {
        match self {
            CheckError::Unknown => String::from_str("check fails"),
            CheckError::SinkWriteFailed => String::from_str("writing to an output list failed"),
            CheckError::CredentialsUnset => String::from_str("cookies not set"),
            CheckError::OpenFailed(e) => e.message(),
        }
    }
}

} // verus!
