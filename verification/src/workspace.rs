use crate::error::FolderError;
use crate::request::{HttpRequest, HttpRequestView};
use crate::response::{
    deleted, delete_result, folder_of_reply, folder_reply_view, folder_result, CreateDirResponse,
    CreateDirResponseView, DeleteResponse,
};
use crate::text::{parse_u64, parsed_u64};
use crate::upload::{create_folder_request, delete_one_request, Session, SessionView};
use vstd::prelude::*;
use vstd::string::*;

verus! {

/// The folder under which the scratch folder lives: the root.
pub const ROOT_FOLDER: u64 = 0;

/// The name of the scratch folder.
pub const SCRATCH_NAME: &'static str = "TMP_rs115";

/// What is logged when the scratch folder could not be deleted.
pub const CLOSE_WARNING: &'static str = "fail to delete the folder TMP_rs115";

/// The scratch folder that the probes of one run declare their files in.
#[derive(Clone, Copy, Debug, PartialEq, Eq, Structural)]
pub struct ProbeTarget {
    pub id: u64,
}

/// The request that opens the scratch folder.
pub open spec fn open_request(session: SessionView) -> HttpRequestView {
    create_folder_request(session, ROOT_FOLDER, SCRATCH_NAME@)
}

/// The request that closes the scratch folder `target`.
pub open spec fn close_request(session: SessionView, target: ProbeTarget) -> HttpRequestView {
    delete_one_request(session, ROOT_FOLDER, target.id)
}

/// The folder that a reply to the opening request leaves open.
///
/// A folder that was created is open. So is one that was already there, as
/// far as the reply names it: it is used as it stands. Any other reply leaves
/// none open, and the error says why.
pub open spec fn opened_target(reply: Option<CreateDirResponseView>) -> Result<
    ProbeTarget,
    FolderError,
> {
    match folder_of_reply(reply) {
        Ok(id) => Ok(ProbeTarget { id }),
        Err(FolderError::AlreadyExists) => match reply {
            Some(CreateDirResponseView { cid: Some(text), .. }) => match parsed_u64(text) {
                Some(id) => Ok(ProbeTarget { id }),
                None => Err(FolderError::AlreadyExists),
            },
            _ => Err(FolderError::AlreadyExists),
        },
        Err(e) => Err(e),
    }
}

/// The life of the scratch folder: opened before the first probe, closed
/// after the last.
pub struct ProbeWorkspace {}

impl ProbeWorkspace {
    /// The request that opens the scratch folder: it creates a folder of the
    /// fixed name under the root.
    pub fn open(session: &Session) -> (request: HttpRequest)
        ensures
            request@ == open_request(session@),
    {
        session.create_folder(ROOT_FOLDER, String::from_str(SCRATCH_NAME))
    }

    /// Reads what came back from the opening request, where `reply` is
    /// nothing if the request got no usable response.
    pub fn opened(reply: &Option<CreateDirResponse>) -> (result: Result<ProbeTarget, FolderError>)
        ensures
            result == opened_target(folder_reply_view(*reply)),
            folder_of_reply(folder_reply_view(*reply)) matches Ok(id) ==> result == Ok::<
                ProbeTarget,
                FolderError,
            >(ProbeTarget { id }),
    {
        match folder_result(reply) {
            Ok(id) => Ok(ProbeTarget { id }),
            Err(FolderError::AlreadyExists) => {
                match reply {
                    Some(response) => match &response.cid {
                        Some(text) => match parse_u64(text.as_str()) {
                            Some(id) => Ok(ProbeTarget { id }),
                            None => Err(FolderError::AlreadyExists),
                        },
                        None => Err(FolderError::AlreadyExists),
                    },
                    None => Err(FolderError::AlreadyExists),
                }
            },
            Err(e) => Err(e),
        }
    }

    /// The request that closes the scratch folder: it deletes `target` from
    /// the root.
    pub fn close(session: &Session, target: ProbeTarget) -> (request: HttpRequest)
        ensures
            request@ == close_request(session@, target),
    {
        session.delete_one(ROOT_FOLDER, target.id)
    }

    /// Reads what came back from the closing request: a warning to log where
    /// the folder was not deleted, and never an error.
    pub fn closed(reply: &Option<DeleteResponse>) -> (warning: Option<String>)
        ensures
            warning is Some == deleted(*reply) is Err,
            warning matches Some(text) ==> text@ == CLOSE_WARNING@,
    {
        match delete_result(reply) {
            Ok(()) => None,
            Err(_) => Some(String::from_str(CLOSE_WARNING)),
        }
    }
}

} // verus!
