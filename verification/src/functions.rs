use crate::error::CheckError;
use crate::run::{name_views, Action, ActionView, CheckRun, Mode, RunView};
use crate::upload::{Session, SessionView};
use crate::workspace::open_request;
use vstd::prelude::*;
use vstd::string::*;

verus! {

/// What the checks run on: the session of the user, if one has been set.
#[derive(Debug, PartialEq, Eq)]
pub struct Runtime {
    pub session: Option<Session>,
}

/// What starting a check gives: the run with its first action, or the reason
/// why there is no run.
pub open spec fn started_run(
    session: Option<Session>,
    mode: Mode,
    names: Seq<Seq<char>>,
    forbidden_sink: bool,
    failure_sink: bool,
    interval: u64,
    seed: u64,
    result: Result<(CheckRun, Action), CheckError>,
) -> bool {
    match session {
        None => result is Err && result->Err_0 == CheckError::CredentialsUnset,
        Some(s) => {
            &&& result is Ok
            &&& result->Ok_0.0@ == RunView::started(
                mode,
                s@,
                names,
                forbidden_sink,
                failure_sink,
                interval,
                seed,
            )
            &&& result->Ok_0.1@ == ActionView::CreateFolder(open_request(s@))
        },
    }
}

impl Runtime {
    /// A runtime on the session that was kept from an earlier run, if any.
    pub fn new(session: Option<Session>) -> (runtime: Runtime)
        ensures
            runtime.session == session,
    {
        Runtime { session }
    }

    /// Whether a session has been set.
    pub fn has_cookies(&self) -> (set: bool)
        ensures
            set == self.session is Some,
    {
        self.session.is_some()
    }

    /// The cookie of the session.
    pub fn print_cookies(&self) -> (cookies: String)
        requires
            self.session is Some,
        ensures
            cookies@ == self.session->0.cookies@,
    {
        match &self.session {
            Some(session) => session.cookies.clone(),
            None => String::new(),
        }
    }

    /// Replaces the session by a fresh one for `cookies`, whose keys are yet
    /// to be derived.
    pub fn set_cookies(&mut self, cookies: &str)
        ensures
            final(self).session is Some,
            final(self).session->0@ == SessionView::fresh(cookies@),
    {
        self.session = Some(Session::new(String::from_str(cookies)));
    }

    /// Starts the check of one name: the run and its first action.
    ///
    /// There is no run without a session. The run opens a scratch folder,
    /// probes `name` once with a hash fabricated from `seed`, closes the
    /// folder whatever the probe brought, and ends in `NameChecked`: true for
    /// a valid name, false for a forbidden one, `Unknown` for a probe that
    /// told neither.
    pub fn check_name(&self, name: &str, seed: u64) -> (result: Result<
        (CheckRun, Action),
        CheckError,
    >)
        ensures
            started_run(self.session, Mode::Single, seq![name@], false, false, 0, seed, result),
    {
        match &self.session {
            Some(session) => {
                let mut names: Vec<String> = Vec::new();
                names.push(String::from_str(name));
                assert(name_views(names@) =~= seq![name@]);
                Ok(CheckRun::start(Mode::Single, session.duplicate(), names, false, false, 0, seed))
            },
            None => Err(CheckError::CredentialsUnset),
        }
    }

    /// Starts the check of the names of a list: the run and its first action.
    ///
    /// There is no run without a session. The run opens one scratch folder
    /// for all names and probes each in turn, with hashes fabricated from
    /// `seed`. A forbidden name goes to the list of the forbidden if
    /// `forbiden_list` is set, a name whose check failed to the list of the
    /// failed if `check_fail` is set; neither ends the run. After each name
    /// the run pauses for `interval` milliseconds. It closes the folder once,
    /// at the end or after a line could not be written, and ends in
    /// `BulkChecked`.
    pub fn check_name_bulk_to_file(
        &self,
        names: Vec<String>,
        forbiden_list: bool,
        check_fail: bool,
        interval: u64,
        seed: u64,
    ) -> (result: Result<(CheckRun, Action), CheckError>)
        ensures
            started_run(
                self.session,
                Mode::Bulk,
                name_views(names@),
                forbiden_list,
                check_fail,
                interval,
                seed,
                result,
            ),
    {
        match &self.session {
            Some(session) => Ok(
                CheckRun::start(
                    Mode::Bulk,
                    session.duplicate(),
                    names,
                    forbiden_list,
                    check_fail,
                    interval,
                    seed,
                ),
            ),
            None => Err(CheckError::CredentialsUnset),
        }
    }
}

} // verus!
