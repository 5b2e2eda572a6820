use crate::dummies::{fabricated, HashFabricator};
use crate::error::CheckError;
use crate::text::text_of;
use crate::request::{HttpRequest, HttpRequestView};
use crate::response::{
    deleted, folder_reply_view, probe_outcome, probe_verdict, upload_reply_view,
    CreateDirResponse, CreateDirResponseView, DeleteResponse, ProbeOutcome, ProbeOutcomeView,
    UploadResponse, UploadResponseView,
};
use crate::upload::{upload_request, Session, SessionView};
use crate::workspace::{
    close_request, open_request, opened_target, ProbeTarget, ProbeWorkspace, CLOSE_WARNING,
};
use vstd::prelude::*;
use vstd::string::*;

verus! {

/// The size that every probe declares.
pub const FILE_SIZE: &'static str = "5";

/// The pause between two probes where the caller asks for no other, in
/// milliseconds.
pub const DEFAULT_INTERVAL: u64 = 1000;

pub const CHECKED: &'static str = "checked ";

pub const NOT_ALLOWED: &'static str = "NAME NOT ALLOW: ";

pub const CHECK_FAILED: &'static str = "failed to check: ";

pub const CAUSED_BY: &'static str = ", cause by: ";

/// What a run checks: one name for its verdict, or a list of names for the
/// two output lists.
#[derive(Clone, Copy, Debug, PartialEq, Eq, Structural)]
pub enum Mode {
    Single,
    Bulk,
}

/// One of the two output lists of a bulk run.
#[derive(Clone, Copy, Debug, PartialEq, Eq, Structural)]
pub enum Sink {
    /// The names that the provider rejected.
    Forbidden,
    /// The names whose check failed.
    Failed,
}

/// Where a run stands.
#[derive(Clone, Copy, Debug, PartialEq, Eq, Structural)]
pub enum Phase {
    /// The scratch folder has been asked for.
    Opening,
    /// The probe of the current name is under way in `target`.
    Probing { target: ProbeTarget },
    /// The verdict on the current name is being reported, and written to an
    /// output list if `wrote` is set.
    Recording { target: ProbeTarget, wrote: bool },
    /// The run pauses before the next name.
    Pausing { target: ProbeTarget },
    /// The deletion of the scratch folder has been asked for.
    Closing { target: ProbeTarget },
    /// The run is over; `target` is the scratch folder it used, if it got one.
    Finished { target: Option<ProbeTarget> },
}

/// What the outside world brought back for the last action.
#[derive(Debug, PartialEq, Eq)]
pub enum Event {
    /// The answer to `CreateFolder`, or nothing if there was no usable one.
    Folder(Option<CreateDirResponse>),
    /// The answer to `Probe`, or nothing if there was no usable one.
    Probe(Option<UploadResponse>),
    /// `Record` is done; the flag says whether writing the line succeeded.
    Recorded(bool),
    /// `Pause` is over.
    Resumed,
    /// The answer to `DeleteFolder`, or nothing if there was no usable one.
    Deleted(Option<DeleteResponse>),
}

/// An event as text.
#[verifier::ext_equal]
pub enum EventView {
    Folder(Option<CreateDirResponseView>),
    Probe(Option<UploadResponseView>),
    Recorded(bool),
    Resumed,
    Deleted(Option<DeleteResponse>),
}

impl View for Event {
    type V = EventView;

    open spec fn view(&self) -> EventView {
        match self {
            Event::Folder(reply) => EventView::Folder(folder_reply_view(*reply)),
            Event::Probe(reply) => EventView::Probe(upload_reply_view(*reply)),
            Event::Recorded(ok) => EventView::Recorded(*ok),
            Event::Resumed => EventView::Resumed,
            Event::Deleted(reply) => EventView::Deleted(*reply),
        }
    }
}

impl EventView {
    /// The answer to the creation of the folder that the event brings; an
    /// event of another kind brings none.
    pub open spec fn folder_reply(self) -> Option<CreateDirResponseView> {
        match self {
            EventView::Folder(reply) => reply,
            _ => None,
        }
    }

    /// The answer to a probe that the event brings; an event of another kind
    /// brings none.
    pub open spec fn probe_reply(self) -> Option<UploadResponseView> {
        match self {
            EventView::Probe(reply) => reply,
            _ => None,
        }
    }

    /// Whether the event says that a line was written; an event of another
    /// kind does not.
    pub open spec fn written(self) -> bool {
        self == EventView::Recorded(true)
    }

    /// The answer to the deletion that the event brings; an event of another
    /// kind brings none.
    pub open spec fn delete_reply(self) -> Option<DeleteResponse> {
        match self {
            EventView::Deleted(reply) => reply,
            _ => None,
        }
    }
}

/// What the run asks the outside world to do next.
#[derive(Debug, PartialEq, Eq)]
pub enum Action {
    /// Send the request that opens the scratch folder; answer with `Folder`.
    CreateFolder(HttpRequest),
    /// Send the probe; answer with `Probe`.
    Probe(HttpRequest),
    /// Report `message` as progress and, if `sink` names an output list,
    /// append `line` to it; answer with `Recorded`.
    Record { message: String, sink: Option<Sink>, line: String },
    /// Wait for so many milliseconds; answer with `Resumed`.
    Pause(u64),
    /// Send the request that deletes the scratch folder; answer with
    /// `Deleted`.
    DeleteFolder(HttpRequest),
    /// The check of one name is over: return `result`, after logging
    /// `warning` if there is one.
    NameChecked { result: Result<bool, CheckError>, warning: Option<String> },
    /// The bulk check is over: return `result`, after logging `warning` if
    /// there is one.
    BulkChecked { result: Result<(), CheckError>, warning: Option<String> },
}

/// An action as text.
#[verifier::ext_equal]
pub enum ActionView {
    CreateFolder(HttpRequestView),
    Probe(HttpRequestView),
    Record { message: Seq<char>, sink: Option<Sink>, line: Seq<char> },
    Pause(u64),
    DeleteFolder(HttpRequestView),
    NameChecked { result: Result<bool, CheckError>, warning: Option<Seq<char>> },
    BulkChecked { result: Result<(), CheckError>, warning: Option<Seq<char>> },
}

impl View for Action {
    type V = ActionView;

    open spec fn view(&self) -> ActionView {
        match self {
            Action::CreateFolder(request) => ActionView::CreateFolder(request@),
            Action::Probe(request) => ActionView::Probe(request@),
            Action::Record { message, sink, line } => ActionView::Record {
                message: message@,
                sink: *sink,
                line: line@,
            },
            Action::Pause(interval) => ActionView::Pause(*interval),
            Action::DeleteFolder(request) => ActionView::DeleteFolder(request@),
            Action::NameChecked { result, warning } => ActionView::NameChecked {
                result: *result,
                warning: text_of(*warning),
            },
            Action::BulkChecked { result, warning } => ActionView::BulkChecked {
                result: *result,
                warning: text_of(*warning),
            },
        }
    }
}

/// The progress line for a name and its verdict.
pub open spec fn progress(name: Seq<char>, outcome: ProbeOutcomeView) -> Seq<char> {
    match outcome {
        ProbeOutcomeView::Valid => CHECKED@ + name,
        ProbeOutcomeView::Forbidden => NOT_ALLOWED@ + name,
        ProbeOutcomeView::IndeterminateFailure(reason) => CHECK_FAILED@ + name + CAUSED_BY@
            + reason,
    }
}

/// The output list that a verdict goes to, among the lists that there are:
/// a rejected name to the list of the forbidden, a failed check to the list of
/// the failed, a valid name to neither.
pub open spec fn sink_of(outcome: ProbeOutcomeView, forbidden_sink: bool, failure_sink: bool)
    -> Option<Sink> {
    match outcome {
        ProbeOutcomeView::Valid => None,
        ProbeOutcomeView::Forbidden => if forbidden_sink {
            Some(Sink::Forbidden)
        } else {
            None
        },
        ProbeOutcomeView::IndeterminateFailure(_) => if failure_sink {
            Some(Sink::Failed)
        } else {
            None
        },
    }
}

/// The warning that a reply to the closing request calls for.
pub open spec fn close_warning(reply: Option<DeleteResponse>) -> Option<Seq<char>> {
    if deleted(reply) is Err {
        Some(CLOSE_WARNING@)
    } else {
        None
    }
}

/// The text of each name.
pub open spec fn name_views(names: Seq<String>) -> Seq<Seq<char>> {
    names.map_values(|name: String| name@)
}

/// The view of each verdict.
pub open spec fn outcome_views(outcomes: Seq<ProbeOutcome>) -> Seq<ProbeOutcomeView> {
    outcomes.map_values(|outcome: ProbeOutcome| outcome@)
}

/// A run of checks against one scratch folder: the names, the verdicts
/// reached so far in the order of the names, and where the run stands.
#[derive(Debug, PartialEq, Eq)]
pub struct CheckRun {
    pub mode: Mode,
    pub session: Session,
    pub names: Vec<String>,
    /// Whether rejected names go to an output list.
    pub forbidden_sink: bool,
    /// Whether names whose check failed go to an output list.
    pub failure_sink: bool,
    /// The pause after each name, in milliseconds.
    pub interval: u64,
    pub hashes: HashFabricator,
    pub phase: Phase,
    /// The index of the current name.
    pub next: usize,
    /// The verdict on each name checked so far.
    pub outcomes: Vec<ProbeOutcome>,
    /// The error that ends the run, once there is one.
    pub failed: Option<CheckError>,
}

/// A run as text.
#[verifier::ext_equal]
pub struct RunView {
    pub mode: Mode,
    pub session: SessionView,
    pub names: Seq<Seq<char>>,
    pub forbidden_sink: bool,
    pub failure_sink: bool,
    pub interval: u64,
    pub hashes: HashFabricator,
    pub phase: Phase,
    pub next: nat,
    pub outcomes: Seq<ProbeOutcomeView>,
    pub failed: Option<CheckError>,
}

impl View for CheckRun {
    type V = RunView;

    open spec fn view(&self) -> RunView {
        RunView {
            mode: self.mode,
            session: self.session@,
            names: name_views(self.names@),
            forbidden_sink: self.forbidden_sink,
            failure_sink: self.failure_sink,
            interval: self.interval,
            hashes: self.hashes,
            phase: self.phase,
            next: self.next as nat,
            outcomes: outcome_views(self.outcomes@),
            failed: self.failed,
        }
    }
}

impl RunView {
    /// A run that has just asked for its scratch folder.
    pub open spec fn started(
        mode: Mode,
        session: SessionView,
        names: Seq<Seq<char>>,
        forbidden_sink: bool,
        failure_sink: bool,
        interval: u64,
        seed: u64,
    ) -> RunView {
        RunView {
            mode,
            session,
            names,
            forbidden_sink,
            failure_sink,
            interval,
            hashes: HashFabricator { seed, serial: 0 },
            phase: Phase::Opening,
            next: 0,
            outcomes: Seq::empty(),
            failed: None,
        }
    }

    /// Whether the run is as `started` leaves it: waiting for its scratch
    /// folder, no name checked yet.
    pub open spec fn is_start(self) -> bool {
        &&& self.phase is Opening
        &&& self.next == 0
        &&& self.outcomes.len() == 0
        &&& self.failed is None
    }

    /// The current name; none is current once the names are through.
    pub open spec fn name(self) -> Seq<char> {
        if self.next < self.names.len() {
            self.names[self.next as int]
        } else {
            Seq::empty()
        }
    }

    /// The output list that a verdict goes to, if the run has that list.
    pub open spec fn sink_for(self, outcome: ProbeOutcomeView) -> Option<Sink> {
        sink_of(outcome, self.forbidden_sink, self.failure_sink)
    }

    /// What the check of one name returns: the error that ended the run, else
    /// whether the name is valid, which only a verdict of valid or forbidden
    /// tells.
    pub open spec fn name_result(self) -> Result<bool, CheckError> {
        match self.failed {
            Some(e) => Err(e),
            None => if self.outcomes.len() == 0 {
                Err(CheckError::Unknown)
            } else {
                match self.outcomes[0] {
                    ProbeOutcomeView::Valid => Ok(true),
                    ProbeOutcomeView::Forbidden => Ok(false),
                    ProbeOutcomeView::IndeterminateFailure(_) => Err(CheckError::Unknown),
                }
            },
        }
    }

    /// What a bulk check returns: the error that ended the run, if any. The
    /// verdicts on the names do not count.
    pub open spec fn bulk_result(self) -> Result<(), CheckError> {
        match self.failed {
            Some(e) => Err(e),
            None => Ok(()),
        }
    }

    /// The action that ends the run.
    pub open spec fn final_action(self, warning: Option<Seq<char>>) -> ActionView {
        match self.mode {
            Mode::Single => ActionView::NameChecked { result: self.name_result(), warning },
            Mode::Bulk => ActionView::BulkChecked { result: self.bulk_result(), warning },
        }
    }

    /// Turns to closing the scratch folder, with the error that ends the run
    /// if there is one.
    pub open spec fn close(self, target: ProbeTarget, failure: Option<CheckError>) -> (
        RunView,
        ActionView,
    ) {
        (
            RunView { phase: Phase::Closing { target }, failed: failure, ..self },
            ActionView::DeleteFolder(close_request(self.session, target)),
        )
    }

    /// Takes down the verdict on the current name. A bulk run reports it, and
    /// writes the name to the output list that the verdict goes to; the check
    /// of one name turns to closing at once.
    pub open spec fn record(self, target: ProbeTarget, outcome: ProbeOutcomeView) -> (
        RunView,
        ActionView,
    ) {
        let run = RunView { outcomes: self.outcomes.push(outcome), ..self };
        match self.mode {
            Mode::Single => run.close(target, None),
            Mode::Bulk => (
                RunView {
                    phase: Phase::Recording { target, wrote: self.sink_for(outcome) is Some },
                    ..run
                },
                ActionView::Record {
                    message: progress(self.name(), outcome),
                    sink: self.sink_for(outcome),
                    line: self.name(),
                },
            ),
        }
    }

    /// Takes up the current name: fabricates a hash and probes with it, or
    /// takes down the failure where no probe can be made. Once the names are
    /// through, turns to closing.
    pub open spec fn begin_item(self, target: ProbeTarget) -> (RunView, ActionView) {
        if self.next >= self.names.len() {
            self.close(target, None)
        } else {
            let hash = fabricated(self.hashes.seed, self.hashes.serial);
            let run = RunView { hashes: self.hashes.advanced(), ..self };
            match upload_request(self.session, self.name(), FILE_SIZE@, hash, hash, target.id) {
                Ok(request) => (
                    RunView { phase: Phase::Probing { target }, ..run },
                    ActionView::Probe(request),
                ),
                Err(e) => run.record(target, ProbeOutcomeView::of_error(e)),
            }
        }
    }

    /// The run with the next name current.
    pub open spec fn advanced(self) -> RunView {
        if self.next < self.names.len() {
            RunView { next: self.next + 1, ..self }
        } else {
            self
        }
    }

    /// One step of the run: the state and the action that follow on `event`.
    ///
    /// An event of a kind that the phase does not wait for counts as the
    /// failure of what it waits for.
    pub open spec fn step(self, event: EventView) -> (RunView, ActionView) {
        match self.phase {
            Phase::Opening => match opened_target(event.folder_reply()) {
                Ok(target) => self.begin_item(target),
                Err(e) => {
                    let run = RunView {
                        phase: Phase::Finished { target: None },
                        failed: Some(CheckError::OpenFailed(e)),
                        ..self
                    };
                    (run, run.final_action(None))
                },
            },
            Phase::Probing { target } => self.record(target, probe_verdict(event.probe_reply())),
            Phase::Recording { target, wrote } => if wrote && !event.written() {
                self.close(target, Some(CheckError::SinkWriteFailed))
            } else {
                (RunView { phase: Phase::Pausing { target }, ..self }, ActionView::Pause(self.interval))
            },
            Phase::Pausing { target } => self.advanced().begin_item(target),
            Phase::Closing { target } => {
                let run = RunView { phase: Phase::Finished { target: Some(target) }, ..self };
                (run, run.final_action(close_warning(event.delete_reply())))
            },
            Phase::Finished { .. } => (self, self.final_action(None)),
        }
    }
}

impl CheckRun {
    /// Starts a run over `names` for `session`: the run, and its first
    /// action, which asks for the scratch folder.
    ///
    /// The flags say which of the two output lists the run has, `interval` is
    /// the pause after each name in milliseconds, and `seed` is what the
    /// fabricated hashes of this run start from.
    pub fn start(
        mode: Mode,
        session: Session,
        names: Vec<String>,
        forbidden_sink: bool,
        failure_sink: bool,
        interval: u64,
        seed: u64,
    ) -> (started: (CheckRun, Action))
        ensures
            started.0@ == RunView::started(
                mode,
                session@,
                name_views(names@),
                forbidden_sink,
                failure_sink,
                interval,
                seed,
            ),
            started.1@ == ActionView::CreateFolder(open_request(session@)),
            started.0@.is_start(),
    {
        let action = Action::CreateFolder(ProbeWorkspace::open(&session));
        let run = CheckRun {
            mode,
            session,
            names,
            forbidden_sink,
            failure_sink,
            interval,
            hashes: HashFabricator::new(seed),
            phase: Phase::Opening,
            next: 0,
            outcomes: Vec::new(),
            failed: None,
        };
        assert(run@.outcomes =~= Seq::empty());
        (run, action)
    }

    /// Whether the run is over.
    pub fn is_finished(&self) -> (finished: bool)
        ensures
            finished == (self@.phase is Finished),
    {
        match self.phase {
            Phase::Finished { .. } => true,
            _ => false,
        }
    }

    fn current_name(&self) -> (name: String)
        ensures
            name@ == self@.name(),
    {
        if self.next < self.names.len() {
            self.names[self.next].clone()
        } else {
            String::new()
        }
    }

    fn name_result(&self) -> (result: Result<bool, CheckError>)
        ensures
            result == self@.name_result(),
    {
        match self.failed {
            Some(e) => Err(e),
            None => if self.outcomes.len() == 0 {
                Err(CheckError::Unknown)
            } else {
                match &self.outcomes[0] {
                    ProbeOutcome::Valid => Ok(true),
                    ProbeOutcome::Forbidden => Ok(false),
                    ProbeOutcome::IndeterminateFailure(_) => Err(CheckError::Unknown),
                }
            },
        }
    }

    fn final_action(&self, warning: Option<String>) -> (action: Action)
        ensures
            action@ == self@.final_action(text_of(warning)),
    {
        match self.mode {
            Mode::Single => Action::NameChecked { result: self.name_result(), warning },
            Mode::Bulk => Action::BulkChecked {
                result: match self.failed {
                    Some(e) => Err(e),
                    None => Ok(()),
                },
                warning,
            },
        }
    }

    fn close(&mut self, target: ProbeTarget, failure: Option<CheckError>) -> (action: Action)
        ensures
            final(self)@ == old(self)@.close(target, failure).0,
            action@ == old(self)@.close(target, failure).1,
    {
        self.phase = Phase::Closing { target };
        self.failed = failure;
        Action::DeleteFolder(ProbeWorkspace::close(&self.session, target))
    }

    fn record(&mut self, target: ProbeTarget, outcome: ProbeOutcome) -> (action: Action)
        ensures
            final(self)@ == old(self)@.record(target, outcome@).0,
            action@ == old(self)@.record(target, outcome@).1,
    {
        let name = self.current_name();
        let sink = match &outcome {
            ProbeOutcome::Valid => None,
            ProbeOutcome::Forbidden => if self.forbidden_sink {
                Some(Sink::Forbidden)
            } else {
                None
            },
            ProbeOutcome::IndeterminateFailure(_) => if self.failure_sink {
                Some(Sink::Failed)
            } else {
                None
            },
        };
        let message = match &outcome {
            ProbeOutcome::Valid => String::from_str(CHECKED).concat(name.as_str()),
            ProbeOutcome::Forbidden => String::from_str(NOT_ALLOWED).concat(name.as_str()),
            ProbeOutcome::IndeterminateFailure(reason) => {
                let mut text = String::from_str(CHECK_FAILED);
                text.append(name.as_str());
                text.append(CAUSED_BY);
                text.append(reason.as_str());
                text
            },
        };
        let ghost pushed = old(self)@.outcomes.push(outcome@);
        self.outcomes.push(outcome);
        assert(self@.outcomes =~= pushed);
        match self.mode {
            Mode::Single => self.close(target, None),
            Mode::Bulk => {
                self.phase = Phase::Recording { target, wrote: sink.is_some() };
                Action::Record { message, sink, line: name }
            },
        }
    }

    fn begin_item(&mut self, target: ProbeTarget) -> (action: Action)
        ensures
            final(self)@ == old(self)@.begin_item(target).0,
            action@ == old(self)@.begin_item(target).1,
    {
        if self.next >= self.names.len() {
            return self.close(target, None);
        }
        let name = self.current_name();
        let hash = self.hashes.get_a_hash();
        let block_hash = hash.clone();
        match self.session.upload115_sha1(
            name,
            String::from_str(FILE_SIZE),
            hash,
            block_hash,
            target.id,
        ) {
            Ok(request) => {
                self.phase = Phase::Probing { target };
                Action::Probe(request)
            },
            Err(e) => self.record(target, ProbeOutcome::from_error(e)),
        }
    }

    /// Takes one step: hands in what the last action brought, and gets the
    /// next action.
    pub fn step(&mut self, event: Event) -> (action: Action)
        ensures
            final(self)@ == old(self)@.step(event@).0,
            action@ == old(self)@.step(event@).1,
    {
        match self.phase {
            Phase::Opening => {
                let reply = match event {
                    Event::Folder(reply) => reply,
                    _ => None,
                };
                match ProbeWorkspace::opened(&reply) {
                    Ok(target) => self.begin_item(target),
                    Err(e) => {
                        self.phase = Phase::Finished { target: None };
                        self.failed = Some(CheckError::OpenFailed(e));
                        self.final_action(None)
                    },
                }
            },
            Phase::Probing { target } => {
                let reply = match event {
                    Event::Probe(reply) => reply,
                    _ => None,
                };
                self.record(target, probe_outcome(&reply))
            },
            Phase::Recording { target, wrote } => {
                let written = match event {
                    Event::Recorded(ok) => ok,
                    _ => false,
                };
                if wrote && !written {
                    self.close(target, Some(CheckError::SinkWriteFailed))
                } else {
                    self.phase = Phase::Pausing { target };
                    Action::Pause(self.interval)
                }
            },
            Phase::Pausing { target } => {
                if self.next < self.names.len() {
                    self.next = self.next + 1;
                }
                self.begin_item(target)
            },
            Phase::Closing { target } => {
                let reply = match event {
                    Event::Deleted(reply) => reply,
                    _ => None,
                };
                self.phase = Phase::Finished { target: Some(target) };
                self.final_action(ProbeWorkspace::closed(&reply))
            },
            Phase::Finished { .. } => self.final_action(None),
        }
    }
}

} // verus!
