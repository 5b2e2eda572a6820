use rs115::error::{CheckError, FolderError};
use rs115::functions::Runtime;
use rs115::request::HttpRequest;
use rs115::response::{
    CreateDirResponse, DeleteResponse, ErrorCode, NestedStatus, ProbeOutcome, UploadResponse,
};
use rs115::run::{Action, CheckRun, Event, Mode, Phase, Sink, DEFAULT_INTERVAL};
use rs115::upload::{Session, UserInfo};
use rs115::workspace::ProbeTarget;

fn keyed_session() -> Session {
    let mut session = Session::new("cookie".to_string());
    let info = UserInfo { user_id: 100, userkey: "K".to_string() };
    assert_eq!(session.get_user_key(Some(info)), Ok(()));
    session
}

fn runtime() -> Runtime {
    Runtime::new(Some(keyed_session()))
}

fn folder(id: &str) -> Event {
    Event::Folder(Some(CreateDirResponse {
        state: true,
        errno: ErrorCode::Text(String::new()),
        cid: Some(id.to_string()),
    }))
}

fn probe(statuscode: u32, statusmsg: &str, status: NestedStatus) -> Event {
    Event::Probe(Some(UploadResponse { statuscode, statusmsg: statusmsg.to_string(), status }))
}

fn accepted() -> Event {
    probe(0, "", NestedStatus::Integer(2))
}

fn rejected() -> Event {
    probe(414, "\\u7981", NestedStatus::Absent)
}

fn deleted() -> Event {
    Event::Deleted(Some(DeleteResponse { state: true }))
}

fn names(list: &[&str]) -> Vec<String> {
    list.iter().map(|s| s.to_string()).collect()
}

fn form_value(request: &HttpRequest, field: &str) -> String {
    let found: Vec<&(String, String)> = request.form.iter().filter(|p| p.0 == field).collect();
    assert_eq!(found.len(), 1, "{}", field);
    found[0].1.clone()
}

/// What the outside world of a test does: answers each action from a script,
/// and keeps what was asked of it.
struct World {
    folder: Event,
    probes: Vec<Event>,
    write_ok: bool,
    delete: Event,
    creates: usize,
    probed: Vec<String>,
    deletes: Vec<String>,
    forbidden: String,
    failed: String,
    progress: Vec<String>,
    pauses: Vec<u64>,
}

impl World {
    fn new(folder: Event, probes: Vec<Event>) -> World {
        World {
            folder,
            probes,
            write_ok: true,
            delete: deleted(),
            creates: 0,
            probed: Vec::new(),
            deletes: Vec::new(),
            forbidden: String::new(),
            failed: String::new(),
            progress: Vec::new(),
            pauses: Vec::new(),
        }
    }

    /// Drives `run` from `action` to its end and hands back the last action.
    fn drive(&mut self, run: &mut CheckRun, first: Action) -> Action {
        let mut action = first;
        for _ in 0..10_000 {
            let event = match action {
                Action::CreateFolder(_) => {
                    self.creates += 1;
                    std::mem::replace(&mut self.folder, Event::Folder(None))
                }
                Action::Probe(request) => {
                    self.probed.push(form_value(&request, "filename"));
                    assert_eq!(form_value(&request, "filesize"), "5");
                    if self.probes.is_empty() {
                        Event::Probe(None)
                    } else {
                        self.probes.remove(0)
                    }
                }
                Action::Record { message, sink, line } => {
                    self.progress.push(message);
                    match sink {
                        Some(Sink::Forbidden) if self.write_ok => {
                            self.forbidden.push_str(&line);
                            self.forbidden.push('\n');
                        }
                        Some(Sink::Failed) if self.write_ok => {
                            self.failed.push_str(&line);
                            self.failed.push('\n');
                        }
                        _ => {}
                    }
                    Event::Recorded(self.write_ok)
                }
                Action::Pause(interval) => {
                    self.pauses.push(interval);
                    Event::Resumed
                }
                Action::DeleteFolder(request) => {
                    self.deletes.push(form_value(&request, "fid[0]"));
                    std::mem::replace(&mut self.delete, Event::Deleted(None))
                }
                last => {
                    assert!(run.is_finished());
                    return last;
                }
            };
            action = run.step(event);
        }
        panic!("the run did not end");
    }
}

#[test]
fn bulk_run_routes_the_forbidden_name() {
    // lines clean-name.txt and forbidden-word.txt: the first accepted, the second rejected
    let (mut run, first) = runtime()
        .check_name_bulk_to_file(
            names(&["clean-name.txt", "forbidden-word.txt"]),
            true,
            true,
            DEFAULT_INTERVAL,
            7,
        )
        .unwrap();
    let mut world = World::new(folder("42"), vec![accepted(), rejected()]);
    let last = world.drive(&mut run, first);
    assert_eq!(last, Action::BulkChecked { result: Ok(()), warning: None });
    assert_eq!(world.forbidden, "forbidden-word.txt\n");
    assert_eq!(world.failed, "");
    assert_eq!(world.probed, names(&["clean-name.txt", "forbidden-word.txt"]));
    assert_eq!(world.creates, 1);
    assert_eq!(world.deletes, names(&["42"]));
    assert_eq!(world.pauses, vec![1000, 1000]);
    assert_eq!(
        world.progress,
        names(&["checked clean-name.txt", "NAME NOT ALLOW: forbidden-word.txt"])
    );
    assert_eq!(run.outcomes, vec![ProbeOutcome::Valid, ProbeOutcome::Forbidden]);
}

#[test]
fn bulk_run_keeps_input_order_in_the_forbidden_list() {
    let (mut run, first) = runtime()
        .check_name_bulk_to_file(names(&["a", "b", "c"]), true, true, 0, 7)
        .unwrap();
    let mut world = World::new(folder("42"), vec![rejected(), rejected(), rejected()]);
    let last = world.drive(&mut run, first);
    assert_eq!(last, Action::BulkChecked { result: Ok(()), warning: None });
    assert_eq!(world.forbidden, "a\nb\nc\n");
    assert_eq!(world.failed, "");
}

#[test]
fn bulk_run_keeps_input_order_in_both_lists() {
    let (mut run, first) = runtime()
        .check_name_bulk_to_file(names(&["a", "b", "c", "d", "e", "a"]), true, true, 3, 7)
        .unwrap();
    let mut world = World::new(
        folder("42"),
        vec![
            rejected(),
            probe(500, "down", NestedStatus::Absent),
            accepted(),
            Event::Probe(None),
            rejected(),
            rejected(),
        ],
    );
    let last = world.drive(&mut run, first);
    assert_eq!(last, Action::BulkChecked { result: Ok(()), warning: None });
    // a name that comes twice is written twice
    assert_eq!(world.forbidden, "a\ne\na\n");
    assert_eq!(world.failed, "b\nd\n");
    assert_eq!(world.pauses, vec![3, 3, 3, 3, 3, 3]);
    assert_eq!(
        world.progress[1],
        "failed to check: b, cause by: down"
    );
    assert_eq!(
        world.progress[3],
        "failed to check: d, cause by: network request error"
    );
}

#[test]
fn bulk_run_closes_once_when_every_probe_fails() {
    let (mut run, first) = runtime()
        .check_name_bulk_to_file(names(&["a", "b", "c"]), true, true, 0, 7)
        .unwrap();
    let mut world = World::new(
        folder("42"),
        vec![Event::Probe(None), probe(9, "\\q", NestedStatus::Absent), probe(0, "x", NestedStatus::Absent)],
    );
    let last = world.drive(&mut run, first);
    assert_eq!(last, Action::BulkChecked { result: Ok(()), warning: None });
    assert_eq!(world.deletes, names(&["42"]));
    assert_eq!(world.creates, 1);
    assert_eq!(world.failed, "a\nb\nc\n");
    assert_eq!(world.forbidden, "");
    assert_eq!(
        run.outcomes,
        vec![
            ProbeOutcome::IndeterminateFailure("network request error".to_string()),
            ProbeOutcome::IndeterminateFailure("js_utf8_decode failed".to_string()),
            ProbeOutcome::IndeterminateFailure("not succ: x".to_string()),
        ]
    );
}

#[test]
fn bulk_run_without_lists_writes_nothing() {
    let (mut run, first) = runtime()
        .check_name_bulk_to_file(names(&["a", "b"]), false, false, 0, 7)
        .unwrap();
    let mut world = World::new(folder("42"), vec![rejected(), Event::Probe(None)]);
    // writing would fail, but nothing is written
    world.write_ok = false;
    let last = world.drive(&mut run, first);
    assert_eq!(last, Action::BulkChecked { result: Ok(()), warning: None });
    assert_eq!(world.forbidden, "");
    assert_eq!(world.failed, "");
    assert_eq!(world.progress.len(), 2);
    assert_eq!(world.deletes, names(&["42"]));
}

#[test]
fn bulk_run_over_no_names_opens_and_closes() {
    let (mut run, first) =
        runtime().check_name_bulk_to_file(vec![], true, true, 0, 7).unwrap();
    let mut world = World::new(folder("42"), vec![]);
    let last = world.drive(&mut run, first);
    assert_eq!(last, Action::BulkChecked { result: Ok(()), warning: None });
    assert_eq!(world.probed.len(), 0);
    assert_eq!(world.deletes, names(&["42"]));
    assert_eq!(world.pauses.len(), 0);
}

#[test]
fn bulk_run_stops_at_a_failed_write_and_still_closes() {
    let (mut run, first) = runtime()
        .check_name_bulk_to_file(names(&["a", "b", "c"]), true, true, 0, 7)
        .unwrap();
    let mut world = World::new(folder("42"), vec![accepted(), rejected(), rejected()]);
    world.write_ok = false;
    let last = world.drive(&mut run, first);
    assert_eq!(
        last,
        Action::BulkChecked { result: Err(CheckError::SinkWriteFailed), warning: None }
    );
    // the valid name needs no write; the run ends at the first name that does
    assert_eq!(world.probed, names(&["a", "b"]));
    assert_eq!(world.deletes, names(&["42"]));
}

#[test]
fn bulk_run_fails_where_the_folder_does_not_open() {
    let (mut run, first) = runtime()
        .check_name_bulk_to_file(names(&["a"]), true, true, 0, 7)
        .unwrap();
    let refused = Event::Folder(Some(CreateDirResponse {
        state: false,
        errno: ErrorCode::Number(990002),
        cid: None,
    }));
    let mut world = World::new(refused, vec![accepted()]);
    let last = world.drive(&mut run, first);
    assert_eq!(
        last,
        Action::BulkChecked {
            result: Err(CheckError::OpenFailed(FolderError::CreateFailed)),
            warning: None
        }
    );
    assert_eq!(world.probed.len(), 0);
    assert_eq!(world.deletes.len(), 0);
    assert_eq!(run.phase, Phase::Finished { target: None });
}

#[test]
fn failed_close_is_a_warning_only() {
    let (mut run, first) = runtime()
        .check_name_bulk_to_file(names(&["a"]), true, true, 0, 7)
        .unwrap();
    let mut world = World::new(folder("42"), vec![rejected()]);
    world.delete = Event::Deleted(Some(DeleteResponse { state: false }));
    let last = world.drive(&mut run, first);
    assert_eq!(
        last,
        Action::BulkChecked {
            result: Ok(()),
            warning: Some("fail to delete the folder TMP_rs115".to_string())
        }
    );
    assert_eq!(world.forbidden, "a\n");
    assert_eq!(run.phase, Phase::Finished { target: Some(ProbeTarget { id: 42 }) });
}

#[test]
fn single_check_of_a_valid_name() {
    let (mut run, first) = runtime().check_name("clean-name.txt", 7).unwrap();
    let mut world = World::new(folder("42"), vec![accepted()]);
    let last = world.drive(&mut run, first);
    assert_eq!(last, Action::NameChecked { result: Ok(true), warning: None });
    assert_eq!(world.probed, names(&["clean-name.txt"]));
    assert_eq!(world.deletes, names(&["42"]));
    // the check of one name reports no progress and does not pause
    assert_eq!(world.progress.len(), 0);
    assert_eq!(world.pauses.len(), 0);
}

#[test]
fn single_check_of_a_forbidden_name() {
    let (mut run, first) = runtime().check_name("forbidden-word.txt", 7).unwrap();
    let mut world = World::new(folder("42"), vec![rejected()]);
    let last = world.drive(&mut run, first);
    assert_eq!(last, Action::NameChecked { result: Ok(false), warning: None });
    assert_eq!(world.deletes, names(&["42"]));
}

#[test]
fn single_check_against_status_500_is_unknown_and_still_closes() {
    let (mut run, first) = runtime().check_name("any.txt", 7).unwrap();
    let mut world = World::new(folder("42"), vec![probe(500, "oops", NestedStatus::Absent)]);
    let last = world.drive(&mut run, first);
    assert_eq!(last, Action::NameChecked { result: Err(CheckError::Unknown), warning: None });
    assert_eq!(world.deletes, names(&["42"]));
    assert_eq!(world.creates, 1);
}

#[test]
fn single_check_without_a_usable_response_is_unknown_and_still_closes() {
    let (mut run, first) = runtime().check_name("any.txt", 7).unwrap();
    let mut world = World::new(folder("42"), vec![Event::Probe(None)]);
    let last = world.drive(&mut run, first);
    assert_eq!(last, Action::NameChecked { result: Err(CheckError::Unknown), warning: None });
    assert_eq!(world.deletes, names(&["42"]));
}

#[test]
fn single_check_without_keys_probes_nothing_and_is_unknown() {
    let runtime = Runtime::new(Some(Session::new("cookie".to_string())));
    let (mut run, first) = runtime.check_name("any.txt", 7).unwrap();
    let mut world = World::new(folder("42"), vec![accepted()]);
    let last = world.drive(&mut run, first);
    assert_eq!(last, Action::NameChecked { result: Err(CheckError::Unknown), warning: None });
    assert_eq!(world.probed.len(), 0);
    assert_eq!(world.deletes, names(&["42"]));
    assert_eq!(
        run.outcomes,
        vec![ProbeOutcome::IndeterminateFailure("missing userid".to_string())]
    );
}

#[test]
fn single_check_fails_where_the_folder_is_there_unnamed() {
    let (mut run, first) = runtime().check_name("any.txt", 7).unwrap();
    let exists = Event::Folder(Some(CreateDirResponse {
        state: false,
        errno: ErrorCode::Number(20004),
        cid: None,
    }));
    let mut world = World::new(exists, vec![accepted()]);
    let last = world.drive(&mut run, first);
    assert_eq!(
        last,
        Action::NameChecked {
            result: Err(CheckError::OpenFailed(FolderError::AlreadyExists)),
            warning: None
        }
    );
    assert_eq!(world.deletes.len(), 0);
}

#[test]
fn a_check_needs_a_session() {
    let runtime = Runtime::new(None);
    assert_eq!(runtime.check_name("a", 1).err(), Some(CheckError::CredentialsUnset));
    assert_eq!(
        runtime.check_name_bulk_to_file(names(&["a"]), true, true, 0, 1).err(),
        Some(CheckError::CredentialsUnset)
    );
}

#[test]
fn each_probe_of_a_run_declares_another_hash() {
    let (mut run, first) = runtime()
        .check_name_bulk_to_file(names(&["a", "b"]), false, false, 0, 7)
        .unwrap();
    assert!(matches!(first, Action::CreateFolder(_)));
    let first_probe = match run.step(folder("42")) {
        Action::Probe(request) => request,
        other => panic!("{:?}", other),
    };
    assert_eq!(form_value(&first_probe, "fileid"), "0000000000000007000000000000000000000000");
    assert_eq!(form_value(&first_probe, "preid"), "0000000000000007000000000000000000000000");
    assert_eq!(form_value(&first_probe, "target"), "U_1_42");
    assert!(first_probe.url.ends_with("&sig=21007cfc3aeebcc03162b34a812ef6e5ecaf3437"));
    assert!(matches!(run.step(accepted()), Action::Record { .. }));
    assert_eq!(run.step(Event::Recorded(true)), Action::Pause(0));
    let second_probe = match run.step(Event::Resumed) {
        Action::Probe(request) => request,
        other => panic!("{:?}", other),
    };
    assert_eq!(form_value(&second_probe, "fileid"), "0000000000000007000000000000000100000000");
    assert!(second_probe.url.ends_with("&sig=3b9f0be00587764739487c293ae6a0e2c1db215a"));
}

#[test]
fn an_event_of_the_wrong_kind_counts_as_a_failure() {
    // no folder reply: the folder did not open
    let (mut run, _) = runtime().check_name("a", 7).unwrap();
    assert_eq!(
        run.step(Event::Resumed),
        Action::NameChecked {
            result: Err(CheckError::OpenFailed(FolderError::CreateFailed)),
            warning: None
        }
    );
    // no probe reply: the probe failed, and the folder is closed
    let (mut run, _) = runtime().check_name("a", 7).unwrap();
    assert!(matches!(run.step(folder("42")), Action::Probe(_)));
    assert!(matches!(run.step(Event::Recorded(true)), Action::DeleteFolder(_)));
    // no delete reply: the folder may still be there
    assert_eq!(
        run.step(Event::Resumed),
        Action::NameChecked {
            result: Err(CheckError::Unknown),
            warning: Some("fail to delete the folder TMP_rs115".to_string())
        }
    );
    // a run that is over stays over
    assert_eq!(
        run.step(deleted()),
        Action::NameChecked { result: Err(CheckError::Unknown), warning: None }
    );
    assert!(run.is_finished());
}

#[test]
fn start_asks_for_the_scratch_folder() {
    let (run, first) =
        CheckRun::start(Mode::Bulk, keyed_session(), names(&["a"]), true, false, 12, 3);
    assert_eq!(run.phase, Phase::Opening);
    assert_eq!(run.next, 0);
    assert_eq!(run.interval, 12);
    assert!(!run.is_finished());
    match first {
        Action::CreateFolder(request) => {
            assert_eq!(form_value(&request, "cname"), "TMP_rs115");
            assert_eq!(form_value(&request, "pid"), "0");
        }
        other => panic!("{:?}", other),
    }
}
