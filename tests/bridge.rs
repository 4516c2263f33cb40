use windows_task_scheduler::bridge::{NativeCall, Operation, Resource, Session, WinError};

/// A stand-in for the native layer: fails the call at `fail_at` with `code`,
/// answers every other call with success, and records each call it is asked for.
fn drive(mut session: Session, fail_at: Option<usize>, code: i32) -> (Vec<NativeCall>, Result<(), WinError>) {
    let mut calls = Vec::new();
    while let Some(call) = session.next_call() {
        let status = if Some(calls.len()) == fail_at { code } else { 0 };
        calls.push(call);
        session.on_status(status);
    }
    let outcome = session.outcome().expect("finished session has an outcome");
    (calls, outcome)
}

const CREATE_PLAN: [NativeCall; 9] = [
    NativeCall::InitializeContext,
    NativeCall::InitializeSecurity,
    NativeCall::CreateService,
    NativeCall::Connect,
    NativeCall::GetFolder,
    NativeCall::DeleteTask,
    NativeCall::NewTask,
    NativeCall::PutXml,
    NativeCall::Register,
];

fn acquired(call: NativeCall) -> Option<Resource> {
    match call {
        NativeCall::InitializeContext => Some(Resource::Context),
        NativeCall::CreateService => Some(Resource::Service),
        NativeCall::GetFolder => Some(Resource::Folder),
        NativeCall::NewTask => Some(Resource::Definition),
        NativeCall::Register => Some(Resource::Registered),
        _ => None,
    }
}

#[test]
fn create_succeeds_and_releases_everything_in_reverse() {
    let session = Session::create("job", "<Task/>");
    let (calls, outcome) = drive(session, None, 0);
    let mut expected = CREATE_PLAN.to_vec();
    expected.extend([
        NativeCall::Release(Resource::Registered),
        NativeCall::Release(Resource::Definition),
        NativeCall::Release(Resource::Folder),
        NativeCall::Release(Resource::Service),
        NativeCall::Release(Resource::Context),
    ]);
    assert_eq!(calls, expected);
    assert!(outcome.is_ok());
}

#[test]
fn every_failing_step_releases_what_came_before() {
    let code: i32 = 0x8004_1319_u32 as i32;
    for n in 0..CREATE_PLAN.len() {
        if CREATE_PLAN[n] == NativeCall::DeleteTask {
            continue;
        }
        let session = Session::create("job", "<Task/>");
        let (calls, outcome) = drive(session, Some(n), code);
        let mut expected: Vec<NativeCall> = CREATE_PLAN[..=n].to_vec();
        let held: Vec<Resource> = CREATE_PLAN[..n].iter().filter_map(|c| acquired(*c)).collect();
        for r in held.iter().rev() {
            expected.push(NativeCall::Release(*r));
        }
        assert_eq!(calls, expected, "failure at step {}", n);
        let err = outcome.unwrap_err();
        assert_eq!(err.result, code);
    }
}

#[test]
fn failure_labels() {
    let session = Session::create("job", "<Task/>");
    let (_, outcome) = drive(session, Some(3), -1);
    let err = outcome.unwrap_err();
    assert_eq!(err.result, -1);
    assert_eq!(err.message.as_deref(), Some("ITaskService::Connect failed"));
    let session = Session::create("job", "<Task/>");
    let (_, outcome) = drive(session, Some(7), -2);
    let err = outcome.unwrap_err();
    assert_eq!(err.result, -2);
    assert_eq!(err.message, None);
}

#[test]
fn failed_delete_before_create_is_ignored() {
    let session = Session::create("job", "<Task/>");
    let (calls, outcome) = drive(session, Some(5), -5);
    assert_eq!(calls.len(), 14);
    assert!(outcome.is_ok());
}

#[test]
fn delete_failure_is_reported() {
    let session = Session::delete("job");
    let (calls, outcome) = drive(session, Some(5), -5);
    assert_eq!(
        calls,
        vec![
            NativeCall::InitializeContext,
            NativeCall::InitializeSecurity,
            NativeCall::CreateService,
            NativeCall::Connect,
            NativeCall::GetFolder,
            NativeCall::DeleteTask,
            NativeCall::Release(Resource::Folder),
            NativeCall::Release(Resource::Service),
            NativeCall::Release(Resource::Context),
        ]
    );
    let err = outcome.unwrap_err();
    assert_eq!(err.result, -5);
    assert_eq!(err.message, None);
}

#[test]
fn context_failure_releases_nothing() {
    let session = Session::delete("job");
    let (calls, outcome) = drive(session, Some(0), -9);
    assert_eq!(calls, vec![NativeCall::InitializeContext]);
    let err = outcome.unwrap_err();
    assert_eq!(err.result, -9);
    assert_eq!(err.message.as_deref(), Some("CoInitializeEx failed"));
}

#[test]
fn outcome_unknown_while_calls_remain() {
    let session = Session::create("job", "x");
    assert!(session.outcome().is_none());
    assert_eq!(session.next_call(), Some(NativeCall::InitializeContext));
}

#[test]
fn names_become_nul_terminated_utf16() {
    let session = Session::create("ab", "\u{1F600}");
    assert_eq!(session.task_name, vec![97, 98, 0]);
    assert_eq!(session.xml, vec![0xD83D, 0xDE00, 0]);
    let session = Session::delete("é");
    assert_eq!(session.task_name, vec![0xE9, 0]);
    assert!(session.xml.is_empty());
}

#[test]
fn sessions_work_in_the_root_folder() {
    assert_eq!(Session::create("job", "x").folder, vec![0x5C, 0]);
    assert_eq!(Session::delete("job").folder, vec![0x5C, 0]);
}

#[test]
fn error_text() {
    let e = WinError { result: 0x8004_1319_u32 as i32, message: Some("Error saving the Task".to_string()) };
    assert_eq!(e.to_string(), "WinError 0x80041319 : Error saving the Task");
    assert_eq!(e.to_string(), format!("WinError {:#X} : {}", e.result, "Error saving the Task"));
    let e = WinError { result: -1, message: None };
    assert_eq!(e.to_string(), "WinError FFFFFFFF");
    let e = WinError { result: 5, message: None };
    assert_eq!(e.to_string(), format!("WinError {:X}", 5));
}
