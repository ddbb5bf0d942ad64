use fetch_open::session::Action;
use fetch_open::session::Outcome;
use fetch_open::session::Session;
use fetch_open::session::Step;

fn new_session(temp_dir: &str, url: &str, file_name: &str) -> Session {
    Session::new(temp_dir.to_string(), url.to_string(), file_name.to_string())
}

/// Drives a fresh session through the first `n` steps, each succeeding,
/// with `body` as the response the read step produces. Returns the session
/// and every action it asked for along the way.
fn drive_successes(temp_dir: &str, url: &str, file_name: &str, body: &[u8], n: usize) -> (Session, Vec<Action>) {
    let mut session = new_session(temp_dir, url, file_name);
    let mut actions = Vec::new();
    for _ in 0..n {
        let action = session.current_action();
        let outcome = match &action {
            Action::ReadBody => Outcome::Body(body.to_vec()),
            Action::Finish(_) => panic!("session finished before {} steps", n),
            _ => Outcome::Success,
        };
        actions.push(action);
        session.apply(outcome);
    }
    (session, actions)
}

#[test]
fn greeting_scenario() {
    let (session, actions) =
        drive_successes("tmp", "http://files.example/greeting", "greeting.txt", b"hello", 7);
    assert_eq!(session.step(), Step::Done);
    match session.current_action() {
        Action::Finish(Ok(path)) => {
            assert!(path.ends_with("greeting.txt"));
            assert_eq!(path, "tmp/greeting.txt");
        }
        other => panic!("expected a successful finish, got {:?}", other),
    }
    // The body handed to the write step is exactly the fetched response.
    match &actions[4] {
        Action::WriteFile(bytes) => assert_eq!(bytes, b"hello"),
        other => panic!("expected the write action, got {:?}", other),
    }
    // An OS open was requested, targeting the written path.
    match &actions[6] {
        Action::SpawnOpen(path) => assert_eq!(path, "tmp/greeting.txt"),
        other => panic!("expected the open action, got {:?}", other),
    }
}

#[test]
fn success_returns_joined_path() {
    let (session, actions) = drive_successes(
        "/var/tmp/helper",
        "https://example.org/report.pdf",
        "report.pdf",
        b"%PDF",
        7,
    );
    assert_eq!(session.step(), Step::Done);
    assert_eq!(
        session.current_action(),
        Action::Finish(Ok("/var/tmp/helper/report.pdf".to_string()))
    );
    assert_eq!(actions[3], Action::CreateFile("/var/tmp/helper/report.pdf".to_string()));
}

#[test]
fn successful_run_actions_in_order() {
    let (_, actions) = drive_successes("t", "u", "f", b"x", 7);
    assert_eq!(actions[0], Action::CreateDirAll("t".to_string()));
    assert_eq!(actions[1], Action::HttpGet("u".to_string()));
    assert_eq!(actions[2], Action::ReadBody);
    assert_eq!(actions[3], Action::CreateFile("t/f".to_string()));
    assert_eq!(actions[4], Action::WriteFile(b"x".to_vec()));
    assert_eq!(actions[5], Action::FlushFile);
    assert_eq!(actions[6], Action::SpawnOpen("t/f".to_string()));
}

#[test]
fn first_action_creates_directory() {
    let session = new_session("anywhere", "http://example.net/a", "a.bin");
    assert_eq!(session.current_action(), Action::CreateDirAll("anywhere".to_string()));
}

#[test]
fn same_name_overwrites_without_error() {
    // Two calls that share a file name target the same destination file:
    // the second simply overwrites, and no step fails from the collision.
    let (first, first_actions) =
        drive_successes("tmp", "http://a.example/one", "data.bin", b"first", 7);
    let (second, second_actions) =
        drive_successes("tmp", "http://b.example/two", "data.bin", b"second", 7);
    assert_eq!(first_actions[3], second_actions[3]);
    assert_eq!(first.step(), Step::Done);
    assert_eq!(second.step(), Step::Done);
    match &second_actions[4] {
        Action::WriteFile(bytes) => assert_eq!(bytes, b"second"),
        other => panic!("expected the write action, got {:?}", other),
    }
}

#[test]
fn transport_failure_returns_error_and_writes_nothing() {
    let mut session = new_session("tmp", "http://down.example/x", "x.txt");
    let mut actions = Vec::new();
    actions.push(session.current_action());
    session.apply(Outcome::Success);
    actions.push(session.current_action());
    session.apply(Outcome::Failure("connection refused".to_string()));
    assert_eq!(session.step(), Step::Failed);
    assert_eq!(
        session.current_action(),
        Action::Finish(Err("Failed to download file: connection refused".to_string()))
    );
    // No action ever asked the application to create or write the file.
    for action in &actions {
        assert!(!matches!(action, Action::CreateFile(_)));
        assert!(!matches!(action, Action::WriteFile(_)));
    }
}

#[test]
fn directory_failure_message() {
    let mut session = new_session("tmp", "u", "f");
    session.apply(Outcome::Failure("permission denied".to_string()));
    assert_eq!(
        session.current_action(),
        Action::Finish(Err("Failed to create temp directory: permission denied".to_string()))
    );
}

#[test]
fn read_failure_message() {
    let (mut session, _) = drive_successes("tmp", "u", "f", b"", 2);
    assert_eq!(session.step(), Step::Read);
    session.apply(Outcome::Failure("connection reset".to_string()));
    assert_eq!(
        session.current_action(),
        Action::Finish(Err("Failed to read response: connection reset".to_string()))
    );
}

#[test]
fn create_failure_message() {
    let (mut session, _) = drive_successes("tmp", "u", "f", b"data", 3);
    assert_eq!(session.step(), Step::Create);
    session.apply(Outcome::Failure("read-only file system".to_string()));
    assert_eq!(
        session.current_action(),
        Action::Finish(Err("Failed to create file: read-only file system".to_string()))
    );
}

#[test]
fn write_failure_message() {
    let (mut session, _) = drive_successes("tmp", "u", "f", b"data", 4);
    assert_eq!(session.step(), Step::Write);
    session.apply(Outcome::Failure("no space left".to_string()));
    assert_eq!(
        session.current_action(),
        Action::Finish(Err("Failed to write file: no space left".to_string()))
    );
}

#[test]
fn flush_failure_message() {
    let (mut session, _) = drive_successes("tmp", "u", "f", b"data", 5);
    assert_eq!(session.step(), Step::Flush);
    session.apply(Outcome::Failure("input/output error".to_string()));
    assert_eq!(
        session.current_action(),
        Action::Finish(Err("Failed to flush file: input/output error".to_string()))
    );
}

#[test]
fn open_failure_message() {
    let (mut session, _) = drive_successes("tmp", "u", "f", b"data", 6);
    assert_eq!(session.step(), Step::Open);
    session.apply(Outcome::Failure("command not found".to_string()));
    assert_eq!(
        session.current_action(),
        Action::Finish(Err("Failed to open file: command not found".to_string()))
    );
}

#[test]
fn dest_path_concrete() {
    assert_eq!(fetch_open::paths::dest_path("a", "b.txt"), "a/b.txt");
    assert_eq!(fetch_open::paths::dest_path("", "b"), "/b");
    assert_eq!(fetch_open::paths::dest_path("dir", ""), "dir/");
}
