use famulus::error::SessionError;
use famulus::session::{FailureKind, Reply, Session};
use famulus::store::TextChange;
use famulus::tasks::RequestKey;
use famulus::text::{Position, Range};

fn uri(s: &str) -> String {
    s.to_string()
}

fn span(l0: u32, c0: u32, l1: u32, c1: u32) -> Range {
    Range::new(Position::new(l0, c0), Position::new(l1, c1))
}

#[test]
fn completion_at_empty_line_returns_candidate_at_cursor() {
    let mut session = Session::new();
    session.did_open_text_document(uri("a"), "fn main() {\n\n}", 1);
    let id = RequestKey::Number(1);
    let job = session
        .inline_completion_request(id.clone(), &uri("a"), Position::new(1, 0))
        .unwrap();
    assert_eq!(job.prefix, "fn main() {\n");
    assert_eq!(job.suffix, "\n}");
    assert!(session.is_pending(&id));
    let reply = session.infill_finished(
        id.clone(),
        job.position,
        Ok(vec!["  println!(\"hi\");".to_string()]),
    );
    match reply {
        Some(Reply::Completions { id: k, items }) => {
            assert_eq!(k, id);
            assert_eq!(items.len(), 1);
            assert_eq!(items[0].insert_text, "  println!(\"hi\");");
            assert_eq!(items[0].range, span(1, 0, 1, 0));
        }
        _ => panic!("expected completions"),
    }
    assert!(!session.is_pending(&id));
}

#[test]
fn stale_rewrite_is_acknowledged_without_edit() {
    let mut session = Session::new();
    session.did_open_text_document(uri("a"), "let foo = 1;", 1);
    let id = RequestKey::Number(7);
    let job = session
        .rewrite(id.clone(), uri("a"), span(0, 4, 0, 7), "rename to bar".to_string())
        .unwrap();
    assert_eq!(job.selection, "foo");
    assert_eq!(job.prefix, "let ");
    assert_eq!(job.suffix, " = 1;");
    assert_eq!(job.version, 1);
    assert_eq!(job.prompt, "rename to bar");
    let changes = vec![TextChange::new(Some(span(0, 12, 0, 12)), "\n".to_string())];
    session.did_change_text_document(&uri("a"), &changes, 2).unwrap();
    let (reply, edit) =
        session.rewrite_finished(id.clone(), job.uri, job.range, job.version, Ok(vec!["bar".to_string()]));
    assert!(matches!(reply, Some(Reply::Acknowledged { id: k }) if k == id));
    assert!(edit.is_none());
}

#[test]
fn current_rewrite_emits_edit_with_first_choice() {
    let mut session = Session::new();
    session.did_open_text_document(uri("a"), "let foo = 1;", 3);
    let id = RequestKey::Text("r".to_string());
    let job = session
        .rewrite(id.clone(), uri("a"), span(0, 4, 0, 7), "rename to bar".to_string())
        .unwrap();
    let (reply, edit) = session.rewrite_finished(
        id.clone(),
        job.uri,
        job.range,
        job.version,
        Ok(vec!["bar".to_string(), "baz".to_string()]),
    );
    assert!(matches!(reply, Some(Reply::Acknowledged { id: k }) if k == id));
    let edit = edit.expect("an edit");
    assert_eq!(edit.uri, "a");
    assert_eq!(edit.version, 3);
    assert_eq!(edit.range, span(0, 4, 0, 7));
    assert_eq!(edit.new_text, "bar");
}

#[test]
fn rewrite_without_choices_emits_no_edit() {
    let mut session = Session::new();
    session.did_open_text_document(uri("a"), "x", 1);
    let id = RequestKey::Number(2);
    let job = session.rewrite(id.clone(), uri("a"), span(0, 0, 0, 1), "p".to_string()).unwrap();
    let (reply, edit) = session.rewrite_finished(id, job.uri, job.range, job.version, Ok(vec![]));
    assert!(matches!(reply, Some(Reply::Acknowledged { .. })));
    assert!(edit.is_none());
}

#[test]
fn rewrite_after_close_emits_no_edit() {
    let mut session = Session::new();
    session.did_open_text_document(uri("a"), "abc", 1);
    let id = RequestKey::Number(3);
    let job = session.rewrite(id.clone(), uri("a"), span(0, 0, 0, 3), "p".to_string()).unwrap();
    session.did_close_text_document(&uri("a"));
    let (reply, edit) =
        session.rewrite_finished(id, job.uri, job.range, job.version, Ok(vec!["x".to_string()]));
    assert!(matches!(reply, Some(Reply::Acknowledged { .. })));
    assert!(edit.is_none());
}

#[test]
fn rewrite_failure_reports_cause() {
    let mut session = Session::new();
    session.did_open_text_document(uri("a"), "abc", 1);
    let id = RequestKey::Number(4);
    let job = session.rewrite(id.clone(), uri("a"), span(0, 0, 0, 3), "p".to_string()).unwrap();
    let (reply, edit) =
        session.rewrite_finished(id.clone(), job.uri, job.range, job.version, Err("timeout".to_string()));
    match reply {
        Some(Reply::Failed { id: k, kind, message }) => {
            assert_eq!(k, id);
            assert_eq!(kind, FailureKind::RequestFailed);
            assert_eq!(message, "timeout");
        }
        _ => panic!("expected a failure"),
    }
    assert!(edit.is_none());
}

#[test]
fn completion_finishing_after_close_does_not_panic() {
    let mut session = Session::new();
    session.did_open_text_document(uri("a"), "abc", 1);
    let id = RequestKey::Number(5);
    let job = session.inline_completion_request(id.clone(), &uri("a"), Position::new(0, 1)).unwrap();
    session.did_close_text_document(&uri("a"));
    let reply = session.infill_finished(id.clone(), job.position, Ok(vec!["x".to_string()]));
    assert!(matches!(reply, Some(Reply::Completions { .. })));
    assert!(!session.is_pending(&id));
    assert!(matches!(
        session.inline_completion_request(RequestKey::Number(6), &uri("a"), Position::new(0, 0)),
        Err(SessionError::MissingDocument)
    ));
}

#[test]
fn cancelling_one_request_keeps_the_other() {
    let mut session = Session::new();
    session.did_open_text_document(uri("a"), "abc", 1);
    let first = RequestKey::Number(1);
    let second = RequestKey::Number(2);
    let job1 = session.inline_completion_request(first.clone(), &uri("a"), Position::new(0, 0)).unwrap();
    let job2 = session.inline_completion_request(second.clone(), &uri("a"), Position::new(0, 3)).unwrap();
    assert!(session.cancel(&first));
    assert!(!session.is_pending(&first));
    assert!(session.is_pending(&second));
    assert!(session.infill_finished(first, job1.position, Ok(vec!["x".to_string()])).is_none());
    let reply = session.infill_finished(second.clone(), job2.position, Ok(vec!["y".to_string()]));
    assert!(matches!(reply, Some(Reply::Completions { id, .. }) if id == second));
}

#[test]
fn cancel_after_finish_is_a_no_op() {
    let mut session = Session::new();
    session.did_open_text_document(uri("a"), "abc", 1);
    let id = RequestKey::Text("x".to_string());
    let job = session.inline_completion_request(id.clone(), &uri("a"), Position::new(0, 0)).unwrap();
    assert!(session.infill_finished(id.clone(), job.position, Ok(vec![])).is_some());
    assert!(!session.cancel(&id));
    assert!(!session.cancel(&id));
    assert!(!session.is_pending(&id));
}

#[test]
fn empty_candidates_are_dropped() {
    let mut session = Session::new();
    session.did_open_text_document(uri("a"), "abc", 1);
    let id = RequestKey::Number(9);
    let job = session.inline_completion_request(id.clone(), &uri("a"), Position::new(0, 2)).unwrap();
    let reply = session.infill_finished(
        id,
        job.position,
        Ok(vec!["".to_string(), "one".to_string(), "".to_string(), "two".to_string()]),
    );
    match reply {
        Some(Reply::Completions { items, .. }) => {
            let texts: Vec<&str> = items.iter().map(|i| i.insert_text.as_str()).collect();
            assert_eq!(texts, vec!["one", "two"]);
            assert!(items.iter().all(|i| i.range == span(0, 2, 0, 2)));
        }
        _ => panic!("expected completions"),
    }
}

#[test]
fn completion_failure_reports_cause() {
    let mut session = Session::new();
    session.did_open_text_document(uri("a"), "abc", 1);
    let id = RequestKey::Number(10);
    let job = session.inline_completion_request(id.clone(), &uri("a"), Position::new(0, 0)).unwrap();
    let reply = session.infill_finished(id.clone(), job.position, Err("status 500".to_string()));
    match reply {
        Some(Reply::Failed { id: k, kind, message }) => {
            assert_eq!(k, id);
            assert_eq!(kind, FailureKind::RequestFailed);
            assert_eq!(message, "status 500");
        }
        _ => panic!("expected a failure"),
    }
}

#[test]
fn requests_on_bad_positions_are_malformed() {
    let mut session = Session::new();
    session.did_open_text_document(uri("a"), "ab\ncd", 1);
    let id = RequestKey::Number(11);
    assert!(matches!(
        session.inline_completion_request(id.clone(), &uri("a"), Position::new(2, 0)),
        Err(SessionError::MalformedRequest)
    ));
    assert!(matches!(
        session.inline_completion_request(id.clone(), &uri("a"), Position::new(1, 3)),
        Err(SessionError::MalformedRequest)
    ));
    assert!(matches!(
        session.inline_completion_request(id.clone(), &uri("a"), Position::new(0, 3)),
        Err(SessionError::MalformedRequest)
    ));
    assert!(matches!(
        session.rewrite(id.clone(), uri("a"), span(1, 1, 0, 1), "p".to_string()),
        Err(SessionError::MalformedRequest)
    ));
    assert!(matches!(
        session.rewrite(id.clone(), uri("b"), span(0, 0, 0, 0), "p".to_string()),
        Err(SessionError::MissingDocument)
    ));
    assert!(!session.is_pending(&id));
    assert_eq!(SessionError::MissingDocument.failure_kind(), FailureKind::RequestFailed);
    assert_eq!(SessionError::MissingDocument.describe(), "Missing document");
    assert_eq!(SessionError::MalformedRequest.describe(), "Position out of range");
    assert_eq!(SessionError::MalformedRequest.failure_kind(), FailureKind::InvalidRequest);
}

#[test]
fn completion_splits_at_utf16_column() {
    let mut session = Session::new();
    session.did_open_text_document(uri("a"), "x\u{1F600}yz", 1);
    let id = RequestKey::Number(12);
    let job = session.inline_completion_request(id, &uri("a"), Position::new(0, 3)).unwrap();
    assert_eq!(job.prefix, "x\u{1F600}");
    assert_eq!(job.suffix, "yz");
}

#[test]
fn change_to_closed_document_is_missing() {
    let mut session = Session::new();
    session.did_open_text_document(uri("a"), "abc", 1);
    session.did_close_text_document(&uri("a"));
    let changes = vec![TextChange::new(None, "new".to_string())];
    assert!(session.changes_fit(&uri("a"), &changes));
    assert_eq!(
        session.did_change_text_document(&uri("a"), &changes, 2),
        Err(SessionError::MissingDocument)
    );
    assert!(matches!(
        session.inline_completion_request(RequestKey::Number(1), &uri("a"), Position::new(0, 0)),
        Err(SessionError::MissingDocument)
    ));
}
