//! The individual stages on concrete values: path resolution and
//! confinement, source normalization, response building, error messages,
//! and execution failures with restoration afterwards.

use python_embed::errors::HandlerError;
use python_embed::handler::run_source;
use python_embed::resolve::check_confinement;
use python_embed::resolve::check_request_path;
use python_embed::resolve::contains_parent_component;
use python_embed::resolve::join_under_root;
use python_embed::resolve::path_is_within;
use python_embed::resolve::strip_leading_slashes;
use python_embed::response::ResponseBuilder;
use python_embed::source::normalize_source;

#[test]
fn parent_segments_are_found_wherever_they_sit() {
    assert!(contains_parent_component("/../secret.py"));
    assert!(contains_parent_component("/a/../b.py"));
    assert!(contains_parent_component("/a/.."));
    assert!(contains_parent_component(".."));
    assert!(!contains_parent_component("/hello.py"));
    assert!(!contains_parent_component("/a..b/c.py"));
    assert!(!contains_parent_component("/...py"));
    assert!(!contains_parent_component(""));
}

#[test]
fn leading_separators_are_stripped() {
    assert_eq!(strip_leading_slashes("/hello.py"), "hello.py");
    assert_eq!(strip_leading_slashes("//hello.py"), "hello.py");
    assert_eq!(strip_leading_slashes("hello.py"), "hello.py");
    assert_eq!(strip_leading_slashes(""), "");
}

#[test]
fn request_path_stage_distinguishes_its_outcomes() {
    assert_eq!(check_request_path("/a/../b.py"), Err(HandlerError::PathTraversal));
    assert_eq!(check_request_path("/sub/dir/x.py"), Ok("sub/dir/x.py".to_string()));
    // A path naming no existing file passes this stage untouched: a missing
    // script surfaces later as a read failure, never as a traversal.
    assert_eq!(check_request_path("/missing.py"), Ok("missing.py".to_string()));
}

#[test]
fn joining_inserts_a_separator_only_when_needed() {
    assert_eq!(join_under_root("/srv/root", "a.py"), "/srv/root/a.py");
    assert_eq!(join_under_root("/", "a.py"), "/a.py");
    assert_eq!(join_under_root("", "a.py"), "/a.py");
}

#[test]
fn confinement_is_component_wise() {
    assert!(path_is_within("/srv/root", "/srv/root"));
    assert!(path_is_within("/srv/root", "/srv/root/a.py"));
    assert!(path_is_within("/srv/root", "/srv/root/sub/a.py"));
    assert!(path_is_within("/", "/etc/hosts"));
    // A sibling whose name merely extends the root's is outside it.
    assert!(!path_is_within("/srv/root", "/srv/rootkit/a.py"));
    assert!(!path_is_within("/srv/root", "/srv"));
    assert!(!path_is_within("/srv/root", "/etc/secret.py"));
    assert!(check_confinement("/srv/root", "/srv/root/a.py").is_ok());
    assert_eq!(
        check_confinement("/srv/root", "/srv/rootkit/a.py"),
        Err(HandlerError::PathTraversal)
    );
}

#[test]
fn normalization_appends_one_newline_at_most() {
    assert_eq!(normalize_source("print('x')".to_string()), "print('x')\n");
    assert_eq!(normalize_source("print('x')\n".to_string()), "print('x')\n");
    assert_eq!(normalize_source("".to_string()), "\n");
    // Idempotence on a concrete value.
    let once = normalize_source("a = 1".to_string());
    let twice = normalize_source(once.clone());
    assert_eq!(once, twice);
}

#[test]
fn responses_carry_what_was_set() {
    let response = ResponseBuilder::new().status(200).body(b"out".to_vec()).build();
    assert_eq!(response.status(), 200);
    assert_eq!(response.body().as_slice(), b"out");
    let fresh = ResponseBuilder::new().build();
    assert_eq!(fresh.status(), 200);
    assert!(fresh.body().is_empty());
}

#[test]
fn error_messages_match_their_kinds() {
    assert_eq!(HandlerError::PathTraversal.message(), "path traversal attempt");
    assert_eq!(
        HandlerError::DocrootUnavailable("denied".to_string()).message(),
        "failed to access docroot: denied"
    );
    assert_eq!(
        HandlerError::ScriptReadFailed("no such file".to_string()).message(),
        "failed to read script: no such file"
    );
    assert_eq!(HandlerError::ScriptExecutionFailed("boom".to_string()).message(), "boom");
    assert_eq!(HandlerError::OutputCaptureFailed("lost".to_string()).message(), "lost");
}

#[test]
fn failing_script_yields_execution_failure_and_restores_stdout() {
    let failed = run_source("raise ValueError('boom')".to_string());
    match failed {
        Err(HandlerError::ScriptExecutionFailed(detail)) => {
            assert!(detail.contains("ValueError"));
        }
        other => panic!("expected an execution failure, got {:?}", other),
    }
    // A following run is clean: nothing of the failed invocation leaks into
    // it, and its output is captured through a correctly restored binding.
    let after = run_source("print('after')".to_string()).unwrap();
    assert_eq!(after.status(), 200);
    assert_eq!(after.body().as_slice(), "after\n".as_bytes());
}

#[test]
fn captured_output_is_exactly_what_the_script_wrote() {
    let empty = run_source("x = 1".to_string()).unwrap();
    assert_eq!(empty.status(), 200);
    assert!(empty.body().is_empty());
    let pieces = run_source("import sys\nsys.stdout.write('a')\nsys.stdout.write('b')".to_string())
        .unwrap();
    assert_eq!(pieces.body().as_slice(), b"ab");
}
