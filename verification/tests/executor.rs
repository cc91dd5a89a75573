use gut::executor::ActionResult;
use gut::executor::Rendered;
use gut::executor::ViewKind;
use gut::executor::render_report;

fn result(stdout: &str, stderr: &str, exit_code: i32) -> ActionResult {
    ActionResult { stdout: stdout.to_string(), stderr: stderr.to_string(), exit_code }
}

#[test]
fn failure_always_renders_stderr_modal() {
    let r = render_report(result("ignored out", "boom", 1), ViewKind::Page, "T".to_string());
    match r {
        Rendered::Modal { body } => assert_eq!(body, "boom"),
        _ => panic!("expected a modal"),
    }
    let r = render_report(result("", "denied", -5), ViewKind::Modal, String::new());
    match r {
        Rendered::Modal { body } => assert_eq!(body, "denied"),
        _ => panic!("expected a modal"),
    }
}

#[test]
fn success_modal_has_fixed_body() {
    let r = render_report(result("anything", "warning", 0), ViewKind::Modal, String::new());
    match r {
        Rendered::Modal { body } => assert_eq!(body, "Success!"),
        _ => panic!("expected a modal"),
    }
}

#[test]
fn blank_success_page_shows_no_changes() {
    let r = render_report(result("", "", 0), ViewKind::Page, "Diff - [f]".to_string());
    match r {
        Rendered::Page { title, body } => {
            assert_eq!(title, "Diff - [f]");
            assert_eq!(body, "No changes");
        },
        _ => panic!("expected a page"),
    }
}

#[test]
fn whitespace_only_stdout_counts_as_blank() {
    let r = render_report(result(" \n\t\r\n", "", 0), ViewKind::Page, "t".to_string());
    match r {
        Rendered::Page { body, .. } => assert_eq!(body, "No changes"),
        _ => panic!("expected a page"),
    }
}

#[test]
fn nonblank_success_page_carries_stdout() {
    let r = render_report(result("diff --git", "noise", 0), ViewKind::Page, "t".to_string());
    match r {
        Rendered::Page { body, .. } => assert_eq!(body, "diff --git"),
        _ => panic!("expected a page"),
    }
}

#[test]
fn stderr_alone_does_not_signal_failure() {
    let r = render_report(result("ok", "warning: x", 0), ViewKind::Page, "t".to_string());
    match r {
        Rendered::Page { body, .. } => assert_eq!(body, "ok"),
        _ => panic!("expected a page"),
    }
}
