use gut::executor::ViewKind;
use gut::menu::FileAction;
use gut::menu::FileColumn;
use gut::menu::FileHandler;
use gut::menu::TopHandler;
use gut::menu::branch_target;
use gut::menu::dispatch_file;
use gut::menu::dispatch_top;
use gut::menu::file_action_plan;
use gut::menu::file_menu_items;
use gut::menu::page_title;
use gut::menu::switch_branch_plan;
use gut::menu::top_command;
use gut::menu::top_menu_items;

#[test]
fn dispatch_is_case_insensitive() {
    assert!(matches!(dispatch_top("branch"), TopHandler::Branches));
    assert!(matches!(dispatch_top("BRANCH"), TopHandler::Branches));
    assert!(matches!(dispatch_top("Branch"), TopHandler::Branches));
    assert!(matches!(dispatch_file("diff"), FileHandler::Diff));
    assert!(matches!(dispatch_file("DIFF"), FileHandler::Diff));
    assert!(matches!(dispatch_file("Diff"), FileHandler::Diff));
}

#[test]
fn unrecognized_action_degrades_to_unimplemented() {
    assert!(matches!(dispatch_top("push"), TopHandler::Unimplemented));
    assert!(matches!(dispatch_top("stash"), TopHandler::Unimplemented));
    assert!(matches!(dispatch_top("frobnicate"), TopHandler::Unimplemented));
    assert!(matches!(dispatch_top(""), TopHandler::Unimplemented));
    assert!(matches!(dispatch_file("blame"), FileHandler::Unimplemented));
    assert!(matches!(dispatch_file("remove"), FileHandler::Unimplemented));
}

#[test]
fn wired_top_level_handlers() {
    assert!(matches!(dispatch_top("status"), TopHandler::Status));
    assert!(matches!(dispatch_top("log"), TopHandler::Log));
    assert!(matches!(dispatch_top("quit"), TopHandler::Quit));
}

#[test]
fn wired_per_file_handlers() {
    assert!(matches!(dispatch_file("add"), FileHandler::Add));
    assert!(matches!(dispatch_file("reset"), FileHandler::Reset));
    assert!(matches!(dispatch_file("log"), FileHandler::Log));
    assert!(matches!(dispatch_file("quit"), FileHandler::Quit));
}

#[test]
fn top_commands_are_exact() {
    let args = top_command(TopHandler::Branches).unwrap();
    assert_eq!(args, vec!["branch".to_string(), "-l".to_string()]);
    let args = top_command(TopHandler::Status).unwrap();
    assert_eq!(args, vec!["status".to_string()]);
    let args = top_command(TopHandler::Log).unwrap();
    assert_eq!(
        args,
        vec![
            "log".to_string(),
            "--oneline".to_string(),
            "--decorate".to_string(),
            "--graph".to_string(),
        ]
    );
}

#[test]
fn quit_carries_no_command() {
    assert!(top_command(TopHandler::Quit).is_none());
    assert!(top_command(TopHandler::Unimplemented).is_none());
    assert!(matches!(file_action_plan(FileHandler::Quit, "f"), FileAction::Quit));
}

#[test]
fn top_menu_vocabulary() {
    let items = top_menu_items();
    let labels: Vec<&str> = items.iter().map(|m| m.label.as_str()).collect();
    assert_eq!(
        labels,
        vec![
            "PUSH",
            "PULL",
            "REBASE",
            "BRANCH",
            "COMMIT",
            "STASH",
            "CHERRY-PICK",
            "STATUS",
            "LOG",
            "QUIT",
        ]
    );
    assert!(items.iter().all(|m| m.payload.is_none()));
}

#[test]
fn file_menu_offers_reset_in_staged_context() {
    let staged = file_menu_items(FileColumn::Staged, "foo");
    let ids: Vec<&str> = staged.iter().map(|m| m.action_id.as_str()).collect();
    assert_eq!(
        ids,
        vec!["reset", "remove", "diff", "checkout", "revert", "log", "blame", "merge conflict"]
    );
    let labels: Vec<&str> = staged.iter().map(|m| m.label.as_str()).collect();
    assert_eq!(
        labels,
        vec!["RESET", "REMOVE", "DIFF", "CHECKOUT", "REVERT", "LOG", "BLAME", "MERGE CONFLICT"]
    );
    let unstaged = file_menu_items(FileColumn::Unstaged, "foo");
    let ids: Vec<&str> = unstaged.iter().map(|m| m.action_id.as_str()).collect();
    assert_eq!(
        ids,
        vec!["add", "remove", "diff", "checkout", "revert", "log", "blame", "merge conflict"]
    );
    assert!(staged.iter().all(|m| m.payload.as_deref() == Some("foo")));
    assert!(unstaged.iter().all(|m| m.payload.as_deref() == Some("foo")));
}

#[test]
fn unwired_file_menu_entries_degrade_to_unimplemented() {
    assert!(matches!(dispatch_file("checkout"), FileHandler::Unimplemented));
    assert!(matches!(dispatch_file("revert"), FileHandler::Unimplemented));
    assert!(matches!(dispatch_file("merge conflict"), FileHandler::Unimplemented));
    assert!(matches!(dispatch_file("MERGE CONFLICT"), FileHandler::Unimplemented));
    assert!(matches!(
        file_action_plan(FileHandler::Unimplemented, "f"),
        FileAction::Notice
    ));
}

#[test]
fn file_plans_are_exact() {
    match file_action_plan(FileHandler::Add, "a.txt") {
        FileAction::Run(c) => {
            assert_eq!(c.args, vec!["add".to_string(), "a.txt".to_string()]);
            assert!(matches!(c.on_success, ViewKind::Modal));
        },
        _ => panic!("add must run a command"),
    }
    match file_action_plan(FileHandler::Reset, "a.txt") {
        FileAction::Run(c) => {
            assert_eq!(c.args, vec!["reset".to_string(), "a.txt".to_string()]);
            assert!(matches!(c.on_success, ViewKind::Modal));
        },
        _ => panic!("reset must run a command"),
    }
    match file_action_plan(FileHandler::Diff, "a.txt") {
        FileAction::Run(c) => {
            assert_eq!(c.args, vec!["diff".to_string(), "a.txt".to_string()]);
            assert!(matches!(c.on_success, ViewKind::Page));
            assert_eq!(c.title, "Diff - [a.txt]");
        },
        _ => panic!("diff must run a command"),
    }
    match file_action_plan(FileHandler::Log, "a.txt") {
        FileAction::Run(c) => {
            assert_eq!(
                c.args,
                vec!["log".to_string(), "--follow".to_string(), "a.txt".to_string()]
            );
            assert!(matches!(c.on_success, ViewKind::Page));
            assert_eq!(c.title, "Log - [a.txt]");
        },
        _ => panic!("log must run a command"),
    }
    assert!(matches!(file_action_plan(FileHandler::Unimplemented, "x"), FileAction::Notice));
}

#[test]
fn branch_target_strips_listing_markers() {
    assert_eq!(branch_target("* main"), "main");
    assert_eq!(branch_target("  dev"), "dev");
    assert_eq!(branch_target("main"), "main");
    assert_eq!(branch_target("*"), "");
    assert_eq!(branch_target(""), "");
}

#[test]
fn switch_plan_announces_exact_command() {
    let plan = switch_branch_plan("* main");
    assert_eq!(plan.confirm, "checkout|main");
    assert_eq!(plan.args, vec!["checkout".to_string(), "main".to_string()]);
}

#[test]
fn page_title_format() {
    assert_eq!(page_title("Diff", "src/x.rs"), "Diff - [src/x.rs]");
    assert_eq!(page_title("Log", ""), "Log - []");
}
