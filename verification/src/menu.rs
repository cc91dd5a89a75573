//! Menu dispatcher: resolves a selected menu identifier to a handler.
//! Matching is exact-string and case-insensitive; an unrecognized
//! identifier resolves to the unimplemented handler, never to an error.
//! The module also owns the two menu vocabularies and the external
//! command each wired handler runs.

use vstd::prelude::*;
use vstd::string::StrSliceExecFns;
use vstd::string::StringExecFns;

use crate::executor::ViewKind;
use crate::utils::lemma_lower_idempotent;
use crate::utils::lower;
use crate::utils::matches_folded;

verus! {

/// One selectable menu entry.  The label is presentation only; the
/// `action_id` alone carries the semantics, and the payload carries
/// context such as a file path through the selection round-trip.
pub struct MenuItem {
    pub label: String,
    pub action_id: String,
    pub payload: Option<String>,
}

/// The mathematical model of a [`MenuItem`].
pub struct MenuItemModel {
    pub label: Seq<char>,
    pub action_id: Seq<char>,
    pub payload: Option<Seq<char>>,
}

impl View for MenuItem {
    type V = MenuItemModel;

    open spec fn view(&self) -> MenuItemModel {
        MenuItemModel {
            label: self.label@,
            action_id: self.action_id@,
            payload: match self.payload {
                Some(p) => Some(p@),
                None => None,
            },
        }
    }
}

/// The handler a top-level menu selection resolves to.
#[derive(Clone, Copy, PartialEq, Eq, Structural, Debug)]
pub enum TopHandler {
    Branches,
    Status,
    Log,
    Quit,
    Unimplemented,
}

/// The handler a per-file menu selection resolves to.
#[derive(Clone, Copy, PartialEq, Eq, Structural, Debug)]
pub enum FileHandler {
    Add,
    Reset,
    Diff,
    Log,
    Quit,
    Unimplemented,
}

/// Which status column a per-file menu was opened from.
#[derive(Clone, Copy, PartialEq, Eq, Structural, Debug)]
pub enum FileColumn {
    Staged,
    Unstaged,
}

/// Resolution of a top-level action identifier, on its case-folded form.
pub open spec fn spec_dispatch_top(id: Seq<char>) -> TopHandler {
    if lower(id) == "branch"@ {
        TopHandler::Branches
    } else if lower(id) == "status"@ {
        TopHandler::Status
    } else if lower(id) == "log"@ {
        TopHandler::Log
    } else if lower(id) == "quit"@ {
        TopHandler::Quit
    } else {
        TopHandler::Unimplemented
    }
}

/// Resolution of a per-file action identifier, on its case-folded form.
pub open spec fn spec_dispatch_file(id: Seq<char>) -> FileHandler {
    if lower(id) == "add"@ {
        FileHandler::Add
    } else if lower(id) == "reset"@ {
        FileHandler::Reset
    } else if lower(id) == "diff"@ {
        FileHandler::Diff
    } else if lower(id) == "log"@ {
        FileHandler::Log
    } else if lower(id) == "quit"@ {
        FileHandler::Quit
    } else {
        FileHandler::Unimplemented
    }
}

/// Law: dispatch is insensitive to the case of the identifier — two
/// identifiers with the same case-folded form resolve to the same handler,
/// in both menu contexts.
pub proof fn lemma_dispatch_case_insensitive(a: Seq<char>, b: Seq<char>)
    requires
        lower(a) == lower(b),
    ensures
        spec_dispatch_top(a) == spec_dispatch_top(b),
        spec_dispatch_file(a) == spec_dispatch_file(b),
{
}

/// Law: case folding an identifier before dispatch changes nothing — an
/// identifier resolves exactly as its folded form does.
pub proof fn lemma_dispatch_folds_first(id: Seq<char>)
    ensures
        spec_dispatch_top(lower(id)) == spec_dispatch_top(id),
        spec_dispatch_file(lower(id)) == spec_dispatch_file(id),
{
    lemma_lower_idempotent(id);
    lemma_dispatch_case_insensitive(lower(id), id);
}

/// Resolve a top-level menu identifier to its handler.  Unrecognized
/// identifiers degrade to the unimplemented handler; resolution never
/// fails.
pub fn dispatch_top(id: &str) -> (h: TopHandler)
    ensures
        h == spec_dispatch_top(id@),
{
    if matches_folded(id, "branch") {
        TopHandler::Branches
    } else if matches_folded(id, "status") {
        TopHandler::Status
    } else if matches_folded(id, "log") {
        TopHandler::Log
    } else if matches_folded(id, "quit") {
        TopHandler::Quit
    } else {
        TopHandler::Unimplemented
    }
}

/// Resolve a per-file menu identifier to its handler.  Unrecognized
/// identifiers degrade to the unimplemented handler; resolution never
/// fails.
pub fn dispatch_file(id: &str) -> (h: FileHandler)
    ensures
        h == spec_dispatch_file(id@),
{
    if matches_folded(id, "add") {
        FileHandler::Add
    } else if matches_folded(id, "reset") {
        FileHandler::Reset
    } else if matches_folded(id, "diff") {
        FileHandler::Diff
    } else if matches_folded(id, "log") {
        FileHandler::Log
    } else if matches_folded(id, "quit") {
        FileHandler::Quit
    } else {
        FileHandler::Unimplemented
    }
}

/// The labels of the top-level menu, in display order.
pub open spec fn spec_top_menu_labels() -> Seq<Seq<char>> {
    seq![
        "PUSH"@,
        "PULL"@,
        "REBASE"@,
        "BRANCH"@,
        "COMMIT"@,
        "STASH"@,
        "CHERRY-PICK"@,
        "STATUS"@,
        "LOG"@,
        "QUIT"@,
    ]
}

/// The top-level menu: each label doubles as its action identifier, and
/// no entry carries a payload.
pub fn top_menu_items() -> (r: Vec<MenuItem>)
    ensures
        r@.map_values(|m: MenuItem| m@) == spec_top_menu_labels().map_values(
            |l: Seq<char>| MenuItemModel { label: l, action_id: l, payload: None },
        ),
{
    let mut r: Vec<MenuItem> = Vec::new();
    r.push(
        MenuItem {
            label: String::from_str("PUSH"),
            action_id: String::from_str("PUSH"),
            payload: None,
        },
    );
    r.push(
        MenuItem {
            label: String::from_str("PULL"),
            action_id: String::from_str("PULL"),
            payload: None,
        },
    );
    r.push(
        MenuItem {
            label: String::from_str("REBASE"),
            action_id: String::from_str("REBASE"),
            payload: None,
        },
    );
    r.push(
        MenuItem {
            label: String::from_str("BRANCH"),
            action_id: String::from_str("BRANCH"),
            payload: None,
        },
    );
    r.push(
        MenuItem {
            label: String::from_str("COMMIT"),
            action_id: String::from_str("COMMIT"),
            payload: None,
        },
    );
    r.push(
        MenuItem {
            label: String::from_str("STASH"),
            action_id: String::from_str("STASH"),
            payload: None,
        },
    );
    r.push(
        MenuItem {
            label: String::from_str("CHERRY-PICK"),
            action_id: String::from_str("CHERRY-PICK"),
            payload: None,
        },
    );
    r.push(
        MenuItem {
            label: String::from_str("STATUS"),
            action_id: String::from_str("STATUS"),
            payload: None,
        },
    );
    r.push(
        MenuItem {
            label: String::from_str("LOG"),
            action_id: String::from_str("LOG"),
            payload: None,
        },
    );
    r.push(
        MenuItem {
            label: String::from_str("QUIT"),
            action_id: String::from_str("QUIT"),
            payload: None,
        },
    );
    proof {
        assert(r@.map_values(|m: MenuItem| m@) =~= spec_top_menu_labels().map_values(
            |l: Seq<char>| MenuItemModel { label: l, action_id: l, payload: None },
        ));
    }
    r
}

/// The label/identifier pairs of the per-file menu for one column: the
/// staged column offers RESET in place of ADD.  Only add, reset, diff and
/// log are wired to handlers; the rest resolve to the unimplemented
/// notice through dispatch.
pub open spec fn spec_file_menu_pairs(column: FileColumn) -> Seq<(Seq<char>, Seq<char>)> {
    match column {
        FileColumn::Staged => seq![
            ("RESET"@, "reset"@),
            ("REMOVE"@, "remove"@),
            ("DIFF"@, "diff"@),
            ("CHECKOUT"@, "checkout"@),
            ("REVERT"@, "revert"@),
            ("LOG"@, "log"@),
            ("BLAME"@, "blame"@),
            ("MERGE CONFLICT"@, "merge conflict"@),
        ],
        FileColumn::Unstaged => seq![
            ("ADD"@, "add"@),
            ("REMOVE"@, "remove"@),
            ("DIFF"@, "diff"@),
            ("CHECKOUT"@, "checkout"@),
            ("REVERT"@, "revert"@),
            ("LOG"@, "log"@),
            ("BLAME"@, "blame"@),
            ("MERGE CONFLICT"@, "merge conflict"@),
        ],
    }
}

/// The per-file menu a column's entry opens: every item carries the
/// selected path as its payload.
pub open spec fn spec_file_menu_items(column: FileColumn, path: Seq<char>) -> Seq<MenuItemModel> {
    spec_file_menu_pairs(column).map_values(
        |p: (Seq<char>, Seq<char>)| MenuItemModel { label: p.0, action_id: p.1, payload: Some(path) },
    )
}

/// Build the per-file menu for one column and one selected path.
pub fn file_menu_items(column: FileColumn, path: &str) -> (r: Vec<MenuItem>)
    ensures
        r@.map_values(|m: MenuItem| m@) == spec_file_menu_items(column, path@),
{
    let mut r: Vec<MenuItem> = Vec::new();
    match column {
        FileColumn::Staged => {
            r.push(
                MenuItem {
                    label: String::from_str("RESET"),
                    action_id: String::from_str("reset"),
                    payload: Some(String::from_str(path)),
                },
            );
        },
        FileColumn::Unstaged => {
            r.push(
                MenuItem {
                    label: String::from_str("ADD"),
                    action_id: String::from_str("add"),
                    payload: Some(String::from_str(path)),
                },
            );
        },
    }
    r.push(
        MenuItem {
            label: String::from_str("REMOVE"),
            action_id: String::from_str("remove"),
            payload: Some(String::from_str(path)),
        },
    );
    r.push(
        MenuItem {
            label: String::from_str("DIFF"),
            action_id: String::from_str("diff"),
            payload: Some(String::from_str(path)),
        },
    );
    r.push(
        MenuItem {
            label: String::from_str("CHECKOUT"),
            action_id: String::from_str("checkout"),
            payload: Some(String::from_str(path)),
        },
    );
    r.push(
        MenuItem {
            label: String::from_str("REVERT"),
            action_id: String::from_str("revert"),
            payload: Some(String::from_str(path)),
        },
    );
    r.push(
        MenuItem {
            label: String::from_str("LOG"),
            action_id: String::from_str("log"),
            payload: Some(String::from_str(path)),
        },
    );
    r.push(
        MenuItem {
            label: String::from_str("BLAME"),
            action_id: String::from_str("blame"),
            payload: Some(String::from_str(path)),
        },
    );
    r.push(
        MenuItem {
            label: String::from_str("MERGE CONFLICT"),
            action_id: String::from_str("merge conflict"),
            payload: Some(String::from_str(path)),
        },
    );
    proof {
        assert(r@.map_values(|m: MenuItem| m@) =~= spec_file_menu_items(column, path@));
    }
    r
}

/// The external command a top-level handler runs, if any.  The quit and
/// unimplemented handlers run none.
pub open spec fn spec_top_command(h: TopHandler) -> Option<Seq<Seq<char>>> {
    match h {
        TopHandler::Branches => Some(seq!["branch"@, "-l"@]),
        TopHandler::Status => Some(seq!["status"@]),
        TopHandler::Log => Some(seq!["log"@, "--oneline"@, "--decorate"@, "--graph"@]),
        TopHandler::Quit => None,
        TopHandler::Unimplemented => None,
    }
}

/// The argument list a top-level handler hands to the external tool, if
/// it runs one.
pub fn top_command(h: TopHandler) -> (r: Option<Vec<String>>)
    ensures
        (r is Some) == (spec_top_command(h) is Some),
        r matches Some(v) ==> spec_top_command(h) == Some(v@.map_values(|s: String| s@)),
{
    match h {
        TopHandler::Branches => {
            let mut v: Vec<String> = Vec::new();
            v.push(String::from_str("branch"));
            v.push(String::from_str("-l"));
            proof {
                assert(v@.map_values(|s: String| s@) =~= seq!["branch"@, "-l"@]);
            }
            Some(v)
        },
        TopHandler::Status => {
            let mut v: Vec<String> = Vec::new();
            v.push(String::from_str("status"));
            proof {
                assert(v@.map_values(|s: String| s@) =~= seq!["status"@]);
            }
            Some(v)
        },
        TopHandler::Log => {
            let mut v: Vec<String> = Vec::new();
            v.push(String::from_str("log"));
            v.push(String::from_str("--oneline"));
            v.push(String::from_str("--decorate"));
            v.push(String::from_str("--graph"));
            proof {
                assert(v@.map_values(|s: String| s@) =~= seq![
                    "log"@,
                    "--oneline"@,
                    "--decorate"@,
                    "--graph"@,
                ]);
            }
            Some(v)
        },
        TopHandler::Quit => None,
        TopHandler::Unimplemented => None,
    }
}

/// A page view's title: the operation, a separator, and the file path in
/// brackets.
pub open spec fn spec_page_title(op: Seq<char>, path: Seq<char>) -> Seq<char> {
    op + " - ["@ + path + "]"@
}

/// Render a page view's title for one operation and one path.
pub fn page_title(op: &str, path: &str) -> (r: String)
    ensures
        r@ == spec_page_title(op@, path@),
{
    let mut r = String::new();
    r.append(op);
    r.append(" - [");
    r.append(path);
    r.append("]");
    r
}

/// A resolved per-file selection: an external command to run and report,
/// the end of the session, or the unimplemented notice.
pub enum FileAction {
    Run(CommandPlan),
    Quit,
    Notice,
}

/// A command the action executor is to run: its argument list, how a
/// success is shown, and the title of a page view.
pub struct CommandPlan {
    pub args: Vec<String>,
    pub on_success: ViewKind,
    pub title: String,
}

/// The argument list a wired per-file handler runs for one path.
pub open spec fn spec_file_args(h: FileHandler, path: Seq<char>) -> Seq<Seq<char>> {
    match h {
        FileHandler::Add => seq!["add"@, path],
        FileHandler::Reset => seq!["reset"@, path],
        FileHandler::Diff => seq!["diff"@, path],
        FileHandler::Log => seq!["log"@, "--follow"@, path],
        _ => seq![],
    }
}

/// Whether a per-file handler runs an external command at all.
pub open spec fn spec_file_runs_command(h: FileHandler) -> bool {
    h is Add || h is Reset || h is Diff || h is Log
}

/// Resolve a per-file handler and path into what the executor is to do.
/// Add and reset report only on failure (a modal); diff and log open a
/// page view; quit runs nothing, and everything else degrades to the
/// unimplemented notice.
pub fn file_action_plan(h: FileHandler, path: &str) -> (p: FileAction)
    ensures
        (p is Run) == spec_file_runs_command(h),
        p is Quit <==> h is Quit,
        p is Notice <==> h is Unimplemented,
        p matches FileAction::Run(c) ==> c.args@.map_values(|s: String| s@) == spec_file_args(
            h,
            path@,
        ),
        (h is Add || h is Reset) ==> (p matches FileAction::Run(c) && c.on_success
            == ViewKind::Modal),
        h is Diff ==> (p matches FileAction::Run(c) && c.on_success == ViewKind::Page && c.title@
            == spec_page_title("Diff"@, path@)),
        h is Log ==> (p matches FileAction::Run(c) && c.on_success == ViewKind::Page && c.title@
            == spec_page_title("Log"@, path@)),
{
    match h {
        FileHandler::Add => {
            let mut args: Vec<String> = Vec::new();
            args.push(String::from_str("add"));
            args.push(String::from_str(path));
            proof {
                assert(args@.map_values(|s: String| s@) =~= seq!["add"@, path@]);
            }
            FileAction::Run(
                CommandPlan { args, on_success: ViewKind::Modal, title: String::new() },
            )
        },
        FileHandler::Reset => {
            let mut args: Vec<String> = Vec::new();
            args.push(String::from_str("reset"));
            args.push(String::from_str(path));
            proof {
                assert(args@.map_values(|s: String| s@) =~= seq!["reset"@, path@]);
            }
            FileAction::Run(
                CommandPlan { args, on_success: ViewKind::Modal, title: String::new() },
            )
        },
        FileHandler::Diff => {
            let mut args: Vec<String> = Vec::new();
            args.push(String::from_str("diff"));
            args.push(String::from_str(path));
            proof {
                assert(args@.map_values(|s: String| s@) =~= seq!["diff"@, path@]);
            }
            FileAction::Run(
                CommandPlan { args, on_success: ViewKind::Page, title: page_title("Diff", path) },
            )
        },
        FileHandler::Log => {
            let mut args: Vec<String> = Vec::new();
            args.push(String::from_str("log"));
            args.push(String::from_str("--follow"));
            args.push(String::from_str(path));
            proof {
                assert(args@.map_values(|s: String| s@) =~= seq!["log"@, "--follow"@, path@]);
            }
            FileAction::Run(
                CommandPlan { args, on_success: ViewKind::Page, title: page_title("Log", path) },
            )
        },
        FileHandler::Quit => FileAction::Quit,
        FileHandler::Unimplemented => FileAction::Notice,
    }
}

/// Law: a quit selection, from the top-level or the per-file menu, is a
/// terminal transition that carries no external command.
pub proof fn lemma_quit_runs_no_command(id: Seq<char>)
    requires
        lower(id) == "quit"@,
    ensures
        spec_dispatch_top(id) == TopHandler::Quit,
        spec_top_command(spec_dispatch_top(id)) is None,
        spec_dispatch_file(id) == FileHandler::Quit,
        !spec_file_runs_command(spec_dispatch_file(id)),
{
    reveal_strlit("quit");
    reveal_strlit("branch");
    reveal_strlit("status");
    reveal_strlit("log");
    reveal_strlit("add");
    reveal_strlit("reset");
    reveal_strlit("diff");
    assert("quit"@.len() == 4);
    assert("branch"@.len() == 6);
    assert("status"@.len() == 6);
    assert("log"@.len() == 3);
    assert("add"@.len() == 3);
    assert("reset"@.len() == 5);
    assert("diff"@.len() == 4);
    assert("diff"@[0] == 'd' && "quit"@[0] == 'q');
}

/// The leading marker of a branch listing line — the current-branch star
/// or its two-column indent — stripped off to recover the branch name.
pub open spec fn spec_branch_target(l: Seq<char>) -> Seq<char> {
    if l.len() >= 1 && (l[0] == '*' || l[0] == ' ') {
        if l.len() >= 2 {
            l.subrange(2, l.len() as int)
        } else {
            Seq::empty()
        }
    } else {
        l
    }
}

/// Recover the branch name from one branch listing line.
pub fn branch_target(line: &str) -> (t: String)
    ensures
        t@ == spec_branch_target(line@),
{
    let n = line.unicode_len();
    if n >= 1 {
        let c = line.get_char(0);
        if c == '*' || c == ' ' {
            if n >= 2 {
                return String::from_str(line.substring_char(2, n));
            }
            return String::new();
        }
    }
    String::from_str(line)
}

/// The branch-switch flow: the confirmation text shown before the command
/// runs, and the command's argument list.
pub struct SwitchPlan {
    pub confirm: String,
    pub args: Vec<String>,
}

/// Plan the branch switch a branch listing selection asks for: the exact
/// command is announced first, then run, joined with a bar for display.
pub fn switch_branch_plan(line: &str) -> (p: SwitchPlan)
    ensures
        p.args@.map_values(|s: String| s@) == seq!["checkout"@, spec_branch_target(line@)],
        p.confirm@ == "checkout"@ + "|"@ + spec_branch_target(line@),
{
    let target = branch_target(line);
    let mut confirm = String::new();
    confirm.append("checkout");
    confirm.append("|");
    confirm.append(target.as_str());
    let mut args: Vec<String> = Vec::new();
    args.push(String::from_str("checkout"));
    args.push(target);
    proof {
        assert(args@.map_values(|s: String| s@) =~= seq![
            "checkout"@,
            spec_branch_target(line@),
        ]);
    }
    SwitchPlan { confirm, args }
}

} // verus!
