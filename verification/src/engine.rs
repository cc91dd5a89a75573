//! The handlers: engine operations that apply a resolved selection to the
//! navigation state.  Each one takes the screen manager and the plain
//! strings an external command produced, and pushes or pops the layers
//! the protocol asks for.  Running the command itself is the caller's
//! business; the engine only decides.

use vstd::prelude::*;
use vstd::string::StringExecFns;

use crate::executor::ActionResult;
use crate::executor::Rendered;
use crate::executor::RenderedModel;
use crate::executor::ViewKind;
use crate::executor::render_report;
use crate::executor::spec_render;
use crate::menu::FileColumn;
use crate::menu::MenuItem;
use crate::menu::TopHandler;
use crate::menu::file_menu_items;
use crate::menu::spec_file_menu_items;
use crate::menu::spec_top_command;
use crate::screen::ScreenManager;
use crate::screen::nav_step;
use crate::screen::popped;
use crate::status::StatusEntry;
use crate::status::classify_status;
use crate::status::staged_of;
use crate::status::unstaged_of;
use crate::utils::is_blank;
use crate::utils::is_blank_str;
use crate::utils::lines_of;
use crate::utils::split_lines;

verus! {

/// The content of the main screen's view: the description line and the
/// two classified status columns, rebuilt from scratch on every render.
pub struct MainView {
    pub title: String,
    pub description: String,
    pub staged: Vec<StatusEntry>,
    pub unstaged: Vec<StatusEntry>,
}

/// One visual unit on a screen's stack.  The topmost layer of the active
/// screen is what the user sees and interacts with.
pub enum Layer {
    Main(MainView),
    BranchList(Vec<String>),
    TextPanel { title: String, body: String },
    FileMenu { path: String, items: Vec<MenuItem> },
    Modal { body: String },
    Page { title: String, body: String },
}

/// Whether a layer is the main view built from the given branch and
/// status text.
pub open spec fn is_main_view_of(l: Layer, branch: Seq<char>, status: Seq<char>) -> bool {
    &&& l matches Layer::Main(v)
    &&& l matches Layer::Main(v) ==> {
        &&& v.title@ == "Gut - Git UI Tool"@
        &&& v.description@ == "Current branch: "@ + branch + "\n"@
        &&& v.staged@.map_values(|e: StatusEntry| e@) == staged_of(lines_of(status))
        &&& v.unstaged@.map_values(|e: StatusEntry| e@) == unstaged_of(lines_of(status))
    }
}

/// Build the main view from the current-branch line and the raw status
/// text.
pub fn build_main_view(branch_out: &str, status_out: &str) -> (v: MainView)
    ensures
        is_main_view_of(Layer::Main(v), branch_out@, status_out@),
{
    let mut description = String::new();
    description.append("Current branch: ");
    description.append(branch_out);
    description.append("\n");
    let lists = classify_status(status_out);
    MainView {
        title: String::from_str("Gut - Git UI Tool"),
        description,
        staged: lists.staged,
        unstaged: lists.unstaged,
    }
}

/// Replace the top of the active screen by a freshly built main view:
/// the one render everything returns to.
pub fn show_main(mgr: &mut ScreenManager<Layer>, branch_out: &str, status_out: &str)
    requires
        old(mgr).wf(),
    ensures
        final(mgr).wf(),
        final(mgr).screen_count() == old(mgr).screen_count(),
        final(mgr).active_index() == old(mgr).active_index(),
        ({
            let a = old(mgr).active_index() as int;
            &&& final(mgr).stacks()[a].len() > 0
            &&& final(mgr).stacks()[a].drop_last() == popped(old(mgr).stacks()[a])
            &&& is_main_view_of(final(mgr).stacks()[a].last(), branch_out@, status_out@)
            &&& forall|s: int|
                0 <= s < old(mgr).screen_count() && s != a ==> final(mgr).stacks()[s] == old(
                    mgr,
                ).stacks()[s]
        }),
{
    let a = mgr.active_screen_index();
    mgr.pop_top_layer(a);
    let ghost s1 = mgr.stacks();
    proof {
        assert(s1[a as int] == popped(old(mgr).stacks()[a as int]));
    }
    let v = build_main_view(branch_out, status_out);
    mgr.push_layer(a, Layer::Main(v));
    proof {
        assert(mgr.stacks()[a as int] == s1[a as int].push(Layer::Main(v)));
        assert(mgr.stacks()[a as int].drop_last() =~= s1[a as int]);
    }
}

/// The items of the branch listing: the listing's lines, or the
/// placeholder line when the listing is blank.
pub open spec fn spec_branch_items(out: Seq<char>) -> Seq<Seq<char>> {
    if is_blank(out) {
        seq!["No branch(es) found"@]
    } else {
        lines_of(out)
    }
}

/// Build the branch listing items from the raw listing text.
pub fn branch_items(out: &str) -> (r: Vec<String>)
    ensures
        r@.map_values(|l: String| l@) == spec_branch_items(out@),
{
    if is_blank_str(out) {
        let mut r: Vec<String> = Vec::new();
        r.push(String::from_str("No branch(es) found"));
        proof {
            assert(r@.map_values(|l: String| l@) =~= seq!["No branch(es) found"@]);
        }
        r
    } else {
        split_lines(out)
    }
}

/// Replace the top of the active screen by the given layer.
fn replace_top(mgr: &mut ScreenManager<Layer>, layer: Layer)
    requires
        old(mgr).wf(),
    ensures
        final(mgr).wf(),
        final(mgr).screen_count() == old(mgr).screen_count(),
        final(mgr).active_index() == old(mgr).active_index(),
        ({
            let a = old(mgr).active_index() as int;
            &&& final(mgr).stacks()[a].len() > 0
            &&& final(mgr).stacks()[a].drop_last() == popped(old(mgr).stacks()[a])
            &&& final(mgr).stacks()[a].last() == layer
            &&& forall|s: int|
                0 <= s < old(mgr).screen_count() && s != a ==> final(mgr).stacks()[s] == old(
                    mgr,
                ).stacks()[s]
        }),
{
    let a = mgr.active_screen_index();
    mgr.pop_top_layer(a);
    let ghost s1 = mgr.stacks();
    proof {
        assert(s1[a as int] == popped(old(mgr).stacks()[a as int]));
    }
    mgr.push_layer(a, layer);
    proof {
        assert(mgr.stacks()[a as int] == s1[a as int].push(layer));
        assert(mgr.stacks()[a as int].drop_last() =~= s1[a as int]);
    }
}

/// Apply a wired top-level handler to the output its command produced:
/// the branch handler opens the branch listing, the status and log
/// handlers a titled text panel, each replacing the top of the active
/// screen.
pub fn run_top_handler(mgr: &mut ScreenManager<Layer>, h: TopHandler, out: &str)
    requires
        old(mgr).wf(),
        spec_top_command(h) is Some,
    ensures
        final(mgr).wf(),
        final(mgr).screen_count() == old(mgr).screen_count(),
        final(mgr).active_index() == old(mgr).active_index(),
        ({
            let a = old(mgr).active_index() as int;
            let top = final(mgr).stacks()[a].last();
            &&& final(mgr).stacks()[a].len() > 0
            &&& final(mgr).stacks()[a].drop_last() == popped(old(mgr).stacks()[a])
            &&& forall|s: int|
                0 <= s < old(mgr).screen_count() && s != a ==> final(mgr).stacks()[s] == old(
                    mgr,
                ).stacks()[s]
            &&& h is Branches ==> (top matches Layer::BranchList(items) && items@.map_values(
                |l: String| l@,
            ) == spec_branch_items(out@))
            &&& h is Status ==> (top matches Layer::TextPanel { title, body } && title@
                == "Git Status"@ && body@ == out@)
            &&& h is Log ==> (top matches Layer::TextPanel { title, body } && title@ == "Git Log"@
                && body@ == out@)
        }),
{
    match h {
        TopHandler::Branches => {
            let items = branch_items(out);
            replace_top(mgr, Layer::BranchList(items));
        },
        TopHandler::Status => {
            replace_top(
                mgr,
                Layer::TextPanel {
                    title: String::from_str("Git Status"),
                    body: String::from_str(out),
                },
            );
        },
        TopHandler::Log => {
            replace_top(
                mgr,
                Layer::TextPanel {
                    title: String::from_str("Git Log"),
                    body: String::from_str(out),
                },
            );
        },
        TopHandler::Quit => {
            proof {
                assert(false);
            }
        },
        TopHandler::Unimplemented => {
            proof {
                assert(false);
            }
        },
    }
}

/// Push a modal dialog with the given body on the active screen.
pub fn show_modal(mgr: &mut ScreenManager<Layer>, body: &str)
    requires
        old(mgr).wf(),
    ensures
        final(mgr).wf(),
        final(mgr).screen_count() == old(mgr).screen_count(),
        final(mgr).active_index() == old(mgr).active_index(),
        ({
            let a = old(mgr).active_index() as int;
            &&& final(mgr).stacks() == old(mgr).stacks().update(
                a,
                old(mgr).stacks()[a].push(final(mgr).stacks()[a].last()),
            )
            &&& final(mgr).stacks()[a].last() matches Layer::Modal { body: b } && b@ == body@
        }),
{
    let a = mgr.active_screen_index();
    mgr.push_layer(a, Layer::Modal { body: String::from_str(body) });
}

/// Push the unimplemented notice: the visible, recoverable degradation
/// of every unwired menu action.
pub fn show_notice(mgr: &mut ScreenManager<Layer>)
    requires
        old(mgr).wf(),
    ensures
        final(mgr).wf(),
        final(mgr).screen_count() == old(mgr).screen_count(),
        final(mgr).active_index() == old(mgr).active_index(),
        ({
            let a = old(mgr).active_index() as int;
            &&& final(mgr).stacks() == old(mgr).stacks().update(
                a,
                old(mgr).stacks()[a].push(final(mgr).stacks()[a].last()),
            )
            &&& final(mgr).stacks()[a].last() matches Layer::Modal { body: b } && b@
                == "Not implemented yet!"@
        }),
{
    show_modal(mgr, "Not implemented yet!");
}

/// Open the per-file action menu for one selected path on top of the
/// active screen.
pub fn open_file_menu(mgr: &mut ScreenManager<Layer>, path: &str, column: FileColumn)
    requires
        old(mgr).wf(),
    ensures
        final(mgr).wf(),
        final(mgr).screen_count() == old(mgr).screen_count(),
        final(mgr).active_index() == old(mgr).active_index(),
        ({
            let a = old(mgr).active_index() as int;
            &&& final(mgr).stacks() == old(mgr).stacks().update(
                a,
                old(mgr).stacks()[a].push(final(mgr).stacks()[a].last()),
            )
            &&& final(mgr).stacks()[a].last() matches Layer::FileMenu { path: p, items } && p@
                == path@ && items@.map_values(|m: MenuItem| m@) == spec_file_menu_items(
                column,
                path@,
            )
        }),
{
    let a = mgr.active_screen_index();
    let items = file_menu_items(column, path);
    mgr.push_layer(a, Layer::FileMenu { path: String::from_str(path), items });
}

/// Whether a layer shows exactly the given rendering decision.
pub open spec fn layer_shows(l: Layer, r: RenderedModel) -> bool {
    match r {
        RenderedModel::Modal { body } => l matches Layer::Modal { body: b } && b@ == body,
        RenderedModel::Page { title, body } => l matches Layer::Page { title: t, body: b } && t@
            == title && b@ == body,
    }
}

/// Report one command result: the per-file menu on top of the active
/// screen is closed, and the executor's decision is rendered — a modal
/// stays on the active screen, while a page view advances to the next
/// screen slot so the prior screen remains reachable by backward paging.
pub fn report_action(mgr: &mut ScreenManager<Layer>, result: ActionResult, kind: ViewKind, title: String)
    requires
        old(mgr).wf(),
    ensures
        final(mgr).wf(),
        final(mgr).screen_count() == old(mgr).screen_count(),
        ({
            let a = old(mgr).active_index() as int;
            let decision = spec_render(result@, kind, title@);
            let mid = old(mgr).stacks().update(a, popped(old(mgr).stacks()[a]));
            let a2 = final(mgr).active_index() as int;
            &&& decision is Modal ==> a2 == a
            &&& decision is Page ==> a2 == nav_step(
                old(mgr).screen_count(),
                old(mgr).active_index(),
                true,
            )
            &&& final(mgr).stacks() == mid.update(a2, mid[a2].push(final(mgr).stacks()[a2].last()))
            &&& layer_shows(final(mgr).stacks()[a2].last(), decision)
        }),
{
    let a = mgr.active_screen_index();
    mgr.pop_top_layer(a);
    let rendered = render_report(result, kind, title);
    match rendered {
        Rendered::Modal { body } => {
            mgr.push_layer(a, Layer::Modal { body });
        },
        Rendered::Page { title, body } => {
            mgr.next_screen();
            let a2 = mgr.active_screen_index();
            mgr.push_layer(a2, Layer::Page { title, body });
        },
    }
}

/// Close a result modal: pop it from the active screen.  The caller must
/// rebuild the main view next, since the screen beneath may be stale or
/// cleared — dismissal returns to a freshly built main screen.
pub fn close_result_modal(mgr: &mut ScreenManager<Layer>) -> (now_empty: bool)
    requires
        old(mgr).wf(),
    ensures
        final(mgr).wf(),
        final(mgr).screen_count() == old(mgr).screen_count(),
        final(mgr).active_index() == old(mgr).active_index(),
        final(mgr).stacks() == old(mgr).stacks().update(
            old(mgr).active_index() as int,
            popped(old(mgr).stacks()[old(mgr).active_index() as int]),
        ),
        now_empty == (final(mgr).stacks()[old(mgr).active_index() as int].len() == 0),
{
    let a = mgr.active_screen_index();
    let now_empty = mgr.pop_top_layer(a);
    now_empty
}

/// Close a page view: pop it and page back to the previous screen.  The
/// caller must rebuild that screen's main view next, in case it was left
/// cleared.
pub fn close_result_page(mgr: &mut ScreenManager<Layer>) -> (now_empty: bool)
    requires
        old(mgr).wf(),
    ensures
        final(mgr).wf(),
        final(mgr).screen_count() == old(mgr).screen_count(),
        final(mgr).active_index() == nav_step(
            old(mgr).screen_count(),
            old(mgr).active_index(),
            false,
        ),
        final(mgr).stacks() == old(mgr).stacks().update(
            old(mgr).active_index() as int,
            popped(old(mgr).stacks()[old(mgr).active_index() as int]),
        ),
        now_empty == (final(mgr).stacks()[old(mgr).active_index() as int].len() == 0),
{
    let a = mgr.active_screen_index();
    let now_empty = mgr.pop_top_layer(a);
    mgr.prev_screen();
    now_empty
}

/// Show the transient confirmation of a branch switch, then — once the
/// command ran — its output as a close-and-return modal regardless of the
/// exit code, replacing the confirmation.
pub fn show_branch_switch_result(mgr: &mut ScreenManager<Layer>, out: &str)
    requires
        old(mgr).wf(),
    ensures
        final(mgr).wf(),
        final(mgr).screen_count() == old(mgr).screen_count(),
        final(mgr).active_index() == old(mgr).active_index(),
        ({
            let a = old(mgr).active_index() as int;
            &&& final(mgr).stacks()[a].len() > 0
            &&& final(mgr).stacks()[a].drop_last() == popped(old(mgr).stacks()[a])
            &&& final(mgr).stacks()[a].last() matches Layer::Modal { body: b } && b@ == out@
            &&& forall|s: int|
                0 <= s < old(mgr).screen_count() && s != a ==> final(mgr).stacks()[s] == old(
                    mgr,
                ).stacks()[s]
        }),
{
    replace_top(mgr, Layer::Modal { body: String::from_str(out) });
}

} // verus!
