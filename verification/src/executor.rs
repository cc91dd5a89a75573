//! Action executor decisions: interpret the captured result of an
//! external command and decide what is rendered.  The exit code alone
//! determines branching — stderr may be non-empty even on success and is
//! never used to infer failure.

use vstd::prelude::*;
use vstd::string::StringExecFns;

use crate::utils::is_blank;
use crate::utils::is_blank_str;

verus! {

/// How a successful command's result is shown: a short modal with a fixed
/// body, or a full-page scrollable view of its output.
#[derive(Clone, Copy, PartialEq, Eq, Structural, Debug)]
pub enum ViewKind {
    Modal,
    Page,
}

/// The captured outcome of one external command invocation.  It is
/// consumed immediately to build a result view and never stored.
pub struct ActionResult {
    pub stdout: String,
    pub stderr: String,
    pub exit_code: i32,
}

/// The mathematical model of an [`ActionResult`].
pub struct ActionResultModel {
    pub stdout: Seq<char>,
    pub stderr: Seq<char>,
    pub exit_code: int,
}

impl View for ActionResult {
    type V = ActionResultModel;

    open spec fn view(&self) -> ActionResultModel {
        ActionResultModel {
            stdout: self.stdout@,
            stderr: self.stderr@,
            exit_code: self.exit_code as int,
        }
    }
}

/// What the executor decided to render: a short modal or a titled page.
pub enum Rendered {
    Modal { body: String },
    Page { title: String, body: String },
}

/// The mathematical model of a [`Rendered`] view.
pub enum RenderedModel {
    Modal { body: Seq<char> },
    Page { title: Seq<char>, body: Seq<char> },
}

impl View for Rendered {
    type V = RenderedModel;

    open spec fn view(&self) -> RenderedModel {
        match self {
            Rendered::Modal { body } => RenderedModel::Modal { body: body@ },
            Rendered::Page { title, body } => RenderedModel::Page { title: title@, body: body@ },
        }
    }
}

/// The executor's rendering decision.  A non-zero exit code always yields
/// a modal carrying stderr; a success yields the fixed success modal or a
/// page of stdout, a blank stdout replaced by the "No changes"
/// placeholder.
pub open spec fn spec_render(r: ActionResultModel, kind: ViewKind, title: Seq<char>) -> RenderedModel {
    if r.exit_code != 0 {
        RenderedModel::Modal { body: r.stderr }
    } else if kind == ViewKind::Modal {
        RenderedModel::Modal { body: "Success!"@ }
    } else {
        RenderedModel::Page {
            title,
            body: if is_blank(r.stdout) {
                "No changes"@
            } else {
                r.stdout
            },
        }
    }
}

/// Decide what one command result renders as.
pub fn render_report(result: ActionResult, kind: ViewKind, title: String) -> (r: Rendered)
    ensures
        r@ == spec_render(result@, kind, title@),
{
    if result.exit_code != 0 {
        return Rendered::Modal { body: result.stderr };
    }
    match kind {
        ViewKind::Modal => Rendered::Modal { body: String::from_str("Success!") },
        ViewKind::Page => {
            if is_blank_str(result.stdout.as_str()) {
                Rendered::Page { title, body: String::from_str("No changes") }
            } else {
                Rendered::Page { title, body: result.stdout }
            }
        },
    }
}

} // verus!
