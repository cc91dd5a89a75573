//! Status classifier: turns raw short-form status text into two ordered
//! columns of structured entries, one for the index (staged) and one for
//! the working tree (unstaged).
//!
//! Per line, the first character is the index code and the second the
//! worktree code; the remainder after the delimiter column is the path.  A
//! missing character counts as the unmodified code, so short or blank lines
//! simply contribute to no column.

use vstd::prelude::*;
use vstd::string::StrSliceExecFns;
use vstd::string::StringExecFns;

use crate::utils::lines_of;
use crate::utils::push_char;
use crate::utils::split_lines;

verus! {

/// The change classification a one-character status code stands for.
/// Codes outside the recognized set are carried along verbatim so they
/// stay visible to the user.
#[derive(Clone, Copy, PartialEq, Eq, Structural, Debug)]
pub enum Category {
    Modified,
    TypeChanged,
    Added,
    Deleted,
    Renamed,
    Copied,
    UpdatedUnmerged,
    Untracked,
    Ignored,
    Unknown(char),
}

/// The status codes with a fixed meaning, the unmodified blank included.
pub open spec fn recognized_code(c: char) -> bool {
    c == ' ' || c == 'M' || c == 'T' || c == 'A' || c == 'D' || c == 'R' || c == 'C' || c == 'U'
        || c == '?' || c == '!'
}

/// Whether an index code makes its line visible in the staged column.
/// The untracked and ignored codes describe the whole path rather than a
/// change held by the index, so they surface in the unstaged column only.
pub open spec fn staged_visible(c: char) -> bool {
    c != ' ' && c != '?' && c != '!'
}

/// Whether a worktree code makes its line visible in the unstaged column.
pub open spec fn unstaged_visible(c: char) -> bool {
    c != ' '
}

/// Law: for an index code that denotes a per-column state — any
/// recognized code other than the whole-path untracked and ignored
/// markers — and for any worktree code, a line is visible in the matching
/// column exactly when the code is not the unmodified one.
pub proof fn lemma_visibility_is_not_unmodified(c: char)
    requires
        recognized_code(c),
    ensures
        c != '?' && c != '!' ==> (staged_visible(c) <==> c != ' '),
        unstaged_visible(c) <==> c != ' ',
{
}

/// The category a non-blank status code denotes.
pub open spec fn code_category(c: char) -> Category {
    match c {
        'M' => Category::Modified,
        'T' => Category::TypeChanged,
        'A' => Category::Added,
        'D' => Category::Deleted,
        'R' => Category::Renamed,
        'C' => Category::Copied,
        'U' => Category::UpdatedUnmerged,
        '?' => Category::Untracked,
        '!' => Category::Ignored,
        _ => Category::Unknown(c),
    }
}

/// Map a status code to its category.
pub fn code_category_exec(c: char) -> (r: Category)
    ensures
        r == code_category(c),
{
    match c {
        'M' => Category::Modified,
        'T' => Category::TypeChanged,
        'A' => Category::Added,
        'D' => Category::Deleted,
        'R' => Category::Renamed,
        'C' => Category::Copied,
        'U' => Category::UpdatedUnmerged,
        '?' => Category::Untracked,
        '!' => Category::Ignored,
        _ => Category::Unknown(c),
    }
}

/// The display name of a category.  An unrecognized code is embedded in
/// the name so it is surfaced rather than silently dropped.
pub open spec fn spec_category_name(cat: Category) -> Seq<char> {
    match cat {
        Category::Modified => "Modified"@,
        Category::TypeChanged => "Type changed"@,
        Category::Added => "Added"@,
        Category::Deleted => "Deleted"@,
        Category::Renamed => "Renamed"@,
        Category::Copied => "Copied"@,
        Category::UpdatedUnmerged => "Updated but unmerged"@,
        Category::Untracked => "Untracked"@,
        Category::Ignored => "Ignored"@,
        Category::Unknown(c) => "Unknown category: "@.push(c),
    }
}

/// Render a category's display name.
pub fn category_label(cat: &Category) -> (r: String)
    ensures
        r@ == spec_category_name(*cat),
{
    match cat {
        Category::Modified => String::from_str("Modified"),
        Category::TypeChanged => String::from_str("Type changed"),
        Category::Added => String::from_str("Added"),
        Category::Deleted => String::from_str("Deleted"),
        Category::Renamed => String::from_str("Renamed"),
        Category::Copied => String::from_str("Copied"),
        Category::UpdatedUnmerged => String::from_str("Updated but unmerged"),
        Category::Untracked => String::from_str("Untracked"),
        Category::Ignored => String::from_str("Ignored"),
        Category::Unknown(c) => {
            let mut s = String::from_str("Unknown category: ");
            push_char(&mut s, *c);
            s
        },
    }
}

/// Law: the display name produced for an unrecognized status code contains
/// the offending code itself, so no malformed input disappears silently.
pub proof fn lemma_unknown_code_visible(c: char)
    requires
        !recognized_code(c),
    ensures
        spec_category_name(code_category(c)).contains(c),
{
    let name = spec_category_name(code_category(c));
    assert(code_category(c) == Category::Unknown(c));
    assert(name[name.len() - 1] == c);
}

/// One classified file-status entry: a path together with the category a
/// status column assigned to it.
pub struct StatusEntry {
    pub path: String,
    pub category: Category,
}

/// The mathematical model of a [`StatusEntry`].
pub struct EntryModel {
    pub path: Seq<char>,
    pub category: Category,
}

impl View for StatusEntry {
    type V = EntryModel;

    open spec fn view(&self) -> EntryModel {
        EntryModel { path: self.path@, category: self.category }
    }
}

/// The index-status code of a raw line; a missing character counts as the
/// unmodified code.
pub open spec fn line_index_code(l: Seq<char>) -> char {
    if l.len() >= 1 {
        l[0]
    } else {
        ' '
    }
}

/// The worktree-status code of a raw line; a missing character counts as
/// the unmodified code.
pub open spec fn line_worktree_code(l: Seq<char>) -> char {
    if l.len() >= 2 {
        l[1]
    } else {
        ' '
    }
}

/// The path carried by a raw line: everything past the two code characters
/// and the delimiter column.
pub open spec fn line_path(l: Seq<char>) -> Seq<char> {
    if l.len() > 3 {
        l.subrange(3, l.len() as int)
    } else {
        Seq::empty()
    }
}

/// The entry a line contributes to the staged column.
pub open spec fn staged_entry(l: Seq<char>) -> EntryModel {
    EntryModel { path: line_path(l), category: code_category(line_index_code(l)) }
}

/// The entry a line contributes to the unstaged column.
pub open spec fn unstaged_entry(l: Seq<char>) -> EntryModel {
    EntryModel { path: line_path(l), category: code_category(line_worktree_code(l)) }
}

/// The staged column of a sequence of raw lines, in input order: every
/// line whose index code denotes a staged change contributes one entry.
pub open spec fn staged_of(lines: Seq<Seq<char>>) -> Seq<EntryModel>
    decreases lines.len(),
{
    if lines.len() == 0 {
        Seq::empty()
    } else {
        let init = staged_of(lines.drop_last());
        if staged_visible(line_index_code(lines.last())) {
            init.push(staged_entry(lines.last()))
        } else {
            init
        }
    }
}

/// The unstaged column of a sequence of raw lines, in input order: every
/// line whose worktree code is not the unmodified code contributes one
/// entry.
pub open spec fn unstaged_of(lines: Seq<Seq<char>>) -> Seq<EntryModel>
    decreases lines.len(),
{
    if lines.len() == 0 {
        Seq::empty()
    } else {
        let init = unstaged_of(lines.drop_last());
        if unstaged_visible(line_worktree_code(lines.last())) {
            init.push(unstaged_entry(lines.last()))
        } else {
            init
        }
    }
}

/// Law: each classification column is exactly the in-order image of the
/// lines whose code for that column makes them visible there.  A line
/// lands in the staged column iff its index code denotes a staged change,
/// in the unstaged column iff its worktree code is not the unmodified
/// code, and each column keeps the input order.
pub proof fn lemma_columns_are_filtered_images(lines: Seq<Seq<char>>)
    ensures
        staged_of(lines) == lines.filter(
            |l: Seq<char>| staged_visible(line_index_code(l)),
        ).map_values(|l: Seq<char>| staged_entry(l)),
        unstaged_of(lines) == lines.filter(
            |l: Seq<char>| unstaged_visible(line_worktree_code(l)),
        ).map_values(|l: Seq<char>| unstaged_entry(l)),
    decreases lines.len(),
{
    reveal(Seq::filter);
    let sp = |l: Seq<char>| staged_visible(line_index_code(l));
    let up = |l: Seq<char>| unstaged_visible(line_worktree_code(l));
    if lines.len() == 0 {
        assert(staged_of(lines) =~= lines.filter(sp).map_values(|l: Seq<char>| staged_entry(l)));
        assert(unstaged_of(lines) =~= lines.filter(up).map_values(
            |l: Seq<char>| unstaged_entry(l),
        ));
    } else {
        lemma_columns_are_filtered_images(lines.drop_last());
        assert(staged_of(lines) =~= lines.filter(sp).map_values(|l: Seq<char>| staged_entry(l)));
        assert(unstaged_of(lines) =~= lines.filter(up).map_values(
            |l: Seq<char>| unstaged_entry(l),
        ));
    }
}

/// The two classification columns of one raw status text.
pub struct StatusLists {
    pub staged: Vec<StatusEntry>,
    pub unstaged: Vec<StatusEntry>,
}

/// Classify raw short-form status text into its staged and unstaged
/// columns.  Empty input yields two empty columns.
pub fn classify_status(raw: &str) -> (r: StatusLists)
    ensures
        r.staged@.map_values(|e: StatusEntry| e@) == staged_of(lines_of(raw@)),
        r.unstaged@.map_values(|e: StatusEntry| e@) == unstaged_of(lines_of(raw@)),
{
    let lines = split_lines(raw);
    let ghost lns = lines@.map_values(|l: String| l@);
    let mut staged: Vec<StatusEntry> = Vec::new();
    let mut unstaged: Vec<StatusEntry> = Vec::new();
    let n = lines.len();
    proof {
        assert(lns.subrange(0, 0) =~= Seq::<Seq<char>>::empty());
        assert(staged@.map_values(|e: StatusEntry| e@) =~= Seq::<EntryModel>::empty());
        assert(unstaged@.map_values(|e: StatusEntry| e@) =~= Seq::<EntryModel>::empty());
    }
    let mut i: usize = 0;
    while i < n
        invariant
            i <= n == lines@.len(),
            lns == lines@.map_values(|l: String| l@),
            staged@.map_values(|e: StatusEntry| e@) == staged_of(lns.subrange(0, i as int)),
            unstaged@.map_values(|e: StatusEntry| e@) == unstaged_of(lns.subrange(0, i as int)),
        decreases n - i,
    {
        let line = lines[i].as_str();
        proof {
            assert(line@ == lns[i as int]);
        }
        let len = line.unicode_len();
        let x = if len >= 1 {
            line.get_char(0)
        } else {
            ' '
        };
        let y = if len >= 2 {
            line.get_char(1)
        } else {
            ' '
        };
        let path = if len > 3 {
            String::from_str(line.substring_char(3, len))
        } else {
            String::new()
        };
        proof {
            assert(x == line_index_code(lns[i as int]));
            assert(y == line_worktree_code(lns[i as int]));
            assert(path@ =~= line_path(lns[i as int]));
            assert(lns.subrange(0, (i + 1) as int).drop_last() =~= lns.subrange(0, i as int));
            assert(lns.subrange(0, (i + 1) as int).last() == lns[i as int]);
        }
        if x != ' ' && x != '?' && x != '!' {
            let e = StatusEntry { path: path.clone(), category: code_category_exec(x) };
            proof {
                assert(e@ == staged_entry(lns[i as int]));
                assert(staged@.push(e).map_values(|q: StatusEntry| q@) =~= staged@.map_values(
                    |q: StatusEntry| q@,
                ).push(e@));
            }
            staged.push(e);
        }
        if y != ' ' {
            let e = StatusEntry { path, category: code_category_exec(y) };
            proof {
                assert(e@ == unstaged_entry(lns[i as int]));
                assert(unstaged@.push(e).map_values(|q: StatusEntry| q@) =~= unstaged@.map_values(
                    |q: StatusEntry| q@,
                ).push(e@));
            }
            unstaged.push(e);
        }
        i = i + 1;
    }
    proof {
        assert(lns.subrange(0, n as int) =~= lns);
    }
    StatusLists { staged, unstaged }
}

/// The display label of an entry: the path, a separator, and the
/// category's name.
pub open spec fn spec_entry_label(e: EntryModel) -> Seq<char> {
    e.path + " - "@ + spec_category_name(e.category)
}

/// Render the display label of an entry.
pub fn entry_label(e: &StatusEntry) -> (r: String)
    ensures
        r@ == spec_entry_label(e@),
{
    let mut r = String::new();
    r.append(e.path.as_str());
    r.append(" - ");
    let name = category_label(&e.category);
    r.append(name.as_str());
    r
}

} // verus!
