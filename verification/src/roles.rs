//! Accessibility roles: which focused elements take typed text, and whether
//! an element sits inside a sheet (the Go-to-Folder field lives in an
//! AXSheet, which lives in an AXWindow).
use vstd::prelude::*;

use crate::text::{opt_text, text_eq};

verus! {

/// How many ancestors of an element are looked at, at most, when searching
/// for an enclosing sheet.
pub const SHEET_SEARCH_DEPTH: usize = 12;

/// Whether `role` is the role of an element that takes typed text.
pub open spec fn is_text_input_role(role: Seq<char>) -> bool {
    role == "AXTextField"@ || role == "AXComboBox"@
}

/// Whether `role` is that of a sheet.
pub open spec fn is_sheet_role(role: Seq<char>) -> bool {
    role == "AXSheet"@
}

/// Whether `role` is one at which the search for a sheet stops: a window
/// or the application itself.
pub open spec fn is_boundary_role(role: Seq<char>) -> bool {
    role == "AXWindow"@ || role == "AXApplication"@
}

/// Whether an element of role `role` takes typed text: a text field or a
/// combo box.
pub fn is_text_input(role: &str) -> (b: bool)
    ensures
        b == is_text_input_role(role@),
{
    text_eq(role, "AXTextField") || text_eq(role, "AXComboBox")
}

/// What the search for an enclosing sheet has found after one more
/// ancestor.
#[derive(Clone, Copy, Debug, PartialEq, Eq, Structural)]
pub enum SheetStep {
    /// The element is inside a sheet.
    Inside,
    /// The element is not inside a sheet.
    Outside,
    /// Undecided: read the role of the next ancestor.
    Climb,
}

/// The verdict after the ancestor at `depth` (0 for the parent) was read:
/// `None` when there is no such ancestor, else its role.
pub open spec fn sheet_step(depth: nat, ancestor: Option<Seq<char>>) -> SheetStep {
    match ancestor {
        None => SheetStep::Outside,
        Some(role) => if is_sheet_role(role) {
            SheetStep::Inside
        } else if is_boundary_role(role) {
            SheetStep::Outside
        } else if depth + 1 < SHEET_SEARCH_DEPTH {
            SheetStep::Climb
        } else {
            SheetStep::Outside
        },
    }
}

/// One step of the search for an enclosing sheet: `ancestor` is the role
/// of the ancestor at `depth` (0 for the parent), or `None` when there is
/// none. A sheet answers `Inside`; a missing ancestor, a window, the
/// application, or the last ancestor looked at answers `Outside`; anything
/// else asks for the next ancestor.
pub fn in_sheet(depth: usize, ancestor: &Option<String>) -> (r: SheetStep)
    ensures
        r == sheet_step(depth as nat, opt_text(*ancestor)),
{
    match ancestor {
        None => SheetStep::Outside,
        Some(role) => {
            if text_eq(role.as_str(), "AXSheet") {
                SheetStep::Inside
            } else if text_eq(role.as_str(), "AXWindow") || text_eq(role.as_str(), "AXApplication") {
                SheetStep::Outside
            } else if depth < SHEET_SEARCH_DEPTH - 1 {
                SheetStep::Climb
            } else {
                SheetStep::Outside
            }
        },
    }
}

/// The search for a sheet run over `chain`, the roles of the ancestors read
/// one after another from depth `depth` on (the chain ends where an element
/// has no parent).
pub open spec fn sheet_search(depth: nat, chain: Seq<Seq<char>>) -> bool
    decreases SHEET_SEARCH_DEPTH - depth,
{
    let ancestor = if chain.len() > 0 { Some(chain[0]) } else { None };
    match sheet_step(depth, ancestor) {
        SheetStep::Inside => true,
        SheetStep::Outside => false,
        SheetStep::Climb => if depth + 1 < SHEET_SEARCH_DEPTH {
            sheet_search(depth + 1, chain.drop_first())
        } else {
            false
        },
    }
}

/// Whether, among the first `SHEET_SEARCH_DEPTH` ancestors in `chain`, a
/// sheet comes before any window or application.
pub open spec fn sheet_before_boundary(chain: Seq<Seq<char>>) -> bool {
    exists|i: int|
        0 <= i < chain.len() && i < SHEET_SEARCH_DEPTH && is_sheet_role(#[trigger] chain[i])
            && forall|j: int| 0 <= j < i ==> !is_boundary_role(#[trigger] chain[j])
}

/// The search for a sheet, step by step from the parent up, finds one
/// exactly when among the first twelve ancestors a sheet comes before any
/// window or application.
pub proof fn law_in_sheet_search(chain: Seq<Seq<char>>)
    ensures
        sheet_search(0, chain) == sheet_before_boundary(chain),
{
    lemma_sheet_search_from(0, chain);
}

proof fn lemma_sheet_search_from(d: nat, chain: Seq<Seq<char>>)
    requires
        d < SHEET_SEARCH_DEPTH,
    ensures
        sheet_search(d, chain) == exists|i: int|
            0 <= i < chain.len() && d + i < SHEET_SEARCH_DEPTH && is_sheet_role(#[trigger] chain[i])
                && forall|j: int| 0 <= j < i ==> !is_boundary_role(#[trigger] chain[j]),
    decreases SHEET_SEARCH_DEPTH - d,
{
    let p = exists|i: int|
        0 <= i < chain.len() && d + i < SHEET_SEARCH_DEPTH && is_sheet_role(#[trigger] chain[i])
            && forall|j: int| 0 <= j < i ==> !is_boundary_role(#[trigger] chain[j]);
    if chain.len() == 0 {
    } else if is_sheet_role(chain[0]) {
        assert(forall|j: int| 0 <= j < 0 ==> !is_boundary_role(#[trigger] chain[j]));
        assert(p);
    } else if is_boundary_role(chain[0]) {
        if p {
            let i = choose|i: int|
                0 <= i < chain.len() && d + i < SHEET_SEARCH_DEPTH && is_sheet_role(#[trigger] chain[i])
                    && forall|j: int| 0 <= j < i ==> !is_boundary_role(#[trigger] chain[j]);
            assert(i != 0);
            assert(!is_boundary_role(chain[0]));
        }
    } else if d + 1 < SHEET_SEARCH_DEPTH {
        let rest = chain.drop_first();
        lemma_sheet_search_from(d + 1, rest);
        let q = exists|i: int|
            0 <= i < rest.len() && d + 1 + i < SHEET_SEARCH_DEPTH && is_sheet_role(#[trigger] rest[i])
                && forall|j: int| 0 <= j < i ==> !is_boundary_role(#[trigger] rest[j]);
        if p {
            let i = choose|i: int|
                0 <= i < chain.len() && d + i < SHEET_SEARCH_DEPTH && is_sheet_role(#[trigger] chain[i])
                    && forall|j: int| 0 <= j < i ==> !is_boundary_role(#[trigger] chain[j]);
            assert(i != 0);
            assert(rest[i - 1] == chain[i]);
            assert forall|j: int| 0 <= j < i - 1 implies !is_boundary_role(#[trigger] rest[j]) by {
                assert(rest[j] == chain[j + 1]);
            }
            assert(q);
        }
        if q {
            let i = choose|i: int|
                0 <= i < rest.len() && d + 1 + i < SHEET_SEARCH_DEPTH && is_sheet_role(#[trigger] rest[i])
                    && forall|j: int| 0 <= j < i ==> !is_boundary_role(#[trigger] rest[j]);
            assert(chain[i + 1] == rest[i]);
            assert forall|j: int| 0 <= j < i + 1 implies !is_boundary_role(#[trigger] chain[j]) by {
                if j > 0 {
                    assert(chain[j] == rest[j - 1]);
                }
            }
            assert(p);
        }
    } else {
        if p {
            let i = choose|i: int|
                0 <= i < chain.len() && d + i < SHEET_SEARCH_DEPTH && is_sheet_role(#[trigger] chain[i])
                    && forall|j: int| 0 <= j < i ==> !is_boundary_role(#[trigger] chain[j]);
            assert(i == 0);
        }
    }
}

} // verus!
