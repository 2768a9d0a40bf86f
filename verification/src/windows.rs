//! Counting the windows that the window server shows for an application,
//! and finding a window by its title.
use vstd::prelude::*;

use crate::text::text_eq;

verus! {

/// Windows narrower than this many points are not counted.
pub const MIN_WINDOW_WIDTH: i64 = 300;

/// Windows lower than this many points are not counted.
pub const MIN_WINDOW_HEIGHT: i64 = 150;

/// The size of a window's bounds, in whole points (fractions cut off).
#[derive(Clone, Copy, Debug, PartialEq, Eq, Structural)]
pub struct WindowSize {
    pub width: i64,
    pub height: i64,
}

/// What the window server says of one on-screen window.
#[derive(Clone, Copy, Debug, PartialEq, Eq, Structural)]
pub struct WindowInfo {
    /// The pid of the process that owns the window (0 if unknown).
    pub owner_pid: i32,
    /// Whether the window's alpha is not at or below zero.
    pub alpha_positive: bool,
    /// The window's bounds, if the window server gives them.
    pub size: Option<WindowSize>,
}

/// Whether `w` is a visible, reasonably sized window of process `pid`.
pub open spec fn counts_as_window(w: WindowInfo, pid: i32) -> bool {
    &&& w.owner_pid == pid
    &&& w.alpha_positive
    &&& w.size matches Some(s) && s.width >= MIN_WINDOW_WIDTH && s.height >= MIN_WINDOW_HEIGHT
}

/// How many windows of `ws` count as windows of `pid`.
pub open spec fn window_count(ws: Seq<WindowInfo>, pid: i32) -> nat
    decreases ws.len(),
{
    if ws.len() == 0 {
        0
    } else {
        window_count(ws.drop_last(), pid) + if counts_as_window(ws.last(), pid) {
            1nat
        } else {
            0nat
        }
    }
}

/// No more windows count than there are.
pub proof fn lemma_window_count_bounded(ws: Seq<WindowInfo>, pid: i32)
    ensures
        window_count(ws, pid) <= ws.len(),
    decreases ws.len(),
{
    if ws.len() > 0 {
        lemma_window_count_bounded(ws.drop_last(), pid);
    }
}

/// Whether window `w` counts as a window of `pid`, as a predicate on
/// windows.
pub open spec fn counted_by(pid: i32) -> spec_fn(WindowInfo) -> bool {
    |w: WindowInfo| counts_as_window(w, pid)
}

/// The count of two lists side by side is the sum of their counts.
pub proof fn lemma_window_count_append(a: Seq<WindowInfo>, b: Seq<WindowInfo>, pid: i32)
    ensures
        window_count(a + b, pid) == window_count(a, pid) + window_count(b, pid),
    decreases b.len(),
{
    if b.len() == 0 {
        assert(a + b =~= a);
    } else {
        lemma_window_count_append(a, b.drop_last(), pid);
        assert((a + b).drop_last() =~= a + b.drop_last());
        assert((a + b).last() == b.last());
    }
}

/// Taking one window out of a list lowers the count by one exactly when
/// that window counts.
pub proof fn lemma_window_count_remove(ws: Seq<WindowInfo>, i: int, pid: i32)
    requires
        0 <= i < ws.len(),
    ensures
        window_count(ws, pid) == window_count(ws.remove(i), pid) + if counts_as_window(ws[i], pid) {
            1nat
        } else {
            0nat
        },
{
    let one = seq![ws[i]];
    assert(one.drop_last() =~= Seq::<WindowInfo>::empty());
    assert(one.last() == ws[i]);
    assert(window_count(Seq::<WindowInfo>::empty(), pid) == 0);
    assert(window_count(one, pid) == window_count(one.drop_last(), pid) + if counts_as_window(
        one.last(),
        pid,
    ) {
        1nat
    } else {
        0nat
    });
    assert(window_count(one, pid) == if counts_as_window(ws[i], pid) { 1nat } else { 0nat });
    assert(ws =~= ws.take(i) + one + ws.skip(i + 1));
    assert(ws.remove(i) =~= ws.take(i) + ws.skip(i + 1));
    lemma_window_count_append(ws.take(i) + one, ws.skip(i + 1), pid);
    lemma_window_count_append(ws.take(i), one, pid);
    lemma_window_count_append(ws.take(i), ws.skip(i + 1), pid);
}

/// The order of the windows does not matter: two lists that hold the same
/// windows, in any order, count the same.
pub proof fn law_window_count_permutation(ws1: Seq<WindowInfo>, ws2: Seq<WindowInfo>, pid: i32)
    requires
        ws1.to_multiset() == ws2.to_multiset(),
    ensures
        window_count(ws1, pid) == window_count(ws2, pid),
    decreases ws1.len(),
{
    broadcast use vstd::multiset::group_multiset_axioms;

    vstd::seq_lib::to_multiset_len(ws1);
    vstd::seq_lib::to_multiset_len(ws2);
    if ws1.len() > 0 {
        let x = ws1.last();
        let rest = ws1.drop_last();
        assert(ws1 =~= rest.push(x));
        vstd::seq_lib::to_multiset_build(rest, x);
        vstd::seq_lib::to_multiset_contains(ws2, x);
        assert(ws2.to_multiset().count(x) > 0);
        assert(ws2.contains(x));
        let i = choose|i: int| 0 <= i < ws2.len() && ws2[i] == x;
        vstd::seq_lib::to_multiset_remove(ws2, i);
        assert(ws2.remove(i).to_multiset() =~= rest.to_multiset());
        law_window_count_permutation(rest, ws2.remove(i), pid);
        lemma_window_count_remove(ws2, i, pid);
    }
}

/// The count is the number of windows that count.
pub proof fn law_window_count_is_filter_len(ws: Seq<WindowInfo>, pid: i32)
    ensures
        window_count(ws, pid) == ws.filter(counted_by(pid)).len(),
    decreases ws.len(),
{
    reveal(Seq::filter);
    if ws.len() > 0 {
        law_window_count_is_filter_len(ws.drop_last(), pid);
    }
}

/// Windows that do not count do not matter, nor does the order: two lists
/// whose counting windows are the same, in any order and with any windows
/// that do not count added or taken away, count the same.
pub proof fn law_window_count_ignores_other_windows(ws1: Seq<WindowInfo>, ws2: Seq<WindowInfo>, pid: i32)
    requires
        ws1.filter(counted_by(pid)).to_multiset() == ws2.filter(counted_by(pid)).to_multiset(),
    ensures
        window_count(ws1, pid) == window_count(ws2, pid),
{
    law_window_count_is_filter_len(ws1, pid);
    law_window_count_is_filter_len(ws2, pid);
    vstd::seq_lib::to_multiset_len(ws1.filter(counted_by(pid)));
    vstd::seq_lib::to_multiset_len(ws2.filter(counted_by(pid)));
}

/// Adding a visible window of `pid` at least 300 by 150 points, however
/// large, adds one to the count; adding any other window leaves the count
/// as it is.
pub proof fn law_window_count_push(ws: Seq<WindowInfo>, w: WindowInfo, pid: i32)
    ensures
        (w.owner_pid == pid && w.alpha_positive && w.size is Some && w.size->0.width >= 300
            && w.size->0.height >= 150) ==> window_count(ws.push(w), pid) == window_count(ws, pid) + 1,
        !(w.owner_pid == pid && w.alpha_positive && w.size is Some && w.size->0.width >= 300
            && w.size->0.height >= 150) ==> window_count(ws.push(w), pid) == window_count(ws, pid),
{
    assert(ws.push(w).drop_last() =~= ws);
    assert(ws.push(w).last() == w);
}

/// Growing a counted window keeps it counted: a window that counts still
/// counts when it is wider or higher.
pub proof fn law_larger_window_still_counts(w: WindowInfo, width: i64, height: i64, pid: i32)
    requires
        counts_as_window(w, pid),
        width >= w.size->0.width,
        height >= w.size->0.height,
    ensures
        counts_as_window(WindowInfo { size: Some(WindowSize { width, height }), ..w }, pid),
{
}

/// Whether `w` is a visible window of `pid` at least 300 by 150 points.
pub fn is_counted(w: &WindowInfo, pid: i32) -> (b: bool)
    ensures
        b == counts_as_window(*w, pid),
{
    if w.owner_pid != pid || !w.alpha_positive {
        return false;
    }
    match w.size {
        Some(s) => s.width >= MIN_WINDOW_WIDTH && s.height >= MIN_WINDOW_HEIGHT,
        None => false,
    }
}

/// The number of windows of `pid` among the on-screen windows `windows`
/// that are visible (alpha above zero) and at least 300 by 150 points.
pub fn cg_window_count(windows: &Vec<WindowInfo>, pid: i32) -> (n: usize)
    ensures
        n == window_count(windows@, pid),
{
    let mut n: usize = 0;
    let mut i: usize = 0;
    while i < windows.len()
        invariant
            i <= windows.len(),
            n == window_count(windows@.take(i as int), pid),
        decreases windows.len() - i,
    {
        proof {
            assert(windows@.take(i + 1).drop_last() =~= windows@.take(i as int));
            lemma_window_count_bounded(windows@.take(i as int), pid);
        }
        if is_counted(&windows[i], pid) {
            n = n + 1;
        }
        i = i + 1;
    }
    assert(windows@.take(windows.len() as int) =~= windows@);
    n
}

/// The first position in `titles` whose title is `title`, if any.
pub open spec fn first_title_match(titles: Seq<String>, title: Seq<char>) -> Option<int>
    decreases titles.len(),
{
    if titles.len() == 0 {
        None
    } else if titles[0]@ == title {
        Some(0)
    } else {
        match first_title_match(titles.drop_first(), title) {
            Some(i) => Some(i + 1),
            None => None,
        }
    }
}

proof fn lemma_first_title_match_at(titles: Seq<String>, title: Seq<char>, i: int)
    requires
        0 <= i < titles.len(),
        titles[i]@ == title,
        forall|j: int| 0 <= j < i ==> titles[j]@ != title,
    ensures
        first_title_match(titles, title) == Some(i),
    decreases i,
{
    if i > 0 {
        let rest = titles.drop_first();
        assert forall|j: int| 0 <= j < i - 1 implies rest[j]@ != title by {
            assert(rest[j] == titles[j + 1]);
        }
        lemma_first_title_match_at(rest, title, i - 1);
        assert(titles[0]@ != title);
    }
}

/// The position of the first window title equal to `title`, if any.
pub fn find_title(titles: &Vec<String>, title: &str) -> (r: Option<usize>)
    ensures
        r matches Some(i) ==> first_title_match(titles@, title@) == Some(i as int),
        r is None ==> first_title_match(titles@, title@) is None,
{
    let mut i: usize = 0;
    while i < titles.len()
        invariant
            i <= titles.len(),
            forall|j: int| 0 <= j < i ==> titles@[j]@ != title@,
        decreases titles.len() - i,
    {
        if text_eq(titles[i].as_str(), title) {
            proof {
                lemma_first_title_match_at(titles@, title@, i as int);
            }
            return Some(i);
        }
        i = i + 1;
    }
    proof {
        lemma_no_title_match(titles@, title@);
    }
    None
}

proof fn lemma_no_title_match(titles: Seq<String>, title: Seq<char>)
    requires
        forall|j: int| 0 <= j < titles.len() ==> titles[j]@ != title,
    ensures
        first_title_match(titles, title) is None,
    decreases titles.len(),
{
    if titles.len() > 0 {
        let rest = titles.drop_first();
        assert forall|j: int| 0 <= j < rest.len() implies rest[j]@ != title by {
            assert(rest[j] == titles[j + 1]);
        }
        lemma_no_title_match(rest, title);
        assert(titles[0]@ != title);
    }
}

} // verus!
