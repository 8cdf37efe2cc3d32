//! The workspace indicator's data: which workspaces exist, which one is
//! active, which one is urgent — and the pure decisions behind redrawing
//! it: ordering the workspaces by identifier and classifying each one.
//! Querying the compositor and touching widgets happen outside.
use vstd::prelude::*;

use crate::text::has_substr;

verus! {

broadcast use vstd::seq_lib::group_to_multiset_ensures;

/// One workspace as the compositor reports it.
#[derive(Debug, Clone, PartialEq)]
pub struct Workspace {
    pub id: i32,
    pub name: String,
    /// The address of the workspace's most recent window, used for urgency
    /// matching.
    pub lastwindow: String,
}

/// Ascending by identifier.
pub open spec fn sorted_by_id(s: Seq<Workspace>) -> bool {
    forall|i: int, j: int| 0 <= i < j < s.len() ==> s[i].id <= s[j].id
}

fn min_index(ws: &Vec<Workspace>) -> (r: usize)
    requires
        ws@.len() > 0,
    ensures
        r < ws@.len(),
        forall|j: int| 0 <= j < ws@.len() ==> ws@[r as int].id <= ws@[j].id,
{
    let mut best: usize = 0;
    let mut i: usize = 1;
    let n = ws.len();
    while i < n
        invariant
            best < i <= n,
            n == ws@.len(),
            forall|j: int| 0 <= j < i ==> ws@[best as int].id <= ws@[j].id,
        decreases n - i,
    {
        if ws[i].id < ws[best].id {
            best = i;
        }
        i = i + 1;
    }
    best
}

/// Order the workspaces ascending by identifier, keeping exactly the given
/// entries.
pub fn sort_workspaces(ws: Vec<Workspace>) -> (r: Vec<Workspace>)
    ensures
        sorted_by_id(r@),
        r@.to_multiset() == ws@.to_multiset(),
{
    let ghost orig = ws@;
    let mut rest = ws;
    let mut out: Vec<Workspace> = Vec::new();
    proof {
        assert(out@.to_multiset().add(rest@.to_multiset()) =~= orig.to_multiset());
    }
    while rest.len() > 0
        invariant
            out@.to_multiset().add(rest@.to_multiset()) == orig.to_multiset(),
            sorted_by_id(out@),
            forall|i: int, j: int|
                0 <= i < out@.len() && 0 <= j < rest@.len() ==> out@[i].id <= rest@[j].id,
        decreases rest@.len(),
    {
        let ghost rest0 = rest@;
        let ghost out0 = out@;
        let m = min_index(&rest);
        let x = rest.remove(m);
        out.push(x);
        proof {
            assert(rest0[m as int] == x);
            assert(rest0.contains(x));
            assert(rest@.to_multiset() =~= rest0.to_multiset().remove(x));
            assert(out@.to_multiset() =~= out0.to_multiset().insert(x));
            assert(out@.to_multiset().add(rest@.to_multiset()) =~= orig.to_multiset());
            assert forall|i: int, j: int|
                0 <= i < out@.len() && 0 <= j < rest@.len() implies out@[i].id <= rest@[j].id by {
                if j < m {
                    assert(rest@[j] == rest0[j]);
                } else {
                    assert(rest@[j] == rest0[j + 1]);
                }
                if i < out0.len() {
                    assert(out@[i] == out0[i]);
                } else {
                    assert(out@[i] == x);
                }
            }
            assert(sorted_by_id(out@));
        }
    }
    out
}

/// How one workspace is drawn.
#[derive(Debug, Clone, Copy, PartialEq, Eq, Structural)]
pub enum WorkspaceMark {
    /// The currently focused workspace.
    Active,
    /// A workspace whose most recent window demands attention.
    Urgent,
    /// Any other workspace.
    Plain,
}

/// The drawing class of one workspace: active wins over urgent, urgent over
/// plain; urgency means the urgent identifier occurs in the workspace's
/// most recent window address.
pub open spec fn mark_of(w: Workspace, active_id: Option<i32>, urgent: Option<Seq<char>>)
    -> WorkspaceMark {
    if active_id matches Some(a) && w.id == a {
        WorkspaceMark::Active
    } else if urgent matches Some(u) && has_substr(w.lastwindow@, u) {
        WorkspaceMark::Urgent
    } else {
        WorkspaceMark::Plain
    }
}

/// The view of the optional urgent identifier.
pub open spec fn urgent_view(urgent: Option<String>) -> Option<Seq<char>> {
    match urgent {
        Some(u) => Some(u@),
        None => None,
    }
}

/// Classify every workspace of the (already ordered) list for drawing.
pub fn workspace_marks(ws: &Vec<Workspace>, active_id: Option<i32>, urgent: &Option<String>) -> (r:
    Vec<WorkspaceMark>)
    ensures
        r@.len() == ws@.len(),
        forall|i: int|
            0 <= i < ws@.len() ==> r@[i] == mark_of(ws@[i], active_id, urgent_view(*urgent)),
{
    let mut r: Vec<WorkspaceMark> = Vec::new();
    let n = ws.len();
    let mut i: usize = 0;
    while i < n
        invariant
            i <= n,
            n == ws@.len(),
            r@.len() == i,
            forall|j: int|
                0 <= j < i ==> r@[j] == mark_of(ws@[j], active_id, urgent_view(*urgent)),
        decreases n - i,
    {
        let w = &ws[i];
        let is_active = match active_id {
            Some(a) => w.id == a,
            None => false,
        };
        let mark = if is_active {
            WorkspaceMark::Active
        } else {
            let is_urgent = match urgent {
                Some(u) => crate::text::contains_str(w.lastwindow.as_str(), u.as_str()),
                None => false,
            };
            if is_urgent {
                WorkspaceMark::Urgent
            } else {
                WorkspaceMark::Plain
            }
        };
        r.push(mark);
        i = i + 1;
    }
    r
}

} // verus!
