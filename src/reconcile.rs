//! Adoption, at startup, of the windows that already exist on the display.
use vstd::prelude::*;
use crate::xid::Xid;

verus! {

/// What is known of a top level window that existed before management began.
pub struct ExistingWindow {
    pub id: Xid,
    /// Whether the window places itself (menus, tooltips): such a window is never tiled.
    pub override_redirect: bool,
    /// The cardinals of the window's desktop property, `None` where it could not be read.
    pub desktop: Option<Vec<u32>>,
}

/// A workspace of the arrangement: its index and its tag.
pub struct WorkspaceTag {
    pub id: usize,
    pub tag: String,
}

/// The workspace index that a window's desktop property names, 0 where it names none.
pub open spec fn desktop_index(desktop: Option<Seq<u32>>) -> int {
    match desktop {
        Some(ids) => if ids.len() > 0 { ids[0] as int } else { 0 },
        None => 0,
    }
}

pub open spec fn desktop_view(w: ExistingWindow) -> Option<Seq<u32>> {
    match w.desktop {
        Some(v) => Some(v@),
        None => None,
    }
}

pub open spec fn workspaces_view(ws: Seq<WorkspaceTag>) -> Seq<(int, Seq<char>)> {
    ws.map_values(|w: WorkspaceTag| (w.id as int, w.tag@))
}

/// The tag of the first workspace with index `idx`, or `fallback` where there is none.
pub open spec fn tag_for(ws: Seq<(int, Seq<char>)>, idx: int, fallback: Seq<char>) -> Seq<char>
    decreases ws.len(),
{
    if ws.len() == 0 {
        fallback
    } else if ws[0].0 == idx {
        ws[0].1
    } else {
        tag_for(ws.drop_first(), idx, fallback)
    }
}

/// Whether a window of the given identifier is adopted by `plan`.
pub open spec fn adopts(plan: Seq<(Xid, Seq<char>)>, id: Xid) -> bool {
    exists|i: int| 0 <= i < plan.len() && #[trigger] plan[i].0 == id
}

/// The windows adopted from `windows`, in order, each with the tag it is placed on.
/// A window is skipped where the arrangement already tracks it, where an earlier
/// window of the same identifier was adopted, or where it places itself.
pub open spec fn adoption_plan(
    ws: Seq<(int, Seq<char>)>,
    first_tag: Seq<char>,
    known: Set<Xid>,
    windows: Seq<(Xid, bool, int)>,
) -> Seq<(Xid, Seq<char>)>
    decreases windows.len(),
{
    if windows.len() == 0 {
        Seq::empty()
    } else {
        let prev = adoption_plan(ws, first_tag, known, windows.drop_last());
        let w = windows.last();
        if known.contains(w.0) || adopts(prev, w.0) || w.1 {
            prev
        } else {
            prev.push((w.0, tag_for(ws, w.2, first_tag)))
        }
    }
}

pub open spec fn windows_view(windows: Seq<ExistingWindow>) -> Seq<(Xid, bool, int)> {
    windows.map_values(|w: ExistingWindow| (w.id, w.override_redirect, desktop_index(desktop_view(w))))
}

pub open spec fn plan_view(plan: Seq<(Xid, String)>) -> Seq<(Xid, Seq<char>)> {
    plan.map_values(|p: (Xid, String)| (p.0, p.1@))
}

fn desktop_of(w: &ExistingWindow) -> (r: usize)
    ensures
        r as int == desktop_index(desktop_view(*w)),
{
    match &w.desktop {
        Some(ids) => if ids.len() > 0 { ids[0] as usize } else { 0 },
        None => 0,
    }
}

fn lookup_tag(workspaces: &Vec<WorkspaceTag>, idx: usize, fallback: &String) -> (r: String)
    ensures
        r@ == tag_for(workspaces_view(workspaces@), idx as int, fallback@),
{
    let mut i: usize = 0;
    proof {
        assert(workspaces_view(workspaces@).subrange(0, workspaces@.len() as int) =~= workspaces_view(workspaces@));
    }
    while i < workspaces.len()
        invariant
            i <= workspaces@.len(),
            tag_for(workspaces_view(workspaces@), idx as int, fallback@) == tag_for(
                workspaces_view(workspaces@).subrange(i as int, workspaces@.len() as int),
                idx as int,
                fallback@,
            ),
        decreases workspaces.len() - i,
    {
        let ghost rest = workspaces_view(workspaces@).subrange(i as int, workspaces@.len() as int);
        if workspaces[i].id == idx {
            return workspaces[i].tag.clone();
        }
        proof {
            assert(rest.drop_first() =~= workspaces_view(workspaces@).subrange(i + 1, workspaces@.len() as int));
        }
        i = i + 1;
    }
    proof {
        assert(workspaces_view(workspaces@).subrange(i as int, workspaces@.len() as int).len() == 0);
    }
    fallback.clone()
}

fn contains_id(ids: &Vec<Xid>, id: Xid) -> (r: bool)
    ensures
        r == ids@.contains(id),
{
    let mut i: usize = 0;
    while i < ids.len()
        invariant
            i <= ids@.len(),
            forall|j: int| 0 <= j < i ==> ids@[j] != id,
        decreases ids.len() - i,
    {
        if ids[i] == id {
            return true;
        }
        i = i + 1;
    }
    false
}

fn planned(plan: &Vec<(Xid, String)>, id: Xid) -> (r: bool)
    ensures
        r == adopts(plan_view(plan@), id),
{
    let mut i: usize = 0;
    while i < plan.len()
        invariant
            i <= plan@.len(),
            forall|j: int| 0 <= j < i ==> plan@[j].0 != id,
        decreases plan.len() - i,
    {
        if plan[i].0 == id {
            proof { assert(plan_view(plan@)[i as int].0 == id); }
            return true;
        }
        i = i + 1;
    }
    proof {
        if adopts(plan_view(plan@), id) {
            let k = choose|k: int| 0 <= k < plan_view(plan@).len() && #[trigger] plan_view(plan@)[k].0 == id;
            assert(plan@[k].0 == id);
        }
    }
    false
}

/// Decides, for each window found at startup, whether it is adopted and on
/// which tag. `workspaces` maps the arrangement's workspace indices to their
/// tags, `ordered_tags` lists the tags in order (its first is the fallback for
/// an index that names no workspace) and `known` holds the windows that the
/// arrangement already holds.
pub fn plan_existing_clients(
    workspaces: &Vec<WorkspaceTag>,
    ordered_tags: &Vec<String>,
    known: &Vec<Xid>,
    windows: &Vec<ExistingWindow>,
) -> (r: Vec<(Xid, String)>)
    requires
        ordered_tags@.len() > 0,
    ensures
        plan_view(r@) == adoption_plan(
            workspaces_view(workspaces@),
            ordered_tags@[0]@,
            known@.to_set(),
            windows_view(windows@),
        ),
{
    let first_tag = &ordered_tags[0];
    let ghost ws = workspaces_view(workspaces@);
    let mut plan: Vec<(Xid, String)> = Vec::new();
    let mut i: usize = 0;
    while i < windows.len()
        invariant
            i <= windows@.len(),
            ordered_tags@.len() > 0,
            ws == workspaces_view(workspaces@),
            first_tag@ == ordered_tags@[0]@,
            plan_view(plan@) == adoption_plan(
                ws,
                first_tag@,
                known@.to_set(),
                windows_view(windows@).subrange(0, i as int),
            ),
        decreases windows.len() - i,
    {
        let w = &windows[i];
        let ghost wv = windows_view(windows@);
        proof {
            assert(wv.subrange(0, i + 1).drop_last() =~= wv.subrange(0, i as int));
            assert(wv.subrange(0, i + 1).last() == wv[i as int]);
            assert(wv[i as int] == (w.id, w.override_redirect, desktop_index(desktop_view(*w))));
            assert(known@.to_set().contains(w.id) == known@.contains(w.id));
        }
        let is_tracked = contains_id(known, w.id);
        let is_planned = planned(&plan, w.id);
        if !(is_tracked || is_planned || w.override_redirect) {
            let idx = desktop_of(w);
            let tag = lookup_tag(workspaces, idx, first_tag);
            let ghost before = plan@;
            plan.push((w.id, tag));
            proof {
                assert(plan_view(plan@) =~= plan_view(before).push((w.id, tag@)));
            }
        }
        proof {
            let sub = wv.subrange(0, i + 1);
            assert(adoption_plan(ws, first_tag@, known@.to_set(), sub) == {
                let prev = adoption_plan(ws, first_tag@, known@.to_set(), sub.drop_last());
                let x = sub.last();
                if known@.to_set().contains(x.0) || adopts(prev, x.0) || x.1 {
                    prev
                } else {
                    prev.push((x.0, tag_for(ws, x.2, first_tag@)))
                }
            });
        }
        i = i + 1;
    }
    proof {
        assert(windows_view(windows@).subrange(0, windows@.len() as int) =~= windows_view(windows@));
    }
    plan
}

/// Reconciliation never adopts a window that the arrangement already holds,
/// never adopts a window twice, and never adopts a window that places itself:
/// each adopted window comes from a found window without that flag, and its
/// tag is the one that window's desktop index gives.
pub proof fn lemma_plan_adopts_only_new_windows(
    ws: Seq<(int, Seq<char>)>,
    first_tag: Seq<char>,
    known: Set<Xid>,
    windows: Seq<(Xid, bool, int)>,
)
    ensures
        ({
            let plan = adoption_plan(ws, first_tag, known, windows);
            &&& forall|i: int| 0 <= i < plan.len() ==> !known.contains(#[trigger] plan[i].0)
            &&& forall|i: int, k: int| 0 <= i < k < plan.len() ==> plan[i].0 != plan[k].0
            &&& forall|i: int| 0 <= i < plan.len() ==> exists|j: int|
                0 <= j < windows.len() && #[trigger] windows[j].0 == #[trigger] plan[i].0 && !windows[j].1
                    && plan[i].1 == tag_for(ws, windows[j].2, first_tag)
        }),
    decreases windows.len(),
{
    if windows.len() > 0 {
        let prefix = windows.drop_last();
        lemma_plan_adopts_only_new_windows(ws, first_tag, known, prefix);
        let prev = adoption_plan(ws, first_tag, known, prefix);
        let plan = adoption_plan(ws, first_tag, known, windows);
        let w = windows.last();
        assert forall|i: int| 0 <= i < plan.len() implies exists|j: int|
            0 <= j < windows.len() && #[trigger] windows[j].0 == #[trigger] plan[i].0 && !windows[j].1
                && plan[i].1 == tag_for(ws, windows[j].2, first_tag) by {
            if i < prev.len() {
                let j = choose|j: int|
                    0 <= j < prefix.len() && #[trigger] prefix[j].0 == #[trigger] prev[i].0 && !prefix[j].1
                        && prev[i].1 == tag_for(ws, prefix[j].2, first_tag);
                assert(windows[j] == prefix[j]);
            } else {
                assert(windows[windows.len() - 1] == w);
            }
        }
        if !(known.contains(w.0) || adopts(prev, w.0) || w.1) {
            assert forall|i: int, k: int| 0 <= i < k < plan.len() implies plan[i].0 != plan[k].0 by {
                if k == prev.len() {
                    assert(prev[i].0 == plan[i].0);
                    if plan[i].0 == w.0 {
                        assert(adopts(prev, w.0));
                    }
                }
            }
        }
    }
}

/// The tag looked up for an index that names no workspace is the fallback.
pub proof fn lemma_unknown_index_falls_back(ws: Seq<(int, Seq<char>)>, idx: int, fallback: Seq<char>)
    requires
        forall|k: int| 0 <= k < ws.len() ==> #[trigger] ws[k].0 != idx,
    ensures
        tag_for(ws, idx, fallback) == fallback,
    decreases ws.len(),
{
    if ws.len() > 0 {
        assert(ws[0].0 != idx);
        assert forall|k: int| 0 <= k < ws.drop_first().len() implies #[trigger] ws.drop_first()[k].0 != idx by {
            assert(ws.drop_first()[k] == ws[k + 1]);
        }
        lemma_unknown_index_falls_back(ws.drop_first(), idx, fallback);
    }
}

/// A window adopted by reconciliation whose desktop index names no known
/// workspace is placed on the first tag.
pub proof fn lemma_plan_falls_back_to_first_tag(
    ws: Seq<(int, Seq<char>)>,
    first_tag: Seq<char>,
    known: Set<Xid>,
    windows: Seq<(Xid, bool, int)>,
    i: int,
)
    requires
        0 <= i < adoption_plan(ws, first_tag, known, windows).len(),
        forall|j: int| 0 <= j < windows.len() && windows[j].0 == adoption_plan(ws, first_tag, known, windows)[i].0
            ==> forall|k: int| 0 <= k < ws.len() ==> #[trigger] ws[k].0 != windows[j].2,
    ensures
        adoption_plan(ws, first_tag, known, windows)[i].1 == first_tag,
{
    let plan = adoption_plan(ws, first_tag, known, windows);
    lemma_plan_adopts_only_new_windows(ws, first_tag, known, windows);
    let j = choose|j: int|
        0 <= j < windows.len() && #[trigger] windows[j].0 == #[trigger] plan[i].0 && !windows[j].1
            && plan[i].1 == tag_for(ws, windows[j].2, first_tag);
    lemma_unknown_index_falls_back(ws, windows[j].2, first_tag);
}

} // verus!
