use vstd::prelude::*;
use crate::effects::{Effect, EntityId, SidebarEvent};
use crate::model::{index_after_move, moved, MultiWorkspaceView};

verus! {

/// The state after `k` successive "next workspace" steps.
pub open spec fn after_next_steps(s: MultiWorkspaceView, k: nat) -> MultiWorkspaceView
    decreases k,
{
    if k == 0 {
        s
    } else {
        after_next_steps(s, (k - 1) as nat).activate_next().0
    }
}

/// Going to the next workspace and then to the previous one comes back to
/// where the window was, and so does the opposite order.
pub proof fn lemma_next_then_previous(s: MultiWorkspaceView)
    requires
        s.wf(),
    ensures
        s.activate_next().0.activate_previous().0 == s,
        s.activate_previous().0.activate_next().0 == s,
{
    let len = s.workspaces.len() as int;
    if len > 1 {
        if s.active + 1 < len {
            vstd::arithmetic::div_mod::lemma_small_mod((s.active + 1) as nat, len as nat);
        } else {
            vstd::arithmetic::div_mod::lemma_mod_self_0(len);
        }
        if s.active > 0 {
            vstd::arithmetic::div_mod::lemma_small_mod(s.active as nat, len as nat);
        } else {
            vstd::arithmetic::div_mod::lemma_small_mod(0, len as nat);
            vstd::arithmetic::div_mod::lemma_mod_self_0(len);
        }
    }
}

/// After `k` "next workspace" steps the active position has advanced by `k`,
/// wrapping around, and nothing else has changed.
pub proof fn lemma_next_steps_advance(s: MultiWorkspaceView, k: nat)
    requires
        s.wf(),
        s.workspaces.len() > 1,
    ensures
        after_next_steps(s, k) == s.with_active((s.active + k) % (s.workspaces.len() as int)),
    decreases k,
{
    let len = s.workspaces.len() as int;
    if k == 0 {
        vstd::arithmetic::div_mod::lemma_small_mod(s.active as nat, len as nat);
    } else {
        lemma_next_steps_advance(s, (k - 1) as nat);
        let prev = after_next_steps(s, (k - 1) as nat);
        let a = (s.active + k - 1) % len;
        assert(prev.active == a);
        assert(prev.workspaces == s.workspaces);
        vstd::arithmetic::div_mod::lemma_add_mod_noop(s.active + k - 1, 1, len);
        vstd::arithmetic::div_mod::lemma_small_mod(1, len as nat);
    }
}

/// Stepping to the next workspace as many times as there are workspaces
/// comes back to the workspace one started from.
pub proof fn lemma_next_cycles(s: MultiWorkspaceView)
    requires
        s.wf(),
    ensures
        after_next_steps(s, s.workspaces.len()) == s,
{
    let len = s.workspaces.len() as int;
    if len > 1 {
        lemma_next_steps_advance(s, len as nat);
        vstd::arithmetic::div_mod::lemma_mod_add_multiples_vanish(s.active, len);
        vstd::arithmetic::div_mod::lemma_small_mod(s.active as nat, len as nat);
        assert(s.with_active(s.active) == s);
    } else {
        lemma_single_workspace_next_steps(s, len as nat);
    }
}

proof fn lemma_single_workspace_next_steps(s: MultiWorkspaceView, k: nat)
    requires
        s.wf(),
        s.workspaces.len() == 1,
    ensures
        after_next_steps(s, k) == s,
    decreases k,
{
    if k > 0 {
        lemma_single_workspace_next_steps(s, (k - 1) as nat);
    }
}

/// Where the element at position `k` of `moved(ws, from, to)` came from.
pub open spec fn source_of_moved(k: int, from: int, to: int) -> int {
    if k == to {
        from
    } else {
        let r = if k < to { k } else { k - 1 };
        if r < from { r } else { r + 1 }
    }
}

pub proof fn lemma_moved_index(ws: Seq<EntityId>, from: int, to: int)
    requires
        0 <= from < ws.len(),
        0 <= to < ws.len(),
    ensures
        moved(ws, from, to).len() == ws.len(),
        forall|k: int|
            0 <= k < ws.len() ==> {
                &&& 0 <= source_of_moved(k, from, to) < ws.len()
                &&& #[trigger] moved(ws, from, to)[k] == ws[source_of_moved(k, from, to)]
            },
{
    ws.remove_ensures(from);
    ws.remove(from).insert_ensures(to, ws[from]);
    assert forall|k: int| 0 <= k < ws.len() implies {
        &&& 0 <= source_of_moved(k, from, to) < ws.len()
        &&& #[trigger] moved(ws, from, to)[k] == ws[source_of_moved(k, from, to)]
    } by {
        if k < to {
            assert(moved(ws, from, to)[k] == ws.remove(from)[k]);
        } else if k > to {
            assert(moved(ws, from, to)[k] == ws.remove(from)[k - 1]);
        }
    }
}

/// Moving a workspace keeps the same workspace active, and the window well formed.
pub proof fn lemma_move_keeps_active_workspace(s: MultiWorkspaceView, from: int, to: int)
    requires
        s.wf(),
    ensures
        s.move_workspace(from, to).0.wf(),
        s.move_workspace(from, to).0.active_workspace() == s.active_workspace(),
{
    let len = s.workspaces.len() as int;
    if !(from == to || from < 0 || to < 0 || from >= len || to >= len) {
        lemma_moved_index(s.workspaces, from, to);
        let a = index_after_move(s.active, from, to);
        assert(source_of_moved(a, from, to) == s.active);
    }
}

proof fn lemma_moved_round_trip(ws: Seq<EntityId>, from: int, to: int)
    requires
        0 <= from < ws.len(),
        0 <= to < ws.len(),
    ensures
        moved(moved(ws, from, to), to, from) == ws,
{
    lemma_moved_index(ws, from, to);
    let ws1 = moved(ws, from, to);
    lemma_moved_index(ws1, to, from);
    let ws2 = moved(ws1, to, from);
    assert forall|k: int| 0 <= k < ws.len() implies ws2[k] == ws[k] by {
        let j = source_of_moved(k, to, from);
        assert(ws2[k] == ws1[j]);
        assert(ws1[j] == ws[source_of_moved(j, from, to)]);
        assert(source_of_moved(j, from, to) == k);
    }
    assert(ws2 =~= ws);
}

/// Moving a workspace back to where it came from restores the window.
#[verifier::spinoff_prover]
pub proof fn lemma_move_round_trip(s: MultiWorkspaceView, from: int, to: int)
    requires
        s.wf(),
        0 <= from < s.workspaces.len(),
        0 <= to < s.workspaces.len(),
    ensures
        s.move_workspace(from, to).0.move_workspace(to, from).0 == s,
{
    lemma_moved_round_trip(s.workspaces, from, to);
    lemma_moved_index(s.workspaces, from, to);
    assert(index_after_move(index_after_move(s.active, from, to), to, from) == s.active);
}

/// Moving a workspace only reorders the workspaces: none appears twice
/// afterwards if none did before.
pub proof fn lemma_move_keeps_distinct(s: MultiWorkspaceView, from: int, to: int)
    requires
        s.wf(),
        s.distinct(),
    ensures
        s.move_workspace(from, to).0.distinct(),
        s.move_workspace(from, to).0.workspaces.to_multiset() == s.workspaces.to_multiset(),
{
    let len = s.workspaces.len() as int;
    if !(from == to || from < 0 || to < 0 || from >= len || to >= len) {
        let ws = s.workspaces;
        lemma_moved_index(ws, from, to);
        let m = moved(ws, from, to);
        assert forall|i: int, j: int| 0 <= i < m.len() && 0 <= j < m.len() && i != j implies m[i]
            != m[j] by {
            assert(source_of_moved(i, from, to) != source_of_moved(j, from, to));
        }
        broadcast use vstd::multiset::group_multiset_axioms;

        vstd::seq_lib::to_multiset_remove(ws, from);
        vstd::seq_lib::to_multiset_insert(ws.remove(from), to, ws[from]);
        vstd::seq_lib::to_multiset_contains(ws, ws[from]);
        assert(m.to_multiset() =~= ws.to_multiset());
    }
}

/// Removing a workspace other than the active one keeps the same workspace
/// active; removing the active one makes active the workspace that took its
/// place, or the last one if it was last. Either way the window stays well formed.
pub proof fn lemma_remove_keeps_active_workspace(s: MultiWorkspaceView, index: int)
    requires
        s.wf(),
    ensures
        s.remove_workspace(index).0.wf(),
        index != s.active ==> s.remove_workspace(index).0.active_workspace() == s.active_workspace(),
        (index == s.active && 1 < s.workspaces.len() && index < s.workspaces.len() - 1)
            ==> s.remove_workspace(index).0.active_workspace() == s.workspaces[index + 1],
        (index == s.active && 1 < s.workspaces.len() && index == s.workspaces.len() - 1)
            ==> s.remove_workspace(index).0.active == s.workspaces.len() - 2,
{
    let len = s.workspaces.len() as int;
    if !(len <= 1 || index < 0 || index >= len) {
        s.workspaces.remove_ensures(index);
    }
}

/// Removing a workspace leaves no workspace twice if there was none before.
pub proof fn lemma_remove_keeps_distinct(s: MultiWorkspaceView, index: int)
    requires
        s.wf(),
        s.distinct(),
    ensures
        s.remove_workspace(index).0.distinct(),
{
    let len = s.workspaces.len() as int;
    if !(len <= 1 || index < 0 || index >= len) {
        let ws = s.workspaces;
        ws.remove_ensures(index);
        let r = ws.remove(index);
        assert forall|i: int, j: int| 0 <= i < r.len() && 0 <= j < r.len() && i != j implies r[i]
            != r[j] by {
            let si = if i < index { i } else { i + 1 };
            let sj = if j < index { j } else { j + 1 };
            assert(r[i] == ws[si]);
            assert(r[j] == ws[sj]);
        }
    }
}

/// Adding a workspace yields a position that holds it; adding it again
/// changes nothing and yields the same position.
pub proof fn lemma_add_workspace_idempotent(s: MultiWorkspaceView, w: EntityId)
    requires
        s.wf(),
    ensures
        ({
            let (s1, i1, _) = s.add_workspace(w);
            let (s2, i2, fx2) = s1.add_workspace(w);
            &&& s1.wf()
            &&& 0 <= i1 < s1.workspaces.len()
            &&& s1.workspaces[i1] == w
            &&& s1.active == s.active
            &&& s1.active_workspace() == s.active_workspace()
            &&& s2 == s1
            &&& i2 == i1
            &&& fx2 == Seq::<Effect>::empty()
        }),
{
    s.workspaces.index_of_first_ensures(w);
    let (s1, i1, _) = s.add_workspace(w);
    s1.workspaces.index_of_first_ensures(w);
    let found = s1.workspaces.index_of_first(w);
    assert(s1.workspaces.contains(w)) by {
        assert(s1.workspaces[i1] == w);
    }
    match found {
        Some(i2) => {
            if i2 < i1 {
                assert(s1.workspaces[i2] == w);
                if s.workspaces.contains(w) {
                } else {
                    assert(s.workspaces[i2] == w);
                }
            }
        },
        None => {},
    }
}

/// Adding a workspace that is not there leaves no workspace twice if there
/// was none before.
pub proof fn lemma_add_workspace_keeps_distinct(s: MultiWorkspaceView, w: EntityId)
    requires
        s.wf(),
        s.distinct(),
    ensures
        s.add_workspace(w).0.distinct(),
{
    s.workspaces.index_of_first_ensures(w);
    if !s.workspaces.contains(w) {
        let p = s.workspaces.push(w);
        assert forall|i: int, j: int| 0 <= i < p.len() && 0 <= j < p.len() && i != j implies p[i]
            != p[j] by {
            if i < s.workspaces.len() && j == s.workspaces.len() {
                assert(s.workspaces[i] != w);
            }
            if j < s.workspaces.len() && i == s.workspaces.len() {
                assert(s.workspaces[j] != w);
            }
        }
    }
}

/// Activating a workspace makes it the active one, whether or not the
/// multi-workspace feature is enabled; with the feature, no workspace is
/// then listed twice if none was before.
pub proof fn lemma_activate_makes_active(s: MultiWorkspaceView, w: EntityId, enabled: bool)
    requires
        s.wf(),
    ensures
        s.activate(w, enabled).0.wf(),
        s.activate(w, enabled).0.active_workspace() == w,
        enabled && s.distinct() ==> s.activate(w, enabled).0.distinct(),
{
    lemma_add_workspace_idempotent(s, w);
    if s.distinct() {
        lemma_add_workspace_keeps_distinct(s, w);
    }
}

/// With the feature enabled, toggling the sidebar twice restores the window.
pub proof fn lemma_toggle_sidebar_twice(s: MultiWorkspaceView)
    requires
        s.wf(),
    ensures
        s.toggle_sidebar(true).0.toggle_sidebar(true).0 == s,
        s.toggle_sidebar(true).0.sidebar_open == !s.sidebar_open,
{
}

/// Activating a workspace by position makes that position active and
/// changes nothing else.
pub proof fn lemma_activate_index_only_moves_focus(s: MultiWorkspaceView, index: int)
    requires
        s.wf(),
        0 <= index < s.workspaces.len(),
    ensures
        s.activate_index(index).0.wf(),
        s.activate_index(index).0.active_workspace() == s.workspaces[index],
        s.activate_index(index).0.workspaces == s.workspaces,
        s.activate_index(index).0.sidebar_open == s.sidebar_open,
{
}

/// After a sidebar is registered, the events of the one it replaced change
/// nothing and cause no effect; its own events act as the sidebar's
/// controls: `Open` toggles the sidebar, `Close` closes it whether or not the
/// feature is enabled.
pub proof fn lemma_only_registered_sidebar_is_heard(
    s: MultiWorkspaceView,
    replaced: EntityId,
    current: EntityId,
    event: SidebarEvent,
    enabled: bool,
)
    requires
        s.wf(),
        replaced != current,
    ensures
        s.with_sidebar(current).on_sidebar_event(replaced, event, enabled) == (
            s.with_sidebar(current),
            Seq::<Effect>::empty(),
        ),
        s.with_sidebar(current).on_sidebar_event(current, SidebarEvent::Open, enabled)
            == s.with_sidebar(current).toggle_sidebar(enabled),
        s.with_sidebar(current).on_sidebar_event(current, SidebarEvent::Close, enabled)
            == s.with_sidebar(current).close_sidebar(),
{
}

} // verus!
