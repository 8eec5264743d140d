//! Arranging the view panels of the dashboard to follow its view list.
//!
//! Going through the view list slot by slot, a panel already showing the
//! slot's view is reused (copied into the slot's position when it stands
//! elsewhere), and a new panel is made for a view without one.  Panels that
//! were not reused are then loaded.
use vstd::prelude::*;
use crate::components::dashboard_view_panel::DashboardViewPanel;
use crate::linear::types::CustomView;

verus! {

/// Where the panel placed at a position comes from.
#[derive(PartialEq, Eq, Structural, Clone, Copy, Debug)]
pub enum PanelSource {
    /// A copy of the panel now at this position.
    CopyOf(usize),
    /// A new panel for the view of this slot.
    NewFor(usize),
}

/// One change to the panel list, applied in order.
#[derive(PartialEq, Eq, Structural, Clone, Copy, Debug)]
pub enum PanelOp {
    /// Put a panel in place of the one at the position.
    Replace(usize, PanelSource),
    /// Insert a panel at the position.
    Insert(usize, PanelSource),
}

/// The changes to make, the positions whose panel was reused, and the
/// positions whose panel must be loaded once the changes are made.
pub struct PanelPlan {
    pub ops: Vec<PanelOp>,
    pub reused: Vec<usize>,
    pub to_load: Vec<usize>,
}

/// The first position of `id` in `ids`.
pub open spec fn first_position(ids: Seq<Seq<char>>, id: Seq<char>) -> Option<int>
    decreases ids.len(),
{
    if ids.len() == 0 {
        None
    } else {
        match first_position(ids.drop_last(), id) {
            Some(j) => Some(j),
            None => if ids.last() == id { Some(ids.len() - 1) } else { None },
        }
    }
}

/// The panel list (as view ids), the changes and the reused positions after
/// the first `i` slots of the view list.
pub open spec fn plan_state(views: Seq<Option<Seq<char>>>, panels: Seq<Seq<char>>, i: int) -> (Seq<Seq<char>>, Seq<PanelOp>, Seq<usize>)
    decreases i,
{
    if i <= 0 {
        (panels, Seq::empty(), Seq::empty())
    } else {
        let (ids, ops, reused) = plan_state(views, panels, i - 1);
        let k = i - 1;
        match views[k] {
            Some(v) => match first_position(ids, v) {
                Some(j) => if k != j {
                    if k < ids.len() {
                        (ids.update(k, ids[j]), ops.push(PanelOp::Replace(k as usize, PanelSource::CopyOf(j as usize))), reused.push(k as usize))
                    } else {
                        (ids.insert(k, ids[j]), ops.push(PanelOp::Insert(k as usize, PanelSource::CopyOf(j as usize))), reused.push(k as usize))
                    }
                } else {
                    (ids, ops, reused.push(k as usize))
                },
                None => if k < ids.len() {
                    (ids.update(k, v), ops.push(PanelOp::Replace(k as usize, PanelSource::NewFor(k as usize))), reused)
                } else {
                    (ids.insert(k, v), ops.push(PanelOp::Insert(k as usize, PanelSource::NewFor(k as usize))), reused)
                },
            },
            None => (ids, ops, reused),
        }
    }
}

/// Every insertion lands within the list (at most one past its end).
pub open spec fn plan_fits(views: Seq<Option<Seq<char>>>, panels: Seq<Seq<char>>) -> bool {
    forall|k: int| 0 <= k < views.len() ==> #[trigger] views[k] is Some ==> k <= plan_state(views, panels, k).0.len()
}

/// The positions below `n` that are not in `reused`, in order.
pub open spec fn unreused(reused: Seq<usize>, n: int) -> Seq<usize>
    decreases n,
{
    if n <= 0 {
        Seq::empty()
    } else if reused.contains((n - 1) as usize) {
        unreused(reused, n - 1)
    } else {
        unreused(reused, n - 1).push((n - 1) as usize)
    }
}

pub open spec fn opt_ids(views: Seq<Option<String>>) -> Seq<Option<Seq<char>>> {
    views.map_values(|o: Option<String>| match o {
        Some(s) => Some(s@),
        None => None,
    })
}

pub open spec fn ids(panels: Seq<String>) -> Seq<Seq<char>> {
    panels.map_values(|s: String| s@)
}

/// The first position of `id` among `ids_v`, as `first_position` gives it.
pub fn position_of_view(ids_v: &Vec<String>, id: &String) -> (r: Option<usize>)
    ensures
        r matches Some(j) ==> j < ids_v@.len() && first_position(ids(ids_v@), id@) == Some(j as int),
        r is None ==> first_position(ids(ids_v@), id@) is None,
{
    let ghost s = ids(ids_v@);
    let mut j: usize = 0;
    while j < ids_v.len()
        invariant
            s == ids(ids_v@),
            j <= ids_v@.len(),
            first_position(s.take(j as int), id@) is None,
        decreases ids_v@.len() - j,
    {
        assert(s.take(j + 1).drop_last() =~= s.take(j as int));
        assert(s.take(j + 1).last() == ids_v@[j as int]@);
        if ids_v[j] == *id {
            proof {
                lemma_first_position_prefix(s, id@, j + 1);
            }
            return Some(j);
        }
        j = j + 1;
    }
    assert(s.take(j as int) =~= s);
    None
}

proof fn lemma_first_position_prefix(s: Seq<Seq<char>>, id: Seq<char>, n: int)
    requires
        0 < n <= s.len(),
        first_position(s.take(n), id) == Some(n - 1),
    ensures
        first_position(s, id) == Some(n - 1),
    decreases s.len() - n,
{
    if n < s.len() {
        assert(s.take(n) =~= s.drop_last().take(n));
        lemma_first_position_prefix(s.drop_last(), id, n);
        assert(first_position(s.drop_last(), id) == Some(n - 1));
    } else {
        assert(s.take(n) =~= s);
    }
}

/// Works out how the panel list (given by the ids of the views its panels
/// show) changes to follow the view list (given by the ids of the views in
/// its slots).  There is no plan when a slot holding a view lies past the
/// end of the panel list as it stands when that slot is reached.
pub fn plan_dashboard_panels(views: &Vec<Option<String>>, panels: &Vec<String>) -> (r: Option<PanelPlan>)
    ensures
        r is Some <==> plan_fits(opt_ids(views@), ids(panels@)),
        r matches Some(plan) ==> {
            &&& plan.ops@ == plan_state(opt_ids(views@), ids(panels@), views@.len() as int).1
            &&& plan.reused@ == plan_state(opt_ids(views@), ids(panels@), views@.len() as int).2
            &&& plan.to_load@ == unreused(plan.reused@, plan_state(opt_ids(views@), ids(panels@), views@.len() as int).0.len() as int)
            &&& forall|m: int| 0 <= m <= views@.len() ==> #[trigger] plan_state(opt_ids(views@), ids(panels@), m).0.len() <= usize::MAX
        },
{
    let ghost vs = opt_ids(views@);
    let ghost ps = ids(panels@);
    let mut cur: Vec<String> = Vec::new();
    let mut k: usize = 0;
    while k < panels.len()
        invariant
            k <= panels@.len(),
            ps == ids(panels@),
            cur@ == panels@.take(k as int),
        decreases panels@.len() - k,
    {
        cur.push(panels[k].clone());
        assert(cur@ =~= panels@.take(k + 1));
        k = k + 1;
    }
    assert(cur@ =~= panels@);
    let mut ops: Vec<PanelOp> = Vec::new();
    let mut reused: Vec<usize> = Vec::new();
    let mut i: usize = 0;
    while i < views.len()
        invariant
            i <= views@.len(),
            vs == opt_ids(views@),
            ps == ids(panels@),
            forall|k: int| 0 <= k < i && #[trigger] vs[k] is Some ==> k <= plan_state(vs, ps, k).0.len(),
            (ids(cur@), ops@, reused@) == plan_state(vs, ps, i as int),
            forall|m: int| 0 <= m <= i ==> #[trigger] plan_state(vs, ps, m).0.len() <= usize::MAX,
        decreases views@.len() - i,
    {
        let ghost prev = ids(cur@);
        assert(vs[i as int] is Some <==> views@[i as int] is Some);
        match &views[i] {
            Some(v) => {
                assert(vs[i as int] == Some(v@));
                if i > cur.len() {
                    assert(!plan_fits(vs, ps));
                    return None;
                }
                match position_of_view(&cur, v) {
                    Some(j) => {
                        if i != j {
                            let dup = cur[j].clone();
                            if i < cur.len() {
                                cur.set(i, dup);
                                ops.push(PanelOp::Replace(i, PanelSource::CopyOf(j)));
                                assert(ids(cur@) =~= prev.update(i as int, prev[j as int]));
                            } else {
                                cur.insert(i, dup);
                                ops.push(PanelOp::Insert(i, PanelSource::CopyOf(j)));
                                assert(ids(cur@) =~= prev.insert(i as int, prev[j as int]));
                            }
                        }
                        reused.push(i);
                    },
                    None => {
                        let fresh = v.clone();
                        if i < cur.len() {
                            cur.set(i, fresh);
                            ops.push(PanelOp::Replace(i, PanelSource::NewFor(i)));
                            assert(ids(cur@) =~= prev.update(i as int, v@));
                        } else {
                            cur.insert(i, fresh);
                            ops.push(PanelOp::Insert(i, PanelSource::NewFor(i)));
                            assert(ids(cur@) =~= prev.insert(i as int, v@));
                        }
                    },
                }
            },
            None => {},
        }
        i = i + 1;
    }
    let n = cur.len();
    let mut to_load: Vec<usize> = Vec::new();
    let mut m: usize = 0;
    while m < n
        invariant
            m <= n,
            to_load@ == unreused(reused@, m as int),
        decreases n - m,
    {
        let mut found = false;
        let mut q: usize = 0;
        while q < reused.len()
            invariant
                q <= reused@.len(),
                found == (exists|t: int| 0 <= t < q && reused@[t] == m),
            decreases reused@.len() - q,
        {
            if reused[q] == m {
                found = true;
            }
            q = q + 1;
        }
        if !found {
            to_load.push(m);
        }
        m = m + 1;
    }
    Some(PanelPlan { ops, reused, to_load })
}

/// `b` is a copy of panel `a`: the same view, issues, cursor and loading
/// flag.
pub open spec fn copied_panel<V: Clone>(a: DashboardViewPanel<V>, b: DashboardViewPanel<V>) -> bool {
    &&& cloned(a.view, b.view)
    &&& b.issues@.len() == a.issues@.len()
    &&& forall|i: int| 0 <= i < a.issues@.len() ==> cloned(a.issues@[i], #[trigger] b.issues@[i])
    &&& b.cursor == a.cursor
    &&& b.loading == a.loading
}

/// `b` is a new panel for the view `v`: no issues, no cursor, not loading.
pub open spec fn new_panel_for<V: Clone>(v: V, b: DashboardViewPanel<V>) -> bool {
    &&& cloned(v, b.view)
    &&& b.issues@.len() == 0
    &&& b.cursor is None
    &&& !b.loading
}

/// `p` is what `source` stands for in the panel list `panels`.
pub open spec fn from_source<V: Clone>(panels: Seq<DashboardViewPanel<V>>, views: Seq<Option<V>>, source: PanelSource, p: DashboardViewPanel<V>) -> bool {
    match source {
        PanelSource::CopyOf(j) => j < panels.len() && copied_panel(panels[j as int], p),
        PanelSource::NewFor(k) => k < views.len() && (views[k as int] matches Some(v) && new_panel_for(v, p)),
    }
}

/// Whether `source` names a panel of the list or a slot holding a view.
pub open spec fn source_exists<V>(len: int, views: Seq<Option<V>>, source: PanelSource) -> bool {
    match source {
        PanelSource::CopyOf(j) => j < len,
        PanelSource::NewFor(k) => k < views.len() && views[k as int] is Some,
    }
}

/// Whether `op` can be made to a list of `len` panels.
pub open spec fn op_applicable<V>(len: int, views: Seq<Option<V>>, op: PanelOp) -> bool {
    match op {
        PanelOp::Replace(k, source) => k < len && source_exists(len, views, source),
        PanelOp::Insert(k, source) => k <= len && source_exists(len, views, source),
    }
}

/// `new` is `old` with `op` made, or `old` itself where `op` cannot be made.
pub open spec fn op_step<V: Clone>(old: Seq<DashboardViewPanel<V>>, views: Seq<Option<V>>, op: PanelOp, new: Seq<DashboardViewPanel<V>>) -> bool {
    if !op_applicable(old.len() as int, views, op) {
        new == old
    } else {
        match op {
            PanelOp::Replace(k, source) => new == old.update(k as int, new[k as int]) && from_source(old, views, source, new[k as int]),
            PanelOp::Insert(k, source) => new == old.insert(k as int, new[k as int]) && from_source(old, views, source, new[k as int]),
        }
    }
}

fn copy_panel<V: Clone>(p: &DashboardViewPanel<V>) -> (r: DashboardViewPanel<V>)
    ensures
        copied_panel(*p, r),
{
    let cursor = match &p.cursor {
        Some(c) => Some(c.duplicate()),
        None => None,
    };
    DashboardViewPanel { view: p.view.clone(), issues: p.issues.clone(), cursor, loading: p.loading }
}

fn panel_from<V: Clone>(panels: &Vec<DashboardViewPanel<V>>, views: &Vec<Option<V>>, source: PanelSource) -> (r: DashboardViewPanel<V>)
    requires
        source_exists(panels@.len() as int, views@, source),
    ensures
        from_source(panels@, views@, source, r),
{
    match source {
        PanelSource::CopyOf(j) => copy_panel(&panels[j]),
        PanelSource::NewFor(k) => match &views[k] {
            Some(v) => DashboardViewPanel::with_filter(v.clone()),
            None => {
                assert(false);
                copy_panel(&panels[0])
            },
        },
    }
}

fn source_available<V>(len: usize, views: &Vec<Option<V>>, source: PanelSource) -> (r: bool)
    ensures
        r == source_exists(len as int, views@, source),
{
    match source {
        PanelSource::CopyOf(j) => j < len,
        PanelSource::NewFor(k) => k < views.len() && views[k].is_some(),
    }
}

/// Makes the changes `ops` to the panel list in order, with new panels made
/// for the views of the view list; a change that names a position or a
/// view that is not there is passed over.
pub fn apply_panel_plan<V: Clone>(panels: &mut Vec<DashboardViewPanel<V>>, views: &Vec<Option<V>>, ops: &Vec<PanelOp>)
    ensures
        exists|mids: Seq<Seq<DashboardViewPanel<V>>>| {
            &&& mids.len() == ops@.len() + 1
            &&& mids[0] == old(panels)@
            &&& mids[ops@.len() as int] == final(panels)@
            &&& forall|i: int| 0 <= i < ops@.len() ==> #[trigger] op_step(mids[i], views@, ops@[i], mids[i + 1])
        },
{
    let ghost mut mids: Seq<Seq<DashboardViewPanel<V>>> = seq![panels@];
    let mut i: usize = 0;
    while i < ops.len()
        invariant
            i <= ops@.len(),
            mids.len() == i + 1,
            mids[0] == old(panels)@,
            mids[i as int] == panels@,
            forall|t: int| 0 <= t < i ==> #[trigger] op_step(mids[t], views@, ops@[t], mids[t + 1]),
        decreases ops@.len() - i,
    {
        let ghost before = panels@;
        match ops[i] {
            PanelOp::Replace(k, source) => {
                if k < panels.len() && source_available(panels.len(), views, source) {
                    let p = panel_from(panels, views, source);
                    panels.set(k, p);
                }
            },
            PanelOp::Insert(k, source) => {
                if k <= panels.len() && source_available(panels.len(), views, source) {
                    let p = panel_from(panels, views, source);
                    panels.insert(k, p);
                }
            },
        }
        proof {
            mids = mids.push(panels@);
            assert(op_step(before, views@, ops@[i as int], panels@));
        }
        i = i + 1;
    }
}

proof fn lemma_first_position_found(ids: Seq<Seq<char>>, id: Seq<char>)
    ensures
        first_position(ids, id) matches Some(j) ==> 0 <= j < ids.len() && ids[j] == id,
    decreases ids.len(),
{
    if ids.len() > 0 {
        lemma_first_position_found(ids.drop_last(), id);
    }
}

proof fn lemma_plan_prefix(views: Seq<Option<Seq<char>>>, panels: Seq<Seq<char>>, i: int)
    requires
        0 <= i <= views.len(),
        plan_fits(views, panels),
    ensures
        forall|k: int| 0 <= k < i && #[trigger] views[k] is Some ==> k < plan_state(views, panels, i).0.len()
            && plan_state(views, panels, i).0[k] == views[k]->0,
    decreases i,
{
    if i > 0 {
        lemma_plan_prefix(views, panels, i - 1);
        let ids = plan_state(views, panels, i - 1).0;
        let k = i - 1;
        if let Some(v) = views[k] {
            lemma_first_position_found(ids, v);
            assert(k <= ids.len());
        }
        assert forall|t: int| 0 <= t < i && #[trigger] views[t] is Some implies t < plan_state(views, panels, i).0.len()
            && plan_state(views, panels, i).0[t] == views[t]->0 by {
            if t < k {
                assert(t < ids.len() && ids[t] == views[t]->0);
            }
        }
    }
}

/// Following the view list, the panel list ends up with, at the position of
/// every slot that holds a view, a panel showing that view.
pub proof fn lemma_plan_places_views(views: Seq<Option<Seq<char>>>, panels: Seq<Seq<char>>)
    requires
        plan_fits(views, panels),
    ensures
        forall|k: int| 0 <= k < views.len() && #[trigger] views[k] is Some ==> k < plan_state(views, panels, views.len() as int).0.len()
            && plan_state(views, panels, views.len() as int).0[k] == views[k]->0,
{
    lemma_plan_prefix(views, panels, views.len() as int);
}

proof fn lemma_plan_len_prefix(views: Seq<Option<Seq<char>>>, panels: Seq<Seq<char>>, i: int)
    requires
        0 <= i <= views.len(),
        forall|j: int| 0 <= j < i ==> #[trigger] views[j] is Some,
    ensures
        plan_state(views, panels, i).0.len() >= i,
    decreases i,
{
    if i > 0 {
        lemma_plan_len_prefix(views, panels, i - 1);
        let ids = plan_state(views, panels, i - 1).0;
        let k = i - 1;
        assert(views[k] is Some);
        lemma_first_position_found(ids, views[k]->0);
    }
}

/// A view list whose views all come before its empty slots, as compacting
/// leaves it, can always be followed: no slot holding a view lies past the
/// panel list when it is reached.
pub proof fn lemma_compacted_lists_fit(views: Seq<Option<Seq<char>>>, panels: Seq<Seq<char>>)
    requires
        forall|i: int, j: int| 0 <= i < j < views.len() && (#[trigger] views[i]) is None ==> (#[trigger] views[j]) is None,
    ensures
        plan_fits(views, panels),
{
    assert forall|k: int| 0 <= k < views.len() && #[trigger] views[k] is Some implies k <= plan_state(views, panels, k).0.len() by {
        assert forall|j: int| 0 <= j < k implies #[trigger] views[j] is Some by {
            if views[j] is None {
                assert(views[k] is None);
            }
        }
        lemma_plan_len_prefix(views, panels, k);
    }
}

/// The ids of the views of the slots of a view list.
pub open spec fn slot_view_ids(views: Seq<Option<CustomView>>) -> Seq<Option<Seq<char>>> {
    views.map_values(|o: Option<CustomView>| match o {
        Some(v) => Some(v.id@),
        None => None,
    })
}

/// The ids of the views that the panels show.
pub open spec fn panel_view_ids(panels: Seq<DashboardViewPanel<CustomView>>) -> Seq<Seq<char>> {
    panels.map_values(|p: DashboardViewPanel<CustomView>| p.view.id@)
}

proof fn lemma_plan_ops_grow(views: Seq<Option<Seq<char>>>, panels: Seq<Seq<char>>, i: int, n: int)
    requires
        0 <= i <= n,
    ensures
        plan_state(views, panels, i).1.len() <= plan_state(views, panels, n).1.len(),
        plan_state(views, panels, n).1.take(plan_state(views, panels, i).1.len() as int) == plan_state(views, panels, i).1,
    decreases n - i,
{
    if i < n {
        lemma_plan_ops_grow(views, panels, i, n - 1);
        let a = plan_state(views, panels, i).1;
        let b = plan_state(views, panels, n - 1).1;
        let c = plan_state(views, panels, n).1;
        assert(c.len() >= b.len());
        assert(c.take(b.len() as int) =~= b);
        assert(c.take(a.len() as int) =~= b.take(a.len() as int));
    } else {
        let a = plan_state(views, panels, i).1;
        assert(a.take(a.len() as int) =~= a);
    }
}

/// Along the changes planned for the first `i` slots, the panels (made
/// step by step as `mids` records) show the views that the plan's id list
/// names.
proof fn lemma_panels_follow_plan(
    views: Seq<Option<CustomView>>,
    before: Seq<DashboardViewPanel<CustomView>>,
    mids: Seq<Seq<DashboardViewPanel<CustomView>>>,
    i: int,
)
    requires
        0 <= i <= views.len(),
        plan_fits(slot_view_ids(views), panel_view_ids(before)),
        mids.len() == plan_state(slot_view_ids(views), panel_view_ids(before), views.len() as int).1.len() + 1,
        views.len() <= usize::MAX,
        forall|m: int| 0 <= m <= views.len() ==> #[trigger] plan_state(slot_view_ids(views), panel_view_ids(before), m).0.len() <= usize::MAX,
        mids[0] == before,
        forall|t: int| 0 <= t < mids.len() - 1 ==> #[trigger] op_step(mids[t], views,
            plan_state(slot_view_ids(views), panel_view_ids(before), views.len() as int).1[t], mids[t + 1]),
    ensures
        panel_view_ids(mids[plan_state(slot_view_ids(views), panel_view_ids(before), i).1.len() as int])
            == plan_state(slot_view_ids(views), panel_view_ids(before), i).0,
    decreases i,
{
    let vs = slot_view_ids(views);
    let ps = panel_view_ids(before);
    let n = views.len() as int;
    lemma_plan_ops_grow(vs, ps, i, n);
    if i == 0 {
        assert(panel_view_ids(before) == ps);
    } else {
        lemma_panels_follow_plan(views, before, mids, i - 1);
        lemma_plan_ops_grow(vs, ps, i - 1, n);
        let (ids, ops, reused) = plan_state(vs, ps, i - 1);
        let t = ops.len() as int;
        let k = i - 1;
        let full = plan_state(vs, ps, n).1;
        let cur = mids[t];
        assert(panel_view_ids(cur) == ids);
        assert(cur.len() == ids.len());
        assert(plan_state(vs, ps, k).0.len() <= usize::MAX);
        match views[k] {
            Some(v) => {
                assert(vs[k] == Some(v.id@));
                lemma_first_position_found(ids, v.id@);
                assert(k <= plan_state(vs, ps, k).0.len());
                match first_position(ids, v.id@) {
                    Some(j) => {
                        if k != j {
                            assert(plan_state(vs, ps, i).1 == ops.push(full[t]));
                            if k < ids.len() {
                                assert(plan_state(vs, ps, i).1 == ops.push(PanelOp::Replace(k as usize, PanelSource::CopyOf(j as usize))));
                                assert(plan_state(vs, ps, i).1[t] == PanelOp::Replace(k as usize, PanelSource::CopyOf(j as usize)));
                                assert(full[t] == PanelOp::Replace(k as usize, PanelSource::CopyOf(j as usize)));
                            } else {
                                assert(full[t] == PanelOp::Insert(k as usize, PanelSource::CopyOf(j as usize)));
                            }
                            assert(full[t] == plan_state(vs, ps, i).1[t]);
                            let next = mids[t + 1];
                            assert(op_step(cur, views, full[t], next));
                            assert(cloned(cur[j].view, next[k].view));
                            assert(next[k].view == cur[j].view);
                            if k < ids.len() {
                                assert(panel_view_ids(next) =~= ids.update(k, ids[j]));
                            } else {
                                assert(panel_view_ids(next) =~= ids.insert(k, ids[j]));
                            }
                        }
                    },
                    None => {
                        assert(plan_state(vs, ps, i).1 == ops.push(full[t]));
                        assert(full[t] == plan_state(vs, ps, i).1[t]);
                        let next = mids[t + 1];
                        assert(op_step(cur, views, full[t], next));
                        assert(cloned(v, next[k].view));
                        assert(next[k].view == v);
                        if k < ids.len() {
                            assert(panel_view_ids(next) =~= ids.update(k, v.id@));
                        } else {
                            assert(panel_view_ids(next) =~= ids.insert(k, v.id@));
                        }
                    },
                }
            },
            None => {
                assert(vs[k] is None);
            },
        }
    }
}

/// Makes the panel list follow the view list (see `plan_dashboard_panels`
/// and `apply_panel_plan`) and gives the positions whose panels must be
/// loaded.  `None`, with the panels unchanged, where a slot holding a view
/// lies past the end of the panel list when that slot is reached.  Then at
/// the position of every slot holding a view stands a panel showing a view
/// with that slot's id.
pub fn follow_view_list(panels: &mut Vec<DashboardViewPanel<CustomView>>, views: &Vec<Option<CustomView>>) -> (r: Option<Vec<usize>>)
    ensures
        r is None <==> !plan_fits(slot_view_ids(views@), panel_view_ids(old(panels)@)),
        r is None ==> final(panels)@ == old(panels)@,
        (forall|i: int, j: int| 0 <= i < j < views@.len() && (#[trigger] views@[i]) is None ==> (#[trigger] views@[j]) is None)
            ==> r is Some,
        r matches Some(to_load) ==> {
            let (ids, ops, reused) = plan_state(slot_view_ids(views@), panel_view_ids(old(panels)@), views@.len() as int);
            &&& panel_view_ids(final(panels)@) == ids
            &&& to_load@ == unreused(reused, ids.len() as int)
            &&& forall|k: int| 0 <= k < views@.len() && #[trigger] views@[k] is Some ==> k < final(panels)@.len()
                && final(panels)@[k].view.id@ == views@[k]->0.id@
        },
{
    let mut slot_ids: Vec<Option<String>> = Vec::new();
    let mut k: usize = 0;
    while k < views.len()
        invariant
            k <= views@.len(),
            slot_ids@.len() == k,
            forall|t: int| 0 <= t < k ==> (#[trigger] slot_ids@[t]) == match views@[t] {
                Some(v) => Some(v.id),
                None => None::<String>,
            },
        decreases views@.len() - k,
    {
        let id = match &views[k] {
            Some(v) => Some(v.id.clone()),
            None => None,
        };
        slot_ids.push(id);
        k = k + 1;
    }
    assert(opt_ids(slot_ids@) =~= slot_view_ids(views@));
    let mut panel_ids: Vec<String> = Vec::new();
    let mut k: usize = 0;
    while k < panels.len()
        invariant
            k <= panels@.len(),
            panel_ids@.len() == k,
            forall|t: int| 0 <= t < k ==> (#[trigger] panel_ids@[t]) == panels@[t].view.id,
        decreases panels@.len() - k,
    {
        panel_ids.push(panels[k].view.id.clone());
        k = k + 1;
    }
    assert(ids(panel_ids@) =~= panel_view_ids(panels@));
    proof {
        let vs = slot_view_ids(views@);
        if forall|i: int, j: int| 0 <= i < j < views@.len() && (#[trigger] views@[i]) is None ==> (#[trigger] views@[j]) is None {
            assert forall|i: int, j: int| 0 <= i < j < vs.len() && (#[trigger] vs[i]) is None implies (#[trigger] vs[j]) is None by {
                assert(views@[i] is None);
            }
            lemma_compacted_lists_fit(vs, panel_view_ids(panels@));
        }
    }
    let plan = match plan_dashboard_panels(&slot_ids, &panel_ids) {
        Some(p) => p,
        None => return None,
    };
    let ghost before = panels@;
    apply_panel_plan(panels, views, &plan.ops);
    proof {
        let vs = slot_view_ids(views@);
        let ps = panel_view_ids(before);
        let mids = choose|mids: Seq<Seq<DashboardViewPanel<CustomView>>>| {
            &&& mids.len() == plan.ops@.len() + 1
            &&& mids[0] == before
            &&& mids[plan.ops@.len() as int] == panels@
            &&& forall|i: int| 0 <= i < plan.ops@.len() ==> #[trigger] op_step(mids[i], views@, plan.ops@[i], mids[i + 1])
        };
        lemma_panels_follow_plan(views@, before, mids, views@.len() as int);
        lemma_plan_places_views(vs, ps);
        let fin = plan_state(vs, ps, views@.len() as int).0;
        assert forall|k: int| 0 <= k < views@.len() && #[trigger] views@[k] is Some implies k < panels@.len()
            && panels@[k].view.id@ == views@[k]->0.id@ by {
            assert(vs[k] == Some(views@[k]->0.id@));
            assert(panel_view_ids(panels@)[k] == panels@[k].view.id@);
        }
    }
    Some(plan.to_load)
}

/// The panels without the first one that shows the view with id `id`.
pub open spec fn panels_without_view(panels: Seq<DashboardViewPanel<CustomView>>, id: Seq<char>) -> Seq<DashboardViewPanel<CustomView>> {
    match first_position(panel_view_ids(panels), id) {
        Some(p) => panels.remove(p),
        None => panels,
    }
}

pub(crate) fn panel_ids_of(panels: &Vec<DashboardViewPanel<CustomView>>) -> (r: Vec<String>)
    ensures
        ids(r@) == panel_view_ids(panels@),
{
    let mut r: Vec<String> = Vec::new();
    let mut k: usize = 0;
    while k < panels.len()
        invariant
            k <= panels@.len(),
            r@.len() == k,
            forall|t: int| 0 <= t < k ==> (#[trigger] r@[t]) == panels@[t].view.id,
        decreases panels@.len() - k,
    {
        r.push(panels[k].view.id.clone());
        k = k + 1;
    }
    assert(ids(r@) =~= panel_view_ids(panels@));
    r
}

} // verus!
