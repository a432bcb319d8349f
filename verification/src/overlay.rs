//! The bookkeeping of break surfaces: the labels of their windows, the surfaces requested and
//! the windows that veils must stay above.
use crate::ports::{DisplayId, SurfaceId, SurfaceKind, WindowId};
use crate::text::{decimal, push_decimal};
use std::collections::HashMap;
use vstd::std_specs::hash::spec_hash_map_iter;
use vstd::std_specs::iter::IteratorSpec;
use vstd::prelude::*;

verus! {

/// The query value that tells the surface page what to draw.
pub open spec fn kind_text(kind: SurfaceKind) -> Seq<char> {
    match kind {
        SurfaceKind::Hardcore => "hardcore"@,
        SurfaceKind::Veil => "veil"@,
    }
}

/// `overlay-<display>-<surface>`: the label of a full-screen surface.
pub open spec fn display_label_text(display: u32, surface: u64) -> Seq<char> {
    "overlay-"@ + decimal(display as nat) + "-"@ + decimal(surface as nat)
}

/// `overlay-w<window>-<surface>`: the label of a window veil, under the same `overlay-`
/// prefix as every break surface.
pub open spec fn window_label_text(window: u32, surface: u64) -> Seq<char> {
    "overlay-w"@ + decimal(window as nat) + "-"@ + decimal(surface as nat)
}

/// Every break surface's label, full-screen or window veil, starts with `overlay-`: the IPC
/// capability of break surfaces, granted by that prefix, covers them all.
pub proof fn every_surface_label_is_under_the_overlay_prefix(display: u32, window: u32, surface: u64)
    ensures
        display_label_text(display, surface).take(8) == "overlay-"@,
        window_label_text(window, surface).take(8) == "overlay-"@,
{
    reveal_strlit("overlay-");
    reveal_strlit("overlay-w");
    assert(display_label_text(display, surface).take(8) =~= "overlay-"@);
    assert(window_label_text(window, surface).take(8) =~= "overlay-"@);
}

/// The query value of a surface kind.
pub fn kind_query(kind: SurfaceKind) -> (query: &'static str)
    ensures
        query@ == kind_text(kind),
{
    match kind {
        SurfaceKind::Hardcore => "hardcore",
        SurfaceKind::Veil => "veil",
    }
}

/// The label of the full-screen surface `surface` on screen `display`.
pub fn label_for(display: DisplayId, surface: SurfaceId) -> (label: String)
    ensures
        label@ == display_label_text(display.0, surface.0),
{
    let mut label = String::from_str("overlay-");
    push_decimal(&mut label, display.0 as u64);
    label.append("-");
    push_decimal(&mut label, surface.0);
    label
}

/// The label of the veil `surface` over window `window`.
pub fn window_label_for(window: WindowId, surface: SurfaceId) -> (label: String)
    ensures
        label@ == window_label_text(window.0, surface.0),
{
    let mut label = String::from_str("overlay-w");
    push_decimal(&mut label, window.0 as u64);
    label.append("-");
    push_decimal(&mut label, surface.0);
    label
}

/// A requested surface: its window label, and for a window veil the window it covers.
pub struct Requested {
    pub label: String,
    pub above: Option<WindowId>,
}

/// A held surface as the contracts see it: its window label and the window it covers.
pub type Held = (Seq<char>, Option<WindowId>);

/// The surfaces requested and not dismissed, by identifier.
pub struct SurfaceRegistry {
    next_surface: u64,
    requested: HashMap<u64, Requested>,
}

/// `ids` lists each identifier of `among` once, and nothing else: what a walk over the held
/// surfaces visits, in whatever order the map gives.
pub open spec fn lists_each_once(ids: Seq<u64>, among: Set<u64>) -> bool {
    &&& ids.no_duplicates()
    &&& ids.to_set() == among
}

impl SurfaceRegistry {
    /// The last identifier issued (0 before the first).
    pub closed spec fn last_issued(&self) -> nat {
        self.next_surface as nat
    }

    /// The surfaces held: each identifier with its label and covered window.
    pub closed spec fn held(&self) -> Map<u64, Held> {
        self.requested@.map_values(|r: Requested| (r.label@, r.above))
    }

    /// The identifiers of the held window veils.
    pub open spec fn veiled(&self) -> Set<u64> {
        self.held().dom().filter(|id: u64| self.held()[id].1 is Some)
    }

    /// Every held identifier was issued: it lies between the first and the last one issued.
    pub open spec fn wf(&self) -> bool {
        forall|id: u64| #[trigger] self.held().contains_key(id) ==> 1 <= id <= self.last_issued()
    }

    /// Whether another surface can be issued: identifiers are never reused, and the last
    /// one is the top of `u64`.
    pub fn can_issue(&self) -> (can: bool)
        ensures
            can == (self.last_issued() < u64::MAX),
    {
        self.next_surface < u64::MAX
    }

    /// No surface requested yet.
    pub fn new() -> (registry: SurfaceRegistry)
        ensures
            registry.wf(),
            registry.last_issued() == 0,
            registry.held() == Map::<u64, Held>::empty(),
    {
        let registry = SurfaceRegistry { next_surface: 0, requested: HashMap::new() };
        assert(registry.held() =~= Map::<u64, Held>::empty());
        registry
    }

    fn issue(&mut self, above: Option<WindowId>, display: DisplayId) -> (issued: (SurfaceId, String))
        requires
            old(self).wf(),
            old(self).last_issued() < u64::MAX,
        ensures
            final(self).wf(),
            issued.0.0 == old(self).last_issued() + 1,
            final(self).last_issued() == issued.0.0,
            !old(self).held().contains_key(issued.0.0),
            issued.1@ == (match above {
                Some(window) => window_label_text(window.0, issued.0.0),
                None => display_label_text(display.0, issued.0.0),
            }),
            final(self).held() == old(self).held().insert(issued.0.0, (issued.1@, above)),
    {
        self.next_surface = self.next_surface + 1;
        let surface = SurfaceId(self.next_surface);
        let label = match above {
            Some(window) => window_label_for(window, surface),
            None => label_for(display, surface),
        };
        let kept = label.clone();
        self.requested.insert(surface.0, Requested { label: kept, above });
        proof {
            assert(self.held() =~= old(self).held().insert(surface.0, (label@, above)));
        }
        (surface, label)
    }

    /// Records a full-screen surface on `display`; gives its identifier and window label.
    pub fn issue_display(&mut self, display: DisplayId) -> (issued: (SurfaceId, String))
        requires
            old(self).wf(),
            old(self).last_issued() < u64::MAX,
        ensures
            final(self).wf(),
            issued.0.0 == old(self).last_issued() + 1,
            final(self).last_issued() == issued.0.0,
            !old(self).held().contains_key(issued.0.0),
            issued.1@ == display_label_text(display.0, issued.0.0),
            final(self).held() == old(self).held().insert(issued.0.0, (issued.1@, None)),
    {
        self.issue(None, display)
    }

    /// Records a veil over `window`; gives its identifier and window label.
    pub fn issue_window(&mut self, window: WindowId) -> (issued: (SurfaceId, String))
        requires
            old(self).wf(),
            old(self).last_issued() < u64::MAX,
        ensures
            final(self).wf(),
            issued.0.0 == old(self).last_issued() + 1,
            final(self).last_issued() == issued.0.0,
            !old(self).held().contains_key(issued.0.0),
            issued.1@ == window_label_text(window.0, issued.0.0),
            final(self).held() == old(self).held().insert(issued.0.0, (issued.1@, Some(window))),
    {
        self.issue(Some(window), DisplayId(0))
    }

    /// The window label of `surface`, if it is held.
    pub fn label_of(&self, surface: SurfaceId) -> (label: Option<String>)
        ensures
            match label {
                Some(l) => self.held().contains_key(surface.0) && self.held()[surface.0].0 == l@,
                None => !self.held().contains_key(surface.0),
            },
    {
        match self.requested.get(&surface.0) {
            Some(requested) => Some(requested.label.clone()),
            None => None,
        }
    }

    /// Forgets `surface`; gives its window label if it was held.
    pub fn dismiss(&mut self, surface: SurfaceId) -> (label: Option<String>)
        requires
            old(self).wf(),
        ensures
            final(self).wf(),
            final(self).last_issued() == old(self).last_issued(),
            final(self).held() == old(self).held().remove(surface.0),
            match label {
                Some(l) => old(self).held().contains_key(surface.0) && old(self).held()[surface.0].0 == l@,
                None => !old(self).held().contains_key(surface.0),
            },
    {
        let removed = self.requested.remove(&surface.0);
        proof {
            assert(self.held() =~= old(self).held().remove(surface.0));
        }
        match removed {
            Some(requested) => Some(requested.label),
            None => None,
        }
    }

    /// Forgets every surface; gives the window label of each, once, in the order the map
    /// walks them.
    pub fn dismiss_all(&mut self) -> (labels: Vec<String>)
        requires
            old(self).wf(),
        ensures
            final(self).wf(),
            final(self).last_issued() == old(self).last_issued(),
            final(self).held() == Map::<u64, Held>::empty(),
            exists|ids: Seq<u64>|
                {
                    &&& #[trigger] lists_each_once(ids, old(self).held().dom())
                    &&& ids.len() == labels@.len()
                    &&& forall|i: int|
                        0 <= i < ids.len() ==> labels@[i]@ == old(self).held()[#[trigger] ids[i]].0
                },
    {
        let ghost map = self.requested@;
        let mut labels: Vec<String> = Vec::new();
        let ghost mut ids: Seq<u64> = Seq::empty();
        let entries = self.requested.iter();
        let ghost walk = spec_hash_map_iter(&self.requested).remaining();
        assert(walk.no_duplicates());
        for (id, requested) in it: entries
            invariant
                self.requested@ == map,
                it.seq() == walk,
                labels@.len() == it.index(),
                ids.len() == it.index(),
                forall|i: int| 0 <= i < it.index() ==> ids[i] == *walk[i].0,
                forall|i: int| 0 <= i < it.index() ==> labels@[i]@ == (*walk[i].1).label@,
        {
            labels.push(requested.label.clone());
            proof {
                ids = ids.push(*id);
            }
        }
        assert(ids.len() == walk.len());
        self.requested.clear();
        proof {
            assert(self.held() =~= Map::<u64, Held>::empty());
            lemma_walk_keys(map, walk);
            let held = old(self).held();
            assert(held.dom() =~= map.dom());
            assert(ids.no_duplicates()) by {
                assert forall|i: int, j: int| 0 <= i < ids.len() && 0 <= j < ids.len() && i != j implies ids[i]
                    != ids[j] by {
                    if i < j {
                        assert(*walk[i].0 != *walk[j].0);
                    } else {
                        assert(*walk[j].0 != *walk[i].0);
                    }
                }
            }
            assert forall|k: u64| ids.to_set().contains(k) <==> held.dom().contains(k) by {
                if held.dom().contains(k) {
                    assert(map.contains_key(k));
                    let i = choose|i: int| 0 <= i < walk.len() && *walk[i].0 == k;
                    assert(ids[i] == k);
                    assert(ids.contains(k));
                }
                if ids.to_set().contains(k) {
                    let i = choose|i: int| 0 <= i < ids.len() && ids[i] == k;
                    assert(map.contains_key(*walk[i].0));
                }
            }
            assert(ids.to_set() =~= held.dom());
            assert forall|i: int| 0 <= i < ids.len() implies labels@[i]@ == held[#[trigger] ids[i]].0 by {
                assert(map.contains_key(*walk[i].0));
                assert(map[*walk[i].0] == *walk[i].1);
            }
            assert(lists_each_once(ids, held.dom()));
        }
        labels
    }

    /// The window veils held: each label with the window it covers, once, in the order the
    /// map walks them. Full-screen surfaces cover no window and have nothing to follow.
    pub fn window_veils(&self) -> (veils: Vec<(String, WindowId)>)
        ensures
            exists|ids: Seq<u64>|
                {
                    &&& #[trigger] lists_each_once(ids, self.veiled())
                    &&& ids.len() == veils@.len()
                    &&& forall|i: int|
                        0 <= i < ids.len() ==> veils@[i].0@ == self.held()[#[trigger] ids[i]].0
                            && self.held()[ids[i]].1 == Some(veils@[i].1)
                },
    {
        let mut veils: Vec<(String, WindowId)> = Vec::new();
        let ghost map = self.requested@;
        let ghost mut ids: Seq<u64> = Seq::empty();
        let ghost mut at: Seq<int> = Seq::empty();
        let entries = self.requested.iter();
        let ghost walk = spec_hash_map_iter(&self.requested).remaining();
        assert(walk.no_duplicates());
        for (id, requested) in it: entries
            invariant
                self.requested@ == map,
                it.seq() == walk,
                ids.len() == veils@.len(),
                at.len() == ids.len(),
                forall|j: int| 0 <= j < at.len() ==> 0 <= #[trigger] at[j] < it.index(),
                forall|j: int, l: int| 0 <= j < l < at.len() ==> at[j] < at[l],
                forall|j: int|
                    0 <= j < at.len() ==> ids[j] == *walk[#[trigger] at[j]].0 && veils@[j].0@
                        == (*walk[at[j]].1).label@ && (*walk[at[j]].1).above == Some(veils@[j].1),
                forall|i: int|
                    0 <= i < it.index() && (*walk[i].1).above is Some ==> exists|j: int|
                        0 <= j < at.len() && #[trigger] at[j] == i,
        {
            let ghost here = it.index();
            assert(*requested == *walk[here].1);
            let ghost before = at;
            match requested.above {
                Some(window) => {
                    veils.push((requested.label.clone(), window));
                    proof {
                        ids = ids.push(*id);
                        at = at.push(here as int);
                        assert(at[at.len() - 1] == here);
                    }
                },
                None => {},
            }
            proof {
                assert forall|i: int|
                    0 <= i < here + 1 && (*walk[i].1).above is Some implies exists|j: int|
                        0 <= j < at.len() && #[trigger] at[j] == i by {
                    if i < here {
                        let j = choose|j: int| 0 <= j < before.len() && #[trigger] before[j] == i;
                        assert(at[j] == i);
                    } else {
                        assert(at[at.len() - 1] == i);
                    }
                }
            }
        }
        assert(walk.len() == map.dom().len());
        proof {
            lemma_walk_keys(map, walk);
            let held = self.held();
            assert(ids.no_duplicates()) by {
                assert forall|j: int, l: int| 0 <= j < ids.len() && 0 <= l < ids.len() && j != l implies ids[j]
                    != ids[l] by {
                    if j < l {
                        assert(at[j] < at[l]);
                        assert(*walk[at[j]].0 != *walk[at[l]].0);
                    } else {
                        assert(at[l] < at[j]);
                        assert(*walk[at[l]].0 != *walk[at[j]].0);
                    }
                }
            }
            assert forall|k: u64| ids.to_set().contains(k) <==> self.veiled().contains(k) by {
                if self.veiled().contains(k) {
                    assert(map.contains_key(k));
                    let i = choose|i: int| 0 <= i < walk.len() && *walk[i].0 == k;
                    assert(map[*walk[i].0] == *walk[i].1);
                    let j = choose|j: int| 0 <= j < at.len() && #[trigger] at[j] == i;
                    assert(ids[j] == k);
                    assert(ids.contains(k));
                }
                if ids.to_set().contains(k) {
                    let j = choose|j: int| 0 <= j < ids.len() && ids[j] == k;
                    assert(map.contains_key(*walk[at[j]].0));
                    assert(map[*walk[at[j]].0] == *walk[at[j]].1);
                }
            }
            assert(ids.to_set() =~= self.veiled());
            assert forall|j: int| 0 <= j < ids.len() implies veils@[j].0@ == held[#[trigger] ids[j]].0
                && held[ids[j]].1 == Some(veils@[j].1) by {
                assert(map.contains_key(*walk[at[j]].0));
                assert(map[*walk[at[j]].0] == *walk[at[j]].1);
            }
            assert(lists_each_once(ids, self.veiled()));
        }
        veils
    }
}

/// A walk over a map that lists each of its entries once lists each key once.
proof fn lemma_walk_keys(map: Map<u64, Requested>, walk: Seq<(&u64, &Requested)>)
    requires
        walk.no_duplicates(),
        walk.len() == map.dom().len(),
        forall|i: int|
            0 <= i < walk.len() ==> map.contains_key(*walk[i].0) && map[*walk[i].0] == *walk[i].1,
        forall|k: u64| #[trigger] map.contains_key(k) ==> walk.contains((&k, &map[k])),
    ensures
        forall|i: int, j: int| 0 <= i < j < walk.len() ==> *walk[i].0 != *walk[j].0,
        forall|k: u64|
            #[trigger] map.contains_key(k) ==> exists|i: int| 0 <= i < walk.len() && *walk[i].0 == k,
{
    assert forall|i: int, j: int| 0 <= i < j < walk.len() implies *walk[i].0 != *walk[j].0 by {
        if *walk[i].0 == *walk[j].0 {
            assert(walk[i] == walk[j]);
        }
    }
    assert forall|k: u64| #[trigger] map.contains_key(k) implies exists|i: int|
        0 <= i < walk.len() && *walk[i].0 == k by {
        assert(walk.contains((&k, &map[k])));
        let i = choose|i: int| 0 <= i < walk.len() && walk[i] == (&k, &map[k]);
        assert(*walk[i].0 == k);
    }
}

/// A surface issued after others never reuses an identifier still held: every held
/// identifier is below the next one to be issued.
pub proof fn issued_identifiers_are_fresh(registry: SurfaceRegistry)
    requires
        registry.wf(),
    ensures
        forall|id: u64| #[trigger] registry.held().contains_key(id) ==> id < registry.last_issued() + 1,
{
}

/// Between the `k`-th registry of a run and the next, the last identifier issued either
/// goes one up (a request) or stays (a dismissal).
pub open spec fn issues_or_keeps(run: Seq<SurfaceRegistry>, k: int) -> bool {
    ||| run[k + 1].last_issued() == run[k].last_issued() + 1
    ||| run[k + 1].last_issued() == run[k].last_issued()
}

/// Identifiers are never reused. Read a run of requests and dismissals as the registries it
/// passes through: a request takes the identifier after the last one issued, a dismissal keeps
/// the last one. Then the identifier a later request takes is above the last one issued at any
/// earlier point, and so above every identifier held there, or dismissed before it.
pub proof fn identifiers_are_never_reused(run: Seq<SurfaceRegistry>, earlier: int, request: int)
    requires
        forall|k: int| 0 <= k < run.len() - 1 ==> #[trigger] issues_or_keeps(run, k),
        0 <= earlier < request < run.len(),
        run[request].last_issued() == run[request - 1].last_issued() + 1,
        run[earlier].wf(),
    ensures
        run[request].last_issued() > run[earlier].last_issued(),
        forall|id: u64|
            #[trigger] run[earlier].held().contains_key(id) ==> id < run[request].last_issued(),
    decreases request - earlier,
{
    if request - 1 > earlier {
        let before = request - 1;
        assert(run[before].last_issued() >= run[earlier].last_issued()) by {
            lemma_issued_never_goes_down(run, earlier, before);
        }
    }
}

proof fn lemma_issued_never_goes_down(run: Seq<SurfaceRegistry>, from: int, to: int)
    requires
        forall|k: int| 0 <= k < run.len() - 1 ==> #[trigger] issues_or_keeps(run, k),
        0 <= from <= to < run.len(),
    ensures
        run[to].last_issued() >= run[from].last_issued(),
    decreases to - from,
{
    if to > from {
        lemma_issued_never_goes_down(run, from, to - 1);
        assert(issues_or_keeps(run, to - 1));
    }
}

} // verus!
