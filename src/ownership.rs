use vstd::prelude::*;
use crate::guard::ResourceGuard;

verus! {

/// How a derived resource holds on to its owner.
#[derive(Debug, Clone, Copy, PartialEq, Eq, Structural)]
pub enum Form {
    /// A scoped borrow: the owner's own binding must outlive the resource.
    Borrowed,
    /// Reference-counted co-ownership: the owner's handle stays alive for
    /// as long as the resource does, whatever becomes of its own binding.
    Shared,
}

/// The link from a derived resource to the resource that produced it.
#[derive(Debug, Clone, Copy, PartialEq, Eq, Structural)]
pub struct Marker {
    /// The owner's place in the registry.
    pub owner: usize,
    pub form: Form,
}

/// One native handle in the registry.
#[derive(Debug, Clone, Copy, PartialEq, Eq, Structural)]
pub struct Node {
    pub handle: u64,
    /// The owner, or none for a root resource.
    pub marker: Option<Marker>,
    /// The resource's own binding is gone.
    pub dropped: bool,
    /// The native handle has been released.
    pub released: bool,
}

/// Node `j` is a child of node `i` whose handle is still alive.
pub open spec fn live_child(s: Seq<Node>, i: int, j: int) -> bool {
    &&& 0 <= j < s.len()
    &&& s[j].marker matches Some(m) && m.owner as int == i
    &&& !s[j].released
}

pub open spec fn has_live_child(s: Seq<Node>, i: int) -> bool {
    exists|j: int| #[trigger] live_child(s, i, j)
}

pub open spec fn has_live_borrower(s: Seq<Node>, i: int) -> bool {
    exists|j: int| #[trigger] live_child(s, i, j) && s[j].marker->0.form == Form::Borrowed
}

/// A registry in which every owner comes before what it owns, no handle
/// outlives its owner's, and a handle is released exactly when its binding
/// is gone and nothing it owns is alive.
pub open spec fn well_formed(s: Seq<Node>) -> bool {
    &&& forall|i: int| 0 <= i < s.len() && s[i].marker is Some
        ==> (#[trigger] s[i]).marker->0.owner < i
    &&& forall|i: int| 0 <= i < s.len() && s[i].marker is Some && !s[i].released
        ==> !s[(#[trigger] s[i]).marker->0.owner as int].released
    &&& forall|i: int| 0 <= i < s.len() && (#[trigger] s[i]).released ==> s[i].dropped
    &&& forall|i: int| 0 <= i < s.len() && s[i].marker is Some && !s[i].released
        && s[i].marker->0.form == Form::Borrowed
        ==> !s[(#[trigger] s[i]).marker->0.owner as int].dropped
    &&& forall|i: int| 0 <= i < s.len() && (#[trigger] s[i]).dropped && !has_live_child(s, i)
        ==> s[i].released
}

/// A resource may be registered under `m`: there is room, the owner's
/// handle is alive, and a borrowing resource finds the owner's binding too.
pub open spec fn can_derive(s: Seq<Node>, m: Marker) -> bool {
    &&& s.len() < usize::MAX
    &&& m.owner < s.len()
    &&& !s[m.owner as int].released
    &&& m.form == Form::Borrowed ==> !s[m.owner as int].dropped
}

/// The native handles of a resource tree, with the links between them.
pub struct Registry {
    nodes: Vec<Node>,
}

impl Registry {
    pub closed spec fn nodes(&self) -> Seq<Node> {
        self.nodes@
    }

    /// An empty registry.
    pub fn new() -> (r: Registry)
        ensures
            r.nodes() == Seq::<Node>::empty(),
            well_formed(r.nodes()),
    {
        Registry { nodes: Vec::new() }
    }

    /// The number of handles ever registered.
    pub fn len(&self) -> (r: usize)
        ensures
            r == self.nodes().len(),
    {
        self.nodes.len()
    }

    /// The entry at place `id`.
    pub fn node(&self, id: usize) -> (r: Node)
        requires
            id < self.nodes().len(),
        ensures
            r == self.nodes()[id as int],
    {
        self.nodes[id]
    }

    /// Registers a root resource, owned by nobody; returns its place.
    pub fn add_root(&mut self, guard: ResourceGuard) -> (r: usize)
        requires
            well_formed(old(self).nodes()),
            old(self).nodes().len() < usize::MAX,
        ensures
            well_formed(final(self).nodes()),
            r == old(self).nodes().len(),
            final(self).nodes() == old(self).nodes().push(
                Node { handle: guard.handle(), marker: None, dropped: false, released: false },
            ),
    {
        let r = self.nodes.len();
        let handle = guard.into_raw();
        let node = Node { handle, marker: None, dropped: false, released: false };
        self.nodes.push(node);
        proof {
            let s0 = old(self).nodes();
            let s = self.nodes@;
            assert forall|i: int| 0 <= i < s.len() && (#[trigger] s[i]).dropped
                && !has_live_child(s, i) implies s[i].released by {
                if !has_live_child(s0, i) {
                } else {
                    let j = choose|j: int| live_child(s0, i, j);
                    assert(live_child(s, i, j));
                }
            }
        }
        r
    }

    /// Registers a resource derived from the owner that `marker` names;
    /// returns its place.
    ///
    /// The owner's handle must still be alive, and a borrowing resource
    /// needs the owner's own binding too.
    pub fn derive(&mut self, marker: Marker, guard: ResourceGuard) -> (r: usize)
        requires
            well_formed(old(self).nodes()),
            can_derive(old(self).nodes(), marker),
        ensures
            well_formed(final(self).nodes()),
            r == old(self).nodes().len(),
            final(self).nodes() == old(self).nodes().push(
                Node { handle: guard.handle(), marker: Some(marker), dropped: false, released: false },
            ),
    {
        let r = self.nodes.len();
        let handle = guard.into_raw();
        let node = Node { handle, marker: Some(marker), dropped: false, released: false };
        self.nodes.push(node);
        proof {
            let s0 = old(self).nodes();
            let s = self.nodes@;
            assert forall|i: int| 0 <= i < s.len() && (#[trigger] s[i]).dropped
                && !has_live_child(s, i) implies s[i].released by {
                if i == r as int {
                } else if has_live_child(s0, i) {
                    let j = choose|j: int| live_child(s0, i, j);
                    assert(live_child(s, i, j));
                }
            }
        }
        r
    }

    /// Whether the resource at place `id` owns a resource that is alive.
    pub fn owns_live(&self, id: usize) -> (r: bool)
        ensures
            r == has_live_child(self.nodes(), id as int),
    {
        let mut j: usize = 0;
        while j < self.nodes.len()
            invariant
                0 <= j <= self.nodes@.len(),
                forall|k: int| 0 <= k < j ==> !live_child(self.nodes@, id as int, k),
            decreases self.nodes@.len() - j,
        {
            let n = self.nodes[j];
            match n.marker {
                Some(m) => {
                    if m.owner == id && !n.released {
                        assert(live_child(self.nodes@, id as int, j as int));
                        return true;
                    }
                },
                None => {},
            }
            j = j + 1;
        }
        proof {
            assert forall|k: int| !live_child(self.nodes@, id as int, k) by {
                if 0 <= k < j {
                }
            }
        }
        false
    }

    /// The binding of the resource at place `id` is gone.
    ///
    /// Releases every handle that nothing keeps alive any more: the
    /// resource's own, unless a co-owner still holds it, then each owner
    /// whose binding is gone and whose last living resource this was.
    /// Returns their places in the order of release, each owned resource
    /// before its owner.
    #[verifier::rlimit(40)]
    pub fn release(&mut self, id: usize) -> (r: Vec<usize>)
        requires
            well_formed(old(self).nodes()),
            id < old(self).nodes().len(),
            !old(self).nodes()[id as int].dropped,
            !has_live_borrower(old(self).nodes(), id as int),
        ensures
            well_formed(final(self).nodes()),
            final(self).nodes().len() == old(self).nodes().len(),
            forall|i: int| 0 <= i < old(self).nodes().len() ==> {
                let a = #[trigger] old(self).nodes()[i];
                let b = final(self).nodes()[i];
                &&& b.handle == a.handle
                &&& b.marker == a.marker
                &&& b.dropped == (a.dropped || i == id)
                &&& b.released == (a.released || r@.contains(i as usize))
            },
            forall|k: int| 0 <= k < r@.len()
                ==> (#[trigger] r@[k]) < old(self).nodes().len()
                && !old(self).nodes()[r@[k] as int].released,
            r@.len() > 0 ==> r@[0] == id,
            forall|k: int| 0 <= k < r@.len() - 1
                ==> old(self).nodes()[(#[trigger] r@[k]) as int].marker is Some
                && old(self).nodes()[r@[k] as int].marker->0.owner == r@[k + 1],
            has_live_child(old(self).nodes(), id as int) ==> r@.len() == 0,
    {
        let ghost s0 = self.nodes@;
        let mut n = self.nodes[id];
        n.dropped = true;
        self.nodes.set(id, n);
        proof {
            lemma_mark_dropped(s0, self.nodes@, id as int);
        }
        let count: usize = self.nodes.len();
        let mut out: Vec<usize> = Vec::new();
        let mut cur: usize = id;
        loop
            invariant_except_break
                cur < s0.len(),
                self.nodes@[cur as int].dropped,
                !self.nodes@[cur as int].released,
                tidy_except(self.nodes@, cur as int),
                out@.len() == 0 ==> cur == id,
                out@.len() > 0 ==> (s0[out@[out@.len() - 1] as int].marker is Some
                    && s0[out@[out@.len() - 1] as int].marker->0.owner == cur),
                forall|k: int| 0 <= k < out@.len() ==> cur < #[trigger] out@[k],
            invariant
                self.nodes@.len() == s0.len(),
                s0.len() == count,
                links_kept(s0, self.nodes@),
                forall|i: int| 0 <= i < s0.len() ==> {
                    let a = #[trigger] s0[i];
                    let b = self.nodes@[i];
                    &&& b.dropped == (a.dropped || i == id)
                    &&& b.released == (a.released || out@.contains(i as usize))
                },
                core_links(self.nodes@),
                forall|k: int| 0 <= k < out@.len()
                    ==> (#[trigger] out@[k]) < s0.len() && !s0[out@[k] as int].released,
                out@.len() > 0 ==> out@[0] == id,
                forall|k: int| 0 <= k < out@.len() - 1
                    ==> s0[(#[trigger] out@[k]) as int].marker is Some
                    && s0[out@[k] as int].marker->0.owner == out@[k + 1],
                out@.len() > 0 ==> !has_live_child(s0, id as int),
            ensures
                well_formed(self.nodes@),
            decreases cur,
        {
            if self.owns_live(cur) {
                break;
            }
            let ghost before = self.nodes@;
            let ghost out0 = out@;
            proof {
                if out0.len() == 0 {
                    lemma_same_live_children(s0, before, id as int);
                }
            }
            let mut c = self.nodes[cur];
            c.released = true;
            self.nodes.set(cur, c);
            out.push(cur);
            proof {
                lemma_mark_released(before, self.nodes@, cur as int);
                assert(out@ == out0.push(cur));
                assert forall|i: int| 0 <= i < s0.len() implies
                    #[trigger] self.nodes@[i].released
                    == (s0[i].released || out@.contains(i as usize)) by {
                    lemma_push_contains(out0, cur, i as usize);
                    assert(before[i].released == (s0[i].released || out0.contains(i as usize)));
                    if i != cur as int {
                        assert(i as usize != cur);
                    }
                }
            }
            match c.marker {
                None => {
                    break;
                },
                Some(m) => {
                    let owner = self.nodes[m.owner];
                    if !owner.dropped {
                        break;
                    }
                    cur = m.owner;
                },
            }
        }
        out
    }
}

/// While a derived resource is alive, its owner's handle is alive too,
/// whether the resource borrows the owner or shares it, and whatever became
/// of the owner's own binding.
pub proof fn lemma_owner_outlives_resource(s: Seq<Node>, c: int)
    requires
        well_formed(s),
        0 <= c < s.len(),
        s[c].marker is Some,
        !s[c].released,
    ensures
        !s[s[c].marker->0.owner as int].released,
        0 <= s[c].marker->0.owner < c,
{
    assert(s[c].marker->0.owner < c);
}

/// An owner whose binding is gone has its handle released as soon as no
/// resource that it owns is alive any more; before that it stays alive.
pub proof fn lemma_owner_released_with_last_resource(s: Seq<Node>, p: int)
    requires
        well_formed(s),
        0 <= p < s.len(),
        s[p].dropped,
    ensures
        s[p].released <==> !has_live_child(s, p),
{
    if has_live_child(s, p) {
        let j = choose|j: int| live_child(s, p, j);
        assert(s[j].marker->0.owner as int == p);
    }
}

/// The order of the registry and the links between its entries.
pub open spec fn links_kept(a: Seq<Node>, b: Seq<Node>) -> bool {
    &&& a.len() == b.len()
    &&& forall|i: int| 0 <= i < a.len()
        ==> (#[trigger] b[i]).handle == a[i].handle && b[i].marker == a[i].marker
}

/// What `well_formed` asks but for the rule on when a handle is released.
pub open spec fn core_links(s: Seq<Node>) -> bool {
    &&& forall|i: int| 0 <= i < s.len() && s[i].marker is Some
        ==> (#[trigger] s[i]).marker->0.owner < i
    &&& forall|i: int| 0 <= i < s.len() && s[i].marker is Some && !s[i].released
        ==> !s[(#[trigger] s[i]).marker->0.owner as int].released
    &&& forall|i: int| 0 <= i < s.len() && (#[trigger] s[i]).released ==> s[i].dropped
    &&& forall|i: int| 0 <= i < s.len() && s[i].marker is Some && !s[i].released
        && s[i].marker->0.form == Form::Borrowed
        ==> !s[(#[trigger] s[i]).marker->0.owner as int].dropped
}

/// A handle is released once its binding is gone and nothing it owns is
/// alive, save perhaps at place `c`.
pub open spec fn tidy_except(s: Seq<Node>, c: int) -> bool {
    forall|i: int| 0 <= i < s.len() && i != c && (#[trigger] s[i]).dropped
        && !has_live_child(s, i) ==> s[i].released
}

proof fn lemma_push_contains(s: Seq<usize>, x: usize, y: usize)
    ensures
        s.push(x).contains(y) == (s.contains(y) || y == x),
{
    let t = s.push(x);
    if s.contains(y) {
        let k = choose|k: int| 0 <= k < s.len() && s[k] == y;
        assert(t[k] == y);
    }
    if t.contains(y) && y != x {
        let k = choose|k: int| 0 <= k < t.len() && t[k] == y;
        assert(s[k] == y);
    }
    assert(t[s.len() as int] == x);
}

proof fn lemma_same_live_children(a: Seq<Node>, b: Seq<Node>, i: int)
    requires
        a.len() == b.len(),
        forall|j: int| 0 <= j < a.len()
            ==> (#[trigger] b[j]).marker == a[j].marker && b[j].released == a[j].released,
    ensures
        has_live_child(a, i) == has_live_child(b, i),
{
    if has_live_child(a, i) {
        let j = choose|j: int| live_child(a, i, j);
        assert(live_child(b, i, j));
    }
    if has_live_child(b, i) {
        let j = choose|j: int| live_child(b, i, j);
        assert(live_child(a, i, j));
    }
}

proof fn lemma_mark_dropped(s0: Seq<Node>, s1: Seq<Node>, id: int)
    requires
        well_formed(s0),
        0 <= id < s0.len(),
        !s0[id].dropped,
        !has_live_borrower(s0, id),
        s1 == s0.update(id, Node { dropped: true, ..s0[id] }),
    ensures
        core_links(s1),
        tidy_except(s1, id),
        links_kept(s0, s1),
        forall|i: int| 0 <= i < s0.len() ==> {
            let a = #[trigger] s0[i];
            let b = s1[i];
            &&& b.dropped == (a.dropped || i == id)
            &&& b.released == a.released
        },
        s1[id].dropped,
        !s1[id].released,
{
    assert(!s0[id].released);
    assert forall|i: int| has_live_child(s1, i) == has_live_child(s0, i) by {
        lemma_same_live_children(s0, s1, i);
    }
    assert forall|i: int| 0 <= i < s1.len() && s1[i].marker is Some && !s1[i].released
        && s1[i].marker->0.form == Form::Borrowed
        implies !s1[(#[trigger] s1[i]).marker->0.owner as int].dropped by {
        if s1[i].marker->0.owner == id {
            assert(live_child(s0, id, i));
        }
    }
}

proof fn lemma_mark_released(before: Seq<Node>, after: Seq<Node>, cur: int)
    requires
        core_links(before),
        tidy_except(before, cur),
        0 <= cur < before.len(),
        before[cur].dropped,
        !before[cur].released,
        !has_live_child(before, cur),
        after == before.update(cur, Node { released: true, ..before[cur] }),
    ensures
        core_links(after),
        links_kept(before, after),
        forall|i: int| 0 <= i < before.len() && i != cur
            ==> (#[trigger] after[i]).released == before[i].released,
        after[cur].released,
        match before[cur].marker {
            None => well_formed(after),
            Some(m) => {
                &&& tidy_except(after, m.owner as int)
                &&& !after[m.owner as int].released
                &&& (!after[m.owner as int].dropped ==> well_formed(after))
            },
        },
{
    let owner: int = match before[cur].marker {
        Some(m) => m.owner as int,
        None => -1,
    };
    assert forall|i: int| i != cur && i != owner
        implies has_live_child(after, i) == has_live_child(before, i) by {
        if has_live_child(after, i) {
            let j = choose|j: int| live_child(after, i, j);
            assert(live_child(before, i, j));
        }
        if has_live_child(before, i) {
            let j = choose|j: int| live_child(before, i, j);
            assert(j != cur);
            assert(live_child(after, i, j));
        }
    }
    assert forall|i: int| 0 <= i < after.len() && after[i].marker is Some && !after[i].released
        implies !after[(#[trigger] after[i]).marker->0.owner as int].released by {
        if after[i].marker->0.owner == cur {
            assert(live_child(before, cur, i));
        }
    }
    if owner >= 0 {
        assert(before[cur].marker->0.owner < cur);
    }
}

} // verus!
