//! Entity identities and component storage.
//!
//! A store keeps `(entity, component)` pairs in the order they were attached.
//! Attaching twice to the same entity keeps both pairs; every lookup takes the
//! first pair of that entity, so a later duplicate is never seen by a lookup
//! or a join.
use vstd::prelude::*;

verus! {

pub type EntityID = u64;

/// Hands out entity identities 1, 2, 3, ... and never the same one twice.
#[derive(Debug)]
pub struct EntityRegistry {
    last: u64,
}

/// The identities issued by a registry that has issued `n`: `1..=n` in order.
pub open spec fn issued_ids(n: nat) -> Seq<EntityID> {
    Seq::new(n, |i: int| (i + 1) as EntityID)
}

impl EntityRegistry {
    pub closed spec fn count(self) -> nat {
        self.last as nat
    }

    /// The identities issued so far, oldest first.
    pub open spec fn issued(self) -> Seq<EntityID> {
        issued_ids(self.count())
    }

    pub fn new() -> (r: EntityRegistry)
        ensures
            r.count() == 0,
    {
        EntityRegistry { last: 0 }
    }

    /// How many identities have been issued; also the newest identity.
    pub fn last(&self) -> (r: u64)
        ensures
            r == self.count(),
    {
        self.last
    }

    /// A fresh identity: one more than the newest so far.
    pub fn allocate(&mut self) -> (r: EntityID)
        requires
            old(self).count() < u64::MAX,
        ensures
            r == old(self).count() + 1,
            final(self).count() == r,
            final(self).issued() == old(self).issued().push(r),
    {
        self.last = self.last + 1;
        proof {
            assert(issued_ids(self.last as nat) =~= issued_ids(old(self).last as nat).push(self.last));
        }
        self.last
    }
}

/// The identities a registry has issued start at 1, and each is greater than
/// every one issued before it, so no two are equal.
pub proof fn lemma_issued_strictly_increasing(reg: EntityRegistry)
    ensures
        reg.issued().len() > 0 ==> reg.issued()[0] == 1,
        forall|i: int, j: int|
            0 <= i < j < reg.issued().len() ==> reg.issued()[i] < reg.issued()[j],
        forall|i: int, j: int|
            0 <= i < reg.issued().len() && 0 <= j < reg.issued().len() && i != j
                ==> reg.issued()[i] != reg.issued()[j],
{
    assert(reg.count() <= u64::MAX) by {
        reveal(EntityRegistry::count);
    }
}

/// The entity identities of a store's pairs, in order.
pub open spec fn keys<T>(s: Seq<(EntityID, T)>) -> Seq<EntityID> {
    s.map_values(|p: (EntityID, T)| p.0)
}

/// The index of the first occurrence of `id` in `k` at or after `from`.
pub open spec fn first_index_from(k: Seq<EntityID>, id: EntityID, from: int) -> Option<int>
    decreases k.len() - from,
{
    if from < 0 || from >= k.len() {
        None
    } else if k[from] == id {
        Some(from)
    } else {
        first_index_from(k, id, from + 1)
    }
}

/// What `first_index_from` finds is an occurrence of `id` at or after
/// `from` with none between; where it finds none, there is none.
pub proof fn lemma_first_index_from(k: Seq<EntityID>, id: EntityID, from: int)
    requires
        0 <= from,
    ensures
        first_index_from(k, id, from) matches Some(j) ==> from <= j < k.len() && k[j] == id
            && forall|m: int| from <= m < j ==> k[m] != id,
        first_index_from(k, id, from) is None ==> forall|m: int| from <= m < k.len() ==> k[m] != id,
    decreases k.len() - from,
{
    if from < k.len() && k[from] != id {
        lemma_first_index_from(k, id, from + 1);
    }
}

/// The index of the first occurrence of `id` in `k`.
pub open spec fn first_index(k: Seq<EntityID>, id: EntityID) -> Option<int> {
    first_index_from(k, id, 0)
}

/// The inner join of two key sequences on equal identity: for each position
/// `i` of `a`, in order, whose identity occurs in `b`, the pair of `i` and the
/// first position of that identity in `b`. Only the first `n` positions of
/// `a` are taken.
pub open spec fn join_prefix(a: Seq<EntityID>, b: Seq<EntityID>, n: int) -> Seq<(usize, usize)>
    decreases n,
{
    if n <= 0 {
        Seq::empty()
    } else {
        let prev = join_prefix(a, b, n - 1);
        match first_index(b, a[n - 1]) {
            Some(j) => prev.push(((n - 1) as usize, j as usize)),
            None => prev,
        }
    }
}

pub open spec fn join_keys(a: Seq<EntityID>, b: Seq<EntityID>) -> Seq<(usize, usize)> {
    join_prefix(a, b, a.len() as int)
}

/// Every pair of `join_prefix` matches equal identities, the first position
/// of `a` below `n`, and each such position whose identity occurs in `b`
/// has a pair.
pub proof fn lemma_join_prefix(a: Seq<EntityID>, b: Seq<EntityID>, n: int)
    requires
        0 <= n <= a.len(),
        a.len() <= usize::MAX,
        b.len() <= usize::MAX,
    ensures
        forall|t: int|
            #![trigger join_prefix(a, b, n)[t]]
            0 <= t < join_prefix(a, b, n).len() ==> {
                let (i, j) = join_prefix(a, b, n)[t];
                &&& i < n
                &&& j < b.len()
                &&& a[i as int] == b[j as int]
            },
        forall|i: int|
            0 <= i < n && b.contains(a[i]) ==> exists|t: int|
                0 <= t < join_prefix(a, b, n).len() && join_prefix(a, b, n)[t].0 == i,
    decreases n,
{
    if n > 0 {
        lemma_join_prefix(a, b, n - 1);
        lemma_first_index_from(b, a[n - 1], 0);
        let prev = join_prefix(a, b, n - 1);
        let cur = join_prefix(a, b, n);
        assert forall|i: int| 0 <= i < n && b.contains(a[i]) implies exists|t: int|
            0 <= t < cur.len() && cur[t].0 == i by {
            if i < n - 1 {
                let t = choose|t: int| 0 <= t < prev.len() && prev[t].0 == i;
                assert(cur[t] == prev[t]);
            } else {
                let m = choose|m: int| 0 <= m < b.len() && b[m] == a[i];
                assert(cur[prev.len() as int].0 == i);
            }
        }
    }
}

/// Components of one kind, each attached to an entity, in order of attachment.
#[derive(Debug)]
pub struct ComponentStore<T> {
    entries: Vec<(EntityID, T)>,
}

impl<T> View for ComponentStore<T> {
    type V = Seq<(EntityID, T)>;

    closed spec fn view(&self) -> Seq<(EntityID, T)> {
        self.entries@
    }
}

impl<T> ComponentStore<T> {
    /// A store holds no more pairs than memory can index.
    pub proof fn lemma_len_fits(&self)
        ensures
            self@.len() <= usize::MAX,
    {
        assert(self.entries.len() == self.entries@.len());
    }

    pub fn new() -> (r: ComponentStore<T>)
        ensures
            r@ == Seq::<(EntityID, T)>::empty(),
    {
        ComponentStore { entries: Vec::new() }
    }

    pub fn len(&self) -> (r: usize)
        ensures
            r == self@.len(),
    {
        self.entries.len()
    }

    /// Appends the pair; an earlier pair of the same entity stays.
    pub fn attach(&mut self, entity: EntityID, component: T)
        ensures
            final(self)@ == old(self)@.push((entity, component)),
    {
        self.entries.push((entity, component));
    }

    /// The entity of the `i`-th pair.
    pub fn entity_at(&self, i: usize) -> (r: EntityID)
        requires
            i < self@.len(),
        ensures
            r == self@[i as int].0,
    {
        self.entries[i].0
    }

    /// The component of the `i`-th pair.
    pub fn component_at(&self, i: usize) -> (r: &T)
        requires
            i < self@.len(),
        ensures
            *r == self@[i as int].1,
    {
        &self.entries[i].1
    }

    /// The entities of all pairs, in order of attachment.
    pub fn entities(&self) -> (r: Vec<EntityID>)
        ensures
            r@ == keys(self@),
    {
        let mut r: Vec<EntityID> = Vec::new();
        let mut i: usize = 0;
        while i < self.entries.len()
            invariant
                i <= self.entries@.len(),
                r@ == keys(self.entries@.subrange(0, i as int)),
            decreases self.entries@.len() - i,
        {
            r.push(self.entries[i].0);
            i = i + 1;
            proof {
                assert(keys(self.entries@.subrange(0, i as int)) =~= keys(
                    self.entries@.subrange(0, i - 1),
                ).push(self.entries@[i - 1].0));
            }
        }
        proof {
            assert(self.entries@.subrange(0, i as int) =~= self.entries@);
        }
        r
    }

    /// The position of the first pair of `entity`, if any.
    pub fn position(&self, entity: EntityID) -> (r: Option<usize>)
        ensures
            r matches Some(j) ==> first_index(keys(self@), entity) == Some(j as int) && j
                < self@.len() && self@[j as int].0 == entity,
            r is None ==> first_index(keys(self@), entity) is None,
    {
        let mut i: usize = 0;
        while i < self.entries.len()
            invariant
                i <= self.entries@.len(),
                first_index(keys(self@), entity) == first_index_from(
                    keys(self@),
                    entity,
                    i as int,
                ),
            decreases self.entries@.len() - i,
        {
            if self.entries[i].0 == entity {
                proof {
                    lemma_first_index_from(keys(self@), entity, i as int);
                }
                return Some(i);
            }
            i = i + 1;
        }
        None
    }

    /// The component of the first pair of `entity`, if any.
    pub fn find(&self, entity: EntityID) -> (r: Option<&T>)
        ensures
            r matches Some(c) ==> exists|j: int|
                0 <= j < self@.len() && first_index(keys(self@), entity) == Some(j) && *c
                    == self@[j].1,
            r is None ==> first_index(keys(self@), entity) is None,
    {
        match self.position(entity) {
            Some(j) => Some(&self.entries[j].1),
            None => None,
        }
    }

    /// Pairs each position of this store whose entity also has a component
    /// in `other` with the position of that entity's first pair there, in
    /// this store's order.
    pub fn join<U>(&self, other: &ComponentStore<U>) -> (r: Vec<(usize, usize)>)
        ensures
            r@ == join_keys(keys(self@), keys(other@)),
    {
        let mut r: Vec<(usize, usize)> = Vec::new();
        let mut i: usize = 0;
        while i < self.entries.len()
            invariant
                i <= self.entries@.len(),
                r@ == join_prefix(keys(self@), keys(other@), i as int),
            decreases self.entries@.len() - i,
        {
            match other.position(self.entries[i].0) {
                Some(j) => {
                    r.push((i, j));
                },
                None => {},
            }
            i = i + 1;
        }
        r
    }
}

/// Joining two stores yields exactly the entities that have a component in
/// both: each pair names positions of one entity, and an entity takes part
/// if and only if both stores hold it.
pub proof fn lemma_join_exact<A, B>(a: &ComponentStore<A>, b: &ComponentStore<B>)
    ensures
        forall|t: int|
            #![trigger join_keys(keys(a@), keys(b@))[t]]
            0 <= t < join_keys(keys(a@), keys(b@)).len() ==> {
                let (i, j) = join_keys(keys(a@), keys(b@))[t];
                &&& i < a@.len()
                &&& j < b@.len()
                &&& a@[i as int].0 == b@[j as int].0
            },
        forall|e: EntityID|
            (exists|t: int|
                0 <= t < join_keys(keys(a@), keys(b@)).len() && a@[join_keys(
                    keys(a@),
                    keys(b@),
                )[t].0 as int].0 == e) <==> (keys(a@).contains(e) && keys(b@).contains(e)),
{
    a.lemma_len_fits();
    b.lemma_len_fits();
    let ka = keys(a@);
    let kb = keys(b@);
    let jn = join_keys(ka, kb);
    lemma_join_prefix(ka, kb, ka.len() as int);
    assert forall|e: EntityID|
        (exists|t: int| 0 <= t < jn.len() && a@[jn[t].0 as int].0 == e) <==> (ka.contains(e)
            && kb.contains(e)) by {
        if exists|t: int| 0 <= t < jn.len() && a@[jn[t].0 as int].0 == e {
            let t = choose|t: int| 0 <= t < jn.len() && a@[jn[t].0 as int].0 == e;
            let (i, j) = jn[t];
            assert(ka[i as int] == e);
            assert(kb[j as int] == e);
        }
        if ka.contains(e) && kb.contains(e) {
            let i = choose|i: int| 0 <= i < ka.len() && ka[i] == e;
            let t = choose|t: int| 0 <= t < jn.len() && jn[t].0 == i;
            assert(a@[jn[t].0 as int].0 == e);
        }
    }
}

/// Iteration keeps the order of attachment: a store that got `a`, then `b`,
/// then `c` (as `attach` leaves it each time) lists them after its earlier
/// pairs, in that order.
pub proof fn lemma_attachment_order<T>(
    s0: ComponentStore<T>,
    s1: ComponentStore<T>,
    s2: ComponentStore<T>,
    s3: ComponentStore<T>,
    a: (EntityID, T),
    b: (EntityID, T),
    c: (EntityID, T),
)
    requires
        s1@ == s0@.push(a),
        s2@ == s1@.push(b),
        s3@ == s2@.push(c),
    ensures
        s3@ == s0@ + seq![a, b, c],
        keys(s3@) == keys(s0@) + seq![a.0, b.0, c.0],
{
    assert(s3@ =~= s0@ + seq![a, b, c]);
    assert(keys(s3@) =~= keys(s0@) + seq![a.0, b.0, c.0]);
}

} // verus!
