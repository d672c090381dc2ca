use crate::stack::dto::{keyed_views, keys_of, pair_views, Asset, Resource, Stack, StackView};
use crate::text::str_eq;
use vstd::prelude::*;

verus! {

/// The last position at which `k` occurs in `keys`, or -1 where it does not occur.
pub open spec fn last_index_of(keys: Seq<Seq<char>>, k: Seq<char>) -> int
    decreases keys.len(),
{
    if keys.len() == 0 {
        -1
    } else if keys.last() == k {
        keys.len() - 1
    } else {
        last_index_of(keys.drop_last(), k)
    }
}

/// `s` with the entry for `k` set to `v`: in place where `k` has an entry, else added at the end.
pub open spec fn upsert<V>(s: Seq<(Seq<char>, V)>, k: Seq<char>, v: V) -> Seq<(Seq<char>, V)> {
    let i = last_index_of(keys_of(s), k);
    if i >= 0 {
        s.update(i, (k, v))
    } else {
        s.push((k, v))
    }
}

/// The logical id of the last resource whose id is `id`, as the stack's resources held it at first.
pub open spec fn resource_id_for(resources: Seq<(Seq<char>, Resource)>, id: Seq<char>) -> Option<Seq<char>>
    decreases resources.len(),
{
    if resources.len() == 0 {
        None
    } else if resources.last().1.id_view() == id {
        Some(resources.last().0)
    } else {
        resource_id_for(resources.drop_last(), id)
    }
}

/// What a stack holds that giving resources the logical ids of an existing deployment changes:
/// its resources, its metadata and the replacements to make in the template.
pub struct RenameState {
    pub resources: Seq<(Seq<char>, Resource)>,
    pub metadata: Seq<(Seq<char>, Seq<char>)>,
    pub to_replace: Seq<(Seq<char>, Seq<char>)>,
}

/// One step: the resource whose id is `existing_id` (looked up in the resources as they were at
/// first) moves to the logical id `existing_resource_id`, the metadata records that, and the
/// template will have the old logical id replaced by the new. Nothing changes for an id that
/// no resource has; `None` where the resource is no longer under its first logical id.
pub open spec fn rename_step(
    st: RenameState,
    first: Seq<(Seq<char>, Resource)>,
    existing_id: Seq<char>,
    existing_resource_id: Seq<char>,
) -> Option<RenameState> {
    match resource_id_for(first, existing_id) {
        None => Some(st),
        Some(current) => {
            let i = last_index_of(keys_of(st.resources), current);
            if i < 0 {
                None
            } else {
                let removed = st.resources[i].1;
                Some(
                    RenameState {
                        resources: upsert(st.resources.remove(i), existing_resource_id, removed),
                        metadata: upsert(st.metadata, existing_id, existing_resource_id),
                        to_replace: st.to_replace.push((current, existing_resource_id)),
                    },
                )
            }
        },
    }
}

/// The steps for the existing (id, logical id) pairs, in order; `None` once a step fails.
pub open spec fn rename_all(
    st: RenameState,
    first: Seq<(Seq<char>, Resource)>,
    existing: Seq<(Seq<char>, Seq<char>)>,
) -> Option<RenameState>
    decreases existing.len(),
{
    if existing.len() == 0 {
        Some(st)
    } else {
        match rename_all(st, first, existing.drop_last()) {
            None => None,
            Some(prev) => rename_step(prev, first, existing.last().0, existing.last().1),
        }
    }
}

/// The state of a stack's view that renaming works on.
pub open spec fn rename_state_of(v: StackView) -> RenameState {
    RenameState { resources: v.resources, metadata: v.metadata, to_replace: v.to_replace }
}

proof fn lemma_last_index_of<V>(s: Seq<(Seq<char>, V)>, k: Seq<char>)
    ensures
        -1 <= last_index_of(keys_of(s), k) < s.len(),
        last_index_of(keys_of(s), k) >= 0 ==> s[last_index_of(keys_of(s), k)].0 == k,
        last_index_of(keys_of(s), k) < 0 ==> forall|j: int| 0 <= j < s.len() ==> #[trigger] s[j].0 != k,
    decreases s.len(),
{
    if s.len() > 0 {
        assert(keys_of(s).drop_last() =~= keys_of(s.drop_last()));
        lemma_last_index_of(s.drop_last(), k);
        if keys_of(s).last() != k {
            assert forall|j: int| 0 <= j < s.len() && last_index_of(keys_of(s), k) < 0 implies #[trigger] s[j].0 != k by {
                if j < s.len() - 1 {
                    assert(s.drop_last()[j] == s[j]);
                }
            }
        }
    }
}

proof fn lemma_upsert_unique<V>(s: Seq<(Seq<char>, V)>, k: Seq<char>, v: V)
    requires
        keys_of(s).no_duplicates(),
    ensures
        keys_of(upsert(s, k, v)).no_duplicates(),
{
    lemma_last_index_of(s, k);
    let i = last_index_of(keys_of(s), k);
    let u = upsert(s, k, v);
    if i >= 0 {
        assert(keys_of(u) =~= keys_of(s));
    } else {
        assert forall|a: int, b: int| 0 <= a < keys_of(u).len() && 0 <= b < keys_of(u).len() && a != b
            implies keys_of(u)[a] != keys_of(u)[b] by {
            if a < s.len() && b < s.len() {
                assert(keys_of(u)[a] == keys_of(s)[a]);
                assert(keys_of(u)[b] == keys_of(s)[b]);
            } else if a < s.len() {
                assert(s[a].0 != k);
            } else {
                assert(s[b].0 != k);
            }
        }
    }
}

proof fn lemma_remove_unique<V>(s: Seq<(Seq<char>, V)>, i: int)
    requires
        keys_of(s).no_duplicates(),
        0 <= i < s.len(),
    ensures
        keys_of(s.remove(i)).no_duplicates(),
{
    let r = s.remove(i);
    assert forall|a: int, b: int| 0 <= a < keys_of(r).len() && 0 <= b < keys_of(r).len() && a != b
        implies keys_of(r)[a] != keys_of(r)[b] by {
        let sa = if a < i { a } else { a + 1 };
        let sb = if b < i { b } else { b + 1 };
        assert(keys_of(r)[a] == keys_of(s)[sa]);
        assert(keys_of(r)[b] == keys_of(s)[sb]);
    }
}

/// After an upsert the entry for `k` holds `v`; the length grows by one exactly when `k` had no entry.
proof fn lemma_upsert_holds<V>(s: Seq<(Seq<char>, V)>, k: Seq<char>, v: V)
    ensures
        upsert(s, k, v).contains((k, v)),
        last_index_of(keys_of(s), k) >= 0 ==> upsert(s, k, v).len() == s.len(),
        last_index_of(keys_of(s), k) < 0 ==> upsert(s, k, v).len() == s.len() + 1,
{
    lemma_last_index_of(s, k);
    let i = last_index_of(keys_of(s), k);
    let u = upsert(s, k, v);
    if i >= 0 {
        assert(u[i] == (k, v));
    } else {
        assert(u[s.len() as int] == (k, v));
    }
}

/// Giving a stack the logical ids of an existing deployment keeps what is deployed: a resource
/// whose id the deployment has moves to the deployed logical id, keeping the logical ids unique,
/// the metadata records that logical id for the id, and the template will have the resource's
/// new logical id replaced by the deployed one. The number of resources stays the same where the
/// deployed logical id is not that of another resource of the stack. An id that no resource has
/// changes nothing.
pub proof fn renaming_keeps_deployed_logical_ids(
    st: RenameState,
    first: Seq<(Seq<char>, Resource)>,
    existing_id: Seq<char>,
    existing_resource_id: Seq<char>,
)
    requires
        keys_of(st.resources).no_duplicates(),
        keys_of(st.metadata).no_duplicates(),
        resource_id_for(first, existing_id) matches Some(current) ==> keys_of(st.resources).contains(current),
    ensures
        resource_id_for(first, existing_id) is None ==> rename_step(st, first, existing_id, existing_resource_id) == Some(st),
        resource_id_for(first, existing_id) matches Some(current) ==> (rename_step(
            st,
            first,
            existing_id,
            existing_resource_id,
        ) matches Some(next) && {
            let moved = st.resources[last_index_of(keys_of(st.resources), current)].1;
            &&& next.resources.contains((existing_resource_id, moved))
            &&& keys_of(next.resources).no_duplicates()
            &&& next.metadata.contains((existing_id, existing_resource_id))
            &&& keys_of(next.metadata).no_duplicates()
            &&& next.to_replace == st.to_replace.push((current, existing_resource_id))
            &&& (forall|j: int| 0 <= j < st.resources.len() && st.resources[j].0 != current
                ==> #[trigger] st.resources[j].0 != existing_resource_id) ==> next.resources.len() == st.resources.len()
        }),
{
    if let Some(current) = resource_id_for(first, existing_id) {
        lemma_last_index_of(st.resources, current);
        let i = last_index_of(keys_of(st.resources), current);
        if i < 0 {
            let k = choose|k: int| 0 <= k < keys_of(st.resources).len() && keys_of(st.resources)[k] == current;
            assert(st.resources[k].0 == current);
        }
        let t = st.resources.remove(i);
        let moved = st.resources[i].1;
        lemma_remove_unique(st.resources, i);
        lemma_upsert_unique(t, existing_resource_id, moved);
        lemma_upsert_holds(t, existing_resource_id, moved);
        lemma_upsert_unique(st.metadata, existing_id, existing_resource_id);
        lemma_upsert_holds(st.metadata, existing_id, existing_resource_id);
        if forall|j: int| 0 <= j < st.resources.len() && st.resources[j].0 != current
            ==> #[trigger] st.resources[j].0 != existing_resource_id {
            lemma_last_index_of(t, existing_resource_id);
            if last_index_of(keys_of(t), existing_resource_id) >= 0 {
                let j = last_index_of(keys_of(t), existing_resource_id);
                let sj = if j < i { j } else { j + 1 };
                assert(t[j] == st.resources[sj]);
                assert(st.resources[sj].0 != current) by {
                    assert(keys_of(st.resources)[sj] == st.resources[sj].0);
                    assert(keys_of(st.resources)[i] == st.resources[i].0);
                }
            }
        }
    }
}

/// The position of the last entry of `s` with key `k`.
fn last_position_resource(s: &Vec<(String, Resource)>, k: &str) -> (r: Option<usize>)
    ensures
        match r {
            Some(i) => i < s@.len() && i as int == last_index_of(keys_of(keyed_views(s@)), k@),
            None => last_index_of(keys_of(keyed_views(s@)), k@) < 0,
        },
{
    let mut i: usize = s.len();
    assert(s@.take(s@.len() as int) =~= s@);
    while i > 0
        invariant
            i <= s@.len(),
            last_index_of(keys_of(keyed_views(s@)), k@) == last_index_of(keys_of(keyed_views(s@.take(i as int))), k@),
        decreases i,
    {
        let ghost t = keyed_views(s@.take(i as int));
        assert(keys_of(t).last() == s@[i - 1].0@);
        if str_eq(s[i - 1].0.as_str(), k) {
            return Some(i - 1);
        }
        assert(keys_of(t).drop_last() =~= keys_of(keyed_views(s@.take(i - 1))));
        i = i - 1;
    }
    assert(keys_of(keyed_views(s@.take(0))) =~= Seq::<Seq<char>>::empty());
    None
}

/// The position of the last entry of `s` with key `k`.
fn last_position_pair(s: &Vec<(String, String)>, k: &str) -> (r: Option<usize>)
    ensures
        match r {
            Some(i) => i < s@.len() && i as int == last_index_of(keys_of(pair_views(s@)), k@),
            None => last_index_of(keys_of(pair_views(s@)), k@) < 0,
        },
{
    let mut i: usize = s.len();
    assert(s@.take(s@.len() as int) =~= s@);
    while i > 0
        invariant
            i <= s@.len(),
            last_index_of(keys_of(pair_views(s@)), k@) == last_index_of(keys_of(pair_views(s@.take(i as int))), k@),
        decreases i,
    {
        let ghost t = pair_views(s@.take(i as int));
        assert(keys_of(t).last() == s@[i - 1].0@);
        if str_eq(s[i - 1].0.as_str(), k) {
            return Some(i - 1);
        }
        assert(keys_of(t).drop_last() =~= keys_of(pair_views(s@.take(i - 1))));
        i = i - 1;
    }
    assert(keys_of(pair_views(s@.take(0))) =~= Seq::<Seq<char>>::empty());
    None
}

/// The logical id of the last resource of `s` whose id is `id`.
fn resource_id_in(s: &Vec<(String, String)>, id: &str) -> (r: Option<String>)
    ensures
        match r {
            Some(v) => {
                let i = last_index_of(keys_of(pair_views(s@)), id@);
                i >= 0 && v@ == pair_views(s@)[i].1
            },
            None => last_index_of(keys_of(pair_views(s@)), id@) < 0,
        },
{
    match last_position_pair(s, id) {
        Some(i) => Some(s[i].1.clone()),
        None => None,
    }
}

impl Stack {
    /// Gives the resources the logical ids they have in an existing deployment of the stack.
    ///
    /// For each (id, logical id) of the existing deployment, in order, whose id a resource of
    /// this stack has, the resource moves to the existing logical id, the metadata records it,
    /// and the template will have the new logical id replaced by the existing one. The ids of
    /// the existing deployment are distinct, as the keys of a map; each resource to move must
    /// still be under its first logical id when its turn comes.
    pub fn update_resource_ids_for_existing_stack(&mut self, existing_ids_with_resource_ids: Vec<(String, String)>)
        requires
            keys_of(pair_views(existing_ids_with_resource_ids@)).no_duplicates(),
            rename_all(rename_state_of(old(self)@), old(self)@.resources, pair_views(existing_ids_with_resource_ids@)) is Some,
        ensures
            rename_all(rename_state_of(old(self)@), old(self)@.resources, pair_views(existing_ids_with_resource_ids@))
                == Some(rename_state_of(final(self)@)),
            final(self)@.tags == old(self)@.tags,
            final(self)@.outputs == old(self)@.outputs,
    {
        proof {
            use_type_invariant(&*self);
        }
        let ghost first = self@.resources;
        let ghost existing = pair_views(existing_ids_with_resource_ids@);
        let mut current_ids: Vec<(String, String)> = Vec::new();
        // the last resource with an id wins, as when collecting into a map
        let mut k: usize = 0;
        while k < self.resources.len()
            invariant
                k <= self.resources@.len(),
                first == keyed_views(self.resources@),
                forall|id: Seq<char>| #![trigger resource_id_for(first.take(k as int), id)]
                    match resource_id_for(first.take(k as int), id) {
                        Some(v) => {
                            let i = last_index_of(keys_of(pair_views(current_ids@)), id);
                            i >= 0 && pair_views(current_ids@)[i].1 == v
                        },
                        None => last_index_of(keys_of(pair_views(current_ids@)), id) < 0,
                    },
            decreases self.resources@.len() - k,
        {
            let (rid, res) = &self.resources[k];
            let id = res.get_id();
            let ghost before = current_ids@;
            current_ids.push((id.0, rid.clone()));
            proof {
                assert(first.take(k + 1).drop_last() =~= first.take(k as int));
                assert(first.take(k + 1).last() == (rid@, *res));
                assert(keys_of(pair_views(current_ids@)).drop_last() =~= keys_of(pair_views(before)));
                assert forall|idv: Seq<char>| #![trigger resource_id_for(first.take(k + 1), idv)]
                    match resource_id_for(first.take(k + 1), idv) {
                        Some(v) => {
                            let i = last_index_of(keys_of(pair_views(current_ids@)), idv);
                            i >= 0 && pair_views(current_ids@)[i].1 == v
                        },
                        None => last_index_of(keys_of(pair_views(current_ids@)), idv) < 0,
                    } by {
                    assert(resource_id_for(first.take(k as int), idv) == resource_id_for(first.take(k as int), idv));
                    lemma_last_index_of(pair_views(before), idv);
                    if res.id_view() != idv {
                        let i = last_index_of(keys_of(pair_views(before)), idv);
                        if i >= 0 {
                            assert(pair_views(current_ids@)[i] == pair_views(before)[i]);
                        }
                    }
                }
            }
            k = k + 1;
        }
        assert(first.take(k as int) =~= first);
        let mut i: usize = 0;
        while i < existing_ids_with_resource_ids.len()
            invariant
                i <= existing_ids_with_resource_ids@.len(),
                existing == pair_views(existing_ids_with_resource_ids@),
                self.tags@ == old(self)@.tags,
                self.outputs == old(self).outputs,
                rename_all(rename_state_of(old(self)@), first, existing) is Some,
                rename_all(rename_state_of(old(self)@), first, existing.take(i as int)) == Some(rename_state_of(self@)),
                forall|id: Seq<char>| #![trigger resource_id_for(first, id)]
                    match resource_id_for(first, id) {
                        Some(v) => {
                            let x = last_index_of(keys_of(pair_views(current_ids@)), id);
                            x >= 0 && pair_views(current_ids@)[x].1 == v
                        },
                        None => last_index_of(keys_of(pair_views(current_ids@)), id) < 0,
                    },
            decreases existing_ids_with_resource_ids@.len() - i,
        {
            proof {
                use_type_invariant(&*self);
                lemma_rename_prefix_some(rename_state_of(old(self)@), first, existing, i as int + 1);
                assert(existing.take(i + 1).drop_last() =~= existing.take(i as int));
            }
            let (existing_id, existing_resource_id) = &existing_ids_with_resource_ids[i];
            assert(existing.take(i + 1).last() == (existing_id@, existing_resource_id@));
            let ghost cur_spec = resource_id_for(first, existing_id@);
            match resource_id_in(&current_ids, existing_id.as_str()) {
                Some(current) => {
                    assert(cur_spec == Some(current@));
                    let pos = last_position_resource(&self.resources, current.as_str());
                    match pos {
                        Some(p) => {
                            let mut resources = Vec::new();
                            std::mem::swap(&mut resources, &mut self.resources);
                            let ghost before_remove = keyed_views(resources@);
                            let (_, removed) = resources.remove(p);
                            assert(keyed_views(resources@) =~= before_remove.remove(p as int));
                            proof {
                                lemma_remove_unique(before_remove, p as int);
                            }
                            upsert_resource(&mut resources, existing_resource_id.clone(), removed);
                            proof {
                                lemma_upsert_unique(before_remove.remove(p as int), existing_resource_id@, before_remove[p as int].1);
                            }
                            let mut metadata = Vec::new();
                            std::mem::swap(&mut metadata, &mut self.metadata);
                            let ghost before_meta = pair_views(metadata@);
                            upsert_pair(&mut metadata, existing_id.clone(), existing_resource_id.clone());
                            proof {
                                lemma_upsert_unique(before_meta, existing_id@, existing_resource_id@);
                            }
                            self.resources = resources;
                            self.metadata = metadata;
                            let mut to_replace = Vec::new();
                            std::mem::swap(&mut to_replace, &mut self.to_replace);
                            let ghost before_replace = pair_views(to_replace@);
                            to_replace.push((current, existing_resource_id.clone()));
                            assert(pair_views(to_replace@) =~= before_replace.push((current@, existing_resource_id@)));
                            self.to_replace = to_replace;
                        },
                        None => {
                            assert(false);
                        },
                    }
                },
                None => {
                    assert(cur_spec is None);
                },
            }
            i = i + 1;
        }
        assert(existing.take(i as int) =~= existing);
    }

    /// The assets of the stack's functions, in the order of the resources.
    pub fn get_assets(&self) -> (r: Vec<Asset>)
        ensures
            r@ == assets_of(self@.resources),
    {
        let mut out: Vec<Asset> = Vec::new();
        let mut i: usize = 0;
        while i < self.resources.len()
            invariant
                i <= self.resources@.len(),
                out@ == assets_of(self@.resources.take(i as int)),
            decreases self.resources@.len() - i,
        {
            assert(self@.resources.take(i + 1).drop_last() =~= self@.resources.take(i as int));
            match &self.resources[i].1 {
                Resource::Function(f) => match &f.asset {
                    Some(a) => {
                        out.push(a.clone());
                    },
                    None => {},
                },
                _ => {},
            }
            i = i + 1;
        }
        assert(self@.resources.take(self@.resources.len() as int) =~= self@.resources);
        out
    }
}

/// The assets of the functions among the resources, in order.
pub open spec fn assets_of(resources: Seq<(Seq<char>, Resource)>) -> Seq<Asset>
    decreases resources.len(),
{
    if resources.len() == 0 {
        Seq::empty()
    } else {
        let prev = assets_of(resources.drop_last());
        match resources.last().1 {
            Resource::Function(f) => match f@.asset {
                Some(a) => prev.push(a),
                None => prev,
            },
            _ => prev,
        }
    }
}

proof fn lemma_rename_prefix_some(
    st: RenameState,
    first: Seq<(Seq<char>, Resource)>,
    existing: Seq<(Seq<char>, Seq<char>)>,
    n: int,
)
    requires
        0 <= n <= existing.len(),
        rename_all(st, first, existing) is Some,
    ensures
        rename_all(st, first, existing.take(n)) is Some,
    decreases existing.len() - n,
{
    if n < existing.len() {
        lemma_rename_prefix_some(st, first, existing, n + 1);
        assert(existing.take(n + 1).drop_last() =~= existing.take(n));
    } else {
        assert(existing.take(n) =~= existing);
    }
}

/// Sets the entry for `k` to `v`, in place where `k` has one, else at the end.
fn upsert_resource(s: &mut Vec<(String, Resource)>, k: String, v: Resource)
    ensures
        keyed_views(final(s)@) == upsert(keyed_views(old(s)@), k@, v),
{
    proof {
        lemma_last_index_of(keyed_views(s@), k@);
    }
    match last_position_resource(s, k.as_str()) {
        Some(i) => {
            let ghost before = keyed_views(s@);
            let _ = s.remove(i);
            s.insert(i, (k, v));
            assert(keyed_views(s@) =~= before.update(i as int, (k@, v)));
        },
        None => {
            let ghost before = keyed_views(s@);
            s.push((k, v));
            assert(keyed_views(s@) =~= before.push((k@, v)));
        },
    }
}

/// Sets the entry for `k` to `v`, in place where `k` has one, else at the end.
fn upsert_pair(s: &mut Vec<(String, String)>, k: String, v: String)
    ensures
        pair_views(final(s)@) == upsert(pair_views(old(s)@), k@, v@),
{
    proof {
        lemma_last_index_of(pair_views(s@), k@);
    }
    match last_position_pair(s, k.as_str()) {
        Some(i) => {
            let ghost before = pair_views(s@);
            let _ = s.remove(i);
            s.insert(i, (k, v));
            assert(pair_views(s@) =~= before.update(i as int, (k@, v@)));
        },
        None => {
            let ghost before = pair_views(s@);
            s.push((k, v));
            assert(pair_views(s@) =~= before.push((k@, v@)));
        },
    }
}

} // verus!
