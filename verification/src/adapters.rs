//! The registry the provider fills at start-up: each adapter (a backend
//! crate wrapped for OpenSSL) registers its algorithms per operation, its
//! capabilities per capability name, and its signature object ids. Once
//! finalized, the registry answers lookups and accepts no more
//! registrations; each operation's algorithm list is then closed by an end
//! marker.

use std::collections::HashMap;
use vstd::prelude::*;
use crate::der::bytes_eq;
use crate::error::Error;

verus! {

broadcast use vstd::std_specs::hash::group_hash_axioms;

/// A signature algorithm's object identifier and names, to be made known to
/// OpenSSL's object database.
#[derive(Debug, Clone, Copy)]
pub struct ObjSigId {
    pub oid: &'static str,
    pub short_name: &'static str,
    pub long_name: &'static str,
    pub digest_name: Option<&'static str>,
}

/// An adapter, as the registry sees it: it tells what it registers.
/// `A` is an algorithm entry, `P` a capability's parameter list.
pub trait AdapterContextTrait<A, P> {
    /// The algorithm lists the adapter registers, each under its operation
    /// id, in order.
    spec fn spec_algorithms(&self) -> Seq<(u32, Seq<A>)>;

    /// The capabilities the adapter registers, each under its name, in
    /// order.
    spec fn spec_capabilities(&self) -> Seq<(&'static str, P)>;

    /// The signature object ids the adapter registers, in order.
    spec fn spec_obj_sigids(&self) -> Seq<ObjSigId>;

    /// The algorithms of the adapter, each list under its operation id.
    fn register_algorithms(&self) -> (r: Result<Vec<(u32, Vec<A>)>, Error>)
        ensures
            r matches Ok(v) ==> registrations_view(v@) == self.spec_algorithms(),
    ;

    /// The capabilities of the adapter, each under its capability name.
    fn register_capabilities(&self) -> (r: Result<Vec<(&'static str, P)>, Error>)
        ensures
            r matches Ok(v) ==> v@ == self.spec_capabilities(),
    ;

    /// The signature object ids of the adapter.
    fn register_obj_sigids(&self) -> (r: Result<Vec<ObjSigId>, Error>)
        ensures
            r matches Ok(v) ==> v@ == self.spec_obj_sigids(),
    ;
}

/// The algorithm lists that `adapters` register, one adapter after the
/// other.
pub open spec fn all_algorithms<C: AdapterContextTrait<A, P>, A, P>(adapters: Seq<C>) -> Seq<(u32, Seq<A>)>
    decreases adapters.len(),
{
    if adapters.len() == 0 {
        Seq::empty()
    } else {
        all_algorithms::<C, A, P>(adapters.drop_last()) + adapters.last().spec_algorithms()
    }
}

/// The capabilities that `adapters` register, one adapter after the other.
pub open spec fn all_capabilities<C: AdapterContextTrait<A, P>, A, P>(adapters: Seq<C>) -> Seq<
    (&'static str, P),
>
    decreases adapters.len(),
{
    if adapters.len() == 0 {
        Seq::empty()
    } else {
        all_capabilities::<C, A, P>(adapters.drop_last()) + adapters.last().spec_capabilities()
    }
}

/// The signature object ids that `adapters` register, one adapter after
/// the other.
pub open spec fn all_obj_sigids<C: AdapterContextTrait<A, P>, A, P>(adapters: Seq<C>) -> Seq<ObjSigId>
    decreases adapters.len(),
{
    if adapters.len() == 0 {
        Seq::empty()
    } else {
        all_obj_sigids::<C, A, P>(adapters.drop_last()) + adapters.last().spec_obj_sigids()
    }
}

/// An adapter given by what it registers: for each kind of registration,
/// the list it registers or the error it fails with. The backends' adapters
/// are of this kind: their tables are fixed.
#[derive(Debug)]
pub struct StaticAdapter<A, P> {
    pub algorithms: Result<Vec<(u32, Vec<A>)>, Error>,
    pub capabilities: Result<Vec<(&'static str, P)>, Error>,
    pub obj_sigids: Result<Vec<ObjSigId>, Error>,
}

/// A copy of a list of copyable items.
fn copy_items<T: Copy>(v: &Vec<T>) -> (out: Vec<T>)
    ensures
        out@ == v@,
{
    let mut out: Vec<T> = Vec::new();
    let mut i: usize = 0;
    while i < v.len()
        invariant
            i <= v@.len(),
            out@ == v@.subrange(0, i as int),
        decreases v@.len() - i,
    {
        out.push(v[i]);
        i = i + 1;
        assert(out@ =~= v@.subrange(0, i as int));
    }
    assert(v@.subrange(0, v@.len() as int) =~= v@);
    out
}

/// A copy of algorithm registrations.
fn copy_registrations<A: Copy>(v: &Vec<(u32, Vec<A>)>) -> (out: Vec<(u32, Vec<A>)>)
    ensures
        registrations_view(out@) == registrations_view(v@),
{
    let mut out: Vec<(u32, Vec<A>)> = Vec::new();
    let mut i: usize = 0;
    while i < v.len()
        invariant
            i <= v@.len(),
            registrations_view(out@) == registrations_view(v@).subrange(0, i as int),
        decreases v@.len() - i,
    {
        let ghost prev = out@;
        let list = copy_items(&v[i].1);
        out.push((v[i].0, list));
        assert(registrations_view(out@) =~= registrations_view(prev).push((v@[i as int].0, v@[i as int].1@)));
        i = i + 1;
        assert(registrations_view(out@) =~= registrations_view(v@).subrange(0, i as int));
    }
    assert(registrations_view(v@).subrange(0, v@.len() as int) =~= registrations_view(v@));
    out
}

impl<A: Copy, P: Copy> AdapterContextTrait<A, P> for StaticAdapter<A, P> {
    open spec fn spec_algorithms(&self) -> Seq<(u32, Seq<A>)> {
        match self.algorithms {
            Ok(v) => registrations_view(v@),
            Err(_) => Seq::empty(),
        }
    }

    open spec fn spec_capabilities(&self) -> Seq<(&'static str, P)> {
        match self.capabilities {
            Ok(v) => v@,
            Err(_) => Seq::empty(),
        }
    }

    open spec fn spec_obj_sigids(&self) -> Seq<ObjSigId> {
        match self.obj_sigids {
            Ok(v) => v@,
            Err(_) => Seq::empty(),
        }
    }

    fn register_algorithms(&self) -> (r: Result<Vec<(u32, Vec<A>)>, Error>)
        ensures
            r is Err <==> self.algorithms is Err,
            r matches Err(e) ==> self.algorithms == Err::<Vec<(u32, Vec<A>)>, Error>(e),
    {
        match &self.algorithms {
            Ok(v) => Ok(copy_registrations(v)),
            Err(e) => Err(*e),
        }
    }

    fn register_capabilities(&self) -> (r: Result<Vec<(&'static str, P)>, Error>)
        ensures
            r is Err <==> self.capabilities is Err,
            r matches Err(e) ==> self.capabilities == Err::<Vec<(&'static str, P)>, Error>(e),
    {
        match &self.capabilities {
            Ok(v) => Ok(copy_items(v)),
            Err(e) => Err(*e),
        }
    }

    fn register_obj_sigids(&self) -> (r: Result<Vec<ObjSigId>, Error>)
        ensures
            r is Err <==> self.obj_sigids is Err,
            r matches Err(e) ==> self.obj_sigids == Err::<Vec<ObjSigId>, Error>(e),
    {
        match &self.obj_sigids {
            Ok(v) => Ok(copy_items(v)),
            Err(e) => Err(*e),
        }
    }
}

/// The algorithms registered under `op`, or none.
pub open spec fn algorithms_or_empty<A>(m: Map<u32, Seq<A>>, op: u32) -> Seq<A> {
    if m.contains_key(op) {
        m[op]
    } else {
        Seq::empty()
    }
}

/// The algorithm table after registering `algs` under `op`: appended to
/// what `op` already has.
pub open spec fn spec_register_algorithms<A>(m: Map<u32, Seq<A>>, op: u32, algs: Seq<A>) -> Map<u32, Seq<A>> {
    m.insert(op, algorithms_or_empty(m, op) + algs)
}

/// The view of algorithm registrations: each operation id with its list.
pub open spec fn registrations_view<A>(v: Seq<(u32, Vec<A>)>) -> Seq<(u32, Seq<A>)> {
    v.map_values(|p: (u32, Vec<A>)| (p.0, p.1@))
}

/// The algorithm table after registering `regs` in order, starting from `m`.
pub open spec fn spec_register_all<A>(m: Map<u32, Seq<A>>, regs: Seq<(u32, Seq<A>)>) -> Map<u32, Seq<A>>
    decreases regs.len(),
{
    if regs.len() == 0 {
        m
    } else {
        spec_register_algorithms(spec_register_all(m, regs.drop_last()), regs.last().0, regs.last().1)
    }
}

/// The parameter lists that the capability registrations `regs` give the
/// name `name`, in order.
pub open spec fn spec_capability_registrations<P>(regs: Seq<(&'static str, P)>, name: Seq<char>) -> Seq<P>
    decreases regs.len(),
{
    if regs.len() == 0 {
        Seq::empty()
    } else if regs.last().0@ == name {
        spec_capability_registrations(regs.drop_last(), name).push(regs.last().1)
    } else {
        spec_capability_registrations(regs.drop_last(), name)
    }
}

/// The algorithm table after finalization: every list closed by `end`.
pub open spec fn spec_finalize_algorithms<A>(m: Map<u32, Seq<A>>, end: A) -> Map<u32, Seq<A>> {
    Map::new(|op: u32| m.contains_key(op), |op: u32| m[op].push(end))
}

/// Algorithm lists per operation id, with the operation ids in the order
/// they were first registered.
#[derive(Debug)]
pub struct AlgorithmTable<A> {
    op_ids: Vec<u32>,
    lists: HashMap<u32, Vec<A>>,
}

impl<A> AlgorithmTable<A> {
    /// Every operation id occurs once, and exactly the listed ones have a
    /// list.
    pub closed spec fn wf(&self) -> bool {
        &&& self.op_ids@.no_duplicates()
        &&& forall|op: u32| #[trigger] self.lists@.contains_key(op) <==> self.op_ids@.contains(op)
    }

    /// The lists, per operation id.
    pub closed spec fn view(&self) -> Map<u32, Seq<A>> {
        self.lists@.map_values(|v: Vec<A>| v@)
    }

    /// An empty table.
    pub fn new() -> (t: Self)
        ensures
            t.wf(),
            t.view() == Map::<u32, Seq<A>>::empty(),
    {
        let t = AlgorithmTable { op_ids: Vec::new(), lists: HashMap::new() };
        assert(t.view() =~= Map::<u32, Seq<A>>::empty());
        t
    }

    /// Appends `algs` to the list of `op`.
    pub fn register(&mut self, op: u32, algs: Vec<A>)
        requires
            old(self).wf(),
        ensures
            final(self).wf(),
            final(self).view() == spec_register_algorithms(old(self).view(), op, algs@),
    {
        let ghost old_view = self.view();
        let ghost old_ops = self.op_ids@;
        let mut list = match self.lists.remove(&op) {
            Some(v) => v,
            None => {
                self.op_ids.push(op);
                Vec::new()
            },
        };
        let mut algs = algs;
        let ghost before = list@;
        let ghost added = algs@;
        list.append(&mut algs);
        self.lists.insert(op, list);
        proof {
            assert(before =~= algorithms_or_empty(old_view, op));
            assert(self.view() =~= spec_register_algorithms(old_view, op, added));
            if !old_ops.contains(op) {
                assert forall|i: int, j: int| 0 <= i < j < self.op_ids@.len() implies self.op_ids@[i]
                    != self.op_ids@[j] by {
                    if j == old_ops.len() {
                        assert(old_ops[i] == self.op_ids@[i]);
                    }
                }
            }
            assert forall|o: u32| #[trigger] self.lists@.contains_key(o) <==> self.op_ids@.contains(o) by {
                if o == op {
                    if !old_ops.contains(op) {
                        assert(self.op_ids@[old_ops.len() as int] == op);
                    }
                } else if old_ops.contains(o) {
                    let k = choose|k: int| 0 <= k < old_ops.len() && old_ops[k] == o;
                    assert(self.op_ids@[k] == o);
                } else if self.op_ids@.contains(o) {
                    let k = choose|k: int| 0 <= k < self.op_ids@.len() && self.op_ids@[k] == o;
                    assert(k < old_ops.len());
                    assert(old_ops[k] == o);
                }
            }
        }
    }

    /// Closes every list with `end`.
    pub fn finalize(self, end: A) -> (t: Self)
        where
            A: Copy,
        requires
            self.wf(),
        ensures
            t.wf(),
            t.view() == spec_finalize_algorithms(self.view(), end),
    {
        let ghost orig = self.view();
        let AlgorithmTable { op_ids, mut lists } = self;
        let mut done: HashMap<u32, Vec<A>> = HashMap::new();
        let mut i: usize = 0;
        assert(op_ids@.subrange(0, op_ids@.len() as int) =~= op_ids@);
        assert(op_ids@.subrange(0, 0).len() == 0);
        while i < op_ids.len()
            invariant
                i <= op_ids@.len(),
                op_ids@.no_duplicates(),
                forall|o: u32| #[trigger] lists@.contains_key(o) <==> op_ids@.subrange(i as int, op_ids@.len() as int).contains(o),
                forall|o: u32| #[trigger] lists@.contains_key(o) ==> orig.contains_key(o) && lists@[o]@ == orig[o],
                forall|o: u32| #[trigger] done@.contains_key(o) <==> op_ids@.subrange(0, i as int).contains(o),
                forall|o: u32| #[trigger] done@.contains_key(o) ==> orig.contains_key(o) && done@[o]@ == orig[o].push(end),
            decreases op_ids@.len() - i,
        {
            let op = op_ids[i];
            assert(op_ids@.subrange(i as int, op_ids@.len() as int)[0] == op);
            let mut v = match lists.remove(&op) {
                Some(v) => v,
                None => Vec::new(),
            };
            v.push(end);
            done.insert(op, v);
            proof {
                assert forall|o: u32| #[trigger] lists@.contains_key(o) <==> op_ids@.subrange(i + 1, op_ids@.len() as int).contains(o) by {
                    let rest = op_ids@.subrange(i as int, op_ids@.len() as int);
                    let rest2 = op_ids@.subrange(i + 1, op_ids@.len() as int);
                    if rest2.contains(o) {
                        let k = choose|k: int| 0 <= k < rest2.len() && rest2[k] == o;
                        assert(rest[k + 1] == o);
                        assert(op_ids@[i + 1 + k] != op_ids@[i as int]);
                    }
                    if o != op && rest.contains(o) {
                        let k = choose|k: int| 0 <= k < rest.len() && rest[k] == o;
                        assert(k != 0);
                        assert(rest2[k - 1] == o);
                    }
                }
                assert forall|o: u32| #[trigger] done@.contains_key(o) <==> op_ids@.subrange(0, i + 1).contains(o) by {
                    let pre = op_ids@.subrange(0, i as int);
                    let pre2 = op_ids@.subrange(0, i + 1);
                    if o == op {
                        assert(pre2[i as int] == op);
                    } else {
                        if pre.contains(o) {
                            let k = choose|k: int| 0 <= k < pre.len() && pre[k] == o;
                            assert(pre2[k] == o);
                        }
                        if pre2.contains(o) {
                            let k = choose|k: int| 0 <= k < pre2.len() && pre2[k] == o;
                            assert(k < i);
                            assert(pre[k] == o);
                        }
                    }
                }
            }
            i = i + 1;
        }
        proof {
            assert forall|o: u32| #[trigger] done@.contains_key(o) <==> op_ids@.contains(o) by {
                assert(op_ids@.subrange(0, op_ids@.len() as int) =~= op_ids@);
            }
            assert forall|o: u32| orig.contains_key(o) implies #[trigger] done@.contains_key(o) by {
                assert(op_ids@.subrange(0, op_ids@.len() as int) =~= op_ids@);
                assert(op_ids@.subrange(op_ids@.len() as int, op_ids@.len() as int).len() == 0);
            }
        }
        let t = AlgorithmTable { op_ids, lists: done };
        assert(t.view() =~= spec_finalize_algorithms(orig, end));
        t
    }

    /// The list of `op`, if it has one.
    pub fn get(&self, op: u32) -> (r: Option<&Vec<A>>)
        ensures
            r is Some <==> self.view().contains_key(op),
            r matches Some(v) ==> v@ == self.view()[op],
    {
        self.lists.get(&op)
    }
}

/// The parameter lists registered under a capability name, in the order
/// they were registered; none when the name was never registered.
pub open spec fn capability_lists<P>(l: Seq<(&'static str, Vec<P>)>, name: Seq<char>) -> Seq<P> {
    if exists|i: int| 0 <= i < l.len() && l[i].0@ == name {
        l[choose|i: int| 0 <= i < l.len() && l[i].0@ == name].1@
    } else {
        Seq::empty()
    }
}

/// Parameter lists per capability name.
#[derive(Debug)]
pub struct CapabilityTable<P> {
    entries: Vec<(&'static str, Vec<P>)>,
}

impl<P> CapabilityTable<P> {
    /// No capability name occurs twice, and every name has a list.
    pub closed spec fn wf(&self) -> bool {
        &&& forall|i: int, j: int|
            0 <= i < j < self.entries@.len() ==> #[trigger] self.entries@[i].0@ != #[trigger] self.entries@[j].0@
        &&& forall|i: int| 0 <= i < self.entries@.len() ==> (#[trigger] self.entries@[i]).1@.len() > 0
    }

    /// The parameter lists registered under `name`.
    pub closed spec fn lists(&self, name: Seq<char>) -> Seq<P> {
        capability_lists(self.entries@, name)
    }

    /// An empty table.
    pub fn new() -> (t: Self)
        ensures
            t.wf(),
            forall|name: Seq<char>| #[trigger] t.lists(name) == Seq::<P>::empty(),
    {
        CapabilityTable { entries: Vec::new() }
    }

    /// The index of the entry of `name`, if there is one.
    fn find(&self, name: &str) -> (r: Option<usize>)
        requires
            self.wf(),
        ensures
            r matches Some(i) ==> i < self.entries@.len() && self.entries@[i as int].0@ == name@,
            r is None ==> forall|j: int| 0 <= j < self.entries@.len() ==> self.entries@[j].0@ != name@,
    {
        let mut i: usize = 0;
        while i < self.entries.len()
            invariant
                i <= self.entries@.len(),
                forall|j: int| 0 <= j < i ==> self.entries@[j].0@ != name@,
            decreases self.entries@.len() - i,
        {
            let same = bytes_eq(self.entries[i].0.as_bytes(), name.as_bytes());
            proof {
                vstd::utf8::encode_utf8_decode_utf8(self.entries@[i as int].0@);
                vstd::utf8::encode_utf8_decode_utf8(name@);
            }
            if same {
                return Some(i);
            }
            i = i + 1;
        }
        None
    }

    /// Appends `params` to the lists of `name`.
    pub fn register(&mut self, name: &'static str, params: P)
        requires
            old(self).wf(),
        ensures
            final(self).wf(),
            forall|n: Seq<char>|
                #[trigger] final(self).lists(n) == if n == name@ {
                    old(self).lists(n).push(params)
                } else {
                    old(self).lists(n)
                },
    {
        let ghost old_entries = self.entries@;
        match self.find(name) {
            Some(i) => {
                let (key, mut list) = self.entries.remove(i);
                list.push(params);
                let ghost lv = list@;
                self.entries.insert(i, (key, list));
                proof {
                    let e = self.entries@;
                    assert(e =~= old_entries.update(i as int, (key, list)));
                    assert forall|a: int, b: int| 0 <= a < b < e.len() implies #[trigger] e[a].0@ != #[trigger] e[b].0@ by {
                        assert(e[a].0 == old_entries[a].0);
                        assert(e[b].0 == old_entries[b].0);
                    }
                    assert forall|a: int| 0 <= a < e.len() implies (#[trigger] e[a]).1@.len() > 0 by {
                        if a != i {
                            assert(e[a] == old_entries[a]);
                        } else {
                            assert(e[a].1@ == lv);
                        }
                    }
                    assert forall|n: Seq<char>| #[trigger] capability_lists(e, n) == if n == name@ {
                        capability_lists(old_entries, n).push(params)
                    } else {
                        capability_lists(old_entries, n)
                    } by {
                        if n == name@ {
                            assert(e[i as int].0@ == n);
                            assert(old_entries[i as int].0@ == n);
                            let j = choose|j: int| 0 <= j < e.len() && e[j].0@ == n;
                            let k = choose|k: int| 0 <= k < old_entries.len() && old_entries[k].0@ == n;
                            assert(j == i);
                            assert(k == i);
                        } else if exists|j: int| 0 <= j < e.len() && e[j].0@ == n {
                            let j = choose|j: int| 0 <= j < e.len() && e[j].0@ == n;
                            assert(old_entries[j].0@ == n);
                            let k = choose|k: int| 0 <= k < old_entries.len() && old_entries[k].0@ == n;
                            assert(e[k].0@ == n);
                            assert(j == k);
                        } else {
                            assert forall|k: int| 0 <= k < old_entries.len() implies old_entries[k].0@ != n by {
                                assert(e[k].0@ == old_entries[k].0@ || k == i);
                            }
                        }
                    }
                }
            },
            None => {
                let mut list: Vec<P> = Vec::new();
                list.push(params);
                self.entries.push((name, list));
                proof {
                    let e = self.entries@;
                    let last = old_entries.len() as int;
                    assert forall|a: int, b: int| 0 <= a < b < e.len() implies #[trigger] e[a].0@ != #[trigger] e[b].0@ by {
                        assert(e[a] == old_entries[a]);
                        if b < last {
                            assert(e[b] == old_entries[b]);
                        }
                    }
                    assert forall|a: int| 0 <= a < e.len() implies (#[trigger] e[a]).1@.len() > 0 by {
                        if a < last {
                            assert(e[a] == old_entries[a]);
                        }
                    }
                    assert forall|n: Seq<char>| #[trigger] capability_lists(e, n) == if n == name@ {
                        capability_lists(old_entries, n).push(params)
                    } else {
                        capability_lists(old_entries, n)
                    } by {
                        if n == name@ {
                            assert(e[last].0@ == n);
                            let j = choose|j: int| 0 <= j < e.len() && e[j].0@ == n;
                            assert(j == last);
                            assert(list@ =~= Seq::<P>::empty().push(params));
                        } else if exists|j: int| 0 <= j < e.len() && e[j].0@ == n {
                            let j = choose|j: int| 0 <= j < e.len() && e[j].0@ == n;
                            assert(j < last);
                            assert(old_entries[j].0@ == n);
                            let k = choose|k: int| 0 <= k < old_entries.len() && old_entries[k].0@ == n;
                            assert(e[k].0@ == n);
                        } else {
                            assert forall|k: int| 0 <= k < old_entries.len() implies old_entries[k].0@ != n by {
                                assert(e[k] == old_entries[k]);
                            }
                        }
                    }
                }
            },
        }
    }

    /// The lists of `name`, if it has any.
    pub fn get(&self, name: &str) -> (r: Option<&Vec<P>>)
        requires
            self.wf(),
        ensures
            r is Some <==> self.lists(name@).len() > 0,
            r matches Some(v) ==> v@ == self.lists(name@),
    {
        match self.find(name) {
            Some(i) => {
                let ghost j = choose|j: int| 0 <= j < self.entries@.len() && self.entries@[j].0@ == name@;
                assert(j == i);
                Some(&self.entries[i].1)
            },
            None => None,
        }
    }
}

/// The registry while adapters register.
#[derive(Debug)]
pub struct AdaptersHandle<C, A, P> {
    contexts: Vec<C>,
    algorithms: AlgorithmTable<A>,
    capabilities: CapabilityTable<P>,
    obj_sigids: Vec<ObjSigId>,
    finalized: bool,
}

impl<C, A, P> AdaptersHandle<C, A, P> {
    /// The tables are well formed.
    pub closed spec fn wf(&self) -> bool {
        self.algorithms.wf() && self.capabilities.wf()
    }

    /// The registered adapters.
    pub closed spec fn contexts(&self) -> Seq<C> {
        self.contexts@
    }

    /// The registered algorithms, per operation id.
    pub closed spec fn algorithms(&self) -> Map<u32, Seq<A>> {
        self.algorithms.view()
    }

    /// The parameter lists registered under the capability `name`.
    pub closed spec fn capabilities(&self, name: Seq<char>) -> Seq<P> {
        self.capabilities.lists(name)
    }

    /// The recorded signature object ids.
    pub closed spec fn obj_sigids(&self) -> Seq<ObjSigId> {
        self.obj_sigids@
    }

    /// Whether the registry was finalized.
    pub closed spec fn finalized(&self) -> bool {
        self.finalized
    }

    /// An empty registry, open for registration.
    pub fn new() -> (h: Self)
        ensures
            h.contexts() == Seq::<C>::empty(),
            h.algorithms() == Map::<u32, Seq<A>>::empty(),
            forall|name: Seq<char>| #[trigger] h.capabilities(name) == Seq::<P>::empty(),
            h.obj_sigids() == Seq::<ObjSigId>::empty(),
            !h.finalized(),
            h.wf(),
    {
        AdaptersHandle {
            contexts: Vec::new(),
            algorithms: AlgorithmTable::new(),
            capabilities: CapabilityTable::new(),
            obj_sigids: Vec::new(),
            finalized: false,
        }
    }

    /// Registers an adapter; ignored once the registry is finalized.
    pub fn register_adapter(&mut self, ctx: C)
        requires
            old(self).wf(),
        ensures
            final(self).wf(),
            final(self).contexts() == if old(self).finalized() {
                old(self).contexts()
            } else {
                old(self).contexts().push(ctx)
            },
            final(self).algorithms() == old(self).algorithms(),
            forall|name: Seq<char>| #[trigger] final(self).capabilities(name) == old(self).capabilities(name),
            final(self).obj_sigids() == old(self).obj_sigids(),
            final(self).finalized() == old(self).finalized(),
    {
        if self.finalized {
            return;
        }
        self.contexts.push(ctx);
    }

    /// Fails once the registry is finalized.
    pub fn check_state(&self) -> (r: Result<(), Error>)
        ensures
            r is Ok <==> !self.finalized(),
            r matches Err(e) ==> e == Error::AlreadyFinalized,
    {
        if self.finalized {
            return Err(Error::AlreadyFinalized);
        }
        Ok(())
    }

    /// Registers `algs` under the operation id `op_id`, after those already
    /// registered under it. Refused once the registry is finalized.
    pub fn register_algorithms(&mut self, op_id: u32, algs: Vec<A>) -> (r: Result<(), Error>)
        requires
            old(self).wf(),
        ensures
            final(self).wf(),
            r is Ok <==> !old(self).finalized(),
            r matches Err(e) ==> e == Error::AlreadyFinalized,
            final(self).algorithms() == if r is Ok {
                spec_register_algorithms(old(self).algorithms(), op_id, algs@)
            } else {
                old(self).algorithms()
            },
            final(self).contexts() == old(self).contexts(),
            forall|name: Seq<char>| #[trigger] final(self).capabilities(name) == old(self).capabilities(name),
            final(self).obj_sigids() == old(self).obj_sigids(),
            final(self).finalized() == old(self).finalized(),
    {
        if let Err(e) = self.check_state() {
            return Err(e);
        }
        self.algorithms.register(op_id, algs);
        Ok(())
    }

    /// Registers the parameter list `params` under the capability name
    /// `capability`, after those already registered under it. Refused once
    /// the registry is finalized.
    pub fn register_capability(&mut self, capability: &'static str, params: P) -> (r: Result<(), Error>)
        requires
            old(self).wf(),
        ensures
            final(self).wf(),
            r is Ok <==> !old(self).finalized(),
            r matches Err(e) ==> e == Error::AlreadyFinalized,
            forall|name: Seq<char>|
                #[trigger] final(self).capabilities(name) == if r is Ok && name == capability@ {
                    old(self).capabilities(name).push(params)
                } else {
                    old(self).capabilities(name)
                },
            final(self).contexts() == old(self).contexts(),
            final(self).algorithms() == old(self).algorithms(),
            final(self).obj_sigids() == old(self).obj_sigids(),
            final(self).finalized() == old(self).finalized(),
    {
        if let Err(e) = self.check_state() {
            return Err(e);
        }
        self.capabilities.register(capability, params);
        Ok(())
    }

    /// Records a signature object id, to be made known to OpenSSL's object
    /// database (see [`ObjSigIdRegistration`]).
    pub fn register_obj_sigid(&mut self, obj_sigid: ObjSigId)
        requires
            old(self).wf(),
        ensures
            final(self).wf(),
            final(self).obj_sigids() == old(self).obj_sigids().push(obj_sigid),
            final(self).contexts() == old(self).contexts(),
            final(self).algorithms() == old(self).algorithms(),
            forall|name: Seq<char>| #[trigger] final(self).capabilities(name) == old(self).capabilities(name),
            final(self).finalized() == old(self).finalized(),
    {
        self.obj_sigids.push(obj_sigid);
    }

    /// Closes the registry: every operation's algorithm list gets the end
    /// marker `end`.
    fn finalize(self, end: A) -> (f: FinalizedAdaptersHandle<C, A, P>)
        where
            A: Copy,
        requires
            !self.finalized(),
            self.wf(),
        ensures
            f.wf(),
            f.contexts() == self.contexts(),
            f.algorithms() == spec_finalize_algorithms(self.algorithms(), end),
            forall|name: Seq<char>| #[trigger] f.capabilities(name) == self.capabilities(name),
            f.obj_sigids() == self.obj_sigids(),
    {
        let AdaptersHandle { contexts, algorithms, capabilities, obj_sigids, finalized: _ } = self;
        let algorithms = algorithms.finalize(end);
        FinalizedAdaptersHandle { contexts, algorithms, capabilities, obj_sigids }
    }
}

/// The registry once every adapter has registered.
#[derive(Debug)]
pub struct FinalizedAdaptersHandle<C, A, P> {
    contexts: Vec<C>,
    algorithms: AlgorithmTable<A>,
    capabilities: CapabilityTable<P>,
    obj_sigids: Vec<ObjSigId>,
}

impl<C, A, P> FinalizedAdaptersHandle<C, A, P> {
    /// The tables are well formed.
    pub closed spec fn wf(&self) -> bool {
        self.algorithms.wf() && self.capabilities.wf()
    }

    /// The registered adapters.
    pub closed spec fn contexts(&self) -> Seq<C> {
        self.contexts@
    }

    /// The algorithm lists, per operation id, each closed by the end marker.
    pub closed spec fn algorithms(&self) -> Map<u32, Seq<A>> {
        self.algorithms.view()
    }

    /// The parameter lists registered under the capability `name`.
    pub closed spec fn capabilities(&self, name: Seq<char>) -> Seq<P> {
        self.capabilities.lists(name)
    }

    /// The recorded signature object ids.
    pub closed spec fn obj_sigids(&self) -> Seq<ObjSigId> {
        self.obj_sigids@
    }

    /// The registry that `contexts` make when their registrations, in
    /// order, are the algorithm lists `algorithms`, the capabilities
    /// `capabilities` and the signature object ids `obj_sigids`, finalized
    /// with the end marker `end`.
    pub fn from_registrations(
        contexts: Vec<C>,
        algorithms: Vec<(u32, Vec<A>)>,
        capabilities: Vec<(&'static str, P)>,
        obj_sigids: Vec<ObjSigId>,
        end: A,
    ) -> (f: Self)
        where
            A: Copy,
        ensures
            f.wf(),
            f.contexts() == contexts@,
            f.algorithms() == spec_finalize_algorithms(
                spec_register_all(Map::<u32, Seq<A>>::empty(), registrations_view(algorithms@)),
                end,
            ),
            forall|name: Seq<char>| #[trigger] f.capabilities(name) == spec_capability_registrations(
                capabilities@,
                name,
            ),
            f.obj_sigids() == obj_sigids@,
    {
        let ghost ctxs = contexts@;
        let ghost ids = obj_sigids@;
        let mut handle: AdaptersHandle<C, A, P> = AdaptersHandle {
            contexts,
            algorithms: AlgorithmTable::new(),
            capabilities: CapabilityTable::new(),
            obj_sigids,
            finalized: false,
        };
        let ghost regs = registrations_view(algorithms@);
        let ghost mut n: int = 0;
        let mut algorithms = algorithms;
        assert(regs.take(0) =~= Seq::<(u32, Seq<A>)>::empty());
        assert(registrations_view(algorithms@) =~= regs.subrange(0, regs.len() as int));
        while algorithms.len() > 0
            invariant
                !handle.finalized(),
                handle.wf(),
                0 <= n <= regs.len(),
                registrations_view(algorithms@) == regs.subrange(n, regs.len() as int),
                handle.algorithms() == spec_register_all(Map::<u32, Seq<A>>::empty(), regs.take(n)),
                forall|name: Seq<char>| #[trigger] handle.capabilities(name) == Seq::<P>::empty(),
                handle.contexts() == ctxs,
                handle.obj_sigids() == ids,
            decreases algorithms@.len(),
        {
            let ghost before = algorithms@;
            let (op_id, list) = algorithms.remove(0);
            proof {
                assert(registrations_view(before).len() == before.len());
                assert(n < regs.len());
                assert(regs.subrange(n, regs.len() as int)[0] == regs[n]);
                assert(registrations_view(before)[0] == (op_id, list@));
                assert(algorithms@ =~= before.subrange(1, before.len() as int));
                assert forall|j: int| 0 <= j < registrations_view(algorithms@).len() implies #[trigger] registrations_view(
                    algorithms@,
                )[j] == regs.subrange(n + 1, regs.len() as int)[j] by {
                    assert(registrations_view(before)[j + 1] == regs.subrange(n, regs.len() as int)[j + 1]);
                }
                assert(regs[n] == (op_id, list@));
                assert(regs.take(n + 1).drop_last() =~= regs.take(n));
                assert(registrations_view(algorithms@) =~= regs.subrange(n + 1, regs.len() as int));
            }
            let _ = handle.register_algorithms(op_id, list);
            proof {
                n = n + 1;
            }
        }
        assert(regs.take(n) =~= regs);
        let ghost caps = capabilities@;
        let ghost mut k: int = 0;
        let mut capabilities = capabilities;
        assert forall|name: Seq<char>| #[trigger] spec_capability_registrations(caps.take(0), name)
            == Seq::<P>::empty() by {
            assert(caps.take(0) =~= Seq::<(&'static str, P)>::empty());
        }
        assert(capabilities@ =~= caps.subrange(0, caps.len() as int));
        while capabilities.len() > 0
            invariant
                !handle.finalized(),
                handle.wf(),
                0 <= k <= caps.len(),
                capabilities@ == caps.subrange(k, caps.len() as int),
                handle.algorithms() == spec_register_all(Map::<u32, Seq<A>>::empty(), regs),
                forall|name: Seq<char>| #[trigger] handle.capabilities(name) == spec_capability_registrations(
                    caps.take(k),
                    name,
                ),
                handle.contexts() == ctxs,
                handle.obj_sigids() == ids,
            decreases capabilities@.len(),
        {
            let ghost before = capabilities@;
            let (name, params) = capabilities.remove(0);
            proof {
                assert(k < caps.len());
                assert(caps.subrange(k, caps.len() as int)[0] == caps[k]);
                assert(before[0] == (name, params));
                assert(caps[k] == (name, params));
                assert(caps.take(k + 1).drop_last() =~= caps.take(k));
                assert(capabilities@ =~= caps.subrange(k + 1, caps.len() as int));
            }
            let _ = handle.register_capability(name, params);
            proof {
                k = k + 1;
            }
        }
        assert(caps.take(k) =~= caps);
        let f = handle.finalize(end);
        assert forall|name: Seq<char>| #[trigger] f.capabilities(name) == spec_capability_registrations(
            caps,
            name,
        ) by {
            assert(f.capabilities(name) == handle.capabilities(name));
            assert(handle.capabilities(name) == spec_capability_registrations(caps.take(k), name));
        }
        f
    }

    /// Registers `adapters` in order and has each register its algorithms,
    /// then each its capabilities, then each its signature object ids; the
    /// first failure of an adapter is returned. Otherwise the registry is
    /// the one [`Self::from_registrations`] makes of what they registered.
    /// With no adapters, no adapter can fail: the registry is empty.
    pub fn new(adapters: Vec<C>, end: A) -> (r: Result<Self, Error>)
        where
            C: AdapterContextTrait<A, P>,
            A: Copy,
        ensures
            r matches Ok(f) ==> {
                &&& f.wf()
                &&& f.contexts() == adapters@
                &&& forall|op: u32| #[trigger] f.algorithms().contains_key(op) ==> f.algorithms()[op].len() > 0
                    && f.algorithms()[op].last() == end
            },
            r matches Ok(f) ==> f.algorithms() == spec_finalize_algorithms(
                spec_register_all(Map::<u32, Seq<A>>::empty(), all_algorithms::<C, A, P>(adapters@)),
                end,
            ),
            r matches Ok(f) ==> forall|name: Seq<char>| #[trigger] f.capabilities(name)
                == spec_capability_registrations(all_capabilities::<C, A, P>(adapters@), name),
            r matches Ok(f) ==> f.obj_sigids() == all_obj_sigids::<C, A, P>(adapters@),
            adapters@.len() == 0 ==> (r matches Ok(f) && f.algorithms() == Map::<u32, Seq<A>>::empty() && (
            forall|name: Seq<char>| #[trigger] f.capabilities(name) == Seq::<P>::empty())
                && f.obj_sigids() == Seq::<ObjSigId>::empty()),
    {
        let ghost cs = adapters@;
        let mut algorithms: Vec<(u32, Vec<A>)> = Vec::new();
        let mut i: usize = 0;
        assert(cs.take(0) =~= Seq::<C>::empty());
        assert(registrations_view(algorithms@) =~= Seq::<(u32, Seq<A>)>::empty());
        while i < adapters.len()
            invariant
                i <= adapters@.len(),
                adapters@.len() == 0 ==> algorithms@.len() == 0,
                adapters@ == cs,
                registrations_view(algorithms@) == all_algorithms::<C, A, P>(cs.take(i as int)),
            decreases adapters@.len() - i,
        {
            assert(cs.take(i + 1).drop_last() =~= cs.take(i as int));
            assert(cs.take(i + 1).last() == cs[i as int]);
            match adapters[i].register_algorithms() {
                Ok(mut a) => {
                    let ghost before = algorithms@;
                    let ghost added = a@;
                    algorithms.append(&mut a);
                    assert(registrations_view(algorithms@) =~= registrations_view(before) + registrations_view(added));
                },
                Err(e) => {
                    return Err(e);
                },
            }
            i = i + 1;
        }
        assert(cs.take(cs.len() as int) =~= cs);
        let mut capabilities: Vec<(&'static str, P)> = Vec::new();
        let mut i: usize = 0;
        assert(capabilities@ =~= all_capabilities::<C, A, P>(cs.take(0)));
        while i < adapters.len()
            invariant
                i <= adapters@.len(),
                registrations_view(algorithms@) == all_algorithms::<C, A, P>(cs),
                cs.take(cs.len() as int) == cs,
                adapters@.len() == 0 ==> capabilities@.len() == 0,
                adapters@ == cs,
                capabilities@ == all_capabilities::<C, A, P>(cs.take(i as int)),
            decreases adapters@.len() - i,
        {
            assert(cs.take(i + 1).drop_last() =~= cs.take(i as int));
            assert(cs.take(i + 1).last() == cs[i as int]);
            match adapters[i].register_capabilities() {
                Ok(mut c) => capabilities.append(&mut c),
                Err(e) => {
                    return Err(e);
                },
            }
            i = i + 1;
        }
        let mut obj_sigids: Vec<ObjSigId> = Vec::new();
        let mut i: usize = 0;
        assert(obj_sigids@ =~= all_obj_sigids::<C, A, P>(cs.take(0)));
        while i < adapters.len()
            invariant
                i <= adapters@.len(),
                registrations_view(algorithms@) == all_algorithms::<C, A, P>(cs),
                capabilities@ == all_capabilities::<C, A, P>(cs),
                cs.take(cs.len() as int) == cs,
                adapters@.len() == 0 ==> obj_sigids@.len() == 0,
                adapters@ == cs,
                obj_sigids@ == all_obj_sigids::<C, A, P>(cs.take(i as int)),
            decreases adapters@.len() - i,
        {
            assert(cs.take(i + 1).drop_last() =~= cs.take(i as int));
            assert(cs.take(i + 1).last() == cs[i as int]);
            match adapters[i].register_obj_sigids() {
                Ok(mut v) => obj_sigids.append(&mut v),
                Err(e) => {
                    return Err(e);
                },
            }
            i = i + 1;
        }
        assert(cs.take(cs.len() as int) =~= cs);
        let ghost cap_regs = capabilities@;
        let ghost alg_regs = registrations_view(algorithms@);
        let ghost id_regs = obj_sigids@;
        let f = Self::from_registrations(adapters, algorithms, capabilities, obj_sigids, end);
        proof {
            if alg_regs.len() == 0 {
                assert(spec_finalize_algorithms(
                    spec_register_all(Map::<u32, Seq<A>>::empty(), alg_regs),
                    end,
                ) =~= Map::<u32, Seq<A>>::empty());
            }
            assert forall|op: u32| #[trigger] f.algorithms().contains_key(op) implies f.algorithms()[op].len() > 0
                && f.algorithms()[op].last() == end by {
            }
            if cap_regs.len() == 0 {
                assert forall|name: Seq<char>| #[trigger] f.capabilities(name) == Seq::<P>::empty() by {
                }
            }
            if id_regs.len() == 0 {
                assert(f.obj_sigids() =~= Seq::<ObjSigId>::empty());
            }
        }
        Ok(f)
    }

    /// The algorithm list of the operation `op`, closed by the end marker;
    /// none when no adapter registered algorithms for `op`.
    pub fn get_algorithms_by_op_id(&self, op: u32) -> (r: Option<&Vec<A>>)
        requires
            self.wf(),
        ensures
            r is Some <==> self.algorithms().contains_key(op),
            r matches Some(v) ==> v@ == self.algorithms()[op],
    {
        self.algorithms.get(op)
    }

    /// The parameter lists registered under the capability `capability`, in
    /// the order they were registered; none when there are none.
    pub fn get_capabilities(&self, capability: &str) -> (r: Option<&Vec<P>>)
        requires
            self.wf(),
        ensures
            r is Some <==> self.capabilities(capability@).len() > 0,
            r matches Some(v) ==> v@ == self.capabilities(capability@),
    {
        self.capabilities.get(capability)
    }

    /// The recorded signature object ids, in the order they were recorded.
    pub fn registered_obj_sigids(&self) -> (v: &Vec<ObjSigId>)
        ensures
            v@ == self.obj_sigids(),
    {
        &self.obj_sigids
    }
}

/// A call into OpenSSL's object database.
#[derive(Debug, Clone, Copy)]
pub enum ObjSigIdCall {
    /// `OBJ_create(oid, short_name, long_name)`.
    Create { oid: &'static str, short_name: &'static str, long_name: &'static str },
    /// `OBJ_add_sigid(sign_name, digest_name, pkey_name)`.
    AddSigId { sign_name: &'static str, digest_name: Option<&'static str>, pkey_name: &'static str },
}

/// What to do next in a registration.
#[derive(Debug, Clone, Copy)]
pub enum ObjSigIdStep {
    /// Make this call and report its outcome.
    Call(ObjSigIdCall),
    /// The registration is over, with this result.
    Done(Result<(), Error>),
}

/// Where a registration stands.
#[derive(Debug, Clone, Copy, PartialEq, Eq, Structural)]
pub enum ObjSigIdStage {
    Creating,
    Adding,
    Finished,
}

/// Making a signature object id known to OpenSSL: first the object is
/// created from its OID and names, then it is declared a signature
/// algorithm whose name is the OID, with its digest and with its long name
/// as key type. A failed call ends the registration with its error.
#[derive(Debug)]
pub struct ObjSigIdRegistration {
    pub obj: ObjSigId,
    pub stage: ObjSigIdStage,
}

/// The first call of a registration.
pub open spec fn spec_create_call(obj: ObjSigId) -> ObjSigIdCall {
    ObjSigIdCall::Create { oid: obj.oid, short_name: obj.short_name, long_name: obj.long_name }
}

/// The second call of a registration.
pub open spec fn spec_add_sigid_call(obj: ObjSigId) -> ObjSigIdCall {
    ObjSigIdCall::AddSigId { sign_name: obj.oid, digest_name: obj.digest_name, pkey_name: obj.long_name }
}

impl ObjSigIdRegistration {
    /// Starts registering `obj`.
    pub fn start(obj: ObjSigId) -> (r: (ObjSigIdRegistration, ObjSigIdStep))
        ensures
            r.0.obj == obj,
            r.0.stage == ObjSigIdStage::Creating,
            r.1 == ObjSigIdStep::Call(spec_create_call(obj)),
    {
        let call = ObjSigIdCall::Create { oid: obj.oid, short_name: obj.short_name, long_name: obj.long_name };
        (ObjSigIdRegistration { obj, stage: ObjSigIdStage::Creating }, ObjSigIdStep::Call(call))
    }

    /// Takes the outcome of the last call and tells what to do next. After
    /// the registration is over, every outcome is answered with `Done(Ok)`.
    pub fn step(&mut self, outcome: Result<(), Error>) -> (s: ObjSigIdStep)
        ensures
            final(self).obj == old(self).obj,
            old(self).stage == ObjSigIdStage::Creating ==> match outcome {
                Ok(()) => final(self).stage == ObjSigIdStage::Adding && s == ObjSigIdStep::Call(
                    spec_add_sigid_call(old(self).obj),
                ),
                Err(e) => final(self).stage == ObjSigIdStage::Finished && s == ObjSigIdStep::Done(Err(e)),
            },
            old(self).stage == ObjSigIdStage::Adding ==> final(self).stage == ObjSigIdStage::Finished && s
                == ObjSigIdStep::Done(outcome),
            old(self).stage == ObjSigIdStage::Finished ==> final(self).stage == ObjSigIdStage::Finished && s
                == ObjSigIdStep::Done(Ok(())),
    {
        match self.stage {
            ObjSigIdStage::Creating => match outcome {
                Ok(()) => {
                    self.stage = ObjSigIdStage::Adding;
                    ObjSigIdStep::Call(
                        ObjSigIdCall::AddSigId {
                            sign_name: self.obj.oid,
                            digest_name: self.obj.digest_name,
                            pkey_name: self.obj.long_name,
                        },
                    )
                },
                Err(e) => {
                    self.stage = ObjSigIdStage::Finished;
                    ObjSigIdStep::Done(Err(e))
                },
            },
            ObjSigIdStage::Adding => {
                self.stage = ObjSigIdStage::Finished;
                ObjSigIdStep::Done(outcome)
            },
            ObjSigIdStage::Finished => ObjSigIdStep::Done(Ok(())),
        }
    }
}

/// Reading an operation's algorithms after registering and finalizing
/// gives what was registered before, then what was registered last, then
/// the end marker.
pub proof fn lemma_register_then_finalize<A>(m: Map<u32, Seq<A>>, op: u32, algs: Seq<A>, end: A)
    ensures
        spec_finalize_algorithms(spec_register_algorithms(m, op, algs), end).contains_key(op),
        spec_finalize_algorithms(spec_register_algorithms(m, op, algs), end)[op] == algorithms_or_empty(m, op)
            + algs + seq![end],
{
    assert((algorithms_or_empty(m, op) + algs).push(end) =~= algorithms_or_empty(m, op) + algs + seq![end]);
}

/// Registering under one operation id leaves the others as they were.
pub proof fn lemma_register_other_op<A>(m: Map<u32, Seq<A>>, op: u32, other: u32, algs: Seq<A>)
    requires
        other != op,
    ensures
        algorithms_or_empty(spec_register_algorithms(m, op, algs), other) == algorithms_or_empty(m, other),
{
}

} // verus!
