//! Built packages and the name-keyed registry that holds them.
use vstd::prelude::*;
use crate::source::{Source, SourceModel};

verus! {

/// A built package: its name and its sources in declaration order.
pub struct Package {
    pub name: String,
    pub src: Vec<Source>,
}

/// What a package is, as plain values.
pub struct PackageModel {
    pub name: Seq<char>,
    pub src: Seq<SourceModel>,
}

impl View for Package {
    type V = PackageModel;

    open spec fn view(&self) -> PackageModel {
        PackageModel { name: self.name@, src: self.src@.map_values(|s: Source| s@) }
    }
}

/// Position of the last package called `name` in `s`, or -1.
pub open spec fn position_of(s: Seq<PackageModel>, name: Seq<char>) -> int
    decreases s.len(),
{
    if s.len() == 0 {
        -1
    } else if s.last().name == name {
        s.len() - 1
    } else {
        position_of(s.drop_last(), name)
    }
}

/// The package registered under `name`.
pub open spec fn lookup(s: Seq<PackageModel>, name: Seq<char>) -> Option<PackageModel> {
    let i = position_of(s, name);
    if i >= 0 {
        Some(s[i])
    } else {
        None
    }
}

/// The registry after registering `p`: it replaces the package of the same
/// name in place, or is appended.
pub open spec fn inserted(s: Seq<PackageModel>, p: PackageModel) -> Seq<PackageModel> {
    let i = position_of(s, p.name);
    if i >= 0 {
        s.update(i, p)
    } else {
        s.push(p)
    }
}

/// No two packages share a name.
pub open spec fn names_unique(s: Seq<PackageModel>) -> bool {
    forall|i: int, j: int|
        0 <= i < s.len() && 0 <= j < s.len() && #[trigger] s[i].name == #[trigger] s[j].name ==> i == j
}

/// The names of the registered packages.
pub open spec fn names(s: Seq<PackageModel>) -> Set<Seq<char>> {
    Set::new(|n: Seq<char>| exists|i: int| 0 <= i < s.len() && #[trigger] s[i].name == n)
}

pub proof fn lemma_position_bounds(s: Seq<PackageModel>, name: Seq<char>)
    ensures
        -1 <= position_of(s, name) < s.len(),
        position_of(s, name) >= 0 ==> s[position_of(s, name)].name == name,
        position_of(s, name) < 0 ==> forall|j: int| 0 <= j < s.len() ==> #[trigger] s[j].name != name,
    decreases s.len(),
{
    if s.len() > 0 {
        lemma_position_bounds(s.drop_last(), name);
        if s.last().name != name {
            assert forall|j: int| 0 <= j < s.len() - 1 implies #[trigger] s[j] == s.drop_last()[j] by {}
        }
    }
}

/// Replacing a package by one of the same name moves no name.
pub proof fn lemma_position_same_name(s: Seq<PackageModel>, k: int, p: PackageModel, name: Seq<char>)
    requires
        0 <= k < s.len(),
        s[k].name == p.name,
    ensures
        position_of(s.update(k, p), name) == position_of(s, name),
    decreases s.len(),
{
    let t = s.update(k, p);
    if k < s.len() - 1 {
        assert(t.drop_last() =~= s.drop_last().update(k, p));
        lemma_position_same_name(s.drop_last(), k, p, name);
    } else {
        assert(t.drop_last() =~= s.drop_last());
    }
}

/// The registry's contents, package by package, after registering `p`.
pub proof fn lemma_lookup_inserted(s: Seq<PackageModel>, p: PackageModel, name: Seq<char>)
    ensures
        lookup(inserted(s, p), name) == if name == p.name {
            Some(p)
        } else {
            lookup(s, name)
        },
{
    lemma_position_bounds(s, p.name);
    let i = position_of(s, p.name);
    if i >= 0 {
        lemma_position_same_name(s, i, p, name);
        lemma_position_bounds(s, name);
        if name == p.name {
            assert(position_of(s, name) == i);
        } else {
            lemma_position_bounds(s, name);
            if position_of(s, name) >= 0 {
                assert(position_of(s, name) != i);
            }
        }
    } else {
        let t = s.push(p);
        assert(t.drop_last() =~= s);
        assert(t.last() == p);
        lemma_position_bounds(s, name);
        if name != p.name {
            assert(position_of(t, name) == position_of(s, name));
            if position_of(s, name) >= 0 {
                assert(t[position_of(s, name)] == s[position_of(s, name)]);
            }
        }
    }
}

/// Registering keeps names unique.
pub proof fn lemma_inserted_unique(s: Seq<PackageModel>, p: PackageModel)
    requires
        names_unique(s),
    ensures
        names_unique(inserted(s, p)),
{
    lemma_position_bounds(s, p.name);
    let t = inserted(s, p);
    if position_of(s, p.name) < 0 {
        assert forall|i: int, j: int|
            0 <= i < t.len() && 0 <= j < t.len() && #[trigger] t[i].name == #[trigger] t[j].name implies i == j by {
            if i < s.len() && j < s.len() {
                assert(s[i].name == s[j].name);
            }
        }
    } else {
        let k = position_of(s, p.name);
        assert forall|i: int, j: int|
            0 <= i < t.len() && 0 <= j < t.len() && #[trigger] t[i].name == #[trigger] t[j].name implies i == j by {
            assert(t[i].name == s[i].name);
            assert(t[j].name == s[j].name);
        }
    }
}

/// The names after registering `p`: those before, and `p`'s.
pub proof fn lemma_names_inserted(s: Seq<PackageModel>, p: PackageModel)
    ensures
        names(inserted(s, p)) == names(s).insert(p.name),
{
    lemma_position_bounds(s, p.name);
    let t = inserted(s, p);
    let k = position_of(s, p.name);
    assert forall|n: Seq<char>| names(t).contains(n) <==> names(s).insert(p.name).contains(n) by {
        if names(t).contains(n) {
            let i = choose|i: int| 0 <= i < t.len() && #[trigger] t[i].name == n;
            if k >= 0 {
                assert(t[i].name == s[i].name);
            } else if i < s.len() {
                assert(t[i] == s[i]);
            }
        }
        if names(s).contains(n) {
            let i = choose|i: int| 0 <= i < s.len() && #[trigger] s[i].name == n;
            assert(t[i].name == n);
        }
        if n == p.name {
            if k >= 0 {
                assert(t[k].name == n);
            } else {
                assert(t[s.len() as int].name == n);
            }
        }
    }
    assert(names(t) =~= names(s).insert(p.name));
}

/// Once two registrations have both completed, in either order, both
/// packages are listed, and which one ran first changes nothing about
/// packages of distinct names.
pub proof fn lemma_registrations_visible(s: Seq<PackageModel>, a: PackageModel, b: PackageModel)
    requires
        a.name != b.name,
    ensures
        names(inserted(inserted(s, a), b)).contains(a.name),
        names(inserted(inserted(s, a), b)).contains(b.name),
        names(inserted(inserted(s, b), a)).contains(a.name),
        names(inserted(inserted(s, b), a)).contains(b.name),
        forall|n: Seq<char>|
            lookup(inserted(inserted(s, a), b), n) == lookup(inserted(inserted(s, b), a), n),
{
    lemma_names_inserted(s, a);
    lemma_names_inserted(inserted(s, a), b);
    lemma_names_inserted(s, b);
    lemma_names_inserted(inserted(s, b), a);
    assert forall|n: Seq<char>|
        lookup(inserted(inserted(s, a), b), n) == lookup(inserted(inserted(s, b), a), n) by {
        lemma_lookup_inserted(s, a, n);
        lemma_lookup_inserted(inserted(s, a), b, n);
        lemma_lookup_inserted(s, b, n);
        lemma_lookup_inserted(inserted(s, b), a, n);
    }
}

/// Registering a package under a name already taken replaces it: the name is
/// listed once, with the later package.
pub proof fn lemma_same_name_replaces(s: Seq<PackageModel>, a: PackageModel, b: PackageModel)
    requires
        names_unique(s),
        a.name == b.name,
    ensures
        lookup(inserted(inserted(s, a), b), a.name) == Some(b),
        inserted(inserted(s, a), b).len() == inserted(s, a).len(),
{
    lemma_lookup_inserted(inserted(s, a), b, a.name);
    lemma_lookup_inserted(s, a, a.name);
    lemma_position_bounds(inserted(s, a), b.name);
}

/// The registry after registering each of `ps`, in order.
pub open spec fn inserted_all(s: Seq<PackageModel>, ps: Seq<PackageModel>) -> Seq<PackageModel>
    decreases ps.len(),
{
    if ps.len() == 0 {
        s
    } else {
        inserted(inserted_all(s, ps.drop_last()), ps.last())
    }
}

/// Once every scheduled registration has completed, whatever order they ran
/// in, the registry lists exactly the names it held before together with
/// the names of all registered packages.
pub proof fn lemma_all_registrations_visible(s: Seq<PackageModel>, ps: Seq<PackageModel>)
    ensures
        names(inserted_all(s, ps)) == names(s) + ps.map_values(|p: PackageModel| p.name).to_set(),
    decreases ps.len(),
{
    let ns = ps.map_values(|p: PackageModel| p.name);
    if ps.len() == 0 {
        assert(ns.to_set() =~= Set::empty());
        assert(names(s) + ns.to_set() =~= names(s));
    } else {
        let init = ps.drop_last();
        lemma_all_registrations_visible(s, init);
        lemma_names_inserted(inserted_all(s, init), ps.last());
        let ni = init.map_values(|p: PackageModel| p.name);
        assert(ns =~= ni.push(ps.last().name));
        assert forall|n: Seq<char>| ns.to_set().contains(n) <==> ni.to_set().insert(ps.last().name).contains(n) by {
            if ns.to_set().contains(n) {
                let k = choose|k: int| 0 <= k < ns.len() && ns[k] == n;
                if k < ni.len() {
                    assert(ni[k] == n);
                }
            }
            if ni.to_set().contains(n) {
                let k = choose|k: int| 0 <= k < ni.len() && ni[k] == n;
                assert(ns[k] == n);
            }
            if n == ps.last().name {
                assert(ns[ns.len() - 1] == n);
            }
        }
        assert(names(inserted_all(s, ps)) =~= names(s) + ns.to_set());
    }
}

/// The registry of built packages, keyed by name.
pub struct PackageStore {
    packages: Vec<Package>,
}

impl PackageStore {
    /// The registered packages, in the order their names were first registered.
    pub closed spec fn view(&self) -> Seq<PackageModel> {
        self.packages@.map_values(|p: Package| p@)
    }

    pub open spec fn wf(&self) -> bool {
        names_unique(self.view())
    }

    /// An empty registry.
    pub fn new() -> (r: PackageStore)
        ensures
            r.wf(),
            r.view() == Seq::<PackageModel>::empty(),
    {
        let r = PackageStore { packages: Vec::new() };
        assert(r.view() =~= Seq::<PackageModel>::empty());
        r
    }

    /// Index of the package called `name`.
    fn find(&self, name: &String) -> (r: Option<usize>)
        requires
            self.wf(),
        ensures
            r matches Some(i) ==> position_of(self.view(), name@) == i && i < self.view().len(),
            r is None ==> position_of(self.view(), name@) == -1,
    {
        let ghost s = self.view();
        let mut i: usize = 0;
        while i < self.packages.len()
            invariant
                i <= self.packages.len(),
                s == self.view(),
                s.len() == self.packages@.len(),
                names_unique(s),
                forall|j: int| 0 <= j < i ==> #[trigger] s[j].name != name@,
            decreases self.packages.len() - i,
        {
            if self.packages[i].name == *name {
                proof {
                    assert(s[i as int] == self.packages@[i as int]@);
                    lemma_position_bounds(s, name@);
                    assert(s[i as int].name == name@);
                    let k = position_of(s, name@);
                    assert(k >= 0);
                    assert(s[k].name == s[i as int].name);
                    assert(names_unique(s));
                    assert(k == i);
                }
                return Some(i);
            }
            assert(s[i as int] == self.packages@[i as int]@);
            i = i + 1;
        }
        proof {
            lemma_position_bounds(s, name@);
        }
        None
    }

    /// Registers `p`, replacing any package of the same name.
    pub fn insert(&mut self, p: Package)
        requires
            old(self).wf(),
        ensures
            final(self).wf(),
            final(self).view() == inserted(old(self).view(), p@),
    {
        let ghost s = self.view();
        proof {
            lemma_inserted_unique(s, p@);
        }
        match self.find(&p.name) {
            Some(i) => {
                self.packages.set(i, p);
                assert(self.view() =~= s.update(i as int, p@));
            },
            None => {
                self.packages.push(p);
                assert(self.view() =~= s.push(p@));
            },
        }
    }

    /// The package registered under `name`.
    pub fn get(&self, name: &String) -> (r: Option<&Package>)
        requires
            self.wf(),
        ensures
            match r {
                Some(p) => lookup(self.view(), name@) == Some(p@),
                None => lookup(self.view(), name@) is None,
            },
    {
        match self.find(name) {
            Some(i) => Some(&self.packages[i]),
            None => None,
        }
    }

    /// All registered packages.
    pub fn list(&self) -> (r: &Vec<Package>)
        ensures
            r@.map_values(|p: Package| p@) == self.view(),
    {
        &self.packages
    }
}

} // verus!
