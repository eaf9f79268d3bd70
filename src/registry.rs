//! The store that lets separately expanded declarations find each other.
//!
//! Each map is keyed by a scope key. Storing under a key that is already
//! present replaces what was there: the latest write wins, nothing is merged.
use vstd::prelude::*;
use crate::model::{EnumInfo, MachineField, MachineInfo, VariantInfo, MachineModel, MachineName, MachinePath, StateEnumName, StateFilePath, StateModel};
use crate::text::str_eq;

verus! {

/// A value that can be copied with its view kept.
pub trait Duplicate: View + Sized {
    fn duplicate(&self) -> (r: Self)
        ensures
            r@ == self@;
}

/// A value with a declared name.
pub trait Named: View + Sized {
    /// The declared name that a view records.
    spec fn view_name(v: Self::V) -> Seq<char>;

    fn name_str(&self) -> (r: &str)
        ensures
            r@ == Self::view_name(self@);
}

impl Duplicate for EnumInfo {
    fn duplicate(&self) -> (r: Self) {
        self.clone()
    }
}

impl Duplicate for MachineInfo {
    fn duplicate(&self) -> (r: Self) {
        self.clone()
    }
}

impl Named for EnumInfo {
    open spec fn view_name(v: StateModel) -> Seq<char> {
        v.name
    }

    fn name_str(&self) -> (r: &str) {
        self.name.as_str()
    }
}

impl Named for MachineInfo {
    open spec fn view_name(v: MachineModel) -> Seq<char> {
        v.name
    }

    fn name_str(&self) -> (r: &str) {
        self.name.as_str()
    }
}

/// The map that a list of writes leaves: later writes replace earlier ones.
pub open spec fn map_of<T: View>(s: Seq<(String, T)>) -> Map<Seq<char>, T::V>
    decreases s.len(),
{
    if s.len() == 0 {
        Map::empty()
    } else {
        map_of(s.drop_last()).insert(s.last().0@, s.last().1@)
    }
}

proof fn lemma_map_of_absent<T: View>(s: Seq<(String, T)>, k: Seq<char>)
    requires
        forall|j: int| 0 <= j < s.len() ==> (#[trigger] s[j]).0@ != k,
    ensures
        !map_of(s).contains_key(k),
    decreases s.len(),
{
    if s.len() > 0 {
        let p = s.drop_last();
        assert forall|j: int| 0 <= j < p.len() implies (#[trigger] p[j]).0@ != k by {
            assert(p[j] == s[j]);
        }
        lemma_map_of_absent(p, k);
    }
}

proof fn lemma_map_of_latest<T: View>(s: Seq<(String, T)>, k: Seq<char>, i: int)
    requires
        0 <= i < s.len(),
        s[i].0@ == k,
        forall|j: int| i < j < s.len() ==> (#[trigger] s[j]).0@ != k,
    ensures
        map_of(s).contains_key(k),
        map_of(s)[k] == s[i].1@,
    decreases s.len(),
{
    if i < s.len() - 1 {
        let p = s.drop_last();
        assert forall|j: int| i < j < p.len() implies (#[trigger] p[j]).0@ != k by {
            assert(p[j] == s[j]);
        }
        lemma_map_of_latest(p, k, i);
    }
}

proof fn lemma_map_of_update<T: View>(s: Seq<(String, T)>, i: int, e: (String, T))
    requires
        0 <= i < s.len(),
        e.0@ == s[i].0@,
        forall|j: int| i < j < s.len() ==> (#[trigger] s[j]).0@ != s[i].0@,
    ensures
        map_of(s.update(i, e)) == map_of(s).insert(e.0@, e.1@),
    decreases s.len(),
{
    let u = s.update(i, e);
    let p = s.drop_last();
    assert(u.drop_last() =~= if i == s.len() - 1 { p } else { p.update(i, e) });
    if i == s.len() - 1 {
        assert(map_of(u) =~= map_of(s).insert(e.0@, e.1@));
    } else {
        assert forall|j: int| i < j < p.len() implies (#[trigger] p[j]).0@ != p[i].0@ by {
            assert(p[j] == s[j]);
        }
        lemma_map_of_update(p, i, e);
        assert(u.last() == s.last());
        assert(map_of(u) =~= map_of(s).insert(e.0@, e.1@));
    }
}

proof fn lemma_map_of_has_latest<T: View>(s: Seq<(String, T)>, k: Seq<char>)
    requires
        map_of(s).contains_key(k),
    ensures
        exists|i: int|
            0 <= i < s.len() && (#[trigger] s[i]).0@ == k && forall|j: int|
                i < j < s.len() ==> (#[trigger] s[j]).0@ != k,
    decreases s.len(),
{
    if s.last().0@ != k {
        let p = s.drop_last();
        lemma_map_of_has_latest(p, k);
        let i = choose|i: int|
            0 <= i < p.len() && (#[trigger] p[i]).0@ == k && forall|j: int| i < j < p.len() ==> (#[trigger] p[j]).0@ != k;
        assert(s[i] == p[i]);
        assert forall|j: int| i < j < s.len() implies (#[trigger] s[j]).0@ != k by {
            if j < p.len() {
                assert(s[j] == p[j]);
            }
        }
    } else {
        assert(s[s.len() - 1].0@ == k);
    }
}

/// A map from scope keys to metadata.
pub struct ScopeMap<T> {
    entries: Vec<(String, T)>,
}

impl<T: View> View for ScopeMap<T> {
    type V = Map<Seq<char>, T::V>;

    closed spec fn view(&self) -> Map<Seq<char>, T::V> {
        map_of(self.entries@)
    }
}

impl<T: Duplicate> ScopeMap<T> {
    /// An empty map.
    pub fn new() -> (r: Self)
        ensures
            r@ == Map::<Seq<char>, T::V>::empty(),
    {
        ScopeMap { entries: Vec::new() }
    }

    /// Stores `value` under `key`, replacing what the key held before.
    pub fn insert(&mut self, key: &str, value: T)
        ensures
            final(self)@ == old(self)@.insert(key@, value@),
    {
        let k = String::from_str(key);
        let mut i: usize = self.entries.len();
        while i > 0
            invariant
                self.entries@ == old(self).entries@,
                k@ == key@,
                i <= self.entries@.len(),
                forall|j: int| i <= j < self.entries@.len() ==> (#[trigger] self.entries@[j]).0@ != key@,
            decreases i,
        {
            if str_eq(self.entries[i - 1].0.as_str(), key) {
                proof {
                    lemma_map_of_update(self.entries@, i - 1, (k, value));
                }
                self.entries.set(i - 1, (k, value));
                return;
            }
            i = i - 1;
        }
        self.entries.push((k, value));
        assert(self.entries@.drop_last() =~= old(self).entries@);
    }

    /// What `key` holds, if anything.
    pub fn get(&self, key: &str) -> (r: Option<T>)
        ensures
            r is None <==> !self@.contains_key(key@),
            r matches Some(v) ==> v@ == self@[key@],
    {
        let mut i: usize = self.entries.len();
        while i > 0
            invariant
                i <= self.entries@.len(),
                forall|j: int| i <= j < self.entries@.len() ==> (#[trigger] self.entries@[j]).0@ != key@,
            decreases i,
        {
            if str_eq(self.entries[i - 1].0.as_str(), key) {
                proof {
                    lemma_map_of_latest(self.entries@, key@, i - 1);
                }
                return Some(self.entries[i - 1].1.duplicate());
            }
            i = i - 1;
        }
        proof {
            lemma_map_of_absent(self.entries@, key@);
        }
        None
    }

    /// Whether `key` holds anything.
    pub fn contains(&self, key: &str) -> (r: bool)
        ensures
            r == self@.contains_key(key@),
    {
        let mut i: usize = self.entries.len();
        while i > 0
            invariant
                i <= self.entries@.len(),
                forall|j: int| i <= j < self.entries@.len() ==> (#[trigger] self.entries@[j]).0@ != key@,
            decreases i,
        {
            if str_eq(self.entries[i - 1].0.as_str(), key) {
                proof {
                    lemma_map_of_latest(self.entries@, key@, i - 1);
                }
                return true;
            }
            i = i - 1;
        }
        proof {
            lemma_map_of_absent(self.entries@, key@);
        }
        false
    }

    /// A snapshot of the whole map.
    pub fn snapshot(&self) -> (r: Self)
        ensures
            r@ == self@,
    {
        let mut entries: Vec<(String, T)> = Vec::new();
        let mut i: usize = 0;
        while i < self.entries.len()
            invariant
                i <= self.entries@.len(),
                entries@.len() == i,
                forall|j: int| 0 <= j < i ==> (#[trigger] entries@[j]).0@ == self.entries@[j].0@
                    && entries@[j].1@ == self.entries@[j].1@,
            decreases self.entries@.len() - i,
        {
            let k = self.entries[i].0.clone();
            let v = self.entries[i].1.duplicate();
            entries.push((k, v));
            i = i + 1;
        }
        proof {
            lemma_map_of_same_views(entries@, self.entries@);
        }
        ScopeMap { entries }
    }
}

proof fn lemma_map_of_same_views<T: View>(a: Seq<(String, T)>, b: Seq<(String, T)>)
    requires
        a.len() == b.len(),
        forall|j: int| 0 <= j < a.len() ==> (#[trigger] a[j]).0@ == b[j].0@ && a[j].1@ == b[j].1@,
    ensures
        map_of(a) == map_of(b),
    decreases a.len(),
{
    if a.len() > 0 {
        let pa = a.drop_last();
        let pb = b.drop_last();
        assert forall|j: int| 0 <= j < pa.len() implies (#[trigger] pa[j]).0@ == pb[j].0@
            && pa[j].1@ == pb[j].1@ by {
            assert(pa[j] == a[j]);
            assert(pb[j] == b[j]);
        }
        lemma_map_of_same_views(pa, pb);
    }
}

/// State descriptions by scope key.
pub type StateMap = ScopeMap<EnumInfo>;

/// Machine descriptions by scope key.
pub type MachineMap = ScopeMap<MachineInfo>;

/// Both maps that declarations are registered in.
pub struct Registry {
    pub states: StateMap,
    pub machines: MachineMap,
}

impl Registry {
    /// A registry with nothing stored.
    pub fn new() -> (r: Self)
        ensures
            r.states@ == Map::<Seq<char>, StateModel>::empty(),
            r.machines@ == Map::<Seq<char>, MachineModel>::empty(),
    {
        Registry { states: ScopeMap::new(), machines: ScopeMap::new() }
    }
}

/// The map of registered state descriptions.
pub fn get_state_enum_map(registry: &Registry) -> (r: &StateMap)
    ensures
        r@ == registry.states@,
{
    &registry.states
}

/// A snapshot of the registered state descriptions.
pub fn read_state_enum_map(registry: &Registry) -> (r: StateMap)
    ensures
        r@ == registry.states@,
{
    registry.states.snapshot()
}

/// Registers a state description under its scope key.
pub fn store_state_enum(registry: &mut Registry, enum_info: &EnumInfo)
    ensures
        final(registry).states@ == old(registry).states@.insert(enum_info.file_path.0@, enum_info@),
        final(registry).machines@ == old(registry).machines@,
{
    registry.states.insert(enum_info.file_path.0.as_str(), enum_info.clone());
}

/// The map of registered machine descriptions.
pub fn get_machine_map(registry: &Registry) -> (r: &MachineMap)
    ensures
        r@ == registry.machines@,
{
    &registry.machines
}

/// A snapshot of the registered machine descriptions.
pub fn read_machine_map(registry: &Registry) -> (r: MachineMap)
    ensures
        r@ == registry.machines@,
{
    registry.machines.snapshot()
}

/// Registers a machine description under its scope key.
pub fn store_machine_struct(registry: &mut Registry, machine_info: &MachineInfo)
    ensures
        final(registry).machines@ == old(registry).machines@.insert(machine_info.scope_key.0@, machine_info@),
        final(registry).states@ == old(registry).states@,
{
    registry.machines.insert(machine_info.scope_key.0.as_str(), machine_info.clone());
}

/// The machine description registered under `machine_path`, if any.
pub fn get_machine_metadata(registry: &Registry, machine_path: &MachinePath) -> (r: Option<MachineInfo>)
    ensures
        r is None <==> !registry.machines@.contains_key(machine_path.0@),
        r matches Some(m) ==> m@ == registry.machines@[machine_path.0@],
{
    registry.machines.get(machine_path.0.as_str())
}

/// The state description registered under `path`, if any.
pub fn lookup_state(registry: &Registry, path: &StateFilePath) -> (r: Option<EnumInfo>)
    ensures
        r is None <==> !registry.states@.contains_key(path.0@),
        r matches Some(e) ==> e@ == registry.states@[path.0@],
{
    registry.states.get(path.0.as_str())
}

/// Registering two state descriptions under one scope key leaves only the
/// second one visible to later lookups.
pub proof fn lemma_state_store_last_wins(
    before: Map<Seq<char>, StateModel>,
    first: EnumInfo,
    second: EnumInfo,
)
    requires
        first.file_path.0@ == second.file_path.0@,
    ensures
        ({
            let after = before.insert(first.file_path.0@, first@).insert(second.file_path.0@, second@);
            &&& after.contains_key(second.file_path.0@)
            &&& after[second.file_path.0@] == second@
            &&& after == before.insert(second.file_path.0@, second@)
        }),
{
    let k = first.file_path.0@;
    assert(before.insert(k, first@).insert(k, second@) =~= before.insert(k, second@));
}

/// The same holds of machine descriptions.
pub proof fn lemma_machine_store_last_wins(
    before: Map<Seq<char>, MachineModel>,
    first: MachineInfo,
    second: MachineInfo,
)
    requires
        first.scope_key.0@ == second.scope_key.0@,
    ensures
        ({
            let after = before.insert(first.scope_key.0@, first@).insert(second.scope_key.0@, second@);
            &&& after.contains_key(second.scope_key.0@)
            &&& after[second.scope_key.0@] == second@
            &&& after == before.insert(second.scope_key.0@, second@)
        }),
{
    let k = first.scope_key.0@;
    assert(before.insert(k, first@).insert(k, second@) =~= before.insert(k, second@));
}

impl<T: Duplicate + Named> ScopeMap<T> {
    /// Some value of the map declared under the name `name`, whichever scope
    /// it was registered in.
    pub fn find_by_name(&self, name: &str) -> (r: Option<T>)
        ensures
            r is None <==> forall|k: Seq<char>|
                #[trigger] self@.contains_key(k) ==> T::view_name(self@[k]) != name@,
            r matches Some(v) ==> exists|k: Seq<char>|
                #[trigger] self@.contains_key(k) && self@[k] == v@ && T::view_name(v@) == name@,
    {
        let n = self.entries.len();
        let mut i: usize = n;
        while i > 0
            invariant
                n == self.entries@.len(),
                i <= n,
                forall|a: int|
                    i <= a < n && (forall|b: int| a < b < n ==> (#[trigger] self.entries@[b]).0@ != self.entries@[a].0@)
                        ==> T::view_name((#[trigger] self.entries@[a]).1@) != name@,
            decreases i,
        {
            let e = &self.entries[i - 1];
            if str_eq(e.1.name_str(), name) {
                let mut live = true;
                let mut b: usize = i;
                while b < n
                    invariant
                        n == self.entries@.len(),
                        1 <= i <= b <= n,
                        live ==> forall|c: int| i <= c < b ==> (#[trigger] self.entries@[c]).0@ != self.entries@[i - 1].0@,
                        !live ==> exists|c: int| i <= c < n && (#[trigger] self.entries@[c]).0@ == self.entries@[i - 1].0@,
                    decreases n - b,
                {
                    if live && str_eq(self.entries[b].0.as_str(), self.entries[i - 1].0.as_str()) {
                        live = false;
                    }
                    b = b + 1;
                }
                if live {
                    let ghost k = self.entries@[i - 1].0@;
                    proof {
                        lemma_map_of_latest(self.entries@, k, i - 1);
                    }
                    let v = self.entries[i - 1].1.duplicate();
                    assert(self@.contains_key(k) && self@[k] == v@ && T::view_name(v@) == name@);
                    return Some(v);
                }
            }
            i = i - 1;
        }
        proof {
            assert forall|k: Seq<char>| #[trigger] self@.contains_key(k) implies T::view_name(self@[k]) != name@ by {
                lemma_map_of_has_latest(self.entries@, k);
                let a = choose|a: int|
                    0 <= a < self.entries@.len() && (#[trigger] self.entries@[a]).0@ == k && forall|j: int|
                        a < j < self.entries@.len() ==> (#[trigger] self.entries@[j]).0@ != k;
                lemma_map_of_latest(self.entries@, k, a);
            }
        }
        None
    }
}

/// The state description declared under `name` in any scope, if any.
pub fn find_state_by_name(registry: &Registry, name: &StateEnumName) -> (r: Option<EnumInfo>)
    ensures
        r is None <==> forall|k: Seq<char>|
            #[trigger] registry.states@.contains_key(k) ==> registry.states@[k].name != name.0@,
        r matches Some(v) ==> exists|k: Seq<char>|
            #[trigger] registry.states@.contains_key(k) && registry.states@[k] == v@ && v@.name == name.0@,
{
    registry.states.find_by_name(name.0.as_str())
}

/// The machine description declared under `name` in any scope, if any.
pub fn find_machine_by_name(registry: &Registry, name: &MachineName) -> (r: Option<MachineInfo>)
    ensures
        r is None <==> forall|k: Seq<char>|
            #[trigger] registry.machines@.contains_key(k) ==> registry.machines@[k].name != name.0@,
        r matches Some(v) ==> exists|k: Seq<char>|
            #[trigger] registry.machines@.contains_key(k) && registry.machines@[k] == v@ && v@.name == name.0@,
{
    registry.machines.find_by_name(name.0.as_str())
}

/// The variants of the state description declared under `enum_name`, in
/// declared order, if one is registered in any scope.
pub fn get_state_variants(registry: &Registry, enum_name: &StateEnumName) -> (r: Option<Vec<VariantInfo>>)
    ensures
        r is None <==> forall|k: Seq<char>|
            #[trigger] registry.states@.contains_key(k) ==> registry.states@[k].name != enum_name.0@,
        r matches Some(vs) ==> exists|k: Seq<char>|
            #[trigger] registry.states@.contains_key(k) && registry.states@[k].variants == vs@
                && registry.states@[k].name == enum_name.0@,
{
    match find_state_by_name(registry, enum_name) {
        Some(info) => Some(info.variants),
        None => None,
    }
}

/// The context fields of the machine declared under `machine_name`, in
/// declared order, if one is registered in any scope.
pub fn get_machine_fields(registry: &Registry, machine_name: &MachineName) -> (r: Option<Vec<MachineField>>)
    ensures
        r is None <==> forall|k: Seq<char>|
            #[trigger] registry.machines@.contains_key(k) ==> registry.machines@[k].name != machine_name.0@,
        r matches Some(fs) ==> exists|k: Seq<char>|
            #[trigger] registry.machines@.contains_key(k) && registry.machines@[k].fields == fs@
                && registry.machines@[k].name == machine_name.0@,
{
    match find_machine_by_name(registry, machine_name) {
        Some(info) => Some(info.fields),
        None => None,
    }
}

} // verus!
