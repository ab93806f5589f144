//! Substitutions of types for type parameters.
use vstd::prelude::*;
use vstd::std_specs::convert::FromSpecImpl;

verus! {

/// The name of a type, as the symbol that the name is interned as.
#[derive(Clone, Copy, Debug, PartialEq, Eq, Structural, Hash, PartialOrd, Ord)]
pub struct TypeName(pub u32);

/// Whether no name occurs twice among the keys of `entries`.
pub open spec fn keys_distinct<T>(entries: Seq<(TypeName, T)>) -> bool {
    forall|i: int, j: int|
        0 <= i < entries.len() && 0 <= j < entries.len() && i != j ==> entries[i].0
            != entries[j].0
}

/// The entries after `value` is inserted under `key`: a key that is present keeps its place
/// and takes the new value; a new key goes to the end.
pub open spec fn inserted<T>(entries: Seq<(TypeName, T)>, key: TypeName, value: T) -> Seq<
    (TypeName, T),
> {
    if exists|i: int| 0 <= i < entries.len() && entries[i].0 == key {
        let i = choose|i: int| 0 <= i < entries.len() && entries[i].0 == key;
        entries.update(i, (key, value))
    } else {
        entries.push((key, value))
    }
}

/// The names of the entries, in order.
pub open spec fn names_of<T>(entries: Seq<(TypeName, T)>) -> Seq<TypeName> {
    entries.map_values(|e: (TypeName, T)| e.0)
}

/// Inserting under a key and then looking the key up gives back the inserted value: the
/// key is present once with that value, the other entries keep their place and value, and
/// the map grows only by a new key.
pub proof fn lemma_insert_then_lookup<T>(entries: Seq<(TypeName, T)>, key: TypeName, value: T)
    requires
        keys_distinct(entries),
    ensures
        keys_distinct(inserted(entries, key, value)),
        exists|i: int|
            0 <= i < inserted(entries, key, value).len() && inserted(entries, key, value)[i] == (
            key,
            value,
        ),
        forall|j: int|
            0 <= j < entries.len() && entries[j].0 != key ==> inserted(entries, key, value)[j]
                == entries[j],
        inserted(entries, key, value).len() == entries.len() + (if exists|i: int|
            0 <= i < entries.len() && entries[i].0 == key {
            0int
        } else {
            1int
        }),
{
    let r = inserted(entries, key, value);
    if exists|i: int| 0 <= i < entries.len() && entries[i].0 == key {
        let i = choose|i: int| 0 <= i < entries.len() && entries[i].0 == key;
        assert(r[i] == (key, value));
    } else {
        assert(r[entries.len() as int] == (key, value));
    }
}

/// A map from type names that keeps its entries in the order in which their names were
/// first inserted.
#[derive(Debug)]
pub struct TypeNameIndexMap<T> {
    entries: Vec<(TypeName, T)>,
}

impl<T> View for TypeNameIndexMap<T> {
    type V = Seq<(TypeName, T)>;

    closed spec fn view(&self) -> Seq<(TypeName, T)> {
        self.entries@
    }
}

impl<T> TypeNameIndexMap<T> {
    #[verifier::type_invariant]
    closed spec fn names_are_distinct(self) -> bool {
        keys_distinct(self.entries@)
    }

    /// The empty map.
    pub fn new() -> (r: Self)
        ensures
            r@ == Seq::<(TypeName, T)>::empty(),
    {
        TypeNameIndexMap { entries: Vec::new() }
    }

    /// The number of entries.
    pub fn len(&self) -> (r: usize)
        ensures
            r == self@.len(),
            keys_distinct(self@),
    {
        proof {
            use_type_invariant(self);
        }
        self.entries.len()
    }

    /// The position of `key` among the entries, if it is present.
    pub fn get_index_of(&self, key: &TypeName) -> (r: Option<usize>)
        ensures
            r matches Some(i) ==> i < self@.len() && self@[i as int].0 == *key,
            r is None ==> forall|i: int| 0 <= i < self@.len() ==> self@[i].0 != *key,
    {
        let mut i: usize = 0;
        while i < self.entries.len()
            invariant
                0 <= i <= self.entries@.len(),
                forall|j: int| 0 <= j < i ==> self.entries@[j].0 != *key,
            decreases self.entries@.len() - i,
        {
            if self.entries[i].0 == *key {
                return Some(i);
            }
            i = i + 1;
        }
        None
    }

    /// The value under `key`, if it is present.
    pub fn get(&self, key: &TypeName) -> (r: Option<&T>)
        ensures
            keys_distinct(self@),
            r matches Some(v) ==> exists|i: int|
                0 <= i < self@.len() && self@[i].0 == *key && self@[i].1 == *v,
            r is None ==> forall|i: int| 0 <= i < self@.len() ==> self@[i].0 != *key,
    {
        proof {
            use_type_invariant(self);
        }
        match self.get_index_of(key) {
            Some(i) => Some(&self.entries[i].1),
            None => None,
        }
    }

    /// The key and the value at position `i`, if there is one.
    pub fn get_index(&self, i: usize) -> (r: Option<(&TypeName, &T)>)
        ensures
            r matches Some(e) ==> i < self@.len() && *e.0 == self@[i as int].0 && *e.1
                == self@[i as int].1,
            r is None <==> i >= self@.len(),
    {
        if i < self.entries.len() {
            let e = &self.entries[i];
            Some((&e.0, &e.1))
        } else {
            None
        }
    }

    /// Inserts `value` under `key`. A key that is present keeps its position and takes the
    /// new value, which gives back the old one; a new key goes to the end.
    pub fn insert(&mut self, key: TypeName, value: T) -> (r: Option<T>)
        ensures
            final(self)@ == inserted(old(self)@, key, value),
            keys_distinct(final(self)@),
            r is Some <==> exists|i: int| 0 <= i < old(self)@.len() && old(self)@[i].0 == key,
            r matches Some(v) ==> exists|i: int|
                0 <= i < old(self)@.len() && old(self)@[i] == (key, v),
    {
        proof {
            use_type_invariant(&*self);
        }
        let mut entries: Vec<(TypeName, T)> = Vec::new();
        std::mem::swap(&mut entries, &mut self.entries);
        let ghost before = entries@;
        let mut i: usize = 0;
        while i < entries.len()
            invariant
                entries@ == before,
                before == old(self)@,
                keys_distinct(before),
                0 <= i <= before.len(),
                forall|j: int| 0 <= j < i ==> before[j].0 != key,
            decreases before.len() - i,
        {
            if entries[i].0 == key {
                let (_, old_value) = entries.remove(i);
                entries.insert(i, (key, value));
                proof {
                    assert(before[i as int].0 == key);
                    let c = choose|j: int| 0 <= j < before.len() && before[j].0 == key;
                    assert(c == i);
                    assert(entries@ =~= before.update(i as int, (key, value)));
                }
                self.entries = entries;
                return Some(old_value);
            }
            i = i + 1;
        }
        entries.push((key, value));
        proof {
            assert(entries@ =~= before.push((key, value)));
        }
        self.entries = entries;
        None
    }
}

impl<T: Clone> Clone for TypeNameIndexMap<T> {
    /// A map with the same names in the same order, each with a clone of its value.
    fn clone(&self) -> (r: Self)
        ensures
            r@.len() == self@.len(),
            forall|i: int|
                0 <= i < self@.len() ==> r@[i].0 == self@[i].0 && cloned(self@[i].1, r@[i].1),
    {
        proof {
            use_type_invariant(self);
        }
        let mut entries: Vec<(TypeName, T)> = Vec::new();
        let mut i: usize = 0;
        while i < self.entries.len()
            invariant
                0 <= i <= self.entries@.len(),
                keys_distinct(self.entries@),
                entries@.len() == i,
                forall|j: int|
                    0 <= j < i ==> entries@[j].0 == self.entries@[j].0 && cloned(
                        self.entries@[j].1,
                        entries@[j].1,
                    ),
            decreases self.entries@.len() - i,
        {
            let e = &self.entries[i];
            entries.push((e.0, e.1.clone()));
            i = i + 1;
        }
        TypeNameIndexMap { entries }
    }
}

/// The names of `names` without repeats, each where it first occurs.
pub open spec fn first_occurrences(names: Seq<TypeName>) -> Seq<TypeName>
    decreases names.len(),
{
    if names.len() == 0 {
        Seq::empty()
    } else {
        let earlier = first_occurrences(names.drop_last());
        if earlier.contains(names.last()) {
            earlier
        } else {
            earlier.push(names.last())
        }
    }
}

/// The type that the parameter at `i` is bound to: the argument at `i`, or `filler` past the
/// last argument.
pub open spec fn bound_type<T>(targs: Seq<T>, filler: T, i: int) -> T {
    if i < targs.len() {
        targs[i]
    } else {
        filler
    }
}

/// `j` is the last position of `name` among `names`.
pub open spec fn is_last_occurrence(names: Seq<TypeName>, name: TypeName, j: int) -> bool {
    &&& 0 <= j < names.len()
    &&& names[j] == name
    &&& forall|k: int| j < k < names.len() ==> names[k] != name
}

/// Maps type names to types with which to replace them.
#[derive(Debug)]
pub struct Subst<T>(pub TypeNameIndexMap<T>);

impl<T> From<TypeNameIndexMap<T>> for Subst<T> {
    fn from(map: TypeNameIndexMap<T>) -> (r: Self) {
        Subst(map)
    }
}

impl<T> FromSpecImpl<TypeNameIndexMap<T>> for Subst<T> {
    open spec fn obeys_from_spec() -> bool {
        true
    }

    open spec fn from_spec(map: TypeNameIndexMap<T>) -> Self {
        Subst(map)
    }
}

impl<T> From<Subst<T>> for TypeNameIndexMap<T> {
    fn from(subst: Subst<T>) -> (r: Self) {
        subst.0
    }
}

impl<T> FromSpecImpl<Subst<T>> for TypeNameIndexMap<T> {
    open spec fn obeys_from_spec() -> bool {
        true
    }

    open spec fn from_spec(subst: Subst<T>) -> Self {
        subst.0
    }
}

/// The type that `subst` binds each parameter of `tparams` to: the names are those of
/// `tparams` without repeats, in the order of their first occurrence; the type bound to a
/// name is a clone of the type that the name's last occurrence is bound to.
pub open spec fn binds_parameters<T: Clone>(
    subst: Seq<(TypeName, T)>,
    tparams: Seq<TypeName>,
    targs: Seq<T>,
    filler: T,
) -> bool {
    &&& names_of(subst) == first_occurrences(tparams)
    &&& forall|p: int|
        0 <= p < subst.len() ==> is_bound_by_last_occurrence(
            #[trigger] subst[p],
            tparams,
            targs,
            filler,
        )
}

/// The type of `entry` is a clone of the type that the last occurrence of its name in
/// `tparams` is bound to.
pub open spec fn is_bound_by_last_occurrence<T: Clone>(
    entry: (TypeName, T),
    tparams: Seq<TypeName>,
    targs: Seq<T>,
    filler: T,
) -> bool {
    exists|j: int|
        is_last_occurrence(tparams, entry.0, j) && cloned(bound_type(targs, filler, j), entry.1)
}

/// Extra type arguments are ignored: binding the parameters against all the arguments says
/// the same as binding them against only as many arguments as there are parameters, whatever
/// the filler; and where there is no parameter, nothing is bound.
pub proof fn lemma_extra_type_arguments_are_ignored<T: Clone>(
    subst: Seq<(TypeName, T)>,
    tparams: Seq<TypeName>,
    targs: Seq<T>,
    filler: T,
    other_filler: T,
)
    requires
        targs.len() >= tparams.len(),
    ensures
        binds_parameters(subst, tparams, targs, filler) == binds_parameters(
            subst,
            tparams,
            targs.take(tparams.len() as int),
            other_filler,
        ),
        tparams.len() == 0 && binds_parameters(subst, tparams, targs, filler) ==> subst.len()
            == 0,
{
    let cut = targs.take(tparams.len() as int);
    assert forall|p: int| 0 <= p < subst.len() implies is_bound_by_last_occurrence(
        #[trigger] subst[p],
        tparams,
        targs,
        filler,
    ) == is_bound_by_last_occurrence(subst[p], tparams, cut, other_filler) by {
        if is_bound_by_last_occurrence(subst[p], tparams, targs, filler) {
            let j = choose|j: int|
                is_last_occurrence(tparams, subst[p].0, j) && cloned(
                    bound_type(targs, filler, j),
                    subst[p].1,
                );
            assert(bound_type(cut, other_filler, j) == bound_type(targs, filler, j));
        }
        if is_bound_by_last_occurrence(subst[p], tparams, cut, other_filler) {
            let j = choose|j: int|
                is_last_occurrence(tparams, subst[p].0, j) && cloned(
                    bound_type(cut, other_filler, j),
                    subst[p].1,
                );
            assert(bound_type(cut, other_filler, j) == bound_type(targs, filler, j));
        }
    }
    if tparams.len() == 0 && binds_parameters(subst, tparams, targs, filler) {
        assert(names_of(subst).len() == 0);
    }
}

/// A name occurs among the first occurrences of `names` exactly when it occurs in `names`.
proof fn lemma_first_occurrences_contains(names: Seq<TypeName>, name: TypeName)
    ensures
        first_occurrences(names).contains(name) <==> names.contains(name),
    decreases names.len(),
{
    if names.len() > 0 {
        let earlier_names = names.drop_last();
        let earlier = first_occurrences(earlier_names);
        lemma_first_occurrences_contains(earlier_names, name);
        assert(names =~= earlier_names.push(names.last()));
        if names.contains(name) {
            let k = choose|k: int| 0 <= k < names.len() && names[k] == name;
            if k < names.len() - 1 {
                assert(earlier_names[k] == name);
            }
        }
        if earlier_names.contains(name) {
            let k = choose|k: int| 0 <= k < earlier_names.len() && earlier_names[k] == name;
            assert(names[k] == name);
        }
        if !earlier.contains(names.last()) {
            let pushed = earlier.push(names.last());
            assert(pushed[earlier.len() as int] == names.last());
            if pushed.contains(name) {
                let k = choose|k: int| 0 <= k < pushed.len() && pushed[k] == name;
                if k < earlier.len() {
                    assert(earlier[k] == name);
                }
            }
            if earlier.contains(name) {
                let k = choose|k: int| 0 <= k < earlier.len() && earlier[k] == name;
                assert(pushed[k] == name);
            }
        }
    }
}

impl<T: Clone> Subst<T> {
    /// Binds each type parameter, named by `tparams`, to the type argument at its position.
    /// Parameters past the last argument are bound to a clone of `filler`. Where a name
    /// occurs twice, its last binding wins and its first position stays.
    pub fn new(tparams: &[TypeName], targs: &[T], filler: &T) -> (r: Self)
        ensures
            binds_parameters(r.0@, tparams@, targs@, *filler),
    {
        let mut map: TypeNameIndexMap<T> = TypeNameIndexMap::new();
        let ghost mut last: Seq<int> = Seq::empty();
        let mut i: usize = 0;
        while i < tparams.len()
            invariant
                0 <= i <= tparams@.len(),
                names_of(map@) == first_occurrences(tparams@.take(i as int)),
                last.len() == map@.len(),
                forall|p: int|
                    0 <= p < map@.len() ==> is_last_occurrence(
                        tparams@.take(i as int),
                        #[trigger] map@[p].0,
                        last[p],
                    ),
                forall|p: int|
                    0 <= p < map@.len() ==> cloned(
                        bound_type(targs@, *filler, last[p]),
                        #[trigger] map@[p].1,
                    ),
            decreases tparams@.len() - i,
        {
            let name = tparams[i];
            let ty = if i < targs.len() {
                targs[i].clone()
            } else {
                filler.clone()
            };
            let ghost before = map@;
            proof {
                use_type_invariant(&map);
                assert(tparams@.take(i + 1).drop_last() =~= tparams@.take(i as int));
                lemma_first_occurrences_contains(tparams@.take(i as int), name);
            }
            map.insert(name, ty);
            proof {
                let prefix = tparams@.take(i as int);
                let keys = names_of(before);
                if exists|q: int| 0 <= q < before.len() && before[q].0 == name {
                    let q = choose|q: int| 0 <= q < before.len() && before[q].0 == name;
                    assert(keys[q] == name);
                    assert(prefix.contains(name));
                    last = last.update(q, i as int);
                    assert(names_of(map@) =~= keys);
                } else {
                    assert(!keys.contains(name)) by {
                        if keys.contains(name) {
                            let q = choose|q: int| 0 <= q < keys.len() && keys[q] == name;
                            assert(before[q].0 == name);
                        }
                    }
                    last = last.push(i as int);
                    assert(names_of(map@) =~= keys.push(name));
                }
            }
            i = i + 1;
        }
        proof {
            assert(tparams@.take(i as int) =~= tparams@);
            assert forall|p: int| 0 <= p < map@.len() implies is_bound_by_last_occurrence(
                #[trigger] map@[p],
                tparams@,
                targs@,
                *filler,
            ) by {
                assert(is_last_occurrence(tparams@, map@[p].0, last[p]));
            }
        }
        Subst(map)
    }
}

} // verus!
