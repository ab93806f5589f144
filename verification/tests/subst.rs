use hackc_compile::subst::{Subst, TypeName, TypeNameIndexMap};

fn entries(map: &TypeNameIndexMap<&'static str>) -> Vec<(u32, &'static str)> {
    let mut v = Vec::new();
    let mut i = 0;
    while let Some((k, t)) = map.get_index(i) {
        v.push((k.0, *t));
        i += 1;
    }
    v
}

#[test]
fn binds_parameters_to_arguments_in_order() {
    let s = Subst::new(&[TypeName(1), TypeName(2)], &["int", "string"], &"_");
    assert_eq!(entries(&s.0), vec![(1, "int"), (2, "string")]);
}

#[test]
fn missing_arguments_are_bound_to_the_filler() {
    let s = Subst::new(&[TypeName(1), TypeName(2), TypeName(3)], &["int"], &"any");
    assert_eq!(entries(&s.0), vec![(1, "int"), (2, "any"), (3, "any")]);
}

#[test]
fn extra_arguments_are_ignored() {
    let s = Subst::new(&[TypeName(5)], &["int", "bool", "float"], &"any");
    assert_eq!(entries(&s.0), vec![(5, "int")]);
}

#[test]
fn repeated_name_keeps_first_place_and_last_binding() {
    let s = Subst::new(&[TypeName(1), TypeName(2), TypeName(1)], &["a", "b", "c"], &"any");
    assert_eq!(entries(&s.0), vec![(1, "c"), (2, "b")]);
    assert_eq!(s.0.get(&TypeName(1)), Some(&"c"));
    assert_eq!(s.0.get(&TypeName(3)), None);
}

#[test]
fn no_parameters_give_an_empty_substitution() {
    let s = Subst::new(&[], &["int"], &"any");
    assert_eq!(s.0.len(), 0);
}

#[test]
fn insert_replaces_in_place_and_appends_new_keys() {
    let mut m = TypeNameIndexMap::new();
    assert_eq!(m.insert(TypeName(3), "x"), None);
    assert_eq!(m.insert(TypeName(4), "y"), None);
    assert_eq!(m.insert(TypeName(3), "z"), Some("x"));
    assert_eq!(entries(&m), vec![(3, "z"), (4, "y")]);
    assert_eq!(m.get_index_of(&TypeName(4)), Some(1));
    assert_eq!(m.get_index_of(&TypeName(9)), None);
}

#[test]
fn subst_converts_from_and_into_its_map() {
    let mut m = TypeNameIndexMap::new();
    m.insert(TypeName(8), "t");
    let s: Subst<&str> = Subst::from(m);
    let back: TypeNameIndexMap<&str> = s.into();
    assert_eq!(entries(&back), vec![(8, "t")]);
}

#[test]
fn cloned_map_has_the_same_entries() {
    let s = Subst::new(&[TypeName(1), TypeName(2)], &["a"], &"any");
    let copy = s.0.clone();
    assert_eq!(entries(&copy), entries(&s.0));
}
