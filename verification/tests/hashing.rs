use dispatch_core::hashing::{
    calc_fn_hash, calc_fn_params_hash, calc_qualified_fn_hash, calc_qualified_var_hash,
    combine_hashes, StraightHasherBuilder,
};

fn path(segments: &[&str]) -> Vec<String> {
    segments.iter().map(|s| s.to_string()).collect()
}

#[test]
fn fn_hash_is_deterministic() {
    assert_eq!(calc_fn_hash("foo", 2), calc_fn_hash("foo", 2));
}

#[test]
fn qualified_fn_hash_is_deterministic() {
    let modules = path(&["root", "a", "b"]);
    assert_eq!(
        calc_qualified_fn_hash(&modules, "foo", 2),
        calc_qualified_fn_hash(&modules, "foo", 2)
    );
}

#[test]
fn qualified_var_hash_is_deterministic() {
    let modules = path(&["root", "a"]);
    assert_eq!(
        calc_qualified_var_hash(&modules, "x"),
        calc_qualified_var_hash(&modules, "x")
    );
}

#[test]
fn arity_changes_the_key() {
    assert_ne!(calc_fn_hash("foo", 2), calc_fn_hash("foo", 3));
}

#[test]
fn name_changes_the_key() {
    assert_ne!(calc_fn_hash("foo", 2), calc_fn_hash("bar", 2));
}

#[test]
fn root_segment_is_skipped() {
    assert_eq!(
        calc_qualified_fn_hash(&path(&["root1", "a"]), "foo", 1),
        calc_qualified_fn_hash(&path(&["root2", "a"]), "foo", 1)
    );
}

#[test]
fn second_segment_changes_the_key() {
    assert_ne!(
        calc_qualified_fn_hash(&path(&["root", "a"]), "foo", 1),
        calc_qualified_fn_hash(&path(&["root", "b"]), "foo", 1)
    );
}

#[test]
fn unqualified_key_equals_empty_path_key() {
    let no_modules: Vec<String> = Vec::new();
    assert_eq!(
        calc_fn_hash("foo", 2),
        calc_qualified_fn_hash(&no_modules, "foo", 2)
    );
}

#[test]
fn combine_is_commutative() {
    let a: u64 = 0x0123_4567_89ab_cdef;
    let b: u64 = 0xfedc_ba98_7654_3210;
    assert_eq!(combine_hashes(a, b), combine_hashes(b, a));
}

#[test]
fn combine_is_self_cancelling() {
    let a: u64 = 0xdead_beef_dead_beef;
    assert_eq!(combine_hashes(a, a), 0);
}

#[test]
fn combine_undoes_itself() {
    let a: u64 = 0x1111_2222_3333_4444;
    let b: u64 = 0x5555_6666_7777_8888;
    assert_eq!(combine_hashes(combine_hashes(a, b), b), a);
}

#[test]
fn straight_hasher_returns_the_key_unchanged() {
    let v: u64 = 0x0123_4567_89ab_cdef;
    let mut h = StraightHasherBuilder.build_hasher();
    h.write(&v.to_le_bytes());
    assert_eq!(h.finish(), v);
}

#[test]
fn straight_hasher_keeps_the_last_key() {
    let mut h = StraightHasherBuilder.build_hasher();
    h.write(&7u64.to_le_bytes());
    h.write(&9u64.to_le_bytes());
    assert_eq!(h.finish(), 9);
}

#[test]
fn params_hash_is_deterministic() {
    let tokens: Vec<u64> = vec![3, 4];
    assert_eq!(calc_fn_params_hash(&tokens), calc_fn_params_hash(&tokens));
}

#[test]
fn params_hash_depends_on_order_and_count() {
    let int_then_str: Vec<u64> = vec![3, 4];
    let str_then_int: Vec<u64> = vec![4, 3];
    let int_only: Vec<u64> = vec![3];
    assert_ne!(
        calc_fn_params_hash(&int_then_str),
        calc_fn_params_hash(&str_then_int)
    );
    assert_ne!(
        calc_fn_params_hash(&int_then_str),
        calc_fn_params_hash(&int_only)
    );
}

#[test]
fn composite_key_can_be_refined_and_unrefined() {
    let coarse = calc_fn_hash("foo", 2);
    let fine = calc_fn_params_hash(&vec![3, 3]);
    let composite = combine_hashes(coarse, fine);
    assert_ne!(composite, coarse);
    assert_eq!(combine_hashes(composite, fine), coarse);
}

#[test]
fn var_hash_skips_the_root_segment_too() {
    assert_eq!(
        calc_qualified_var_hash(&path(&["root1", "a"]), "x"),
        calc_qualified_var_hash(&path(&["root2", "a"]), "x")
    );
    assert_ne!(
        calc_qualified_var_hash(&path(&["root", "a"]), "x"),
        calc_qualified_var_hash(&path(&["root", "a"]), "y")
    );
}

#[test]
fn path_depth_changes_the_key() {
    assert_ne!(
        calc_qualified_fn_hash(&path(&["root", "a"]), "foo", 1),
        calc_qualified_fn_hash(&path(&["root", "a", "a"]), "foo", 1)
    );
}

#[test]
fn segment_boundaries_change_the_key() {
    assert_ne!(
        calc_qualified_fn_hash(&path(&["root", "ab", "c"]), "foo", 1),
        calc_qualified_fn_hash(&path(&["root", "a", "bc"]), "foo", 1)
    );
}
