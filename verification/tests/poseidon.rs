use vortex::field::Fr;
use vortex::poseidon_opt::{fr_from_str, hash1, hash2, hash3, hash4, PoseidonOptimized};

#[test]
fn test_optimized_poseidon_t2() {
    let hasher = PoseidonOptimized::new_t2();

    let x = Fr::from_u64(1);
    let hash = hasher.hash(&[x]);

    let expected = fr_from_str(
        "18586133768512220936620570745912940619677854269274689475585506675881198879027",
    );
    assert_eq!(hash, expected);
}

#[test]
fn test_optimized_poseidon_t3() {
    let hasher = PoseidonOptimized::new_t3();

    let x = Fr::from_u64(1);
    let y = Fr::from_u64(2);
    let hash = hasher.hash(&[x, y]);

    let expected = fr_from_str(
        "7853200120776062878684798364095072458815029376092732009249414926327459813530",
    );
    assert_eq!(hash, expected);
}

#[test]
fn test_optimized_poseidon_t4() {
    let hasher = PoseidonOptimized::new_t4();

    let x = Fr::from_u64(1);
    let y = Fr::from_u64(2);
    let z = Fr::from_u64(3);
    let hash = hasher.hash(&[x, y, z]);

    let expected = fr_from_str(
        "6542985608222806190361240322586112750744169038454362455181422643027100751666",
    );
    assert_eq!(hash, expected);
}

#[test]
fn test_optimized_poseidon_t5() {
    let hasher = PoseidonOptimized::new_t5();

    let x = Fr::from_u64(1);
    let y = Fr::from_u64(2);
    let z = Fr::from_u64(3);
    let w = Fr::from_u64(4);
    let hash = hasher.hash(&[x, y, z, w]);

    let expected = fr_from_str(
        "18821383157269793795438455681495246036402687001665670618754263018637548127333",
    );
    assert_eq!(hash, expected);
}

#[test]
fn hash_helpers_agree_with_hashers() {
    let a = Fr::from_u64(11);
    let b = Fr::from_u64(22);
    let c = Fr::from_u64(33);
    let d = Fr::from_u64(44);
    assert_eq!(hash1(&a), PoseidonOptimized::new_t2().hash1(&a));
    assert_eq!(hash2(&a, &b), PoseidonOptimized::new_t3().hash2(&a, &b));
    assert_eq!(hash3(&a, &b, &c), PoseidonOptimized::new_t4().hash3(&a, &b, &c));
    assert_eq!(hash4(&a, &b, &c, &d), PoseidonOptimized::new_t5().hash4(&a, &b, &c, &d));
}

#[test]
fn hash_depends_on_order_and_differs_from_inputs() {
    let a = Fr::from_u64(1);
    let b = Fr::from_u64(2);
    assert_ne!(hash2(&a, &b), hash2(&b, &a));
    assert_ne!(hash1(&a), a);
    assert_ne!(hash2(&a, &b), a);
}

#[test]
fn hash_of_zero_inputs_is_fixed() {
    let z = Fr::zero();
    assert_eq!(
        hash2(&z, &z).to_decimal(),
        "14744269619966411208579211824598458697587494354926760081771325075741142829156"
    );
}

#[test]
fn tables_have_the_sizes_of_their_widths() {
    let h2 = PoseidonOptimized::new_t2();
    assert_eq!((h2.t, h2.n_rounds_f, h2.n_rounds_p), (2, 8, 56));
    assert_eq!((h2.c.len(), h2.s.len(), h2.m.len(), h2.p.len()), (72, 168, 2, 2));
    let h3 = PoseidonOptimized::new_t3();
    assert_eq!((h3.t, h3.n_rounds_f, h3.n_rounds_p), (3, 8, 57));
    assert_eq!((h3.c.len(), h3.s.len(), h3.m.len(), h3.p.len()), (81, 285, 3, 3));
    let h4 = PoseidonOptimized::new_t4();
    assert_eq!((h4.t, h4.n_rounds_f, h4.n_rounds_p), (4, 8, 56));
    assert_eq!((h4.c.len(), h4.s.len(), h4.m.len(), h4.p.len()), (88, 392, 4, 4));
    let h5 = PoseidonOptimized::new_t5();
    assert_eq!((h5.t, h5.n_rounds_f, h5.n_rounds_p), (5, 8, 60));
    assert_eq!((h5.c.len(), h5.s.len(), h5.m.len(), h5.p.len()), (100, 540, 5, 5));
    assert_eq!(
        h3.c[0].to_decimal(),
        "6745197990210204598374042828761989596302876299545964402857411729872131034734"
    );
}
