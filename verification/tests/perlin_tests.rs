use pathtracer::perlin::{perlin_generate_perm, permute, Perlin, POINT_COUNT};
use pathtracer::rtweekend::random_int_bounded;
use pathtracer::vec_bits::Vec3Bits;

#[test]
fn generated_table_is_a_permutation() {
    let p = perlin_generate_perm();
    assert_eq!(p.len(), POINT_COUNT);
    let mut sorted = p.clone();
    sorted.sort();
    let identity: Vec<i64> = (0..POINT_COUNT as i64).collect();
    assert_eq!(sorted, identity);
}

#[test]
fn permute_only_rearranges_the_prefix() {
    let before: Vec<i64> = (0..32).map(|i| i * i).collect();
    let mut p = before.clone();
    permute(&mut p, 16);
    assert_eq!(p.len(), before.len());
    // Untouched suffix.
    assert_eq!(&p[16..], &before[16..]);
    // The prefix holds the same values, possibly rearranged.
    let mut prefix: Vec<i64> = p[..16].to_vec();
    prefix.sort();
    let mut expected: Vec<i64> = before[..16].to_vec();
    expected.sort();
    assert_eq!(prefix, expected);
}

#[test]
fn perlin_tables_are_permutations_and_keep_gradients() {
    let ranvec: Vec<Vec3Bits> = (0..POINT_COUNT as u64)
        .map(|i| Vec3Bits::new(i, i + 1, i + 2))
        .collect();
    let perlin = Perlin::new(ranvec.clone());
    assert_eq!(perlin.ranvec(), &ranvec);
    for table in [perlin.perm_x(), perlin.perm_y(), perlin.perm_z()] {
        let mut sorted = table.clone();
        sorted.sort();
        let identity: Vec<i64> = (0..POINT_COUNT as i64).collect();
        assert_eq!(sorted, identity);
    }
}

#[test]
fn random_int_bounded_stays_in_range() {
    for _ in 0..1000 {
        let r = random_int_bounded(-3, 7);
        assert!((-3..=7).contains(&r));
    }
    assert_eq!(random_int_bounded(5, 5), 5);
}

#[test]
fn random_int_bounded_reaches_every_value() {
    let mut seen = [false; 10];
    for _ in 0..1000 {
        let r = random_int_bounded(0, 9);
        seen[r as usize] = true;
    }
    assert!(seen.iter().all(|&s| s));
}
