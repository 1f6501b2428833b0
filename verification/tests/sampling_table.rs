use pathtracer::sampling::generate_sample_table;

#[test]
fn table_matches_sobol_crate() {
    let table = generate_sample_table(4, 3, 0);
    assert_eq!(table.len(), 4 * 3 * 4);
    for i in 0..4u32 {
        for d in 0..3u32 {
            let point = sobol_burley::sample_4d(i, d, 0);
            for j in 0..4usize {
                assert_eq!(table[((i * 3 + d) as usize) * 4 + j], point[j].to_bits());
            }
        }
    }
}

#[test]
fn table_generation_is_deterministic() {
    let a = generate_sample_table(64, 17, 0);
    let b = generate_sample_table(64, 17, 0);
    assert_eq!(a, b);
}

#[test]
fn empty_table_for_zero_samples_or_dimensions() {
    assert_eq!(generate_sample_table(0, 17, 0).len(), 0);
    assert_eq!(generate_sample_table(16, 0, 0).len(), 0);
}

#[test]
fn different_seeds_give_different_tables() {
    let a = generate_sample_table(8, 2, 0);
    let b = generate_sample_table(8, 2, 1);
    assert_eq!(a.len(), b.len());
    assert_ne!(a, b);
}
