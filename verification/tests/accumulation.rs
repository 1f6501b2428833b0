use pathtracer::pathtracer::Globals;

#[test]
fn default_accumulation_state() {
    let g = Globals::default();
    assert_eq!(g.sample, 0);
    assert_eq!(g.weight_bits, 0);
    assert_eq!(g.bounces, 8);
    assert_eq!(g.contribution_bits, 4.0f32.to_bits());
}

#[test]
fn four_sample_budget_weight_sequence() {
    let mut g = Globals::default();
    let max = 4u32;
    let expected = [1.0f32, 0.5, 1.0 / 3.0, 0.25];
    for (i, w) in expected.iter().enumerate() {
        assert!(g.advance(max));
        assert_eq!(g.sample, i as u32 + 1);
        assert_eq!(g.weight_bits, w.to_bits());
    }
    assert_eq!(g.sample, 4);
    let before = g;
    assert!(!g.advance(max));
    assert_eq!(g, before);
}

#[test]
fn saturated_advance_is_idempotent() {
    let mut g = Globals::default();
    for _ in 0..3 {
        assert!(g.advance(3));
    }
    let before = g;
    for _ in 0..10 {
        assert!(!g.advance(3));
        assert_eq!(g, before);
    }
}

#[test]
fn zero_budget_never_advances() {
    let mut g = Globals::default();
    let before = g;
    assert!(!g.advance(0));
    assert_eq!(g, before);
}

#[test]
fn reset_reproduces_fresh_weight_sequence() {
    let mut g = Globals::default();
    for _ in 0..5 {
        g.advance(8);
    }
    // What `invalidate` does to the accumulation state.
    g.sample = 0;
    let mut restarted: Vec<u32> = Vec::new();
    for _ in 0..8 {
        g.advance(8);
        restarted.push(g.weight_bits);
    }
    let mut fresh = Globals::default();
    let mut from_fresh: Vec<u32> = Vec::new();
    for _ in 0..8 {
        fresh.advance(8);
        from_fresh.push(fresh.weight_bits);
    }
    assert_eq!(restarted, from_fresh);
}
