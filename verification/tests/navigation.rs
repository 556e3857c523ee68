//! Navigation: bounds, boundary no-ops, and random jumps.

use learn_thai::catalog::Catalog;
use learn_thai::nav::NavigationState;

/// A small deterministic linear congruential generator, so the tests
/// need no outside source of randomness.
fn lcg_next(state: &mut u64) -> u64 {
    *state = state.wrapping_mul(6364136223846793005).wrapping_add(1442695040888963407);
    *state >> 33
}

#[test]
fn cursor_stays_in_range_under_any_command_sequence() {
    let catalog = Catalog::thai();
    let len = catalog.length();
    let mut nav = NavigationState::new(len);
    let mut rng: u64 = 12345;
    for _ in 0..10_000 {
        let idx = if lcg_next(&mut rng) % 2 == 0 {
            nav.advance()
        } else {
            nav.retreat()
        };
        assert!(idx < len);
        assert!(catalog.get(idx).is_ok());
    }
}

#[test]
fn advance_is_noop_at_last_index() {
    let mut nav = NavigationState::new(3);
    assert_eq!(nav.advance(), 1);
    assert_eq!(nav.advance(), 2);
    assert_eq!(nav.advance(), 2);
    assert_eq!(nav.advance(), 2);
}

#[test]
fn retreat_is_noop_at_index_zero() {
    let mut nav = NavigationState::new(3);
    assert_eq!(nav.retreat(), 0);
    assert_eq!(nav.retreat(), 0);
    assert_eq!(nav.advance(), 1);
    assert_eq!(nav.retreat(), 0);
    assert_eq!(nav.retreat(), 0);
}

#[test]
fn advance_on_singleton_catalog_stays_put() {
    let mut nav = NavigationState::new(1);
    assert_eq!(nav.advance(), 0);
    assert_eq!(nav.retreat(), 0);
}

#[test]
fn jump_random_covers_every_index_and_never_leaves_range() {
    let catalog = Catalog::thai();
    let len = catalog.length();
    let mut nav = NavigationState::new(len);
    let mut hits = vec![0u32; len];
    let mut rng: u64 = 99;
    for _ in 0..10_000 {
        let draw = lcg_next(&mut rng) as usize;
        let idx = nav.jump_random(draw);
        assert!(idx < len);
        hits[idx] += 1;
    }
    for (i, h) in hits.iter().enumerate() {
        assert!(*h > 0, "index {} was never produced", i);
    }
}

#[test]
fn jump_random_takes_in_range_draw_as_is() {
    let mut nav = NavigationState::new(10);
    assert_eq!(nav.jump_random(7), 7);
    assert_eq!(nav.jump_random(0), 0);
    assert_eq!(nav.jump_random(9), 9);
    assert_eq!(nav.jump_random(10), 0);
    assert_eq!(nav.jump_random(23), 3);
}
