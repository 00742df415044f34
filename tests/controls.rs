use duck_playground::controls::{next_impulse, push_bodies, MovementKeys, PUSH};
use duck_playground::vector::Vector;

fn keys(up: bool, left: bool, down: bool, right: bool) -> MovementKeys {
    MovementKeys { up, left, down, right }
}

#[test]
fn no_key_keeps_the_impulse() {
    let current = Vector::new(12, -7);
    assert_eq!(next_impulse(MovementKeys::none(), current), current);
    assert!(!MovementKeys::none().any());
}

#[test]
fn each_key_alone_pushes_its_way() {
    let zero = Vector::zero();
    assert_eq!(next_impulse(keys(true, false, false, false), zero), Vector::new(0, 100000));
    assert_eq!(next_impulse(keys(false, true, false, false), zero), Vector::new(-100000, 0));
    assert_eq!(next_impulse(keys(false, false, true, false), zero), Vector::new(0, -100000));
    assert_eq!(next_impulse(keys(false, false, false, true), zero), Vector::new(100000, 0));
    assert_eq!(PUSH, 100000);
}

#[test]
fn later_keys_override_earlier_ones() {
    let zero = Vector::zero();
    assert_eq!(next_impulse(keys(true, false, true, false), zero), Vector::new(0, -100000));
    assert_eq!(next_impulse(keys(true, true, true, false), zero), Vector::new(-100000, 0));
    assert_eq!(next_impulse(keys(true, true, true, true), zero), Vector::new(100000, 0));
    assert_eq!(next_impulse(keys(false, true, false, true), zero), Vector::new(100000, 0));
}

#[test]
fn pressed_key_replaces_old_impulse() {
    let old = Vector::new(5, 5);
    assert_eq!(next_impulse(keys(true, false, false, false), old), Vector::new(0, 100000));
}

#[test]
fn push_bodies_updates_every_body() {
    let mut impulses = vec![Vector::zero(), Vector::new(3, 4), Vector::new(-1, 0)];
    push_bodies(&mut impulses, keys(false, true, false, false));
    assert_eq!(impulses, vec![Vector::new(-100000, 0); 3]);
}

#[test]
fn push_bodies_without_keys_changes_nothing() {
    let before = vec![Vector::zero(), Vector::new(3, 4)];
    let mut impulses = before.clone();
    push_bodies(&mut impulses, MovementKeys::none());
    assert_eq!(impulses, before);
}

#[test]
fn push_bodies_on_no_bodies() {
    let mut impulses: Vec<Vector> = Vec::new();
    push_bodies(&mut impulses, keys(true, true, true, true));
    assert!(impulses.is_empty());
}

#[test]
fn any_key_held() {
    assert!(keys(false, false, true, false).any());
    assert!(keys(true, true, true, true).any());
}
