use minigolf::contact::{
    contact_velocity_delta, other_collider, Booster, ContactKind, ContactPoint, ContactTable, Tag,
    Trampoline,
};
use minigolf::fixed::Vec3;

const BALL: u64 = 99;

fn course() -> ContactTable {
    let mut t = ContactTable::new();
    t.add_parent(10, 1);
    t.add_tag(1, Tag::Booster { force: Booster::default().force, direction: Vec3::new(0, 0, 1000) });
    t.add_parent(20, 2);
    t.add_tag(2, Tag::Trampoline { force: Trampoline::default().force, direction: Vec3::new(0, 1000, 0) });
    t.add_parent(30, 3);
    t.add_tag(3, Tag::Wall);
    t.add_parent(40, 4);
    t.add_tag(4, Tag::Hole);
    t.add_parent(50, 5);
    t
}

#[test]
fn child_of_hole_resolves_to_hole() {
    let t = course();
    assert_eq!(t.resolve_contact(40), ContactKind::Hole);
    assert_eq!(t.resolve_contact(30), ContactKind::Wall);
}

#[test]
fn child_of_untagged_parent_resolves_to_other() {
    let t = course();
    assert_eq!(t.resolve_contact(50), ContactKind::Other);
    assert_eq!(t.resolve_contact(60), ContactKind::Other);
    // the tag belongs to the parent, not to the geometry
    assert_eq!(t.resolve_contact(4), ContactKind::Other);
}

#[test]
fn booster_and_trampoline_resolve_with_force() {
    let t = course();
    assert_eq!(t.resolve_contact(10), ContactKind::Booster { force: 50_000, direction: Vec3::new(0, 0, 1000) });
    assert_eq!(t.resolve_contact(20), ContactKind::Trampoline { force: 25_000, direction: Vec3::new(0, 1000, 0) });
}

#[test]
fn first_entry_counts() {
    let mut t = ContactTable::new();
    t.add_parent(1, 2);
    t.add_parent(1, 3);
    t.add_tag(3, Tag::Hole);
    t.add_tag(2, Tag::Wall);
    t.add_tag(2, Tag::Hole);
    assert_eq!(t.resolve_contact(1), ContactKind::Wall);
}

#[test]
fn other_collider_of_a_pair() {
    assert_eq!(other_collider((BALL, 7), BALL), Some(7));
    assert_eq!(other_collider((7, BALL), BALL), Some(7));
    assert_eq!(other_collider((7, 8), BALL), None);
}

#[test]
fn hole_contact_from_started_collisions() {
    let t = course();
    assert!(t.hole_contact(BALL, &vec![(5, 6), (40, BALL)]));
    assert!(!t.hole_contact(BALL, &vec![(40, 7)]));
    assert!(!t.hole_contact(BALL, &vec![(BALL, 30)]));
    assert!(!t.hole_contact(BALL, &vec![]));
}

#[test]
fn knock_needs_a_hard_wall_contact() {
    let t = course();
    let soft = ContactPoint { collider1: BALL, collider2: 30, impulse: 400 };
    let hard = ContactPoint { collider1: 30, collider2: BALL, impulse: -600 };
    let hard_floor = ContactPoint { collider1: BALL, collider2: 50, impulse: 900 };
    assert!(!t.knock(BALL, &vec![soft]));
    assert!(t.knock(BALL, &vec![soft, hard]));
    assert!(!t.knock(BALL, &vec![hard_floor]));
    assert!(!t.knock(BALL, &vec![ContactPoint { collider1: BALL, collider2: 30, impulse: 500 }]));
}

#[test]
fn booster_pushes_per_second() {
    let t = course();
    let v = t.apply_contact_forces(BALL, &Vec3::new(1000, 0, 0), &vec![(BALL, 10)], 1000);
    assert_eq!(v, Vec3::new(1000, 0, 50_000));
    let w = t.apply_contact_forces(BALL, &Vec3::zero(), &vec![(10, BALL)], 16);
    assert_eq!(w, Vec3::new(0, 0, 800));
}

#[test]
fn trampoline_pushes_at_once() {
    let t = course();
    let v = t.apply_contact_forces(BALL, &Vec3::zero(), &vec![(20, BALL)], 16);
    assert_eq!(v, Vec3::new(0, 25_000, 0));
    let both = t.apply_contact_forces(BALL, &Vec3::zero(), &vec![(20, BALL), (BALL, 10), (BALL, 30)], 1000);
    assert_eq!(both, Vec3::new(0, 25_000, 50_000));
}

#[test]
fn other_contacts_add_nothing() {
    assert_eq!(contact_velocity_delta(ContactKind::Wall, 1000), Vec3::zero());
    assert_eq!(contact_velocity_delta(ContactKind::Other, 1000), Vec3::zero());
    assert_eq!(contact_velocity_delta(ContactKind::Hole, 1000), Vec3::zero());
}
