use veil_server::status_flags::{FlagBitmask, Status, StatusFlags};

fn flags(data: u64) -> StatusFlags {
    StatusFlags { owner: 11, data }
}

#[test]
fn status_masks_are_distinct_single_bits() {
    assert_eq!(Status::Stunned.mask(), 1);
    assert_eq!(Status::Invulnerable.mask(), 2);
}

#[test]
fn add_then_has() {
    let mut f = flags(0);
    assert!(!f.has_tag(Status::Stunned));
    f.add_tag(Status::Stunned);
    assert!(f.has_tag(Status::Stunned));
    assert!(!f.has_tag(Status::Invulnerable));
    assert_eq!(f.data, 1);
    assert_eq!(f.owner, 11);
}

#[test]
fn add_is_idempotent() {
    let mut f = flags(0b100);
    f.add_tag(Status::Invulnerable);
    f.add_tag(Status::Invulnerable);
    assert_eq!(f.data, 0b110);
}

#[test]
fn remove_then_not_has() {
    let mut f = flags(0b111);
    f.remove_tag(Status::Stunned);
    assert!(!f.has_tag(Status::Stunned));
    assert!(f.has_tag(Status::Invulnerable));
    assert_eq!(f.data, 0b110);
}

#[test]
fn remove_undoes_add() {
    let mut f = flags(0b1000);
    f.add_tag(Status::Stunned);
    f.remove_tag(Status::Stunned);
    assert_eq!(f.data, 0b1000);
}

#[test]
fn many_tags() {
    let mut f = flags(0);
    f.add_many_tags(&[Status::Stunned, Status::Invulnerable]);
    assert_eq!(f.data, 0b11);
    assert!(f.has_all_tags(&[Status::Stunned, Status::Invulnerable]));
    f.remove_many_tags(&[Status::Invulnerable]);
    assert!(!f.has_all_tags(&[Status::Stunned, Status::Invulnerable]));
    assert!(f.has_any_tags(&[Status::Stunned, Status::Invulnerable]));
    f.remove_many_tags(&[Status::Stunned, Status::Invulnerable]);
    assert!(!f.has_any_tags(&[Status::Stunned, Status::Invulnerable]));
}

#[test]
fn empty_tag_lists() {
    let mut f = flags(0b1);
    let none: [Status; 0] = [];
    assert!(f.has_all_tags(&none));
    assert!(!f.has_any_tags(&none));
    f.add_many_tags(&none);
    f.remove_many_tags(&none);
    assert_eq!(f.data, 0b1);
}

#[test]
fn clear_tags_clears_everything() {
    let mut f = flags(u64::MAX);
    f.clear_tags();
    assert_eq!(f.data, 0);
    assert!(!f.has_any_tags(&[Status::Stunned, Status::Invulnerable]));
    assert_eq!(f.owner, 11);
}
