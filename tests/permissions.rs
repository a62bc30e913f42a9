use perm_inspect::access::{resolve, AccessClass, ClassCapabilities};
use perm_inspect::capability::{describe, translate, Capability};
use perm_inspect::identity::{classify, Identity};
use perm_inspect::mode::decode;

fn identity(uid: u32, primary_gid: u32, groups: Vec<u32>) -> Identity {
    Identity { uid, primary_gid, username: String::from("someone"), group_memberships: groups }
}

fn classes(owner: u8, group: u8, other: u8) -> ClassCapabilities {
    ClassCapabilities { owner: translate(owner), group: translate(group), other: translate(other) }
}

#[test]
fn translate_counts_match_popcount() {
    for d in 0u8..8 {
        let caps = translate(d);
        assert_eq!(caps.len() as u32, d.count_ones());
    }
    assert_eq!(translate(5), vec![Capability::Read, Capability::Execute]);
    assert_eq!(translate(6), vec![Capability::Read, Capability::Write]);
    assert_eq!(translate(3), vec![Capability::Write, Capability::Execute]);
}

#[test]
fn translate_extremes() {
    assert!(translate(0).is_empty());
    assert_eq!(describe(&translate(0)), "None");
    assert_eq!(translate(7), vec![Capability::Read, Capability::Write, Capability::Execute]);
    assert_eq!(describe(&translate(7)), "read, write, execute");
    assert_eq!(describe(&translate(2)), "write");
}

#[test]
fn decode_ignores_file_type_bits() {
    let a = decode(0o100754);
    let b = decode(0o040754);
    assert_eq!(a, b);
    assert_eq!((a.owner, a.group, a.other), (7, 5, 4));
    let c = decode(u32::MAX);
    assert_eq!((c.owner, c.group, c.other), (7, 7, 7));
}

#[test]
fn resolve_is_repeatable() {
    let cl = classes(6, 5, 1);
    let m = classify(10, 20, &identity(10, 20, vec![20]));
    assert_eq!(resolve(&cl, m), resolve(&cl, m));
}

#[test]
fn classify_with_supplementary_groups() {
    let m = classify(1000, 100, &identity(1000, 100, vec![100]));
    assert!(m.is_owner && m.is_in_group);
    let m = classify(1000, 100, &identity(1001, 200, vec![100, 200]));
    assert!(!m.is_owner && m.is_in_group);
    let m = classify(1000, 100, &identity(1001, 200, vec![200]));
    assert!(!m.is_owner && !m.is_in_group);
}

#[test]
fn scenario_owner_wins_on_count() {
    let cl = classes(7, 4, 0);
    let m = classify(1, 2, &identity(1, 2, vec![2]));
    assert_eq!(cl.owner.len(), 3);
    assert_eq!(cl.group.len(), 1);
    let (class, caps) = resolve(&cl, m);
    assert_eq!(class, AccessClass::Owner);
    assert_eq!(describe(&caps), "read, write, execute");
}

#[test]
fn scenario_group_wins_on_count() {
    let cl = classes(4, 7, 0);
    let m = classify(1, 2, &identity(1, 2, vec![2]));
    let (class, caps) = resolve(&cl, m);
    assert_eq!(class, AccessClass::Group);
    assert_eq!(caps, vec![Capability::Read, Capability::Write, Capability::Execute]);
}

#[test]
fn scenario_tie_prefers_owner() {
    let cl = classes(6, 5, 0);
    let m = classify(1, 2, &identity(1, 2, vec![2]));
    let (class, caps) = resolve(&cl, m);
    assert_eq!(class, AccessClass::Owner);
    assert_eq!(describe(&caps), "read, write");
}

#[test]
fn scenario_other() {
    let cl = classes(7, 7, 5);
    let m = classify(1, 2, &identity(3, 4, vec![4, 9]));
    let (class, caps) = resolve(&cl, m);
    assert_eq!(class, AccessClass::Other);
    assert_eq!(describe(&caps), "read, execute");
}

#[test]
fn owner_only_and_group_only() {
    let cl = classes(1, 7, 0);
    let (class, _) = resolve(&cl, classify(1, 2, &identity(1, 5, vec![5])));
    assert_eq!(class, AccessClass::Owner);
    let (class, caps) = resolve(&cl, classify(1, 2, &identity(8, 5, vec![5, 2])));
    assert_eq!(class, AccessClass::Group);
    assert_eq!(caps.len(), 3);
}
