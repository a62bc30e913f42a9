use vstd::prelude::*;
use crate::capability::Capability;
use crate::identity::Membership;

verus! {

/// The access class that governs a principal's access to an entry.
#[derive(Clone, Copy, Debug, PartialEq, Eq, Structural)]
pub enum AccessClass {
    Owner,
    Group,
    Other,
}

/// The capability sets of the three access classes of one entry.
pub struct ClassCapabilities {
    pub owner: Vec<Capability>,
    pub group: Vec<Capability>,
    pub other: Vec<Capability>,
}

/// The class that applies, given the sizes of the owner and group sets. A
/// principal who is both owner and group member gets the class with more
/// capabilities, the owner on a tie.
pub open spec fn effective_class(owner_count: int, group_count: int, m: Membership) -> AccessClass {
    if m.is_owner && m.is_in_group {
        if owner_count >= group_count {
            AccessClass::Owner
        } else {
            AccessClass::Group
        }
    } else if m.is_owner {
        AccessClass::Owner
    } else if m.is_in_group {
        AccessClass::Group
    } else {
        AccessClass::Other
    }
}

/// The capability set of `class` among `owner`, `group` and `other`.
pub open spec fn set_of_class(
    class: AccessClass,
    owner: Seq<Capability>,
    group: Seq<Capability>,
    other: Seq<Capability>,
) -> Seq<Capability> {
    match class {
        AccessClass::Owner => owner,
        AccessClass::Group => group,
        AccessClass::Other => other,
    }
}

/// Picks the class whose capabilities apply to a principal with membership
/// `m`, and a copy of that class's capability set.
pub fn resolve(classes: &ClassCapabilities, m: Membership) -> (r: (AccessClass, Vec<Capability>))
    ensures
        r.0 == effective_class(classes.owner@.len() as int, classes.group@.len() as int, m),
        r.1@ == set_of_class(r.0, classes.owner@, classes.group@, classes.other@),
{
    let class = if m.is_owner && m.is_in_group {
        if classes.owner.len() >= classes.group.len() {
            AccessClass::Owner
        } else {
            AccessClass::Group
        }
    } else if m.is_owner {
        AccessClass::Owner
    } else if m.is_in_group {
        AccessClass::Group
    } else {
        AccessClass::Other
    };
    let chosen = match class {
        AccessClass::Owner => &classes.owner,
        AccessClass::Group => &classes.group,
        AccessClass::Other => &classes.other,
    };
    (class, copy_capabilities(chosen))
}

/// An element-wise copy of `caps`.
pub fn copy_capabilities(caps: &Vec<Capability>) -> (r: Vec<Capability>)
    ensures
        r@ == caps@,
{
    let mut r: Vec<Capability> = Vec::new();
    let mut i: usize = 0;
    while i < caps.len()
        invariant
            i <= caps@.len(),
            r@ == caps@.subrange(0, i as int),
        decreases caps@.len() - i,
    {
        r.push(caps[i]);
        assert(caps@.subrange(0, i + 1) =~= caps@.subrange(0, i as int).push(caps@[i as int]));
        i = i + 1;
    }
    assert(caps@.subrange(0, caps@.len() as int) =~= caps@);
    r
}

/// Resolution is a function of its inputs: two runs on equal inputs agree.
pub proof fn lemma_resolve_deterministic(
    owner: Seq<Capability>,
    group: Seq<Capability>,
    other: Seq<Capability>,
    m: Membership,
    c1: AccessClass,
    s1: Seq<Capability>,
    c2: AccessClass,
    s2: Seq<Capability>,
)
    requires
        c1 == effective_class(owner.len() as int, group.len() as int, m),
        s1 == set_of_class(c1, owner, group, other),
        c2 == effective_class(owner.len() as int, group.len() as int, m),
        s2 == set_of_class(c2, owner, group, other),
    ensures
        c1 == c2,
        s1 == s2,
{
}

} // verus!
