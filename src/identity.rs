use vstd::prelude::*;

verus! {

/// The invoking principal, resolved once per run.
pub struct Identity {
    pub uid: u32,
    pub primary_gid: u32,
    pub username: String,
    /// Every group the principal belongs to, its primary group included.
    pub group_memberships: Vec<u32>,
}

/// How the principal relates to an entry's owning user and group.
#[derive(Clone, Copy, Debug, PartialEq, Eq, Structural)]
pub struct Membership {
    pub is_owner: bool,
    pub is_in_group: bool,
}

/// Whether `gid` is one of `identity`'s groups.
pub fn is_member(identity: &Identity, gid: u32) -> (r: bool)
    ensures
        r == identity.group_memberships@.contains(gid),
{
    let mut i: usize = 0;
    while i < identity.group_memberships.len()
        invariant
            i <= identity.group_memberships@.len(),
            forall|k: int| 0 <= k < i ==> identity.group_memberships@[k] != gid,
        decreases identity.group_memberships@.len() - i,
    {
        if identity.group_memberships[i] == gid {
            assert(identity.group_memberships@[i as int] == gid);
            assert(identity.group_memberships@.contains(gid));
            return true;
        }
        i = i + 1;
    }
    false
}

/// Classifies the principal against an entry owned by `owner_uid` and
/// `owner_gid`. Group membership counts supplementary groups as well as the
/// primary one.
pub fn classify(owner_uid: u32, owner_gid: u32, identity: &Identity) -> (r: Membership)
    ensures
        r.is_owner == (identity.uid == owner_uid),
        r.is_in_group == identity.group_memberships@.contains(owner_gid),
{
    Membership { is_owner: identity.uid == owner_uid, is_in_group: is_member(identity, owner_gid) }
}

} // verus!
