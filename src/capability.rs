use vstd::prelude::*;
use vstd::string::*;

verus! {

/// One thing a principal may do with an entry.
#[derive(Clone, Copy, Debug, PartialEq, Eq, Structural)]
pub enum Capability {
    Read,
    Write,
    Execute,
}

/// Position of a capability in the fixed read, write, execute order.
pub open spec fn rank(c: Capability) -> int {
    match c {
        Capability::Read => 0,
        Capability::Write => 1,
        Capability::Execute => 2,
    }
}

/// Number of bits set among the low three bits of `d`.
pub open spec fn popcount3(d: int) -> int {
    (if d % 2 == 1 { 1int } else { 0int }) + (if (d / 2) % 2 == 1 { 1int } else { 0int }) + (if (d
        / 4) % 2 == 1 { 1int } else { 0int })
}

/// The capabilities that permission digit `d` grants, in read, write, execute
/// order: bit 4 is read, bit 2 is write, bit 1 is execute.
pub open spec fn capabilities_of(d: int) -> Seq<Capability> {
    (if (d / 4) % 2 == 1 { seq![Capability::Read] } else { Seq::empty() }) + (if (d / 2) % 2 == 1 {
        seq![Capability::Write]
    } else {
        Seq::empty()
    }) + (if d % 2 == 1 { seq![Capability::Execute] } else { Seq::empty() })
}

/// Capabilities listed strictly in read, write, execute order, each at most once.
pub open spec fn in_canonical_order(s: Seq<Capability>) -> bool {
    forall|i: int, j: int| 0 <= i < j < s.len() ==> rank(#[trigger] s[i]) < rank(#[trigger] s[j])
}

/// The name of one capability.
pub open spec fn name_of(c: Capability) -> Seq<char> {
    match c {
        Capability::Read => seq!['r', 'e', 'a', 'd'],
        Capability::Write => seq!['w', 'r', 'i', 't', 'e'],
        Capability::Execute => seq!['e', 'x', 'e', 'c', 'u', 't', 'e'],
    }
}

/// The names of `s`, separated by ", ".
pub open spec fn joined_names(s: Seq<Capability>) -> Seq<char>
    decreases s.len(),
{
    if s.len() == 0 {
        Seq::empty()
    } else if s.len() == 1 {
        name_of(s[0])
    } else {
        joined_names(s.drop_last()) + seq![',', ' '] + name_of(s.last())
    }
}

/// How a capability set reads to a person: its names joined by ", ", or
/// "None" when it is empty.
pub open spec fn description_of(s: Seq<Capability>) -> Seq<char> {
    if s.len() == 0 {
        seq!['N', 'o', 'n', 'e']
    } else {
        joined_names(s)
    }
}

proof fn lemma_bits(d: u8)
    requires
        d < 8,
    ensures
        (d & 4u8 != 0) == ((d as int / 4) % 2 == 1),
        (d & 2u8 != 0) == ((d as int / 2) % 2 == 1),
        (d & 1u8 != 0) == (d as int % 2 == 1),
{
    assert((d & 4u8 != 0) == ((d / 4u8) % 2u8 == 1u8)) by (bit_vector);
    assert((d & 2u8 != 0) == ((d / 2u8) % 2u8 == 1u8)) by (bit_vector);
    assert((d & 1u8 != 0) == (d % 2u8 == 1u8)) by (bit_vector);
}

/// The capability set that permission digit `d` grants, tested bit by bit.
pub fn translate(d: u8) -> (r: Vec<Capability>)
    requires
        d < 8,
    ensures
        r@ == capabilities_of(d as int),
        r@.len() == popcount3(d as int),
        in_canonical_order(r@),
{
    proof {
        lemma_bits(d);
    }
    let mut r: Vec<Capability> = Vec::new();
    if d & 4u8 != 0 {
        r.push(Capability::Read);
    }
    if d & 2u8 != 0 {
        r.push(Capability::Write);
    }
    if d & 1u8 != 0 {
        r.push(Capability::Execute);
    }
    assert(r@ =~= capabilities_of(d as int));
    r
}

/// The name of one capability.
pub fn capability_name(c: Capability) -> (r: &'static str)
    ensures
        r@ == name_of(c),
{
    proof {
        reveal_strlit("read");
        reveal_strlit("write");
        reveal_strlit("execute");
    }
    match c {
        Capability::Read => "read",
        Capability::Write => "write",
        Capability::Execute => "execute",
    }
}

/// Renders a capability set for a person: "read, write, execute", "read",
/// and so on, or "None" when it is empty.
pub fn describe(caps: &[Capability]) -> (r: String)
    ensures
        r@ == description_of(caps@),
{
    if caps.len() == 0 {
        proof {
            reveal_strlit("None");
        }
        return String::from_str("None");
    }
    let mut r = String::from_str(capability_name(caps[0]));
    let mut i: usize = 1;
    proof {
        assert(caps@.subrange(0, 1).drop_last() =~= Seq::<Capability>::empty());
        assert(joined_names(caps@.subrange(0, 1)) == name_of(caps@[0]));
    }
    while i < caps.len()
        invariant
            1 <= i <= caps@.len(),
            r@ == joined_names(caps@.subrange(0, i as int)),
        decreases caps@.len() - i,
    {
        proof {
            reveal_strlit(", ");
        }
        r.append(", ");
        r.append(capability_name(caps[i]));
        proof {
            let next = caps@.subrange(0, i + 1);
            assert(next.drop_last() =~= caps@.subrange(0, i as int));
            assert(next.last() == caps@[i as int]);
        }
        i = i + 1;
    }
    assert(caps@.subrange(0, caps@.len() as int) =~= caps@);
    r
}

} // verus!
