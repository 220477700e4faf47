//! A set of file open modes, packed into the low bits of one word.

use vstd::prelude::*;

verus! {

/// One way in which a file may be opened.
#[derive(Clone, Copy, Debug, PartialEq, Eq, Structural)]
pub enum Perm {
    Read,
    Write,
    Append,
    Create,
    Trunc,
}

/// The bit that stands for `p` in the packed word.
pub open spec fn bit_of(p: Perm) -> u32 {
    match p {
        Perm::Read => 0b0001u32,
        Perm::Write => 0b0010u32,
        Perm::Append => 0b0100u32,
        Perm::Create => 0b1000u32,
        Perm::Trunc => 0b1_0000u32,
    }
}

/// The modes whose bits are set in `bits`.
pub open spec fn perms_of(bits: u32) -> Set<Perm> {
    Set::new(|p: Perm| bits & bit_of(p) != 0)
}

/// A word with exactly the bit of `p` set holds `p` and nothing else.
proof fn lemma_single(p: Perm)
    ensures
        perms_of(bit_of(p)) == set![p],
{
    assert(1u32 & 1u32 != 0 && 1u32 & 2u32 == 0 && 1u32 & 4u32 == 0 && 1u32 & 8u32 == 0 && 1u32
        & 16u32 == 0) by (bit_vector);
    assert(2u32 & 1u32 == 0 && 2u32 & 2u32 != 0 && 2u32 & 4u32 == 0 && 2u32 & 8u32 == 0 && 2u32
        & 16u32 == 0) by (bit_vector);
    assert(4u32 & 1u32 == 0 && 4u32 & 2u32 == 0 && 4u32 & 4u32 != 0 && 4u32 & 8u32 == 0 && 4u32
        & 16u32 == 0) by (bit_vector);
    assert(8u32 & 1u32 == 0 && 8u32 & 2u32 == 0 && 8u32 & 4u32 == 0 && 8u32 & 8u32 != 0 && 8u32
        & 16u32 == 0) by (bit_vector);
    assert(16u32 & 1u32 == 0 && 16u32 & 2u32 == 0 && 16u32 & 4u32 == 0 && 16u32 & 8u32 == 0
        && 16u32 & 16u32 != 0) by (bit_vector);
    assert forall|q: Perm| perms_of(bit_of(p)).contains(q) <==> q == p by {
        assert(bit_of(q) == 1 || bit_of(q) == 2 || bit_of(q) == 4 || bit_of(q) == 8 || bit_of(q)
            == 16);
    }
    assert(perms_of(bit_of(p)) =~= set![p]);
}

/// Or-ing two words unites their modes; and-ing them intersects their modes.
proof fn lemma_or_and(a: u32, b: u32)
    ensures
        perms_of(a | b) == perms_of(a).union(perms_of(b)),
        perms_of(a & b) == perms_of(a).intersect(perms_of(b)),
        a < 32 && b < 32 ==> (a | b) < 32 && (a & b) < 32,
{
    assert forall|p: Perm| perms_of(a | b).contains(p) <==> (perms_of(a).contains(p) || perms_of(
        b,
    ).contains(p)) by {
        let m = bit_of(p);
        assert(((a | b) & m != 0) <==> (a & m != 0 || b & m != 0)) by (bit_vector);
    }
    assert forall|p: Perm| perms_of(a & b).contains(p) <==> (perms_of(a).contains(p) && perms_of(
        b,
    ).contains(p)) by {
        let m = bit_of(p);
        assert(m == 1 || m == 2 || m == 4 || m == 8 || m == 16);
        assert((m == 1 || m == 2 || m == 4 || m == 8 || m == 16) ==> (((a & b) & m != 0) <==> (a
            & m != 0 && b & m != 0))) by (bit_vector);
    }
    assert(perms_of(a | b) =~= perms_of(a).union(perms_of(b)));
    assert(perms_of(a & b) =~= perms_of(a).intersect(perms_of(b)));
    assert(a < 32 && b < 32 ==> (a | b) < 32 && (a & b) < 32) by (bit_vector);
}

/// Among words of five bits, `b`'s bits all lie in `a` exactly when `b`'s
/// modes all lie in `a`'s.
proof fn lemma_contains(a: u32, b: u32)
    requires
        a < 32,
        b < 32,
    ensures
        ((a & b) == b) <==> perms_of(b).subset_of(perms_of(a)),
{
    assert(a < 32 && b < 32 ==> (((a & b) == b) <==> ((b & 1 != 0 ==> a & 1 != 0) && (b & 2 != 0
        ==> a & 2 != 0) && (b & 4 != 0 ==> a & 4 != 0) && (b & 8 != 0 ==> a & 8 != 0) && (b & 16
        != 0 ==> a & 16 != 0)))) by (bit_vector);
    if (a & b) == b {
        assert forall|p: Perm| perms_of(b).contains(p) implies perms_of(a).contains(p) by {
            let m = bit_of(p);
            assert(m == 1 || m == 2 || m == 4 || m == 8 || m == 16);
        }
    }
    if perms_of(b).subset_of(perms_of(a)) {
        assert(perms_of(b).contains(Perm::Read) ==> perms_of(a).contains(Perm::Read));
        assert(perms_of(b).contains(Perm::Write) ==> perms_of(a).contains(Perm::Write));
        assert(perms_of(b).contains(Perm::Append) ==> perms_of(a).contains(Perm::Append));
        assert(perms_of(b).contains(Perm::Create) ==> perms_of(a).contains(Perm::Create));
        assert(perms_of(b).contains(Perm::Trunc) ==> perms_of(a).contains(Perm::Trunc));
        assert(bit_of(Perm::Read) == 1 && bit_of(Perm::Write) == 2 && bit_of(Perm::Append) == 4
            && bit_of(Perm::Create) == 8 && bit_of(Perm::Trunc) == 16);
    }
}

/// A set of open modes.
#[derive(Clone, Copy, Debug, PartialEq, Eq)]
pub struct OPerms(u32);

impl View for OPerms {
    type V = Set<Perm>;

    closed spec fn view(&self) -> Set<Perm> {
        perms_of(self.0)
    }
}

impl OPerms {
    /// Only the five mode bits are ever set.
    #[verifier::type_invariant]
    closed spec fn well_formed(self) -> bool {
        self.0 < 32
    }

    /// The set with no mode in it.
    pub fn empty() -> (r: Self)
        ensures
            r@ == Set::<Perm>::empty(),
    {
        let r = Self(0);
        proof {
            assert forall|p: Perm| !perms_of(0u32).contains(p) by {
                let m = bit_of(p);
                assert(0u32 & m == 0) by (bit_vector);
            }
            assert(r@ =~= Set::<Perm>::empty());
        }
        r
    }

    /// The set that holds `p` alone.
    pub fn of(p: Perm) -> (r: Self)
        ensures
            r@ == set![p],
    {
        proof {
            lemma_single(p);
        }
        match p {
            Perm::Read => Self(0b0001),
            Perm::Write => Self(0b0010),
            Perm::Append => Self(0b0100),
            Perm::Create => Self(0b1000),
            Perm::Trunc => Self(0b1_0000),
        }
    }

    /// Open for reading.
    pub fn read() -> (r: Self)
        ensures
            r@ == set![Perm::Read],
    {
        Self::of(Perm::Read)
    }

    /// Open for writing.
    pub fn write() -> (r: Self)
        ensures
            r@ == set![Perm::Write],
    {
        Self::of(Perm::Write)
    }

    /// Every write goes to the end of the file.
    pub fn append() -> (r: Self)
        ensures
            r@ == set![Perm::Append],
    {
        Self::of(Perm::Append)
    }

    /// Create the file where it is missing.
    pub fn create() -> (r: Self)
        ensures
            r@ == set![Perm::Create],
    {
        Self::of(Perm::Create)
    }

    /// Cut the file to length zero on opening.
    pub fn trunc() -> (r: Self)
        ensures
            r@ == set![Perm::Trunc],
    {
        Self::of(Perm::Trunc)
    }

    /// Whether every mode of `other` is in `self`.
    pub fn contains(self, other: Self) -> (r: bool)
        ensures
            r == other@.subset_of(self@),
    {
        proof {
            use_type_invariant(&self);
            use_type_invariant(&other);
            lemma_contains(self.0, other.0);
        }
        (self.0 & other.0) == other.0
    }

    /// Whether `p` is in the set.
    pub fn has(self, p: Perm) -> (r: bool)
        ensures
            r == self@.contains(p),
    {
        let one = Self::of(p);
        assert(set![p].subset_of(self@) <==> self@.contains(p));
        self.contains(one)
    }
}

impl std::ops::BitOr for OPerms {
    type Output = OPerms;

    /// The modes of either operand.
    fn bitor(self, rhs: Self) -> (r: Self::Output)
        ensures
            r@ == self@.union(rhs@),
    {
        proof {
            use_type_invariant(&self);
            use_type_invariant(&rhs);
            lemma_or_and(self.0, rhs.0);
        }
        OPerms(self.0 | rhs.0)
    }
}

impl vstd::std_specs::ops::BitOrSpecImpl for OPerms {
    open spec fn obeys_bitor_spec() -> bool {
        true
    }

    open spec fn bitor_req(self, rhs: Self) -> bool {
        true
    }

    closed spec fn bitor_spec(self, rhs: Self) -> Self::Output {
        OPerms(self.0 | rhs.0)
    }
}

impl std::ops::BitAnd for OPerms {
    type Output = OPerms;

    /// The modes of both operands.
    fn bitand(self, rhs: Self) -> (r: Self::Output)
        ensures
            r@ == self@.intersect(rhs@),
    {
        proof {
            use_type_invariant(&self);
            use_type_invariant(&rhs);
            lemma_or_and(self.0, rhs.0);
        }
        OPerms(self.0 & rhs.0)
    }
}

impl vstd::std_specs::ops::BitAndSpecImpl for OPerms {
    open spec fn obeys_bitand_spec() -> bool {
        true
    }

    open spec fn bitand_req(self, rhs: Self) -> bool {
        true
    }

    closed spec fn bitand_spec(self, rhs: Self) -> Self::Output {
        OPerms(self.0 & rhs.0)
    }
}

impl std::ops::BitOrAssign for OPerms {
    /// Adds the modes of `rhs`.
    fn bitor_assign(&mut self, rhs: Self)
        ensures
            final(self)@ == old(self)@.union(rhs@),
    {
        proof {
            use_type_invariant(&*self);
            use_type_invariant(&rhs);
            lemma_or_and(self.0, rhs.0);
        }
        self.0 = self.0 | rhs.0;
    }
}

} // verus!
