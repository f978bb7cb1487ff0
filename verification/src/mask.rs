use vstd::prelude::*;

verus! {

/// Number of set bits in the binary representation of `v`.
pub open spec fn popcount(v: nat) -> nat
    decreases v,
{
    if v == 0 {
        0
    } else {
        (v % 2) + popcount(v / 2)
    }
}

/// A magnitude stands for a single role exactly when it is zero (the
/// "no role" sentinel) or has exactly one set bit (a power of two).
pub open spec fn single_role(v: usize) -> bool {
    v == 0 || popcount(v as nat) == 1
}

/// A mask holds a role magnitude when the two share at least one bit.
/// The zero magnitude shares no bit with anything, so the sentinel role
/// can never be held.
pub open spec fn has_role(mask: usize, mag: usize) -> bool {
    mask & mag != 0
}

/// A mask holds every magnitude of the sequence (vacuously true when it
/// is empty).
pub open spec fn has_all_roles(mask: usize, mags: Seq<usize>) -> bool {
    forall|i: int| 0 <= i < mags.len() ==> has_role(mask, #[trigger] mags[i])
}

/// A mask holds at least one magnitude of the sequence (false when it is
/// empty).
pub open spec fn has_any_role(mask: usize, mags: Seq<usize>) -> bool {
    exists|i: int| 0 <= i < mags.len() && has_role(mask, #[trigger] mags[i])
}

/// The bitwise union of a sequence of magnitudes.
pub open spec fn union_of(mags: Seq<usize>) -> usize
    decreases mags.len(),
{
    if mags.len() == 0 {
        0
    } else {
        union_of(mags.drop_last()) | mags.last()
    }
}

/// How many leading magnitudes of the sequence are valid single roles.
pub open spec fn valid_prefix_len(mags: Seq<usize>) -> int
    decreases mags.len(),
{
    if mags.len() == 0 {
        0
    } else if !single_role(mags[0]) {
        0
    } else {
        1 + valid_prefix_len(mags.drop_first())
    }
}

/// How many leading magnitudes of the sequence are valid single roles
/// that the mask does not hold.
pub open spec fn quiet_prefix_len(mask: usize, mags: Seq<usize>) -> int
    decreases mags.len(),
{
    if mags.len() == 0 {
        0
    } else if !single_role(mags[0]) || has_role(mask, mags[0]) {
        0
    } else {
        1 + quiet_prefix_len(mask, mags.drop_first())
    }
}

/// Adding the empty union leaves a mask unchanged.
pub proof fn lemma_add_nothing(a: usize)
    by (bit_vector)
    ensures
        a | 0usize == a,
{
}

/// Removing the empty union leaves a mask unchanged.
pub proof fn lemma_remove_nothing(a: usize)
    by (bit_vector)
    ensures
        a & !0usize == a,
{
}

/// Union with a further magnitude folds to the right.
pub proof fn lemma_or_assoc(a: usize, b: usize, c: usize)
    by (bit_vector)
    ensures
        a | b | c == a | (b | c),
{
}

/// Removing two magnitudes in turn removes their union.
pub proof fn lemma_remove_fold(a: usize, b: usize, c: usize)
    by (bit_vector)
    ensures
        a & !b & !c == a & !(b | c),
{
}

/// A mask that is free of a magnitude, gains it, and loses it again is
/// restored: adding and removing are inverse on a clean bit.
pub proof fn lemma_add_then_remove_restores(m: usize, r: usize)
    requires
        single_role(r),
        m & r == 0,
    ensures
        (m | r) & !r == m,
{
    assert((m | r) & !r == m) by (bit_vector)
        requires
            m & r == 0,
    ;
}

/// After a nonzero single role is added to the empty mask, the mask
/// holds that role and its value is exactly the role's magnitude.
pub proof fn lemma_empty_after_add_has_role(r: usize)
    requires
        single_role(r),
        r != 0,
    ensures
        has_role(0usize | r, r),
        0usize | r == r,
{
    assert(0usize | r == r && r & r == r) by (bit_vector);
}

/// The valid prefix ends exactly at the first invalid magnitude.
pub proof fn lemma_valid_prefix_len_at(mags: Seq<usize>, i: int)
    requires
        0 <= i <= mags.len(),
        forall|j: int| 0 <= j < i ==> single_role(#[trigger] mags[j]),
        i < mags.len() ==> !single_role(mags[i]),
    ensures
        valid_prefix_len(mags) == i,
    decreases mags.len(),
{
    if mags.len() > 0 && i > 0 {
        let rest = mags.drop_first();
        assert(forall|j: int| 0 <= j < i - 1 ==> single_role(#[trigger] rest[j])) by {
            assert(forall|j: int| 0 <= j < i - 1 ==> rest[j] == mags[j + 1]);
        }
        lemma_valid_prefix_len_at(rest, i - 1);
    }
}

/// The quiet prefix ends exactly at the first magnitude that is invalid
/// or held by the mask.
pub proof fn lemma_quiet_prefix_len_at(mask: usize, mags: Seq<usize>, i: int)
    requires
        0 <= i <= mags.len(),
        forall|j: int| 0 <= j < i ==> single_role(#[trigger] mags[j]) && !has_role(mask, mags[j]),
        i < mags.len() ==> !single_role(mags[i]) || has_role(mask, mags[i]),
    ensures
        quiet_prefix_len(mask, mags) == i,
    decreases mags.len(),
{
    if mags.len() > 0 && i > 0 {
        let rest = mags.drop_first();
        assert(forall|j: int| 0 <= j < i - 1 ==> single_role(#[trigger] rest[j]) && !has_role(
            mask,
            rest[j],
        )) by {
            assert(forall|j: int| 0 <= j < i - 1 ==> rest[j] == mags[j + 1]);
        }
        lemma_quiet_prefix_len_at(mask, rest, i - 1);
    }
}

/// A number has no set bits exactly when it is zero.
proof fn lemma_popcount_zero(v: nat)
    ensures
        (popcount(v) == 0) <==> (v == 0),
    decreases v,
{
    if v > 0 {
        lemma_popcount_zero(v / 2);
    }
}

/// For a nonzero number, clearing the lowest set bit yields zero exactly
/// when the number has exactly one set bit.
pub proof fn lemma_single_bit_popcount(v: usize)
    requires
        v != 0,
    ensures
        (v & ((v - 1) as usize) == 0) <==> (popcount(v as nat) == 1),
    decreases v,
{
    if v == 1 {
        assert(1usize & 0usize == 0) by (bit_vector);
        assert(popcount(0nat) == 0);
        assert(popcount(1nat) == 1 + popcount(0nat));
    } else if v % 2 == 0 {
        let h = v / 2;
        assert((v & ((v - 1) as usize) == 0) <==> (h & ((h - 1) as usize) == 0))
            by (bit_vector)
            requires
                v % 2 == 0 && v >= 2 && h == v / 2,
        ;
        lemma_single_bit_popcount(h);
        assert(popcount(v as nat) == popcount(h as nat));
    } else {
        assert(v & ((v - 1) as usize) != 0) by (bit_vector)
            requires
                v % 2 == 1 && v >= 3,
        ;
        lemma_popcount_zero((v / 2) as nat);
        assert(popcount(v as nat) == 1 + popcount((v / 2) as nat));
    }
}

} // verus!
