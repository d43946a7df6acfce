use vstd::prelude::*;

verus! {

/// The lower-case hexadecimal digit of `d`, for `d < 16`.
pub open spec fn hex_digit(d: u128) -> char {
    if d == 0 { '0' } else { if d == 1 { '1' } else { if d == 2 { '2' } else { if d == 3 { '3' } else { if d == 4 { '4' } else { if d == 5 { '5' } else { if d == 6 { '6' } else { if d == 7 { '7' } else { if d == 8 { '8' } else { if d == 9 { '9' } else { if d == 10 { 'a' } else { if d == 11 { 'b' } else { if d == 12 { 'c' } else { if d == 13 { 'd' } else { if d == 14 { 'e' } else { 'f' } } } } } } } } } } } } } } }
}

/// The `k`-th hexadecimal digit of `id`, most significant first (`k < 32`).
pub open spec fn nibble(id: u128, k: int) -> u128 {
    (id >> ((4 * (31 - k)) as u128)) & 15u128
}

pub open spec fn hyphen_at(i: int) -> bool {
    i == 8 || i == 13 || i == 18 || i == 23
}

/// The digit that position `i` of the text shows.
pub open spec fn digit_at(i: int) -> int {
    if i < 8 {
        i
    } else if i < 13 {
        i - 1
    } else if i < 18 {
        i - 2
    } else if i < 23 {
        i - 3
    } else {
        i - 4
    }
}

/// The hyphenated lower-case text of a UUID given as its 128-bit value:
/// 32 hexadecimal digits, most significant first, in groups of 8, 4, 4, 4
/// and 12 joined by `-`.
pub open spec fn uuid_hyphenated(id: u128) -> Seq<char> {
    Seq::new(36, |i: int| if hyphen_at(i) { '-' } else { hex_digit(nibble(id, digit_at(i))) })
}

proof fn lemma_nibbles_equal(a: u128, b: u128)
    requires
        (a >> 124u128) & 15u128 == (b >> 124u128) & 15u128,
        (a >> 120u128) & 15u128 == (b >> 120u128) & 15u128,
        (a >> 116u128) & 15u128 == (b >> 116u128) & 15u128,
        (a >> 112u128) & 15u128 == (b >> 112u128) & 15u128,
        (a >> 108u128) & 15u128 == (b >> 108u128) & 15u128,
        (a >> 104u128) & 15u128 == (b >> 104u128) & 15u128,
        (a >> 100u128) & 15u128 == (b >> 100u128) & 15u128,
        (a >> 96u128) & 15u128 == (b >> 96u128) & 15u128,
        (a >> 92u128) & 15u128 == (b >> 92u128) & 15u128,
        (a >> 88u128) & 15u128 == (b >> 88u128) & 15u128,
        (a >> 84u128) & 15u128 == (b >> 84u128) & 15u128,
        (a >> 80u128) & 15u128 == (b >> 80u128) & 15u128,
        (a >> 76u128) & 15u128 == (b >> 76u128) & 15u128,
        (a >> 72u128) & 15u128 == (b >> 72u128) & 15u128,
        (a >> 68u128) & 15u128 == (b >> 68u128) & 15u128,
        (a >> 64u128) & 15u128 == (b >> 64u128) & 15u128,
        (a >> 60u128) & 15u128 == (b >> 60u128) & 15u128,
        (a >> 56u128) & 15u128 == (b >> 56u128) & 15u128,
        (a >> 52u128) & 15u128 == (b >> 52u128) & 15u128,
        (a >> 48u128) & 15u128 == (b >> 48u128) & 15u128,
        (a >> 44u128) & 15u128 == (b >> 44u128) & 15u128,
        (a >> 40u128) & 15u128 == (b >> 40u128) & 15u128,
        (a >> 36u128) & 15u128 == (b >> 36u128) & 15u128,
        (a >> 32u128) & 15u128 == (b >> 32u128) & 15u128,
        (a >> 28u128) & 15u128 == (b >> 28u128) & 15u128,
        (a >> 24u128) & 15u128 == (b >> 24u128) & 15u128,
        (a >> 20u128) & 15u128 == (b >> 20u128) & 15u128,
        (a >> 16u128) & 15u128 == (b >> 16u128) & 15u128,
        (a >> 12u128) & 15u128 == (b >> 12u128) & 15u128,
        (a >> 8u128) & 15u128 == (b >> 8u128) & 15u128,
        (a >> 4u128) & 15u128 == (b >> 4u128) & 15u128,
        (a >> 0u128) & 15u128 == (b >> 0u128) & 15u128,
    ensures
        a == b,
{
    assert(a == b) by (bit_vector)
        requires
            (a >> 124u128) & 15u128 == (b >> 124u128) & 15u128,
            (a >> 120u128) & 15u128 == (b >> 120u128) & 15u128,
            (a >> 116u128) & 15u128 == (b >> 116u128) & 15u128,
            (a >> 112u128) & 15u128 == (b >> 112u128) & 15u128,
            (a >> 108u128) & 15u128 == (b >> 108u128) & 15u128,
            (a >> 104u128) & 15u128 == (b >> 104u128) & 15u128,
            (a >> 100u128) & 15u128 == (b >> 100u128) & 15u128,
            (a >> 96u128) & 15u128 == (b >> 96u128) & 15u128,
            (a >> 92u128) & 15u128 == (b >> 92u128) & 15u128,
            (a >> 88u128) & 15u128 == (b >> 88u128) & 15u128,
            (a >> 84u128) & 15u128 == (b >> 84u128) & 15u128,
            (a >> 80u128) & 15u128 == (b >> 80u128) & 15u128,
            (a >> 76u128) & 15u128 == (b >> 76u128) & 15u128,
            (a >> 72u128) & 15u128 == (b >> 72u128) & 15u128,
            (a >> 68u128) & 15u128 == (b >> 68u128) & 15u128,
            (a >> 64u128) & 15u128 == (b >> 64u128) & 15u128,
            (a >> 60u128) & 15u128 == (b >> 60u128) & 15u128,
            (a >> 56u128) & 15u128 == (b >> 56u128) & 15u128,
            (a >> 52u128) & 15u128 == (b >> 52u128) & 15u128,
            (a >> 48u128) & 15u128 == (b >> 48u128) & 15u128,
            (a >> 44u128) & 15u128 == (b >> 44u128) & 15u128,
            (a >> 40u128) & 15u128 == (b >> 40u128) & 15u128,
            (a >> 36u128) & 15u128 == (b >> 36u128) & 15u128,
            (a >> 32u128) & 15u128 == (b >> 32u128) & 15u128,
            (a >> 28u128) & 15u128 == (b >> 28u128) & 15u128,
            (a >> 24u128) & 15u128 == (b >> 24u128) & 15u128,
            (a >> 20u128) & 15u128 == (b >> 20u128) & 15u128,
            (a >> 16u128) & 15u128 == (b >> 16u128) & 15u128,
            (a >> 12u128) & 15u128 == (b >> 12u128) & 15u128,
            (a >> 8u128) & 15u128 == (b >> 8u128) & 15u128,
            (a >> 4u128) & 15u128 == (b >> 4u128) & 15u128,
            (a >> 0u128) & 15u128 == (b >> 0u128) & 15u128,
    ;
}

proof fn lemma_hex_digit_injective(x: u128, y: u128)
    requires
        x < 16,
        y < 16,
        hex_digit(x) == hex_digit(y),
    ensures
        x == y,
{
}

/// Different ids have different texts.
pub proof fn lemma_uuid_text_injective(a: u128, b: u128)
    requires
        uuid_hyphenated(a) == uuid_hyphenated(b),
    ensures
        a == b,
{
    assert forall|k: int| 0 <= k < 32 implies nibble(a, k) == nibble(b, k) by {
        let i = k + (if k >= 8 { 1int } else { 0 }) + (if k >= 12 { 1int } else { 0 }) + (if k
            >= 16 { 1int } else { 0 }) + (if k >= 20 { 1int } else { 0 });
        assert(digit_at(i) == k);
        assert(!hyphen_at(i));
        assert(uuid_hyphenated(a)[i] == uuid_hyphenated(b)[i]);
        let s = (4 * (31 - k)) as u128;
        assert(((a >> s) & 15u128) < 16u128) by (bit_vector);
        assert(((b >> s) & 15u128) < 16u128) by (bit_vector);
        assert(uuid_hyphenated(a)[i] == hex_digit(nibble(a, k)));
        assert(uuid_hyphenated(b)[i] == hex_digit(nibble(b, k)));
        lemma_hex_digit_injective(nibble(a, k), nibble(b, k));
    }
    assert(nibble(a, 0) == (a >> 124u128) & 15u128 && nibble(b, 0) == (b >> 124u128) & 15u128);
    assert(nibble(a, 1) == (a >> 120u128) & 15u128 && nibble(b, 1) == (b >> 120u128) & 15u128);
    assert(nibble(a, 2) == (a >> 116u128) & 15u128 && nibble(b, 2) == (b >> 116u128) & 15u128);
    assert(nibble(a, 3) == (a >> 112u128) & 15u128 && nibble(b, 3) == (b >> 112u128) & 15u128);
    assert(nibble(a, 4) == (a >> 108u128) & 15u128 && nibble(b, 4) == (b >> 108u128) & 15u128);
    assert(nibble(a, 5) == (a >> 104u128) & 15u128 && nibble(b, 5) == (b >> 104u128) & 15u128);
    assert(nibble(a, 6) == (a >> 100u128) & 15u128 && nibble(b, 6) == (b >> 100u128) & 15u128);
    assert(nibble(a, 7) == (a >> 96u128) & 15u128 && nibble(b, 7) == (b >> 96u128) & 15u128);
    assert(nibble(a, 8) == (a >> 92u128) & 15u128 && nibble(b, 8) == (b >> 92u128) & 15u128);
    assert(nibble(a, 9) == (a >> 88u128) & 15u128 && nibble(b, 9) == (b >> 88u128) & 15u128);
    assert(nibble(a, 10) == (a >> 84u128) & 15u128 && nibble(b, 10) == (b >> 84u128) & 15u128);
    assert(nibble(a, 11) == (a >> 80u128) & 15u128 && nibble(b, 11) == (b >> 80u128) & 15u128);
    assert(nibble(a, 12) == (a >> 76u128) & 15u128 && nibble(b, 12) == (b >> 76u128) & 15u128);
    assert(nibble(a, 13) == (a >> 72u128) & 15u128 && nibble(b, 13) == (b >> 72u128) & 15u128);
    assert(nibble(a, 14) == (a >> 68u128) & 15u128 && nibble(b, 14) == (b >> 68u128) & 15u128);
    assert(nibble(a, 15) == (a >> 64u128) & 15u128 && nibble(b, 15) == (b >> 64u128) & 15u128);
    assert(nibble(a, 16) == (a >> 60u128) & 15u128 && nibble(b, 16) == (b >> 60u128) & 15u128);
    assert(nibble(a, 17) == (a >> 56u128) & 15u128 && nibble(b, 17) == (b >> 56u128) & 15u128);
    assert(nibble(a, 18) == (a >> 52u128) & 15u128 && nibble(b, 18) == (b >> 52u128) & 15u128);
    assert(nibble(a, 19) == (a >> 48u128) & 15u128 && nibble(b, 19) == (b >> 48u128) & 15u128);
    assert(nibble(a, 20) == (a >> 44u128) & 15u128 && nibble(b, 20) == (b >> 44u128) & 15u128);
    assert(nibble(a, 21) == (a >> 40u128) & 15u128 && nibble(b, 21) == (b >> 40u128) & 15u128);
    assert(nibble(a, 22) == (a >> 36u128) & 15u128 && nibble(b, 22) == (b >> 36u128) & 15u128);
    assert(nibble(a, 23) == (a >> 32u128) & 15u128 && nibble(b, 23) == (b >> 32u128) & 15u128);
    assert(nibble(a, 24) == (a >> 28u128) & 15u128 && nibble(b, 24) == (b >> 28u128) & 15u128);
    assert(nibble(a, 25) == (a >> 24u128) & 15u128 && nibble(b, 25) == (b >> 24u128) & 15u128);
    assert(nibble(a, 26) == (a >> 20u128) & 15u128 && nibble(b, 26) == (b >> 20u128) & 15u128);
    assert(nibble(a, 27) == (a >> 16u128) & 15u128 && nibble(b, 27) == (b >> 16u128) & 15u128);
    assert(nibble(a, 28) == (a >> 12u128) & 15u128 && nibble(b, 28) == (b >> 12u128) & 15u128);
    assert(nibble(a, 29) == (a >> 8u128) & 15u128 && nibble(b, 29) == (b >> 8u128) & 15u128);
    assert(nibble(a, 30) == (a >> 4u128) & 15u128 && nibble(b, 30) == (b >> 4u128) & 15u128);
    assert(nibble(a, 31) == (a >> 0u128) & 15u128 && nibble(b, 31) == (b >> 0u128) & 15u128);
    assert(nibble(a, 0) == nibble(b, 0));
    assert(nibble(a, 1) == nibble(b, 1));
    assert(nibble(a, 2) == nibble(b, 2));
    assert(nibble(a, 3) == nibble(b, 3));
    assert(nibble(a, 4) == nibble(b, 4));
    assert(nibble(a, 5) == nibble(b, 5));
    assert(nibble(a, 6) == nibble(b, 6));
    assert(nibble(a, 7) == nibble(b, 7));
    assert(nibble(a, 8) == nibble(b, 8));
    assert(nibble(a, 9) == nibble(b, 9));
    assert(nibble(a, 10) == nibble(b, 10));
    assert(nibble(a, 11) == nibble(b, 11));
    assert(nibble(a, 12) == nibble(b, 12));
    assert(nibble(a, 13) == nibble(b, 13));
    assert(nibble(a, 14) == nibble(b, 14));
    assert(nibble(a, 15) == nibble(b, 15));
    assert(nibble(a, 16) == nibble(b, 16));
    assert(nibble(a, 17) == nibble(b, 17));
    assert(nibble(a, 18) == nibble(b, 18));
    assert(nibble(a, 19) == nibble(b, 19));
    assert(nibble(a, 20) == nibble(b, 20));
    assert(nibble(a, 21) == nibble(b, 21));
    assert(nibble(a, 22) == nibble(b, 22));
    assert(nibble(a, 23) == nibble(b, 23));
    assert(nibble(a, 24) == nibble(b, 24));
    assert(nibble(a, 25) == nibble(b, 25));
    assert(nibble(a, 26) == nibble(b, 26));
    assert(nibble(a, 27) == nibble(b, 27));
    assert(nibble(a, 28) == nibble(b, 28));
    assert(nibble(a, 29) == nibble(b, 29));
    assert(nibble(a, 30) == nibble(b, 30));
    assert(nibble(a, 31) == nibble(b, 31));
    lemma_nibbles_equal(a, b);
}

/// Relies on `uuid::Uuid::new_v4`: a random version 4 UUID, taken as its
/// 128-bit value. Nothing is promised of the value.
#[verifier::external_body]
pub(crate) fn random_id() -> (r: u128) {
    uuid::Uuid::new_v4().as_u128()
}

/// Relies on `uuid::Uuid::from_u128` (the value's bytes, most significant
/// first) and its `Display`, which writes the hyphenated lower-case form.
#[verifier::external_body]
pub(crate) fn id_text(id: u128) -> (r: String)
    ensures
        r@ == uuid_hyphenated(id),
{
    uuid::Uuid::from_u128(id).to_string()
}

} // verus!
