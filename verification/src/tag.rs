use vstd::prelude::*;

verus! {

/// Renders `n` in decimal, most significant digit first.
pub open spec fn dec_of(n: nat) -> Seq<char>
    decreases n,
{
    if n < 10 {
        seq![dec_digit(n)]
    } else {
        dec_of(n / 10) + seq![dec_digit(n % 10)]
    }
}

/// The character for a single decimal digit.
pub open spec fn dec_digit(d: nat) -> char {
    if d == 0 {
        '0'
    } else if d == 1 {
        '1'
    } else if d == 2 {
        '2'
    } else if d == 3 {
        '3'
    } else if d == 4 {
        '4'
    } else if d == 5 {
        '5'
    } else if d == 6 {
        '6'
    } else if d == 7 {
        '7'
    } else if d == 8 {
        '8'
    } else {
        '9'
    }
}

fn digit_str(d: u64) -> (r: &'static str)
    requires
        d < 10,
    ensures
        r@ == seq![dec_digit(d as nat)],
{
    proof {
        reveal_strlit("0");
        reveal_strlit("1");
        reveal_strlit("2");
        reveal_strlit("3");
        reveal_strlit("4");
        reveal_strlit("5");
        reveal_strlit("6");
        reveal_strlit("7");
        reveal_strlit("8");
        reveal_strlit("9");
    }
    let r: &'static str = if d == 0 {
        "0"
    } else if d == 1 {
        "1"
    } else if d == 2 {
        "2"
    } else if d == 3 {
        "3"
    } else if d == 4 {
        "4"
    } else if d == 5 {
        "5"
    } else if d == 6 {
        "6"
    } else if d == 7 {
        "7"
    } else if d == 8 {
        "8"
    } else {
        "9"
    };
    assert(r@ =~= seq![dec_digit(d as nat)]);
    r
}

/// Decimal rendering of a 64-bit value, as used for tags and queue ids.
pub fn u64_to_decimal(n: u64) -> (r: String)
    ensures
        r@ == dec_of(n as nat),
    decreases n,
{
    if n < 10 {
        String::from_str(digit_str(n))
    } else {
        assert(n / 10 < n) by (nonlinear_arith)
            requires
                n >= 10,
        ;
        let mut s = u64_to_decimal(n / 10);
        s.append(digit_str(n % 10));
        s
    }
}

/// A decimal digit character.
pub open spec fn spec_is_dec_digit(c: char) -> bool {
    c == '0' || c == '1' || c == '2' || c == '3' || c == '4' || c == '5' || c == '6' || c == '7'
        || c == '8' || c == '9'
}

/// A rendered number is a non-empty string of decimal digits.
pub proof fn lemma_dec_of_decimal(n: nat)
    ensures
        dec_of(n).len() > 0,
        forall|i: int| 0 <= i < dec_of(n).len() ==> spec_is_dec_digit(#[trigger] dec_of(n)[i]),
    decreases n,
{
    if n >= 10 {
        lemma_dec_of_decimal(n / 10);
    }
}

/// The 64-bit CityHash digest of a byte string. The digest is a function of
/// the bytes alone, the same in every process and on every machine.
pub uninterp spec fn city64_of(bytes: Seq<u8>) -> u64;

/// Relies on `fasthash::city::hash64`: the CityHash64 digest of the bytes,
/// a pure function of its input.
#[verifier::external_body]
fn city_hash64(bytes: &Vec<u8>) -> (r: u64)
    ensures
        r == city64_of(bytes@),
{
    fasthash::city::hash64(bytes.as_slice())
}

/// The job tag of a canonically serialised request: the decimal rendering of
/// its CityHash64 digest.
pub open spec fn spec_tag(bytes: Seq<u8>) -> Seq<char> {
    dec_of(city64_of(bytes) as nat)
}

/// Computes the content tag of a canonically serialised request.
pub fn tag_of(canonical: &Vec<u8>) -> (r: String)
    ensures
        r@ == spec_tag(canonical@),
{
    u64_to_decimal(city_hash64(canonical))
}

/// Tag determinism: two equal canonical serialisations always carry the same
/// tag.
pub proof fn lemma_tag_deterministic(a: Seq<u8>, b: Seq<u8>)
    requires
        a == b,
    ensures
        spec_tag(a) == spec_tag(b),
{
}

} // verus!
