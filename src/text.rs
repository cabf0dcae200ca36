use vstd::prelude::*;

verus! {

/// The ASCII code of the decimal digit `d`.
pub open spec fn digit(d: nat) -> u8
    recommends
        d < 10,
{
    (48 + d) as u8
}

/// The decimal digits of `n`, most significant first, without leading zeros.
pub open spec fn decimal(n: nat) -> Seq<u8>
    decreases n,
{
    if n < 10 {
        seq![digit(n)]
    } else {
        decimal(n / 10).push(digit(n % 10))
    }
}

/// The last `places` decimal digits of `n`, padded with zeros.
pub open spec fn low_digits(n: nat, places: nat) -> Seq<u8>
    decreases places,
{
    if places == 0 {
        Seq::empty()
    } else {
        low_digits(n / 10, (places - 1) as nat).push(digit(n % 10))
    }
}

/// Ten to the power `p`.
pub open spec fn pow10(p: nat) -> nat
    decreases p,
{
    if p == 0 {
        1
    } else {
        10 * pow10((p - 1) as nat)
    }
}

/// The fixed-point value `v / 10^places`, written with exactly `places`
/// digits after the decimal point.
pub open spec fn fixed(v: nat, places: nat) -> Seq<u8> {
    decimal(v / pow10(places)) + seq![46u8] + low_digits(v, places)
}

/// `v` hundredths rounded to tenths, halves away from zero.
pub open spec fn centi_to_deci(v: nat) -> nat {
    v / 10 + if v % 10 >= 5 {
        1nat
    } else {
        0nat
    }
}

/// Whether `b` is well-formed UTF-8.
pub uninterp spec fn utf8_valid(b: Seq<u8>) -> bool;

/// Relies on `std::str::from_utf8`: `Ok` exactly on well-formed UTF-8. An
/// empty or all-ASCII byte string is well-formed.
#[verifier::external_body]
pub(crate) fn is_utf8(b: &[u8]) -> (r: bool)
    ensures
        r == utf8_valid(b@),
        (forall|i: int| 0 <= i < b@.len() ==> b@[i] < 128) ==> r,
{
    std::str::from_utf8(b).is_ok()
}

/// Appends `s` to `out`.
pub fn push_bytes(out: &mut Vec<u8>, s: &[u8])
    ensures
        final(out)@ == old(out)@ + s@,
{
    let ghost start = out@;
    let mut i: usize = 0;
    while i < s.len()
        invariant
            i <= s@.len(),
            out@ == start + s@.subrange(0, i as int),
        decreases s@.len() - i,
    {
        out.push(s[i]);
        i = i + 1;
        assert(out@ =~= start + s@.subrange(0, i as int));
    }
    assert(s@.subrange(0, s@.len() as int) =~= s@);
}

/// Appends the decimal digits of `n`.
pub fn push_decimal(out: &mut Vec<u8>, n: u64)
    ensures
        final(out)@ == old(out)@ + decimal(n as nat),
    decreases n,
{
    let ghost start = out@;
    if n >= 10 {
        push_decimal(out, n / 10);
    }
    out.push(48u8 + (n % 10) as u8);
    assert(out@ =~= start + decimal(n as nat));
}

/// Appends the last `places` digits of `n`, zero-padded.
pub fn push_low_digits(out: &mut Vec<u8>, n: u64, places: u32)
    ensures
        final(out)@ == old(out)@ + low_digits(n as nat, places as nat),
    decreases places,
{
    let ghost start = out@;
    if places > 0 {
        push_low_digits(out, n / 10, places - 1);
        out.push(48u8 + (n % 10) as u8);
    }
    assert(out@ =~= start + low_digits(n as nat, places as nat));
}

/// Appends `v / 10^places` with `places` fractional digits, for one to three
/// places.
pub fn push_fixed(out: &mut Vec<u8>, v: u64, places: u32)
    requires
        1 <= places <= 3,
    ensures
        final(out)@ == old(out)@ + fixed(v as nat, places as nat),
{
    let ghost start = out@;
    let scale: u64 = if places == 1 {
        10
    } else if places == 2 {
        100
    } else {
        1000
    };
    assert(scale as nat == pow10(places as nat)) by {
        reveal_with_fuel(pow10, 4);
    }
    push_decimal(out, v / scale);
    out.push(46u8);
    push_low_digits(out, v, places);
    assert(out@ =~= start + fixed(v as nat, places as nat));
}

/// Rounds `v` hundredths to tenths, halves away from zero.
pub fn round_centi_to_deci(v: u64) -> (r: u64)
    ensures
        r as nat == centi_to_deci(v as nat),
{
    if v % 10 >= 5 {
        v / 10 + 1
    } else {
        v / 10
    }
}

} // verus!
