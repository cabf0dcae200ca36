use vstd::prelude::*;
use vstd::string::StringSliceAdditionalSpecFns;

use crate::layout::{scorable, QXRResearchData};
use crate::text::{
    centi_to_deci, decimal, fixed, is_utf8, push_bytes, push_decimal, push_fixed,
    round_centi_to_deci, utf8_valid,
};

verus! {

/// Why a boundary operation refused its arguments.
#[derive(Clone, Copy, Debug, PartialEq, Eq, Structural)]
pub enum BridgeError {
    /// A required handle, record or buffer was null.
    NullArgument,
    /// The record lies outside the scoring domain.
    OutOfDomain,
    /// The mode needs a text field that the record left null.
    MissingText,
    /// The output does not fit the caller's buffer with its terminator.
    BufferTooSmall,
}

/// The sentinel a boundary operation reports for an error.
pub open spec fn error_code(e: BridgeError) -> int {
    match e {
        BridgeError::BufferTooSmall => -2,
        _ => -1,
    }
}

impl BridgeError {
    /// The sentinel reported across the boundary: -2 for a buffer that is too
    /// small, -1 for every invalid argument.
    pub fn code(&self) -> (r: i32)
        ensures
            r == error_code(*self),
    {
        match self {
            BridgeError::BufferTooSmall => -2,
            _ => -1,
        }
    }
}

/// The content formats. Any mode name but the two known ones selects the
/// plain summary.
#[derive(Clone, Copy, Debug, PartialEq, Eq, Structural)]
pub enum Platform {
    LinkedIn,
    Twitter,
    Summary,
}

/// The format that a mode name selects.
pub open spec fn platform_of(name: Seq<u8>) -> Platform {
    if name == "linkedin".spec_bytes() {
        Platform::LinkedIn
    } else if name == "twitter".spec_bytes() {
        Platform::Twitter
    } else {
        Platform::Summary
    }
}

/// Whether the format quotes the record's timeframe.
pub open spec fn needs_timeframe(p: Platform) -> bool {
    p != Platform::Summary
}

/// The timeframe as quoted: its bytes when they are well-formed UTF-8, else
/// the default "24h".
pub open spec fn timeframe_text(t: Seq<u8>) -> Seq<u8> {
    if utf8_valid(t) {
        t
    } else {
        "24h".spec_bytes()
    }
}

/// The timeframe a record quotes; empty where it has none.
pub open spec fn quoted_timeframe(d: QXRResearchData) -> Seq<u8> {
    match d.timeframe {
        Some(t) => timeframe_text(t@),
        None => Seq::empty(),
    }
}

/// The content for a scorable record whose score is `score_centi`
/// hundredths, quoting the timeframe text `tf`.
pub open spec fn social_text(p: Platform, d: QXRResearchData, score_centi: nat, tf: Seq<u8>) -> Seq<
    u8,
> {
    let signals = decimal(d.signals as nat);
    let strength = fixed(d.signal_strength_milli as nat, 3);
    let opportunities = decimal(d.opportunities as nat);
    match p {
        Platform::LinkedIn => "\u{1F680} QXR Research Update: ".spec_bytes() + signals
            + " signals detected with ".spec_bytes() + strength
            + " strength. Performance score: ".spec_bytes() + fixed(score_centi, 2)
            + ". ".spec_bytes() + opportunities + " opportunities identified in ".spec_bytes()
            + tf + ".".spec_bytes(),
        Platform::Twitter => "\u{1F525} ".spec_bytes() + signals + " signals @ ".spec_bytes()
            + strength + " strength | Score: ".spec_bytes() + fixed(centi_to_deci(score_centi), 1)
            + " | ".spec_bytes() + opportunities + " ops | ".spec_bytes() + tf
            + " #QXR #Trading".spec_bytes(),
        Platform::Summary => "QXR Analysis: ".spec_bytes() + signals
            + " signals, performance ".spec_bytes() + fixed(score_centi, 2),
    }
}

/// What content generation yields for a record and a score: an error when
/// the record is outside the scoring domain or lacks a timeframe the format
/// quotes, else the formatted bytes.
pub open spec fn content_of(p: Platform, d: QXRResearchData, score_centi: nat) -> Result<
    Seq<u8>,
    BridgeError,
> {
    if !scorable(d) {
        Err(BridgeError::OutOfDomain)
    } else if needs_timeframe(p) && d.timeframe is None {
        Err(BridgeError::MissingText)
    } else {
        Ok(social_text(p, d, score_centi, quoted_timeframe(d)))
    }
}

/// Whether two byte strings are equal.
pub fn bytes_equal(a: &[u8], b: &[u8]) -> (r: bool)
    ensures
        r == (a@ == b@),
{
    if a.len() != b.len() {
        return false;
    }
    let mut i: usize = 0;
    while i < a.len()
        invariant
            a@.len() == b@.len(),
            i <= a@.len(),
            forall|j: int| 0 <= j < i ==> a@[j] == b@[j],
        decreases a@.len() - i,
    {
        if a[i] != b[i] {
            return false;
        }
        i = i + 1;
    }
    assert(a@ =~= b@);
    true
}

/// The format a mode name selects.
pub fn platform_from_name(name: &[u8]) -> (r: Platform)
    ensures
        r == platform_of(name@),
{
    if bytes_equal(name, "linkedin".as_bytes()) {
        Platform::LinkedIn
    } else if bytes_equal(name, "twitter".as_bytes()) {
        Platform::Twitter
    } else {
        Platform::Summary
    }
}

/// Appends the timeframe as quoted.
fn push_timeframe(out: &mut Vec<u8>, t: &Vec<u8>)
    ensures
        final(out)@ == old(out)@ + timeframe_text(t@),
{
    if is_utf8(t.as_slice()) {
        push_bytes(out, t.as_slice());
    } else {
        push_bytes(out, "24h".as_bytes());
    }
}

/// Formats the content for `data` in format `p`, with the record's score
/// given in hundredths.
pub fn generate_social_content(data: &QXRResearchData, p: Platform, score_centi: u64) -> (r: Result<
    Vec<u8>,
    BridgeError,
>)
    ensures
        match (r, content_of(p, *data, score_centi as nat)) {
            (Ok(v), Ok(t)) => v@ == t,
            (Err(e), Err(f)) => e == f,
            _ => false,
        },
{
    if !data.is_scorable() {
        return Err(BridgeError::OutOfDomain);
    }
    let mut out: Vec<u8> = Vec::new();
    let signals = data.signals as u64;
    let strength = data.signal_strength_milli as u64;
    let opportunities = data.opportunities as u64;
    match p {
        Platform::LinkedIn => {
            let t = match &data.timeframe {
                Some(t) => t,
                None => return Err(BridgeError::MissingText),
            };
            push_bytes(&mut out, "\u{1F680} QXR Research Update: ".as_bytes());
            push_decimal(&mut out, signals);
            push_bytes(&mut out, " signals detected with ".as_bytes());
            push_fixed(&mut out, strength, 3);
            push_bytes(&mut out, " strength. Performance score: ".as_bytes());
            push_fixed(&mut out, score_centi, 2);
            push_bytes(&mut out, ". ".as_bytes());
            push_decimal(&mut out, opportunities);
            push_bytes(&mut out, " opportunities identified in ".as_bytes());
            push_timeframe(&mut out, t);
            push_bytes(&mut out, ".".as_bytes());
        },
        Platform::Twitter => {
            let t = match &data.timeframe {
                Some(t) => t,
                None => return Err(BridgeError::MissingText),
            };
            push_bytes(&mut out, "\u{1F525} ".as_bytes());
            push_decimal(&mut out, signals);
            push_bytes(&mut out, " signals @ ".as_bytes());
            push_fixed(&mut out, strength, 3);
            push_bytes(&mut out, " strength | Score: ".as_bytes());
            push_fixed(&mut out, round_centi_to_deci(score_centi), 1);
            push_bytes(&mut out, " | ".as_bytes());
            push_decimal(&mut out, opportunities);
            push_bytes(&mut out, " ops | ".as_bytes());
            push_timeframe(&mut out, t);
            push_bytes(&mut out, " #QXR #Trading".as_bytes());
        },
        Platform::Summary => {
            push_bytes(&mut out, "QXR Analysis: ".as_bytes());
            push_decimal(&mut out, signals);
            push_bytes(&mut out, " signals, performance ".as_bytes());
            push_fixed(&mut out, score_centi, 2);
        },
    }
    assert(out@ =~= social_text(p, *data, score_centi as nat, quoted_timeframe(*data)));
    Ok(out)
}

} // verus!
