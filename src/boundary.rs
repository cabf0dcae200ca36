use vstd::prelude::*;

use crate::bridge::QXRBridge;
use crate::content::{content_of, generate_social_content, platform_from_name, platform_of, BridgeError};
use crate::layout::{scorable, QXRResearchData};

verus! {

/// What scoring one record yields: the scorer's value for a record in the
/// scoring domain, else the out-of-domain error.
pub open spec fn scored<S, F: Fn(&QXRResearchData) -> S>(
    score: F,
    d: QXRResearchData,
    r: Result<S, BridgeError>,
) -> bool {
    if scorable(d) {
        match r {
            Ok(s) => score.ensures((&d,), s),
            Err(_) => false,
        }
    } else {
        r == Err::<S, BridgeError>(BridgeError::OutOfDomain)
    }
}

/// The scorer accepts every record of the scoring domain.
pub open spec fn scores_domain<S, F: Fn(&QXRResearchData) -> S>(score: F) -> bool {
    forall|d: QXRResearchData| scorable(d) ==> #[trigger] score.requires((&d,))
}

/// The buffer after a successful write of `content`: the content, its
/// terminator, and the untouched rest.
pub open spec fn written(pre: Seq<u8>, content: Seq<u8>) -> Seq<u8> {
    content + seq![0u8] + pre.subrange(content.len() + 1int, pre.len() as int)
}

/// Scores one record through `score`. Null arguments are refused before
/// anything is read, and a record outside the scoring domain is refused
/// before the scorer runs.
pub fn qxr_bridge_process_data<S, F: Fn(&QXRResearchData) -> S>(
    bridge: Option<&QXRBridge>,
    data: Option<&QXRResearchData>,
    score: F,
) -> (r: Result<S, BridgeError>)
    requires
        scores_domain(score),
    ensures
        (bridge is None || data is None) ==> r == Err::<S, BridgeError>(BridgeError::NullArgument),
        bridge is Some ==> match data {
            Some(d) => scored(score, *d, r),
            None => true,
        },
{
    if bridge.is_none() {
        return Err(BridgeError::NullArgument);
    }
    match data {
        None => Err(BridgeError::NullArgument),
        Some(d) => {
            if d.is_scorable() {
                Ok(score(d))
            } else {
                Err(BridgeError::OutOfDomain)
            }
        },
    }
}

/// Copies `content` and a terminator into the front of `out`, whose length is
/// the caller's capacity. When they do not fit, nothing is written.
pub fn write_to_buffer(content: &[u8], out: &mut Vec<u8>) -> (r: Result<usize, BridgeError>)
    ensures
        content@.len() + 1 <= old(out)@.len() ==> r == Ok::<usize, BridgeError>(content@.len() as usize)
            && final(out)@ == written(old(out)@, content@),
        content@.len() + 1 > old(out)@.len() ==> r == Err::<usize, BridgeError>(BridgeError::BufferTooSmall)
            && final(out)@ == old(out)@,
{
    if content.len() >= out.len() {
        return Err(BridgeError::BufferTooSmall);
    }
    let ghost pre = out@;
    let mut i: usize = 0;
    while i < content.len()
        invariant
            content@.len() < pre.len(),
            i <= content@.len(),
            out@.len() == pre.len(),
            forall|j: int| 0 <= j < i ==> out@[j] == content@[j],
            forall|j: int| i <= j < pre.len() ==> out@[j] == pre[j],
        decreases content@.len() - i,
    {
        out.set(i, content[i]);
        i = i + 1;
    }
    out.set(i, 0u8);
    assert(out@ =~= written(pre, content@));
    Ok(i)
}

/// Formats content for a record in the mode named `platform` and writes it,
/// terminated, into `output`, whose length is the caller's capacity; the
/// scorer gives the record's score in hundredths. Returns the number of
/// content bytes written. The whole content is formatted before the capacity
/// is checked, and on any error `output` is left as it was.
pub fn qxr_bridge_generate_content<F: Fn(&QXRResearchData) -> u64>(
    bridge: Option<&QXRBridge>,
    data: Option<&QXRResearchData>,
    platform: Option<&[u8]>,
    output: Option<&mut Vec<u8>>,
    score_centi: F,
) -> (r: Result<usize, BridgeError>)
    requires
        scores_domain(score_centi),
    ensures
        (bridge is None || data is None || platform is None || output is None) ==> r
            == Err::<usize, BridgeError>(BridgeError::NullArgument),
        match output {
            Some(o) => r is Err ==> final(o)@ == (*o)@,
            None => true,
        },
        match (bridge, data, platform, output) {
            (Some(_), Some(d), Some(name), Some(o)) => {
                let p = platform_of(name@);
                &&& !scorable(*d) ==> r == Err::<usize, BridgeError>(BridgeError::OutOfDomain)
                &&& scorable(*d) ==> exists|s: u64|
                    #![trigger score_centi.ensures((d,), s)]
                    score_centi.ensures((d,), s) && match content_of(p, *d, s as nat) {
                        Err(e) => r == Err::<usize, BridgeError>(e),
                        Ok(t) => if t.len() + 1 <= (*o)@.len() {
                            r == Ok::<usize, BridgeError>(t.len() as usize) && final(o)@ == written(
                                (*o)@,
                                t,
                            )
                        } else {
                            r == Err::<usize, BridgeError>(BridgeError::BufferTooSmall)
                        },
                    }
            },
            _ => true,
        },
{
    let (d, name, o) = match (bridge, data, platform, output) {
        (Some(_), Some(d), Some(name), Some(o)) => (d, name, o),
        _ => return Err(BridgeError::NullArgument),
    };
    if !d.is_scorable() {
        return Err(BridgeError::OutOfDomain);
    }
    let p = platform_from_name(name);
    let s = score_centi(d);
    match generate_social_content(d, p, s) {
        Err(e) => Err(e),
        Ok(content) => write_to_buffer(content.as_slice(), o),
    }
}

/// Scores each record of `data` in index order into `results`, which must
/// hold at least as many entries; each entry is what
/// `qxr_bridge_process_data` yields for that record. A null argument fails
/// the whole batch and leaves `results` as it was. Returns the number of
/// records processed.
pub fn qxr_bridge_batch_process<S, F: Fn(&QXRResearchData) -> S>(
    bridge: Option<&QXRBridge>,
    data: Option<&[QXRResearchData]>,
    results: Option<&mut Vec<Result<S, BridgeError>>>,
    score: F,
) -> (r: Result<usize, BridgeError>)
    requires
        scores_domain(score),
        match (data, results) {
            (Some(d), Some(o)) => d@.len() <= (*o)@.len(),
            _ => true,
        },
    ensures
        (bridge is None || data is None || results is None) ==> r == Err::<usize, BridgeError>(
            BridgeError::NullArgument,
        ),
        match (bridge, data, results) {
            (Some(_), Some(d), Some(o)) => {
                &&& r == Ok::<usize, BridgeError>(d@.len() as usize)
                &&& final(o)@.len() == (*o)@.len()
                &&& forall|i: int| 0 <= i < d@.len() ==> scored(score, d@[i], #[trigger] final(o)@[i])
                &&& forall|i: int| d@.len() <= i < (*o)@.len() ==> #[trigger] final(o)@[i] == (*o)@[i]
            },
            (_, _, Some(o)) => final(o)@ == (*o)@,
            _ => true,
        },
{
    let (d, o) = match (bridge, data, results) {
        (Some(_), Some(d), Some(o)) => (d, o),
        _ => return Err(BridgeError::NullArgument),
    };
    let ghost pre = o@;
    let mut i: usize = 0;
    while i < d.len()
        invariant
            i <= d@.len(),
            d@.len() <= pre.len(),
            o@.len() == pre.len(),
            scores_domain(score),
            forall|j: int| 0 <= j < i ==> scored(score, d@[j], #[trigger] o@[j]),
            forall|j: int| i <= j < pre.len() ==> #[trigger] o@[j] == pre[j],
        decreases d@.len() - i,
    {
        let rec = &d[i];
        let one = if rec.is_scorable() {
            Ok(score(rec))
        } else {
            Err(BridgeError::OutOfDomain)
        };
        o.set(i, one);
        i = i + 1;
    }
    Ok(d.len())
}

/// A record with non-negative counts and strength and a liquidity above one
/// is scored: processing it yields the scorer's value, never the sentinel.
pub proof fn lemma_domain_record_is_scored<S, F: Fn(&QXRResearchData) -> S>(
    score: F,
    d: QXRResearchData,
    r: Result<S, BridgeError>,
)
    requires
        d.signals >= 0,
        d.opportunities >= 0,
        d.signal_strength_milli >= 0,
        d.max_liquidity > 1,
        scored(score, d, r),
    ensures
        r matches Ok(s) && score.ensures((&d,), s),
{
}

/// A scorer that gives one value per record.
pub open spec fn deterministic<S, F: Fn(&QXRResearchData) -> S>(score: F) -> bool {
    forall|d: QXRResearchData, a: S, b: S|
        #![trigger score.ensures((&d,), a), score.ensures((&d,), b)]
        score.ensures((&d,), a) && score.ensures((&d,), b) ==> a == b
}

/// With a scorer that gives one value per record, each entry that
/// `qxr_bridge_batch_process` writes equals what `qxr_bridge_process_data`
/// returns for the same record.
pub proof fn lemma_batch_entry_matches_process<S, F: Fn(&QXRResearchData) -> S>(
    score: F,
    d: QXRResearchData,
    batch_entry: Result<S, BridgeError>,
    single: Result<S, BridgeError>,
)
    requires
        deterministic(score),
        scored(score, d, batch_entry),
        scored(score, d, single),
    ensures
        batch_entry == single,
{
    if scorable(d) {
        let a = batch_entry.unwrap();
        let b = single.unwrap();
        assert(score.ensures((&d,), a) && score.ensures((&d,), b));
    }
}

/// A successful write keeps the buffer's capacity, holds exactly the content
/// in its first `content.len()` bytes, and the terminator right after them.
pub proof fn lemma_written_round_trip(pre: Seq<u8>, content: Seq<u8>)
    requires
        content.len() + 1 <= pre.len(),
    ensures
        written(pre, content).len() == pre.len(),
        written(pre, content).subrange(0, content.len() as int) == content,
        written(pre, content)[content.len() as int] == 0u8,
{
    assert(written(pre, content).subrange(0, content.len() as int) =~= content);
}

} // verus!
