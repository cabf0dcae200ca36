use qxr_bridge::boundary::{
    qxr_bridge_batch_process, qxr_bridge_generate_content, qxr_bridge_process_data,
    write_to_buffer,
};
use qxr_bridge::bridge::{
    qxr_bridge_alloc_string, qxr_bridge_create, qxr_bridge_destroy, qxr_bridge_free_string,
    qxr_bridge_version, QXRBridge,
};
use qxr_bridge::content::{generate_social_content, platform_from_name, BridgeError, Platform};
use qxr_bridge::layout::QXRResearchData;
use qxr_bridge::text::{push_fixed, round_centi_to_deci};

fn sample() -> QXRResearchData {
    QXRResearchData {
        signals: 45,
        opportunities: 8,
        signal_strength_milli: 1247,
        price_range_min_milli: 3420000,
        price_range_max_milli: 3580000,
        max_liquidity: 12500000,
        strategy: Some(b"ETH Statistical Arbitrage".to_vec()),
        timeframe: Some(b"24h".to_vec()),
    }
}

fn score(d: &QXRResearchData) -> f64 {
    let base = d.signals as f64 * (d.signal_strength_milli as f64 / 1000.0);
    let liquidity_factor = (d.max_liquidity as f64).ln() / 10.0;
    let multiplier = 1.0 + d.opportunities as f64 / 100.0;
    base * liquidity_factor * multiplier
}

fn score_centi(d: &QXRResearchData) -> u64 {
    (score(d) * 100.0).round() as u64
}

fn contains(hay: &[u8], needle: &[u8]) -> bool {
    hay.windows(needle.len()).any(|w| w == needle)
}

#[test]
fn test_bridge_creation() {
    let bridge = QXRBridge::new();
    assert!(bridge.research_data.is_none());
    assert_eq!(bridge.social_posts.len(), 0);
}

#[test]
fn test_research_data_processing() {
    let bridge = QXRBridge::new();
    let data = sample();
    let score = qxr_bridge_process_data(Some(&bridge), Some(&data), score).unwrap();
    assert!(score > 0.0);
}

#[test]
fn test_social_content_generation() {
    let data = sample();
    let s = score_centi(&data);
    let content = generate_social_content(&data, Platform::LinkedIn, s).unwrap();
    assert!(contains(&content, b"45 signals"));
    assert!(contains(&content, b"1.247"));

    let twitter_content = generate_social_content(&data, Platform::Twitter, s).unwrap();
    assert!(twitter_content.len() <= 280);
}

#[test]
fn linkedin_content_is_exact() {
    let data = sample();
    let content = generate_social_content(&data, Platform::LinkedIn, 2001).unwrap();
    let expected = "\u{1F680} QXR Research Update: 45 signals detected with 1.247 strength. \
                    Performance score: 20.01. 8 opportunities identified in 24h.";
    assert_eq!(content, expected.as_bytes());
}

#[test]
fn twitter_content_rounds_score_to_tenths() {
    let data = sample();
    let content = generate_social_content(&data, Platform::Twitter, 2005).unwrap();
    let expected = "\u{1F525} 45 signals @ 1.247 strength | Score: 20.1 | 8 ops | 24h #QXR #Trading";
    assert_eq!(content, expected.as_bytes());
}

#[test]
fn summary_content_is_exact() {
    let data = sample();
    let content = generate_social_content(&data, Platform::Summary, 7).unwrap();
    assert_eq!(content, b"QXR Analysis: 45 signals, performance 0.07".to_vec());
}

#[test]
fn invalid_utf8_timeframe_quotes_default() {
    let mut data = sample();
    data.timeframe = Some(vec![0xff, 0xfe]);
    let content = generate_social_content(&data, Platform::Twitter, 0).unwrap();
    assert!(contains(&content, b"| 24h #QXR"));
}

#[test]
fn utf8_timeframe_is_quoted_verbatim() {
    let mut data = sample();
    data.timeframe = Some("7 Tage \u{00E4}".as_bytes().to_vec());
    let content = generate_social_content(&data, Platform::LinkedIn, 0).unwrap();
    assert!(contains(&content, "identified in 7 Tage \u{00E4}.".as_bytes()));
}

#[test]
fn missing_timeframe_is_refused_where_quoted() {
    let mut data = sample();
    data.timeframe = None;
    assert_eq!(
        generate_social_content(&data, Platform::LinkedIn, 0),
        Err(BridgeError::MissingText)
    );
    assert!(generate_social_content(&data, Platform::Summary, 0).is_ok());
}

#[test]
fn platform_names_select_formats() {
    assert_eq!(platform_from_name(b"linkedin"), Platform::LinkedIn);
    assert_eq!(platform_from_name(b"twitter"), Platform::Twitter);
    assert_eq!(platform_from_name(b"mastodon"), Platform::Summary);
    assert_eq!(platform_from_name(b""), Platform::Summary);
}

#[test]
fn process_refuses_null_arguments() {
    let bridge = QXRBridge::new();
    let data = sample();
    assert_eq!(
        qxr_bridge_process_data(None, Some(&data), score),
        Err(BridgeError::NullArgument)
    );
    assert_eq!(
        qxr_bridge_process_data(Some(&bridge), None, score),
        Err(BridgeError::NullArgument)
    );
    assert_eq!(BridgeError::NullArgument.code(), -1);
}

#[test]
fn process_refuses_liquidity_of_one() {
    let bridge = QXRBridge::new();
    let mut data = sample();
    data.max_liquidity = 1;
    assert_eq!(
        qxr_bridge_process_data(Some(&bridge), Some(&data), score),
        Err(BridgeError::OutOfDomain)
    );
    data.max_liquidity = 2;
    let s = qxr_bridge_process_data(Some(&bridge), Some(&data), score).unwrap();
    assert!(s.is_finite() && s >= 0.0);
}

#[test]
fn process_refuses_negative_counts() {
    let bridge = QXRBridge::new();
    let mut data = sample();
    data.signals = -1;
    assert_eq!(
        qxr_bridge_process_data(Some(&bridge), Some(&data), score),
        Err(BridgeError::OutOfDomain)
    );
}

#[test]
fn generate_writes_content_and_terminator() {
    let bridge = QXRBridge::new();
    let data = sample();
    let mut out = vec![0xaau8; 100];
    let n = qxr_bridge_generate_content(
        Some(&bridge),
        Some(&data),
        Some(b"other".as_slice()),
        Some(&mut out),
        |_d: &QXRResearchData| 7u64,
    )
    .unwrap();
    let expected = b"QXR Analysis: 45 signals, performance 0.07";
    assert_eq!(n, expected.len());
    assert_eq!(&out[..n], expected.as_slice());
    assert_eq!(out[n], 0);
    assert!(out[n + 1..].iter().all(|b| *b == 0xaa));
    assert_eq!(out.len(), 100);
}

#[test]
fn generate_one_byte_short_leaves_buffer() {
    let bridge = QXRBridge::new();
    let data = sample();
    let needed = b"QXR Analysis: 45 signals, performance 0.07".len() + 1;
    let mut out = vec![0x55u8; needed - 1];
    let r = qxr_bridge_generate_content(
        Some(&bridge),
        Some(&data),
        Some(b"other".as_slice()),
        Some(&mut out),
        |_d: &QXRResearchData| 7u64,
    );
    assert_eq!(r, Err(BridgeError::BufferTooSmall));
    assert_eq!(r.unwrap_err().code(), -2);
    assert!(out.iter().all(|b| *b == 0x55));

    let mut exact = vec![0x55u8; needed];
    let r = qxr_bridge_generate_content(
        Some(&bridge),
        Some(&data),
        Some(b"other".as_slice()),
        Some(&mut exact),
        |_d: &QXRResearchData| 7u64,
    );
    assert_eq!(r, Ok(needed - 1));
    assert_eq!(exact[needed - 1], 0);
}

#[test]
fn generate_refuses_null_arguments() {
    let bridge = QXRBridge::new();
    let data = sample();
    let mut out = vec![0u8; 300];
    let r = qxr_bridge_generate_content(
        Some(&bridge),
        Some(&data),
        None,
        Some(&mut out),
        score_centi,
    );
    assert_eq!(r, Err(BridgeError::NullArgument));
    let r = qxr_bridge_generate_content(
        None,
        Some(&data),
        Some(b"linkedin".as_slice()),
        Some(&mut out),
        score_centi,
    );
    assert_eq!(r, Err(BridgeError::NullArgument));
    let r = qxr_bridge_generate_content(
        Some(&bridge),
        Some(&data),
        Some(b"linkedin".as_slice()),
        None,
        score_centi,
    );
    assert_eq!(r, Err(BridgeError::NullArgument));
    assert!(out.iter().all(|b| *b == 0));
}

#[test]
fn generate_example_modes() {
    let bridge = QXRBridge::new();
    let data = sample();
    let mut out = vec![0u8; 512];
    let n = qxr_bridge_generate_content(
        Some(&bridge),
        Some(&data),
        Some(b"linkedin".as_slice()),
        Some(&mut out),
        score_centi,
    )
    .unwrap();
    assert!(contains(&out[..n], b"45"));
    assert!(contains(&out[..n], b"1.247"));
    let n = qxr_bridge_generate_content(
        Some(&bridge),
        Some(&data),
        Some(b"twitter".as_slice()),
        Some(&mut out),
        score_centi,
    )
    .unwrap();
    assert!(n <= 280);
}

#[test]
fn batch_matches_individual_calls() {
    let bridge = QXRBridge::new();
    let mut bad = sample();
    bad.max_liquidity = 0;
    let mut other = sample();
    other.signals = 3;
    let records = vec![sample(), bad, other];
    let mut results: Vec<Result<f64, BridgeError>> = vec![Ok(-5.0); 4];
    let n = qxr_bridge_batch_process(Some(&bridge), Some(records.as_slice()), Some(&mut results), score)
        .unwrap();
    assert_eq!(n, 3);
    for i in 0..3 {
        assert_eq!(
            results[i],
            qxr_bridge_process_data(Some(&bridge), Some(&records[i]), score)
        );
    }
    assert_eq!(results[1], Err(BridgeError::OutOfDomain));
    assert_eq!(results[3], Ok(-5.0));
}

#[test]
fn batch_null_arguments_write_nothing() {
    let records = vec![sample()];
    let mut results: Vec<Result<f64, BridgeError>> = vec![Ok(-5.0); 1];
    let r = qxr_bridge_batch_process(None, Some(records.as_slice()), Some(&mut results), score);
    assert_eq!(r, Err(BridgeError::NullArgument));
    assert_eq!(results[0], Ok(-5.0));
}

#[test]
fn batch_of_nothing() {
    let bridge = QXRBridge::new();
    let records: Vec<QXRResearchData> = Vec::new();
    let mut results: Vec<Result<f64, BridgeError>> = Vec::new();
    let r = qxr_bridge_batch_process(Some(&bridge), Some(records.as_slice()), Some(&mut results), score);
    assert_eq!(r, Ok(0));
}

#[test]
fn write_to_buffer_exact_fit() {
    let mut out = vec![9u8; 3];
    assert_eq!(write_to_buffer(b"ab", &mut out), Ok(2));
    assert_eq!(out, vec![b'a', b'b', 0]);
    let mut empty: Vec<u8> = Vec::new();
    assert_eq!(write_to_buffer(b"", &mut empty), Err(BridgeError::BufferTooSmall));
}

#[test]
fn alloc_tracks_and_destroy_releases() {
    let mut b = qxr_bridge_create();
    let h1 = qxr_bridge_alloc_string(&mut b, 5);
    let h2 = qxr_bridge_alloc_string(&mut b, 0);
    assert!(h1 != 0 && h2 != 0 && h1 != h2);
    assert_eq!(b.string_buffer(h1).unwrap(), &vec![0u8; 6]);
    assert_eq!(b.string_buffer(h2).unwrap(), &vec![0u8; 1]);
    assert_eq!(b.outstanding_count(), 2);
    assert!(qxr_bridge_free_string(&mut b, h1));
    assert!(!qxr_bridge_free_string(&mut b, h1));
    assert!(!qxr_bridge_free_string(&mut b, 0));
    assert!(b.string_buffer(h1).is_none());
    assert_eq!(qxr_bridge_destroy(Some(b)), 1);
}

#[test]
fn create_then_destroy_releases_nothing() {
    let b = qxr_bridge_create();
    assert_eq!(b.outstanding_count(), 0);
    assert_eq!(qxr_bridge_destroy(Some(b)), 0);
    assert_eq!(qxr_bridge_destroy(None), 0);
}

#[test]
fn alloc_refuses_unrepresentable_length() {
    let mut b = QXRBridge::new();
    assert_eq!(qxr_bridge_alloc_string(&mut b, usize::MAX), 0);
    assert_eq!(b.outstanding_count(), 0);
}

#[test]
fn version_is_terminated() {
    let v = qxr_bridge_version();
    assert_eq!(v, "QXR Bridge v0.1.0\0");
}

#[test]
fn fixed_point_and_rounding() {
    let mut out = Vec::new();
    push_fixed(&mut out, 1247, 3);
    assert_eq!(out, b"1.247".to_vec());
    let mut out = Vec::new();
    push_fixed(&mut out, 5, 2);
    assert_eq!(out, b"0.05".to_vec());
    assert_eq!(round_centi_to_deci(2005), 201);
    assert_eq!(round_centi_to_deci(2004), 200);
}
