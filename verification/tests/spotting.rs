use sha2::Digest;
use koharu::evidence::{is_sha256, GeometryMeasurements};
use koharu::scene::TextDirection;
use koharu::spotting::{
    choose_endpoint, collect_text_pairs, detector_config_hash, text_pair, ApiResponse, ApiResult,
    DetectorConfig, ItemChecks, LayoutParsingResult, PrunedResult, SpottingRequest,
    SpottingResult, TextPose, DEFAULT_ENDPOINT, DIRECTION_SOURCE, ENGINE_ID, ENGINE_VERSION,
};

fn bits(points: &[[f32; 2]]) -> Vec<[u32; 2]> {
    points.iter().map(|p| [p[0].to_bits(), p[1].to_bits()]).collect()
}

fn response(polys: Vec<Vec<[f32; 2]>>, texts: &[&str], scores: Option<Vec<f32>>) -> ApiResponse {
    ApiResponse {
        error_code: 0,
        error_msg: "Success".to_string(),
        result: Some(ApiResult {
            layout_parsing_results: vec![LayoutParsingResult {
                pruned_result: PrunedResult {
                    spotting_res: Some(SpottingResult {
                        rec_polys: polys.iter().map(|p| bits(p)).collect(),
                        rec_texts: texts.iter().map(|t| t.to_string()).collect(),
                        rec_scores: scores.map(|s| s.iter().map(|v| v.to_bits()).collect()),
                    }),
                },
            }],
        }),
    }
}

fn good_geometry() -> GeometryMeasurements {
    GeometryMeasurements {
        block: None,
        lines: vec![None],
        rotation_in_range: true,
        block_confidence_in_range: true,
        direction_confidence_in_range: true,
        rotation_confidence_in_range: true,
        line_confidences_in_range: vec![(true, true)],
    }
}

/// Checks as the pose estimator and the float checks report them for a
/// well-formed polygon with the given pose.
fn checks(bbox: [f32; 4], direction: TextDirection, rotation: f32) -> Option<ItemChecks> {
    Some(ItemChecks {
        coordinates_finite: true,
        pose: TextPose {
            bbox: [bbox[0].to_bits(), bbox[1].to_bits(), bbox[2].to_bits(), bbox[3].to_bits()],
            direction,
            rotation_deg: rotation.to_bits(),
        },
        bbox_nonempty: true,
        confidence_in_range: true,
        geometry: good_geometry(),
    })
}

fn config_hash() -> String {
    let json = format!(
        "{{\"endpoint\":\"{DEFAULT_ENDPOINT}\",\"fileType\":1,\"useLayoutDetection\":false,\"promptLabel\":\"spotting\",\"formatBlockContent\":false,\"visualize\":false}}"
    )
    .into_bytes();
    detector_config_hash(&json)
}

#[test]
fn converts_spotting_results_to_independent_text_nodes() {
    let spotting = response(
        vec![
            vec![[10.0, 20.0], [40.0, 20.0], [40.0, 30.0], [10.0, 30.0]],
            vec![[5.0, 50.0], [15.0, 50.0], [15.0, 80.0], [5.0, 80.0]],
        ],
        &["Jun-23", "Rate"],
        None,
    )
    .into_spotting()
    .unwrap();
    let items = spotting.candidates().unwrap();
    // The floating-point pose estimator gives these poses for the two
    // axis-aligned polygons; the estimator itself is tested beside it in app/.
    let measured = vec![
        checks([10.0, 20.0, 40.0, 30.0], TextDirection::Horizontal, 0.0),
        checks([5.0, 50.0, 15.0, 80.0], TextDirection::Vertical, 0.0),
    ];
    let pairs = collect_text_pairs(&items, &measured, &config_hash()).unwrap();

    assert_eq!(pairs.len(), 2);
    let bbox: Vec<f32> = pairs[0].0.iter().map(|b| f32::from_bits(*b)).collect();
    assert_eq!(bbox, vec![10.0, 20.0, 40.0, 30.0]);
    assert_eq!(pairs[0].1.text.as_deref(), Some("Jun-23"));
    assert_eq!(pairs[0].1.source_direction, Some(TextDirection::Horizontal));
    assert_eq!(pairs[1].1.source_direction, Some(TextDirection::Vertical));
    assert_eq!(pairs[1].1.rotation_deg, Some(0.0f32.to_bits()));
    assert!(pairs.iter().all(|(_, text)| text.lock_layout_box));
    let source = pairs[0].1.source_geometry.as_ref().unwrap();
    let quad: Vec<[u32; 2]> = bits(&[[10.0, 20.0], [40.0, 20.0], [40.0, 30.0], [10.0, 30.0]]);
    assert_eq!(source.block_polygon.to_vec(), quad);
    assert_eq!(source.line_polygons, vec![source.block_polygon]);
    assert_eq!(source.source_direction_source, DIRECTION_SOURCE);
    assert_eq!(source.detector_evidence.detector_id, ENGINE_ID);
    assert_eq!(source.detector_evidence.detector_version, ENGINE_VERSION);
    assert_eq!(
        source.detector_evidence.line_evidence[0].text_confidence,
        None
    );
}

#[test]
fn rejects_mismatched_polygon_and_text_counts() {
    let spotting = response(
        vec![vec![[10.0, 20.0], [40.0, 20.0], [40.0, 30.0], [10.0, 30.0]]],
        &["one", "two"],
        None,
    )
    .into_spotting()
    .unwrap();
    let error = spotting.candidates().unwrap_err();

    assert!(error.contains("1 polygons but 2 texts"));
}

#[test]
fn rejects_non_quad_polygon() {
    let spotting = response(vec![vec![[10.0, 20.0], [40.0, 20.0], [40.0, 30.0]]], &["text"], None)
        .into_spotting()
        .unwrap();
    let items = spotting.candidates().unwrap();
    let error = collect_text_pairs(&items, &vec![None], &config_hash()).unwrap_err();

    assert!(error.contains("has 3 points; expected 4"));
}

#[test]
fn propagates_api_error() {
    let response = ApiResponse {
        error_code: 17,
        error_msg: "model unavailable".to_string(),
        result: None,
    };

    let error = response.into_spotting().unwrap_err();
    assert!(error.contains("error 17: model unavailable"));
}

#[test]
fn preserves_recognition_confidence_without_fabricating_geometry_confidence() {
    let spotting = response(
        vec![vec![[10.0, 20.0], [40.0, 20.0], [40.0, 30.0], [10.0, 30.0]]],
        &["Jun-23"],
        Some(vec![0.875]),
    )
    .into_spotting()
    .unwrap();
    let items = spotting.candidates().unwrap();
    let measured = vec![checks([10.0, 20.0, 40.0, 30.0], TextDirection::Horizontal, 0.0)];
    let pairs = collect_text_pairs(&items, &measured, &config_hash()).unwrap();
    let detector = &pairs[0].1.source_geometry.as_ref().unwrap().detector_evidence;
    assert_eq!(detector.line_evidence[0].text_confidence, Some(0.875f32.to_bits()));
    assert_eq!(detector.line_evidence[0].polygon_confidence, None);
    assert_eq!(detector.block_polygon_confidence, None);
    assert_eq!(detector.direction_confidence, None);
    assert_eq!(detector.rotation_confidence, None);
}

#[test]
fn blank_texts_are_dropped_but_keep_their_positions() {
    let spotting = response(
        vec![
            vec![[1.0, 1.0], [2.0, 1.0], [2.0, 2.0], [1.0, 2.0]],
            vec![[1.0, 1.0], [2.0, 1.0]],
            vec![[1.0, 1.0]],
        ],
        &["a", " \u{3000}", "c"],
        None,
    )
    .into_spotting()
    .unwrap();
    let items = spotting.candidates().unwrap();
    assert_eq!(items.len(), 2);
    assert_eq!(items[0].as_ref().unwrap().index, 0);
    assert_eq!(
        items[1].as_ref().unwrap_err(),
        "PaddleOCR-VL polygon 2 has 1 points; expected 4"
    );
}

#[test]
fn score_count_must_match_text_count() {
    let spotting = response(vec![vec![[1.0, 1.0]]], &["a"], Some(vec![0.5, 0.5]))
        .into_spotting()
        .unwrap();
    assert_eq!(
        spotting.candidates().unwrap_err(),
        "PaddleOCR-VL returned 2 scores but 1 texts"
    );
}

#[test]
fn missing_parts_of_a_response_are_reported() {
    let mut r = response(vec![], &[], None);
    r.result = None;
    assert_eq!(r.into_spotting().unwrap_err(), "PaddleOCR-VL response has no result");
    let mut r = response(vec![], &[], None);
    r.result.as_mut().unwrap().layout_parsing_results.clear();
    assert_eq!(r.into_spotting().unwrap_err(), "PaddleOCR-VL response has no page result");
    let mut r = response(vec![], &[], None);
    r.result.as_mut().unwrap().layout_parsing_results[0].pruned_result.spotting_res = None;
    assert_eq!(
        r.into_spotting().unwrap_err(),
        "PaddleOCR-VL response has no spotting result"
    );
    let negative = ApiResponse { error_code: -3, error_msg: "x".into(), result: None };
    assert_eq!(negative.into_spotting().unwrap_err(), "PaddleOCR-VL error -3: x");
}

#[test]
fn each_failing_check_of_a_line_has_its_message() {
    let spotting = response(
        vec![vec![[10.0, 20.0], [40.0, 20.0], [40.0, 30.0], [10.0, 30.0]]],
        &["t"],
        Some(vec![2.0]),
    )
    .into_spotting()
    .unwrap();
    let items = spotting.candidates().unwrap();
    let candidate = || match &items[0] {
        Ok(c) => koharu::spotting::Candidate {
            index: c.index,
            polygon: c.polygon,
            text: c.text.clone(),
            text_confidence: c.text_confidence,
        },
        Err(_) => unreachable!(),
    };
    let hash = config_hash();
    let mut ch = checks([10.0, 20.0, 40.0, 30.0], TextDirection::Horizontal, 0.0).unwrap();
    ch.coordinates_finite = false;
    assert_eq!(
        text_pair(candidate(), &ch, &hash).unwrap_err(),
        "PaddleOCR-VL polygon 0 contains a non-finite coordinate"
    );
    ch.coordinates_finite = true;
    ch.bbox_nonempty = false;
    assert_eq!(
        text_pair(candidate(), &ch, &hash).unwrap_err(),
        "PaddleOCR-VL polygon 0 has an empty bounding box"
    );
    ch.bbox_nonempty = true;
    ch.confidence_in_range = false;
    assert_eq!(
        text_pair(candidate(), &ch, &hash).unwrap_err(),
        "PaddleOCR-VL text confidence 0 is outside [0,1]"
    );
    ch.confidence_in_range = true;
    ch.geometry.rotation_in_range = false;
    assert_eq!(
        text_pair(candidate(), &ch, &hash).unwrap_err(),
        "PaddleOCR-VL polygon 0: source rotation must be finite and within [-180, 180]"
    );
    ch.geometry.rotation_in_range = true;
    assert!(text_pair(candidate(), &ch, "sha256:nope").unwrap_err().ends_with(
        "detector config hash must be lowercase sha256"
    ));
}

#[test]
fn detector_config_hash_is_sha256_of_the_config_json() {
    let json = b"{\"endpoint\":\"http://x\"}";
    let hash = detector_config_hash(json);
    let expected: String = sha2::Sha256::digest(json).iter().map(|b| format!("{b:02x}")).collect();
    assert_eq!(hash, format!("sha256:{expected}"));
    assert!(is_sha256(&hash));
    assert!(is_sha256(&config_hash()));
}

#[test]
fn spotting_request_asks_for_plain_spotting() {
    let request = SpottingRequest::new("AAAA");
    assert_eq!(request.file, "AAAA");
    assert_eq!(request.file_type, 1);
    assert!(!request.use_layout_detection);
    assert_eq!(request.prompt_label, "spotting");
    assert!(!request.format_block_content);
    assert!(!request.visualize);
    let config = DetectorConfig::new("http://e");
    assert_eq!(config.endpoint, "http://e");
    assert_eq!(config.prompt_label, "spotting");
}

#[test]
fn blank_endpoint_falls_back_to_the_default() {
    assert_eq!(choose_endpoint(None), DEFAULT_ENDPOINT);
    assert_eq!(choose_endpoint(Some("  ".to_string())), DEFAULT_ENDPOINT);
    assert_eq!(choose_endpoint(Some("http://h/p".to_string())), "http://h/p");
}
