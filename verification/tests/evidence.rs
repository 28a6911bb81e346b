use koharu::evidence::{is_sha256, GeometryMeasurements, QuadFault};
use koharu::scene::{
    DetectorEvidence, LineDetectorEvidence, SourceGeometryEvidence, TextDirection,
    SOURCE_GEOMETRY_EVIDENCE_VERSION,
};

fn evidence(lines: usize) -> SourceGeometryEvidence {
    let quad = [[0, 0], [1, 0], [1, 1], [0, 1]];
    SourceGeometryEvidence {
        schema_version: SOURCE_GEOMETRY_EVIDENCE_VERSION.to_string(),
        block_polygon: quad,
        line_polygons: vec![quad; lines],
        source_direction: TextDirection::Horizontal,
        source_direction_source: "fixture.direction.v1".to_string(),
        source_rotation_deg: 0,
        detector_evidence: DetectorEvidence {
            detector_id: "fixture-detector".to_string(),
            detector_version: "fixture-detector.v1".to_string(),
            config_hash: format!("sha256:{}", "b".repeat(64)),
            block_polygon_confidence: None,
            line_evidence: vec![
                LineDetectorEvidence { text_confidence: None, polygon_confidence: None };
                lines
            ],
            direction_confidence: None,
            rotation_confidence: None,
        },
    }
}

fn all_good(lines: usize) -> GeometryMeasurements {
    GeometryMeasurements {
        block: None,
        lines: vec![None; lines],
        rotation_in_range: true,
        block_confidence_in_range: true,
        direction_confidence_in_range: true,
        rotation_confidence_in_range: true,
        line_confidences_in_range: vec![(true, true); lines],
    }
}

#[test]
fn sha256_references_are_lowercase_and_64_digits() {
    assert!(is_sha256(&format!("sha256:{}", "0123456789abcdef".repeat(4))));
    assert!(!is_sha256(&format!("sha256:{}", "A".repeat(64))));
    assert!(!is_sha256(&format!("sha256:{}", "a".repeat(63))));
    assert!(!is_sha256(&format!("sha256:{}", "a".repeat(65))));
    assert!(!is_sha256(&format!("sha512:{}", "a".repeat(64))));
    assert!(!is_sha256(&format!("sha256:{}g", "a".repeat(63))));
    assert!(!is_sha256(&format!("sha256:{}é", "a".repeat(63))));
    assert!(!is_sha256(""));
}

#[test]
fn valid_evidence_passes() {
    assert_eq!(evidence(2).validate(&all_good(2)), Ok(()));
}

#[test]
fn checks_run_in_order_and_name_the_first_failure() {
    let mut e = evidence(2);
    e.schema_version = "v0".to_string();
    let mut m = all_good(2);
    m.block = Some(QuadFault::ZeroArea);
    assert_eq!(e.validate(&m).unwrap_err(), "unsupported source geometry evidence version");

    let e = evidence(2);
    assert_eq!(e.validate(&m).unwrap_err(), "block polygon has zero area");

    let mut m = all_good(2);
    m.lines[1] = Some(QuadFault::SelfIntersecting);
    m.lines[0] = None;
    m.rotation_in_range = false;
    assert_eq!(e.validate(&m).unwrap_err(), "line polygon 1 is self-intersecting");

    let mut m = all_good(2);
    m.lines[0] = Some(QuadFault::OutsideCanvas);
    assert_eq!(e.validate(&m).unwrap_err(), "line polygon 0 lies outside the source canvas");

    let mut m = all_good(2);
    m.lines[0] = Some(QuadFault::NonFiniteCoordinate);
    assert_eq!(e.validate(&m).unwrap_err(), "line polygon 0 contains a non-finite coordinate");

    let mut m = all_good(2);
    m.block = Some(QuadFault::ZeroLengthEdge);
    assert_eq!(e.validate(&m).unwrap_err(), "block polygon contains a zero-length edge");
}

#[test]
fn empty_lines_and_count_mismatch_are_refused() {
    let e = evidence(0);
    assert_eq!(e.validate(&all_good(0)).unwrap_err(), "line polygons must not be empty");
    let mut e = evidence(2);
    e.detector_evidence.line_evidence.pop();
    let mut m = all_good(2);
    m.line_confidences_in_range.pop();
    assert_eq!(
        e.validate(&m).unwrap_err(),
        "line evidence count differs from line polygon count"
    );
}

#[test]
fn identities_must_not_be_blank() {
    let mut e = evidence(1);
    e.source_direction_source = " \u{3000}\t".to_string();
    assert_eq!(
        e.validate(&all_good(1)).unwrap_err(),
        "source direction source must not be empty"
    );
    let mut e = evidence(1);
    e.detector_evidence.detector_version = String::new();
    assert_eq!(
        e.validate(&all_good(1)).unwrap_err(),
        "detector id and version must not be empty"
    );
    let mut e = evidence(1);
    e.detector_evidence.config_hash = "sha256:abc".to_string();
    assert_eq!(
        e.validate(&all_good(1)).unwrap_err(),
        "detector config hash must be lowercase sha256"
    );
}

#[test]
fn rotation_and_confidences_are_range_checked() {
    let e = evidence(2);
    let mut m = all_good(2);
    m.rotation_in_range = false;
    assert_eq!(
        e.validate(&m).unwrap_err(),
        "source rotation must be finite and within [-180, 180]"
    );
    let mut m = all_good(2);
    m.block_confidence_in_range = false;
    m.direction_confidence_in_range = false;
    assert_eq!(e.validate(&m).unwrap_err(), "block polygon confidence must be within [0, 1]");
    let mut m = all_good(2);
    m.direction_confidence_in_range = false;
    assert_eq!(e.validate(&m).unwrap_err(), "direction confidence must be within [0, 1]");
    let mut m = all_good(2);
    m.rotation_confidence_in_range = false;
    assert_eq!(e.validate(&m).unwrap_err(), "rotation confidence must be within [0, 1]");
    let mut m = all_good(2);
    m.line_confidences_in_range[1] = (true, false);
    assert_eq!(e.validate(&m).unwrap_err(), "line 1 polygon confidence must be within [0, 1]");
    m.line_confidences_in_range[0] = (false, false);
    assert_eq!(e.validate(&m).unwrap_err(), "line 0 text confidence must be within [0, 1]");
}
