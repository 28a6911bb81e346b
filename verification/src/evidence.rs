//! Validation of recorded OCR source geometry.
//!
//! The checks that need floating-point arithmetic (coordinates against the
//! canvas, edge lengths, area, self-intersection, and the ranges of rotation
//! and confidences) are measured by the caller and handed in as
//! [`GeometryMeasurements`]; this module applies every check in order and
//! words the first failure.

use vstd::prelude::*;

use crate::digest::is_lower_hex_char;
use crate::scene::{SourceGeometryEvidence, SOURCE_GEOMETRY_EVIDENCE_VERSION};
use crate::seqs::{
    first_match, lemma_first_match_all, lemma_first_match_found, lemma_first_match_none,
    lemma_first_match_step,
};
use crate::text::{decimal, is_blank, push_decimal, str_is_blank};

verus! {

pub open spec fn sha256_prefix() -> Seq<char> {
    seq!['s', 'h', 'a', '2', '5', '6', ':']
}

/// `sha256:` followed by exactly 64 lower-case hexadecimal digits.
pub open spec fn is_sha256_text(s: Seq<char>) -> bool {
    &&& s.len() == 71
    &&& s.take(7) == sha256_prefix()
    &&& forall|i: int| 7 <= i < 71 ==> is_lower_hex_char(#[trigger] s[i])
}

/// Whether `value` is a canonical lower-case SHA-256 reference.
pub fn is_sha256(value: &str) -> (b: bool)
    ensures
        b == is_sha256_text(value@),
{
    let v = crate::text::chars_of(value);
    if v.len() != 71 {
        return false;
    }
    let prefix: Vec<char> = vec!['s', 'h', 'a', '2', '5', '6', ':'];
    assert(prefix@ == sha256_prefix());
    for j in 0..7
        invariant
            v@ == value@,
            v@.len() == 71,
            prefix@ == sha256_prefix(),
            forall|k: int| 0 <= k < j ==> v@[k] == prefix@[k],
    {
        if v[j] != prefix[j] {
            assert(v@.take(7)[j as int] != sha256_prefix()[j as int]);
            return false;
        }
    }
    assert(v@.take(7) =~= sha256_prefix());
    let mut i: usize = 7;
    while i < 71
        invariant
            7 <= i <= 71,
            v@ == value@,
            v@.len() == 71,
            forall|j: int| 7 <= j < i ==> is_lower_hex_char(#[trigger] v@[j]),
        decreases 71 - i,
    {
        let c = v[i];
        if !(('0' <= c && c <= '9') || ('a' <= c && c <= 'f')) {
            assert(!is_lower_hex_char(v@[i as int]));
            return false;
        }
        i = i + 1;
    }
    true
}

/// The first defect that the geometric checks find in a quadrilateral, in
/// the order they look for them.
#[derive(Clone, Copy, Debug, PartialEq, Eq, Structural)]
pub enum QuadFault {
    /// A coordinate is NaN or infinite.
    NonFiniteCoordinate,
    /// A point lies outside `[0, width] × [0, height]`.
    OutsideCanvas,
    /// Two consecutive corners coincide.
    ZeroLengthEdge,
    /// The signed area is (nearly) zero.
    ZeroArea,
    /// Opposite edges cross.
    SelfIntersecting,
}

/// Results of the floating-point checks on one piece of evidence against
/// its source canvas.
#[derive(Debug)]
pub struct GeometryMeasurements {
    /// The first defect of the block polygon, if any.
    pub block: Option<QuadFault>,
    /// The first defect of each line polygon, if any, in order.
    pub lines: Vec<Option<QuadFault>>,
    /// The source rotation is finite and within `[-180, 180]`.
    pub rotation_in_range: bool,
    /// The block polygon confidence is absent or finite within `[0, 1]`.
    pub block_confidence_in_range: bool,
    /// The direction confidence is absent or finite within `[0, 1]`.
    pub direction_confidence_in_range: bool,
    /// The rotation confidence is absent or finite within `[0, 1]`.
    pub rotation_confidence_in_range: bool,
    /// For each line's evidence: (text confidence, polygon confidence) each
    /// absent or finite within `[0, 1]`.
    pub line_confidences_in_range: Vec<(bool, bool)>,
}

pub open spec fn quad_fault_message(fault: QuadFault, label: Seq<char>) -> Seq<char> {
    match fault {
        QuadFault::NonFiniteCoordinate => label + " contains a non-finite coordinate"@,
        QuadFault::OutsideCanvas => label + " lies outside the source canvas"@,
        QuadFault::ZeroLengthEdge => label + " contains a zero-length edge"@,
        QuadFault::ZeroArea => label + " has zero area"@,
        QuadFault::SelfIntersecting => label + " is self-intersecting"@,
    }
}

pub open spec fn confidence_message(label: Seq<char>) -> Seq<char> {
    label + " must be within [0, 1]"@
}

pub open spec fn line_polygon_label(index: int) -> Seq<char> {
    "line polygon "@ + decimal(index as nat)
}

pub open spec fn line_confidence_label(index: int, channel: Seq<char>) -> Seq<char> {
    "line "@ + decimal(index as nat) + channel
}

pub open spec fn has_fault(f: Option<QuadFault>) -> bool {
    f is Some
}

pub open spec fn line_confidence_fails(c: (bool, bool)) -> bool {
    !c.0 || !c.1
}

/// The first failure of the checks, in the order the evidence is checked;
/// `None` when the evidence is valid.
pub open spec fn validation_failure(
    evidence: SourceGeometryEvidence,
    m: GeometryMeasurements,
) -> Option<Seq<char>> {
    let detector = evidence.detector_evidence;
    if evidence.schema_version@ != SOURCE_GEOMETRY_EVIDENCE_VERSION@ {
        Some("unsupported source geometry evidence version"@)
    } else if m.block is Some {
        Some(quad_fault_message(m.block->0, "block polygon"@))
    } else if evidence.line_polygons@.len() == 0 {
        Some("line polygons must not be empty"@)
    } else if first_match(m.lines@, |f: Option<QuadFault>| has_fault(f)) is Some {
        let i = first_match(m.lines@, |f: Option<QuadFault>| has_fault(f))->0;
        Some(quad_fault_message(m.lines@[i]->0, line_polygon_label(i)))
    } else if detector.line_evidence@.len() != evidence.line_polygons@.len() {
        Some("line evidence count differs from line polygon count"@)
    } else if is_blank(evidence.source_direction_source@) {
        Some("source direction source must not be empty"@)
    } else if !m.rotation_in_range {
        Some("source rotation must be finite and within [-180, 180]"@)
    } else if is_blank(detector.detector_id@) || is_blank(detector.detector_version@) {
        Some("detector id and version must not be empty"@)
    } else if !is_sha256_text(detector.config_hash@) {
        Some("detector config hash must be lowercase sha256"@)
    } else if !m.block_confidence_in_range {
        Some(confidence_message("block polygon confidence"@))
    } else if !m.direction_confidence_in_range {
        Some(confidence_message("direction confidence"@))
    } else if !m.rotation_confidence_in_range {
        Some(confidence_message("rotation confidence"@))
    } else if first_match(m.line_confidences_in_range@, |c: (bool, bool)| line_confidence_fails(c))
        is Some {
        let i = first_match(
            m.line_confidences_in_range@,
            |c: (bool, bool)| line_confidence_fails(c),
        )->0;
        if !m.line_confidences_in_range@[i].0 {
            Some(confidence_message(line_confidence_label(i, " text confidence"@)))
        } else {
            Some(confidence_message(line_confidence_label(i, " polygon confidence"@)))
        }
    } else {
        None
    }
}

/// Every check of recorded source geometry passes: the current schema, sound
/// polygons, one line evidence per line polygon, a named direction source, a
/// rotation in range, a non-blank detector id and version, a lower-case
/// SHA-256 config hash, and every confidence in range.
pub open spec fn passes_every_check(evidence: SourceGeometryEvidence, m: GeometryMeasurements) -> bool {
    let detector = evidence.detector_evidence;
    &&& evidence.schema_version@ == SOURCE_GEOMETRY_EVIDENCE_VERSION@
    &&& m.block is None
    &&& evidence.line_polygons@.len() > 0
    &&& forall|i: int| 0 <= i < m.lines@.len() ==> (#[trigger] m.lines@[i]) is None
    &&& detector.line_evidence@.len() == evidence.line_polygons@.len()
    &&& !is_blank(evidence.source_direction_source@)
    &&& m.rotation_in_range
    &&& !is_blank(detector.detector_id@)
    &&& !is_blank(detector.detector_version@)
    &&& is_sha256_text(detector.config_hash@)
    &&& m.block_confidence_in_range
    &&& m.direction_confidence_in_range
    &&& m.rotation_confidence_in_range
    &&& forall|i: int|
        0 <= i < m.line_confidences_in_range@.len() ==> (#[trigger] m.line_confidences_in_range@[i]).0
            && m.line_confidences_in_range@[i].1
}

/// Evidence is accepted exactly when it passes every check; in particular
/// evidence with a blank detector id or a blank detector version, or with a
/// schema other than the current one, is refused.
pub proof fn lemma_accepted_evidence_passes_every_check(
    evidence: SourceGeometryEvidence,
    m: GeometryMeasurements,
)
    ensures
        validation_failure(evidence, m) is None <==> passes_every_check(evidence, m),
        is_blank(evidence.detector_evidence.detector_id@) ==> validation_failure(evidence, m) is Some,
        is_blank(evidence.detector_evidence.detector_version@) ==> validation_failure(
            evidence,
            m,
        ) is Some,
        evidence.schema_version@ != SOURCE_GEOMETRY_EVIDENCE_VERSION@ ==> validation_failure(
            evidence,
            m,
        ) is Some,
{
    lemma_first_match_none(m.lines@, |f: Option<QuadFault>| has_fault(f));
    lemma_first_match_none(m.line_confidences_in_range@, |c: (bool, bool)| line_confidence_fails(c));
}

/// Whether the measurements were taken of this evidence: one result per
/// line polygon and one pair per line's evidence.
pub open spec fn measures(m: GeometryMeasurements, evidence: SourceGeometryEvidence) -> bool {
    &&& m.lines@.len() == evidence.line_polygons@.len()
    &&& m.line_confidences_in_range@.len() == evidence.detector_evidence.line_evidence@.len()
}

fn quad_fault_text(fault: QuadFault, label: String) -> (message: String)
    ensures
        message@ == quad_fault_message(fault, label@),
{
    let mut message = label;
    match fault {
        QuadFault::NonFiniteCoordinate => message.append(" contains a non-finite coordinate"),
        QuadFault::OutsideCanvas => message.append(" lies outside the source canvas"),
        QuadFault::ZeroLengthEdge => message.append(" contains a zero-length edge"),
        QuadFault::ZeroArea => message.append(" has zero area"),
        QuadFault::SelfIntersecting => message.append(" is self-intersecting"),
    }
    message
}

fn confidence_text(label: String) -> (message: String)
    ensures
        message@ == confidence_message(label@),
{
    let mut message = label;
    message.append(" must be within [0, 1]");
    message
}

fn line_label(prefix: &str, index: usize, channel: &str) -> (label: String)
    ensures
        label@ == prefix@ + decimal(index as nat) + channel@,
{
    let mut label = String::from_str(prefix);
    push_decimal(&mut label, index as u64);
    label.append(channel);
    label
}

impl SourceGeometryEvidence {
    /// Validates the evidence against its source-image canvas, given the
    /// floating-point measurements of its geometry: `Ok(())` when every
    /// check passes, else the message of the first failing check.  Detector
    /// points are neither reordered nor normalised.
    #[verifier::loop_isolation(false)]
    pub fn validate(&self, measurements: &GeometryMeasurements) -> (r: Result<(), String>)
        requires
            measures(*measurements, *self),
        ensures
            match validation_failure(*self, *measurements) {
                None => r is Ok,
                Some(message) => r matches Err(m) && m@ == message,
            },
            r is Ok <==> passes_every_check(*self, *measurements),
    {
        proof {
            lemma_accepted_evidence_passes_every_check(*self, *measurements);
        }
        let m = measurements;
        let expected = String::from_str(SOURCE_GEOMETRY_EVIDENCE_VERSION);
        if !(self.schema_version == expected) {
            return Err(String::from_str("unsupported source geometry evidence version"));
        }
        match m.block {
            Some(fault) => {
                return Err(quad_fault_text(fault, String::from_str("block polygon")));
            },
            None => {},
        }
        if self.line_polygons.len() == 0 {
            return Err(String::from_str("line polygons must not be empty"));
        }
        let ghost has = |f: Option<QuadFault>| has_fault(f);
        for i in 0..m.lines.len()
            invariant
                first_match(m.lines@.take(i as int), has) is None,
        {
            match m.lines[i] {
                Some(fault) => {
                    proof {
                        lemma_first_match_found(m.lines@, has, i as int);
                        reveal_strlit("");
                    }
                    return Err(quad_fault_text(fault, line_label("line polygon ", i, "")));
                },
                None => {
                    proof {
                        lemma_first_match_step(m.lines@, has, i as int);
                    }
                },
            }
        }
        proof {
            lemma_first_match_all(m.lines@, has);
        }
        let detector = &self.detector_evidence;
        if detector.line_evidence.len() != self.line_polygons.len() {
            return Err(String::from_str("line evidence count differs from line polygon count"));
        }
        if str_is_blank(self.source_direction_source.as_str()) {
            return Err(String::from_str("source direction source must not be empty"));
        }
        if !m.rotation_in_range {
            return Err(String::from_str("source rotation must be finite and within [-180, 180]"));
        }
        if str_is_blank(detector.detector_id.as_str()) || str_is_blank(
            detector.detector_version.as_str(),
        ) {
            return Err(String::from_str("detector id and version must not be empty"));
        }
        if !is_sha256(detector.config_hash.as_str()) {
            return Err(String::from_str("detector config hash must be lowercase sha256"));
        }
        if !m.block_confidence_in_range {
            return Err(confidence_text(String::from_str("block polygon confidence")));
        }
        if !m.direction_confidence_in_range {
            return Err(confidence_text(String::from_str("direction confidence")));
        }
        if !m.rotation_confidence_in_range {
            return Err(confidence_text(String::from_str("rotation confidence")));
        }
        let ghost fails = |c: (bool, bool)| line_confidence_fails(c);
        for i in 0..m.line_confidences_in_range.len()
            invariant
                first_match(m.line_confidences_in_range@.take(i as int), fails) is None,
        {
            let (text_ok, polygon_ok) = m.line_confidences_in_range[i];
            if !text_ok || !polygon_ok {
                proof {
                    lemma_first_match_found(m.line_confidences_in_range@, fails, i as int);
                }
                if !text_ok {
                    return Err(confidence_text(line_label("line ", i, " text confidence")));
                } else {
                    return Err(confidence_text(line_label("line ", i, " polygon confidence")));
                }
            }
            proof {
                lemma_first_match_step(m.line_confidences_in_range@, fails, i as int);
            }
        }
        proof {
            lemma_first_match_all(m.line_confidences_in_range@, fails);
        }
        Ok(())
    }
}

} // verus!
