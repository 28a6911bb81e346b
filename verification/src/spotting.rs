//! PaddleOCR-VL spotting through a PaddleX serving endpoint: the request, the
//! detector configuration fingerprint, and the conversion of a spotting
//! response into independent text nodes with recorded source geometry.
//!
//! Pose estimation and the floating-point checks of each polygon are done by
//! the caller and handed in ([`ItemChecks`]); everything else is decided here.

use vstd::prelude::*;

use crate::digest::{is_lower_hex_char, lemma_lower_hex_shape, lower_hex, push_lower_hex, sha256_digest, sha256_of};
use crate::evidence::{is_sha256_text, measures, sha256_prefix, validation_failure, GeometryMeasurements};
use crate::scene::{
    DetectorEvidence, LineDetectorEvidence, Quad, SourceGeometryEvidence, TextData, TextDirection,
    SOURCE_GEOMETRY_EVIDENCE_VERSION,
};
use crate::text::{decimal, is_blank, push_decimal, push_signed_decimal, signed_decimal, str_is_blank};

verus! {

pub const ENGINE_ID: &'static str = "paddleocr-vl-spotting-api";
pub const ENGINE_VERSION: &'static str = "paddleocr-vl-spotting-api.v1";
pub const DIRECTION_SOURCE: &'static str = "koharu.polygon-long-axis.v1";
pub const ENDPOINT_ENV: &'static str = "PADDLEOCR_VL_API_URL";
pub const DEFAULT_ENDPOINT: &'static str = "http://127.0.0.1:8080/layout-parsing";
pub const PROMPT_LABEL: &'static str = "spotting";

/// Body of a spotting request for one base64-encoded PNG.
#[derive(Debug)]
pub struct SpottingRequest<'a> {
    pub file: &'a str,
    pub file_type: u8,
    pub use_layout_detection: bool,
    pub prompt_label: &'static str,
    pub format_block_content: bool,
    pub visualize: bool,
}

impl<'a> SpottingRequest<'a> {
    /// Spotting of one image file, without layout detection, block
    /// formatting or visualisation.
    pub fn new(file: &'a str) -> (r: SpottingRequest<'a>)
        ensures
            r.file == file,
            r.file_type == 1,
            !r.use_layout_detection,
            r.prompt_label@ == PROMPT_LABEL@,
            !r.format_block_content,
            !r.visualize,
    {
        SpottingRequest {
            file,
            file_type: 1,
            use_layout_detection: false,
            prompt_label: PROMPT_LABEL,
            format_block_content: false,
            visualize: false,
        }
    }
}

/// The detector configuration that the fingerprint covers: the endpoint and
/// the request options, but not the image.
#[derive(Debug)]
pub struct DetectorConfig<'a> {
    pub endpoint: &'a str,
    pub file_type: u8,
    pub use_layout_detection: bool,
    pub prompt_label: &'static str,
    pub format_block_content: bool,
    pub visualize: bool,
}

impl<'a> DetectorConfig<'a> {
    pub fn new(endpoint: &'a str) -> (c: DetectorConfig<'a>)
        ensures
            c.endpoint == endpoint,
            c.file_type == 1,
            !c.use_layout_detection,
            c.prompt_label@ == PROMPT_LABEL@,
            !c.format_block_content,
            !c.visualize,
    {
        DetectorConfig {
            endpoint,
            file_type: 1,
            use_layout_detection: false,
            prompt_label: PROMPT_LABEL,
            format_block_content: false,
            visualize: false,
        }
    }
}

/// `sha256:` and the lower-case hexadecimal SHA-256 of the configuration's
/// canonical JSON.
pub open spec fn config_hash_text(config_json: Seq<u8>) -> Seq<char> {
    sha256_prefix() + lower_hex(sha256_of(config_json))
}

/// Fingerprint of a detector configuration, given its JSON serialisation.
/// It is always a canonical lower-case SHA-256 reference.
pub fn detector_config_hash(config_json: &[u8]) -> (h: String)
    ensures
        h@ == config_hash_text(config_json@),
        is_sha256_text(h@),
{
    let digest = sha256_digest(config_json);
    let mut h = String::new();
    crate::text::push_char(&mut h, 's');
    crate::text::push_char(&mut h, 'h');
    crate::text::push_char(&mut h, 'a');
    crate::text::push_char(&mut h, '2');
    crate::text::push_char(&mut h, '5');
    crate::text::push_char(&mut h, '6');
    crate::text::push_char(&mut h, ':');
    assert(h@ =~= sha256_prefix());
    push_lower_hex(&mut h, &digest);
    proof {
        lemma_lower_hex_shape(digest@);
        assert(h@.take(7) =~= sha256_prefix());
        assert forall|i: int| 7 <= i < 71 implies is_lower_hex_char(#[trigger] h@[i]) by {
            assert(h@[i] == lower_hex(digest@)[i - 7]);
        }
    }
    h
}

/// The endpoint to call: the configured one when it is set and not blank,
/// otherwise the local default.
pub fn choose_endpoint(configured: Option<String>) -> (endpoint: String)
    ensures
        match configured {
            Some(value) => !is_blank(value@) ==> endpoint@ == value@,
            None => true,
        },
        (configured is None || is_blank(configured->0@)) ==> endpoint@ == DEFAULT_ENDPOINT@,
{
    match configured {
        Some(value) => {
            if str_is_blank(value.as_str()) {
                String::from_str(DEFAULT_ENDPOINT)
            } else {
                value
            }
        },
        None => String::from_str(DEFAULT_ENDPOINT),
    }
}

// ---------------------------------------------------------------------------
// Response
// ---------------------------------------------------------------------------

/// Spotted lines: one polygon (points as `f32` bit patterns), one text and
/// optionally one recognition score per line.
#[derive(Debug)]
pub struct SpottingResult {
    pub rec_polys: Vec<Vec<[u32; 2]>>,
    pub rec_texts: Vec<String>,
    pub rec_scores: Option<Vec<u32>>,
}

#[derive(Debug)]
pub struct PrunedResult {
    pub spotting_res: Option<SpottingResult>,
}

#[derive(Debug)]
pub struct LayoutParsingResult {
    pub pruned_result: PrunedResult,
}

#[derive(Debug)]
pub struct ApiResult {
    pub layout_parsing_results: Vec<LayoutParsingResult>,
}

#[derive(Debug)]
pub struct ApiResponse {
    pub error_code: i64,
    pub error_msg: String,
    pub result: Option<ApiResult>,
}

pub open spec fn api_error_message(code: i64, message: Seq<char>) -> Seq<char> {
    "PaddleOCR-VL error "@ + signed_decimal(code as int) + ": "@ + message
}

/// Where a response fails before its spotting result is reached.
pub open spec fn response_failure(response: ApiResponse) -> Option<Seq<char>> {
    if response.error_code != 0 {
        Some(api_error_message(response.error_code, response.error_msg@))
    } else if response.result is None {
        Some("PaddleOCR-VL response has no result"@)
    } else if response.result->0.layout_parsing_results@.len() == 0 {
        Some("PaddleOCR-VL response has no page result"@)
    } else if response.result->0.layout_parsing_results@[0].pruned_result.spotting_res is None {
        Some("PaddleOCR-VL response has no spotting result"@)
    } else {
        None
    }
}

impl ApiResponse {
    /// The spotting result of the first page, or why there is none.
    pub fn into_spotting(self) -> (r: Result<SpottingResult, String>)
        ensures
            match response_failure(self) {
                Some(message) => r matches Err(m) && m@ == message,
                None => r matches Ok(s) && s
                    == self.result->0.layout_parsing_results@[0].pruned_result.spotting_res->0,
            },
    {
        if self.error_code != 0 {
            let mut message = String::from_str("PaddleOCR-VL error ");
            push_signed_decimal(&mut message, self.error_code);
            message.append(": ");
            message.append(self.error_msg.as_str());
            return Err(message);
        }
        let result = match self.result {
            Some(result) => result,
            None => {
                return Err(String::from_str("PaddleOCR-VL response has no result"));
            },
        };
        let mut pages = result.layout_parsing_results;
        if pages.len() == 0 {
            return Err(String::from_str("PaddleOCR-VL response has no page result"));
        }
        let page = pages.remove(0);
        match page.pruned_result.spotting_res {
            Some(spotting) => Ok(spotting),
            None => Err(String::from_str("PaddleOCR-VL response has no spotting result")),
        }
    }
}

/// One non-blank spotted line, with its position in the response.
#[derive(Debug)]
pub struct Candidate {
    pub index: usize,
    pub polygon: Quad,
    pub text: String,
    pub text_confidence: Option<u32>,
}

/// Positions of the lines whose text is not blank, in order.
pub open spec fn kept_indices(texts: Seq<String>) -> Seq<int>
    decreases texts.len(),
{
    if texts.len() == 0 {
        Seq::empty()
    } else if is_blank(texts.last()@) {
        kept_indices(texts.drop_last())
    } else {
        kept_indices(texts.drop_last()).push(texts.len() - 1)
    }
}

pub open spec fn count_mismatch_message(what: Seq<char>, count: nat, texts: nat) -> Seq<char> {
    "PaddleOCR-VL returned "@ + decimal(count) + what + decimal(texts) + " texts"@
}

pub open spec fn arity_message(index: int, points: nat) -> Seq<char> {
    "PaddleOCR-VL polygon "@ + decimal(index as nat) + " has "@ + decimal(points)
        + " points; expected 4"@
}

/// Why the spotted lines cannot be paired up at all, if they cannot.
pub open spec fn pairing_failure(s: SpottingResult) -> Option<Seq<char>> {
    if s.rec_polys@.len() != s.rec_texts@.len() {
        Some(
            count_mismatch_message(
                " polygons but "@,
                s.rec_polys@.len(),
                s.rec_texts@.len(),
            ),
        )
    } else if s.rec_scores is Some && s.rec_scores->0@.len() != s.rec_texts@.len() {
        Some(count_mismatch_message(" scores but "@, s.rec_scores->0@.len(), s.rec_texts@.len()))
    } else {
        None
    }
}

/// The candidate for the line at position `i`, or why its polygon is not a
/// quadrilateral.
pub open spec fn candidate_matches(s: SpottingResult, i: int, item: Result<Candidate, String>) -> bool {
    let points = s.rec_polys@[i]@;
    if points.len() != 4 {
        item matches Err(m) && m@ == arity_message(i, points.len())
    } else {
        item matches Ok(c) && {
            &&& c.index == i
            &&& c.polygon@ == points
            &&& c.text@ == s.rec_texts@[i]@
            &&& c.text_confidence == match s.rec_scores {
                Some(scores) => Some(scores@[i]),
                None => None,
            }
        }
    }
}

/// The kept lines are exactly the lines with non-blank text, in response
/// order: every kept position holds non-blank text, positions increase, and
/// every non-blank line is kept.
pub proof fn lemma_kept_lines_are_the_non_blank_ones(texts: Seq<String>)
    ensures
        forall|k: int|
            0 <= k < kept_indices(texts).len() ==> 0 <= #[trigger] kept_indices(texts)[k]
                < texts.len() && !is_blank(texts[kept_indices(texts)[k]]@),
        forall|k1: int, k2: int|
            0 <= k1 < k2 < kept_indices(texts).len() ==> #[trigger] kept_indices(texts)[k1]
                < #[trigger] kept_indices(texts)[k2],
        forall|i: int|
            0 <= i < texts.len() && !is_blank(#[trigger] texts[i]@) ==> exists|k: int|
                0 <= k < kept_indices(texts).len() && kept_indices(texts)[k] == i,
    decreases texts.len(),
{
    if texts.len() > 0 {
        let rest = texts.drop_last();
        lemma_kept_lines_are_the_non_blank_ones(rest);
        let kr = kept_indices(rest);
        let kt = kept_indices(texts);
        assert forall|k: int| 0 <= k < kr.len() implies texts[#[trigger] kr[k]] == rest[kr[k]] by {}
        if is_blank(texts.last()@) {
            assert(kt == kr);
            assert forall|i: int|
                0 <= i < texts.len() && !is_blank(#[trigger] texts[i]@) implies exists|k: int|
                0 <= k < kt.len() && kt[k] == i by {
                assert(i < rest.len());
                assert(rest[i] == texts[i]);
            }
        } else {
            assert(kt == kr.push(texts.len() - 1));
            assert forall|k: int| 0 <= k < kt.len() implies 0 <= #[trigger] kt[k] < texts.len()
                && !is_blank(texts[kt[k]]@) by {
                if k < kr.len() {
                    assert(kt[k] == kr[k]);
                }
            }
            assert forall|k1: int, k2: int| 0 <= k1 < k2 < kt.len() implies #[trigger] kt[k1]
                < #[trigger] kt[k2] by {
                assert(kt[k1] == kr[k1]);
                if k2 < kr.len() {
                    assert(kt[k2] == kr[k2]);
                }
            }
            assert forall|i: int|
                0 <= i < texts.len() && !is_blank(#[trigger] texts[i]@) implies exists|k: int|
                0 <= k < kt.len() && kt[k] == i by {
                if i < rest.len() {
                    assert(rest[i] == texts[i]);
                    let k = choose|k: int| 0 <= k < kr.len() && kr[k] == i;
                    assert(kt[k] == kr[k]);
                } else {
                    assert(kt[kr.len() as int] == i);
                }
            }
        }
    }
}

/// A candidate is made from one line of the response: its polygon, its text
/// and its score all come from the position it records, and it has no score
/// when the response has none.
pub proof fn lemma_candidate_is_its_own_line(s: SpottingResult, i: int, item: Result<Candidate, String>)
    requires
        0 <= i < s.rec_texts@.len(),
        candidate_matches(s, i, item),
    ensures
        item is Ok ==> {
            let c = item->Ok_0;
            &&& c.index == i
            &&& c.polygon@ == s.rec_polys@[i]@
            &&& c.text@ == s.rec_texts@[i]@
            &&& match s.rec_scores {
                Some(scores) => c.text_confidence == Some(scores@[i]),
                None => c.text_confidence is None,
            }
        },
{
}

fn quad_of(points: &Vec<[u32; 2]>) -> (q: Quad)
    requires
        points@.len() == 4,
    ensures
        q@ == points@,
{
    let q = [points[0], points[1], points[2], points[3]];
    assert(q@ =~= points@);
    q
}

impl SpottingResult {
    /// Pairs each polygon with its text and score, drops lines with blank
    /// text, and checks that every kept polygon has four points.  Each kept
    /// line is answered on its own, in order.
    pub fn candidates(&self) -> (r: Result<Vec<Result<Candidate, String>>, String>)
        ensures
            match pairing_failure(*self) {
                Some(message) => r matches Err(m) && m@ == message,
                None => r matches Ok(items) && {
                    &&& items@.len() == kept_indices(self.rec_texts@).len()
                    &&& forall|k: int|
                        0 <= k < items@.len() ==> candidate_matches(
                            *self,
                            kept_indices(self.rec_texts@)[k],
                            #[trigger] items@[k],
                        )
                },
            },
            r matches Ok(items) ==> forall|k: int|
                0 <= k < items@.len() && (#[trigger] items@[k]) is Ok ==> {
                    let c = items@[k]->Ok_0;
                    &&& c.index == kept_indices(self.rec_texts@)[k]
                    &&& 0 <= c.index < self.rec_texts@.len()
                    &&& !is_blank(self.rec_texts@[c.index as int]@)
                    &&& c.polygon@ == self.rec_polys@[c.index as int]@
                    &&& c.text@ == self.rec_texts@[c.index as int]@
                    &&& match self.rec_scores {
                        Some(scores) => c.text_confidence == Some(scores@[c.index as int]),
                        None => c.text_confidence is None,
                    }
                },
    {
        proof {
            lemma_kept_lines_are_the_non_blank_ones(self.rec_texts@);
        }
        let n = self.rec_texts.len();
        if self.rec_polys.len() != n {
            let mut message = String::from_str("PaddleOCR-VL returned ");
            push_decimal(&mut message, self.rec_polys.len() as u64);
            message.append(" polygons but ");
            push_decimal(&mut message, n as u64);
            message.append(" texts");
            return Err(message);
        }
        match &self.rec_scores {
            Some(scores) => {
                if scores.len() != n {
                    let mut message = String::from_str("PaddleOCR-VL returned ");
                    push_decimal(&mut message, scores.len() as u64);
                    message.append(" scores but ");
                    push_decimal(&mut message, n as u64);
                    message.append(" texts");
                    return Err(message);
                }
            },
            None => {},
        }
        let mut items: Vec<Result<Candidate, String>> = Vec::new();
        for i in 0..n
            invariant
                n == self.rec_texts@.len(),
                n == self.rec_polys@.len(),
                pairing_failure(*self) is None,
                items@.len() == kept_indices(self.rec_texts@.take(i as int)).len(),
                forall|k: int|
                    0 <= k < items@.len() ==> candidate_matches(
                        *self,
                        kept_indices(self.rec_texts@.take(i as int))[k],
                        #[trigger] items@[k],
                    ),
        {
            assert(self.rec_texts@.take(i + 1).drop_last() == self.rec_texts@.take(i as int));
            if !str_is_blank(self.rec_texts[i].as_str()) {
                let points = &self.rec_polys[i];
                let item = if points.len() != 4 {
                    let mut message = String::from_str("PaddleOCR-VL polygon ");
                    push_decimal(&mut message, i as u64);
                    message.append(" has ");
                    push_decimal(&mut message, points.len() as u64);
                    message.append(" points; expected 4");
                    Err(message)
                } else {
                    let text_confidence = match &self.rec_scores {
                        Some(scores) => Some(scores[i]),
                        None => None,
                    };
                    Ok(
                        Candidate {
                            index: i,
                            polygon: quad_of(points),
                            text: self.rec_texts[i].clone(),
                            text_confidence,
                        },
                    )
                };
                items.push(item);
            }
        }
        assert(self.rec_texts@.take(n as int) == self.rec_texts@);
        proof {
            assert forall|k: int| 0 <= k < items@.len() && (#[trigger] items@[k]) is Ok implies {
                let c = items@[k]->Ok_0;
                &&& c.index == kept_indices(self.rec_texts@)[k]
                &&& 0 <= c.index < self.rec_texts@.len()
                &&& !is_blank(self.rec_texts@[c.index as int]@)
                &&& c.polygon@ == self.rec_polys@[c.index as int]@
                &&& c.text@ == self.rec_texts@[c.index as int]@
                &&& match self.rec_scores {
                    Some(scores) => c.text_confidence == Some(scores@[c.index as int]),
                    None => c.text_confidence is None,
                }
            } by {
                lemma_candidate_is_its_own_line(*self, kept_indices(self.rec_texts@)[k], items@[k]);
            }
        }
        Ok(items)
    }
}

// ---------------------------------------------------------------------------
// One text node per candidate
// ---------------------------------------------------------------------------

/// Orientation of a spotted line: its unrotated bounding box
/// `[left, top, right, bottom]`, the writing direction along the polygon's
/// long axis, and the rotation of the whole line (all `f32` bit patterns).
#[derive(Clone, Copy, Debug)]
pub struct TextPose {
    pub bbox: [u32; 4],
    pub direction: TextDirection,
    pub rotation_deg: u32,
}

/// Floating-point facts about one candidate, measured by the caller.
#[derive(Debug)]
pub struct ItemChecks {
    /// Every coordinate of the polygon is finite.
    pub coordinates_finite: bool,
    /// The pose estimated from the polygon.
    pub pose: TextPose,
    /// The pose's bounding box has positive width and height.
    pub bbox_nonempty: bool,
    /// The text confidence, when present, is finite and within `[0, 1]`.
    pub confidence_in_range: bool,
    /// The checks of the source geometry recorded for the candidate.
    pub geometry: GeometryMeasurements,
}

/// The source geometry recorded for a candidate: its polygon as both block
/// and only line, the pose's direction and rotation, and this engine's
/// identity; only the recognition confidence is reported, never a made-up
/// geometry confidence.
pub open spec fn recorded_geometry(
    c: Candidate,
    pose: TextPose,
    config_hash: Seq<char>,
    g: SourceGeometryEvidence,
) -> bool {
    &&& g.schema_version@ == SOURCE_GEOMETRY_EVIDENCE_VERSION@
    &&& g.block_polygon == c.polygon
    &&& g.line_polygons@ == seq![c.polygon]
    &&& g.source_direction == pose.direction
    &&& g.source_direction_source@ == DIRECTION_SOURCE@
    &&& g.source_rotation_deg == pose.rotation_deg
    &&& g.detector_evidence.detector_id@ == ENGINE_ID@
    &&& g.detector_evidence.detector_version@ == ENGINE_VERSION@
    &&& g.detector_evidence.config_hash@ == config_hash
    &&& g.detector_evidence.block_polygon_confidence is None
    &&& g.detector_evidence.line_evidence@ == seq![
        LineDetectorEvidence { text_confidence: c.text_confidence, polygon_confidence: None },
    ]
    &&& g.detector_evidence.direction_confidence is None
    &&& g.detector_evidence.rotation_confidence is None
}

/// The text node recorded for a candidate.
pub open spec fn recorded_text(c: Candidate, pose: TextPose, t: TextData) -> bool {
    &&& t.confidence == 0
    &&& t.source_lang is None
    &&& t.source_direction == Some(pose.direction)
    &&& t.rendered_direction is None
    &&& t.line_polygons matches Some(lines) && lines@ == seq![c.polygon]
    &&& t.rotation_deg == Some(pose.rotation_deg)
    &&& t.detected_font_size_px is None
    &&& t.detector matches Some(d) && d@ == ENGINE_ID@
    &&& t.text matches Some(text) && text@ == c.text@
    &&& t.translation is None
    &&& t.sprite is None
    &&& t.sprite_transform is None
    &&& t.lock_layout_box
    &&& t.source_geometry is Some
}

pub open spec fn polygon_message(index: int, what: Seq<char>) -> Seq<char> {
    "PaddleOCR-VL polygon "@ + decimal(index as nat) + what
}

pub open spec fn confidence_range_message(index: int) -> Seq<char> {
    "PaddleOCR-VL text confidence "@ + decimal(index as nat) + " is outside [0,1]"@
}

/// Why a candidate yields no text node, if it does not; `geometry` is the
/// source geometry that would be recorded for it.
pub open spec fn candidate_failure(c: Candidate, checks: ItemChecks, geometry: SourceGeometryEvidence) -> Option<Seq<char>> {
    if !checks.coordinates_finite {
        Some(polygon_message(c.index as int, " contains a non-finite coordinate"@))
    } else if !checks.bbox_nonempty {
        Some(polygon_message(c.index as int, " has an empty bounding box"@))
    } else if c.text_confidence is Some && !checks.confidence_in_range {
        Some(confidence_range_message(c.index as int))
    } else {
        match validation_failure(geometry, checks.geometry) {
            Some(reason) => Some(polygon_message(c.index as int, ": "@ + reason)),
            None => None,
        }
    }
}

fn clone_string(s: &String) -> (r: String)
    ensures
        r@ == s@,
{
    s.clone()
}

/// The source geometry recorded for a candidate with the given pose.
pub fn geometry_for(c: &Candidate, pose: TextPose, config_hash: &str) -> (g: SourceGeometryEvidence)
    ensures
        recorded_geometry(*c, pose, config_hash@, g),
{
    let mut lines = Vec::new();
    lines.push(c.polygon);
    let mut line_evidence = Vec::new();
    line_evidence.push(
        LineDetectorEvidence { text_confidence: c.text_confidence, polygon_confidence: None },
    );
    assert(lines@ =~= seq![c.polygon]);
    assert(line_evidence@ =~= seq![
        LineDetectorEvidence { text_confidence: c.text_confidence, polygon_confidence: None },
    ]);
    SourceGeometryEvidence {
        schema_version: String::from_str(SOURCE_GEOMETRY_EVIDENCE_VERSION),
        block_polygon: c.polygon,
        line_polygons: lines,
        source_direction: pose.direction,
        source_direction_source: String::from_str(DIRECTION_SOURCE),
        source_rotation_deg: pose.rotation_deg,
        detector_evidence: DetectorEvidence {
            detector_id: String::from_str(ENGINE_ID),
            detector_version: String::from_str(ENGINE_VERSION),
            config_hash: String::from_str(config_hash),
            block_polygon_confidence: None,
            line_evidence,
            direction_confidence: None,
            rotation_confidence: None,
        },
    }
}

fn polygon_text(index: usize, what: &str) -> (m: String)
    ensures
        m@ == polygon_message(index as int, what@),
{
    let mut m = String::from_str("PaddleOCR-VL polygon ");
    push_decimal(&mut m, index as u64);
    m.append(what);
    m
}

/// The bounding box and text node for one candidate, or why it has none.
/// The recorded source geometry is validated before the node is made.
pub fn text_pair(candidate: Candidate, checks: &ItemChecks, config_hash: &str) -> (r: Result<
    ([u32; 4], TextData),
    String,
>)
    requires
        checks.geometry.lines@.len() == 1,
        checks.geometry.line_confidences_in_range@.len() == 1,
    ensures
        exists|g: SourceGeometryEvidence| recorded_geometry(candidate, checks.pose, config_hash@, g),
        forall|g: SourceGeometryEvidence|
            recorded_geometry(candidate, checks.pose, config_hash@, g) ==> match candidate_failure(
                candidate,
                *checks,
                g,
            ) {
                Some(message) => r matches Err(m) && m@ == message,
                None => r matches Ok(pair) && pair.0 == checks.pose.bbox && recorded_text(
                    candidate,
                    checks.pose,
                    pair.1,
                ) && recorded_geometry(
                    candidate,
                    checks.pose,
                    config_hash@,
                    pair.1.source_geometry->0,
                ),
            },
        r is Ok ==> {
            let (bbox, t) = r->Ok_0;
            &&& bbox == checks.pose.bbox
            &&& t.rotation_deg == Some(checks.pose.rotation_deg)
            &&& t.source_direction == Some(checks.pose.direction)
            &&& t.text matches Some(text) && text@ == candidate.text@
            &&& t.source_geometry matches Some(g) && g.source_rotation_deg == checks.pose.rotation_deg
                && g.source_direction == checks.pose.direction && g.block_polygon == candidate.polygon
        },
{
    let index = candidate.index;
    let pose = checks.pose;
    let geometry = geometry_for(&candidate, pose, config_hash);
    if !checks.coordinates_finite {
        return Err(polygon_text(index, " contains a non-finite coordinate"));
    }
    if !checks.bbox_nonempty {
        return Err(polygon_text(index, " has an empty bounding box"));
    }
    if candidate.text_confidence.is_some() && !checks.confidence_in_range {
        let mut m = String::from_str("PaddleOCR-VL text confidence ");
        push_decimal(&mut m, index as u64);
        m.append(" is outside [0,1]");
        return Err(m);
    }
    proof {
        assert(measures(checks.geometry, geometry));
        lemma_validation_depends_on_recorded_fields(candidate, pose, config_hash@, geometry, checks.geometry);
    }
    match geometry.validate(&checks.geometry) {
        Err(reason) => {
            let mut m = polygon_text(index, ": ");
            m.append(reason.as_str());
            Err(m)
        },
        Ok(()) => {
            let mut lines = Vec::new();
            lines.push(candidate.polygon);
            assert(lines@ =~= seq![candidate.polygon]);
            let text = TextData {
                confidence: 0,
                source_lang: None,
                source_direction: Some(pose.direction),
                rendered_direction: None,
                line_polygons: Some(lines),
                rotation_deg: Some(pose.rotation_deg),
                detected_font_size_px: None,
                detector: Some(String::from_str(ENGINE_ID)),
                text: Some(candidate.text),
                translation: None,
                sprite: None,
                sprite_transform: None,
                lock_layout_box: true,
                source_geometry: Some(geometry),
            };
            proof {
                lemma_text_node_agrees_with_its_geometry(candidate, pose, config_hash@, text);
            }
            Ok((pose.bbox, text))
        },
    }
}

/// A text node and the source geometry recorded with it describe the same
/// line: the node is drawn with the rotation and writing direction of the
/// line's estimated pose, which are also the rotation and direction its
/// geometry records, over the line's own polygon and text.
pub proof fn lemma_text_node_agrees_with_its_geometry(
    c: Candidate,
    pose: TextPose,
    config_hash: Seq<char>,
    t: TextData,
)
    requires
        recorded_text(c, pose, t),
        recorded_geometry(c, pose, config_hash, t.source_geometry->0),
    ensures
        t.rotation_deg == Some(pose.rotation_deg),
        t.source_direction == Some(pose.direction),
        t.source_geometry matches Some(g) && t.rotation_deg == Some(g.source_rotation_deg)
            && t.source_direction == Some(g.source_direction) && g.block_polygon == c.polygon,
        t.line_polygons matches Some(lines) && lines@ == seq![c.polygon],
        t.text matches Some(text) && text@ == c.text@,
        t.lock_layout_box,
{
}

/// The source geometry that would be recorded for a candidate.
pub open spec fn geometry_of(c: Candidate, pose: TextPose, config_hash: Seq<char>) -> SourceGeometryEvidence {
    choose|g: SourceGeometryEvidence| recorded_geometry(c, pose, config_hash, g)
}

/// Why a spotted line yields no text node: its own refusal, or the failure
/// of its candidate under its checks.
pub open spec fn item_failure(
    item: Result<Candidate, String>,
    checks: Option<ItemChecks>,
    config_hash: Seq<char>,
) -> Option<Seq<char>> {
    match item {
        Err(m) => Some(m@),
        Ok(c) => candidate_failure(c, checks->0, geometry_of(c, checks->0.pose, config_hash)),
    }
}

/// The text node made for the line at position `k`.
pub open spec fn pair_made(
    item: Result<Candidate, String>,
    checks: Option<ItemChecks>,
    config_hash: Seq<char>,
    pair: ([u32; 4], TextData),
) -> bool {
    item matches Ok(c) && checks matches Some(ch) && pair.0 == ch.pose.bbox && recorded_text(
        c,
        ch.pose,
        pair.1,
    ) && recorded_geometry(c, ch.pose, config_hash, pair.1.source_geometry->0)
}

/// Whether a line's checks fit it: a candidate comes with checks of its one
/// line of geometry.
pub open spec fn checks_fit(item: Result<Candidate, String>, checks: Option<ItemChecks>) -> bool {
    item is Ok ==> (checks matches Some(ch) && ch.geometry.lines@.len() == 1
        && ch.geometry.line_confidences_in_range@.len() == 1)
}

/// Whether the first `n` lines all yield text nodes.
pub open spec fn all_succeed(
    items: Seq<Result<Candidate, String>>,
    checks: Seq<Option<ItemChecks>>,
    config_hash: Seq<char>,
    n: int,
) -> bool {
    forall|k: int| 0 <= k < n ==> (#[trigger] item_failure(items[k], checks[k], config_hash)) is None
}

fn clone_candidate(c: &Candidate) -> (d: Candidate)
    ensures
        d == *c,
{
    Candidate {
        index: c.index,
        polygon: c.polygon,
        text: c.text.clone(),
        text_confidence: c.text_confidence,
    }
}

/// Turns the kept lines into text nodes in order; the first line that
/// yields none decides the error.
pub fn collect_text_pairs(
    items: &Vec<Result<Candidate, String>>,
    checks: &Vec<Option<ItemChecks>>,
    config_hash: &str,
) -> (r: Result<Vec<([u32; 4], TextData)>, String>)
    requires
        checks@.len() == items@.len(),
        forall|k: int| 0 <= k < items@.len() ==> checks_fit(#[trigger] items@[k], checks@[k]),
    ensures
        match r {
            Ok(pairs) => {
                &&& all_succeed(items@, checks@, config_hash@, items@.len() as int)
                &&& pairs@.len() == items@.len()
                &&& forall|k: int|
                    0 <= k < pairs@.len() ==> pair_made(
                        items@[k],
                        checks@[k],
                        config_hash@,
                        #[trigger] pairs@[k],
                    )
            },
            Err(m) => exists|k: int|
                0 <= k < items@.len() && all_succeed(items@, checks@, config_hash@, k)
                    && #[trigger] item_failure(items@[k], checks@[k], config_hash@) == Some(m@),
        },
        r is Ok ==> forall|k: int|
            0 <= k < r->Ok_0@.len() ==> {
                let t = (#[trigger] r->Ok_0@[k]).1;
                let pose = checks@[k]->0.pose;
                &&& t.rotation_deg == Some(pose.rotation_deg)
                &&& t.source_direction == Some(pose.direction)
                &&& t.source_geometry matches Some(g) && g.source_rotation_deg == pose.rotation_deg
                &&& t.text matches Some(text) && text@ == items@[k]->Ok_0.text@
            },
{
    let mut pairs: Vec<([u32; 4], TextData)> = Vec::new();
    for k in 0..items.len()
        invariant
            checks@.len() == items@.len(),
            forall|j: int| 0 <= j < items@.len() ==> checks_fit(#[trigger] items@[j], checks@[j]),
            all_succeed(items@, checks@, config_hash@, k as int),
            pairs@.len() == k,
            forall|j: int|
                0 <= j < k ==> pair_made(items@[j], checks@[j], config_hash@, #[trigger] pairs@[j]),
    {
        assert(checks_fit(items@[k as int], checks@[k as int]));
        match &items[k] {
            Err(m) => {
                let m2 = clone_string(m);
                assert(item_failure(items@[k as int], checks@[k as int], config_hash@) == Some(m2@));
                return Err(m2);
            },
            Ok(c) => {
                let ch = checks[k].as_ref().unwrap();
                let c2 = clone_candidate(c);
                match text_pair(c2, ch, config_hash) {
                    Err(m) => {
                        return Err(m);
                    },
                    Ok(pair) => {
                        pairs.push(pair);
                    },
                }
            },
        }
    }
    proof {
        assert forall|k: int| 0 <= k < pairs@.len() implies {
            let t = (#[trigger] pairs@[k]).1;
            let pose = checks@[k]->0.pose;
            &&& t.rotation_deg == Some(pose.rotation_deg)
            &&& t.source_direction == Some(pose.direction)
            &&& t.source_geometry matches Some(g) && g.source_rotation_deg == pose.rotation_deg
            &&& t.text matches Some(text) && text@ == items@[k]->Ok_0.text@
        } by {
            assert(pair_made(items@[k], checks@[k], config_hash@, pairs@[k]));
            lemma_text_node_agrees_with_its_geometry(
                items@[k]->Ok_0,
                checks@[k]->0.pose,
                config_hash@,
                pairs@[k].1,
            );
        }
    }
    Ok(pairs)
}

/// Every text node made from a spotted line records source geometry that
/// passes validation, keeps the recognition confidence it was given, and
/// reports no polygon, block, direction or rotation confidence.
pub proof fn lemma_made_nodes_carry_valid_geometry(
    c: Candidate,
    checks: ItemChecks,
    config_hash: Seq<char>,
    g: SourceGeometryEvidence,
)
    requires
        recorded_geometry(c, checks.pose, config_hash, g),
        candidate_failure(c, checks, g) is None,
    ensures
        validation_failure(g, checks.geometry) is None,
        g.detector_evidence.line_evidence@.len() == 1,
        g.detector_evidence.line_evidence@[0].text_confidence == c.text_confidence,
        g.detector_evidence.line_evidence@[0].polygon_confidence is None,
        g.detector_evidence.block_polygon_confidence is None,
        g.detector_evidence.direction_confidence is None,
        g.detector_evidence.rotation_confidence is None,
{
}

/// Validation reads only what `recorded_geometry` fixes, so every geometry
/// recorded for a candidate validates alike.
proof fn lemma_validation_depends_on_recorded_fields(
    c: Candidate,
    pose: TextPose,
    config_hash: Seq<char>,
    g: SourceGeometryEvidence,
    m: GeometryMeasurements,
)
    requires
        recorded_geometry(c, pose, config_hash, g),
    ensures
        forall|h: SourceGeometryEvidence|
            recorded_geometry(c, pose, config_hash, h) ==> validation_failure(h, m)
                == validation_failure(g, m),
{
}

} // verus!
