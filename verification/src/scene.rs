//! Scene graph: project → pages → flat nodes.
//!
//! Everything visual on a page is a node.  Identifiers are the 128-bit
//! values of time-ordered (version 7) UUIDs.  Geometry and confidences are
//! carried as the IEEE-754 bit patterns of their single-precision values;
//! arithmetic on them happens outside this crate.

use indexmap::IndexMap;
use vstd::prelude::*;

verus! {

// ---------------------------------------------------------------------------
// Ids
// ---------------------------------------------------------------------------

/// The version field (bits 76..80) of a UUID held as a big-endian `u128`.
pub open spec fn uuid_version(value: u128) -> u128 {
    (value >> 76u128) & 0xfu128
}

/// The variant field (bits 62..64) of a UUID held as a big-endian `u128`;
/// `2` (binary `10`) is the RFC 4122 / 9562 variant.
pub open spec fn uuid_variant(value: u128) -> u128 {
    (value >> 62u128) & 0x3u128
}

/// Version 7, RFC 9562 variant.
pub open spec fn is_uuid_v7(value: u128) -> bool {
    uuid_version(value) == 7 && uuid_variant(value) == 2
}

/// `uuid::Uuid::now_v7`: a new time-ordered UUID, taken as its big-endian
/// 128-bit value by `Uuid::as_u128`.  Its version field reads 7 and its
/// variant field the RFC variant; the rest depends on the clock and on
/// random bits.
#[verifier::external_body]
fn new_uuid_v7() -> (value: u128)
    ensures
        is_uuid_v7(value),
{
    uuid::Uuid::now_v7().as_u128()
}

#[derive(Clone, Copy, Debug, PartialEq, Eq, Structural, Hash, PartialOrd, Ord)]
pub struct PageId(pub u128);

#[derive(Clone, Copy, Debug, PartialEq, Eq, Structural, Hash, PartialOrd, Ord)]
pub struct NodeId(pub u128);

impl PageId {
    /// A fresh page id.
    pub fn new() -> (id: PageId)
        ensures
            is_uuid_v7(id.0),
    {
        PageId(new_uuid_v7())
    }
}

impl NodeId {
    /// A fresh node id.
    pub fn new() -> (id: NodeId)
        ensures
            is_uuid_v7(id.0),
    {
        NodeId(new_uuid_v7())
    }
}

impl Default for PageId {
    fn default() -> (id: PageId)
        ensures
            is_uuid_v7(id.0),
    {
        PageId::new()
    }
}

impl Default for NodeId {
    fn default() -> (id: NodeId)
        ensures
            is_uuid_v7(id.0),
    {
        NodeId::new()
    }
}

// ---------------------------------------------------------------------------
// Project
// ---------------------------------------------------------------------------

/// An instant in UTC: whole seconds since the Unix epoch and the nanoseconds
/// past them (up to 1,999,999,999 during a leap second).
#[derive(Clone, Copy, Debug, PartialEq, Eq, Structural)]
pub struct UtcTimestamp {
    pub seconds: i64,
    pub nanoseconds: u32,
}

/// `chrono::Utc::now`: the current instant, split by `DateTime::timestamp`
/// and `DateTime::timestamp_subsec_nanos`.  Only the range of the
/// nanoseconds is known in advance.
#[verifier::external_body]
fn utc_now() -> (t: UtcTimestamp)
    ensures
        t.nanoseconds < 2_000_000_000,
{
    let now = chrono::Utc::now();
    UtcTimestamp { seconds: now.timestamp(), nanoseconds: now.timestamp_subsec_nanos() }
}

#[derive(Debug)]
pub struct ProjectStyle {
    pub default_font: Option<String>,
}

impl Default for ProjectStyle {
    fn default() -> (style: ProjectStyle)
        ensures
            style.default_font is None,
    {
        ProjectStyle { default_font: None }
    }
}

#[derive(Debug)]
pub struct ProjectMeta {
    pub name: String,
    pub created_at: UtcTimestamp,
    pub updated_at: UtcTimestamp,
    pub style: ProjectStyle,
}

impl Default for ProjectMeta {
    /// An unnamed project created and updated now.
    fn default() -> (meta: ProjectMeta)
        ensures
            meta.name@ == Seq::<char>::empty(),
            meta.created_at == meta.updated_at,
            meta.created_at.nanoseconds < 2_000_000_000,
            meta.style.default_font is None,
    {
        let now = utc_now();
        ProjectMeta {
            name: String::new(),
            created_at: now,
            updated_at: now,
            style: ProjectStyle::default(),
        }
    }
}

// ---------------------------------------------------------------------------
// Blobs, text direction
// ---------------------------------------------------------------------------

/// Reference to a stored binary blob, by its content key.
#[derive(Debug)]
pub struct BlobRef(pub String);

#[derive(Clone, Copy, Debug, PartialEq, Eq, Structural)]
pub enum TextDirection {
    Horizontal,
    Vertical,
}

// ---------------------------------------------------------------------------
// Transform
// ---------------------------------------------------------------------------

/// Placement of a node; each field is the bit pattern of an `f32`.
#[derive(Clone, Copy, Debug, PartialEq, Eq, Structural)]
pub struct Transform {
    pub x: u32,
    pub y: u32,
    pub width: u32,
    pub height: u32,
    pub rotation_deg: u32,
}

impl Default for Transform {
    /// All fields `0.0`.
    fn default() -> (t: Transform)
        ensures
            t.x == 0 && t.y == 0 && t.width == 0 && t.height == 0 && t.rotation_deg == 0,
    {
        Transform { x: 0, y: 0, width: 0, height: 0, rotation_deg: 0 }
    }
}

// ---------------------------------------------------------------------------
// Image and mask nodes
// ---------------------------------------------------------------------------

#[derive(Clone, Copy, Debug, PartialEq, Eq, Structural)]
pub enum ImageRole {
    /// Immutable page input; exactly one per page.
    Source,
    /// Pipeline output; text removed from `Source`.
    Inpainted,
    /// Pipeline output; final composite.
    Rendered,
    /// User-imported free layer, movable / selectable.
    Custom,
}

#[derive(Debug)]
pub struct ImageData {
    /// Role is immutable on an existing node: switching roles = delete + add.
    pub role: ImageRole,
    pub blob: BlobRef,
    /// Bit pattern of the `f32` opacity.
    pub opacity: u32,
    pub natural_width: u32,
    pub natural_height: u32,
    pub name: Option<String>,
}

/// Bit pattern of `1.0f32`, the opacity of an image that does not give one.
pub const DEFAULT_OPACITY_BITS: u32 = 0x3f80_0000;

#[derive(Clone, Copy, Debug, PartialEq, Eq, Structural)]
pub enum MaskRole {
    /// Manual brush strokes driving local inpaint.
    BrushInpaint,
    /// Text-detector segmentation preview (text-pixel mask).
    Segment,
    /// Bubble-interior mask used to grow text layout boxes.
    Bubble,
}

#[derive(Debug)]
pub struct MaskData {
    pub role: MaskRole,
    pub blob: BlobRef,
}

// ---------------------------------------------------------------------------
// Text node
// ---------------------------------------------------------------------------

/// Version written into every immutable OCR geometry payload.
pub const SOURCE_GEOMETRY_EVIDENCE_VERSION: &'static str = "source-geometry-evidence.v1";

/// Four corner points; each coordinate is the bit pattern of an `f32`.
pub type Quad = [[u32; 2]; 4];

/// Confidence attached to one line polygon (bit patterns of `f32`s).
#[derive(Clone, Copy, Debug, PartialEq, Eq, Structural)]
pub struct LineDetectorEvidence {
    pub text_confidence: Option<u32>,
    pub polygon_confidence: Option<u32>,
}

/// Detector identity and the confidence channels that produced source
/// geometry.  Missing upstream evidence is `None`, never a made-up zero.
#[derive(Debug)]
pub struct DetectorEvidence {
    pub detector_id: String,
    pub detector_version: String,
    /// Canonical SHA-256 of the detector configuration.
    pub config_hash: String,
    pub block_polygon_confidence: Option<u32>,
    pub line_evidence: Vec<LineDetectorEvidence>,
    pub direction_confidence: Option<u32>,
    pub rotation_confidence: Option<u32>,
}

/// Immutable OCR geometry as recorded when a text node is created.
#[derive(Debug)]
pub struct SourceGeometryEvidence {
    pub schema_version: String,
    pub block_polygon: Quad,
    pub line_polygons: Vec<Quad>,
    pub source_direction: TextDirection,
    pub source_direction_source: String,
    /// Bit pattern of the `f32` rotation in degrees.
    pub source_rotation_deg: u32,
    pub detector_evidence: DetectorEvidence,
}

#[derive(Debug)]
pub struct TextData {
    pub confidence: u32,
    pub source_lang: Option<String>,
    pub source_direction: Option<TextDirection>,
    pub rendered_direction: Option<TextDirection>,
    pub line_polygons: Option<Vec<Quad>>,
    pub rotation_deg: Option<u32>,
    pub detected_font_size_px: Option<u32>,
    pub detector: Option<String>,
    pub text: Option<String>,
    pub translation: Option<String>,
    /// Renderer-produced sprite for this block.
    pub sprite: Option<BlobRef>,
    /// Sprite placement when the renderer expands past the bubble geometry.
    pub sprite_transform: Option<Transform>,
    pub lock_layout_box: bool,
    /// Authoritative, immutable source evidence.
    pub source_geometry: Option<SourceGeometryEvidence>,
}

impl Default for TextData {
    /// No text, no geometry, zero confidence, layout box unlocked.
    fn default() -> (t: TextData)
        ensures
            t.confidence == 0,
            t.source_lang is None,
            t.source_direction is None,
            t.rendered_direction is None,
            t.line_polygons is None,
            t.rotation_deg is None,
            t.detected_font_size_px is None,
            t.detector is None,
            t.text is None,
            t.translation is None,
            t.sprite is None,
            t.sprite_transform is None,
            !t.lock_layout_box,
            t.source_geometry is None,
    {
        TextData {
            confidence: 0,
            source_lang: None,
            source_direction: None,
            rendered_direction: None,
            line_polygons: None,
            rotation_deg: None,
            detected_font_size_px: None,
            detector: None,
            text: None,
            translation: None,
            sprite: None,
            sprite_transform: None,
            lock_layout_box: false,
            source_geometry: None,
        }
    }
}

impl TextData {
    /// The line polygons of the source geometry when it is recorded, else
    /// the node's own line polygons.
    pub open spec fn spec_source_line_polygons(&self) -> Option<Seq<Quad>> {
        match self.source_geometry {
            Some(geometry) => Some(geometry.line_polygons@),
            None => match self.line_polygons {
                Some(polygons) => Some(polygons@),
                None => None,
            },
        }
    }

    pub fn source_line_polygons(&self) -> (r: Option<&[Quad]>)
        ensures
            match r {
                Some(s) => self.spec_source_line_polygons() == Some(s@),
                None => self.spec_source_line_polygons() is None,
            },
    {
        match &self.source_geometry {
            Some(geometry) => Some(geometry.line_polygons.as_slice()),
            None => match &self.line_polygons {
                Some(polygons) => Some(polygons.as_slice()),
                None => None,
            },
        }
    }

    /// The direction recorded by the source geometry, else the node's own.
    pub fn recorded_source_direction(&self) -> (r: Option<TextDirection>)
        ensures
            r == match self.source_geometry {
                Some(geometry) => Some(geometry.source_direction),
                None => self.source_direction,
            },
    {
        match &self.source_geometry {
            Some(geometry) => Some(geometry.source_direction),
            None => self.source_direction,
        }
    }

    /// The rotation recorded by the source geometry, else the node's own.
    pub fn recorded_source_rotation_deg(&self) -> (r: Option<u32>)
        ensures
            r == match self.source_geometry {
                Some(geometry) => Some(geometry.source_rotation_deg),
                None => self.rotation_deg,
            },
    {
        match &self.source_geometry {
            Some(geometry) => Some(geometry.source_rotation_deg),
            None => self.rotation_deg,
        }
    }

    /// The detector recorded by the source geometry, else the node's own.
    pub fn recorded_detector_id(&self) -> (r: Option<&str>)
        ensures
            match r {
                Some(id) => match self.source_geometry {
                    Some(geometry) => id@ == geometry.detector_evidence.detector_id@,
                    None => self.detector matches Some(d) && id@ == d@,
                },
                None => self.source_geometry is None && self.detector is None,
            },
    {
        match &self.source_geometry {
            Some(geometry) => Some(geometry.detector_evidence.detector_id.as_str()),
            None => match &self.detector {
                Some(d) => Some(d.as_str()),
                None => None,
            },
        }
    }
}

// ---------------------------------------------------------------------------
// Node
// ---------------------------------------------------------------------------

#[derive(Debug)]
pub struct Node {
    pub id: NodeId,
    pub transform: Transform,
    pub visible: bool,
    pub kind: NodeKind,
}

#[derive(Debug)]
pub enum NodeKind {
    Image(ImageData),
    Text(TextData),
    Mask(MaskData),
}

#[derive(Clone, Copy, Debug, PartialEq, Eq, Structural)]
pub enum NodeKindTag {
    Image,
    Text,
    Mask,
}

impl NodeKind {
    pub open spec fn tag(&self) -> NodeKindTag {
        match self {
            NodeKind::Image(_) => NodeKindTag::Image,
            NodeKind::Text(_) => NodeKindTag::Text,
            NodeKind::Mask(_) => NodeKindTag::Mask,
        }
    }

    /// Which kind of node this is.
    pub fn discriminant(&self) -> (tag: NodeKindTag)
        ensures
            tag == self.tag(),
    {
        match self {
            NodeKind::Image(_) => NodeKindTag::Image,
            NodeKind::Text(_) => NodeKindTag::Text,
            NodeKind::Mask(_) => NodeKindTag::Mask,
        }
    }
}

/// Whether a node is the page's source image.
pub open spec fn is_source_image(node: Node) -> bool {
    node.kind matches NodeKind::Image(image) && image.role == ImageRole::Source
}

// ---------------------------------------------------------------------------
// Ordered maps of pages and nodes
// ---------------------------------------------------------------------------

#[verifier::external_type_specification]
#[verifier::external_body]
#[verifier::reject_recursive_types(K)]
#[verifier::reject_recursive_types(V)]
#[verifier::reject_recursive_types(S)]
pub struct ExIndexMap<K, V, S>(IndexMap<K, V, S>);

/// The pages of a page map, in insertion order, keyed by page id value.
pub uninterp spec fn page_map_entries(map: IndexMap<u128, Page>) -> Seq<(u128, Page)>;

/// The nodes of a node map, in insertion order, keyed by node id value.
pub uninterp spec fn node_map_entries(map: IndexMap<u128, Node>) -> Seq<(u128, Node)>;

/// The value of the entry with key `key`; keys of an ordered map are distinct,
/// so the first match is the only one.
pub open spec fn entry_lookup<V>(entries: Seq<(u128, V)>, key: u128) -> Option<V>
    decreases entries.len(),
{
    if entries.len() == 0 {
        None
    } else if entries[0].0 == key {
        Some(entries[0].1)
    } else {
        entry_lookup(entries.drop_first(), key)
    }
}

/// `IndexMap::new`: an empty page map.
#[verifier::external_body]
fn page_map_new() -> (map: IndexMap<u128, Page>)
    ensures
        page_map_entries(map) == Seq::<(u128, Page)>::empty(),
{
    IndexMap::new()
}

/// `IndexMap::new`: an empty node map.
#[verifier::external_body]
fn node_map_new() -> (map: IndexMap<u128, Node>)
    ensures
        node_map_entries(map) == Seq::<(u128, Node)>::empty(),
{
    IndexMap::new()
}

/// `IndexMap::get` on a page map.
#[verifier::external_body]
fn page_map_get<'a>(map: &'a IndexMap<u128, Page>, key: u128) -> (r: Option<&'a Page>)
    ensures
        match r {
            Some(page) => entry_lookup(page_map_entries(*map), key) == Some(*page),
            None => entry_lookup(page_map_entries(*map), key) is None,
        },
{
    map.get(&key)
}

/// `IndexMap::get` on a node map.
#[verifier::external_body]
fn node_map_get<'a>(map: &'a IndexMap<u128, Node>, key: u128) -> (r: Option<&'a Node>)
    ensures
        match r {
            Some(node) => entry_lookup(node_map_entries(*map), key) == Some(*node),
            None => entry_lookup(node_map_entries(*map), key) is None,
        },
{
    map.get(&key)
}

/// The entries with the value under `key` replaced by `value`.
pub open spec fn entry_replace<V>(entries: Seq<(u128, V)>, key: u128, value: V) -> Seq<(u128, V)>
    decreases entries.len(),
{
    if entries.len() == 0 {
        entries
    } else if entries[0].0 == key {
        entries.update(0, (key, value))
    } else {
        seq![entries[0]] + entry_replace(entries.drop_first(), key, value)
    }
}

/// `IndexMap::get_mut` on a page map: the page under `key`, to be changed in
/// place.
#[verifier::external_body]
fn page_map_get_mut<'a>(map: &'a mut IndexMap<u128, Page>, key: u128) -> (r: Option<&'a mut Page>)
    ensures
        match r {
            Some(page) => {
                &&& entry_lookup(page_map_entries(*old(map)), key) == Some(*page)
                &&& page_map_entries(*final(map)) == entry_replace(
                    page_map_entries(*old(map)),
                    key,
                    *final(page),
                )
            },
            None => {
                &&& entry_lookup(page_map_entries(*old(map)), key) is None
                &&& page_map_entries(*final(map)) == page_map_entries(*old(map))
            },
        },
{
    map.get_mut(&key)
}

/// `IndexMap::get_mut` on a node map: the node under `key`, to be changed in
/// place.
#[verifier::external_body]
fn node_map_get_mut<'a>(map: &'a mut IndexMap<u128, Node>, key: u128) -> (r: Option<&'a mut Node>)
    ensures
        match r {
            Some(node) => {
                &&& entry_lookup(node_map_entries(*old(map)), key) == Some(*node)
                &&& node_map_entries(*final(map)) == entry_replace(
                    node_map_entries(*old(map)),
                    key,
                    *final(node),
                )
            },
            None => {
                &&& entry_lookup(node_map_entries(*old(map)), key) is None
                &&& node_map_entries(*final(map)) == node_map_entries(*old(map))
            },
        },
{
    map.get_mut(&key)
}

/// `IndexMap::len` of a node map.
#[verifier::external_body]
fn node_map_len(map: &IndexMap<u128, Node>) -> (n: usize)
    ensures
        n == node_map_entries(*map).len(),
{
    map.len()
}

/// `IndexMap::get_index` on a node map: the entry at position `index`.
#[verifier::external_body]
fn node_map_get_index<'a>(
    map: &'a IndexMap<u128, Node>,
    index: usize,
) -> (r: Option<(&'a u128, &'a Node)>)
    ensures
        match r {
            Some(entry) => {
                &&& index < node_map_entries(*map).len()
                &&& *entry.0 == node_map_entries(*map)[index as int].0
                &&& *entry.1 == node_map_entries(*map)[index as int].1
            },
            None => index >= node_map_entries(*map).len(),
        },
{
    map.get_index(index)
}

// ---------------------------------------------------------------------------
// Page, scene
// ---------------------------------------------------------------------------

#[derive(Debug)]
pub struct Page {
    pub id: PageId,
    pub name: String,
    pub width: u32,
    pub height: u32,
    /// Stacking = insertion order, bottom first.
    pub nodes: IndexMap<u128, Node>,
}

#[derive(Debug)]
pub struct Scene {
    pub project: ProjectMeta,
    /// Pages in insertion order; the map's order is the page order.
    pub pages: IndexMap<u128, Page>,
}

impl Default for Scene {
    /// An unnamed project without pages.
    fn default() -> (scene: Scene)
        ensures
            scene.project.name@ == Seq::<char>::empty(),
            scene.project.created_at == scene.project.updated_at,
            scene.project.created_at.nanoseconds < 2_000_000_000,
            scene.project.style.default_font is None,
            page_map_entries(scene.pages) == Seq::<(u128, Page)>::empty(),
    {
        Scene { project: ProjectMeta::default(), pages: page_map_new() }
    }
}

impl Page {
    /// A new page with a fresh id and no nodes.
    pub fn new(name: &str, width: u32, height: u32) -> (page: Page)
        ensures
            is_uuid_v7(page.id.0),
            page.name@ == name@,
            page.width == width,
            page.height == height,
            node_map_entries(page.nodes) == Seq::<(u128, Node)>::empty(),
    {
        Page {
            id: PageId::new(),
            name: String::from_str(name),
            width,
            height,
            nodes: node_map_new(),
        }
    }

    /// Position of the first source-image node, if any.
    pub open spec fn first_source_index(entries: Seq<(u128, Node)>) -> Option<int>
        decreases entries.len(),
    {
        if entries.len() == 0 {
            None
        } else if is_source_image(entries.last().1) && Self::first_source_index(
            entries.drop_last(),
        ) is None {
            Some(entries.len() - 1)
        } else {
            Self::first_source_index(entries.drop_last())
        }
    }

    /// The page's source image: the first node, in stacking order, that is an
    /// image with the source role.
    pub fn source_node(&self) -> (r: Option<(NodeId, &Node)>)
        ensures
            match Self::first_source_index(node_map_entries(self.nodes)) {
                Some(i) => r matches Some(found) && found.0.0 == node_map_entries(self.nodes)[i].0
                    && *found.1 == node_map_entries(self.nodes)[i].1,
                None => r is None,
            },
            r matches Some(found) ==> (found.1.kind matches NodeKind::Image(image) && image.role
                == ImageRole::Source),
            r is None ==> forall|j: int|
                0 <= j < node_map_entries(self.nodes).len() ==> !(
                #[trigger] node_map_entries(self.nodes)[j].1.kind matches NodeKind::Image(image)
                    && image.role == ImageRole::Source),
    {
        proof {
            lemma_source_node_is_first_source_image(node_map_entries(self.nodes));
        }
        let n = node_map_len(&self.nodes);
        let ghost entries = node_map_entries(self.nodes);
        for i in 0..n
            invariant
                n == entries.len(),
                entries == node_map_entries(self.nodes),
                Self::first_source_index(entries.take(i as int)) is None,
        {
            assert(entries.take(i + 1).drop_last() == entries.take(i as int));
            match node_map_get_index(&self.nodes, i) {
                Some((key, node)) => {
                    let is_source = match &node.kind {
                        NodeKind::Image(image) => image.role == ImageRole::Source,
                        _ => false,
                    };
                    if is_source {
                        proof {
                            lemma_first_source_prefix(entries, i as int);
                        }
                        return Some((NodeId(*key), node));
                    }
                },
                None => {},
            }
        }
        assert(entries.take(n as int) == entries);
        None
    }
}

/// The source image of a page is the first node, in stacking order, that is
/// an image with the source role, whatever its visibility or transform: a
/// found position holds such an image and no earlier node is one, and when
/// none is found no node is one.
pub proof fn lemma_source_node_is_first_source_image(entries: Seq<(u128, Node)>)
    ensures
        Page::first_source_index(entries) matches Some(i) ==> {
            &&& 0 <= i < entries.len()
            &&& entries[i].1.kind matches NodeKind::Image(image) && image.role == ImageRole::Source
            &&& forall|j: int|
                0 <= j < i ==> !(#[trigger] entries[j].1.kind matches NodeKind::Image(image)
                    && image.role == ImageRole::Source)
        },
        Page::first_source_index(entries) is None ==> forall|j: int|
            0 <= j < entries.len() ==> !(#[trigger] entries[j].1.kind matches NodeKind::Image(image)
                && image.role == ImageRole::Source),
    decreases entries.len(),
{
    if entries.len() > 0 {
        let rest = entries.drop_last();
        let last = entries.len() - 1;
        lemma_source_node_is_first_source_image(rest);
        assert(forall|j: int| 0 <= j < rest.len() ==> rest[j] == entries[j]);
        if Page::first_source_index(entries) is None {
            assert forall|j: int| 0 <= j < entries.len() implies !(
            #[trigger] entries[j].1.kind matches NodeKind::Image(image) && image.role
                == ImageRole::Source) by {
                if j < last {
                    assert(rest[j] == entries[j]);
                } else {
                    assert(!is_source_image(entries.last().1));
                }
            }
        }
        match Page::first_source_index(entries) {
            Some(i) => {
                match Page::first_source_index(rest) {
                    Some(k) => {
                        assert(i == k);
                        assert(rest[i] == entries[i]);
                    },
                    None => {
                        assert(i == last);
                    },
                }
                assert forall|j: int| 0 <= j < i implies !(
                #[trigger] entries[j].1.kind matches NodeKind::Image(image) && image.role
                    == ImageRole::Source) by {
                    assert(rest[j] == entries[j]);
                }
            },
            None => {},
        }
    }
}

proof fn lemma_first_source_prefix(entries: Seq<(u128, Node)>, i: int)
    requires
        0 <= i < entries.len(),
        is_source_image(entries[i].1),
        Page::first_source_index(entries.take(i)) is None,
    ensures
        Page::first_source_index(entries) == Some(i),
    decreases entries.len(),
{
    assert(entries.take(i + 1).drop_last() == entries.take(i));
    if i + 1 < entries.len() {
        assert(entries.drop_last().take(i) == entries.take(i));
        lemma_first_source_prefix(entries.drop_last(), i);
    }
}

impl Scene {
    /// The page with id `id`.
    pub fn page(&self, id: PageId) -> (r: Option<&Page>)
        ensures
            match r {
                Some(page) => entry_lookup(page_map_entries(self.pages), id.0) == Some(*page),
                None => entry_lookup(page_map_entries(self.pages), id.0) is None,
            },
    {
        page_map_get(&self.pages, id.0)
    }

    /// The page with id `id`, to be changed in place.
    pub fn page_mut(&mut self, id: PageId) -> (r: Option<&mut Page>)
        ensures
            final(self).project == old(self).project,
            match r {
                Some(page) => {
                    &&& entry_lookup(page_map_entries(old(self).pages), id.0) == Some(*page)
                    &&& page_map_entries(final(self).pages) == entry_replace(
                        page_map_entries(old(self).pages),
                        id.0,
                        *final(page),
                    )
                },
                None => {
                    &&& entry_lookup(page_map_entries(old(self).pages), id.0) is None
                    &&& page_map_entries(final(self).pages) == page_map_entries(old(self).pages)
                },
            },
    {
        page_map_get_mut(&mut self.pages, id.0)
    }

    /// Whether `after` is `before` with only its node under `key` replaced by
    /// `node`.
    pub open spec fn same_page_but_node(before: Page, after: Page, key: u128, node: Node) -> bool {
        &&& after.id == before.id
        &&& after.name == before.name
        &&& after.width == before.width
        &&& after.height == before.height
        &&& node_map_entries(after.nodes) == entry_replace(node_map_entries(before.nodes), key, node)
    }

    /// Node `node` of page `page`, to be changed in place.
    pub fn node_mut(&mut self, page: PageId, node: NodeId) -> (r: Option<&mut Node>)
        ensures
            final(self).project == old(self).project,
            match entry_lookup(page_map_entries(old(self).pages), page.0) {
                None => r is None && page_map_entries(final(self).pages) == page_map_entries(
                    old(self).pages,
                ),
                Some(p) => match r {
                    Some(n) => {
                        &&& entry_lookup(node_map_entries(p.nodes), node.0) == Some(*n)
                        &&& exists|after: Page|
                            #![trigger entry_replace(page_map_entries(old(self).pages), page.0, after)]
                            Self::same_page_but_node(p, after, node.0, *final(n))
                                && page_map_entries(final(self).pages) == entry_replace(
                                page_map_entries(old(self).pages),
                                page.0,
                                after,
                            )
                    },
                    None => {
                        &&& entry_lookup(node_map_entries(p.nodes), node.0) is None
                        &&& exists|after: Page|
                            #![trigger entry_replace(page_map_entries(old(self).pages), page.0, after)]
                            after.id == p.id && after.name == p.name && after.width == p.width
                                && after.height == p.height && node_map_entries(after.nodes)
                                == node_map_entries(p.nodes) && page_map_entries(
                                final(self).pages,
                            ) == entry_replace(page_map_entries(old(self).pages), page.0, after)
                    },
                },
            },
    {
        match self.page_mut(page) {
            Some(p) => node_map_get_mut(&mut p.nodes, node.0),
            None => None,
        }
    }

    /// Node `node` of page `page`.
    pub fn node(&self, page: PageId, node: NodeId) -> (r: Option<&Node>)
        ensures
            match entry_lookup(page_map_entries(self.pages), page.0) {
                Some(p) => match r {
                    Some(n) => entry_lookup(node_map_entries(p.nodes), node.0) == Some(*n),
                    None => entry_lookup(node_map_entries(p.nodes), node.0) is None,
                },
                None => r is None,
            },
    {
        match self.page(page) {
            Some(p) => node_map_get(&p.nodes, node.0),
            None => None,
        }
    }
}

} // verus!
