use koharu::scene::{
    BlobRef, DetectorEvidence, ImageData, ImageRole, LineDetectorEvidence, MaskData, MaskRole,
    Node, NodeId, NodeKind, NodeKindTag, Page, PageId, ProjectMeta, ProjectStyle, Scene,
    SourceGeometryEvidence, TextData, TextDirection, Transform, DEFAULT_OPACITY_BITS,
    SOURCE_GEOMETRY_EVIDENCE_VERSION,
};

fn image(role: ImageRole) -> NodeKind {
    NodeKind::Image(ImageData {
        role,
        blob: BlobRef("blob".to_string()),
        opacity: DEFAULT_OPACITY_BITS,
        natural_width: 32,
        natural_height: 16,
        name: None,
    })
}

fn node(kind: NodeKind) -> Node {
    Node { id: NodeId::new(), transform: Transform::default(), visible: true, kind }
}

fn geometry() -> SourceGeometryEvidence {
    let quad = [[1, 2], [3, 4], [5, 6], [7, 8]];
    SourceGeometryEvidence {
        schema_version: SOURCE_GEOMETRY_EVIDENCE_VERSION.to_string(),
        block_polygon: quad,
        line_polygons: vec![quad, quad],
        source_direction: TextDirection::Vertical,
        source_direction_source: "fixture".to_string(),
        source_rotation_deg: 1.5f32.to_bits(),
        detector_evidence: DetectorEvidence {
            detector_id: "fixture-detector".to_string(),
            detector_version: "v1".to_string(),
            config_hash: format!("sha256:{}", "b".repeat(64)),
            block_polygon_confidence: None,
            line_evidence: vec![LineDetectorEvidence { text_confidence: None, polygon_confidence: None }; 2],
            direction_confidence: None,
            rotation_confidence: None,
        },
    }
}

#[test]
fn ids_are_version_7_uuids() {
    let page = PageId::new();
    let node = NodeId::new();
    assert_eq!((page.0 >> 76) & 0xf, 7);
    assert_eq!((node.0 >> 76) & 0xf, 7);
    assert_eq!((page.0 >> 62) & 0x3, 2);
    assert_eq!((node.0 >> 62) & 0x3, 2);
    assert_ne!(page.0, PageId::default().0);
    assert_ne!(node.0, NodeId::default().0);
}

#[test]
fn empty_scene_has_no_pages() {
    let scene = Scene::default();
    assert_eq!(scene.pages.len(), 0);
    assert_eq!(scene.project.name, "");
    assert_eq!(scene.project.created_at, scene.project.updated_at);
}

#[test]
fn project_defaults() {
    let meta = ProjectMeta::default();
    assert_eq!(meta.name, "");
    assert!(meta.created_at.nanoseconds < 2_000_000_000);
    assert!(meta.style.default_font.is_none());
    assert!(ProjectStyle::default().default_font.is_none());
}

#[test]
fn new_page_has_its_name_size_and_no_nodes() {
    let page = Page::new("p1", 800, 600);
    assert_eq!(page.name, "p1");
    assert_eq!(page.width, 800);
    assert_eq!(page.height, 600);
    assert!(page.nodes.is_empty());
    assert_eq!((page.id.0 >> 76) & 0xf, 7);
}

#[test]
fn scene_with_one_page_is_found_by_id() {
    let mut scene = Scene::default();
    scene.project.name = "hello".into();
    let page = Page::new("p1", 800, 600);
    let page_id = page.id;
    scene.pages.insert(page_id.0, page);
    assert_eq!(scene.pages.len(), 1);
    assert_eq!(scene.page(page_id).unwrap().name, "p1");
    assert!(scene.page(PageId::new()).is_none());
}

#[test]
fn source_node_is_the_first_source_image() {
    let mut page = Page::new("p", 10, 10);
    assert!(page.source_node().is_none());
    let custom = node(image(ImageRole::Custom));
    let first_source = node(image(ImageRole::Source));
    let second_source = node(image(ImageRole::Source));
    let first_id = first_source.id;
    page.nodes.insert(custom.id.0, custom);
    page.nodes.insert(NodeId::new().0, node(NodeKind::Mask(MaskData {
        role: MaskRole::Segment,
        blob: BlobRef("m".to_string()),
    })));
    page.nodes.insert(first_id.0, first_source);
    page.nodes.insert(second_source.id.0, second_source);
    let (id, found) = page.source_node().unwrap();
    assert_eq!(id, first_id);
    assert_eq!(found.id, first_id);
}

#[test]
fn page_mut_and_node_mut_change_in_place() {
    let mut scene = Scene::default();
    let mut page = Page::new("before", 4, 4);
    let page_id = page.id;
    let text = node(NodeKind::Text(TextData::default()));
    let text_id = text.id;
    page.nodes.insert(text_id.0, text);
    scene.pages.insert(page_id.0, page);

    scene.page_mut(page_id).unwrap().name = "after".to_string();
    assert_eq!(scene.page(page_id).unwrap().name, "after");
    scene.node_mut(page_id, text_id).unwrap().visible = false;
    assert!(!scene.node(page_id, text_id).unwrap().visible);
    assert!(scene.node(page_id, NodeId::new()).is_none());
    assert!(scene.node(PageId::new(), text_id).is_none());
    assert!(scene.page_mut(PageId::new()).is_none());
    assert!(scene.node_mut(page_id, NodeId::new()).is_none());
}

#[test]
fn discriminant_names_the_kind() {
    assert_eq!(image(ImageRole::Rendered).discriminant(), NodeKindTag::Image);
    assert_eq!(NodeKind::Text(TextData::default()).discriminant(), NodeKindTag::Text);
    let mask = NodeKind::Mask(MaskData { role: MaskRole::Bubble, blob: BlobRef("b".into()) });
    assert_eq!(mask.discriminant(), NodeKindTag::Mask);
}

#[test]
fn recorded_source_values_prefer_source_geometry() {
    let legacy_quad = [[9, 9], [9, 9], [9, 9], [9, 9]];
    let mut text = TextData {
        source_direction: Some(TextDirection::Horizontal),
        line_polygons: Some(vec![legacy_quad]),
        rotation_deg: Some(0),
        detector: Some("legacy".to_string()),
        ..TextData::default()
    };
    assert_eq!(text.source_line_polygons(), Some(&[legacy_quad][..]));
    assert_eq!(text.recorded_source_direction(), Some(TextDirection::Horizontal));
    assert_eq!(text.recorded_source_rotation_deg(), Some(0));
    assert_eq!(text.recorded_detector_id(), Some("legacy"));

    text.source_geometry = Some(geometry());
    assert_eq!(text.source_line_polygons().unwrap().len(), 2);
    assert_eq!(text.recorded_source_direction(), Some(TextDirection::Vertical));
    assert_eq!(text.recorded_source_rotation_deg(), Some(1.5f32.to_bits()));
    assert_eq!(text.recorded_detector_id(), Some("fixture-detector"));

    let empty = TextData::default();
    assert!(empty.source_line_polygons().is_none());
    assert!(empty.recorded_source_direction().is_none());
    assert!(empty.recorded_source_rotation_deg().is_none());
    assert!(empty.recorded_detector_id().is_none());
    assert!(!empty.lock_layout_box);
}
