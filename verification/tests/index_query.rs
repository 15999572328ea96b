use portus_runtime::ids::Principal;
use portus_runtime::index::Freshness;
use portus_runtime::index_query::{
    index_row_in_scope, index_row_matches, is_evidence_strength, metadata_matches_any, relevant_source,
    text_eq_ignore_ascii_case, IndexQueryFilter, IndexQueryScan, QueryCandidate, RelatedResource,
    RelationKey, TopologyWalk,
};
use portus_runtime::visual::{ControlPathKind, IndexResourceType, IndexSourceKind};

fn no_filter() -> IndexQueryFilter {
    IndexQueryFilter {
        resource_type: None,
        freshness: None,
        source_kind: None,
        application: None,
        provider: None,
        capability: None,
        workspace: None,
        display: None,
        evidence: None,
        changed_since_ms: None,
        control_path: None,
    }
}

fn window(owner: Option<Principal>) -> QueryCandidate {
    QueryCandidate {
        resource_type: IndexResourceType::Window,
        source_kind: IndexSourceKind::X11,
        owner,
        freshness: Freshness::Live,
        updated_at_ms: 50,
        desktop_id: Some("firefox.desktop".to_string()),
        name: Some("Mozilla Firefox".to_string()),
        application_ref: None,
        application_name: None,
        provider_id: None,
        provider_type: None,
        capability_id: None,
        control_paths: vec![ControlPathKind::ProcessWindow],
        relation_evidence: vec!["authoritative".to_string()],
        related: vec![
            RelatedResource { resource_type: IndexResourceType::Workspace, name: Some("2: web".to_string()) },
            RelatedResource { resource_type: IndexResourceType::Display, name: None },
        ],
    }
}

#[test]
fn read_time_filters_follow_owner_type_freshness_and_change_time() {
    let me = Principal::new(1000, 1000);
    let other = Principal::new(1001, 1001);
    let f = no_filter();
    assert!(index_row_in_scope(&f, &window(Some(me)), me));
    assert!(index_row_in_scope(&f, &window(None), me));
    assert!(!index_row_in_scope(&f, &window(Some(other)), me));
    assert!(!index_row_in_scope(&f, &window(Some(other)), Principal::new(0, 0)));
    let mut old = window(None);
    old.freshness = Freshness::Historical;
    assert!(!index_row_in_scope(&f, &old, me));
    let mut f = no_filter();
    f.freshness = Some(Freshness::Historical);
    assert!(index_row_in_scope(&f, &old, me));
    let mut f = no_filter();
    f.changed_since_ms = Some(51);
    assert!(!index_row_in_scope(&f, &window(None), me));
    f.changed_since_ms = Some(50);
    f.resource_type = Some(IndexResourceType::Window);
    f.source_kind = Some(IndexSourceKind::X11);
    assert!(index_row_in_scope(&f, &window(None), me));
    f.source_kind = Some(IndexSourceKind::I3);
    assert!(!index_row_in_scope(&f, &window(None), me));
}

#[test]
fn row_filters_read_their_own_metadata_keys_and_relations() {
    let w = window(None);
    let mut f = no_filter();
    f.application = Some("FIREFOX.DESKTOP".to_string());
    assert!(index_row_matches(&f, &w));
    f.application = Some("chromium".to_string());
    assert!(!index_row_matches(&f, &w));
    let mut f = no_filter();
    f.provider = Some("firefox.desktop".to_string());
    assert!(!index_row_matches(&f, &w));
    let mut f = no_filter();
    f.control_path = Some(ControlPathKind::ProcessWindow);
    assert!(index_row_matches(&f, &w));
    f.control_path = Some(ControlPathKind::StructuredApi);
    assert!(!index_row_matches(&f, &w));
    let mut f = no_filter();
    f.evidence = Some("authoritative".to_string());
    assert!(index_row_matches(&f, &w));
    f.evidence = Some("inferred".to_string());
    assert!(!index_row_matches(&f, &w));
    let mut f = no_filter();
    f.workspace = Some("2: WEB".to_string());
    assert!(index_row_matches(&f, &w));
    f.workspace = Some("3".to_string());
    assert!(!index_row_matches(&f, &w));
    let mut f = no_filter();
    f.display = Some("eDP-1".to_string());
    assert!(!index_row_matches(&f, &w));
    let mut ws = window(None);
    ws.resource_type = IndexResourceType::Workspace;
    ws.name = Some("3".to_string());
    let mut f = no_filter();
    f.workspace = Some("3".to_string());
    assert!(index_row_matches(&f, &ws));
}

#[test]
fn query_scan_stops_at_the_page_limit_and_resumes_after_the_last_scanned() {
    let mut scan = IndexQueryScan::new(2);
    assert!(scan.wants_chunk());
    let handles: Vec<u64> = (1..=512).collect();
    let mut matches = vec![false; 512];
    matches[3] = true;
    matches[9] = true;
    matches[20] = true;
    let kept = scan.on_chunk(&handles, &matches);
    assert_eq!(kept, vec![3, 9]);
    assert_eq!(scan.scanned, 10);
    assert_eq!(scan.last_scanned, Some(10));
    assert!(!scan.wants_chunk());
    assert_eq!(scan.finish(), (Some(10), false));
}

#[test]
fn query_scan_short_chunk_exhausts_without_cursor() {
    let mut scan = IndexQueryScan::new(5);
    let kept = scan.on_chunk(&vec![7, 8, 9], &vec![true, false, true]);
    assert_eq!(kept, vec![0, 2]);
    assert!(scan.exhausted);
    assert_eq!(scan.finish(), (None, false));
    let mut empty = IndexQueryScan::new(5);
    assert!(empty.on_chunk(&vec![], &vec![]).is_empty());
    assert!(empty.exhausted);
}

#[test]
fn query_scan_is_bounded_by_the_scan_limit() {
    let mut scan = IndexQueryScan::new(200);
    let handles: Vec<u64> = (0..512).collect();
    let matches = vec![false; 512];
    let mut chunks = 0;
    while scan.wants_chunk() {
        scan.on_chunk(&handles, &matches);
        chunks += 1;
    }
    assert_eq!(chunks, 16);
    assert_eq!(scan.scanned, 8192);
    assert_eq!(scan.finish(), (Some(511), true));
}

#[test]
fn relevant_source_and_metadata_matching() {
    assert_eq!(relevant_source(None, Some(IndexResourceType::Display)), Some(IndexSourceKind::I3));
    assert_eq!(
        relevant_source(Some(IndexSourceKind::Proc), Some(IndexResourceType::Window)),
        Some(IndexSourceKind::Proc)
    );
    assert_eq!(relevant_source(None, None), None);
    assert!(text_eq_ignore_ascii_case("Firefox", "firefox"));
    assert!(!text_eq_ignore_ascii_case("Firefox", "firefo"));
    let values = vec![None, Some("org.mozilla.Firefox".to_string()), Some("Firefox".to_string())];
    assert!(metadata_matches_any(&values, "FIREFOX"));
    assert!(!metadata_matches_any(&values, "chrome"));
}

fn rel(from: u64, to: u64, kind: &str) -> RelationKey {
    RelationKey {
        from_handle: from,
        to_handle: to,
        relation_kind: kind.to_string(),
        source_id: "correlation".to_string(),
    }
}

#[test]
fn topology_uses_relations_once_and_remains_bounded() {
    let mut walk = TopologyWalk::new(1, 2, 3);
    let (h, d) = walk.next().unwrap();
    assert_eq!((h, d), (1, 0));
    let step = walk.on_relation(1, &rel(1, 2, "owns"));
    assert!(step.add_relation);
    assert_eq!(step.resolve, Some(2));
    walk.on_resolved(2, d);
    let again = walk.on_relation(1, &rel(1, 2, "owns"));
    assert!(!again.add_relation);
    assert_eq!(again.resolve, None);
    let step = walk.on_relation(1, &rel(3, 1, "runs_on"));
    assert_eq!(step.resolve, Some(3));
    walk.on_resolved(3, d);
    assert_eq!(walk.seen_count(), 3);
    let (h, d) = walk.next().unwrap();
    assert_eq!((h, d), (2, 1));
    let step = walk.on_relation(2, &rel(2, 4, "owns"));
    assert_eq!(step.resolve, None);
    assert!(walk.is_truncated());
    assert_eq!(walk.next(), Some((3, 1)));
    assert_eq!(walk.next(), None);
}

#[test]
fn topology_depth_bound_skips_deep_resources() {
    let mut walk = TopologyWalk::new(1, 1, 10);
    let (_, d) = walk.next().unwrap();
    let step = walk.on_relation(1, &rel(1, 2, "owns"));
    walk.on_resolved(step.resolve.unwrap(), d);
    assert_eq!(walk.next(), None);
}

#[test]
fn evidence_strengths_are_the_three_stored_names() {
    assert!(is_evidence_strength("authoritative"));
    assert!(is_evidence_strength("strong"));
    assert!(is_evidence_strength("heuristic"));
    assert!(!is_evidence_strength("Strong"));
    assert!(!is_evidence_strength(""));
}
