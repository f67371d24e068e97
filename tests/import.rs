use editoast::batch::ChunkRange;
use editoast::infra::{Infra, InfraError};
use editoast::persist::{ImportAction, ImportEvent, RailJson};
use editoast::primitives::ObjectType;

/// A document with this many buffer stops, routes, signals and switches.
fn document(
    version: &str,
    buffer_stops: usize,
    routes: usize,
    signals: usize,
    switches: usize,
) -> RailJson {
    RailJson::new(version.to_string(), buffer_stops, 0, 0, 0, routes, signals, switches, 0, 0, 0, 0)
}

fn infra() -> Infra {
    Infra::new("test".to_string(), 0, 1)
}

#[test]
fn wrong_format_version_is_refused() {
    let doc = document("2.0.0", 0, 3, 0, 0);
    match infra().persist(doc) {
        Err(InfraError::FormatVersionMismatch { found }) => assert_eq!(found, "2.0.0"),
        _ => panic!("expected a format version mismatch"),
    }
}

#[test]
fn import_writes_parent_then_every_chunk() {
    let doc = document("3.2.0", 2, 50000, 0, 0);
    let mut import = infra().persist(doc).unwrap();
    assert_eq!(import.parent().version, "0");
    assert_eq!(import.parent().generated_version, None);
    assert!(matches!(import.next_action(), ImportAction::CreateParent));
    import.on_event(ImportEvent::ParentCreated(9));
    let mut inserts = Vec::new();
    let mut rows = 0;
    loop {
        match import.next_action() {
            ImportAction::InsertChunk { infra_id, kind, chunk } => {
                assert_eq!(infra_id, 9);
                inserts.push((kind, chunk));
                rows += chunk.end - chunk.start;
                import.on_event(ImportEvent::ChunkInserted(chunk.end - chunk.start));
            }
            ImportAction::Commit => import.on_event(ImportEvent::Committed),
            ImportAction::Finished(id) => {
                assert_eq!(id, 9);
                break;
            }
            other => panic!("unexpected action {:?}", other),
        }
    }
    assert_eq!(import.next_action(), ImportAction::Finished(9));
    assert_eq!(rows, 50002);
    assert_eq!(
        inserts,
        vec![
            (ObjectType::BufferStop, ChunkRange { start: 0, end: 2 }),
            (ObjectType::Route, ChunkRange { start: 0, end: 21845 }),
            (ObjectType::Route, ChunkRange { start: 21845, end: 43690 }),
            (ObjectType::Route, ChunkRange { start: 43690, end: 50000 }),
        ]
    );
}

#[test]
fn empty_document_commits_parent_alone() {
    let mut import = infra().persist(document("3.2.0", 0, 0, 0, 0)).unwrap();
    import.on_event(ImportEvent::ParentCreated(1));
    assert!(matches!(import.next_action(), ImportAction::Commit));
    import.on_event(ImportEvent::Committed);
    assert!(matches!(import.next_action(), ImportAction::Finished(1)));
}

#[test]
fn failed_chunk_rolls_back() {
    let doc = document("3.2.0", 0, 0, 30000, 0);
    let mut import = infra().persist(doc).unwrap();
    import.on_event(ImportEvent::ParentCreated(4));
    import.on_event(ImportEvent::ChunkInserted(21845));
    assert!(matches!(
        import.next_action(),
        ImportAction::InsertChunk { chunk: ChunkRange { start: 21845, end: 30000 }, .. }
    ));
    import.on_event(ImportEvent::Failed(InfraError::ConstraintViolation));
    assert_eq!(import.next_action(), ImportAction::Rollback(InfraError::ConstraintViolation));
    // A rolled back import stays rolled back.
    import.on_event(ImportEvent::Committed);
    assert_eq!(import.next_action(), ImportAction::Rollback(InfraError::ConstraintViolation));
}

#[test]
fn failed_parent_rolls_back() {
    let mut import = infra().persist(document("3.2.0", 0, 0, 0, 0)).unwrap();
    import.on_event(ImportEvent::Failed(InfraError::ConnectionExhausted));
    assert_eq!(import.next_action(), ImportAction::Rollback(InfraError::ConnectionExhausted));
}

#[test]
fn unexpected_answer_rolls_back() {
    let doc = document("3.2.0", 0, 0, 0, 3);
    let mut import = infra().persist(doc).unwrap();
    import.on_event(ImportEvent::ParentCreated(4));
    import.on_event(ImportEvent::ChunkInserted(2));
    assert_eq!(import.next_action(), ImportAction::Rollback(InfraError::ConsistencyCorruption));
}

#[test]
fn commit_before_last_chunk_rolls_back() {
    let doc = document("3.2.0", 0, 0, 0, 3);
    let mut import = infra().persist(doc).unwrap();
    import.on_event(ImportEvent::ParentCreated(4));
    import.on_event(ImportEvent::Committed);
    assert_eq!(import.next_action(), ImportAction::Rollback(InfraError::ConsistencyCorruption));
}

#[test]
fn document_lists_kinds_in_import_order() {
    let doc = RailJson::new("3.2.0".to_string(), 1, 2, 3, 4, 5, 6, 7, 8, 9, 10, 11);
    let kinds: Vec<ObjectType> = doc.collections.iter().map(|c| c.kind).collect();
    assert_eq!(
        kinds,
        vec![
            ObjectType::BufferStop,
            ObjectType::Catenary,
            ObjectType::Detector,
            ObjectType::OperationalPoint,
            ObjectType::Route,
            ObjectType::Signal,
            ObjectType::Switch,
            ObjectType::SpeedSection,
            ObjectType::SwitchType,
            ObjectType::TrackSectionLink,
            ObjectType::TrackSection,
        ]
    );
    let lens: Vec<usize> = doc.collections.iter().map(|c| c.len).collect();
    assert_eq!(lens, (1..=11).collect::<Vec<usize>>());
    assert_eq!(doc.version, "3.2.0");
}

#[test]
fn import_follows_kind_order() {
    let doc = RailJson::new("3.2.0".to_string(), 0, 0, 1, 0, 1, 0, 0, 0, 0, 0, 1);
    let mut import = infra().persist(doc).unwrap();
    import.on_event(ImportEvent::ParentCreated(2));
    let mut kinds = Vec::new();
    while let ImportAction::InsertChunk { kind, chunk, .. } = import.next_action() {
        kinds.push(kind);
        import.on_event(ImportEvent::ChunkInserted(chunk.end - chunk.start));
    }
    assert_eq!(kinds, vec![ObjectType::Detector, ObjectType::Route, ObjectType::TrackSection]);
    assert_eq!(import.next_action(), ImportAction::Commit);
}
