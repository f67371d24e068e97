//! Import of a whole infrastructure document in one transaction.
//!
//! The import is a state machine: it tells the caller which statement to
//! issue next inside the open transaction (create the parent row, insert a
//! chunk of a child collection, commit), and takes back what the store
//! answered. Any failure ends it with a rollback, so other transactions see
//! either the parent row with every child row, or nothing.
use crate::batch::{
    chunk_count, chunk_plan, chunk_size, lemma_chunk_bounds, lemma_chunk_count,
    plan_chunks, records_in_chunks, spec_chunk_size, ChunkRange, MAX_BIND_PARAMETERS,
};
use crate::infra::{Infra, InfraError, InfraModel, RAILJSON_VERSION};
use crate::primitives::ObjectType;
use vstd::prelude::*;

verus! {

/// Bindable fields of a stored child object: its identifier, its data and
/// the identifier of its infrastructure.
pub const OBJECT_FIELD_COUNT: usize = 3;

/// One child collection of a document: its kind and its number of records.
#[derive(Clone, Copy, Debug, PartialEq, Eq, Structural)]
pub struct Collection {
    pub kind: ObjectType,
    pub len: usize,
}

/// What an import needs of a document: its declared format version and its
/// child collections, in the order in which they are written.
pub struct RailJson {
    pub version: String,
    pub collections: Vec<Collection>,
}

/// The kinds of child objects, in the order in which an import writes them.
pub open spec fn import_kinds() -> Seq<ObjectType> {
    seq![
        ObjectType::BufferStop,
        ObjectType::Catenary,
        ObjectType::Detector,
        ObjectType::OperationalPoint,
        ObjectType::Route,
        ObjectType::Signal,
        ObjectType::Switch,
        ObjectType::SpeedSection,
        ObjectType::SwitchType,
        ObjectType::TrackSectionLink,
        ObjectType::TrackSection,
    ]
}

impl RailJson {
    /// A document of format version `version` with this many objects of
    /// each kind, its collections listed in the order of `import_kinds`.
    #[allow(clippy::too_many_arguments)]
    pub fn new(
        version: String,
        buffer_stops: usize,
        catenaries: usize,
        detectors: usize,
        operational_points: usize,
        routes: usize,
        signals: usize,
        switches: usize,
        speed_sections: usize,
        switch_types: usize,
        track_section_links: usize,
        track_sections: usize,
    ) -> (r: RailJson)
        ensures
            r.version@ == version@,
            r.collections@.map_values(|c: Collection| c.kind) == import_kinds(),
            r.collections@.map_values(|c: Collection| c.len) == seq![
                buffer_stops,
                catenaries,
                detectors,
                operational_points,
                routes,
                signals,
                switches,
                speed_sections,
                switch_types,
                track_section_links,
                track_sections,
            ],
    {
        let collections = vec![
            Collection { kind: ObjectType::BufferStop, len: buffer_stops },
            Collection { kind: ObjectType::Catenary, len: catenaries },
            Collection { kind: ObjectType::Detector, len: detectors },
            Collection { kind: ObjectType::OperationalPoint, len: operational_points },
            Collection { kind: ObjectType::Route, len: routes },
            Collection { kind: ObjectType::Signal, len: signals },
            Collection { kind: ObjectType::Switch, len: switches },
            Collection { kind: ObjectType::SpeedSection, len: speed_sections },
            Collection { kind: ObjectType::SwitchType, len: switch_types },
            Collection { kind: ObjectType::TrackSectionLink, len: track_section_links },
            Collection { kind: ObjectType::TrackSection, len: track_sections },
        ];
        proof {
            assert(collections@.map_values(|c: Collection| c.kind) =~= import_kinds());
            assert(collections@.map_values(|c: Collection| c.len) =~= seq![
                buffer_stops,
                catenaries,
                detectors,
                operational_points,
                routes,
                signals,
                switches,
                speed_sections,
                switch_types,
                track_section_links,
                track_sections,
            ]);
        }
        RailJson { version, collections }
    }
}

/// One insert statement of an import.
#[derive(Clone, Copy, Debug, PartialEq, Eq, Structural)]
pub struct ChunkWrite {
    pub kind: ObjectType,
    pub chunk: ChunkRange,
}

/// The inserts that write collection `c`, in order.
pub open spec fn collection_writes(c: Collection, size: nat) -> Seq<ChunkWrite> {
    chunk_plan(c.len as nat, size).map_values(|r: ChunkRange| ChunkWrite { kind: c.kind, chunk: r })
}

/// The inserts that write `cols`, one collection after the other.
pub open spec fn import_writes(cols: Seq<Collection>, size: nat) -> Seq<ChunkWrite>
    decreases cols.len(),
{
    if cols.len() == 0 {
        Seq::empty()
    } else {
        import_writes(cols.drop_last(), size) + collection_writes(cols.last(), size)
    }
}

/// Number of records of `cols`.
pub open spec fn total_records(cols: Seq<Collection>) -> nat
    decreases cols.len(),
{
    if cols.len() == 0 {
        0
    } else {
        total_records(cols.drop_last()) + cols.last().len as nat
    }
}

/// Number of records that the inserts `ws` write.
pub open spec fn rows_in(ws: Seq<ChunkWrite>) -> nat
    decreases ws.len(),
{
    if ws.len() == 0 {
        0
    } else {
        rows_in(ws.drop_last()) + (ws.last().chunk.end - ws.last().chunk.start) as nat
    }
}

/// Number of inserts that write `cols`: for each collection, its record count
/// divided by the chunk size, rounded up.
pub open spec fn write_count(cols: Seq<Collection>, size: nat) -> nat
    decreases cols.len(),
{
    if cols.len() == 0 {
        0
    } else {
        write_count(cols.drop_last(), size) + chunk_count(cols.last().len as nat, size)
    }
}

proof fn lemma_rows_in_concat(a: Seq<ChunkWrite>, b: Seq<ChunkWrite>)
    ensures
        rows_in(a + b) == rows_in(a) + rows_in(b),
    decreases b.len(),
{
    if b.len() > 0 {
        lemma_rows_in_concat(a, b.drop_last());
        assert((a + b).drop_last() =~= a + b.drop_last());
    } else {
        assert(a + b =~= a);
    }
}

proof fn lemma_collection_rows_prefix(c: Collection, size: nat, k: nat)
    requires
        size > 0,
        k <= chunk_count(c.len as nat, size),
    ensures
        rows_in(collection_writes(c, size).take(k as int)) == records_in_chunks(k, c.len as nat, size),
    decreases k,
{
    let ws = collection_writes(c, size);
    if k == 0 {
        assert(ws.take(0) =~= Seq::<ChunkWrite>::empty());
    } else {
        lemma_collection_rows_prefix(c, size, (k - 1) as nat);
        lemma_chunk_bounds(c.len as nat, size, (k - 1) as nat);
        assert(ws.take(k as int).drop_last() =~= ws.take(k - 1));
    }
}

/// The inserts of a collection write each of its records once.
proof fn lemma_collection_rows(c: Collection, size: nat)
    requires
        size > 0,
    ensures
        rows_in(collection_writes(c, size)) == c.len,
        collection_writes(c, size).len() == chunk_count(c.len as nat, size),
{
    let n = chunk_count(c.len as nat, size);
    lemma_collection_rows_prefix(c, size, n);
    lemma_chunk_count(c.len as nat, size, n);
    assert(collection_writes(c, size).take(n as int) =~= collection_writes(c, size));
}

/// The inserts of an import write every record of the document once, in
/// `write_count` statements.
pub proof fn lemma_import_rows(cols: Seq<Collection>, size: nat)
    requires
        size > 0,
    ensures
        rows_in(import_writes(cols, size)) == total_records(cols),
        import_writes(cols, size).len() == write_count(cols, size),
    decreases cols.len(),
{
    if cols.len() > 0 {
        lemma_import_rows(cols.drop_last(), size);
        lemma_collection_rows(cols.last(), size);
        lemma_rows_in_concat(import_writes(cols.drop_last(), size), collection_writes(cols.last(), size));
    }
}

/// Where an import stands.
#[derive(Clone, Copy, Debug, PartialEq, Eq, Structural)]
pub enum ImportPhase {
    /// The parent row is to be created.
    CreatingParent,
    /// Child chunks are being inserted, then the transaction committed.
    Writing,
    /// The transaction committed: the import is visible.
    Committed,
    /// The transaction was rolled back: nothing of the import is visible.
    RolledBack,
}

/// What the store answered to the last action.
#[derive(Clone, Debug, PartialEq, Eq)]
pub enum ImportEvent {
    /// The parent row was created under this identifier.
    ParentCreated(i64),
    /// The last chunk was inserted; the store returned this many rows.
    ChunkInserted(usize),
    /// The transaction committed.
    Committed,
    /// The last statement failed.
    Failed(InfraError),
}

/// The next thing to do with the store.
#[derive(Clone, Debug, PartialEq, Eq)]
pub enum ImportAction {
    /// Insert the parent row (`Import::parent`) in the open transaction.
    CreateParent,
    /// Insert these records of a child collection for this infrastructure.
    InsertChunk { infra_id: i64, kind: ObjectType, chunk: ChunkRange },
    /// Commit the transaction.
    Commit,
    /// Roll the transaction back; the import failed with this error.
    Rollback(InfraError),
    /// The import is committed under this identifier.
    Finished(i64),
}

/// What one event does to an import: the collections, chunk size and parent
/// row never change; a finished import ignores events; creating the parent
/// starts the writes; each chunk inserted with one row per record moves to
/// the next; the commit after the last chunk makes the import visible;
/// a failure, or an answer that does not fit, rolls it back.
pub open spec fn event_effect(before: Import, event: ImportEvent, after: Import) -> bool {
    let rolled_back_with = |e: InfraError|
        after.phase() == ImportPhase::RolledBack && after.error() == Some(e);
    &&& after.collections() == before.collections()
    &&& after.size() == before.size()
    &&& after.parent_row() == before.parent_row()
    &&& match before.phase() {
        ImportPhase::Committed | ImportPhase::RolledBack => after == before,
        ImportPhase::CreatingParent => match event {
            ImportEvent::ParentCreated(id) => {
                &&& after.phase() == ImportPhase::Writing
                &&& after.infra_id() == id
                &&& after.writes_done() == 0
                &&& after.rows_written() == 1
            },
            ImportEvent::Failed(e) => rolled_back_with(e),
            _ => rolled_back_with(InfraError::ConsistencyCorruption),
        },
        ImportPhase::Writing => if before.writes_done() < before.writes().len() {
            match event {
                ImportEvent::ChunkInserted(n) => if n == before.writes()[before.writes_done() as int]
                    .chunk
                    .len() {
                    &&& after.phase() == ImportPhase::Writing
                    &&& after.infra_id() == before.infra_id()
                    &&& after.writes_done() == before.writes_done() + 1
                    &&& after.rows_written() == before.rows_written() + n
                } else {
                    rolled_back_with(InfraError::ConsistencyCorruption)
                },
                ImportEvent::Failed(e) => rolled_back_with(e),
                _ => rolled_back_with(InfraError::ConsistencyCorruption),
            }
        } else {
            match event {
                ImportEvent::Committed => {
                    &&& after.phase() == ImportPhase::Committed
                    &&& after.infra_id() == before.infra_id()
                    &&& after.rows_written() == 1 + total_records(before.collections())
                },
                ImportEvent::Failed(e) => rolled_back_with(e),
                _ => rolled_back_with(InfraError::ConsistencyCorruption),
            }
        },
    }
}

/// An import in progress.
pub struct Import {
    parent: Infra,
    collections: Vec<Collection>,
    size: usize,
    writes: Vec<ChunkWrite>,
    phase: ImportPhase,
    infra_id: i64,
    next: usize,
    error: Option<InfraError>,
    written: Ghost<nat>,
}

impl Import {
    /// The collections of the document.
    pub closed spec fn collections(&self) -> Seq<Collection> {
        self.collections@
    }

    /// Records per insert statement.
    pub closed spec fn size(&self) -> nat {
        self.size as nat
    }

    pub closed spec fn phase(&self) -> ImportPhase {
        self.phase
    }

    /// The parent row to create.
    pub closed spec fn parent_row(&self) -> InfraModel {
        self.parent@
    }

    /// Inserts done so far.
    pub closed spec fn writes_done(&self) -> nat {
        self.next as nat
    }

    /// The identifier of the created parent row.
    pub closed spec fn infra_id(&self) -> i64 {
        self.infra_id
    }

    /// The error that ended the import in a rollback.
    pub closed spec fn error(&self) -> Option<InfraError> {
        self.error
    }

    /// Rows written in the open transaction: the parent and child rows.
    pub closed spec fn rows_written(&self) -> nat {
        self.written@
    }

    /// The inserts of the import, in order.
    pub open spec fn writes(&self) -> Seq<ChunkWrite> {
        import_writes(self.collections(), self.size())
    }

    /// Rows that other transactions can see.
    pub open spec fn visible_rows(&self) -> nat {
        if self.phase() == ImportPhase::Committed {
            self.rows_written()
        } else {
            0
        }
    }

    pub closed spec fn wf(&self) -> bool {
        &&& self.size > 0
        &&& self.writes@ == import_writes(self.collections@, self.size as nat)
        &&& self.next <= self.writes@.len()
        &&& self.phase == ImportPhase::CreatingParent ==> self.next == 0 && self.written@ == 0
        &&& self.phase == ImportPhase::Writing ==> self.written@ == 1 + rows_in(
            self.writes@.take(self.next as int),
        )
        &&& self.phase == ImportPhase::Committed ==> self.written@ == 1 + total_records(
            self.collections@,
        )
        &&& self.phase == ImportPhase::RolledBack <==> self.error is Some
    }

    /// The parent row to create.
    pub fn parent(&self) -> (r: &Infra)
        ensures
            r@ == self.parent_row(),
    {
        &self.parent
    }

    /// The next thing to do with the store.
    pub fn next_action(&self) -> (r: ImportAction)
        requires
            self.wf(),
        ensures
            self.phase() == ImportPhase::CreatingParent ==> r matches ImportAction::CreateParent,
            self.phase() == ImportPhase::Writing && self.writes_done() < self.writes().len() ==> r
                == (ImportAction::InsertChunk {
                infra_id: self.infra_id(),
                kind: self.writes()[self.writes_done() as int].kind,
                chunk: self.writes()[self.writes_done() as int].chunk,
            }),
            self.phase() == ImportPhase::Writing && self.writes_done() == self.writes().len() ==> r
                matches ImportAction::Commit,
            self.phase() == ImportPhase::Committed ==> r == ImportAction::Finished(self.infra_id()),
            self.phase() == ImportPhase::RolledBack ==> r == ImportAction::Rollback(
                self.error().unwrap(),
            ),
    {
        match self.phase {
            ImportPhase::CreatingParent => ImportAction::CreateParent,
            ImportPhase::Writing => {
                if self.next < self.writes.len() {
                    let w = self.writes[self.next];
                    ImportAction::InsertChunk { infra_id: self.infra_id, kind: w.kind, chunk: w.chunk }
                } else {
                    ImportAction::Commit
                }
            },
            ImportPhase::Committed => ImportAction::Finished(self.infra_id),
            ImportPhase::RolledBack => match &self.error {
                Some(e) => ImportAction::Rollback(e.duplicate()),
                None => ImportAction::Rollback(InfraError::ConsistencyCorruption),
            },
        }
    }

    /// Takes what the store answered to `next_action`.
    ///
    /// A failure, or an answer that does not fit the action, ends the import
    /// in a rollback; once committed or rolled back, the import ignores
    /// further events.
    pub fn on_event(&mut self, event: ImportEvent)
        requires
            old(self).wf(),
        ensures
            final(self).wf(),
            event_effect(*old(self), event, *final(self)),
    {
        match self.phase {
            ImportPhase::Committed | ImportPhase::RolledBack => {},
            ImportPhase::CreatingParent => match event {
                ImportEvent::ParentCreated(id) => {
                    self.infra_id = id;
                    self.phase = ImportPhase::Writing;
                    self.written = Ghost(1);
                    proof {
                        assert(self.writes@.take(0) =~= Seq::<ChunkWrite>::empty());
                    }
                },
                ImportEvent::Failed(e) => self.roll_back(e),
                _ => self.roll_back(InfraError::ConsistencyCorruption),
            },
            ImportPhase::Writing => {
                if self.next < self.writes.len() {
                    match event {
                        ImportEvent::ChunkInserted(n) => {
                            let w = self.writes[self.next];
                            proof {
                                lemma_write_in_bounds(
                                    self.collections@,
                                    self.size as nat,
                                    self.next as int,
                                );
                            }
                            if n == w.chunk.end - w.chunk.start {
                                proof {
                                    assert(self.writes@.take(self.next + 1).drop_last()
                                        =~= self.writes@.take(self.next as int));
                                }
                                self.next = self.next + 1;
                                self.written = Ghost(self.written@ + n as nat);
                            } else {
                                self.roll_back(InfraError::ConsistencyCorruption);
                            }
                        },
                        ImportEvent::Failed(e) => self.roll_back(e),
                        _ => self.roll_back(InfraError::ConsistencyCorruption),
                    }
                } else {
                    match event {
                        ImportEvent::Committed => {
                            proof {
                                lemma_import_rows(self.collections@, self.size as nat);
                                assert(self.writes@.take(self.next as int) =~= self.writes@);
                            }
                            self.phase = ImportPhase::Committed;
                        },
                        ImportEvent::Failed(e) => self.roll_back(e),
                        _ => self.roll_back(InfraError::ConsistencyCorruption),
                    }
                }
            },
        }
    }

    fn roll_back(&mut self, e: InfraError)
        requires
            old(self).wf(),
            old(self).phase() == ImportPhase::CreatingParent || old(self).phase()
                == ImportPhase::Writing,
        ensures
            final(self).wf(),
            final(self).collections() == old(self).collections(),
            final(self).size() == old(self).size(),
            final(self).parent_row() == old(self).parent_row(),
            final(self).phase() == ImportPhase::RolledBack,
            final(self).error() == Some(e),
    {
        self.phase = ImportPhase::RolledBack;
        self.error = Some(e);
    }
}

/// Each insert of an import writes a range of records that lies within its
/// collection.
proof fn lemma_write_in_bounds(cols: Seq<Collection>, size: nat, k: int)
    requires
        size > 0,
        0 <= k < import_writes(cols, size).len(),
    ensures
        import_writes(cols, size)[k].chunk.start <= import_writes(cols, size)[k].chunk.end,
    decreases cols.len(),
{
    let prefix = import_writes(cols.drop_last(), size);
    if k < prefix.len() {
        lemma_write_in_bounds(cols.drop_last(), size, k);
    } else {
        let c = cols.last();
        lemma_collection_rows(c, size);
        lemma_chunk_bounds(c.len as nat, size, (k - prefix.len()) as nat);
    }
}

/// A failed statement, the parent insert or any chunk insert, rolls the
/// import back: afterwards no row of it, parent or child, is visible.
pub proof fn lemma_failed_write_leaves_nothing(before: Import, e: InfraError, after: Import)
    requires
        before.wf(),
        before.phase() == ImportPhase::CreatingParent || before.phase() == ImportPhase::Writing,
        event_effect(before, ImportEvent::Failed(e), after),
    ensures
        after.phase() == ImportPhase::RolledBack,
        after.error() == Some(e),
        after.visible_rows() == 0,
{
}

/// The commit after the last chunk makes the whole import visible: the parent
/// row and one child row per record of the document, `1 + total_records`
/// rows, written by `write_count` chunk inserts.
pub proof fn lemma_commit_shows_whole_import(before: Import, after: Import)
    requires
        before.wf(),
        before.phase() == ImportPhase::Writing,
        before.writes_done() == before.writes().len(),
        event_effect(before, ImportEvent::Committed, after),
    ensures
        after.phase() == ImportPhase::Committed,
        after.infra_id() == before.infra_id(),
        after.visible_rows() == 1 + total_records(before.collections()),
        rows_in(before.writes()) == total_records(before.collections()),
        before.writes().len() == write_count(before.collections(), before.size()),
{
    lemma_import_rows(before.collections(), before.size());
}

/// Other transactions see an import whole or not at all: at every step,
/// either no row of it is visible, or it committed and the parent row with
/// every child row of the document is visible. Before it commits, nothing is.
pub proof fn lemma_import_all_or_nothing(imp: Import)
    requires
        imp.wf(),
    ensures
        imp.visible_rows() == 0 || imp.visible_rows() == 1 + total_records(imp.collections()),
        imp.phase() != ImportPhase::Committed ==> imp.visible_rows() == 0,
        imp.phase() == ImportPhase::Committed ==> imp.visible_rows() == 1 + total_records(
            imp.collections(),
        ),
{
}

impl Infra {
    /// Starts importing `railjson` as a new infrastructure described by this
    /// row. A document of another format version is refused before any
    /// statement is issued. The parent row is created with content version
    /// `"0"` and derived data never generated; the child collections, one
    /// per kind in the order of `import_kinds` (as `RailJson::new` lists
    /// them), are then written in that order, in chunks that fit the
    /// statement parameter limit.
    pub fn persist(self, railjson: RailJson) -> (r: Result<Import, InfraError>)
        requires
            railjson.collections@.map_values(|c: Collection| c.kind) == import_kinds(),
        ensures
            railjson.version@ != RAILJSON_VERSION@ <==> r is Err,
            r is Err ==> (r matches Err(InfraError::FormatVersionMismatch { found }) && found@
                == railjson.version@),
            r matches Ok(imp) ==> {
                &&& imp.wf()
                &&& imp.phase() == ImportPhase::CreatingParent
                &&& imp.collections() == railjson.collections@
                &&& imp.size() == spec_chunk_size(
                    MAX_BIND_PARAMETERS as nat,
                    OBJECT_FIELD_COUNT as nat,
                )
                &&& imp.parent_row() == (InfraModel {
                    id: None,
                    railjson_version: RAILJSON_VERSION@,
                    version: crate::infra::decimal_text(0),
                    generated_version: None,
                    ..self@
                })
                &&& imp.rows_written() == 0
                &&& imp.visible_rows() == 0
            },
    {
        let supported = String::from_str(RAILJSON_VERSION);
        if railjson.version != supported {
            return Err(InfraError::FormatVersionMismatch { found: railjson.version });
        }
        let size = match chunk_size(MAX_BIND_PARAMETERS, OBJECT_FIELD_COUNT) {
            Ok(s) => s,
            Err(_) => return Err(InfraError::ConsistencyCorruption),
        };
        let cols = railjson.collections;
        let mut writes: Vec<ChunkWrite> = Vec::new();
        let mut i: usize = 0;
        while i < cols.len()
            invariant
                size > 0,
                i <= cols@.len(),
                writes@ == import_writes(cols@.take(i as int), size as nat),
            decreases cols@.len() - i,
        {
            let c = cols[i];
            let plan = plan_chunks(c.len, size);
            let mut j: usize = 0;
            while j < plan.len()
                invariant
                    size > 0,
                    i < cols@.len(),
                    c == cols@[i as int],
                    plan@ == chunk_plan(c.len as nat, size as nat),
                    j <= plan@.len(),
                    writes@ == import_writes(cols@.take(i as int), size as nat) + collection_writes(
                        c,
                        size as nat,
                    ).take(j as int),
                decreases plan@.len() - j,
            {
                writes.push(ChunkWrite { kind: c.kind, chunk: plan[j] });
                proof {
                    assert(collection_writes(c, size as nat).take(j + 1) =~= collection_writes(
                        c,
                        size as nat,
                    ).take(j as int).push(ChunkWrite { kind: c.kind, chunk: plan@[j as int] }));
                }
                j = j + 1;
            }
            proof {
                assert(cols@.take(i + 1).drop_last() =~= cols@.take(i as int));
                assert(collection_writes(c, size as nat).take(j as int) =~= collection_writes(
                    c,
                    size as nat,
                ));
            }
            i = i + 1;
        }
        proof {
            assert(cols@.take(cols@.len() as int) =~= cols@);
        }
        let mut parent = self;
        parent.id = None;
        parent.railjson_version = supported;
        parent.version = String::from_str("0");
        parent.generated_version = None;
        proof {
            reveal_strlit("0");
            assert(parent.version@ =~= crate::infra::decimal_text(0));
        }
        Ok(
            Import {
                parent,
                collections: cols,
                size,
                writes,
                phase: ImportPhase::CreatingParent,
                infra_id: 0,
                next: 0,
                error: None,
                written: Ghost(0),
            },
        )
    }
}

} // verus!
