use awos::storage::{
    newest_structurally_valid, prepare_publication, BlockAddress, ObjectId, PublicationError,
    SuperblockV1, TransactionPhase, TransactionRecordV1, OBJECT_ID_BYTES,
};

fn id_a() -> ObjectId {
    ObjectId::new([0xA5; OBJECT_ID_BYTES])
}

fn id_b() -> ObjectId {
    ObjectId::new([0x5A; OBJECT_ID_BYTES])
}

fn tx_id() -> ObjectId {
    ObjectId::new([0xC3; OBJECT_ID_BYTES])
}

fn anchor(generation: u64, root: u64, previous: u64, id: ObjectId) -> SuperblockV1 {
    SuperblockV1::new(
        generation,
        BlockAddress::new(root),
        BlockAddress::new(previous),
        id,
    )
}

fn prepared_transaction(base: u64, next: u64, root: u64) -> TransactionRecordV1 {
    TransactionRecordV1 {
        transaction_id: tx_id(),
        base_generation: base,
        next_generation: next,
        new_root: BlockAddress::new(root),
        new_integrity_root: id_b(),
        phase: TransactionPhase::Prepared,
        reserved: 0,
    }
}

#[test]
fn block_offset_rejects_overflow() {
    assert_eq!(BlockAddress::new(2).byte_offset(), Some(8192));
    assert_eq!(BlockAddress::new(u64::MAX).byte_offset(), None);
}

#[test]
fn recovery_falls_back_when_newer_anchor_is_structurally_corrupt() {
    let old = anchor(41, 100, 90, id_a());
    let mut torn = anchor(42, 120, 100, id_b());
    torn.magic = 0;

    assert_eq!(newest_structurally_valid(&old, &torn), Some(&old));
}

#[test]
fn recovery_selects_newest_valid_generation() {
    let a = anchor(41, 100, 90, id_a());
    let b = anchor(42, 120, 100, id_b());

    assert_eq!(newest_structurally_valid(&a, &b), Some(&b));
}

#[test]
fn transaction_generation_must_advance_exactly_once() {
    let valid = prepared_transaction(7, 8, 200);
    assert!(valid.is_structurally_valid());

    let invalid = TransactionRecordV1 {
        next_generation: 9,
        ..valid
    };
    assert!(!invalid.is_structurally_valid());
}

#[test]
fn publication_preserves_previous_known_good_root() {
    let current = anchor(41, 100, 90, id_a());
    let transaction = prepared_transaction(41, 42, 120);

    let next = prepare_publication(&current, &transaction).expect("valid publication");
    assert_eq!(next.generation, 42);
    assert_eq!(next.committed_root, BlockAddress::new(120));
    assert_eq!(next.previous_root, current.committed_root);
    assert_eq!(next.integrity_root, id_b());
}

#[test]
fn publication_rejects_stale_transaction() {
    let current = anchor(42, 120, 100, id_b());
    let stale = prepared_transaction(41, 42, 130);

    assert_eq!(
        prepare_publication(&current, &stale),
        Err(PublicationError::GenerationMismatch)
    );
}

#[test]
fn publication_rejects_non_prepared_transaction() {
    let current = anchor(41, 100, 90, id_a());
    let transaction = TransactionRecordV1 {
        phase: TransactionPhase::Committed,
        ..prepared_transaction(41, 42, 120)
    };

    assert_eq!(
        prepare_publication(&current, &transaction),
        Err(PublicationError::TransactionNotPrepared)
    );
}

#[test]
fn recovery_changes_generation_only_after_valid_anchor_publication() {
    let stable = anchor(41, 100, 90, id_a());
    let transaction = prepared_transaction(41, 42, 120);

    let mut unpublished_slot = prepare_publication(&stable, &transaction).expect("candidate");
    unpublished_slot.magic = 0;
    assert_eq!(
        newest_structurally_valid(&stable, &unpublished_slot),
        Some(&stable)
    );

    let published = prepare_publication(&stable, &transaction).expect("published candidate");
    assert_eq!(
        newest_structurally_valid(&stable, &published),
        Some(&published)
    );
}

#[derive(Clone, Copy)]
struct PersistenceModel {
    anchor_a: SuperblockV1,
    anchor_b: SuperblockV1,
    candidate_staged: bool,
    candidate_durable: bool,
    transaction_staged: bool,
    transaction_durable: bool,
    staged_anchor_b: Option<SuperblockV1>,
}

impl PersistenceModel {
    fn new(anchor_a: SuperblockV1, anchor_b: SuperblockV1) -> Self {
        Self {
            anchor_a,
            anchor_b,
            candidate_staged: false,
            candidate_durable: false,
            transaction_staged: false,
            transaction_durable: false,
            staged_anchor_b: None,
        }
    }

    fn stage_candidate_objects(&mut self) {
        self.candidate_staged = true;
    }

    fn stage_prepared_transaction(&mut self) {
        self.transaction_staged = true;
    }

    fn stage_anchor(&mut self, anchor: SuperblockV1) {
        self.staged_anchor_b = Some(anchor);
    }

    fn durability_barrier(&mut self) {
        if self.candidate_staged {
            self.candidate_durable = true;
            self.candidate_staged = false;
        }
        if self.transaction_staged {
            self.transaction_durable = true;
            self.transaction_staged = false;
        }
        if let Some(anchor) = self.staged_anchor_b.take() {
            self.anchor_b = anchor;
        }
    }

    fn crash(mut self) -> Self {
        self.candidate_staged = false;
        self.transaction_staged = false;
        self.staged_anchor_b = None;
        self
    }

    fn recovered_generation(&self) -> Option<u64> {
        newest_structurally_valid(&self.anchor_a, &self.anchor_b)
            .map(|anchor| anchor.generation)
    }
}

fn assert_crash_recovers(model: PersistenceModel, expected_generation: u64) {
    let crashed = model.crash();
    assert_eq!(crashed.recovered_generation(), Some(expected_generation));
}

#[test]
fn crash_cut_model_requires_durable_anchor_publication() {
    let stable = anchor(41, 100, 90, id_a());
    let transaction = prepared_transaction(41, 42, 120);
    let published = prepare_publication(&stable, &transaction).expect("publication candidate");

    let mut invalid_spare = anchor(1, 1, 1, id_a());
    invalid_spare.magic = 0;

    let mut model = PersistenceModel::new(stable, invalid_spare);
    assert_crash_recovers(model, 41);

    model.stage_candidate_objects();
    assert_crash_recovers(model, 41);

    model.durability_barrier();
    assert!(model.candidate_durable);
    assert_crash_recovers(model, 41);

    model.stage_prepared_transaction();
    assert_crash_recovers(model, 41);

    model.durability_barrier();
    assert!(model.transaction_durable);
    assert_crash_recovers(model, 41);

    model.stage_anchor(published);
    assert_crash_recovers(model, 41);

    model.durability_barrier();
    assert_eq!(model.recovered_generation(), Some(42));
    assert_crash_recovers(model, 42);
}
