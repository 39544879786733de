//! Crash-safe trial-boot accounting and rollback to the last known-good generation.

use vstd::prelude::*;
use crate::generation::{ObjectId, SuccessfulGeneration};

verus! {

pub const MAX_TRIAL_BOOT_ATTEMPTS: u8 = 7;

/// A bootable generation: its nonzero number and its manifest object.
#[derive(Clone, Copy, Debug, PartialEq, Eq)]
pub struct GenerationLocator {
    generation: u64,
    manifest: ObjectId,
}

impl GenerationLocator {
    pub closed spec fn spec_generation(self) -> u64 {
        self.generation
    }

    pub closed spec fn spec_manifest(self) -> ObjectId {
        self.manifest
    }

    pub fn new(generation: u64, manifest: ObjectId) -> (r: Option<Self>)
        ensures
            r is Some <==> generation != 0,
            r matches Some(l) ==> l.spec_generation() == generation && l.spec_manifest() == manifest,
    {
        if generation == 0 {
            return None;
        }
        Some(Self { generation, manifest })
    }

    pub fn generation(self) -> (r: u64)
        ensures
            r == self.spec_generation(),
    {
        self.generation
    }

    pub fn manifest(self) -> (r: ObjectId)
        ensures
            r == self.spec_manifest(),
    {
        self.manifest
    }

    fn equals(&self, other: &Self) -> (r: bool)
        ensures
            r == (*self == *other),
    {
        self.generation == other.generation && self.manifest.equals(&other.manifest)
    }
}

#[derive(Clone, Copy, Debug, PartialEq, Eq, Structural)]
pub enum BootSelectionState {
    /// A trial generation is eligible for another boot attempt.
    Trial { tries_remaining: u8 },
    /// One attempt has already been consumed and this exact state must be persisted before control
    /// is transferred to the trial generation. `tries_remaining` is the number of future attempts
    /// that remain if the current attempt does not become healthy.
    TrialAttempt { tries_remaining: u8 },
    Successful,
}

/// True for the selection states a record may hold.
pub open spec fn state_is_valid(state: BootSelectionState) -> bool {
    match state {
        BootSelectionState::Trial { tries_remaining } => 1 <= tries_remaining
            <= MAX_TRIAL_BOOT_ATTEMPTS,
        BootSelectionState::TrialAttempt { tries_remaining } => tries_remaining
            < MAX_TRIAL_BOOT_ATTEMPTS,
        BootSelectionState::Successful => true,
    }
}

/// Boot attempts the selected generation may still consume before rollback:
/// the pending attempts of a trial, plus one for an attempt under way.
pub open spec fn attempts_left(state: BootSelectionState) -> int {
    match state {
        BootSelectionState::Trial { tries_remaining } => tries_remaining as int,
        BootSelectionState::TrialAttempt { tries_remaining } => tries_remaining as int,
        BootSelectionState::Successful => 0,
    }
}

#[derive(Clone, Copy, Debug, PartialEq, Eq)]
pub struct BootStateRecord {
    sequence: u64,
    selected: GenerationLocator,
    previous_successful: GenerationLocator,
    rollback_floor: u64,
    state: BootSelectionState,
}

#[derive(Clone, Copy, Debug, PartialEq, Eq, Structural)]
pub enum BootStateError {
    ZeroSequence,
    ZeroRollbackFloor,
    InvalidTrialAttempts,
    NoUsableRecord,
    ConflictingSequence,
    SequenceOverflow,
    NotTrial,
    NotPreparedTrial,
    HealthGenerationMismatch { selected: u64, healthy: u64 },
    HealthRollbackRejected { declared: u64, minimum: u64 },
}

impl BootStateRecord {
    pub closed spec fn spec_sequence(self) -> u64 {
        self.sequence
    }

    pub closed spec fn spec_selected(self) -> GenerationLocator {
        self.selected
    }

    pub closed spec fn spec_previous_successful(self) -> GenerationLocator {
        self.previous_successful
    }

    pub closed spec fn spec_rollback_floor(self) -> u64 {
        self.rollback_floor
    }

    pub closed spec fn spec_state(self) -> BootSelectionState {
        self.state
    }

    #[verifier::type_invariant]
    closed spec fn well_formed(self) -> bool {
        &&& self.sequence != 0
        &&& self.rollback_floor != 0
        &&& state_is_valid(self.state)
    }

    pub fn new(
        sequence: u64,
        selected: GenerationLocator,
        previous_successful: GenerationLocator,
        rollback_floor: u64,
        state: BootSelectionState,
    ) -> (r: Result<Self, BootStateError>)
        ensures
            sequence == 0 ==> r == Err::<Self, _>(BootStateError::ZeroSequence),
            sequence != 0 && rollback_floor == 0 ==> r == Err::<Self, _>(
                BootStateError::ZeroRollbackFloor,
            ),
            sequence != 0 && rollback_floor != 0 && !state_is_valid(state) ==> r == Err::<Self, _>(
                BootStateError::InvalidTrialAttempts,
            ),
            r is Ok <==> sequence != 0 && rollback_floor != 0 && state_is_valid(state),
            r matches Ok(rec) ==> rec.spec_sequence() == sequence && rec.spec_selected() == selected
                && rec.spec_previous_successful() == previous_successful
                && rec.spec_rollback_floor() == rollback_floor && rec.spec_state() == state,
    {
        if sequence == 0 {
            return Err(BootStateError::ZeroSequence);
        }
        if rollback_floor == 0 {
            return Err(BootStateError::ZeroRollbackFloor);
        }
        match state {
            BootSelectionState::Trial { tries_remaining } => {
                if tries_remaining == 0 || tries_remaining > MAX_TRIAL_BOOT_ATTEMPTS {
                    return Err(BootStateError::InvalidTrialAttempts);
                }
            },
            BootSelectionState::TrialAttempt { tries_remaining } => {
                if tries_remaining >= MAX_TRIAL_BOOT_ATTEMPTS {
                    return Err(BootStateError::InvalidTrialAttempts);
                }
            },
            BootSelectionState::Successful => {},
        }
        Ok(Self { sequence, selected, previous_successful, rollback_floor, state })
    }

    pub fn sequence(self) -> (r: u64)
        ensures
            r == self.spec_sequence(),
    {
        self.sequence
    }

    pub fn selected(self) -> (r: GenerationLocator)
        ensures
            r == self.spec_selected(),
    {
        self.selected
    }

    pub fn previous_successful(self) -> (r: GenerationLocator)
        ensures
            r == self.spec_previous_successful(),
    {
        self.previous_successful
    }

    pub fn rollback_floor(self) -> (r: u64)
        ensures
            r == self.spec_rollback_floor(),
    {
        self.rollback_floor
    }

    pub fn state(self) -> (r: BootSelectionState)
        ensures
            r == self.spec_state(),
    {
        self.state
    }

    /// Consumes one trial attempt before transferring control to the selected generation.
    ///
    /// Callers must durably persist the returned record before entering the trial generation. This
    /// makes sudden power loss count as a failed attempt instead of allowing an unbounded reboot
    /// loop on a broken generation.
    pub fn prepare_trial_boot(self) -> (r: Result<Self, BootStateError>)
        ensures
            !(self.spec_state() is Trial) ==> r == Err::<Self, _>(BootStateError::NotTrial),
            self.spec_state() is Trial && self.spec_sequence() == u64::MAX ==> r == Err::<Self, _>(
                BootStateError::SequenceOverflow,
            ),
            r is Ok <==> self.spec_state() is Trial && self.spec_sequence() < u64::MAX,
            r == self.spec_prepare_trial_boot(),
            r matches Ok(next) ==> {
                &&& next.spec_sequence() == self.spec_sequence() + 1
                &&& next.spec_selected() == self.spec_selected()
                &&& next.spec_previous_successful() == self.spec_previous_successful()
                &&& next.spec_rollback_floor() == self.spec_rollback_floor()
                &&& next.spec_state() == BootSelectionState::TrialAttempt {
                    tries_remaining: (self.spec_state()->Trial_tries_remaining - 1) as u8,
                }
                &&& attempts_left(next.spec_state()) == attempts_left(self.spec_state()) - 1
            },
    {
        proof {
            use_type_invariant(&self);
        }
        let tries_remaining = match self.state {
            BootSelectionState::Trial { tries_remaining } => tries_remaining,
            _ => return Err(BootStateError::NotTrial),
        };
        if self.sequence == u64::MAX {
            return Err(BootStateError::SequenceOverflow);
        }
        Ok(
            Self {
                sequence: self.sequence + 1,
                selected: self.selected,
                previous_successful: self.previous_successful,
                rollback_floor: self.rollback_floor,
                state: BootSelectionState::TrialAttempt { tries_remaining: tries_remaining - 1 },
            },
        )
    }

    /// Records that a trial attempt failed.
    ///
    /// A prepared attempt has already been consumed; a trial that failed without a prepared
    /// record consumes one of its attempts now. If future attempts remain, the generation returns
    /// to `Trial`. If the failed attempt was the final one, selection atomically falls back to the
    /// previous known-good generation.
    pub fn after_failed_trial(self) -> (r: Result<Self, BootStateError>)
        ensures
            r == self.spec_after_failed_trial(),
    {
        proof {
            use_type_invariant(&self);
        }
        let tries_remaining = match self.state {
            BootSelectionState::TrialAttempt { tries_remaining } => tries_remaining,
            BootSelectionState::Trial { tries_remaining } => tries_remaining - 1,
            BootSelectionState::Successful => return Err(BootStateError::NotPreparedTrial),
        };
        if self.sequence == u64::MAX {
            return Err(BootStateError::SequenceOverflow);
        }
        let next_sequence = self.sequence + 1;
        if tries_remaining > 0 {
            return Ok(
                Self {
                    sequence: next_sequence,
                    selected: self.selected,
                    previous_successful: self.previous_successful,
                    rollback_floor: self.rollback_floor,
                    state: BootSelectionState::Trial { tries_remaining },
                },
            );
        }
        Ok(
            Self {
                sequence: next_sequence,
                selected: self.previous_successful,
                previous_successful: self.previous_successful,
                rollback_floor: self.rollback_floor,
                state: BootSelectionState::Successful,
            },
        )
    }

    /// Treats an interrupted attempt exactly like a reported failure.
    ///
    /// This is the boot-time path used after reset or power loss when the persisted record still
    /// says `TrialAttempt`: the prior attempt was consumed before transfer but never promoted.
    pub fn after_interrupted_trial(self) -> (r: Result<Self, BootStateError>)
        ensures
            r == self.spec_after_failed_trial(),
    {
        self.after_failed_trial()
    }

    /// The unique outcome of preparing a trial boot: one attempt of a trial is
    /// consumed in a record one sequence number newer.
    pub open spec fn spec_prepare_trial_boot(self) -> Result<Self, BootStateError> {
        match self.spec_state() {
            BootSelectionState::Trial { tries_remaining } => if self.spec_sequence() == u64::MAX {
                Err(BootStateError::SequenceOverflow)
            } else {
                Ok(
                    Self::spec_record(
                        (self.spec_sequence() + 1) as u64,
                        self.spec_selected(),
                        self.spec_previous_successful(),
                        self.spec_rollback_floor(),
                        BootSelectionState::TrialAttempt { tries_remaining: (tries_remaining - 1) as u8 },
                    ),
                )
            },
            _ => Err(BootStateError::NotTrial),
        }
    }

    /// Attempts left once a failed attempt is counted: none is counted again for
    /// a prepared attempt, one is consumed for a trial; nothing for a record that
    /// is not on trial.
    pub open spec fn spec_tries_after_failure(self) -> Option<int> {
        match self.spec_state() {
            BootSelectionState::TrialAttempt { tries_remaining } => Some(tries_remaining as int),
            BootSelectionState::Trial { tries_remaining } => Some(tries_remaining - 1),
            BootSelectionState::Successful => None,
        }
    }

    /// The unique outcome of recording a failed attempt: the trial continues
    /// while attempts remain, and otherwise the previous known-good generation
    /// is selected again, in a record one sequence number newer.
    pub open spec fn spec_after_failed_trial(self) -> Result<Self, BootStateError> {
        match self.spec_tries_after_failure() {
            None => Err(BootStateError::NotPreparedTrial),
            Some(tries) => if self.spec_sequence() == u64::MAX {
                Err(BootStateError::SequenceOverflow)
            } else if tries > 0 {
                Ok(
                    Self::spec_record(
                        (self.spec_sequence() + 1) as u64,
                        self.spec_selected(),
                        self.spec_previous_successful(),
                        self.spec_rollback_floor(),
                        BootSelectionState::Trial { tries_remaining: tries as u8 },
                    ),
                )
            } else {
                Ok(
                    Self::spec_record(
                        (self.spec_sequence() + 1) as u64,
                        self.spec_previous_successful(),
                        self.spec_previous_successful(),
                        self.spec_rollback_floor(),
                        BootSelectionState::Successful,
                    ),
                )
            },
        }
    }

    /// The record with exactly these fields.
    pub closed spec fn spec_record(
        sequence: u64,
        selected: GenerationLocator,
        previous_successful: GenerationLocator,
        rollback_floor: u64,
        state: BootSelectionState,
    ) -> Self {
        Self { sequence, selected, previous_successful, rollback_floor, state }
    }

    /// A record built from fields holds exactly those fields.
    pub proof fn lemma_record_fields(
        sequence: u64,
        selected: GenerationLocator,
        previous_successful: GenerationLocator,
        rollback_floor: u64,
        state: BootSelectionState,
    )
        ensures
            ({
                let r = Self::spec_record(sequence, selected, previous_successful, rollback_floor, state);
                &&& r.spec_sequence() == sequence
                &&& r.spec_selected() == selected
                &&& r.spec_previous_successful() == previous_successful
                &&& r.spec_rollback_floor() == rollback_floor
                &&& r.spec_state() == state
            }),
    {
    }

    /// Marks a prepared trial generation successful only with a runtime-health proof produced by
    /// the generation policy after all mandatory checks passed, including speech and accessible
    /// recovery.
    ///
    /// Requiring `TrialAttempt` proves that an attempt was consumed and persisted before the
    /// generation ran. This prevents power loss from bypassing attempt accounting and prevents a
    /// graphical-only boot from becoming the new known-good generation.
    pub fn after_successful_trial(self, healthy: SuccessfulGeneration) -> (r: Result<Self, BootStateError>)
        ensures
            !(self.spec_state() is TrialAttempt) ==> r == Err::<Self, _>(
                BootStateError::NotPreparedTrial,
            ),
            self.spec_state() is TrialAttempt && healthy.spec_generation()
                != self.spec_selected().spec_generation() ==> r == Err::<Self, _>(
                BootStateError::HealthGenerationMismatch {
                    selected: self.spec_selected().spec_generation(),
                    healthy: healthy.spec_generation(),
                },
            ),
            self.spec_state() is TrialAttempt && healthy.spec_generation()
                == self.spec_selected().spec_generation() && healthy.spec_rollback_index()
                < self.spec_rollback_floor() ==> r == Err::<Self, _>(
                BootStateError::HealthRollbackRejected {
                    declared: healthy.spec_rollback_index(),
                    minimum: self.spec_rollback_floor(),
                },
            ),
            r is Ok <==> self.spec_state() is TrialAttempt && healthy.spec_generation()
                == self.spec_selected().spec_generation() && healthy.spec_rollback_index()
                >= self.spec_rollback_floor() && self.spec_sequence() < u64::MAX,
            r matches Ok(next) ==> {
                &&& next.spec_sequence() == self.spec_sequence() + 1
                &&& next.spec_selected() == self.spec_selected()
                &&& next.spec_previous_successful() == self.spec_selected()
                &&& next.spec_rollback_floor() == healthy.spec_rollback_index()
                &&& next.spec_rollback_floor() >= self.spec_rollback_floor()
                &&& next.spec_state() == BootSelectionState::Successful
            },
    {
        proof {
            use_type_invariant(&self);
        }
        match self.state {
            BootSelectionState::TrialAttempt { .. } => {},
            _ => return Err(BootStateError::NotPreparedTrial),
        }
        if healthy.generation() != self.selected.generation() {
            return Err(
                BootStateError::HealthGenerationMismatch {
                    selected: self.selected.generation(),
                    healthy: healthy.generation(),
                },
            );
        }
        if healthy.rollback_index() < self.rollback_floor {
            return Err(
                BootStateError::HealthRollbackRejected {
                    declared: healthy.rollback_index(),
                    minimum: self.rollback_floor,
                },
            );
        }
        if self.sequence == u64::MAX {
            return Err(BootStateError::SequenceOverflow);
        }
        let floor = if self.rollback_floor >= healthy.rollback_index() {
            self.rollback_floor
        } else {
            healthy.rollback_index()
        };
        Ok(
            Self {
                sequence: self.sequence + 1,
                selected: self.selected,
                previous_successful: self.selected,
                rollback_floor: floor,
                state: BootSelectionState::Successful,
            },
        )
    }

    fn equals(&self, other: &Self) -> (r: bool)
        ensures
            r == (*self == *other),
    {
        self.sequence == other.sequence && self.selected.equals(&other.selected)
            && self.previous_successful.equals(&other.previous_successful) && self.rollback_floor
            == other.rollback_floor && self.state == other.state
    }
}

/// What `select_newest_record` answers for two candidate copies.
pub open spec fn spec_select_newest_record(first: Option<BootStateRecord>, second: Option<BootStateRecord>) -> Result<
    BootStateRecord,
    BootStateError,
> {
    match (first, second) {
        (None, None) => Err(BootStateError::NoUsableRecord),
        (Some(record), None) => Ok(record),
        (None, Some(record)) => Ok(record),
        (Some(a), Some(b)) => if a.spec_sequence() > b.spec_sequence() {
            Ok(a)
        } else if b.spec_sequence() > a.spec_sequence() {
            Ok(b)
        } else if a == b {
            Ok(a)
        } else {
            Err(BootStateError::ConflictingSequence)
        },
    }
}

/// Selects the newest usable copy from two independently validated boot-state records.
///
/// Checksum/authentication validation is intentionally outside this function. Callers must pass
/// only records that already passed their on-disk integrity/authentication checks. Equal sequence
/// numbers with different contents are treated as an ambiguous split-brain condition and fail
/// closed.
pub fn select_newest_record(first: Option<BootStateRecord>, second: Option<BootStateRecord>) -> (r: Result<
    BootStateRecord,
    BootStateError,
>)
    ensures
        r == spec_select_newest_record(first, second),
{
    match (first, second) {
        (None, None) => Err(BootStateError::NoUsableRecord),
        (Some(record), None) => Ok(record),
        (None, Some(record)) => Ok(record),
        (Some(a), Some(b)) => {
            if a.sequence() > b.sequence() {
                Ok(a)
            } else if b.sequence() > a.sequence() {
                Ok(b)
            } else if a.equals(&b) {
                Ok(a)
            } else {
                Err(BootStateError::ConflictingSequence)
            }
        },
    }
}

/// The newest copy wins: a selected record is one of the copies given and is
/// at least as new as every copy given; two copies of different sequence
/// numbers always give the newer one; selection fails only with no copy, or
/// with two different copies of one sequence number; and the order in which
/// the copies are given does not matter.
pub proof fn lemma_newest_record_wins(first: Option<BootStateRecord>, second: Option<BootStateRecord>)
    ensures
        match spec_select_newest_record(first, second) {
            Ok(r) => {
                &&& first == Some(r) || second == Some(r)
                &&& first matches Some(a) ==> r.spec_sequence() >= a.spec_sequence()
                &&& second matches Some(b) ==> r.spec_sequence() >= b.spec_sequence()
            },
            Err(e) => {
                ||| first is None && second is None && e == BootStateError::NoUsableRecord
                ||| first matches Some(a) && second matches Some(b) && a.spec_sequence() == b.spec_sequence()
                    && a != b && e == BootStateError::ConflictingSequence
            },
        },
        first matches Some(a) && second matches Some(b) && a.spec_sequence() != b.spec_sequence()
            ==> spec_select_newest_record(first, second) is Ok,
        spec_select_newest_record(first, second) == spec_select_newest_record(second, first),
{
}

/// When the last permitted attempt of a trial generation fails or is
/// interrupted, selection falls back to the previous known-good generation in
/// a newer record.
pub proof fn lemma_failure_then_rollback(r: BootStateRecord)
    requires
        r.spec_state() == (BootSelectionState::TrialAttempt { tries_remaining: 0 }) || r.spec_state()
            == (BootSelectionState::Trial { tries_remaining: 1 }),
        r.spec_sequence() < u64::MAX,
    ensures
        r.spec_after_failed_trial() matches Ok(next) && next.spec_selected()
            == r.spec_previous_successful() && next.spec_previous_successful()
            == r.spec_previous_successful() && next.spec_state() == BootSelectionState::Successful
            && next.spec_sequence() == r.spec_sequence() + 1,
{
}

/// One boot of a trial generation that loses power before it reports: the
/// attempt is prepared and persisted, and on the next boot the interrupted
/// attempt is counted.
pub open spec fn spec_interrupted_boot(r: BootStateRecord) -> Result<BootStateRecord, BootStateError> {
    match r.spec_prepare_trial_boot() {
        Ok(prepared) => prepared.spec_after_failed_trial(),
        Err(e) => Err(e),
    }
}

/// The record after `k` interrupted boots in a row, or the first refusal.
pub open spec fn spec_interrupted_boots(r: BootStateRecord, k: nat) -> Result<BootStateRecord, BootStateError>
    decreases k,
{
    if k == 0 {
        Ok(r)
    } else {
        match spec_interrupted_boots(r, (k - 1) as nat) {
            Ok(x) => spec_interrupted_boot(x),
            Err(e) => Err(e),
        }
    }
}

/// Power loss never yields an unbounded reboot loop: a trial with `t` attempts
/// left stays on trial, with `t - k` attempts, through `k < t` interrupted
/// boots, and the `t`-th selects the previous known-good generation again.
pub proof fn lemma_interrupted_boots_are_bounded(r: BootStateRecord, k: nat)
    requires
        r.spec_state() is Trial,
        1 <= r.spec_state()->Trial_tries_remaining,
        k <= r.spec_state()->Trial_tries_remaining,
        r.spec_sequence() + 2 * r.spec_state()->Trial_tries_remaining <= u64::MAX,
    ensures
        spec_interrupted_boots(r, k) matches Ok(x) && {
            let t = r.spec_state()->Trial_tries_remaining;
            &&& x.spec_sequence() == r.spec_sequence() + 2 * k
            &&& x.spec_previous_successful() == r.spec_previous_successful()
            &&& x.spec_rollback_floor() == r.spec_rollback_floor()
            &&& k < t ==> x.spec_state() == (BootSelectionState::Trial { tries_remaining: (t - k) as u8 })
                && x.spec_selected() == r.spec_selected()
            &&& k == t ==> x.spec_state() == BootSelectionState::Successful && x.spec_selected()
                == r.spec_previous_successful()
        },
    decreases k,
{
    if k > 0 {
        lemma_interrupted_boots_are_bounded(r, (k - 1) as nat);
        let x = spec_interrupted_boots(r, (k - 1) as nat)->Ok_0;
        let t = x.spec_state()->Trial_tries_remaining;
        BootStateRecord::lemma_record_fields(
            (x.spec_sequence() + 1) as u64,
            x.spec_selected(),
            x.spec_previous_successful(),
            x.spec_rollback_floor(),
            BootSelectionState::TrialAttempt { tries_remaining: (t - 1) as u8 },
        );
        let p = x.spec_prepare_trial_boot()->Ok_0;
        BootStateRecord::lemma_record_fields(
            (p.spec_sequence() + 1) as u64,
            p.spec_selected(),
            p.spec_previous_successful(),
            p.spec_rollback_floor(),
            BootSelectionState::Trial { tries_remaining: (t - 1) as u8 },
        );
        BootStateRecord::lemma_record_fields(
            (p.spec_sequence() + 1) as u64,
            p.spec_previous_successful(),
            p.spec_previous_successful(),
            p.spec_rollback_floor(),
            BootSelectionState::Successful,
        );
    }
}

} // verus!
