//! The accessible recovery contract: readiness of nonvisual recovery, stable
//! diagnostic codes and the keyboard-only recovery menu.

use vstd::prelude::*;

verus! {

#[derive(Clone, Copy, Debug, PartialEq, Eq, Structural)]
pub enum RecoveryCapability {
    KeyboardInput,
    StructuredDiagnostics,
    SpeechOutput,
    BrailleOutput,
    RollbackSelection,
    SignedReinstall,
    DiagnosticExport,
}

impl RecoveryCapability {
    /// The bit position recording this capability in a probe report.
    pub open spec fn spec_index(self) -> u16 {
        match self {
            RecoveryCapability::KeyboardInput => 0,
            RecoveryCapability::StructuredDiagnostics => 1,
            RecoveryCapability::SpeechOutput => 2,
            RecoveryCapability::BrailleOutput => 3,
            RecoveryCapability::RollbackSelection => 4,
            RecoveryCapability::SignedReinstall => 5,
            RecoveryCapability::DiagnosticExport => 6,
        }
    }

    /// The bit recording this capability in a probe report.
    pub open spec fn spec_bit(self) -> u16 {
        1u16 << self.spec_index()
    }

    fn bit(self) -> (r: u16)
        ensures
            r == self.spec_bit(),
    {
        let index: u16 = match self {
            RecoveryCapability::KeyboardInput => 0,
            RecoveryCapability::StructuredDiagnostics => 1,
            RecoveryCapability::SpeechOutput => 2,
            RecoveryCapability::BrailleOutput => 3,
            RecoveryCapability::RollbackSelection => 4,
            RecoveryCapability::SignedReinstall => 5,
            RecoveryCapability::DiagnosticExport => 6,
        };
        1u16 << index
    }
}

/// Capabilities recovery must always have, in the order they are checked.
pub open spec fn spec_required_recovery_capabilities() -> Seq<RecoveryCapability> {
    seq![
        RecoveryCapability::KeyboardInput,
        RecoveryCapability::StructuredDiagnostics,
        RecoveryCapability::RollbackSelection,
        RecoveryCapability::SignedReinstall,
        RecoveryCapability::DiagnosticExport,
    ]
}

/// Capabilities recovery must always have, in the order they are checked.
pub fn required_recovery_capabilities() -> (r: Vec<RecoveryCapability>)
    ensures
        r@ == spec_required_recovery_capabilities(),
{
    vec![
        RecoveryCapability::KeyboardInput,
        RecoveryCapability::StructuredDiagnostics,
        RecoveryCapability::RollbackSelection,
        RecoveryCapability::SignedReinstall,
        RecoveryCapability::DiagnosticExport,
    ]
}

#[derive(Clone, Copy, Debug, PartialEq, Eq, Structural)]
pub struct RecoveryProbeReport {
    passed: u16,
}

/// The first capability of `list` a report lacks.
pub open spec fn first_missing_recovery(report: RecoveryProbeReport, list: Seq<RecoveryCapability>) -> Option<
    RecoveryCapability,
>
    decreases list.len(),
{
    if list.len() == 0 {
        None
    } else if !report.spec_passed(list[0]) {
        Some(list[0])
    } else {
        first_missing_recovery(report, list.drop_first())
    }
}

/// Why a probe report does not prove accessible recovery, if it does not.
pub open spec fn spec_readiness_error(report: RecoveryProbeReport) -> Option<RecoveryReadinessError> {
    match first_missing_recovery(report, spec_required_recovery_capabilities()) {
        Some(c) => Some(RecoveryReadinessError::MissingCapability(c)),
        None => if !report.spec_passed(RecoveryCapability::SpeechOutput) && !report.spec_passed(
            RecoveryCapability::BrailleOutput,
        ) {
            Some(RecoveryReadinessError::NoDirectNonVisualOutput)
        } else {
            None
        },
    }
}

impl RecoveryProbeReport {
    /// The bits of the capabilities marked passed.
    pub closed spec fn spec_bits(self) -> u16 {
        self.passed
    }

    /// True when `capability` was marked passed.
    pub open spec fn spec_passed(self, capability: RecoveryCapability) -> bool {
        self.spec_bits() & capability.spec_bit() != 0
    }

    pub fn new() -> (r: Self)
        ensures
            r.spec_bits() == 0,
    {
        Self { passed: 0 }
    }

    pub fn mark_passed(&mut self, capability: RecoveryCapability)
        ensures
            final(self).spec_bits() == old(self).spec_bits() | capability.spec_bit(),
    {
        self.passed = self.passed | capability.bit();
    }

    pub fn passed(self, capability: RecoveryCapability) -> (r: bool)
        ensures
            r == self.spec_passed(capability),
    {
        self.passed & capability.bit() != 0
    }

    /// Produces a private readiness token only when recovery is independently usable without
    /// sight. A framebuffer or visual console never counts as a nonvisual output channel.
    pub fn accessible_ready(self) -> (r: Result<AccessibleRecoveryReady, RecoveryReadinessError>)
        ensures
            match r {
                Ok(ready) => spec_readiness_error(self) is None && ready.spec_speech() == self.spec_passed(
                    RecoveryCapability::SpeechOutput,
                ) && ready.spec_braille() == self.spec_passed(RecoveryCapability::BrailleOutput),
                Err(e) => spec_readiness_error(self) == Some(e),
            },
    {
        let required = required_recovery_capabilities();
        let mut i: usize = 0;
        assert(required@.skip(0) =~= required@);
        while i < required.len()
            invariant
                required@ == spec_required_recovery_capabilities(),
                i <= required@.len(),
                first_missing_recovery(self, spec_required_recovery_capabilities())
                    == first_missing_recovery(self, required@.skip(i as int)),
            decreases required@.len() - i,
        {
            assert(required@.skip(i as int).drop_first() =~= required@.skip(i + 1));
            if !self.passed(required[i]) {
                return Err(RecoveryReadinessError::MissingCapability(required[i]));
            }
            i = i + 1;
        }
        let speech = self.passed(RecoveryCapability::SpeechOutput);
        let braille = self.passed(RecoveryCapability::BrailleOutput);
        if !speech && !braille {
            return Err(RecoveryReadinessError::NoDirectNonVisualOutput);
        }
        Ok(AccessibleRecoveryReady { speech, braille })
    }
}

impl Default for RecoveryProbeReport {
    fn default() -> (r: Self)
        ensures
            r.spec_bits() == 0,
    {
        Self::new()
    }
}

#[derive(Clone, Copy, Debug, PartialEq, Eq, Structural)]
pub enum RecoveryReadinessError {
    MissingCapability(RecoveryCapability),
    NoDirectNonVisualOutput,
}

/// Proof that recovery has deterministic keyboard control, structured diagnostics, rollback and
/// signed-reinstall actions, diagnostic export, plus at least one direct nonvisual output channel.
///
/// The fields are private so visual-only recovery code cannot fabricate this token directly.
#[derive(Clone, Copy, Debug, PartialEq, Eq, Structural)]
pub struct AccessibleRecoveryReady {
    speech: bool,
    braille: bool,
}

impl AccessibleRecoveryReady {
    pub closed spec fn spec_speech(self) -> bool {
        self.speech
    }

    pub closed spec fn spec_braille(self) -> bool {
        self.braille
    }

    #[verifier::type_invariant]
    closed spec fn has_nonvisual_output(self) -> bool {
        self.speech || self.braille
    }

    pub fn speech_available(self) -> (r: bool)
        ensures
            r == self.spec_speech(),
    {
        self.speech
    }

    pub fn braille_available(self) -> (r: bool)
        ensures
            r == self.spec_braille(),
    {
        self.braille
    }
}

#[derive(Clone, Copy, Debug, PartialEq, Eq, Structural)]
pub enum RecoveryDiagnosticCode {
    BootStateCorrupt,
    NoBootableGeneration,
    ManifestRejected,
    ObjectVerificationFailed,
    StorageReadFailed,
    RollbackActivated,
    InputUnavailable,
    AudioUnavailable,
    SpeechUnavailable,
    AccessibilityBrokerUnavailable,
    RecoveryIntegrityFailed,
}

impl RecoveryDiagnosticCode {
    /// The stable machine-readable value of a diagnostic code.
    pub open spec fn spec_code(self) -> u16 {
        match self {
            RecoveryDiagnosticCode::BootStateCorrupt => 0x1001,
            RecoveryDiagnosticCode::NoBootableGeneration => 0x1002,
            RecoveryDiagnosticCode::ManifestRejected => 0x1101,
            RecoveryDiagnosticCode::ObjectVerificationFailed => 0x1102,
            RecoveryDiagnosticCode::StorageReadFailed => 0x1201,
            RecoveryDiagnosticCode::RollbackActivated => 0x1301,
            RecoveryDiagnosticCode::InputUnavailable => 0x1401,
            RecoveryDiagnosticCode::AudioUnavailable => 0x1402,
            RecoveryDiagnosticCode::SpeechUnavailable => 0x1403,
            RecoveryDiagnosticCode::AccessibilityBrokerUnavailable => 0x1404,
            RecoveryDiagnosticCode::RecoveryIntegrityFailed => 0x1501,
        }
    }

    pub fn code(self) -> (r: u16)
        ensures
            r == self.spec_code(),
    {
        match self {
            RecoveryDiagnosticCode::BootStateCorrupt => 0x1001,
            RecoveryDiagnosticCode::NoBootableGeneration => 0x1002,
            RecoveryDiagnosticCode::ManifestRejected => 0x1101,
            RecoveryDiagnosticCode::ObjectVerificationFailed => 0x1102,
            RecoveryDiagnosticCode::StorageReadFailed => 0x1201,
            RecoveryDiagnosticCode::RollbackActivated => 0x1301,
            RecoveryDiagnosticCode::InputUnavailable => 0x1401,
            RecoveryDiagnosticCode::AudioUnavailable => 0x1402,
            RecoveryDiagnosticCode::SpeechUnavailable => 0x1403,
            RecoveryDiagnosticCode::AccessibilityBrokerUnavailable => 0x1404,
            RecoveryDiagnosticCode::RecoveryIntegrityFailed => 0x1501,
        }
    }
}

/// Distinct diagnostic codes have distinct machine-readable values.
pub proof fn lemma_diagnostic_codes_are_distinct(a: RecoveryDiagnosticCode, b: RecoveryDiagnosticCode)
    ensures
        a.spec_code() == b.spec_code() ==> a == b,
{
}

#[derive(Clone, Copy, Debug, PartialEq, Eq, Structural)]
pub enum RecoverySeverity {
    Info,
    Warning,
    Critical,
}

#[derive(Clone, Copy, Debug, PartialEq, Eq, Structural)]
pub enum RecoveryAction {
    RetryCurrentGeneration,
    BootPreviousGeneration,
    EnterRecovery,
    ReinstallSignedImage,
    ExportDiagnostics,
    PowerOffSafely,
}

impl RecoveryAction {
    /// Actions that replace system content or end the session.
    pub open spec fn spec_requires_explicit_confirmation(self) -> bool {
        self == RecoveryAction::ReinstallSignedImage || self == RecoveryAction::PowerOffSafely
    }

    /// Actions that can replace system content or end the current session are never one-key
    /// operations. They require a distinct confirmation command that can be spoken or brailled.
    pub fn requires_explicit_confirmation(self) -> (r: bool)
        ensures
            r == self.spec_requires_explicit_confirmation(),
    {
        match self {
            RecoveryAction::ReinstallSignedImage | RecoveryAction::PowerOffSafely => true,
            _ => false,
        }
    }
}

/// Stable keyboard traversal order shared by speech, braille and any visual frontend.
///
/// The order deliberately puts diagnostic export before reinstall and power-off. Nothing in this
/// list is activated merely because it is selected.
pub open spec fn spec_recovery_action_order() -> Seq<RecoveryAction> {
    seq![
        RecoveryAction::RetryCurrentGeneration,
        RecoveryAction::BootPreviousGeneration,
        RecoveryAction::EnterRecovery,
        RecoveryAction::ExportDiagnostics,
        RecoveryAction::ReinstallSignedImage,
        RecoveryAction::PowerOffSafely,
    ]
}

/// Number of actions in the recovery menu.
pub const RECOVERY_ACTION_COUNT: usize = 6;

/// The stable keyboard traversal order of the recovery actions.
pub fn recovery_action_order() -> (r: Vec<RecoveryAction>)
    ensures
        r@ == spec_recovery_action_order(),
{
    vec![
        RecoveryAction::RetryCurrentGeneration,
        RecoveryAction::BootPreviousGeneration,
        RecoveryAction::EnterRecovery,
        RecoveryAction::ExportDiagnostics,
        RecoveryAction::ReinstallSignedImage,
        RecoveryAction::PowerOffSafely,
    ]
}

/// The action at position `index` of the traversal order.
fn action_at(index: usize) -> (r: RecoveryAction)
    requires
        index < RECOVERY_ACTION_COUNT,
    ensures
        r == spec_recovery_action_order()[index as int],
{
    match index {
        0 => RecoveryAction::RetryCurrentGeneration,
        1 => RecoveryAction::BootPreviousGeneration,
        2 => RecoveryAction::EnterRecovery,
        3 => RecoveryAction::ExportDiagnostics,
        4 => RecoveryAction::ReinstallSignedImage,
        _ => RecoveryAction::PowerOffSafely,
    }
}

#[derive(Clone, Copy, Debug, PartialEq, Eq, Structural)]
pub enum RecoveryKeyboardCommand {
    Previous,
    Next,
    Activate,
    Confirm,
    Cancel,
    Timeout,
}

#[derive(Clone, Copy, Debug, PartialEq, Eq, Structural)]
pub enum RecoveryInteractionOutcome {
    SelectionChanged(RecoveryAction),
    ConfirmationRequired(RecoveryAction),
    ConfirmationCancelled,
    ActionReady(RecoveryAction),
    NoAction,
}

/// Deterministic, allocation-free keyboard interaction state for recovery-critical actions.
///
/// There is no pointer path in this contract. Selection never wraps implicitly. A timeout never
/// activates or confirms any action, including while an explicit confirmation is pending.
#[derive(Clone, Copy, Debug, PartialEq, Eq, Structural)]
pub struct RecoveryMenuState {
    selected: usize,
    pending_confirmation: Option<RecoveryAction>,
}

/// The abstract state of the recovery menu: selected position and pending confirmation.
pub struct MenuModel {
    pub selected: int,
    pub pending: Option<RecoveryAction>,
}

/// One step of the recovery menu: the next abstract state and the outcome.
pub open spec fn spec_menu_step(m: MenuModel, command: RecoveryKeyboardCommand) -> (MenuModel, RecoveryInteractionOutcome) {
    match m.pending {
        Some(action) => match command {
            RecoveryKeyboardCommand::Confirm => (
                MenuModel { selected: m.selected, pending: None },
                RecoveryInteractionOutcome::ActionReady(action),
            ),
            RecoveryKeyboardCommand::Cancel => (
                MenuModel { selected: m.selected, pending: None },
                RecoveryInteractionOutcome::ConfirmationCancelled,
            ),
            _ => (m, RecoveryInteractionOutcome::NoAction),
        },
        None => match command {
            RecoveryKeyboardCommand::Previous => if m.selected > 0 {
                (
                    MenuModel { selected: m.selected - 1, pending: None },
                    RecoveryInteractionOutcome::SelectionChanged(
                        spec_recovery_action_order()[m.selected - 1],
                    ),
                )
            } else {
                (m, RecoveryInteractionOutcome::NoAction)
            },
            RecoveryKeyboardCommand::Next => if m.selected + 1 < RECOVERY_ACTION_COUNT {
                (
                    MenuModel { selected: m.selected + 1, pending: None },
                    RecoveryInteractionOutcome::SelectionChanged(
                        spec_recovery_action_order()[m.selected + 1],
                    ),
                )
            } else {
                (m, RecoveryInteractionOutcome::NoAction)
            },
            RecoveryKeyboardCommand::Activate => {
                let action = spec_recovery_action_order()[m.selected];
                if action.spec_requires_explicit_confirmation() {
                    (
                        MenuModel { selected: m.selected, pending: Some(action) },
                        RecoveryInteractionOutcome::ConfirmationRequired(action),
                    )
                } else {
                    (m, RecoveryInteractionOutcome::ActionReady(action))
                }
            },
            _ => (m, RecoveryInteractionOutcome::NoAction),
        },
    }
}

impl RecoveryMenuState {
    /// The abstract state of this menu.
    pub closed spec fn model(self) -> MenuModel {
        MenuModel { selected: self.selected as int, pending: self.pending_confirmation }
    }

    #[verifier::type_invariant]
    closed spec fn well_formed(self) -> bool {
        self.selected < RECOVERY_ACTION_COUNT
    }

    pub fn new() -> (r: Self)
        ensures
            r.model() == (MenuModel { selected: 0, pending: None }),
    {
        Self { selected: 0, pending_confirmation: None }
    }

    pub fn selected_action(self) -> (r: RecoveryAction)
        ensures
            r == spec_recovery_action_order()[self.model().selected],
    {
        proof {
            use_type_invariant(&self);
        }
        action_at(self.selected)
    }

    pub fn pending_confirmation(self) -> (r: Option<RecoveryAction>)
        ensures
            r == self.model().pending,
    {
        self.pending_confirmation
    }

    /// Applies one keyboard command.
    pub fn apply(&mut self, command: RecoveryKeyboardCommand) -> (r: RecoveryInteractionOutcome)
        ensures
            (final(self).model(), r) == spec_menu_step(old(self).model(), command),
    {
        proof {
            use_type_invariant(&*self);
        }
        if let Some(action) = self.pending_confirmation {
            return match command {
                RecoveryKeyboardCommand::Confirm => {
                    self.pending_confirmation = None;
                    RecoveryInteractionOutcome::ActionReady(action)
                },
                RecoveryKeyboardCommand::Cancel => {
                    self.pending_confirmation = None;
                    RecoveryInteractionOutcome::ConfirmationCancelled
                },
                _ => RecoveryInteractionOutcome::NoAction,
            };
        }
        match command {
            RecoveryKeyboardCommand::Previous => {
                if self.selected > 0 {
                    self.selected = self.selected - 1;
                    RecoveryInteractionOutcome::SelectionChanged(action_at(self.selected))
                } else {
                    RecoveryInteractionOutcome::NoAction
                }
            },
            RecoveryKeyboardCommand::Next => {
                if self.selected + 1 < RECOVERY_ACTION_COUNT {
                    self.selected = self.selected + 1;
                    RecoveryInteractionOutcome::SelectionChanged(action_at(self.selected))
                } else {
                    RecoveryInteractionOutcome::NoAction
                }
            },
            RecoveryKeyboardCommand::Activate => {
                let action = action_at(self.selected);
                if action.requires_explicit_confirmation() {
                    self.pending_confirmation = Some(action);
                    RecoveryInteractionOutcome::ConfirmationRequired(action)
                } else {
                    RecoveryInteractionOutcome::ActionReady(action)
                }
            },
            _ => RecoveryInteractionOutcome::NoAction,
        }
    }
}

impl Default for RecoveryMenuState {
    fn default() -> (r: Self)
        ensures
            r.model() == (MenuModel { selected: 0, pending: None }),
    {
        Self::new()
    }
}

/// A timeout never changes the menu and never makes an action ready, whether
/// or not a confirmation is pending.
pub proof fn lemma_timeout_is_inert(m: MenuModel)
    ensures
        spec_menu_step(m, RecoveryKeyboardCommand::Timeout) == (m, RecoveryInteractionOutcome::NoAction),
{
}

/// A destructive action never becomes ready from a single key: `Activate`
/// only ever asks for confirmation of it, and the only way it becomes ready is
/// a `Confirm` while exactly that action is pending.
pub proof fn lemma_destructive_actions_need_confirmation(m: MenuModel, command: RecoveryKeyboardCommand, action: RecoveryAction)
    requires
        0 <= m.selected < RECOVERY_ACTION_COUNT,
        action.spec_requires_explicit_confirmation(),
        spec_menu_step(m, command).1 == RecoveryInteractionOutcome::ActionReady(action),
    ensures
        command == RecoveryKeyboardCommand::Confirm,
        m.pending == Some(action),
{
}

/// Selection never wraps: `Next` at the last action and `Previous` at the
/// first action change nothing.
pub proof fn lemma_selection_does_not_wrap(m: MenuModel)
    requires
        m.pending is None,
    ensures
        m.selected == 0 ==> spec_menu_step(m, RecoveryKeyboardCommand::Previous) == (
            m,
            RecoveryInteractionOutcome::NoAction,
        ),
        m.selected == RECOVERY_ACTION_COUNT - 1 ==> spec_menu_step(m, RecoveryKeyboardCommand::Next)
            == (m, RecoveryInteractionOutcome::NoAction),
{
}

/// Machine-readable recovery event. UI, speech, braille and serial frontends all consume the same
/// event instead of inventing separate visual-only error paths.
#[derive(Clone, Copy, Debug, PartialEq, Eq, Structural)]
pub struct RecoveryEvent {
    code: RecoveryDiagnosticCode,
    severity: RecoverySeverity,
    action: RecoveryAction,
    generation: Option<u64>,
}

impl RecoveryEvent {
    pub closed spec fn spec_code(self) -> RecoveryDiagnosticCode {
        self.code
    }

    pub closed spec fn spec_severity(self) -> RecoverySeverity {
        self.severity
    }

    pub closed spec fn spec_action(self) -> RecoveryAction {
        self.action
    }

    pub closed spec fn spec_generation(self) -> Option<u64> {
        self.generation
    }

    pub fn new(
        code: RecoveryDiagnosticCode,
        severity: RecoverySeverity,
        action: RecoveryAction,
        generation: Option<u64>,
    ) -> (r: Self)
        ensures
            r.spec_code() == code,
            r.spec_severity() == severity,
            r.spec_action() == action,
            r.spec_generation() == generation,
    {
        Self { code, severity, action, generation }
    }

    pub fn code(self) -> (r: RecoveryDiagnosticCode)
        ensures
            r == self.spec_code(),
    {
        self.code
    }

    pub fn severity(self) -> (r: RecoverySeverity)
        ensures
            r == self.spec_severity(),
    {
        self.severity
    }

    pub fn action(self) -> (r: RecoveryAction)
        ensures
            r == self.spec_action(),
    {
        self.action
    }

    pub fn generation(self) -> (r: Option<u64>)
        ensures
            r == self.spec_generation(),
    {
        self.generation
    }
}

} // verus!
