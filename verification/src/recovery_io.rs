//! Delivery of one recovery event to structured diagnostics and the direct
//! nonvisual output channels (speech and braille).

use vstd::prelude::*;
use crate::recovery_contract::RecoveryEvent;

verus! {

/// A consumer of machine-readable recovery diagnostics. Returns whether the
/// event was accepted.
pub trait StructuredDiagnosticSink {
    /// Whether this sink, as it stands, accepts `event`. An implementation
    /// that does not define it has some fixed, unstated answer.
    open spec fn spec_accepts(&self, event: RecoveryEvent) -> bool {
        arbitrary()
    }

    fn emit(&mut self, event: RecoveryEvent) -> (r: bool)
        ensures
            r == old(self).spec_accepts(event),
    ;
}

/// A speech output channel. Returns whether the event was spoken.
pub trait SpeechSink {
    /// Whether this channel, as it stands, speaks `event`. An implementation
    /// that does not define it has some fixed, unstated answer.
    open spec fn spec_speaks(&self, event: RecoveryEvent) -> bool {
        arbitrary()
    }

    fn speak(&mut self, event: RecoveryEvent) -> (r: bool)
        ensures
            r == old(self).spec_speaks(event),
    ;
}

/// A braille output channel. Returns whether the event was presented.
pub trait BrailleSink {
    /// Whether this channel, as it stands, presents `event`. An implementation
    /// that does not define it has some fixed, unstated answer.
    open spec fn spec_presents(&self, event: RecoveryEvent) -> bool {
        arbitrary()
    }

    fn present(&mut self, event: RecoveryEvent) -> (r: bool)
        ensures
            r == old(self).spec_presents(event),
    ;
}

#[derive(Clone, Copy, Debug, PartialEq, Eq, Structural)]
pub enum RecoveryDeliveryError {
    StructuredDiagnosticsUnavailable,
    NoDirectNonVisualOutput,
}

/// Evidence that one exact recovery event reached structured diagnostics and at least one direct
/// nonvisual output channel. A graphical renderer is deliberately absent from this trust boundary.
///
/// The event is stored inside the proof so callers cannot reuse output evidence for a different
/// diagnostic identity, action or generation.
#[derive(Clone, Copy, Debug, PartialEq, Eq, Structural)]
pub struct RecoveryDeliveryEvidence {
    event: RecoveryEvent,
    speech: bool,
    braille: bool,
}

impl RecoveryDeliveryEvidence {
    /// The event this evidence is about.
    pub closed spec fn spec_event(self) -> RecoveryEvent {
        self.event
    }

    /// Whether speech presented the event.
    pub closed spec fn spec_speech(self) -> bool {
        self.speech
    }

    /// Whether braille presented the event.
    pub closed spec fn spec_braille(self) -> bool {
        self.braille
    }

    /// Evidence only exists for an event that some nonvisual channel delivered.
    pub closed spec fn wf(self) -> bool {
        self.speech || self.braille
    }

    pub fn event(self) -> (r: RecoveryEvent)
        ensures
            r == self.spec_event(),
    {
        self.event
    }

    pub fn speech_delivered(self) -> (r: bool)
        ensures
            r == self.spec_speech(),
    {
        self.speech
    }

    pub fn braille_delivered(self) -> (r: bool)
        ensures
            r == self.spec_braille(),
    {
        self.braille
    }
}

/// What the delivery of `event` comes to, given what each channel reported:
/// diagnostics are mandatory, and then at least one of speech or braille.
pub open spec fn spec_delivery(
    event: RecoveryEvent,
    diagnostics_accepted: bool,
    speech_delivered: bool,
    braille_delivered: bool,
) -> Result<(RecoveryEvent, bool, bool), RecoveryDeliveryError> {
    if !diagnostics_accepted {
        Err(RecoveryDeliveryError::StructuredDiagnosticsUnavailable)
    } else if !speech_delivered && !braille_delivered {
        Err(RecoveryDeliveryError::NoDirectNonVisualOutput)
    } else {
        Ok((event, speech_delivered, braille_delivered))
    }
}

/// The evidence, or the error, in the shape `spec_delivery` describes.
pub open spec fn delivery_matches(
    r: Result<RecoveryDeliveryEvidence, RecoveryDeliveryError>,
    expected: Result<(RecoveryEvent, bool, bool), RecoveryDeliveryError>,
) -> bool {
    match (r, expected) {
        (Ok(evidence), Ok((event, speech, braille))) => {
            &&& evidence.spec_event() == event
            &&& evidence.spec_speech() == speech
            &&& evidence.spec_braille() == braille
            &&& evidence.wf()
        },
        (Err(error), Err(expected_error)) => error == expected_error,
        _ => false,
    }
}

/// Decide the outcome of a delivery from what the three channels reported.
pub fn recovery_delivery_outcome(
    event: RecoveryEvent,
    diagnostics_accepted: bool,
    speech_delivered: bool,
    braille_delivered: bool,
) -> (r: Result<RecoveryDeliveryEvidence, RecoveryDeliveryError>)
    ensures
        delivery_matches(
            r,
            spec_delivery(event, diagnostics_accepted, speech_delivered, braille_delivered),
        ),
{
    if !diagnostics_accepted {
        return Err(RecoveryDeliveryError::StructuredDiagnosticsUnavailable);
    }
    if !speech_delivered && !braille_delivered {
        return Err(RecoveryDeliveryError::NoDirectNonVisualOutput);
    }
    Ok(RecoveryDeliveryEvidence { event, speech: speech_delivered, braille: braille_delivered })
}

/// Delivers the exact same structured recovery event to diagnostics, speech and braille.
///
/// Structured diagnostics are mandatory and are attempted first. Speech and braille are then both
/// attempted so a failure in one channel cannot hide a working fallback. Success requires at least
/// one direct nonvisual channel. Visual output is intentionally outside this API and can never make
/// this function succeed.
pub fn deliver_recovery_event<D, S, B>(
    event: RecoveryEvent,
    diagnostics: &mut D,
    speech: &mut S,
    braille: &mut B,
) -> (r: Result<RecoveryDeliveryEvidence, RecoveryDeliveryError>) where
    D: StructuredDiagnosticSink,
    S: SpeechSink,
    B: BrailleSink,

    ensures
        !old(diagnostics).spec_accepts(event) ==> r == Err::<RecoveryDeliveryEvidence, RecoveryDeliveryError>(
            RecoveryDeliveryError::StructuredDiagnosticsUnavailable,
        ) && *final(speech) == *old(speech) && *final(braille) == *old(braille),
        old(diagnostics).spec_accepts(event) ==> delivery_matches(
            r,
            spec_delivery(event, true, old(speech).spec_speaks(event), old(braille).spec_presents(event)),
        ),
        r matches Ok(evidence) ==> evidence.spec_event() == event && evidence.wf(),
{
    if !diagnostics.emit(event) {
        return recovery_delivery_outcome(event, false, false, false);
    }
    let speech_delivered = speech.speak(event);
    let braille_delivered = braille.present(event);
    recovery_delivery_outcome(event, true, speech_delivered, braille_delivered)
}

/// Evidence of delivery always names a nonvisual channel that presented the
/// event: a delivery that reached neither speech nor braille never succeeds.
pub proof fn lemma_no_success_without_nonvisual_output(
    event: RecoveryEvent,
    diagnostics_accepted: bool,
    speech_delivered: bool,
    braille_delivered: bool,
)
    ensures
        spec_delivery(event, diagnostics_accepted, speech_delivered, braille_delivered) is Ok
            <==> diagnostics_accepted && (speech_delivered || braille_delivered),
{
}

} // verus!
