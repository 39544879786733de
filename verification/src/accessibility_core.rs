//! Normalized accessibility objects and events, and the privacy checks applied
//! at the broker boundary before semantic data reaches speech, braille, logs or
//! telemetry.

use vstd::prelude::*;
use std::collections::BTreeSet;

verus! {

/// Stable identifier for one semantic object during its runtime lifetime.
#[derive(Clone, Copy, Debug, PartialEq, Eq, Hash, PartialOrd, Ord)]
pub struct RuntimeId(pub u128);

/// Origin of an accessibility object or event.
#[derive(Clone, Copy, Debug, PartialEq, Eq, Structural)]
pub enum SourceDomain {
    Native,
    Windows,
    Android,
    Darwin,
    VirtualMachine,
    SystemRecovery,
}

/// Normalized semantic role exposed to assistive technology.
#[derive(Clone, Copy, Debug, PartialEq, Eq, Structural)]
pub enum Role {
    Application,
    Window,
    Dialog,
    Alert,
    Button,
    CheckBox,
    ComboBox,
    Edit,
    Heading,
    Image,
    Link,
    List,
    ListItem,
    Menu,
    MenuItem,
    ProgressBar,
    RadioButton,
    Slider,
    StaticText,
    StatusBar,
    Tab,
    TabList,
    Table,
    TableCell,
    Terminal,
    ToolBar,
    Tree,
    TreeItem,
    Unknown,
}

/// Normalized state flags.
#[derive(Clone, Copy, Debug, PartialEq, Eq, PartialOrd, Ord)]
pub enum State {
    Busy,
    Checked,
    Collapsed,
    Disabled,
    Expanded,
    Focusable,
    Focused,
    Invalid,
    Modal,
    MultiLine,
    Offscreen,
    Pressed,
    ReadOnly,
    Required,
    Selected,
    Unavailable,
}

/// Actions that an accessibility node can expose.
#[derive(Clone, Copy, Debug, PartialEq, Eq, PartialOrd, Ord)]
pub enum Action {
    Focus,
    Invoke,
    Expand,
    Collapse,
    Check,
    Uncheck,
    Increment,
    Decrement,
    ScrollForward,
    ScrollBackward,
    SetValue,
}

/// Privacy classification used before data reaches speech, braille, logs or telemetry.
#[derive(Clone, Copy, Debug, PartialEq, Eq, Structural)]
pub enum Sensitivity {
    Public,
    Personal,
    Secret,
}

/// Inclusive-exclusive text range.
#[derive(Clone, Copy, Debug, PartialEq, Eq, Structural)]
pub struct TextRange {
    pub start: usize,
    pub end: usize,
}

impl TextRange {
    /// The range that starts at `start` and ends before `end`.
    pub fn new(start: usize, end: usize) -> (r: Self)
        ensures
            r.start == start,
            r.end == end,
    {
        Self { start, end }
    }

    /// A range fits a text of `text_len` bytes when it is ordered and ends inside the text.
    pub open spec fn spec_is_valid_for(self, text_len: int) -> bool {
        self.start <= self.end && self.end <= text_len
    }

    /// Whether the range is ordered and lies inside a text of `text_len` bytes.
    pub fn is_valid_for(self, text_len: usize) -> (r: bool)
        ensures
            r == self.spec_is_valid_for(text_len as int),
    {
        self.start <= self.end && self.end <= text_len
    }
}

/// Text information for controls that are allowed to expose their content.
#[derive(Clone, Debug, PartialEq, Eq)]
pub struct TextInfo {
    pub content: String,
    pub caret: Option<usize>,
    pub selections: Vec<TextRange>,
    pub editable: bool,
}

/// One normalized accessibility object.
#[derive(Clone, Debug, PartialEq, Eq)]
pub struct Node {
    pub id: RuntimeId,
    pub parent: Option<RuntimeId>,
    pub source: SourceDomain,
    pub role: Role,
    pub name: String,
    pub description: Option<String>,
    pub value: Option<String>,
    pub states: BTreeSet<State>,
    pub actions: BTreeSet<Action>,
    pub text: Option<TextInfo>,
    pub sensitivity: Sensitivity,
}

/// Priority used by downstream speech/braille/event consumers.
#[derive(Clone, Copy, Debug, PartialEq, Eq, PartialOrd, Ord)]
pub enum EventPriority {
    Background,
    Normal,
    Important,
    Critical,
}

/// Normalized accessibility event type.
#[derive(Clone, Copy, Debug, PartialEq, Eq, Structural)]
pub enum EventKind {
    ObjectCreated,
    ObjectDestroyed,
    FocusChanged,
    NameChanged,
    DescriptionChanged,
    ValueChanged,
    StateChanged,
    TextInserted,
    TextRemoved,
    TextReplaced,
    CaretMoved,
    SelectionChanged,
    LiveRegionChanged,
    Notification,
    WindowActivated,
    WindowDeactivated,
}

/// Optional non-secret text delta for text events.
#[derive(Clone, Debug, PartialEq, Eq)]
pub struct TextDelta {
    pub range: TextRange,
    pub text: String,
}

/// Ordered normalized event emitted by an adapter or first-party shell component.
#[derive(Clone, Debug, PartialEq, Eq)]
pub struct AccessibilityEvent {
    pub sequence: u64,
    pub monotonic_ns: u64,
    pub node_id: RuntimeId,
    pub source: SourceDomain,
    pub kind: EventKind,
    pub priority: EventPriority,
    pub sensitivity: Sensitivity,
    pub text_delta: Option<TextDelta>,
}

/// Validation error returned before semantic data enters the broker.
#[derive(Clone, Copy, Debug, PartialEq, Eq, Structural)]
pub enum ValidationError {
    SecretNodeContainsValue,
    SecretNodeContainsText,
    CaretOutOfRange,
    SelectionOutOfRange,
    SecretEventContainsText,
}

/// Length in UTF-8 bytes of a text, the unit carets and selections are measured in.
pub open spec fn text_byte_len(text: Seq<char>) -> int {
    vstd::utf8::encode_utf8(text).len() as int
}

/// The first rule a text block breaks: a caret past the end, then a selection
/// that is out of order or runs past the end.
pub open spec fn text_error(text: TextInfo) -> Option<ValidationError> {
    let len = text_byte_len(text.content@);
    if text.caret matches Some(caret) && caret > len {
        Some(ValidationError::CaretOutOfRange)
    } else if exists|i: int| 0 <= i < text.selections@.len()
        && !(#[trigger] text.selections@[i]).spec_is_valid_for(len) {
        Some(ValidationError::SelectionOutOfRange)
    } else {
        None
    }
}

/// The first rule a node breaks, in the order the broker checks them: a secret
/// node may carry neither a value nor text, and exposed text must keep its caret
/// and selections inside the content.
pub open spec fn node_error(node: Node) -> Option<ValidationError> {
    if node.sensitivity == Sensitivity::Secret && node.value is Some {
        Some(ValidationError::SecretNodeContainsValue)
    } else if node.sensitivity == Sensitivity::Secret && node.text is Some {
        Some(ValidationError::SecretNodeContainsText)
    } else {
        match node.text {
            Some(text) => text_error(text),
            None => None,
        }
    }
}

/// Validate a node at the accessibility broker boundary.
///
/// Secret fields are allowed to expose role/state/action metadata, but never their
/// raw value or text content.
pub fn validate_node(node: &Node) -> (r: Result<(), ValidationError>)
    requires
        node.text matches Some(text) ==> text_byte_len(text.content@) <= usize::MAX,
    ensures
        match node_error(*node) {
            Some(error) => r == Err::<(), ValidationError>(error),
            None => r is Ok,
        },
{
    let secret = match node.sensitivity {
        Sensitivity::Secret => true,
        _ => false,
    };
    if secret {
        if node.value.is_some() {
            return Err(ValidationError::SecretNodeContainsValue);
        }
        if node.text.is_some() {
            return Err(ValidationError::SecretNodeContainsText);
        }
    }
    match &node.text {
        Some(text) => validate_text(text),
        None => Ok(()),
    }
}

/// Check a text block's caret and selections against its byte length.
fn validate_text(text: &TextInfo) -> (r: Result<(), ValidationError>)
    requires
        text_byte_len(text.content@) <= usize::MAX,
    ensures
        match text_error(*text) {
            Some(error) => r == Err::<(), ValidationError>(error),
            None => r is Ok,
        },
{
    let len = text.content.as_str().len();
    if let Some(caret) = text.caret {
        if caret > len {
            return Err(ValidationError::CaretOutOfRange);
        }
    }
    let mut i: usize = 0;
    while i < text.selections.len()
        invariant
            i <= text.selections@.len(),
            len == text_byte_len(text.content@),
            !(text.caret matches Some(caret) && caret > len),
            forall|j: int| 0 <= j < i ==> (#[trigger] text.selections@[j]).spec_is_valid_for(len as int),
        decreases text.selections@.len() - i,
    {
        if !text.selections[i].is_valid_for(len) {
            assert(!text.selections@[i as int].spec_is_valid_for(len as int));
            return Err(ValidationError::SelectionOutOfRange);
        }
        i = i + 1;
    }
    Ok(())
}

/// The rule an event breaks, if any: a secret event may not carry a text delta.
pub open spec fn event_error(event: AccessibilityEvent) -> Option<ValidationError> {
    if event.sensitivity == Sensitivity::Secret && event.text_delta is Some {
        Some(ValidationError::SecretEventContainsText)
    } else {
        None
    }
}

/// Validate an event before it is published to consumers.
pub fn validate_event(event: &AccessibilityEvent) -> (r: Result<(), ValidationError>)
    ensures
        match event_error(*event) {
            Some(error) => r == Err::<(), ValidationError>(error),
            None => r is Ok,
        },
{
    match event.sensitivity {
        Sensitivity::Secret => {
            if event.text_delta.is_some() {
                return Err(ValidationError::SecretEventContainsText);
            }
            Ok(())
        },
        _ => Ok(()),
    }
}

/// A node that passes validation and is secret exposes neither a value nor text,
/// whatever else it carries.
pub proof fn lemma_validated_secret_node_hides_content(node: Node)
    requires
        node_error(node) is None,
        node.sensitivity == Sensitivity::Secret,
    ensures
        node.value is None,
        node.text is None,
{
}

} // verus!
