//! The semantic view of a screen that the screen reader speaks: nodes with a
//! role, a name, a value, a description and state flags.

use vstd::prelude::*;

verus! {

/// Stable identifier of a semantic node.
#[derive(Clone, Copy, Debug, PartialEq, Eq, Structural)]
pub struct NodeId(pub u64);

/// Screen rectangle of a node, in pixels.
#[derive(Clone, Copy, Debug, PartialEq, Eq, Structural)]
pub struct Rect {
    pub x: i32,
    pub y: i32,
    pub width: u32,
    pub height: u32,
}

/// The role of a node, which decides the word spoken after its name.
#[derive(Clone, Copy, Debug, PartialEq, Eq, Structural)]
pub enum Role {
    Application,
    Window,
    Dialog,
    Button,
    CheckBox,
    ComboBox,
    Edit,
    Heading,
    Image,
    Link,
    List,
    ListItem,
    Menu,
    MenuItem,
    ProgressBar,
    Slider,
    StaticText,
    Tab,
    TabItem,
    Table,
    TableCell,
    Tree,
    TreeItem,
    Terminal,
}

/// The node takes keyboard focus.
pub const FOCUSABLE: u32 = 0x01;

/// The node is unavailable.
pub const DISABLED: u32 = 0x02;

/// A check box is ticked.
pub const CHECKED: u32 = 0x04;

/// An expandable node is open.
pub const EXPANDED: u32 = 0x08;

/// The node is selected within its container.
pub const SELECTED: u32 = 0x10;

/// An edit cannot be changed.
pub const READ_ONLY: u32 = 0x20;

/// A set of state flags.
#[derive(Clone, Copy, Debug, PartialEq, Eq, Structural)]
pub struct State {
    bits: u32,
}

impl State {
    /// The raw flag bits.
    pub closed spec fn spec_bits(self) -> u32 {
        self.bits
    }

    /// Whether every flag of `flags` is set.
    pub open spec fn has(self, flags: u32) -> bool {
        self.spec_bits() & flags == flags
    }

    /// The state with exactly the flags in `bits`.
    pub closed spec fn spec_from_bits(bits: u32) -> Self {
        State { bits }
    }

    /// The state with exactly the flags in `bits`.
    pub fn from_bits(bits: u32) -> (r: Self)
        ensures
            r.spec_bits() == bits,
            r == State::spec_from_bits(bits),
    {
        State { bits }
    }

    /// The raw flag bits.
    pub fn bits(self) -> (r: u32)
        ensures
            r == self.spec_bits(),
    {
        self.bits
    }

    /// Whether every flag of `flags` is set.
    pub fn contains(self, flags: u32) -> (r: bool)
        ensures
            r == self.has(flags),
    {
        self.bits & flags == flags
    }
}

/// One node of a screen's semantic tree.
#[derive(Clone, Copy, Debug, PartialEq, Eq)]
pub struct SemanticNode<'a> {
    pub id: NodeId,
    pub parent: Option<NodeId>,
    pub role: Role,
    pub name: &'a str,
    pub description: &'a str,
    pub value: &'a str,
    pub state: State,
    pub bounds: Rect,
}

/// An accessibility event on a node.
#[derive(Clone, Copy, Debug, PartialEq, Eq, Structural)]
pub enum AccessibilityEvent {
    FocusChanged(NodeId),
    StateChanged(NodeId),
    ValueChanged(NodeId),
    NameChanged(NodeId),
    LiveRegionChanged(NodeId),
    ChildrenChanged(NodeId),
}

} // verus!
