//! Keyboard focus navigation: the input half of the screen reader.
//!
//! A [`FocusRing`] wraps the tab order of a screen and moves focus in response
//! to Tab, Shift+Tab, Home and End. Non-interactive nodes and unavailable
//! controls are skipped, and Tab wraps from the last focusable control back to
//! the first, so focus can never be lost.

use vstd::prelude::*;
use vstd::string::*;
use crate::screen_reader::semantics::{SemanticNode, DISABLED, FOCUSABLE};
use crate::screen_reader::{announce_focus, spec_focus, FocusContext};

verus! {

/// A keyboard navigation command.
#[derive(Clone, Copy, Debug, PartialEq, Eq, Structural)]
pub enum NavCommand {
    /// Tab: move to the next focusable control, wrapping to the first.
    Next,
    /// Shift+Tab: move to the previous focusable control, wrapping to the last.
    Previous,
    /// Home: move to the first focusable control.
    First,
    /// End: move to the last focusable control.
    Last,
}

/// A control is a keyboard stop if it is focusable and not unavailable.
pub open spec fn is_stop(node: SemanticNode) -> bool {
    node.state.has(FOCUSABLE) && !node.state.has(DISABLED)
}

/// The position `step` places away from `start` in a ring of `len` positions,
/// moving forward or backward and wrapping around.
pub open spec fn ring_step(len: int, start: int, forward: bool, step: int) -> int {
    if forward {
        if start + step < len {
            start + step
        } else {
            start + step - len
        }
    } else {
        if step <= start {
            start - step
        } else {
            start + len - step
        }
    }
}

/// The nearest keyboard stop at or after `step` places from `start` in the
/// given direction, considering each position once.
pub open spec fn scan_from(nodes: Seq<SemanticNode>, start: int, forward: bool, step: int) -> Option<int>
    decreases nodes.len() - step,
{
    if step < 0 || step >= nodes.len() {
        None
    } else if is_stop(nodes[ring_step(nodes.len() as int, start, forward, step)]) {
        Some(ring_step(nodes.len() as int, start, forward, step))
    } else {
        scan_from(nodes, start, forward, step + 1)
    }
}

/// The nearest keyboard stop from `start` in the given direction.
pub open spec fn spec_scan(nodes: Seq<SemanticNode>, start: int, forward: bool) -> Option<int> {
    scan_from(nodes, start, forward, 0)
}

/// Where a navigation command takes focus from `current`: Tab scans forward
/// from the control after the current one (the first when focus is unset),
/// Shift+Tab backward from the one before it (the last when unset), Home
/// forward from the first and End backward from the last.
pub open spec fn spec_navigate(nodes: Seq<SemanticNode>, current: Option<usize>, command: NavCommand) -> Option<int> {
    let len = nodes.len() as int;
    if len == 0 {
        None
    } else {
        match command {
            NavCommand::Next => spec_scan(
                nodes,
                match current {
                    Some(index) => if index + 1 == len { 0 } else { index + 1 },
                    None => 0,
                },
                true,
            ),
            NavCommand::Previous => spec_scan(
                nodes,
                match current {
                    Some(index) => if index == 0 { len - 1 } else { index - 1 },
                    None => len - 1,
                },
                false,
            ),
            NavCommand::First => spec_scan(nodes, 0, true),
            NavCommand::Last => spec_scan(nodes, len - 1, false),
        }
    }
}

/// How many of the first `n` nodes are keyboard stops.
pub open spec fn stops_in(nodes: Seq<SemanticNode>, n: int) -> nat
    decreases n,
{
    if n <= 0 {
        0
    } else {
        stops_in(nodes, n - 1) + if is_stop(nodes[n - 1]) { 1nat } else { 0nat }
    }
}

/// The focusable tab order of one screen, tracking where focus currently is.
pub struct FocusRing<'a> {
    nodes: &'a [SemanticNode<'a>],
    current: Option<usize>,
}

impl<'a> FocusRing<'a> {
    /// Focus, when set, is on a keyboard stop of the ring.
    #[verifier::type_invariant]
    spec fn focus_on_stop(self) -> bool {
        self.current matches Some(index) ==> index < self.nodes@.len() && is_stop(self.nodes@[index as int])
    }

    /// The tab order.
    pub closed spec fn spec_nodes(self) -> Seq<SemanticNode<'a>> {
        self.nodes@
    }

    /// The index focus is on, if any.
    pub closed spec fn spec_current(self) -> Option<usize> {
        self.current
    }

    /// Wrap a screen's tab order. Focus starts unset; the first navigation lands
    /// it on a focusable control.
    pub fn new(nodes: &'a [SemanticNode<'a>]) -> (r: Self)
        ensures
            r.spec_nodes() == nodes@,
            r.spec_current() is None,
    {
        Self { nodes, current: None }
    }

    /// A control is a keyboard stop if it is focusable and not unavailable.
    fn is_focus_stop(node: &SemanticNode) -> (r: bool)
        ensures
            r == is_stop(*node),
    {
        node.state.contains(FOCUSABLE) && !node.state.contains(DISABLED)
    }

    /// The node focus is on, if any.
    pub fn current(&self) -> (r: Option<&SemanticNode<'a>>)
        ensures
            match self.spec_current() {
                Some(index) => r == Some(&self.spec_nodes()[index as int]) && is_stop(
                    self.spec_nodes()[index as int],
                ),
                None => r is None,
            },
    {
        proof {
            use_type_invariant(self);
        }
        match self.current {
            Some(index) => Some(&self.nodes[index]),
            None => None,
        }
    }

    /// The index focus is on, if any.
    pub fn current_index(&self) -> (r: Option<usize>)
        ensures
            r == self.spec_current(),
    {
        self.current
    }

    /// The number of keyboard stops in the ring.
    pub fn stop_count(&self) -> (r: u32)
        ensures
            r == stops_in(self.spec_nodes(), self.spec_nodes().len() as int) as u32,
    {
        let mut count: usize = 0;
        let mut i: usize = 0;
        while i < self.nodes.len()
            invariant
                i <= self.nodes@.len(),
                count == stops_in(self.nodes@, i as int),
                count <= i,
            decreases self.nodes@.len() - i,
        {
            if Self::is_focus_stop(&self.nodes[i]) {
                count = count + 1;
            }
            i = i + 1;
        }
        count as u32
    }

    /// Scan for the nearest focus stop starting at `start`, moving forward or
    /// backward and wrapping, considering every position once.
    fn scan(&self, start: usize, forward: bool) -> (r: Option<usize>)
        requires
            start < self.nodes@.len(),
        ensures
            match spec_scan(self.nodes@, start as int, forward) {
                Some(index) => r == Some(index as usize) && 0 <= index < self.nodes@.len()
                    && is_stop(self.nodes@[index]),
                None => r is None,
            },
    {
        let len = self.nodes.len();
        let mut step: usize = 0;
        while step < len
            invariant
                len == self.nodes@.len(),
                start < len,
                step <= len,
                spec_scan(self.nodes@, start as int, forward) == scan_from(
                    self.nodes@,
                    start as int,
                    forward,
                    step as int,
                ),
            decreases len - step,
        {
            let index = if forward {
                if step < len - start {
                    start + step
                } else {
                    step - (len - start)
                }
            } else {
                if step <= start {
                    start - step
                } else {
                    start + (len - step)
                }
            };
            assert(index == ring_step(len as int, start as int, forward, step as int));
            if Self::is_focus_stop(&self.nodes[index]) {
                return Some(index);
            }
            step = step + 1;
        }
        None
    }

    /// Apply a navigation command, updating and returning the new focus index.
    /// Returns `None` only when the screen has no focusable control at all.
    pub fn navigate(&mut self, command: NavCommand) -> (r: Option<usize>)
        ensures
            final(self).spec_nodes() == old(self).spec_nodes(),
            match spec_navigate(old(self).spec_nodes(), old(self).spec_current(), command) {
                Some(index) => r == Some(index as usize) && final(self).spec_current() == r,
                None => r is None && final(self).spec_current() == old(self).spec_current(),
            },
    {
        proof {
            use_type_invariant(&*self);
        }
        let len = self.nodes.len();
        if len == 0 {
            return None;
        }
        let next = match command {
            NavCommand::Next => {
                let start = match self.current {
                    Some(index) => if index + 1 == len { 0 } else { index + 1 },
                    None => 0,
                };
                self.scan(start, true)
            },
            NavCommand::Previous => {
                let start = match self.current {
                    Some(index) => if index == 0 { len - 1 } else { index - 1 },
                    None => len - 1,
                };
                self.scan(start, false)
            },
            NavCommand::First => self.scan(0, true),
            NavCommand::Last => self.scan(len - 1, false),
        };
        if next.is_some() {
            self.current = next;
        }
        next
    }

    /// The position-in-set of the current focus among the keyboard stops, for a
    /// "3 of 7" announcement: the number of stops up to and including the focused
    /// one, out of all stops; no position when focus is unset.
    pub open spec fn spec_focus_context(self) -> FocusContext {
        match self.spec_current() {
            Some(index) => FocusContext {
                position_in_set: stops_in(self.spec_nodes(), index + 1) as u32,
                set_size: stops_in(self.spec_nodes(), self.spec_nodes().len() as int) as u32,
            },
            None => FocusContext { position_in_set: 0, set_size: 0 },
        }
    }

    /// The position-in-set of the current focus among the keyboard stops, for a
    /// "3 of 7" announcement. [`FocusContext::none`] when focus is unset.
    pub fn focus_context(&self) -> (r: FocusContext)
        requires
            stops_in(self.spec_nodes(), self.spec_nodes().len() as int) <= u32::MAX,
        ensures
            r == self.spec_focus_context(),
    {
        proof {
            use_type_invariant(self);
        }
        let current = match self.current {
            Some(index) => index,
            None => {
                return FocusContext::none();
            },
        };
        let mut set_size: u32 = 0;
        let mut position: u32 = 0;
        let mut i: usize = 0;
        while i < self.nodes.len()
            invariant
                i <= self.nodes@.len(),
                current < self.nodes@.len(),
                is_stop(self.nodes@[current as int]),
                stops_in(self.nodes@, self.nodes@.len() as int) <= u32::MAX,
                set_size == stops_in(self.nodes@, i as int),
                position == (if current < i { stops_in(self.nodes@, current + 1) } else { 0 }),
            decreases self.nodes@.len() - i,
        {
            proof {
                lemma_stops_in_monotone(self.nodes@, i + 1, self.nodes@.len() as int);
            }
            if Self::is_focus_stop(&self.nodes[i]) {
                set_size = set_size + 1;
                if i == current {
                    position = set_size;
                }
            }
            i = i + 1;
        }
        FocusContext::in_set(position, set_size)
    }

    /// Compose the utterance for the currently focused control, including its
    /// position in the tab order, into `buffer`. Empty when focus is unset.
    pub fn announce_current<'b>(&self, buffer: &'b mut [u8]) -> (r: &'b str)
        requires
            stops_in(self.spec_nodes(), self.spec_nodes().len() as int) <= u32::MAX,
        ensures
            match self.spec_current() {
                Some(index) => r.spec_bytes() == spec_focus(
                    self.spec_nodes()[index as int],
                    self.spec_focus_context(),
                    old(buffer)@.len() as int,
                ).bytes,
                None => r@.len() == 0,
            },
    {
        match self.current() {
            Some(node) => {
                let context = self.focus_context();
                announce_focus(node, context, buffer)
            },
            None => {
                proof {
                    reveal_strlit("");
                }
                ""
            },
        }
    }
}

/// Counting stops over a longer prefix never gives fewer.
pub proof fn lemma_stops_in_monotone(nodes: Seq<SemanticNode>, m: int, n: int)
    requires
        m <= n,
    ensures
        stops_in(nodes, m) <= stops_in(nodes, n),
    decreases n - m,
{
    if m < n {
        lemma_stops_in_monotone(nodes, m, n - 1);
    }
}

/// Each step of a scan stays inside the ring.
proof fn lemma_ring_step_in_range(len: int, start: int, forward: bool, step: int)
    requires
        0 <= start < len,
        0 <= step < len,
    ensures
        0 <= ring_step(len, start, forward, step) < len,
{
}

/// A scan that finds nothing has passed only over non-stops; one that finds a
/// control found a keyboard stop inside the ring.
proof fn lemma_scan_outcome(nodes: Seq<SemanticNode>, start: int, forward: bool, step: int)
    requires
        0 <= start < nodes.len(),
        0 <= step,
    ensures
        scan_from(nodes, start, forward, step) is None ==> forall|later: int|
            step <= later < nodes.len() ==> !is_stop(
                #[trigger] nodes[ring_step(nodes.len() as int, start, forward, later)],
            ),
        scan_from(nodes, start, forward, step) matches Some(index) ==> 0 <= index < nodes.len()
            && is_stop(nodes[index]),
    decreases nodes.len() - step,
{
    if step < nodes.len() {
        lemma_ring_step_in_range(nodes.len() as int, start, forward, step);
        lemma_scan_outcome(nodes, start, forward, step + 1);
    }
}

/// Every position of the ring is reached by some step of a scan.
proof fn lemma_ring_step_covers(len: int, start: int, forward: bool, target: int) -> (step: int)
    requires
        0 <= start < len,
        0 <= target < len,
    ensures
        0 <= step < len,
        ring_step(len, start, forward, step) == target,
{
    if forward {
        if target >= start {
            target - start
        } else {
            target + len - start
        }
    } else {
        if target <= start {
            start - target
        } else {
            start + len - target
        }
    }
}

/// Some node of the first `n` is a keyboard stop exactly when the count of
/// stops among them is not zero.
proof fn lemma_stops_in_positive(nodes: Seq<SemanticNode>, n: int)
    requires
        0 <= n <= nodes.len(),
    ensures
        stops_in(nodes, n) > 0 <==> exists|i: int| 0 <= i < n && is_stop(#[trigger] nodes[i]),
    decreases n,
{
    if n > 0 {
        lemma_stops_in_positive(nodes, n - 1);
        if is_stop(nodes[n - 1]) {
            assert(0 <= n - 1 < n && is_stop(nodes[n - 1]));
        }
    }
}

/// Focus is never lost: a navigation command finds a control exactly when the
/// screen has at least one keyboard stop, and always lands on one.
pub proof fn lemma_navigation_never_loses_focus(
    nodes: Seq<SemanticNode>,
    current: Option<usize>,
    command: NavCommand,
)
    requires
        current matches Some(index) ==> index < nodes.len(),
    ensures
        spec_navigate(nodes, current, command) is Some <==> stops_in(nodes, nodes.len() as int) > 0,
        spec_navigate(nodes, current, command) matches Some(index) ==> 0 <= index < nodes.len()
            && is_stop(nodes[index]),
{
    let len = nodes.len() as int;
    lemma_stops_in_positive(nodes, len);
    if len > 0 {
        let (start, forward) = match command {
            NavCommand::Next => (
                match current {
                    Some(index) => if index + 1 == len { 0 } else { index + 1 },
                    None => 0,
                },
                true,
            ),
            NavCommand::Previous => (
                match current {
                    Some(index) => if index == 0 { len - 1 } else { index - 1 },
                    None => len - 1,
                },
                false,
            ),
            NavCommand::First => (0, true),
            NavCommand::Last => (len - 1, false),
        };
        assert(spec_navigate(nodes, current, command) == spec_scan(nodes, start, forward));
        lemma_scan_outcome(nodes, start, forward, 0);
        if stops_in(nodes, len) > 0 {
            let target = choose|i: int| 0 <= i < len && is_stop(#[trigger] nodes[i]);
            let step = lemma_ring_step_covers(len, start, forward, target);
            assert(is_stop(nodes[ring_step(len, start, forward, step)]));
        }
    }
}

/// A forward scan from the first node passes over non-stops only.
proof fn lemma_scan_from_first(nodes: Seq<SemanticNode>, step: int)
    requires
        0 < nodes.len(),
        0 <= step,
    ensures
        scan_from(nodes, 0, true, step) matches Some(index) ==> step <= index && forall|j: int|
            step <= j < index ==> !is_stop(#[trigger] nodes[j]),
    decreases nodes.len() - step,
{
    if step < nodes.len() {
        lemma_scan_from_first(nodes, step + 1);
    }
}

/// A backward scan from the last node passes over non-stops only.
proof fn lemma_scan_from_last(nodes: Seq<SemanticNode>, step: int)
    requires
        0 < nodes.len(),
        0 <= step,
    ensures
        scan_from(nodes, nodes.len() - 1, false, step) matches Some(index) ==> index <= nodes.len()
            - 1 - step && forall|j: int| index < j <= nodes.len() - 1 - step ==> !is_stop(
            #[trigger] nodes[j],
        ),
    decreases nodes.len() - step,
{
    if step < nodes.len() {
        lemma_scan_from_last(nodes, step + 1);
    }
}

/// Home lands on the first keyboard stop of the tab order, and End on the last.
pub proof fn lemma_home_and_end_reach_the_extremes(nodes: Seq<SemanticNode>, current: Option<usize>)
    ensures
        spec_navigate(nodes, current, NavCommand::First) matches Some(index) ==> forall|j: int|
            0 <= j < index ==> !is_stop(#[trigger] nodes[j]),
        spec_navigate(nodes, current, NavCommand::Last) matches Some(index) ==> forall|j: int|
            index < j < nodes.len() ==> !is_stop(#[trigger] nodes[j]),
{
    if nodes.len() > 0 {
        lemma_scan_from_first(nodes, 0);
        lemma_scan_from_last(nodes, 0);
    }
}

} // verus!
