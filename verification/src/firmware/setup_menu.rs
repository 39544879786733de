//! The hierarchical, keyboard-only firmware setup: its pages, their items and
//! what each keystroke does.
//!
//! Every page is a list of items; the arrows and Tab move the selection
//! (wrapping), Enter activates the selected item and Escape returns to the
//! parent page, or boots normally from the root page. The boot option
//! priorities page lists the stored boot order followed by "Back"; opening an
//! option leads to its own page, from which it can be booted once or made the
//! default.

use vstd::prelude::*;
use crate::firmware::keys::MenuKey;
use crate::firmware::setup_speech::Clip;
use crate::le_bytes::u16_le;
use crate::text::{decode_utf16_lossy, is_blank, is_trim_of, lemma_trim_blank, trimmed, trimmed_utf8_or, utf16_lossy};
use vstd::utf8::{decode_utf8, valid_utf8};

verus! {

/// A page of the setup.
#[derive(Clone, Copy, Debug, PartialEq, Eq, Structural)]
pub enum Page {
    Root,
    Main,
    SystemInformation,
    Advanced,
    CpuConfiguration,
    Boot,
    BootPriorities,
    BootEntry,
    Security,
    SecureBoot,
    SaveExit,
    ConfirmRestart,
    ConfirmShutdown,
}

/// What activating a fixed item does.
#[derive(Clone, Copy, Debug, PartialEq, Eq, Structural)]
pub enum Action {
    Enter(Page),
    Back,
    ContinueBoot,
    Restart,
    Shutdown,
    BootNow,
    SetAsDefault,
    Noop,
}

/// A fixed item of a page: its visible label, its spoken phrase and its action.
#[derive(Clone, Copy, Debug)]
pub struct MenuItem {
    pub label: &'static str,
    pub clip: Clip,
    pub action: Action,
}

/// A fixed item with this label, phrase and action.
pub open spec fn item(label: &'static str, clip: Clip, action: Action) -> MenuItem {
    MenuItem { label, clip, action }
}

/// The fixed items of each page (the boot option priorities page has none:
/// its items are the stored boot options and "Back").
pub open spec fn spec_static_items(page: Page) -> Seq<MenuItem> {
    match page {
        Page::Root => seq![
            item("Main", Clip::Main, Action::Enter(Page::Main)),
            item("Advanced", Clip::Advanced, Action::Enter(Page::Advanced)),
            item("Boot", Clip::Boot, Action::Enter(Page::Boot)),
            item("Security", Clip::Security, Action::Enter(Page::Security)),
            item("Save and Exit", Clip::SaveExit, Action::Enter(Page::SaveExit)),
        ],
        Page::Main => seq![
            item("System information", Clip::SystemInformation, Action::Enter(Page::SystemInformation)),
            item("CPU model", Clip::CpuModel, Action::Noop),
            item("Firmware time", Clip::FirmwareTime, Action::Noop),
            item("Back", Clip::Back, Action::Back),
        ],
        Page::SystemInformation => seq![
            item("Firmware vendor", Clip::FirmwareVendor, Action::Noop),
            item("Firmware revision", Clip::FirmwareRevision, Action::Noop),
            item("UEFI specification revision", Clip::UefiRevision, Action::Noop),
            item("Display resolution", Clip::DisplayResolution, Action::Noop),
            item("Current boot option", Clip::BootCurrent, Action::Noop),
            item("Back", Clip::Back, Action::Back),
        ],
        Page::Advanced => seq![
            item("CPU configuration", Clip::CpuConfiguration, Action::Enter(Page::CpuConfiguration)),
            item("Back", Clip::Back, Action::Back),
        ],
        Page::CpuConfiguration => seq![
            item("Architecture x86 64", Clip::Architecture, Action::Noop),
            item("Virtualization capability", Clip::VirtualizationCapability, Action::Noop),
            item("Back", Clip::Back, Action::Back),
        ],
        Page::Boot => seq![
            item("Boot option priorities", Clip::BootOptionPriorities, Action::Enter(Page::BootPriorities)),
            item("Boot normally", Clip::BootNormally, Action::ContinueBoot),
            item("Back", Clip::Back, Action::Back),
        ],
        Page::BootPriorities => Seq::empty(),
        Page::BootEntry => seq![
            item("Boot now", Clip::BootNow, Action::BootNow),
            item("Set as default", Clip::SetAsDefault, Action::SetAsDefault),
            item("Back", Clip::Back, Action::Back),
        ],
        Page::Security => seq![
            item("Secure Boot", Clip::SecureBoot, Action::Enter(Page::SecureBoot)),
            item("Back", Clip::Back, Action::Back),
        ],
        Page::SecureBoot => seq![
            item("Secure Boot status", Clip::SecureBootStatus, Action::Noop),
            item("Setup mode", Clip::SetupMode, Action::Noop),
            item("Back", Clip::Back, Action::Back),
        ],
        Page::SaveExit => seq![
            item("Boot normally", Clip::BootNormally, Action::ContinueBoot),
            item("Restart", Clip::ResetSystem, Action::Enter(Page::ConfirmRestart)),
            item("Shut down", Clip::ShutDown, Action::Enter(Page::ConfirmShutdown)),
            item("Back", Clip::Back, Action::Back),
        ],
        Page::ConfirmRestart => seq![
            item("Confirm restart", Clip::ConfirmRestart, Action::Restart),
            item("Cancel", Clip::Cancel, Action::Back),
        ],
        Page::ConfirmShutdown => seq![
            item("Confirm shut down", Clip::ConfirmShutdown, Action::Shutdown),
            item("Cancel", Clip::Cancel, Action::Back),
        ],
    }
}

/// The fixed items of `page`.
pub fn static_items(page: Page) -> (r: Vec<MenuItem>)
    ensures
        r@ == spec_static_items(page),
{
    match page {
        Page::Root => vec![
            MenuItem { label: "Main", clip: Clip::Main, action: Action::Enter(Page::Main) },
            MenuItem { label: "Advanced", clip: Clip::Advanced, action: Action::Enter(Page::Advanced) },
            MenuItem { label: "Boot", clip: Clip::Boot, action: Action::Enter(Page::Boot) },
            MenuItem { label: "Security", clip: Clip::Security, action: Action::Enter(Page::Security) },
            MenuItem { label: "Save and Exit", clip: Clip::SaveExit, action: Action::Enter(Page::SaveExit) },
        ],
        Page::Main => vec![
            MenuItem { label: "System information", clip: Clip::SystemInformation, action: Action::Enter(Page::SystemInformation) },
            MenuItem { label: "CPU model", clip: Clip::CpuModel, action: Action::Noop },
            MenuItem { label: "Firmware time", clip: Clip::FirmwareTime, action: Action::Noop },
            MenuItem { label: "Back", clip: Clip::Back, action: Action::Back },
        ],
        Page::SystemInformation => vec![
            MenuItem { label: "Firmware vendor", clip: Clip::FirmwareVendor, action: Action::Noop },
            MenuItem { label: "Firmware revision", clip: Clip::FirmwareRevision, action: Action::Noop },
            MenuItem { label: "UEFI specification revision", clip: Clip::UefiRevision, action: Action::Noop },
            MenuItem { label: "Display resolution", clip: Clip::DisplayResolution, action: Action::Noop },
            MenuItem { label: "Current boot option", clip: Clip::BootCurrent, action: Action::Noop },
            MenuItem { label: "Back", clip: Clip::Back, action: Action::Back },
        ],
        Page::Advanced => vec![
            MenuItem { label: "CPU configuration", clip: Clip::CpuConfiguration, action: Action::Enter(Page::CpuConfiguration) },
            MenuItem { label: "Back", clip: Clip::Back, action: Action::Back },
        ],
        Page::CpuConfiguration => vec![
            MenuItem { label: "Architecture x86 64", clip: Clip::Architecture, action: Action::Noop },
            MenuItem { label: "Virtualization capability", clip: Clip::VirtualizationCapability, action: Action::Noop },
            MenuItem { label: "Back", clip: Clip::Back, action: Action::Back },
        ],
        Page::Boot => vec![
            MenuItem { label: "Boot option priorities", clip: Clip::BootOptionPriorities, action: Action::Enter(Page::BootPriorities) },
            MenuItem { label: "Boot normally", clip: Clip::BootNormally, action: Action::ContinueBoot },
            MenuItem { label: "Back", clip: Clip::Back, action: Action::Back },
        ],
        Page::BootPriorities => Vec::new(),
        Page::BootEntry => vec![
            MenuItem { label: "Boot now", clip: Clip::BootNow, action: Action::BootNow },
            MenuItem { label: "Set as default", clip: Clip::SetAsDefault, action: Action::SetAsDefault },
            MenuItem { label: "Back", clip: Clip::Back, action: Action::Back },
        ],
        Page::Security => vec![
            MenuItem { label: "Secure Boot", clip: Clip::SecureBoot, action: Action::Enter(Page::SecureBoot) },
            MenuItem { label: "Back", clip: Clip::Back, action: Action::Back },
        ],
        Page::SecureBoot => vec![
            MenuItem { label: "Secure Boot status", clip: Clip::SecureBootStatus, action: Action::Noop },
            MenuItem { label: "Setup mode", clip: Clip::SetupMode, action: Action::Noop },
            MenuItem { label: "Back", clip: Clip::Back, action: Action::Back },
        ],
        Page::SaveExit => vec![
            MenuItem { label: "Boot normally", clip: Clip::BootNormally, action: Action::ContinueBoot },
            MenuItem { label: "Restart", clip: Clip::ResetSystem, action: Action::Enter(Page::ConfirmRestart) },
            MenuItem { label: "Shut down", clip: Clip::ShutDown, action: Action::Enter(Page::ConfirmShutdown) },
            MenuItem { label: "Back", clip: Clip::Back, action: Action::Back },
        ],
        Page::ConfirmRestart => vec![
            MenuItem { label: "Confirm restart", clip: Clip::ConfirmRestart, action: Action::Restart },
            MenuItem { label: "Cancel", clip: Clip::Cancel, action: Action::Back },
        ],
        Page::ConfirmShutdown => vec![
            MenuItem { label: "Confirm shut down", clip: Clip::ConfirmShutdown, action: Action::Shutdown },
            MenuItem { label: "Cancel", clip: Clip::Cancel, action: Action::Back },
        ],
    }
}

/// The heading of each page.
pub open spec fn spec_title(page: Page) -> &'static str {
    match page {
        Page::Root => "Accessible Windows firmware setup",
        Page::Main => "Main",
        Page::SystemInformation => "System information",
        Page::Advanced => "Advanced",
        Page::CpuConfiguration => "CPU configuration",
        Page::Boot => "Boot",
        Page::BootPriorities => "Boot option priorities",
        Page::BootEntry => "Boot option",
        Page::Security => "Security",
        Page::SecureBoot => "Secure Boot",
        Page::SaveExit => "Save and Exit",
        Page::ConfirmRestart => "Confirm restart",
        Page::ConfirmShutdown => "Confirm shut down",
    }
}

/// The heading of `page`.
pub fn title(page: Page) -> (r: &'static str)
    ensures
        r == spec_title(page),
{
    match page {
        Page::Root => "Accessible Windows firmware setup",
        Page::Main => "Main",
        Page::SystemInformation => "System information",
        Page::Advanced => "Advanced",
        Page::CpuConfiguration => "CPU configuration",
        Page::Boot => "Boot",
        Page::BootPriorities => "Boot option priorities",
        Page::BootEntry => "Boot option",
        Page::Security => "Security",
        Page::SecureBoot => "Secure Boot",
        Page::SaveExit => "Save and Exit",
        Page::ConfirmRestart => "Confirm restart",
        Page::ConfirmShutdown => "Confirm shut down",
    }
}

/// The page Escape (or "Back") returns to; the root is its own parent.
pub open spec fn spec_parent(page: Page) -> Page {
    match page {
        Page::Root => Page::Root,
        Page::Main | Page::Advanced | Page::Boot | Page::Security | Page::SaveExit => Page::Root,
        Page::SystemInformation => Page::Main,
        Page::CpuConfiguration => Page::Advanced,
        Page::BootPriorities => Page::Boot,
        Page::BootEntry => Page::BootPriorities,
        Page::SecureBoot => Page::Security,
        Page::ConfirmRestart | Page::ConfirmShutdown => Page::SaveExit,
    }
}

/// The parent of `page`.
pub fn parent(page: Page) -> (r: Page)
    ensures
        r == spec_parent(page),
{
    match page {
        Page::Root => Page::Root,
        Page::Main | Page::Advanced | Page::Boot | Page::Security | Page::SaveExit => Page::Root,
        Page::SystemInformation => Page::Main,
        Page::CpuConfiguration => Page::Advanced,
        Page::BootPriorities => Page::Boot,
        Page::BootEntry => Page::BootPriorities,
        Page::SecureBoot => Page::Security,
        Page::ConfirmRestart | Page::ConfirmShutdown => Page::SaveExit,
    }
}

/// How many items `page` shows when `boot_options` options are stored.
pub open spec fn spec_item_count(page: Page, boot_options: nat) -> nat {
    if page == Page::BootPriorities {
        boot_options + 1
    } else {
        spec_static_items(page).len()
    }
}

/// Why the setup ended and the boot goes on.
#[derive(Clone, Copy, Debug, PartialEq, Eq, Structural)]
pub enum ContinueReason {
    /// "Boot normally" was activated.
    User,
    /// Escape was pressed on the root page.
    EscapeAtRoot,
    /// Nobody touched the keyboard during the unattended window.
    Timeout,
}

/// What the firmware must do after a keystroke.
#[derive(Clone, Copy, Debug, PartialEq, Eq, Structural)]
pub enum SetupEffect {
    /// Nothing: the key has no binding.
    Ignored,
    /// The selection moved: sound the move cue, redraw, announce the focus.
    Moved,
    /// A page was opened: sound the enter cue, redraw, announce the focus.
    Opened(Page),
    /// The parent page was reopened: sound the back cue, redraw, announce.
    WentBack(Page),
    /// Announce the focused item (and its value) again.
    Announce,
    /// Leave the setup and continue booting.
    Continue(ContinueReason),
    /// Confirmed: say so and restart the machine.
    Restart,
    /// Confirmed: say so and power the machine off.
    Shutdown,
    /// Store this option as the next boot; on success restart, else say it failed.
    BootNext(u16),
    /// Make this option the default boot, then report success or failure.
    SetDefault(u16),
    /// The action needs a selected boot option and there is none: say it failed.
    NoSelection(Action),
}

/// The mathematical state of the setup.
pub struct SetupView {
    pub page: Page,
    pub selected: usize,
    pub selected_boot: Option<u16>,
    pub boot_order: Seq<u16>,
}

/// The live state of the setup: the page shown, the selected item, the boot
/// option being viewed, and the boot order as loaded (or last stored).
pub struct SetupState {
    pub page: Page,
    pub selected: usize,
    pub selected_boot: Option<u16>,
    pub boot_order: Vec<u16>,
}

impl View for SetupState {
    type V = SetupView;

    open spec fn view(&self) -> SetupView {
        SetupView {
            page: self.page,
            selected: self.selected,
            selected_boot: self.selected_boot,
            boot_order: self.boot_order@,
        }
    }
}

impl SetupView {
    /// The selection lies on an item of the page, and the item count is
    /// representable.
    pub open spec fn wf(self) -> bool {
        &&& self.boot_order.len() < usize::MAX
        &&& self.selected < spec_item_count(self.page, self.boot_order.len())
    }

    pub open spec fn count(self) -> nat {
        spec_item_count(self.page, self.boot_order.len())
    }

    /// The selection after moving one item forward or back, wrapping around.
    pub open spec fn moved(self, forward: bool) -> usize {
        let count = self.count();
        if count == 0 {
            0
        } else if !forward {
            if self.selected == 0 { (count - 1) as usize } else { (self.selected - 1) as usize }
        } else {
            ((self.selected + 1) % (count as int)) as usize
        }
    }

    /// `page` opened with its first item selected.
    pub open spec fn entered(self, page: Page) -> SetupView {
        SetupView { page, selected: 0, ..self }
    }

    /// The parent page reopened with its first item selected; leaving a boot
    /// option's page forgets the option.
    pub open spec fn backed(self) -> SetupView {
        let up = spec_parent(self.page);
        SetupView {
            page: up,
            selected: 0,
            selected_boot: if up != Page::BootEntry { None } else { self.selected_boot },
            ..self
        }
    }

    /// What Enter does.
    pub open spec fn activated(self) -> (SetupView, SetupEffect) {
        if self.page == Page::BootPriorities {
            if self.selected < self.boot_order.len() {
                let chosen = SetupView { selected_boot: Some(self.boot_order[self.selected as int]), ..self };
                (chosen.entered(Page::BootEntry), SetupEffect::Opened(Page::BootEntry))
            } else {
                (self.backed(), SetupEffect::WentBack(spec_parent(self.page)))
            }
        } else {
            match spec_static_items(self.page)[self.selected as int].action {
                Action::Enter(next) => (self.entered(next), SetupEffect::Opened(next)),
                Action::Back => (self.backed(), SetupEffect::WentBack(spec_parent(self.page))),
                Action::ContinueBoot => (self, SetupEffect::Continue(ContinueReason::User)),
                Action::Restart => (self, SetupEffect::Restart),
                Action::Shutdown => (self, SetupEffect::Shutdown),
                Action::BootNow => match self.selected_boot {
                    Some(id) => (self, SetupEffect::BootNext(id)),
                    None => (self, SetupEffect::NoSelection(Action::BootNow)),
                },
                Action::SetAsDefault => match self.selected_boot {
                    Some(id) => (self, SetupEffect::SetDefault(id)),
                    None => (self, SetupEffect::NoSelection(Action::SetAsDefault)),
                },
                Action::Noop => (self, SetupEffect::Announce),
            }
        }
    }

    /// What a keystroke does.
    pub open spec fn stepped(self, key: MenuKey) -> (SetupView, SetupEffect) {
        match key {
            MenuKey::Next => (SetupView { selected: self.moved(true), ..self }, SetupEffect::Moved),
            MenuKey::Previous => (SetupView { selected: self.moved(false), ..self }, SetupEffect::Moved),
            MenuKey::Escape => if self.page == Page::Root {
                (self, SetupEffect::Continue(ContinueReason::EscapeAtRoot))
            } else {
                (self.backed(), SetupEffect::WentBack(spec_parent(self.page)))
            },
            MenuKey::Enter => self.activated(),
            MenuKey::Other => (self, SetupEffect::Ignored),
        }
    }
}

impl SetupState {
    /// The setup as it opens: the root page, its first item, no boot option
    /// viewed, and the loaded boot order.
    pub fn new(boot_order: Vec<u16>) -> (r: SetupState)
        requires
            boot_order.len() < usize::MAX,
        ensures
            r@ == (SetupView { page: Page::Root, selected: 0, selected_boot: None, boot_order: boot_order@ }),
            r@.wf(),
    {
        SetupState { page: Page::Root, selected: 0, selected_boot: None, boot_order }
    }

    /// How many items the current page shows.
    pub fn item_count(&self) -> (r: usize)
        requires
            self@.wf(),
        ensures
            r == self@.count(),
    {
        if self.page == Page::BootPriorities {
            self.boot_order.len() + 1
        } else {
            static_items(self.page).len()
        }
    }

    /// The selection one item forward (`delta >= 0`) or back, wrapping.
    pub fn move_selection(&self, delta: i8) -> (r: usize)
        requires
            self@.wf(),
        ensures
            r == self@.moved(delta >= 0),
    {
        let count = self.item_count();
        if count == 0 {
            return 0;
        }
        if delta < 0 {
            if self.selected == 0 { count - 1 } else { self.selected - 1 }
        } else {
            (self.selected + 1) % count
        }
    }

    fn enter_page(&mut self, page: Page)
        requires
            old(self)@.wf(),
        ensures
            final(self)@ == old(self)@.entered(page),
    {
        self.page = page;
        self.selected = 0;
    }

    fn go_back(&mut self)
        requires
            old(self)@.wf(),
        ensures
            final(self)@ == old(self)@.backed(),
    {
        self.page = parent(self.page);
        self.selected = 0;
        if self.page != Page::BootEntry {
            self.selected_boot = None;
        }
    }

    /// Activate the selected item.
    pub fn activate(&mut self) -> (effect: SetupEffect)
        requires
            old(self)@.wf(),
        ensures
            (final(self)@, effect) == old(self)@.activated(),
            final(self)@.wf(),
    {
        if self.page == Page::BootPriorities {
            if self.selected < self.boot_order.len() {
                self.selected_boot = Some(self.boot_order[self.selected]);
                self.enter_page(Page::BootEntry);
                return SetupEffect::Opened(Page::BootEntry);
            } else {
                let up = parent(self.page);
                self.go_back();
                return SetupEffect::WentBack(up);
            }
        }
        let items = static_items(self.page);
        let chosen = items[self.selected];
        match chosen.action {
            Action::Enter(next) => {
                self.enter_page(next);
                SetupEffect::Opened(next)
            },
            Action::Back => {
                let up = parent(self.page);
                self.go_back();
                SetupEffect::WentBack(up)
            },
            Action::ContinueBoot => SetupEffect::Continue(ContinueReason::User),
            Action::Restart => SetupEffect::Restart,
            Action::Shutdown => SetupEffect::Shutdown,
            Action::BootNow => match self.selected_boot {
                Some(id) => SetupEffect::BootNext(id),
                None => SetupEffect::NoSelection(Action::BootNow),
            },
            Action::SetAsDefault => match self.selected_boot {
                Some(id) => SetupEffect::SetDefault(id),
                None => SetupEffect::NoSelection(Action::SetAsDefault),
            },
            Action::Noop => SetupEffect::Announce,
        }
    }

    /// Apply one keystroke and say what the firmware must do about it.
    pub fn handle_key(&mut self, key: MenuKey) -> (effect: SetupEffect)
        requires
            old(self)@.wf(),
        ensures
            (final(self)@, effect) == old(self)@.stepped(key),
            final(self)@.wf(),
    {
        match key {
            MenuKey::Next => {
                self.selected = self.move_selection(1);
                SetupEffect::Moved
            },
            MenuKey::Previous => {
                self.selected = self.move_selection(-1);
                SetupEffect::Moved
            },
            MenuKey::Escape => {
                if self.page == Page::Root {
                    SetupEffect::Continue(ContinueReason::EscapeAtRoot)
                } else {
                    let up = parent(self.page);
                    self.go_back();
                    SetupEffect::WentBack(up)
                }
            },
            MenuKey::Enter => self.activate(),
            MenuKey::Other => SetupEffect::Ignored,
        }
    }

    /// Keep the boot order just stored by "set as default".
    pub fn adopt_boot_order(&mut self, order: Vec<u16>)
        requires
            old(self)@.wf(),
            order.len() < usize::MAX,
            old(self).page == Page::BootPriorities ==> old(self).selected <= order.len(),
        ensures
            final(self)@ == (SetupView { boot_order: order@, ..old(self)@ }),
            final(self)@.wf(),
    {
        self.boot_order = order;
    }
}

/// What is focused, for announcing it.
#[derive(Clone, Copy, Debug)]
pub enum Focus {
    /// A stored boot option on the priorities page, by position and number.
    BootOption { index: usize, id: u16 },
    /// The "Back" item of the priorities page.
    Back,
    /// A fixed item.
    Item(MenuItem),
}

/// A firmware value shown beside an item.
#[derive(Clone, Copy, Debug, PartialEq, Eq, Structural)]
pub enum ValueSource {
    CpuModel,
    FirmwareTime,
    FirmwareVendor,
    FirmwareRevision,
    UefiRevision,
    DisplayResolution,
    BootCurrent,
    Architecture,
    Virtualization,
    SecureBoot,
    SetupMode,
    /// The boot option whose page is open.
    SelectedBoot(u16),
}

impl SetupView {
    pub open spec fn focus(self) -> Focus {
        if self.page == Page::BootPriorities {
            if self.selected < self.boot_order.len() {
                Focus::BootOption { index: self.selected, id: self.boot_order[self.selected as int] }
            } else {
                Focus::Back
            }
        } else {
            Focus::Item(spec_static_items(self.page)[self.selected as int])
        }
    }

    /// The value reported for the selected item, if it has one.
    pub open spec fn value_source(self) -> Option<ValueSource> {
        match (self.page, self.selected) {
            (Page::Main, 1) => Some(ValueSource::CpuModel),
            (Page::Main, 2) => Some(ValueSource::FirmwareTime),
            (Page::SystemInformation, 0) => Some(ValueSource::FirmwareVendor),
            (Page::SystemInformation, 1) => Some(ValueSource::FirmwareRevision),
            (Page::SystemInformation, 2) => Some(ValueSource::UefiRevision),
            (Page::SystemInformation, 3) => Some(ValueSource::DisplayResolution),
            (Page::SystemInformation, 4) => Some(ValueSource::BootCurrent),
            (Page::CpuConfiguration, 0) => Some(ValueSource::Architecture),
            (Page::CpuConfiguration, 1) => Some(ValueSource::Virtualization),
            (Page::SecureBoot, 0) => Some(ValueSource::SecureBoot),
            (Page::SecureBoot, 1) => Some(ValueSource::SetupMode),
            (Page::BootEntry, _) => match self.selected_boot {
                Some(id) => Some(ValueSource::SelectedBoot(id)),
                None => None,
            },
            _ => None,
        }
    }
}

impl SetupState {
    /// What to announce for the selection.
    pub fn focus(&self) -> (r: Focus)
        requires
            self@.wf(),
        ensures
            r == self@.focus(),
    {
        if self.page == Page::BootPriorities {
            if self.selected < self.boot_order.len() {
                Focus::BootOption { index: self.selected, id: self.boot_order[self.selected] }
            } else {
                Focus::Back
            }
        } else {
            let items = static_items(self.page);
            Focus::Item(items[self.selected])
        }
    }

    /// Which firmware value belongs to the selected item.
    pub fn value_source(&self) -> (r: Option<ValueSource>)
        ensures
            r == self@.value_source(),
    {
        match (self.page, self.selected) {
            (Page::Main, 1) => Some(ValueSource::CpuModel),
            (Page::Main, 2) => Some(ValueSource::FirmwareTime),
            (Page::SystemInformation, 0) => Some(ValueSource::FirmwareVendor),
            (Page::SystemInformation, 1) => Some(ValueSource::FirmwareRevision),
            (Page::SystemInformation, 2) => Some(ValueSource::UefiRevision),
            (Page::SystemInformation, 3) => Some(ValueSource::DisplayResolution),
            (Page::SystemInformation, 4) => Some(ValueSource::BootCurrent),
            (Page::CpuConfiguration, 0) => Some(ValueSource::Architecture),
            (Page::CpuConfiguration, 1) => Some(ValueSource::Virtualization),
            (Page::SecureBoot, 0) => Some(ValueSource::SecureBoot),
            (Page::SecureBoot, 1) => Some(ValueSource::SetupMode),
            (Page::BootEntry, _) => match self.selected_boot {
                Some(id) => Some(ValueSource::SelectedBoot(id)),
                None => None,
            },
            _ => None,
        }
    }
}

/// The phrase for a firmware flag: enabled, disabled, or unavailable when the
/// variable could not be read.
pub fn flag_clip(flag: Option<bool>) -> (r: Clip)
    ensures
        r == match flag {
            Some(true) => Clip::Enabled,
            Some(false) => Clip::Disabled,
            None => Clip::Unavailable,
        },
{
    match flag {
        Some(true) => Clip::Enabled,
        Some(false) => Clip::Disabled,
        None => Clip::Unavailable,
    }
}

/// A one-byte firmware flag is set when its first byte is nonzero; an empty
/// variable has no value.
pub fn flag_value(data: &[u8]) -> (r: Option<bool>)
    ensures
        r == if data@.len() == 0 { None } else { Some(data@[0] != 0) },
{
    if data.len() == 0 {
        None
    } else {
        Some(data[0] != 0)
    }
}

/// The first two bytes of a variable as a little-endian number, when it has
/// that many.
pub fn u16_value(data: &[u8]) -> (r: Option<u16>)
    ensures
        r == if data@.len() < 2 { None } else { Some(u16_le(data@, 0)) },
{
    if data.len() < 2 {
        None
    } else {
        Some((data[0] as u16) | ((data[1] as u16) << 8u16))
    }
}

/// Hardware virtualization is available when the processor reports VMX (leaf
/// 1, ECX bit 5) or SVM (leaf 0x8000_0001, ECX bit 2), each only counted when
/// its leaf is within the reported maximum.
pub open spec fn spec_virtualization(max_basic: u32, leaf1_ecx: u32, max_extended: u32, ext1_ecx: u32) -> bool {
    (max_basic >= 1 && leaf1_ecx & 0x20 != 0) || (max_extended >= 0x8000_0001 && ext1_ecx & 0x4 != 0)
}

/// Whether the processor can run hardware virtualization, from its CPUID
/// answers.
pub fn virtualization_supported(max_basic: u32, leaf1_ecx: u32, max_extended: u32, ext1_ecx: u32) -> (r: bool)
    ensures
        r == spec_virtualization(max_basic, leaf1_ecx, max_extended, ext1_ecx),
{
    let vmx = max_basic >= 1 && (leaf1_ecx & (1u32 << 5u32)) != 0;
    let svm = max_extended >= 0x8000_0001 && (ext1_ecx & (1u32 << 2u32)) != 0;
    proof {
        assert((1u32 << 5u32) == 0x20) by (bit_vector);
        assert((1u32 << 2u32) == 0x4) by (bit_vector);
    }
    vmx || svm
}

/// The processor model from its 48 brand-string bytes: the trimmed text when
/// the extended leaves are reported, the bytes are UTF-8 and not blank;
/// "x86 64" otherwise.
pub fn cpu_model(max_extended: u32, brand: &[u8]) -> (r: &str)
    ensures
        max_extended >= 0x8000_0004 && valid_utf8(brand@) && !is_blank(decode_utf8(brand@))
            ==> is_trim_of(r@, decode_utf8(brand@)),
        !(max_extended >= 0x8000_0004 && valid_utf8(brand@) && !is_blank(decode_utf8(brand@)))
            ==> r == "x86 64",
{
    if max_extended < 0x8000_0004 {
        return "x86 64";
    }
    trimmed_utf8_or(brand, "x86 64")
}

/// At most this many UTF-16 units of a boot option's description are read.
pub const MAX_DESCRIPTION_UNITS: usize = 96;

/// The description units of a stored boot option (an `EFI_LOAD_OPTION`): the
/// units after the six-byte attributes and path-length header, up to the first
/// NUL, at most 96 of them; nothing when the option is shorter than eight bytes.
pub open spec fn spec_description_units(data: Seq<u8>) -> Option<Seq<u16>> {
    if data.len() < 8 {
        None
    } else {
        let pairs = (data.len() - 6) / 2;
        let limit = if pairs < MAX_DESCRIPTION_UNITS { pairs } else { MAX_DESCRIPTION_UNITS as int };
        Some(Seq::new(units_before_nul(data, limit) as nat, |i: int| u16_le(data, 6 + 2 * i)))
    }
}

/// How many units, out of the first `limit`, come before the first NUL unit.
pub open spec fn units_before_nul(data: Seq<u8>, limit: int) -> int
    decreases limit,
{
    if limit <= 0 {
        0
    } else if units_before_nul(data, limit - 1) < limit - 1 {
        units_before_nul(data, limit - 1)
    } else if u16_le(data, 6 + 2 * (limit - 1)) == 0 {
        limit - 1
    } else {
        limit
    }
}

proof fn lemma_units_before_nul(data: Seq<u8>, limit: int)
    requires
        limit >= 0,
    ensures
        0 <= units_before_nul(data, limit) <= limit,
        units_before_nul(data, limit) < limit ==> u16_le(data, 6 + 2 * units_before_nul(data, limit)) == 0,
    decreases limit,
{
    if limit > 0 {
        lemma_units_before_nul(data, limit - 1);
    }
}

/// Read the description units of a stored boot option.
pub fn description_units(data: &[u8]) -> (r: Option<Vec<u16>>)
    ensures
        match r {
            Some(v) => spec_description_units(data@) == Some(v@),
            None => spec_description_units(data@) is None,
        },
{
    if data.len() < 8 {
        return None;
    }
    let pairs = (data.len() - 6) / 2;
    let limit = if pairs < MAX_DESCRIPTION_UNITS { pairs } else { MAX_DESCRIPTION_UNITS };
    let mut units: Vec<u16> = Vec::new();
    let mut i: usize = 0;
    while i < limit
        invariant
            data.len() >= 8,
            limit <= (data.len() - 6) / 2,
            limit == (if (data.len() - 6) / 2 < MAX_DESCRIPTION_UNITS { (data.len() - 6) / 2 } else { MAX_DESCRIPTION_UNITS as int }),
            i <= limit,
            units_before_nul(data@, i as int) == i,
            units@ =~= Seq::new(i as nat, |k: int| u16_le(data@, 6 + 2 * k)),
        decreases limit - i,
    {
        let unit = (data[6 + 2 * i] as u16) | ((data[6 + 2 * i + 1] as u16) << 8u16);
        if unit == 0 {
            proof {
                lemma_units_before_nul(data@, limit as int);
                lemma_nul_stops(data@, i as int, limit as int);
            }
            return Some(units);
        }
        units.push(unit);
        i = i + 1;
    }
    Some(units)
}

proof fn lemma_nul_stops(data: Seq<u8>, i: int, limit: int)
    requires
        0 <= i < limit,
        units_before_nul(data, i) == i,
        u16_le(data, 6 + 2 * i) == 0,
    ensures
        units_before_nul(data, limit) == i,
    decreases limit - i,
{
    if limit == i + 1 {
    } else {
        lemma_nul_stops(data, i, limit - 1);
    }
}

/// The text of a boot option's description units: decoded from UTF-16 and
/// trimmed, or nothing when that leaves it blank (the option is then named by
/// its number).
pub fn description_text(units: &[u16]) -> (r: Option<String>)
    ensures
        match r {
            Some(t) => !is_blank(utf16_lossy(units@)) && is_trim_of(t@, utf16_lossy(units@)),
            None => is_blank(utf16_lossy(units@)),
        },
{
    let text = decode_utf16_lossy(units);
    let rest = trimmed(text.as_str());
    proof {
        lemma_trim_blank(rest@, text@);
    }
    if rest.is_empty() {
        None
    } else {
        Some(rest.to_owned())
    }
}

/// Escape never strands anyone: from every page, at most three presses of
/// Escape lead to the root page, where one more boots normally.
pub proof fn lemma_escape_reaches_root(v: SetupView)
    requires
        v.wf(),
    ensures
        spec_parent(spec_parent(spec_parent(v.page))) == Page::Root,
        v.backed().backed().backed().page == Page::Root,
        v.backed().wf(),
        v.stepped(MenuKey::Escape).0.wf(),
        v.page == Page::Root ==> v.stepped(MenuKey::Escape).1 == SetupEffect::Continue(ContinueReason::EscapeAtRoot),
{
}

/// Moving to the next item and back to the previous one returns to the same
/// item, on every page.
pub proof fn lemma_next_then_previous(v: SetupView)
    requires
        v.wf(),
    ensures
        (SetupView { selected: v.moved(true), ..v }).moved(false) == v.selected,
        (SetupView { selected: v.moved(false), ..v }).moved(true) == v.selected,
{
    let count = v.count() as int;
    assert(count > 0);
    if v.selected + 1 < count {
        assert((v.selected + 1) % count == v.selected + 1) by (nonlinear_arith)
            requires 0 <= v.selected + 1 < count;
    } else {
        assert((v.selected + 1) % count == 0) by (nonlinear_arith)
            requires v.selected + 1 == count, count > 0;
    }
    if v.selected == 0 {
        assert((count - 1 + 1) % count == 0) by (nonlinear_arith)
            requires count > 0;
    } else {
        assert((v.selected - 1 + 1) % count == v.selected) by (nonlinear_arith)
            requires 0 < v.selected < count;
    }
}

} // verus!
