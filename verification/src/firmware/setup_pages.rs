//! The firmware setup laid out page by page, with every stored boot option as
//! a page of its own: the items of each page, what is spoken for them, and
//! what Enter, Escape and the arrows do.

use vstd::prelude::*;
use crate::firmware::keys::MenuKey;
use crate::firmware::setup_menu::ContinueReason;
use crate::firmware::setup_speech::Clip;
use crate::le_bytes::u16_le;
use crate::firmware::setup_menu::ValueSource;
use crate::text::{decode_utf16_lossy, is_blank, is_trim_of, same_text, trimmed_utf8_or, utf16_lossy};
use vstd::utf8::{decode_utf8, valid_utf8};

verus! {

/// A page of the setup; a boot option's page carries the option's position.
#[derive(Clone, Copy, Debug, PartialEq, Eq, Structural)]
pub enum Page {
    Root,
    Main,
    SystemInformation,
    Advanced,
    CpuConfiguration,
    Boot,
    BootPriorities,
    BootOption(usize),
    Security,
    SecureBoot,
    SaveExit,
    ConfirmRestart,
    ConfirmShutdown,
}

/// A stored boot option: its number and its description.
pub struct BootOption {
    pub number: u16,
    pub description: String,
}

/// The heading and spoken title of each page.
pub open spec fn spec_page_title(page: Page) -> (&'static str, Clip) {
    match page {
        Page::Root => ("Accessible Windows firmware setup", Clip::Setup),
        Page::Main => ("Main", Clip::Main),
        Page::SystemInformation => ("System information", Clip::SystemInformation),
        Page::Advanced => ("Advanced", Clip::Advanced),
        Page::CpuConfiguration => ("CPU configuration", Clip::CpuConfiguration),
        Page::Boot => ("Boot", Clip::Boot),
        Page::BootPriorities => ("Boot option priorities", Clip::BootOptionPriorities),
        Page::BootOption(_) => ("Boot option", Clip::BootOption),
        Page::Security => ("Security", Clip::Security),
        Page::SecureBoot => ("Secure Boot", Clip::SecureBoot),
        Page::SaveExit => ("Save and Exit", Clip::SaveExit),
        Page::ConfirmRestart => ("Confirm restart", Clip::ConfirmRestart),
        Page::ConfirmShutdown => ("Confirm shut down", Clip::ConfirmShutdown),
    }
}

/// The heading and spoken title of `page`.
pub fn page_title(page: Page) -> (r: (&'static str, Clip))
    ensures
        r == spec_page_title(page),
{
    match page {
        Page::Root => ("Accessible Windows firmware setup", Clip::Setup),
        Page::Main => ("Main", Clip::Main),
        Page::SystemInformation => ("System information", Clip::SystemInformation),
        Page::Advanced => ("Advanced", Clip::Advanced),
        Page::CpuConfiguration => ("CPU configuration", Clip::CpuConfiguration),
        Page::Boot => ("Boot", Clip::Boot),
        Page::BootPriorities => ("Boot option priorities", Clip::BootOptionPriorities),
        Page::BootOption(_) => ("Boot option", Clip::BootOption),
        Page::Security => ("Security", Clip::Security),
        Page::SecureBoot => ("Secure Boot", Clip::SecureBoot),
        Page::SaveExit => ("Save and Exit", Clip::SaveExit),
        Page::ConfirmRestart => ("Confirm restart", Clip::ConfirmRestart),
        Page::ConfirmShutdown => ("Confirm shut down", Clip::ConfirmShutdown),
    }
}

/// The page Escape (or "Back") returns to; the root is its own parent.
pub open spec fn spec_parent(page: Page) -> Page {
    match page {
        Page::Root => Page::Root,
        Page::Main | Page::Advanced | Page::Boot | Page::Security | Page::SaveExit => Page::Root,
        Page::SystemInformation => Page::Main,
        Page::CpuConfiguration => Page::Advanced,
        Page::BootPriorities => Page::Boot,
        Page::BootOption(_) => Page::BootPriorities,
        Page::SecureBoot => Page::Security,
        Page::ConfirmRestart | Page::ConfirmShutdown => Page::SaveExit,
    }
}

/// The parent of `page`.
pub fn parent(page: Page) -> (r: Page)
    ensures
        r == spec_parent(page),
{
    match page {
        Page::Root => Page::Root,
        Page::Main | Page::Advanced | Page::Boot | Page::Security | Page::SaveExit => Page::Root,
        Page::SystemInformation => Page::Main,
        Page::CpuConfiguration => Page::Advanced,
        Page::BootPriorities => Page::Boot,
        Page::BootOption(_) => Page::BootPriorities,
        Page::SecureBoot => Page::Security,
        Page::ConfirmRestart | Page::ConfirmShutdown => Page::SaveExit,
    }
}

/// The fixed item at `index` of `page`: its label and its phrase.
pub open spec fn spec_static_item(page: Page, index: int) -> Option<(&'static str, Clip)> {
    match page {
        Page::Root => if index == 0 { Some(("Main", Clip::Main)) }
            else if index == 1 { Some(("Advanced", Clip::Advanced)) }
            else if index == 2 { Some(("Boot", Clip::Boot)) }
            else if index == 3 { Some(("Security", Clip::Security)) }
            else if index == 4 { Some(("Save and Exit", Clip::SaveExit)) }
            else { None },
        Page::Main => if index == 0 { Some(("System information", Clip::SystemInformation)) }
            else if index == 1 { Some(("Back", Clip::Back)) }
            else { None },
        Page::SystemInformation => if index == 0 { Some(("CPU model", Clip::CpuModel)) }
            else if index == 1 { Some(("Firmware vendor", Clip::FirmwareVendor)) }
            else if index == 2 { Some(("Firmware revision", Clip::FirmwareRevision)) }
            else if index == 3 { Some(("UEFI revision", Clip::UefiRevision)) }
            else if index == 4 { Some(("Firmware time", Clip::FirmwareTime)) }
            else if index == 5 { Some(("Display resolution", Clip::DisplayResolution)) }
            else if index == 6 { Some(("Current boot option", Clip::BootCurrent)) }
            else if index == 7 { Some(("Back", Clip::Back)) }
            else { None },
        Page::Advanced => if index == 0 { Some(("CPU configuration", Clip::CpuConfiguration)) }
            else if index == 1 { Some(("Back", Clip::Back)) }
            else { None },
        Page::CpuConfiguration => if index == 0 { Some(("Architecture", Clip::Architecture)) }
            else if index == 1 { Some(("Virtualization capability", Clip::VirtualizationCapability)) }
            else if index == 2 { Some(("Back", Clip::Back)) }
            else { None },
        Page::Boot => if index == 0 { Some(("Boot option priorities", Clip::BootOptionPriorities)) }
            else if index == 1 { Some(("Boot normally", Clip::BootNormally)) }
            else if index == 2 { Some(("Back", Clip::Back)) }
            else { None },
        Page::BootPriorities => None,
        Page::BootOption(_) => if index == 0 { Some(("Boot now", Clip::BootNow)) }
            else if index == 1 { Some(("Set as default", Clip::SetAsDefault)) }
            else if index == 2 { Some(("Back", Clip::Back)) }
            else { None },
        Page::Security => if index == 0 { Some(("Secure Boot", Clip::SecureBoot)) }
            else if index == 1 { Some(("Back", Clip::Back)) }
            else { None },
        Page::SecureBoot => if index == 0 { Some(("Secure Boot status", Clip::SecureBootStatus)) }
            else if index == 1 { Some(("Setup mode", Clip::SetupMode)) }
            else if index == 2 { Some(("Back", Clip::Back)) }
            else { None },
        Page::SaveExit => if index == 0 { Some(("Boot normally", Clip::BootNormally)) }
            else if index == 1 { Some(("Restart", Clip::ResetSystem)) }
            else if index == 2 { Some(("Shut down", Clip::ShutDown)) }
            else if index == 3 { Some(("Back", Clip::Back)) }
            else { None },
        Page::ConfirmRestart => if index == 0 { Some(("Confirm restart", Clip::ConfirmRestart)) }
            else if index == 1 { Some(("Cancel", Clip::Cancel)) }
            else { None },
        Page::ConfirmShutdown => if index == 0 { Some(("Confirm shut down", Clip::ConfirmShutdown)) }
            else if index == 1 { Some(("Cancel", Clip::Cancel)) }
            else { None },
    }
}

/// The fixed item at `index` of `page`, if there is one.
pub fn static_item(page: Page, index: usize) -> (r: Option<(&'static str, Clip)>)
    ensures
        r == spec_static_item(page, index as int),
{
    match (page, index) {
        (Page::Root, 0) => Some(("Main", Clip::Main)),
        (Page::Root, 1) => Some(("Advanced", Clip::Advanced)),
        (Page::Root, 2) => Some(("Boot", Clip::Boot)),
        (Page::Root, 3) => Some(("Security", Clip::Security)),
        (Page::Root, 4) => Some(("Save and Exit", Clip::SaveExit)),
        (Page::Main, 0) => Some(("System information", Clip::SystemInformation)),
        (Page::Main, 1) => Some(("Back", Clip::Back)),
        (Page::SystemInformation, 0) => Some(("CPU model", Clip::CpuModel)),
        (Page::SystemInformation, 1) => Some(("Firmware vendor", Clip::FirmwareVendor)),
        (Page::SystemInformation, 2) => Some(("Firmware revision", Clip::FirmwareRevision)),
        (Page::SystemInformation, 3) => Some(("UEFI revision", Clip::UefiRevision)),
        (Page::SystemInformation, 4) => Some(("Firmware time", Clip::FirmwareTime)),
        (Page::SystemInformation, 5) => Some(("Display resolution", Clip::DisplayResolution)),
        (Page::SystemInformation, 6) => Some(("Current boot option", Clip::BootCurrent)),
        (Page::SystemInformation, 7) => Some(("Back", Clip::Back)),
        (Page::Advanced, 0) => Some(("CPU configuration", Clip::CpuConfiguration)),
        (Page::Advanced, 1) => Some(("Back", Clip::Back)),
        (Page::CpuConfiguration, 0) => Some(("Architecture", Clip::Architecture)),
        (Page::CpuConfiguration, 1) => Some(("Virtualization capability", Clip::VirtualizationCapability)),
        (Page::CpuConfiguration, 2) => Some(("Back", Clip::Back)),
        (Page::Boot, 0) => Some(("Boot option priorities", Clip::BootOptionPriorities)),
        (Page::Boot, 1) => Some(("Boot normally", Clip::BootNormally)),
        (Page::Boot, 2) => Some(("Back", Clip::Back)),
        (Page::BootOption(_), 0) => Some(("Boot now", Clip::BootNow)),
        (Page::BootOption(_), 1) => Some(("Set as default", Clip::SetAsDefault)),
        (Page::BootOption(_), 2) => Some(("Back", Clip::Back)),
        (Page::Security, 0) => Some(("Secure Boot", Clip::SecureBoot)),
        (Page::Security, 1) => Some(("Back", Clip::Back)),
        (Page::SecureBoot, 0) => Some(("Secure Boot status", Clip::SecureBootStatus)),
        (Page::SecureBoot, 1) => Some(("Setup mode", Clip::SetupMode)),
        (Page::SecureBoot, 2) => Some(("Back", Clip::Back)),
        (Page::SaveExit, 0) => Some(("Boot normally", Clip::BootNormally)),
        (Page::SaveExit, 1) => Some(("Restart", Clip::ResetSystem)),
        (Page::SaveExit, 2) => Some(("Shut down", Clip::ShutDown)),
        (Page::SaveExit, 3) => Some(("Back", Clip::Back)),
        (Page::ConfirmRestart, 0) => Some(("Confirm restart", Clip::ConfirmRestart)),
        (Page::ConfirmRestart, 1) => Some(("Cancel", Clip::Cancel)),
        (Page::ConfirmShutdown, 0) => Some(("Confirm shut down", Clip::ConfirmShutdown)),
        (Page::ConfirmShutdown, 1) => Some(("Cancel", Clip::Cancel)),
        _ => None,
    }
}

/// How many items each page shows, with `n` boot options stored: the
/// priorities page lists the options (or one "Unavailable" line when there
/// are none) and then "Back".
pub open spec fn spec_item_count(page: Page, n: nat) -> nat {
    match page {
        Page::Root => 5,
        Page::Main => 2,
        Page::SystemInformation => 8,
        Page::Advanced => 2,
        Page::CpuConfiguration => 3,
        Page::Boot => 3,
        Page::BootPriorities => if n >= 1 { n + 1 } else { 2 },
        Page::BootOption(_) => 3,
        Page::Security => 2,
        Page::SecureBoot => 3,
        Page::SaveExit => 4,
        Page::ConfirmRestart | Page::ConfirmShutdown => 2,
    }
}

/// The number of option lines on the priorities page: at least one.
pub fn boot_priorities_base(options: &[BootOption]) -> (r: usize)
    ensures
        r == if options@.len() >= 1 { options@.len() as int } else { 1 },
{
    if options.len() >= 1 { options.len() } else { 1 }
}

/// How many items `page` shows.
pub fn item_count(page: Page, options: &[BootOption]) -> (r: usize)
    requires
        options@.len() < usize::MAX,
    ensures
        r == spec_item_count(page, options@.len()),
{
    match page {
        Page::Root => 5,
        Page::Main => 2,
        Page::SystemInformation => 8,
        Page::Advanced => 2,
        Page::CpuConfiguration => 3,
        Page::Boot => 3,
        Page::BootPriorities => boot_priorities_base(options) + 1,
        Page::BootOption(_) => 3,
        Page::Security => 2,
        Page::SecureBoot => 3,
        Page::SaveExit => 4,
        Page::ConfirmRestart | Page::ConfirmShutdown => 2,
    }
}

/// What an item is called: on the priorities page an option's description,
/// "Back" on the last line and "Unavailable" on a line with no option;
/// elsewhere the fixed label, or "Unavailable" past the page's items.
pub open spec fn spec_item_text(page: Page, index: int, descriptions: Seq<Seq<char>>) -> Seq<char> {
    if page == Page::BootPriorities {
        if 0 <= index < descriptions.len() {
            descriptions[index]
        } else if index + 1 == spec_item_count(page, descriptions.len()) {
            "Back"@
        } else {
            "Unavailable"@
        }
    } else {
        match spec_static_item(page, index) {
            Some((label, _)) => label@,
            None => "Unavailable"@,
        }
    }
}

/// The descriptions of the stored options, in order.
pub open spec fn descriptions(options: Seq<BootOption>) -> Seq<Seq<char>> {
    options.map_values(|o: BootOption| o.description@)
}

/// The numbers of the stored options, in order.
pub open spec fn numbers(options: Seq<BootOption>) -> Seq<u16> {
    options.map_values(|o: BootOption| o.number)
}

/// What item `index` of `page` is called.
pub fn item_text<'a>(page: Page, index: usize, options: &'a [BootOption]) -> (r: &'a str)
    requires
        options@.len() < usize::MAX,
        index < usize::MAX,
    ensures
        r@ == spec_item_text(page, index as int, descriptions(options@)),
{
    if page == Page::BootPriorities {
        if index < options.len() {
            return options[index].description.as_str();
        }
        if index + 1 == item_count(page, options) {
            return "Back";
        }
        return "Unavailable";
    }
    match static_item(page, index) {
        Some((label, _)) => label,
        None => "Unavailable",
    }
}

/// A stored option's description: the UTF-16 text after the six-byte header
/// of the load option, up to the first NUL; nothing when the option is
/// shorter than eight bytes or the text is empty.
pub open spec fn spec_description_units(data: Seq<u8>) -> Option<Seq<u16>> {
    if data.len() < 8 {
        None
    } else {
        let n = nul_index(data, 0);
        if n == 0 { None } else { Some(Seq::new(n as nat, |i: int| u16_le(data, 6 + 2 * i))) }
    }
}

/// How many whole units from unit `from` on come before the first NUL unit
/// (or the end of the data), counted from the first unit.
pub open spec fn nul_index(data: Seq<u8>, from: int) -> int
    decreases (data.len() - 6) / 2 - from,
{
    if from < 0 || from >= (data.len() - 6) / 2 {
        if from < 0 { 0 } else { from }
    } else if u16_le(data, 6 + 2 * from) == 0 {
        from
    } else {
        nul_index(data, from + 1)
    }
}

/// Decode a stored option's description.
pub fn parse_boot_description(data: &[u8]) -> (r: Option<String>)
    ensures
        match spec_description_units(data@) {
            Some(units) => r matches Some(t) && t@ == utf16_lossy(units),
            None => r is None,
        },
{
    if data.len() < 8 {
        return None;
    }
    let pairs = (data.len() - 6) / 2;
    let mut units: Vec<u16> = Vec::new();
    let mut i: usize = 0;
    while i < pairs
        invariant
            data.len() >= 8,
            pairs == (data.len() - 6) / 2,
            i <= pairs,
            nul_index(data@, 0) == nul_index(data@, i as int),
            units@ =~= Seq::new(i as nat, |k: int| u16_le(data@, 6 + 2 * k)),
        ensures
            i == nul_index(data@, 0),
            units@ =~= Seq::new(i as nat, |k: int| u16_le(data@, 6 + 2 * k)),
        decreases pairs - i,
    {
        let unit = (data[6 + 2 * i] as u16) | ((data[6 + 2 * i + 1] as u16) << 8u16);
        if unit == 0 {
            break;
        }
        units.push(unit);
        i = i + 1;
    }
    if units.len() == 0 {
        None
    } else {
        Some(decode_utf16_lossy(units.as_slice()))
    }
}

/// What Enter does on an item, before any state changes.
#[derive(Clone, Copy, Debug, PartialEq, Eq, Structural)]
pub enum Target {
    /// Open a page.
    Enter(Page),
    /// Return to the parent page.
    Back,
    /// Announce the item and its value again.
    Announce,
    /// Leave the setup and boot normally.
    BootNormally,
    /// A priorities line with no option behind it.
    Unavailable,
    /// Boot the option at this position once.
    BootNow(usize),
    /// Make the option at this position the default.
    SetDefault(usize),
    /// Restart the machine.
    Restart,
    /// Power the machine off.
    Shutdown,
    /// Nothing.
    Nothing,
}

/// The target of item `selected` on `page` with `n` options stored.
pub open spec fn spec_target(page: Page, selected: int, n: nat) -> Target {
    match page {
        Page::Root => if selected == 0 { Target::Enter(Page::Main) }
            else if selected == 1 { Target::Enter(Page::Advanced) }
            else if selected == 2 { Target::Enter(Page::Boot) }
            else if selected == 3 { Target::Enter(Page::Security) }
            else if selected == 4 { Target::Enter(Page::SaveExit) }
            else { Target::Nothing },
        Page::Main => if selected == 0 { Target::Enter(Page::SystemInformation) }
            else if selected == 1 { Target::Back }
            else { Target::Nothing },
        Page::SystemInformation => if 0 <= selected <= 6 { Target::Announce }
            else if selected == 7 { Target::Back }
            else { Target::Nothing },
        Page::Advanced => if selected == 0 { Target::Enter(Page::CpuConfiguration) }
            else if selected == 1 { Target::Back }
            else { Target::Nothing },
        Page::CpuConfiguration => if 0 <= selected <= 1 { Target::Announce }
            else if selected == 2 { Target::Back }
            else { Target::Nothing },
        Page::Boot => if selected == 0 { Target::Enter(Page::BootPriorities) }
            else if selected == 1 { Target::BootNormally }
            else if selected == 2 { Target::Back }
            else { Target::Nothing },
        Page::BootPriorities => if 0 <= selected < n { Target::Enter(Page::BootOption(selected as usize)) }
            else if selected + 1 == spec_item_count(page, n) { Target::Back }
            else { Target::Unavailable },
        Page::BootOption(index) => if selected == 0 { Target::BootNow(index) }
            else if selected == 1 { Target::SetDefault(index) }
            else if selected == 2 { Target::Back }
            else { Target::Nothing },
        Page::Security => if selected == 0 { Target::Enter(Page::SecureBoot) }
            else if selected == 1 { Target::Back }
            else { Target::Nothing },
        Page::SecureBoot => if 0 <= selected <= 1 { Target::Announce }
            else if selected == 2 { Target::Back }
            else { Target::Nothing },
        Page::SaveExit => if selected == 0 { Target::BootNormally }
            else if selected == 1 { Target::Enter(Page::ConfirmRestart) }
            else if selected == 2 { Target::Enter(Page::ConfirmShutdown) }
            else if selected == 3 { Target::Back }
            else { Target::Nothing },
        Page::ConfirmRestart => if selected == 0 { Target::Restart }
            else if selected == 1 { Target::Back }
            else { Target::Nothing },
        Page::ConfirmShutdown => if selected == 0 { Target::Shutdown }
            else if selected == 1 { Target::Back }
            else { Target::Nothing },
    }
}

/// What the firmware must do after a keystroke.
#[derive(Clone, Copy, Debug, PartialEq, Eq, Structural)]
pub enum PageEffect {
    /// Nothing.
    Ignored,
    /// The selection moved: sound the move cue, redraw, announce the focus.
    Moved,
    /// A page was opened: sound the enter cue, redraw, speak the page and
    /// announce the focus.
    Opened(Page),
    /// The parent page was reopened: sound the back cue, redraw, speak it.
    WentBack(Page),
    /// Announce the focused item and its value again.
    Announce,
    /// Say "unavailable".
    Unavailable,
    /// Leave the setup and continue booting.
    Continue(ContinueReason),
    /// Store this option number as the next boot; restart when that worked.
    BootNext(u16),
    /// Make the option at `index`, numbered `number`, the default boot.
    SetDefault { index: usize, number: u16 },
    /// The boot option's page has no option behind it: report a failed action.
    MissingOption,
    /// Report success and restart the machine.
    Restart,
    /// Report success and power the machine off.
    Shutdown,
}

/// The mathematical state of the setup.
pub struct PagesView {
    pub page: Page,
    pub selected: usize,
    pub options: Seq<BootOption>,
}

/// The live state: the page shown, the selected item and the stored options
/// in boot order.
pub struct PagesState {
    pub page: Page,
    pub selected: usize,
    pub options: Vec<BootOption>,
}

impl View for PagesState {
    type V = PagesView;

    open spec fn view(&self) -> PagesView {
        PagesView { page: self.page, selected: self.selected, options: self.options@ }
    }
}

impl PagesView {
    pub open spec fn count(self) -> nat {
        spec_item_count(self.page, self.options.len())
    }

    /// The selection lies on an item of the page.
    pub open spec fn wf(self) -> bool {
        &&& self.options.len() < usize::MAX
        &&& self.selected < self.count()
    }

    pub open spec fn moved(self, forward: bool) -> usize {
        if forward {
            ((self.selected + 1) % (self.count() as int)) as usize
        } else if self.selected == 0 {
            (self.count() - 1) as usize
        } else {
            (self.selected - 1) as usize
        }
    }

    pub open spec fn at(self, page: Page) -> PagesView {
        PagesView { page, selected: 0, ..self }
    }

    pub open spec fn activated(self) -> (PagesView, PageEffect) {
        match spec_target(self.page, self.selected as int, self.options.len()) {
            Target::Enter(next) => (self.at(next), PageEffect::Opened(next)),
            Target::Back => (self.at(spec_parent(self.page)), PageEffect::WentBack(spec_parent(self.page))),
            Target::Announce => (self, PageEffect::Announce),
            Target::BootNormally => (self, PageEffect::Continue(ContinueReason::User)),
            Target::Unavailable => (self, PageEffect::Unavailable),
            Target::BootNow(index) => if index < self.options.len() {
                (self, PageEffect::BootNext(self.options[index as int].number))
            } else {
                (self, PageEffect::MissingOption)
            },
            Target::SetDefault(index) => if index < self.options.len() {
                (self, PageEffect::SetDefault { index, number: self.options[index as int].number })
            } else {
                (self, PageEffect::MissingOption)
            },
            Target::Restart => (self, PageEffect::Restart),
            Target::Shutdown => (self, PageEffect::Shutdown),
            Target::Nothing => (self, PageEffect::Ignored),
        }
    }

    pub open spec fn stepped(self, key: MenuKey) -> (PagesView, PageEffect) {
        match key {
            MenuKey::Next => (PagesView { selected: self.moved(true), ..self }, PageEffect::Moved),
            MenuKey::Previous => (PagesView { selected: self.moved(false), ..self }, PageEffect::Moved),
            MenuKey::Escape => if self.page == Page::Root {
                (self, PageEffect::Continue(ContinueReason::EscapeAtRoot))
            } else {
                (self.at(spec_parent(self.page)), PageEffect::WentBack(spec_parent(self.page)))
            },
            MenuKey::Enter => self.activated(),
            MenuKey::Other => (self, PageEffect::Ignored),
        }
    }

    /// After a successful "set as default": the option moves to the top of the
    /// list and the priorities page is shown with it selected.
    pub open spec fn defaulted(self, index: usize) -> PagesView {
        if index < self.options.len() {
            PagesView {
                page: Page::BootPriorities,
                selected: 0,
                options: seq![self.options[index as int]] + self.options.remove(index as int),
            }
        } else {
            self
        }
    }
}

/// The target of the selected item.
pub fn target(page: Page, selected: usize, options: &[BootOption]) -> (r: Target)
    requires
        options@.len() < usize::MAX,
    ensures
        r == spec_target(page, selected as int, options@.len()),
{
    match (page, selected) {
        (Page::Root, 0) => Target::Enter(Page::Main),
        (Page::Root, 1) => Target::Enter(Page::Advanced),
        (Page::Root, 2) => Target::Enter(Page::Boot),
        (Page::Root, 3) => Target::Enter(Page::Security),
        (Page::Root, 4) => Target::Enter(Page::SaveExit),
        (Page::Main, 0) => Target::Enter(Page::SystemInformation),
        (Page::Main, 1) => Target::Back,
        (Page::SystemInformation, 0..=6) => Target::Announce,
        (Page::SystemInformation, 7) => Target::Back,
        (Page::Advanced, 0) => Target::Enter(Page::CpuConfiguration),
        (Page::Advanced, 1) => Target::Back,
        (Page::CpuConfiguration, 0..=1) => Target::Announce,
        (Page::CpuConfiguration, 2) => Target::Back,
        (Page::Boot, 0) => Target::Enter(Page::BootPriorities),
        (Page::Boot, 1) | (Page::SaveExit, 0) => Target::BootNormally,
        (Page::Boot, 2) => Target::Back,
        (Page::BootPriorities, index) => {
            if index < options.len() {
                Target::Enter(Page::BootOption(index))
            } else if index < usize::MAX && index + 1 == item_count(page, options) {
                Target::Back
            } else {
                Target::Unavailable
            }
        },
        (Page::BootOption(index), 0) => Target::BootNow(index),
        (Page::BootOption(index), 1) => Target::SetDefault(index),
        (Page::BootOption(_), 2) => Target::Back,
        (Page::Security, 0) => Target::Enter(Page::SecureBoot),
        (Page::Security, 1) => Target::Back,
        (Page::SecureBoot, 0..=1) => Target::Announce,
        (Page::SecureBoot, 2) => Target::Back,
        (Page::SaveExit, 1) => Target::Enter(Page::ConfirmRestart),
        (Page::SaveExit, 2) => Target::Enter(Page::ConfirmShutdown),
        (Page::SaveExit, 3) => Target::Back,
        (Page::ConfirmRestart, 0) => Target::Restart,
        (Page::ConfirmRestart, 1) => Target::Back,
        (Page::ConfirmShutdown, 0) => Target::Shutdown,
        (Page::ConfirmShutdown, 1) => Target::Back,
        _ => Target::Nothing,
    }
}

impl PagesState {
    /// The setup as it opens, on the root page with its first item selected.
    pub fn new(options: Vec<BootOption>) -> (r: PagesState)
        requires
            options@.len() < usize::MAX,
        ensures
            r@ == (PagesView { page: Page::Root, selected: 0, options: options@ }),
            r@.wf(),
    {
        PagesState { page: Page::Root, selected: 0, options }
    }

    /// The selection one item forward (`delta >= 0`) or back, wrapping.
    pub fn move_selection(&self, delta: i8) -> (r: usize)
        requires
            self@.wf(),
        ensures
            r == self@.moved(delta >= 0),
    {
        let count = item_count(self.page, self.options.as_slice());
        if delta < 0 {
            if self.selected == 0 { count - 1 } else { self.selected - 1 }
        } else {
            (self.selected + 1) % count
        }
    }

    fn enter_page(&mut self, next: Page)
        ensures
            final(self)@ == old(self)@.at(next),
    {
        self.page = next;
        self.selected = 0;
    }

    /// Activate the selected item.
    pub fn activate(&mut self) -> (effect: PageEffect)
        requires
            old(self)@.wf(),
        ensures
            (final(self)@, effect) == old(self)@.activated(),
            final(self)@.wf(),
    {
        match target(self.page, self.selected, self.options.as_slice()) {
            Target::Enter(next) => {
                self.enter_page(next);
                PageEffect::Opened(next)
            },
            Target::Back => {
                let up = parent(self.page);
                self.enter_page(up);
                PageEffect::WentBack(up)
            },
            Target::Announce => PageEffect::Announce,
            Target::BootNormally => PageEffect::Continue(ContinueReason::User),
            Target::Unavailable => PageEffect::Unavailable,
            Target::BootNow(index) => {
                if index < self.options.len() {
                    PageEffect::BootNext(self.options[index].number)
                } else {
                    PageEffect::MissingOption
                }
            },
            Target::SetDefault(index) => {
                if index < self.options.len() {
                    PageEffect::SetDefault { index, number: self.options[index].number }
                } else {
                    PageEffect::MissingOption
                }
            },
            Target::Restart => PageEffect::Restart,
            Target::Shutdown => PageEffect::Shutdown,
            Target::Nothing => PageEffect::Ignored,
        }
    }

    /// Apply one keystroke and say what the firmware must do about it.
    pub fn handle_key(&mut self, key: MenuKey) -> (effect: PageEffect)
        requires
            old(self)@.wf(),
        ensures
            (final(self)@, effect) == old(self)@.stepped(key),
            final(self)@.wf(),
    {
        match key {
            MenuKey::Next => {
                self.selected = self.move_selection(1);
                PageEffect::Moved
            },
            MenuKey::Previous => {
                self.selected = self.move_selection(-1);
                PageEffect::Moved
            },
            MenuKey::Escape => {
                if self.page == Page::Root {
                    PageEffect::Continue(ContinueReason::EscapeAtRoot)
                } else {
                    let up = parent(self.page);
                    self.enter_page(up);
                    PageEffect::WentBack(up)
                }
            },
            MenuKey::Enter => self.activate(),
            MenuKey::Other => PageEffect::Ignored,
        }
    }

    /// The new default was stored: move the option to the top of the list and
    /// show the priorities page with it selected.
    pub fn adopt_default(&mut self, index: usize)
        requires
            old(self)@.wf(),
        ensures
            final(self)@ == old(self)@.defaulted(index),
            final(self)@.wf(),
    {
        if index < self.options.len() {
            let chosen = self.options.remove(index);
            self.options.insert(0, chosen);
            self.page = Page::BootPriorities;
            self.selected = 0;
            proof {
                assert(self.options@ =~= old(self)@.defaulted(index).options);
            }
        }
    }
}

/// What is spoken when a page opens: its title, and on a boot option's page
/// the option's description, spelled.
pub open spec fn spec_page_speech(page: Page, descriptions: Seq<Seq<char>>) -> (Clip, Option<Seq<char>>) {
    (spec_page_title(page).1, match page {
        Page::BootOption(index) => if index < descriptions.len() {
            Some(descriptions[index as int])
        } else {
            None
        },
        _ => None,
    })
}

/// The speech for opening `page`.
pub fn page_speech<'a>(page: Page, options: &'a [BootOption]) -> (r: (Clip, Option<&'a str>))
    ensures
        r.0 == spec_page_speech(page, descriptions(options@)).0,
        match spec_page_speech(page, descriptions(options@)).1 {
            Some(d) => r.1 matches Some(t) && t@ == d,
            None => r.1 is None,
        },
{
    let (_, clip) = page_title(page);
    match page {
        Page::BootOption(index) => {
            if index < options.len() {
                (clip, Some(options[index].description.as_str()))
            } else {
                (clip, None)
            }
        },
        _ => (clip, None),
    }
}

/// What is spoken, after "selected", for the focused item: on the priorities
/// page "boot option" and the spelled description, "back" on the last line and
/// "unavailable" on an empty line; elsewhere the item's phrase.
pub open spec fn spec_focus_speech(page: Page, selected: int, descriptions: Seq<Seq<char>>) -> Option<(Clip, Option<Seq<char>>)> {
    if page == Page::BootPriorities {
        if 0 <= selected < descriptions.len() {
            Some((Clip::BootOption, Some(descriptions[selected])))
        } else if selected + 1 == spec_item_count(page, descriptions.len()) {
            Some((Clip::Back, None))
        } else {
            Some((Clip::Unavailable, None))
        }
    } else {
        match spec_static_item(page, selected) {
            Some((_, clip)) => Some((clip, None)),
            None => None,
        }
    }
}

/// The speech announcing the focused item.
pub fn focus_speech<'a>(page: Page, selected: usize, options: &'a [BootOption]) -> (r: Option<(Clip, Option<&'a str>)>)
    requires
        options@.len() < usize::MAX,
        selected < usize::MAX,
    ensures
        match spec_focus_speech(page, selected as int, descriptions(options@)) {
            Some((clip, spelled)) => r matches Some(v) && v.0 == clip && match spelled {
                Some(d) => v.1 matches Some(t) && t@ == d,
                None => v.1 is None,
            },
            None => r is None,
        },
{
    if page == Page::BootPriorities {
        if selected < options.len() {
            Some((Clip::BootOption, Some(options[selected].description.as_str())))
        } else if selected + 1 == item_count(page, options) {
            Some((Clip::Back, None))
        } else {
            Some((Clip::Unavailable, None))
        }
    } else {
        match static_item(page, selected) {
            Some((_, clip)) => Some((clip, None)),
            None => None,
        }
    }
}

/// The firmware value shown beside item `index` of `page`, if it has one.
pub open spec fn spec_value_source(page: Page, index: int) -> Option<ValueSource> {
    match page {
        Page::SystemInformation => if index == 0 { Some(ValueSource::CpuModel) }
            else if index == 1 { Some(ValueSource::FirmwareVendor) }
            else if index == 2 { Some(ValueSource::FirmwareRevision) }
            else if index == 3 { Some(ValueSource::UefiRevision) }
            else if index == 4 { Some(ValueSource::FirmwareTime) }
            else if index == 5 { Some(ValueSource::DisplayResolution) }
            else if index == 6 { Some(ValueSource::BootCurrent) }
            else { None },
        Page::CpuConfiguration => if index == 0 { Some(ValueSource::Architecture) }
            else if index == 1 { Some(ValueSource::Virtualization) }
            else { None },
        Page::SecureBoot => if index == 0 { Some(ValueSource::SecureBoot) }
            else if index == 1 { Some(ValueSource::SetupMode) }
            else { None },
        _ => None,
    }
}

/// Which firmware value belongs beside item `index` of `page`.
pub fn value_source(page: Page, index: usize) -> (r: Option<ValueSource>)
    ensures
        r == spec_value_source(page, index as int),
{
    match (page, index) {
        (Page::SystemInformation, 0) => Some(ValueSource::CpuModel),
        (Page::SystemInformation, 1) => Some(ValueSource::FirmwareVendor),
        (Page::SystemInformation, 2) => Some(ValueSource::FirmwareRevision),
        (Page::SystemInformation, 3) => Some(ValueSource::UefiRevision),
        (Page::SystemInformation, 4) => Some(ValueSource::FirmwareTime),
        (Page::SystemInformation, 5) => Some(ValueSource::DisplayResolution),
        (Page::SystemInformation, 6) => Some(ValueSource::BootCurrent),
        (Page::CpuConfiguration, 0) => Some(ValueSource::Architecture),
        (Page::CpuConfiguration, 1) => Some(ValueSource::Virtualization),
        (Page::SecureBoot, 0) => Some(ValueSource::SecureBoot),
        (Page::SecureBoot, 1) => Some(ValueSource::SetupMode),
        _ => None,
    }
}

/// The text shown for a firmware flag.
pub fn flag_text(flag: Option<bool>) -> (r: &'static str)
    ensures
        r == match flag {
            Some(true) => "Enabled",
            Some(false) => "Disabled",
            None => "Unavailable",
        },
{
    match flag {
        Some(true) => "Enabled",
        Some(false) => "Disabled",
        None => "Unavailable",
    }
}

/// The text shown for the virtualization capability.
pub fn support_text(supported: bool) -> (r: &'static str)
    ensures
        r == if supported { "Supported" } else { "Not supported" },
{
    if supported { "Supported" } else { "Not supported" }
}

/// The phrase for a value that has one of its own (the flag and capability
/// words); any other value is announced as "value" and spelled.
pub open spec fn spec_known_value_clip(value: Seq<char>) -> Option<Clip> {
    if value == "Enabled"@ {
        Some(Clip::Enabled)
    } else if value == "Disabled"@ {
        Some(Clip::Disabled)
    } else if value == "Unavailable"@ {
        Some(Clip::Unavailable)
    } else if value == "Supported"@ {
        Some(Clip::Supported)
    } else if value == "Not supported"@ {
        Some(Clip::NotSupported)
    } else {
        None
    }
}

/// The phrase that speaks `value`, when it has one.
pub fn known_value_clip(value: &str) -> (r: Option<Clip>)
    ensures
        r == spec_known_value_clip(value@),
{
    if same_text(value, "Enabled") {
        Some(Clip::Enabled)
    } else if same_text(value, "Disabled") {
        Some(Clip::Disabled)
    } else if same_text(value, "Unavailable") {
        Some(Clip::Unavailable)
    } else if same_text(value, "Supported") {
        Some(Clip::Supported)
    } else if same_text(value, "Not supported") {
        Some(Clip::NotSupported)
    } else {
        None
    }
}

/// The position of the first stored option numbered `number`.
pub fn find_option(options: &[BootOption], number: u16) -> (r: Option<usize>)
    ensures
        match r {
            Some(i) => i < options@.len() && options@[i as int].number == number
                && forall|j: int| 0 <= j < i ==> options@[j].number != number,
            None => forall|j: int| 0 <= j < options@.len() ==> options@[j].number != number,
        },
{
    let mut i: usize = 0;
    while i < options.len()
        invariant
            i <= options@.len(),
            forall|j: int| 0 <= j < i ==> options@[j].number != number,
        decreases options.len() - i,
    {
        if options[i].number == number {
            return Some(i);
        }
        i = i + 1;
    }
    None
}

/// The bytes with any NUL bytes at either end removed.
pub open spec fn strip_nuls(bytes: Seq<u8>) -> Seq<u8> {
    bytes.subrange(leading_nuls(bytes, 0), bytes.len() - trailing_nuls(bytes, 0))
}

/// How many NUL bytes, from position `from` on, open the sequence.
pub open spec fn leading_nuls(bytes: Seq<u8>, from: int) -> int
    decreases bytes.len() - from,
{
    if from < 0 || from >= bytes.len() || bytes[from] != 0 {
        if from < 0 { 0 } else { from }
    } else {
        leading_nuls(bytes, from + 1)
    }
}

/// How many NUL bytes end the sequence, counting at least `from` already seen
/// and stopping before the leading ones.
pub open spec fn trailing_nuls(bytes: Seq<u8>, from: int) -> int
    decreases bytes.len() - from,
{
    if from < 0 || from >= bytes.len() || from >= bytes.len() - leading_nuls(bytes, 0) || bytes[bytes.len() - 1 - from] != 0 {
        if from < 0 { 0 } else { from }
    } else {
        trailing_nuls(bytes, from + 1)
    }
}

proof fn lemma_leading_nuls(bytes: Seq<u8>, from: int)
    requires
        0 <= from <= bytes.len(),
    ensures
        from <= leading_nuls(bytes, from) <= bytes.len(),
    decreases bytes.len() - from,
{
    if from < bytes.len() && bytes[from] == 0 {
        lemma_leading_nuls(bytes, from + 1);
    }
}

/// The processor brand from its 48 brand-string bytes: NUL padding removed
/// from both ends, then white space; "Unknown CPU" when the extended leaves
/// are not reported, the bytes are not UTF-8 or nothing is left.
pub fn cpu_brand(max_extended: u32, brand: &[u8]) -> (r: &str)
    ensures
        ({
            let text = strip_nuls(brand@);
            &&& max_extended >= 0x8000_0004 && valid_utf8(text) && !is_blank(decode_utf8(text))
                ==> is_trim_of(r@, decode_utf8(text))
            &&& !(max_extended >= 0x8000_0004 && valid_utf8(text) && !is_blank(decode_utf8(text)))
                ==> r == "Unknown CPU"
        }),
{
    if max_extended < 0x8000_0004 {
        return "Unknown CPU";
    }
    let mut start: usize = 0;
    while start < brand.len() && brand[start] == 0
        invariant
            start <= brand.len(),
            leading_nuls(brand@, 0) == leading_nuls(brand@, start as int),
        decreases brand.len() - start,
    {
        start = start + 1;
    }
    proof {
        lemma_leading_nuls(brand@, 0);
    }
    let mut trailing: usize = 0;
    while trailing < brand.len() - start && brand[brand.len() - 1 - trailing] == 0
        invariant
            start == leading_nuls(brand@, 0),
            start <= brand.len(),
            trailing <= brand.len() - start,
            trailing_nuls(brand@, 0) == trailing_nuls(brand@, trailing as int),
        decreases brand.len() - start - trailing,
    {
        trailing = trailing + 1;
    }
    let text = slice_between(brand, start, brand.len() - trailing);
    trimmed_utf8_or(text, "Unknown CPU")
}

/// The bytes of `bytes` from `start` up to `end`.
fn slice_between(bytes: &[u8], start: usize, end: usize) -> (r: &[u8])
    requires
        start <= end <= bytes@.len(),
    ensures
        r@ == bytes@.subrange(start as int, end as int),
{
    let (head, _) = bytes.split_at(end);
    let (_, tail) = head.split_at(start);
    proof {
        assert(tail@ =~= bytes@.subrange(start as int, end as int));
    }
    tail
}

/// Escape never strands anyone: from every page at most three presses reach
/// the root page, where one more boots normally; and every keystroke keeps the
/// selection on an item of the page shown.
pub proof fn lemma_escape_reaches_root(v: PagesView, key: MenuKey)
    requires
        v.wf(),
    ensures
        spec_parent(spec_parent(spec_parent(v.page))) == Page::Root,
        v.stepped(key).0.wf(),
        v.page == Page::Root ==> v.stepped(MenuKey::Escape).1 == PageEffect::Continue(ContinueReason::EscapeAtRoot),
{
    assert(v.count() >= 2);
    if key == MenuKey::Next {
        assert(((v.selected + 1) % (v.count() as int)) < v.count()) by (nonlinear_arith)
            requires v.count() >= 2;
    }
}

/// Making an option the default moves exactly that option to the top: the
/// list keeps its length and its options, the chosen one comes first and the
/// others keep their order.
pub proof fn lemma_default_moves_option_to_front(v: PagesView, index: usize)
    requires
        v.wf(),
        index < v.options.len(),
    ensures
        v.defaulted(index).options.len() == v.options.len(),
        v.defaulted(index).options[0] == v.options[index as int],
        v.defaulted(index).options.drop_first() == v.options.remove(index as int),
        v.defaulted(index).options.to_multiset() == v.options.to_multiset(),
        v.defaulted(index).wf(),
{
    broadcast use vstd::multiset::group_multiset_axioms;
    let o = v.options;
    let r = o.remove(index as int);
    assert(seq![o[index as int]] + r =~= r.insert(0, o[index as int]));
    vstd::seq_lib::to_multiset_insert(r, 0, o[index as int]);
    vstd::seq_lib::to_multiset_remove(o, index as int);
    o.to_multiset_ensures();
    assert(o.to_multiset().count(o[index as int]) > 0);
    assert(o.to_multiset().remove(o[index as int]).insert(o[index as int]) =~= o.to_multiset());
    assert((seq![o[index as int]] + r).drop_first() =~= r);
}

/// Whether the processor reports hardware virtualization: SVM (leaf
/// 0x8000_0001, ECX bit 2, counted only when that leaf is reported) or VMX
/// (leaf 1, ECX bit 5). This is the capability, not a firmware setting.
pub fn virtualization_capability(leaf1_ecx: u32, max_extended: u32, ext1_ecx: u32) -> (r: bool)
    ensures
        r == ((max_extended >= 0x8000_0001 && ext1_ecx & 0x4 != 0) || leaf1_ecx & 0x20 != 0),
{
    let svm = max_extended >= 0x8000_0001 && (ext1_ecx & (1u32 << 2u32)) != 0;
    proof {
        assert((1u32 << 5u32) == 0x20) by (bit_vector);
        assert((1u32 << 2u32) == 0x4) by (bit_vector);
    }
    svm || (leaf1_ecx & (1u32 << 5u32)) != 0
}

} // verus!
