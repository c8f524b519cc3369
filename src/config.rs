//! The loader's configuration and the resolver that picks its source.

use vstd::prelude::*;
use vstd::string::*;
use crate::error::B2Error;

verus! {

/// The configuration of the loader.
///
/// If no configuration can be loaded, the loader shows the fallback menu.
#[derive(Debug, Clone)]
pub struct Config {
    /// Alternative title.
    pub name: Option<String>,
    /// Message shown under the title.
    pub message: Option<String>,
    /// Menu items, in the order they are shown and selected.
    pub items: Vec<BootItem>,
    /// Default item, counting from 0.
    /// If the value is out of range, the first item is used.
    pub default: u32,
    /// Auto-boot timeout, in seconds.
    ///
    /// * `None`: wait for user interaction.
    /// * `Some(0)`: boot the default item at once unless a key is pressed.
    pub timeout: Option<u32>,
    /// If set, a password is required for the whole loader.
    pub password: Option<String>,
}

#[derive(Debug, Clone)]
pub struct BootItem {
    pub name: String,
    pub target: BootTarget,
}

/// Boot Target - represents a bootable target.
#[derive(Debug, Clone)]
pub enum BootTarget {
    /// EFI image.
    EFI { path: String, cmdline: Option<String> },
    /// Linux kernel, loaded directly.
    Linux { kernel: ImageLocation, initrd: Vec<ImageLocation>, cmdline: String },
    /// Display a message. The message should not be more than a page.
    Message(String),
    /// On supported platforms, the system reboots into firmware setup.
    FirmwareSetup,
    /// Reboot the machine.
    Reboot,
    /// Try to power off. If that fails, the loader keeps running.
    Poweroff,
    /// Exit, so that the firmware runs its other bootable targets.
    Exit,
    /// Show debug information.
    Debug,
    /// Nothing happens.
    Nop,
    /// The loader panics. Only offered in debug builds.
    Panic,
    /// A target this loader does not know; it is never executed.
    Unknown,
}

#[derive(Debug, Clone)]
pub enum ImageLocation {
    /// A path in the file system.
    Path(String),
    /// A whole partition as image.
    Partition { disk: i32, part: i32 },
    /// One contiguous extent inside a partition (0 is the whole disk).
    Segments { disk: i32, part: i32, segment: Extent },
    /// A location this loader does not know.
    Unknown,
}

#[derive(Debug, Clone, Copy, PartialEq, Eq, Structural)]
pub struct Extent {
    pub from: u32,
    pub length: u32,
}

pub open spec fn item_is(item: BootItem, name: Seq<char>, target: BootTarget) -> bool {
    item.name@ == name && item.target == target
}

/// The hardcoded menu used when no configuration source is usable: reboot,
/// power off, firmware setup, exit, debug information and, in debug builds,
/// a panic item.
pub open spec fn is_fallback_menu(c: Config, debug_build: bool) -> bool {
    let items = c.items@;
    &&& c.name is None
    &&& c.message matches Some(m) && m@ == "Error: No valid config found."@
    &&& c.default == 0
    &&& c.timeout is None
    &&& c.password is None
    &&& items.len() == if debug_build { 6int } else { 5int }
    &&& item_is(items[0], "Reboot"@, BootTarget::Reboot)
    &&& item_is(items[1], "Poweroff"@, BootTarget::Poweroff)
    &&& item_is(items[2], "Firmware Setup"@, BootTarget::FirmwareSetup)
    &&& item_is(items[3], "Exit"@, BootTarget::Exit)
    &&& item_is(items[4], "Debug Info"@, BootTarget::Debug)
    &&& debug_build ==> item_is(items[5], "Panic"@, BootTarget::Panic)
}

/// The sample menu of the authoring tool, on which new configurations are built.
pub open spec fn is_sample_menu(c: Config) -> bool {
    let items = c.items@;
    &&& c.name matches Some(n) && n@ == "b2 Menu"@
    &&& c.message matches Some(m) && m@ == ""@
    &&& c.default == 0
    &&& c.timeout is None
    &&& c.password is None
    &&& items.len() == 5
    &&& item_is(items[0], "Reboot"@, BootTarget::Reboot)
    &&& item_is(items[1], "Poweroff"@, BootTarget::Poweroff)
    &&& item_is(items[2], "Firmware Setup"@, BootTarget::FirmwareSetup)
    &&& item_is(items[3], "Exit"@, BootTarget::Exit)
    &&& item_is(items[4], "Debug Info"@, BootTarget::Debug)
}

/// The item that is selected by default.
pub open spec fn default_index(c: Config) -> int {
    if (c.default as int) < c.items@.len() {
        c.default as int
    } else {
        0
    }
}

fn item(name: &str, target: BootTarget) -> (r: BootItem)
    ensures
        r.name@ == name@,
        r.target == target,
{
    BootItem { name: String::from_str(name), target }
}

fn standard_items() -> (items: Vec<BootItem>)
    ensures
        items@.len() == 5,
        item_is(items@[0], "Reboot"@, BootTarget::Reboot),
        item_is(items@[1], "Poweroff"@, BootTarget::Poweroff),
        item_is(items@[2], "Firmware Setup"@, BootTarget::FirmwareSetup),
        item_is(items@[3], "Exit"@, BootTarget::Exit),
        item_is(items@[4], "Debug Info"@, BootTarget::Debug),
{
    let mut items: Vec<BootItem> = Vec::new();
    items.push(item("Reboot", BootTarget::Reboot));
    items.push(item("Poweroff", BootTarget::Poweroff));
    items.push(item("Firmware Setup", BootTarget::FirmwareSetup));
    items.push(item("Exit", BootTarget::Exit));
    items.push(item("Debug Info", BootTarget::Debug));
    items
}

/// The sample menu that the authoring tool starts new configurations from.
pub fn fallback_menu() -> (c: Config)
    ensures
        is_sample_menu(c),
{
    Config {
        name: Some(String::from_str("b2 Menu")),
        message: Some(String::from_str("")),
        items: standard_items(),
        default: 0,
        timeout: None,
        password: None,
    }
}

impl Config {
    /// The hardcoded menu; `debug_build` adds the panic item.
    pub fn fallback_menu(debug_build: bool) -> (c: Config)
        ensures
            is_fallback_menu(c, debug_build),
    {
        let mut items = standard_items();
        if debug_build {
            items.push(item("Panic", BootTarget::Panic));
        }
        Config {
            name: None,
            message: Some(String::from_str("Error: No valid config found.")),
            items,
            default: 0,
            timeout: None,
            password: None,
        }
    }

    /// Index of the item selected by default: `default`, or 0 when `default`
    /// is not the index of an item.
    pub fn default_item(&self) -> (i: usize)
        ensures
            i == default_index(*self),
    {
        if (self.default as usize) < self.items.len() {
            self.default as usize
        } else {
            0
        }
    }

    /// Picks the configuration: the one from the file if it loaded and
    /// parsed, else the one from the persisted variable, else the fallback
    /// menu. A failed source is passed over without error.
    pub fn resolve(
        file: Result<Config, B2Error>,
        variable: Result<Config, B2Error>,
        debug_build: bool,
    ) -> (c: Config)
        ensures
            file is Ok ==> c == file->Ok_0,
            file is Err && variable is Ok ==> c == variable->Ok_0,
            file is Err && variable is Err ==> is_fallback_menu(c, debug_build),
    {
        match file {
            Ok(f) => f,
            Err(_) => match variable {
                Ok(v) => v,
                Err(_) => Config::fallback_menu(debug_build),
            },
        }
    }
}

} // verus!
