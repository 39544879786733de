//! The decisions of the firmware stage: the accessible setup menus, the boot
//! screen review, the spelling bank, the audio codec's command encoding and the
//! loader's checks on what the firmware hands over. The firmware itself (key
//! polling, port and register access, variable storage, console output) drives
//! these functions and performs what they decide.

pub mod keys;
pub mod countdown;
pub mod setup_speech;
pub mod boot_order;
pub mod setup_menu;
pub mod setup_pages;
pub mod setup_session;
pub mod boot_review;
pub mod hda;
pub mod sound;
pub mod loader;
