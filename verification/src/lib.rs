//! Verified core of the Vapour payment kiosk: the text handling, money
//! strings, keypad editing and screen flows that the kiosk program drives.

pub mod accounts;
pub mod animation;
pub mod clock;
pub mod keypad;
pub mod kiosk;
pub mod money;
pub mod runshaw;
pub mod text;
