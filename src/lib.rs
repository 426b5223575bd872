//! Appium client core: locators and their wire form, the routing of find
//! and custom requests to session URLs, the reading of find responses, the
//! decisions of a wait that polls for elements, and the key events and
//! rotations that device commands send.
pub mod commands;
pub mod find;
pub mod json;
pub mod wait;
