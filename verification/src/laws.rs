//! What the library promises its users, told in other words than its functions state it:
//! how results read, how calls relate to each other, and what stays the same.

pub mod devices;
pub mod documents;
pub mod files;
pub mod obs;
pub mod ordering;
pub mod pages;
pub mod playing;
pub mod publishing;
pub mod reading;
pub mod recording;
pub mod replay;
pub mod running;
pub mod settings;
pub mod shortcuts;
pub mod signing;
pub mod system;
pub mod texts;
pub mod video;
