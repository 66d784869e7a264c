pub mod detour;
pub mod drawing;
pub mod events;
pub mod feature;
pub mod hook;
pub mod memory;
pub mod patch;
pub mod ptweb;
pub mod runtime;
