//! A terminal browser's core for services found by multicast service
//! discovery: the append-only registry of what was found, the selection in
//! it, the list/detail view state machine, and the lines each view shows.

pub mod record;
pub mod registry;
pub mod render;
pub mod screen;
