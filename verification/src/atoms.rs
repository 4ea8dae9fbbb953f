//! Delay atoms: fixed-cost primitives a delay loop strings together.
//!
//! An atom is a routine that burns a predetermined number of CPU cycles and
//! does nothing else. Each atom module states its exact cycle cost, an
//! externally measured hardware fact, and the arithmetic for covering a
//! requested cycle count with whole atoms.

pub mod twenty_five_cycles;
