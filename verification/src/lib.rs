//! Temporarily overrides the operating system's pointer-cursor appearance and
//! restores it when a fixed unlock key sequence is recognized.
//!
//! The verified core has two parts: the cursor resource lifecycle (loading a
//! cursor image, substituting it into the system-wide cursor table for one
//! cursor kind, and reverting that slot to its prior image exactly once in
//! effect), and a key-sequence recognizer, a deterministic matcher over a
//! fixed target sequence of key symbols.
//!
//! The operating system's cursor table is modelled by an explicit capability
//! value, [`cursor::SystemSlot`], that stands for exclusive access to one
//! slot of the table; the platform calls that actually load images and write
//! the table are performed by the surrounding program, which feeds their plain
//! results (handles and error codes) into the verified functions here.

pub mod cursor;
pub mod recognizer;
pub mod session;
