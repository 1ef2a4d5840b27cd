//! Core logic for a pointer-hiding agent: while the user types, the mouse
//! pointer is hidden; any pointer motion or button activity reveals it again.
//!
//! The library holds the decision logic only: composing the ignored-modifier
//! mask, classifying a device's input classes into the event codes to
//! subscribe to, and the visibility state machine that maps each incoming
//! event to a next state and an optional show/hide command. Talking to the
//! display server is left to the surrounding program, which feeds events in
//! as plain values and carries the decisions out.

pub mod device;
pub mod machine;
pub mod mask;
