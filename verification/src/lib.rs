//! Interactive theme selection for a terminal emulator's configuration.
//!
//! The library holds the verified core of the selector: the colour-scheme
//! records and their deep-merge engine, the viewport (scroll window)
//! arithmetic, the input dispatcher that turns key and mouse events into
//! selection changes, and the session state machine that decides when the
//! external configuration document is written and what is written to it.
//! Reading and writing the document itself, the terminal, and rendering
//! are left to the surrounding binary.

pub mod colors;
pub mod input;
pub mod run;
pub mod session;
pub mod viewport;
