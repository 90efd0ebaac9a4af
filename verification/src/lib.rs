//! Locations inside a program's intermediate representation.
//!
//! A program is a control-flow graph of basic blocks holding instructions,
//! connected by edges. This crate names a position inside such a graph — at an
//! instruction, at an edge, or at an empty block — in two paired forms:
//!
//! * `RefProgramLocation` / `RefFunctionLocation`: borrowed locations that
//!   hold direct references into one program instance;
//! * `ProgramLocation` / `FunctionLocation`: owned, index-only locations that
//!   are independent of any instance.
//!
//! Borrowed locations can be stepped forward through the graph
//! (`advance_forward`), lowered to owned locations, re-applied against the
//! same program (`apply`), or re-resolved against a structurally related
//! program instance (`migrate`).

pub mod il;
pub mod location;
