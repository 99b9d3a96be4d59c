//! Machine descriptions for a compiler backend with many architectures.
//!
//! Every architecture writes down its opcodes, registers and modes as
//! enumerations of its own. This library erases them into a few identifier
//! types that can be copied, compared and hashed, so that code that knows no
//! architecture can work with all of them, and it finds the concrete value
//! again where it is needed.

pub mod arch;
pub mod archs;
pub mod compiler;
pub mod derive;
pub mod encode;
pub mod error;
pub mod fmt;
pub mod helpers;
pub mod instr;
pub mod intern;
pub mod mach;
pub mod tag;
pub mod target;
pub mod text;
pub mod traits;
pub mod xva;

pub use error::Result;
