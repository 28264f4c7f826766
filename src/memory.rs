//! The memory devices of the standard machine: the ROM in the low 16KB, a
//! RAM bank in the 16KB above it, and general RAM in the upper 32KB.
pub mod cpumem;
pub mod rom;
pub mod ulamem;

pub use cpumem::CPURam;
pub use rom::Rom;
pub use ulamem::ULARam;
