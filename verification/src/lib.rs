//! The target-independent decisions of a GCC code generation backend:
//! optimization levels, link-time optimization, global initializer names,
//! the target triple and integer narrowing, each with its contract.
pub mod backend;
pub mod conversion;
pub mod initializers;
pub mod opt_level;
pub mod target;

pub use backend::{FatLtoInput, FatLtoModule, GccCodegenBackend, Lto, ModuleBuffer, PrintOnPanic, ThinBuffer};
pub use conversion::{i128_to_u64, I128_TO_U64_MAX};
pub use opt_level::{to_gcc_opt_level, OptLevel, OptimizationLevel};
pub use initializers::{initializer_function_name, initializer_function_names};
pub use target::{link_target_cpu, target_triple, try_link_target_cpu, try_target_triple, UnknownTargetTriple};
