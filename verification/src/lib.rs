//! Launch-configuration logic for the Kotlin, GDScript and NetCoreDbg
//! debug adapters: building a debug scenario from an editor request,
//! filling in adapter defaults, locating a Kotlin project root and
//! merging environments.
pub mod json;
pub mod text;
pub mod env;
pub mod paths;
pub mod scenario;
pub mod schema;
pub mod gdscript;
pub mod kotlin;
pub mod netcoredbg;
pub mod laws;

