//! Resolves the environment variables that the Visual Studio toolchain's
//! `vcvarsall.bat` initialization script injects into a shell session, and
//! makes them queryable without re-running the expensive initialization.
//!
//! The resolver ([`resolver::Vcvars`]) locates `vswhere.exe` and the
//! initialization script, asks a driver to run them, parses the captured
//! environment dump into a map, and answers variable queries from it. The
//! disk cache ([`cache::CacheLookup`]) persists one value per variable under
//! a cache directory so later process invocations skip the subprocess work.
//!
//! Subprocess spawning and filesystem access cannot be performed here; both
//! components are written as explicit request/response machines: they hand a
//! request (read these inputs, probe this path, run this program) to the
//! caller, who performs it and feeds the outcome back.

pub mod cache;
pub mod envmap;
pub mod errors;
pub mod resolver;
pub mod text;
