//! The typed failures of the resolver and the disk cache. Each carries what
//! a caller needs to report the failure: the offending name or path and,
//! where one exists, the text of the underlying I/O cause.

use vstd::prelude::*;

verus! {

#[derive(Debug)]
pub enum VcvarsError {
    /// A required environment-variable input is absent; carries its name.
    MissingEnvVarDependency(String),
    /// An expected file is missing; carries the computed path.
    FileNotFound(String),
    /// No architecture argument exists for the (host, target) pair.
    UnsupportedArch,
    /// A subprocess could not be spawned; carries the program path and the
    /// text of the I/O cause.
    CouldntRun(String, String),
    /// The initialization script reported an internal error; carries its
    /// combined output.
    VcvarsFailed(String),
    /// A cache-directory or cache-file operation failed; carries the path
    /// and the text of the I/O cause.
    CacheFailed(String, String),
    /// The resolved environment has no entry for the requested variable;
    /// carries the name exactly as requested.
    VarNotFound(String),
}

impl VcvarsError {
    /// The human-readable description of the failure.
    pub open spec fn message_spec(&self) -> Seq<char> {
        match self {
            VcvarsError::MissingEnvVarDependency(name) => "env var `"@ + name@
                + "` isn't set, which is a dependency to run vcvars"@,
            VcvarsError::FileNotFound(path) => "couldn't find file `"@ + path@ + "`"@,
            VcvarsError::UnsupportedArch => "unsupported host or target architecture"@,
            VcvarsError::CouldntRun(path, cause) => "couldn't run `"@ + path@ + "`: "@ + cause@,
            VcvarsError::VcvarsFailed(output) => "`vcvarsall.bat` failed: "@ + output@,
            VcvarsError::CacheFailed(path, cause) => "I/O operation regarding cache path `"@
                + path@ + "` failed: "@ + cause@,
            VcvarsError::VarNotFound(name) => "variable `"@ + name@
                + "` not found in vcvars environment"@,
        }
    }

    pub fn message(&self) -> (r: String)
        ensures
            r@ == self.message_spec(),
    {
        match self {
            VcvarsError::MissingEnvVarDependency(name) => String::from_str("env var `").concat(
                name.as_str(),
            ).concat("` isn't set, which is a dependency to run vcvars"),
            VcvarsError::FileNotFound(path) => String::from_str("couldn't find file `").concat(
                path.as_str(),
            ).concat("`"),
            VcvarsError::UnsupportedArch => String::from_str(
                "unsupported host or target architecture",
            ),
            VcvarsError::CouldntRun(path, cause) => String::from_str("couldn't run `").concat(
                path.as_str(),
            ).concat("`: ").concat(cause.as_str()),
            VcvarsError::VcvarsFailed(output) => String::from_str("`vcvarsall.bat` failed: ")
                .concat(output.as_str()),
            VcvarsError::CacheFailed(path, cause) => String::from_str(
                "I/O operation regarding cache path `",
            ).concat(path.as_str()).concat("` failed: ").concat(cause.as_str()),
            VcvarsError::VarNotFound(name) => String::from_str("variable `").concat(name.as_str())
                .concat("` not found in vcvars environment"),
        }
    }
}

} // verus!
