//! The environment resolver. It locates the toolchain installer
//! (`vswhere.exe`) and the initialization script (`vcvarsall.bat`), has them
//! run in a `cmd.exe` child, parses the captured environment dump into a
//! map, and answers variable queries from it — at most one subprocess
//! sequence per instance.
//!
//! Spawning processes, probing files and reading environment variables
//! cannot happen here, so the resolver is a request/response machine: while
//! the map is unbuilt, [`Vcvars::ensure_env_map`] and [`Vcvars::resume`]
//! hand out a [`Request`]; the driver performs it and feeds a [`Response`]
//! back. Once the final step succeeds the map is built and [`Vcvars::get`]
//! answers queries without any further request.

use vstd::prelude::*;

use crate::envmap::{get_spec, parse_dump_spec, parse_env_dump, EnvMap};
use crate::errors::VcvarsError;
use crate::text::{
    chars_of, cmd_escaped, escape_for_cmd, has_prefix, join_escaped, join_lines_escaped,
    join_path, joined_path, spec_lines, split_lines, string_of, str_eq, trim_ascii, trim_spec,
    upper_ascii, upper_seq,
};

verus! {

// ---------------------------------------------------------------------------
// The protocol
// ---------------------------------------------------------------------------

/// How a driver must decode a child process's captured standard output.
#[derive(Clone, Copy, Debug, PartialEq, Eq, Structural)]
pub enum DecodeMode {
    /// The output is documented to be valid UTF-8; anything else is an
    /// unrecoverable contract violation of the invoked tool.
    StrictUtf8,
    /// Invalid byte sequences become a visible replacement character.
    Lossy,
}

/// What the resolver asks its driver to do next.
#[derive(Debug)]
pub enum Request {
    /// Read the resolver's external inputs and answer with
    /// `Response::Inputs`: the two environment variables named by
    /// [`env_var_installer_root`] and [`env_var_system_root`], the target
    /// architecture named by [`env_var_target_arch`], and the running
    /// process's own host architecture.
    Inputs,
    /// Answer with `Response::IsFile`: is the path an existing regular file?
    IsFile(String),
    /// Spawn the program with the arguments, wait for it, decode its
    /// standard output as `decode` says, and answer with `Response::Ran`:
    /// the decoded output, or the spawn error's text if it could not start.
    Run { program: String, args: Vec<String>, decode: DecodeMode },
}

/// A driver's answer to the matching [`Request`].
#[derive(Debug)]
pub enum Response {
    Inputs {
        program_files_x86: Option<String>,
        win_dir: Option<String>,
        target_arch: Option<String>,
        host_arch: String,
    },
    IsFile(bool),
    Ran(Result<String, String>),
}

/// What a query for the environment map finds.
#[derive(Debug)]
pub enum EnsureOutcome {
    /// The map is built; `get` answers without further work.
    Ready,
    /// The driver must perform this request and call `resume`.
    Pending(Request),
}

/// Where the resolver stands between two protocol steps.
#[derive(Debug)]
pub enum Phase {
    /// Nothing pending: either nothing was asked yet, or the map is built.
    Idle,
    /// Waiting for the external inputs.
    AwaitInputs,
    /// Waiting to hear whether the installer-query executable exists.
    AwaitVswhereFile { vswhere: String, win_dir: String, host: String, target: String },
    /// Waiting for the installer-query executable's output.
    AwaitVswhereOut {
        vswhere: String,
        win_dir: String,
        host: String,
        target: String,
        arch: String,
    },
    /// Waiting to hear whether the initialization script exists.
    AwaitVcvarsFile {
        vcvars: String,
        win_dir: String,
        host: String,
        target: String,
        arch: String,
    },
    /// Waiting for the shell's captured environment dump.
    AwaitCmdOut { cmd: String, host: String, target: String, arch: String },
}

impl Phase {
    /// Which response the phase expects; `Idle` expects none.
    pub open spec fn expects(self, resp: Response) -> bool {
        match self {
            Phase::Idle => false,
            Phase::AwaitInputs => resp is Inputs,
            Phase::AwaitVswhereFile { .. } => resp is IsFile,
            Phase::AwaitVswhereOut { .. } => resp is Ran,
            Phase::AwaitVcvarsFile { .. } => resp is IsFile,
            Phase::AwaitCmdOut { .. } => resp is Ran,
        }
    }
}

// ---------------------------------------------------------------------------
// The fixed pieces: names, paths, arguments, the separator, the marker
// ---------------------------------------------------------------------------

/// The environment variable naming the installer root.
pub fn env_var_installer_root() -> (r: String)
    ensures
        r@ == "PROGRAMFILES(X86)"@,
{
    String::from_str("PROGRAMFILES(X86)")
}

/// The environment variable naming the system root.
pub fn env_var_system_root() -> (r: String)
    ensures
        r@ == "WINDIR"@,
{
    String::from_str("WINDIR")
}

/// The environment variable naming the target architecture.
pub fn env_var_target_arch() -> (r: String)
    ensures
        r@ == "CARGO_CFG_TARGET_ARCH"@,
{
    String::from_str("CARGO_CFG_TARGET_ARCH")
}

/// The installer-query executable's fixed location under the installer root.
pub open spec fn vswhere_path_spec(pf86: Seq<char>) -> Seq<char> {
    joined_path(
        joined_path(joined_path(pf86, "Microsoft Visual Studio"@), "Installer"@),
        "vswhere.exe"@,
    )
}

/// The initialization script's fixed location under the installation root.
pub open spec fn vcvars_path_spec(vs_dir: Seq<char>) -> Seq<char> {
    joined_path(
        joined_path(joined_path(joined_path(vs_dir, "VC"@), "Auxiliary"@), "Build"@),
        "vcvarsall.bat"@,
    )
}

/// The shell's fixed location under the system root.
pub open spec fn cmd_path_spec(win_dir: Seq<char>) -> Seq<char> {
    joined_path(joined_path(win_dir, "System32"@), "cmd.exe"@)
}

/// The installer-query arguments: pre-release eligibility, the latest
/// eligible installation (or the caller's full replacement of that
/// selector), the installation-path property, UTF-8 output.
pub open spec fn vswhere_args_spec(subst: Option<Seq<Seq<char>>>) -> Seq<Seq<char>> {
    seq!["-prerelease"@] + (match subst {
        Some(s) => s,
        None => seq!["-latest"@],
    }) + seq!["-property"@, "installationPath"@, "-utf8"@]
}

/// The architecture argument of the initialization script for a (host,
/// target) pair, if the pair is supported.
pub open spec fn arch_token_spec(host: Seq<char>, target: Seq<char>) -> Option<Seq<char>> {
    if host == "x86"@ {
        if target == "x86"@ {
            Some("x86"@)
        } else if target == "x86_64"@ {
            Some("x86_x64"@)
        } else if target == "arm"@ {
            Some("x86_arm"@)
        } else if target == "aarch64"@ {
            Some("x86_arm64"@)
        } else {
            None
        }
    } else if host == "x86_64"@ {
        if target == "x86"@ {
            Some("x64_x86"@)
        } else if target == "x86_64"@ {
            Some("x64"@)
        } else if target == "arm"@ {
            Some("x64_arm"@)
        } else if target == "aarch64"@ {
            Some("x64_arm64"@)
        } else {
            None
        }
    } else {
        None
    }
}

/// Maps a (host, target) pair to the initialization script's argument.
pub fn arch_token(host: &str, target: &str) -> (r: Option<String>)
    ensures
        match r {
            Some(t) => arch_token_spec(host@, target@) == Some(t@),
            None => arch_token_spec(host@, target@) is None,
        },
{
    if str_eq(host, "x86") {
        if str_eq(target, "x86") {
            Some(String::from_str("x86"))
        } else if str_eq(target, "x86_64") {
            Some(String::from_str("x86_x64"))
        } else if str_eq(target, "arm") {
            Some(String::from_str("x86_arm"))
        } else if str_eq(target, "aarch64") {
            Some(String::from_str("x86_arm64"))
        } else {
            None
        }
    } else if str_eq(host, "x86_64") {
        if str_eq(target, "x86") {
            Some(String::from_str("x64_x86"))
        } else if str_eq(target, "x86_64") {
            Some(String::from_str("x64"))
        } else if str_eq(target, "arm") {
            Some(String::from_str("x64_arm"))
        } else if str_eq(target, "aarch64") {
            Some(String::from_str("x64_arm64"))
        } else {
            None
        }
    } else {
        None
    }
}

/// The sentinel echoed between the script's own output and the environment
/// dump: twenty `=` characters and an improbable suffix.
pub open spec fn separator_spec() -> Seq<char> {
    Seq::new(20, |i: int| '=') + "_unique_separator_by_rust_crate_that_utilizes_vcvars"@
}

/// Builds the separator line.
pub fn separator_line() -> (r: String)
    ensures
        r@ == separator_spec(),
{
    let mut v: Vec<char> = Vec::new();
    let mut i: usize = 0;
    while i < 20
        invariant
            i <= 20,
            v@ =~= Seq::new(i as nat, |k: int| '='),
        decreases 20 - i,
    {
        v.push('=');
        proof {
            assert(v@ =~= Seq::new(i as nat + 1, |k: int| '='));
        }
        i = i + 1;
    }
    let suffix = chars_of("_unique_separator_by_rust_crate_that_utilizes_vcvars");
    let mut j: usize = 0;
    let ghost base: Seq<char> = v@;
    while j < suffix.len()
        invariant
            j <= suffix.len(),
            v@ == base + suffix@.take(j as int),
            suffix@ == "_unique_separator_by_rust_crate_that_utilizes_vcvars"@,
        decreases suffix.len() - j,
    {
        v.push(suffix[j]);
        proof {
            assert(v@ =~= base + suffix@.take(j + 1));
        }
        j = j + 1;
    }
    proof {
        assert(base + suffix@.take(suffix@.len() as int) =~= separator_spec());
    }
    string_of(&v)
}

/// The error marker the initialization script prints when it fails (it
/// still exits with a success status, so this prefix is the failure signal).
pub open spec fn error_marker_spec() -> Seq<char> {
    "[ERROR:"@
}

/// The shell's one-shot command line: run the escaped script with the
/// architecture argument, chain an echo of the separator, chain the
/// environment dump.
pub open spec fn cmd_args_spec(vcvars: Seq<char>, arch: Seq<char>) -> Seq<Seq<char>> {
    seq![
        "/C"@,
        cmd_escaped(vcvars),
        arch,
        "&&"@,
        "echo."@ + separator_spec(),
        "&&"@,
        "set"@,
    ]
}

// ---------------------------------------------------------------------------
// The resolver
// ---------------------------------------------------------------------------

/// The environment resolver; see the module documentation.
pub struct Vcvars {
    env_map: Option<EnvMap>,
    vswhere_latest_substitute_args: Option<Vec<String>>,
    phase: Phase,
}

/// The views of optional substitute arguments.
pub open spec fn subst_view(o: Option<Vec<String>>) -> Option<Seq<Seq<char>>> {
    match o {
        Some(v) => Some(v.deep_view()),
        None => None,
    }
}

impl Vcvars {
    /// The environment map exists.
    pub closed spec fn built(&self) -> bool {
        self.env_map is Some
    }

    /// The content of the built environment map.
    pub closed spec fn env(&self) -> Map<Seq<char>, Seq<char>> {
        match self.env_map {
            Some(m) => m@,
            None => Map::empty(),
        }
    }

    /// The protocol state.
    pub closed spec fn phase(&self) -> Phase {
        self.phase
    }

    /// The pending replacement for the `-latest` selector, if any.
    pub closed spec fn subst(&self) -> Option<Seq<Seq<char>>> {
        subst_view(self.vswhere_latest_substitute_args)
    }

    /// Validity: a built map is well-formed and rests in `Idle`, and every
    /// phase past the architecture check carries the token of its own
    /// (host, target) pair.
    pub closed spec fn wf(&self) -> bool {
        &&& match self.env_map {
            Some(m) => m.wf() && self.phase is Idle,
            None => true,
        }
        &&& match self.phase {
            Phase::AwaitVswhereOut { host, target, arch, .. } => arch_token_spec(host@, target@)
                == Some(arch@),
            Phase::AwaitVcvarsFile { host, target, arch, .. } => arch_token_spec(host@, target@)
                == Some(arch@),
            Phase::AwaitCmdOut { host, target, arch, .. } => arch_token_spec(host@, target@)
                == Some(arch@),
            _ => true,
        }
    }

    /// A fresh resolver: nothing built, nothing pending, the regular
    /// `-latest` selector.
    pub fn new() -> (r: Self)
        ensures
            r.wf(),
            !r.built(),
            r.phase() is Idle,
            r.subst() is None,
    {
        Vcvars { env_map: None, vswhere_latest_substitute_args: None, phase: Phase::Idle }
    }

    /// Replaces the installer query's regular `-latest` argument wholesale
    /// with the given arguments, for pinning a specific version range. They
    /// are consumed by the next resolver run.
    pub fn not_vswhere_latest_but(self, substitute_args: Vec<String>) -> (r: Self)
        ensures
            r.subst() == Some(substitute_args.deep_view()),
            r.built() == self.built(),
            r.env() == self.env(),
            r.phase() == self.phase(),
            self.wf() ==> r.wf(),
    {
        Vcvars { vswhere_latest_substitute_args: Some(substitute_args), ..self }
    }

    /// The lazy guard: if the map is built this answers `Ready` and changes
    /// nothing — in particular no request, and so no subprocess, can follow
    /// within this instance. Otherwise it starts (or restarts) the build
    /// sequence by asking for the external inputs.
    pub fn ensure_env_map(&mut self) -> (r: EnsureOutcome)
        requires
            old(self).wf(),
        ensures
            final(self).wf(),
            old(self).built() ==> r == EnsureOutcome::Ready && *final(self) == *old(self),
            !old(self).built() ==> {
                &&& r == EnsureOutcome::Pending(Request::Inputs)
                &&& final(self).phase() is AwaitInputs
                &&& !final(self).built()
                &&& final(self).subst() == old(self).subst()
            },
    {
        if self.env_map.is_some() {
            EnsureOutcome::Ready
        } else {
            self.phase = Phase::AwaitInputs;
            EnsureOutcome::Pending(Request::Inputs)
        }
    }

    /// Is the environment map built?
    pub fn is_built(&self) -> (r: bool)
        ensures
            r == self.built(),
    {
        self.env_map.is_some()
    }

    /// Returns `var_name`'s value from the built map; lookups are
    /// case-insensitive, but the error names the variable exactly as
    /// requested.
    pub fn get(&self, var_name: &str) -> (r: Result<String, VcvarsError>)
        requires
            self.wf(),
            self.built(),
        ensures
            match r {
                Ok(v) => get_spec(self.env(), var_name@) == Some(v@),
                Err(e) => {
                    &&& get_spec(self.env(), var_name@) is None
                    &&& e matches VcvarsError::VarNotFound(n) && n@ == var_name@
                },
            },
    {
        let key = upper_ascii(var_name);
        match self.env_map {
            Some(ref m) => match m.lookup(&key) {
                Some(v) => Ok(v),
                None => Err(VcvarsError::VarNotFound(var_name.to_owned())),
            },
            // `built` rules the unbuilt case out.
            None => vstd::pervasive::unreached(),
        }
    }
}

// ---------------------------------------------------------------------------
// The step relation
// ---------------------------------------------------------------------------

/// The step failed: the machine is back at rest, nothing is built, and the
/// substitute arguments are as the step left them.
pub open spec fn reset_spec(pre: Vcvars, post: Vcvars) -> bool {
    &&& post.phase() is Idle
    &&& !post.built()
    &&& post.subst() == pre.subst()
}

/// The inputs step: each required external input is checked in order and
/// the first absent one is the failure; with all present, the next request
/// probes the installer-query executable's fixed location.
pub open spec fn step_inputs_spec(
    pre: Vcvars,
    pf86: Option<String>,
    wd: Option<String>,
    ta: Option<String>,
    ha: String,
    post: Vcvars,
    r: Result<EnsureOutcome, VcvarsError>,
) -> bool {
    match pf86 {
        None => {
            &&& r matches Err(VcvarsError::MissingEnvVarDependency(n)) && n@
                == "PROGRAMFILES(X86)"@
            &&& reset_spec(pre, post)
        },
        Some(pf) => match wd {
            None => {
                &&& r matches Err(VcvarsError::MissingEnvVarDependency(n)) && n@ == "WINDIR"@
                &&& reset_spec(pre, post)
            },
            Some(w) => match ta {
                None => {
                    &&& r matches Err(VcvarsError::MissingEnvVarDependency(n)) && n@
                        == "CARGO_CFG_TARGET_ARCH"@
                    &&& reset_spec(pre, post)
                },
                Some(t) => {
                    &&& r matches Ok(EnsureOutcome::Pending(Request::IsFile(p))) && p@
                        == vswhere_path_spec(pf@)
                    &&& post.phase() matches Phase::AwaitVswhereFile {
                        vswhere,
                        win_dir,
                        host,
                        target,
                    } && vswhere@ == vswhere_path_spec(pf@) && win_dir@ == w@ && host@ == ha@
                        && target@ == t@
                    &&& !post.built()
                    &&& post.subst() == pre.subst()
                },
            },
        },
    }
}

/// The installer-query file check: absent fails with the computed path;
/// present, the (host, target) pair must have an architecture argument —
/// checked before any process is run — and the next request runs the query,
/// consuming any substitute selector arguments.
pub open spec fn step_vswhere_file_spec(
    pre: Vcvars,
    vswhere: String,
    win_dir: String,
    host: String,
    target: String,
    present: bool,
    post: Vcvars,
    r: Result<EnsureOutcome, VcvarsError>,
) -> bool {
    if !present {
        &&& r matches Err(VcvarsError::FileNotFound(p)) && p@ == vswhere@
        &&& reset_spec(pre, post)
    } else {
        match arch_token_spec(host@, target@) {
            None => {
                &&& r == Err::<EnsureOutcome, VcvarsError>(VcvarsError::UnsupportedArch)
                &&& reset_spec(pre, post)
            },
            Some(a) => {
                &&& r matches Ok(EnsureOutcome::Pending(Request::Run { program, args, decode }))
                    && program@ == vswhere@ && args.deep_view() == vswhere_args_spec(pre.subst())
                    && decode == DecodeMode::StrictUtf8
                &&& post.phase() matches Phase::AwaitVswhereOut {
                    vswhere: v2,
                    win_dir: w2,
                    host: h2,
                    target: t2,
                    arch: a2,
                } && v2@ == vswhere@ && w2@ == win_dir@ && h2@ == host@ && t2@ == target@ && a2@
                    == a
                &&& !post.built()
                &&& post.subst() is None
            },
        }
    }
}

/// The installer-query output step: a spawn failure is `CouldntRun` with
/// the query's path; output in hand, its trimmed text is the installation
/// root, and the next request probes the initialization script's fixed
/// location under it.
pub open spec fn step_vswhere_out_spec(
    pre: Vcvars,
    vswhere: String,
    win_dir: String,
    host: String,
    target: String,
    arch: String,
    res: Result<String, String>,
    post: Vcvars,
    r: Result<EnsureOutcome, VcvarsError>,
) -> bool {
    match res {
        Err(e) => {
            &&& r matches Err(VcvarsError::CouldntRun(p, cause)) && p@ == vswhere@ && cause@ == e@
            &&& reset_spec(pre, post)
        },
        Ok(out) => {
            &&& r matches Ok(EnsureOutcome::Pending(Request::IsFile(p))) && p@ == vcvars_path_spec(
                trim_spec(out@),
            )
            &&& post.phase() matches Phase::AwaitVcvarsFile {
                vcvars: v2,
                win_dir: w2,
                host: h2,
                target: t2,
                arch: a2,
            } && v2@ == vcvars_path_spec(trim_spec(out@)) && w2@ == win_dir@ && h2@ == host@
                && t2@ == target@ && a2@ == arch@
            &&& !post.built()
            &&& post.subst() == pre.subst()
        },
    }
}

/// The initialization-script file check: absent fails with the computed
/// path; present, the next request runs the shell's one-shot command line,
/// with the script's path escaped for the shell.
pub open spec fn step_vcvars_file_spec(
    pre: Vcvars,
    vcvars: String,
    win_dir: String,
    host: String,
    target: String,
    arch: String,
    present: bool,
    post: Vcvars,
    r: Result<EnsureOutcome, VcvarsError>,
) -> bool {
    if !present {
        &&& r matches Err(VcvarsError::FileNotFound(p)) && p@ == vcvars@
        &&& reset_spec(pre, post)
    } else {
        &&& r matches Ok(EnsureOutcome::Pending(Request::Run { program, args, decode }))
            && program@ == cmd_path_spec(win_dir@) && args.deep_view() == cmd_args_spec(
            vcvars@,
            arch@,
        ) && decode == DecodeMode::Lossy
        &&& post.phase() matches Phase::AwaitCmdOut { cmd: c2, host: h2, target: t2, arch: a2 }
            && c2@ == cmd_path_spec(win_dir@) && h2@ == host@ && t2@ == target@ && a2@ == arch@
        &&& !post.built()
        &&& post.subst() == pre.subst()
    }
}

/// The dump step: a spawn failure is `CouldntRun` with the shell's path;
/// output beginning with the error marker is `VcvarsFailed`, carrying the
/// output's lines joined with a literal `\n`; otherwise the dump parses
/// into the environment map and the resolver is ready.
pub open spec fn step_cmd_out_spec(
    pre: Vcvars,
    cmd: String,
    res: Result<String, String>,
    post: Vcvars,
    r: Result<EnsureOutcome, VcvarsError>,
) -> bool {
    match res {
        Err(e) => {
            &&& r matches Err(VcvarsError::CouldntRun(p, cause)) && p@ == cmd@ && cause@ == e@
            &&& reset_spec(pre, post)
        },
        Ok(out) => {
            if error_marker_spec().is_prefix_of(out@) {
                &&& r matches Err(VcvarsError::VcvarsFailed(m)) && m@ == join_escaped(
                    spec_lines(out@),
                )
                &&& reset_spec(pre, post)
            } else {
                &&& r == Ok::<EnsureOutcome, VcvarsError>(EnsureOutcome::Ready)
                &&& post.built()
                &&& post.env() == parse_dump_spec(out@, separator_spec())
                &&& post.phase() is Idle
                &&& post.subst() == pre.subst()
            }
        },
    }
}

/// What one `resume` step does, phase by phase.
pub open spec fn resume_spec(
    pre: Vcvars,
    resp: Response,
    post: Vcvars,
    r: Result<EnsureOutcome, VcvarsError>,
) -> bool {
    match pre.phase() {
        Phase::Idle => false,
        Phase::AwaitInputs => match resp {
            Response::Inputs { program_files_x86, win_dir, target_arch, host_arch } =>
                step_inputs_spec(pre, program_files_x86, win_dir, target_arch, host_arch, post, r),
            _ => false,
        },
        Phase::AwaitVswhereFile { vswhere, win_dir, host, target } => match resp {
            Response::IsFile(present) => step_vswhere_file_spec(
                pre,
                vswhere,
                win_dir,
                host,
                target,
                present,
                post,
                r,
            ),
            _ => false,
        },
        Phase::AwaitVswhereOut { vswhere, win_dir, host, target, arch } => match resp {
            Response::Ran(res) => step_vswhere_out_spec(
                pre,
                vswhere,
                win_dir,
                host,
                target,
                arch,
                res,
                post,
                r,
            ),
            _ => false,
        },
        Phase::AwaitVcvarsFile { vcvars, win_dir, host, target, arch } => match resp {
            Response::IsFile(present) => step_vcvars_file_spec(
                pre,
                vcvars,
                win_dir,
                host,
                target,
                arch,
                present,
                post,
                r,
            ),
            _ => false,
        },
        Phase::AwaitCmdOut { cmd, host, target, arch } => match resp {
            Response::Ran(res) => step_cmd_out_spec(pre, cmd, res, post, r),
            _ => false,
        },
    }
}

impl Vcvars {
    /// Feeds the outcome of the pending request back and advances one step:
    /// the next request, the finished build, or the step's typed failure.
    /// A failure returns the machine to rest without memoizing anything, so
    /// the same instance may retry the whole sequence.
    pub fn resume(&mut self, response: Response) -> (r: Result<EnsureOutcome, VcvarsError>)
        requires
            old(self).wf(),
            old(self).phase().expects(response),
        ensures
            final(self).wf(),
            resume_spec(*old(self), response, *final(self), r),
    {
        let mut ph = Phase::Idle;
        core::mem::swap(&mut ph, &mut self.phase);
        match (ph, response) {
            (
                Phase::AwaitInputs,
                Response::Inputs { program_files_x86, win_dir, target_arch, host_arch },
            ) => {
                match program_files_x86 {
                    None => Err(VcvarsError::MissingEnvVarDependency(env_var_installer_root())),
                    Some(pf) => match win_dir {
                        None => Err(VcvarsError::MissingEnvVarDependency(env_var_system_root())),
                        Some(w) => match target_arch {
                            None => Err(
                                VcvarsError::MissingEnvVarDependency(env_var_target_arch()),
                            ),
                            Some(t) => {
                                let vswhere = join_path(
                                    join_path(
                                        join_path(pf.as_str(), "Microsoft Visual Studio").as_str(),
                                        "Installer",
                                    ).as_str(),
                                    "vswhere.exe",
                                );
                                let req = Request::IsFile(vswhere.clone());
                                self.phase = Phase::AwaitVswhereFile {
                                    vswhere,
                                    win_dir: w,
                                    host: host_arch,
                                    target: t,
                                };
                                Ok(EnsureOutcome::Pending(req))
                            },
                        },
                    },
                }
            },
            (
                Phase::AwaitVswhereFile { vswhere, win_dir, host, target },
                Response::IsFile(present),
            ) => {
                if !present {
                    Err(VcvarsError::FileNotFound(vswhere))
                } else {
                    match arch_token(host.as_str(), target.as_str()) {
                        None => Err(VcvarsError::UnsupportedArch),
                        Some(arch) => {
                            let args = self.take_vswhere_args();
                            let req = Request::Run {
                                program: vswhere.clone(),
                                args,
                                decode: DecodeMode::StrictUtf8,
                            };
                            self.phase = Phase::AwaitVswhereOut {
                                vswhere,
                                win_dir,
                                host,
                                target,
                                arch,
                            };
                            Ok(EnsureOutcome::Pending(req))
                        },
                    }
                }
            },
            (
                Phase::AwaitVswhereOut { vswhere, win_dir, host, target, arch },
                Response::Ran(res),
            ) => {
                match res {
                    Err(e) => Err(VcvarsError::CouldntRun(vswhere, e)),
                    Ok(out) => {
                        let vs_dir = trim_ascii(out.as_str());
                        let vcvars = join_path(
                            join_path(
                                join_path(join_path(vs_dir.as_str(), "VC").as_str(), "Auxiliary")
                                    .as_str(),
                                "Build",
                            ).as_str(),
                            "vcvarsall.bat",
                        );
                        let req = Request::IsFile(vcvars.clone());
                        self.phase = Phase::AwaitVcvarsFile { vcvars, win_dir, host, target, arch };
                        Ok(EnsureOutcome::Pending(req))
                    },
                }
            },
            (
                Phase::AwaitVcvarsFile { vcvars, win_dir, host, target, arch },
                Response::IsFile(present),
            ) => {
                if !present {
                    Err(VcvarsError::FileNotFound(vcvars))
                } else {
                    let cmd = join_path(join_path(win_dir.as_str(), "System32").as_str(), "cmd.exe");
                    let escaped = escape_for_cmd(vcvars.as_str());
                    let echo = String::from_str("echo.").concat(separator_line().as_str());
                    let mut args: Vec<String> = Vec::new();
                    args.push(String::from_str("/C"));
                    args.push(escaped);
                    args.push(arch.clone());
                    args.push(String::from_str("&&"));
                    args.push(echo);
                    args.push(String::from_str("&&"));
                    args.push(String::from_str("set"));
                    proof {
                        assert(args.deep_view() =~~= cmd_args_spec(vcvars@, arch@));
                    }
                    let req = Request::Run { program: cmd.clone(), args, decode: DecodeMode::Lossy };
                    self.phase = Phase::AwaitCmdOut { cmd, host, target, arch };
                    Ok(EnsureOutcome::Pending(req))
                }
            },
            (Phase::AwaitCmdOut { cmd, host, target, arch }, Response::Ran(res)) => {
                match res {
                    Err(e) => Err(VcvarsError::CouldntRun(cmd, e)),
                    Ok(out) => {
                        let ov = chars_of(out.as_str());
                        let marker = chars_of("[ERROR:");
                        if has_prefix(&ov, &marker) {
                            let lines = split_lines(&ov);
                            let mut lstrs: Vec<String> = Vec::new();
                            let mut k: usize = 0;
                            while k < lines.len()
                                invariant
                                    k <= lines.len(),
                                    lstrs.deep_view() == lines.deep_view().take(k as int),
                                decreases lines.len() - k,
                            {
                                let ghost dv_old = lstrs.deep_view();
                                let x = string_of(&lines[k]);
                                let ghost xv = x@;
                                lstrs.push(x);
                                proof {
                                    assert(lstrs.deep_view() =~~= dv_old.push(xv));
                                    assert(dv_old.push(xv) =~~= lines.deep_view().take(
                                        k as int + 1,
                                    ));
                                }
                                k = k + 1;
                            }
                            proof {
                                assert(lstrs.deep_view() =~~= spec_lines(out@));
                            }
                            let msg = join_lines_escaped(&lstrs);
                            Err(VcvarsError::VcvarsFailed(msg))
                        } else {
                            let sep = separator_line();
                            let env = parse_env_dump(out.as_str(), sep.as_str());
                            self.env_map = Some(env);
                            Ok(EnsureOutcome::Ready)
                        }
                    },
                }
            },
            // `expects` rules every other combination out.
            _ => vstd::pervasive::unreached(),
        }
    }

    /// Builds the installer-query arguments, consuming any substitute
    /// selector arguments.
    fn take_vswhere_args(&mut self) -> (args: Vec<String>)
        ensures
            args.deep_view() == vswhere_args_spec(old(self).subst()),
            final(self).subst() is None,
            final(self).built() == old(self).built(),
            final(self).env() == old(self).env(),
            final(self).phase() == old(self).phase(),
            old(self).wf() ==> final(self).wf(),
    {
        let mut args: Vec<String> = Vec::new();
        args.push(String::from_str("-prerelease"));
        let taken = self.vswhere_latest_substitute_args.take();
        match taken {
            Some(subst) => {
                let ghost sv = subst.deep_view();
                let mut k: usize = 0;
                while k < subst.len()
                    invariant
                        k <= subst.len(),
                        sv == subst.deep_view(),
                        args.deep_view() == seq!["-prerelease"@] + sv.take(k as int),
                    decreases subst.len() - k,
                {
                    let ghost dv_old = args.deep_view();
                    let x = subst[k].clone();
                    let ghost xv = x@;
                    args.push(x);
                    proof {
                        assert(args.deep_view() =~~= dv_old.push(xv));
                        assert(dv_old.push(xv) =~~= seq!["-prerelease"@] + sv.take(k as int + 1));
                    }
                    k = k + 1;
                }
                proof {
                    assert(sv.take(sv.len() as int) =~~= sv);
                }
            },
            None => {
                args.push(String::from_str("-latest"));
                proof {
                    assert(args.deep_view() =~~= seq!["-prerelease"@, "-latest"@]);
                }
            },
        }
        args.push(String::from_str("-property"));
        args.push(String::from_str("installationPath"));
        args.push(String::from_str("-utf8"));
        proof {
            assert(args.deep_view() =~~= vswhere_args_spec(subst_view(taken)));
        }
        args
    }
}

// ---------------------------------------------------------------------------
// Laws
// ---------------------------------------------------------------------------

/// Case-insensitive queries on a resolver: a name, its uppercased form and
/// its lowercased form are answered identically from the environment map.
pub proof fn lemma_vcvars_get_case_insensitive(v: Vcvars, name: Seq<char>)
    ensures
        get_spec(v.env(), upper_seq(name)) == get_spec(v.env(), name),
        get_spec(v.env(), crate::text::lower_seq(name)) == get_spec(v.env(), name),
{
    crate::envmap::lemma_get_case_insensitive(v.env(), name);
}

/// Once the environment map is built, the machine rests: it expects no
/// response, so no further step — and in particular no further process
/// run — can happen within this instance. Together with the guard in
/// `ensure_env_map`, a second query on the same instance never spawns a
/// second subprocess.
pub proof fn lemma_built_expects_nothing(v: Vcvars, resp: Response)
    requires
        v.wf(),
        v.built(),
    ensures
        !v.phase().expects(resp),
{
}

/// An unsupported (host, target) pair fails with `UnsupportedArch` and
/// returns the machine to rest before any process request is issued.
pub proof fn lemma_unsupported_arch_fails(
    pre: Vcvars,
    resp: Response,
    post: Vcvars,
    r: Result<EnsureOutcome, VcvarsError>,
)
    requires
        resume_spec(pre, resp, post, r),
        pre.phase() matches Phase::AwaitVswhereFile { host, target, .. } && arch_token_spec(
            host@,
            target@,
        ) is None,
        resp matches Response::IsFile(true),
    ensures
        r == Err::<EnsureOutcome, VcvarsError>(VcvarsError::UnsupportedArch),
        post.phase() is Idle,
        !post.built(),
{
}

/// Every step that issues a process-run request does so only for a pair
/// whose architecture argument exists: the architecture check precedes
/// every subprocess of a resolution.
pub proof fn lemma_run_needs_supported_arch(
    pre: Vcvars,
    resp: Response,
    post: Vcvars,
    r: Result<EnsureOutcome, VcvarsError>,
)
    requires
        pre.wf(),
        resume_spec(pre, resp, post, r),
        r matches Ok(EnsureOutcome::Pending(Request::Run { .. })),
    ensures
        pre.phase() matches Phase::AwaitVswhereFile { host, target, .. } ==> arch_token_spec(
            host@,
            target@,
        ) is Some,
        pre.phase() matches Phase::AwaitVcvarsFile { host, target, .. } ==> arch_token_spec(
            host@,
            target@,
        ) is Some,
        pre.phase() is AwaitVswhereFile || pre.phase() is AwaitVcvarsFile,
{
}

} // verus!
