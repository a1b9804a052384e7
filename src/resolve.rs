//! Deciding which binary a command runs: a binary that the current project
//! declares, else a tool in the user toolchain, else the command as found on
//! the caller's own search path. The first tier that matches wins.

use vstd::prelude::*;

verus! {

/// An interpreter run ahead of a tool's own executable.
#[derive(Clone, Debug)]
pub struct Loader {
    pub command: String,
    pub args: Vec<String>,
}

/// A tool installed in the user toolchain.
#[derive(Clone, Debug)]
pub struct UserTool {
    /// The tool's executable.
    pub bin_path: String,
    /// The interpreter that runs it, if any.
    pub loader: Option<Loader>,
    /// The search path of the image the tool belongs to.
    pub image_path: String,
}

/// What the resolver needs to know of the current project.
#[derive(Clone, Debug)]
pub struct ProjectInfo {
    /// The binaries of the project's direct dependencies.
    pub direct_bins: Vec<String>,
    /// The directory that holds those binaries.
    pub local_bin_dir: String,
    /// Whether the project pins a platform.
    pub has_platform: bool,
}

/// The platform whose environment a project-local binary runs in.
#[derive(Clone, Copy, Debug, PartialEq, Eq, Structural)]
pub enum PlatformSource {
    /// The platform the project pins.
    Project,
    /// The user's default platform.
    User,
    /// None: the caller's own environment.
    Ambient,
}

/// The tier a command resolves to.
#[derive(Clone, Debug)]
pub enum Selection {
    /// A binary of the project, at `bin`, to run in the platform of `platform`.
    ProjectLocal { bin: String, platform: PlatformSource },
    /// A tool of the user toolchain.
    User(UserTool),
    /// The command name itself, looked up on the caller's search path.
    Passthrough { name: String },
}

/// A failure of resolution, raised at once or kept for when the command
/// cannot be run.
#[derive(Clone, Debug, PartialEq, Eq)]
pub enum ResolveError {
    /// The project declares the binary but no file is at its path.
    ProjectLocalBinaryNotFound { command: String },
    /// No platform is selected, so the ambient one is used.
    NoPlatform,
    /// Nothing of that name could be run.
    BinaryNotFound { name: String },
    /// The platform to run in could not be checked out.
    CheckoutFailed { message: String },
}

/// The outcome of checking out the platform of a project's binary.
#[derive(Clone, Debug)]
pub enum PlatformEnv {
    /// No platform was checked out: the caller's environment is inherited.
    Inherit,
    /// The platform was checked out; this is its search path.
    Path(String),
    /// The checkout failed, for the reason given.
    Failed(String),
}

/// A fully assembled command.
#[derive(Clone, Debug)]
pub enum ToolCommand {
    /// A project's binary, run with the search path `path`, or in the
    /// caller's environment where that is `None`; `deferred` is raised where
    /// it cannot be run.
    ProjectLocal { exe: String, args: Vec<String>, path: Option<String>, deferred: Option<ResolveError> },
    /// A user tool, run with the search path `path`.
    Direct { exe: String, args: Vec<String>, path: String },
    /// A command run on the caller's own search path; `error` is raised where
    /// it cannot be run.
    Passthrough { exe: String, args: Vec<String>, error: ResolveError },
}

/// Whether `bins` holds the name `name`.
pub open spec fn names(bins: Seq<String>, name: Seq<char>) -> bool {
    exists|i: int| 0 <= i < bins.len() && (#[trigger] bins[i])@ == name
}

/// `<dir>/<name>`.
pub open spec fn bin_path_spec(dir: Seq<char>, name: Seq<char>) -> Seq<char> {
    dir + "/"@ + name
}

/// Whether a project declares `exe` as one of its direct dependencies'
/// binaries.
pub fn has_direct_bin(project: &ProjectInfo, exe: &str) -> (r: bool)
    ensures
        r == names(project.direct_bins@, exe@),
{
    let name = exe.to_string();
    let mut i: usize = 0;
    while i < project.direct_bins.len()
        invariant
            0 <= i <= project.direct_bins@.len(),
            name@ == exe@,
            forall|j: int| 0 <= j < i ==> (#[trigger] project.direct_bins@[j])@ != exe@,
        decreases project.direct_bins@.len() - i,
    {
        if project.direct_bins[i] == name {
            return true;
        }
        i = i + 1;
    }
    false
}

/// Whether a project is active and declares `exe` as a binary of one of its
/// direct dependencies.
pub open spec fn declares(project: Option<ProjectInfo>, exe: Seq<char>) -> bool {
    project matches Some(p) && names(p.direct_bins@, exe)
}

/// The platform of a project-local binary: the project's pin, else the
/// user's default, else none.
pub open spec fn platform_for(p: ProjectInfo, user_platform: bool) -> PlatformSource {
    if p.has_platform {
        PlatformSource::Project
    } else if user_platform {
        PlatformSource::User
    } else {
        PlatformSource::Ambient
    }
}

/// Picks the tier for the command `exe`: the project's binary where a
/// project declares it, whatever else is installed; else the user tool of
/// that name (`user_tool`, as looked up); else the bare name.
pub fn select(exe: &str, project: &Option<ProjectInfo>, user_platform: bool, user_tool: Option<UserTool>) -> (r: Selection)
    ensures
        declares(*project, exe@) ==> (r matches Selection::ProjectLocal { bin, platform }
            && bin@ == bin_path_spec(project->Some_0.local_bin_dir@, exe@)
            && platform == platform_for(project->Some_0, user_platform)),
        !declares(*project, exe@) && user_tool is Some ==> (r matches Selection::User(u)
            && u == user_tool->Some_0),
        !declares(*project, exe@) && user_tool is None ==> (r matches Selection::Passthrough { name }
            && name@ == exe@),
{
    if let Some(p) = project {
        if has_direct_bin(p, exe) {
            let bin = p.local_bin_dir.clone().concat("/").concat(exe);
            let platform = if p.has_platform {
                PlatformSource::Project
            } else if user_platform {
                PlatformSource::User
            } else {
                PlatformSource::Ambient
            };
            return Selection::ProjectLocal { bin, platform };
        }
    }
    match user_tool {
        Some(t) => Selection::User(t),
        None => Selection::Passthrough { name: exe.to_string() },
    }
}

/// The command line of a user tool: the loader's command and its own
/// arguments, then the tool's executable, then the caller's arguments.
pub open spec fn user_command_line(tool: UserTool, args: Seq<String>) -> (Seq<char>, Seq<String>) {
    match tool.loader {
        Some(l) => (l.command@, l.args@ + seq![tool.bin_path] + args),
        None => (tool.bin_path@, args),
    }
}

/// Assembles the command for a selection. A project's binary must exist
/// (`bin_is_file`). It runs in its platform's environment as `env` gives it
/// (a search path, or a failed checkout, which is fatal); where it has no
/// platform, or none was checked out, it runs in the caller's environment and
/// the lack of a platform is raised only if it cannot be run.
pub fn command(sel: Selection, args: Vec<String>, bin_is_file: bool, env: PlatformEnv) -> (r: Result<ToolCommand, ResolveError>)
    ensures
        sel matches Selection::ProjectLocal { bin, platform } ==> (
            if !bin_is_file {
                r matches Err(ResolveError::ProjectLocalBinaryNotFound { command }) && command@ == bin@
            } else if platform == PlatformSource::Ambient {
                r matches Ok(ToolCommand::ProjectLocal { exe, args: a, path, deferred })
                    && exe@ == bin@ && a@ == args@ && path is None && deferred == Some(ResolveError::NoPlatform)
            } else {
                match env {
                    PlatformEnv::Path(e) => r matches Ok(ToolCommand::ProjectLocal { exe, args: a, path, deferred })
                        && exe@ == bin@ && a@ == args@ && path == Some(e) && deferred is None,
                    PlatformEnv::Failed(m) => r matches Err(ResolveError::CheckoutFailed { message })
                        && message@ == m@,
                    PlatformEnv::Inherit => r matches Ok(ToolCommand::ProjectLocal { exe, args: a, path, deferred })
                        && exe@ == bin@ && a@ == args@ && path is None && deferred == Some(ResolveError::NoPlatform),
                }
            }),
        sel matches Selection::User(t) ==> (r matches Ok(ToolCommand::Direct { exe, args: a, path })
            && exe@ == user_command_line(t, args@).0 && a@ == user_command_line(t, args@).1
            && path@ == t.image_path@),
        sel matches Selection::Passthrough { name } ==> (r matches Ok(ToolCommand::Passthrough { exe, args: a, error })
            && exe@ == name@ && a@ == args@
            && error == (ResolveError::BinaryNotFound { name })),
{
    match sel {
        Selection::ProjectLocal { bin, platform } => {
            if !bin_is_file {
                Err(ResolveError::ProjectLocalBinaryNotFound { command: bin })
            } else if platform == PlatformSource::Ambient {
                Ok(ToolCommand::ProjectLocal { exe: bin, args, path: None, deferred: Some(ResolveError::NoPlatform) })
            } else {
                match env {
                    PlatformEnv::Path(p) => Ok(ToolCommand::ProjectLocal { exe: bin, args, path: Some(p), deferred: None }),
                    PlatformEnv::Failed(message) => Err(ResolveError::CheckoutFailed { message }),
                    PlatformEnv::Inherit => Ok(
                        ToolCommand::ProjectLocal { exe: bin, args, path: None, deferred: Some(ResolveError::NoPlatform) },
                    ),
                }
            }
        },
        Selection::User(t) => {
            let mut caller_args = args;
            match t.loader {
                Some(l) => {
                    let mut line = l.args;
                    line.push(t.bin_path);
                    line.append(&mut caller_args);
                    Ok(ToolCommand::Direct { exe: l.command, args: line, path: t.image_path })
                },
                None => Ok(ToolCommand::Direct { exe: t.bin_path, args: caller_args, path: t.image_path }),
            }
        },
        Selection::Passthrough { name } => {
            let error = ResolveError::BinaryNotFound { name: name.clone() };
            Ok(ToolCommand::Passthrough { exe: name, args, error })
        },
    }
}

} // verus!
