//! The decisions of the command-line front end: which command the
//! arguments ask for, what the site builder does with each directory
//! entry, and the steps of installing a package.

use vstd::prelude::*;
use vstd::string::StringExecFns;

use crate::builder::config::{spec_malformed_package_message, Config, Dependency};
use crate::text::{after_first, before_first, same_text};

verus! {

/// Port the development server listens on.
pub const SERVE_PORT: u16 = 8080;

/// What the command line asks for.
#[derive(Debug)]
pub enum Command {
    /// Build the site from the given directory (the current one when `None`).
    Build(Option<String>),
    /// Create or rewrite the configuration file.
    Init,
    /// Install the given package.
    Install(String),
    /// `install` without a package.
    MissingPackage,
    /// Serve the built site on the given port.
    Serve(u16),
    /// Print the usage.
    Help,
    /// Print the version.
    Version,
    /// No command was given: nothing to do.
    Idle,
}

/// Reads the command from the program's arguments (`args[0]` is the
/// program itself). An unknown command asks for the usage.
pub fn parse_command(args: &Vec<String>) -> (c: Command)
    ensures
        args.len() < 2 ==> c is Idle,
        args.len() >= 2 ==> ({
            let word = args@[1]@;
            &&& (word == "build"@ || word == "b"@) ==> (c matches Command::Build(t) && (
            args.len() >= 3 ==> (t matches Some(s) && s@ == args@[2]@)) && (args.len() < 3
                ==> t is None))
            &&& word == "init"@ ==> c is Init
            &&& word == "install"@ ==> (args.len() >= 3 ==> (c matches Command::Install(p)
                && p@ == args@[2]@))
            &&& word == "install"@ ==> (args.len() < 3 ==> c is MissingPackage)
            &&& word == "serve"@ ==> c == Command::Serve(SERVE_PORT)
            &&& word == "--help"@ ==> c is Help
            &&& word == "-v"@ ==> c is Version
            &&& (word != "build"@ && word != "b"@ && word != "init"@ && word != "install"@
                && word != "serve"@ && word != "--help"@ && word != "-v"@) ==> c is Help
        }),
{
    proof {
        reveal_strlit("build");
        reveal_strlit("b");
        reveal_strlit("init");
        reveal_strlit("install");
        reveal_strlit("serve");
        reveal_strlit("--help");
        reveal_strlit("-v");
        assert("build"@.len() == 5 && "build"@[0] == 'b');
        assert("b"@.len() == 1 && "b"@[0] == 'b');
        assert("init"@.len() == 4 && "init"@[0] == 'i');
        assert("install"@.len() == 7 && "install"@[0] == 'i');
        assert("serve"@.len() == 5 && "serve"@[0] == 's');
        assert("--help"@.len() == 6 && "--help"@[0] == '-');
        assert("-v"@.len() == 2 && "-v"@[0] == '-');
    }
    if args.len() < 2 {
        return Command::Idle;
    }
    let word = args[1].as_str();
    if same_text(word, "build") || same_text(word, "b") {
        if args.len() >= 3 {
            Command::Build(Some(args[2].clone()))
        } else {
            Command::Build(None)
        }
    } else if same_text(word, "init") {
        Command::Init
    } else if same_text(word, "install") {
        if args.len() >= 3 {
            Command::Install(args[2].clone())
        } else {
            Command::MissingPackage
        }
    } else if same_text(word, "serve") {
        Command::Serve(SERVE_PORT)
    } else if same_text(word, "--help") {
        Command::Help
    } else if same_text(word, "-v") {
        Command::Version
    } else {
        Command::Help
    }
}

/// The directory a build starts from: the given target, or the current
/// directory `.` when none is given.
pub fn build_root(target: Option<&str>) -> (root: String)
    ensures
        target matches Some(t) ==> root@ == t@,
        target is None ==> root@ == "."@,
{
    match target {
        Some(t) => String::from_str(t),
        None => String::from_str("."),
    }
}

/// What the site builder does with one directory entry.
#[derive(Debug, PartialEq, Eq, Structural)]
pub enum EntryAction {
    /// The builder's own output directories, left alone.
    Skip,
    /// A directory: built in turn.
    Descend,
    /// An HTML page.
    RenderHtml,
    /// A markdown page.
    RenderMarkdown,
    /// Anything else.
    Ignore,
}

/// Whether `name` is one of the builder's own directories, `_build` and
/// `_site`.
pub open spec fn is_reserved_dir(name: Seq<char>) -> bool {
    name == "_build"@ || name == "_site"@
}

/// Only the builder's own two directories are reserved: a name is reserved
/// exactly when it is `_build` or `_site`.
pub proof fn law_reserved_dirs_are_build_and_site(name: Seq<char>)
    ensures
        is_reserved_dir(name) <==> (name == "_build"@ || name == "_site"@),
{
}

/// Decides what to do with a directory entry, given its file name (`None`
/// when it has none or it is not valid Unicode), whether it is a
/// directory, whether its whole path is valid Unicode, and its extension
/// (`None` when it has none or it is not valid Unicode).
pub fn classify_entry(
    file_name: Option<&str>,
    is_dir: bool,
    path_is_unicode: bool,
    extension: Option<&str>,
) -> (a: EntryAction)
    ensures
        (file_name matches Some(n) && is_reserved_dir(n@)) ==> a == EntryAction::Skip,
        (file_name matches Some(n) && n@ != "_build"@ && n@ != "_site"@ && is_dir
            && path_is_unicode) ==> a == EntryAction::Descend,
        (file_name is None && is_dir && path_is_unicode) ==> a == EntryAction::Descend,
        a == EntryAction::Skip ==> (file_name matches Some(n) && (n@ == "_build"@ || n@
            == "_site"@)),
        !(file_name matches Some(n) && is_reserved_dir(n@)) ==> {
            if is_dir && path_is_unicode {
                a == EntryAction::Descend
            } else {
                match extension {
                    Some(e) => if e@ == "html"@ || e@ == ".html"@ {
                        a == EntryAction::RenderHtml
                    } else if e@ == "md"@ || e@ == ".md"@ {
                        a == EntryAction::RenderMarkdown
                    } else {
                        a == EntryAction::Ignore
                    },
                    None => a == EntryAction::Ignore,
                }
            }
        },
{
    if let Some(n) = file_name {
        if same_text(n, "_build") || same_text(n, "_site") {
            return EntryAction::Skip;
        }
    }
    if is_dir && path_is_unicode {
        return EntryAction::Descend;
    }
    match extension {
        Some(e) => {
            if same_text(e, "html") || same_text(e, ".html") {
                EntryAction::RenderHtml
            } else if same_text(e, "md") || same_text(e, ".md") {
                EntryAction::RenderMarkdown
            } else {
                EntryAction::Ignore
            }
        },
        None => EntryAction::Ignore,
    }
}

/// Where an installation stands, between two pieces of outside work.
#[derive(Debug)]
pub enum InstallState {
    /// Waiting to learn whether the working directory is known.
    FindingWorkingDir,
    /// Waiting to learn whether `_build` exists.
    CheckingBuildDir,
    /// Waiting for `_build` to be created.
    CreatingBuildDir,
    /// Waiting to learn whether `inert.json` exists.
    CheckingConfig,
    /// Waiting for `inert.json` to be loaded.
    LoadingConfig,
    /// Waiting for the package to be fetched; holds the loaded configuration.
    Fetching(Config),
    /// Waiting for the updated configuration to be written.
    Writing,
    /// The installation is over.
    Finished,
}

/// What the outside work of the last step came to.
#[derive(Debug)]
pub enum InstallEvent {
    /// Whether the working directory could be determined.
    WorkingDir(bool),
    /// Whether `_build` exists.
    BuildDirExists(bool),
    /// Whether `_build` could be created.
    BuildDirCreated(bool),
    /// Whether `inert.json` exists.
    ConfigExists(bool),
    /// The configuration read from `inert.json`.
    ConfigLoaded(Config),
    /// The outcome of fetching the package.
    Fetched(Result<Dependency, String>),
    /// Whether the updated configuration could be written.
    ConfigWritten(bool),
}

/// The outside work an installation asks for next.
#[derive(Debug)]
pub enum InstallAction {
    LocateWorkingDir,
    CheckBuildDir,
    CreateBuildDir,
    CheckConfig,
    LoadConfig,
    /// Download the package and store it under `_build`.
    Fetch(Dependency),
    /// Write this configuration to `inert.json`.
    WriteConfig(Config),
    /// Stop, with this result.
    Finish(Result<(), String>),
}

/// The message when `_build` cannot be created.
pub open spec fn spec_build_dir_message() -> Seq<char> {
    "Error: cannot create _build directory to host dependency files"@
}

/// The message when the project has no configuration file.
pub open spec fn spec_missing_config_message() -> Seq<char> {
    "Config file 'inert.json' not found. Please fun `$ inert init` or cd into the appropriate directory"@
}

/// The message when the updated configuration cannot be written.
pub open spec fn spec_update_failed_message() -> Seq<char> {
    "unable to update inert.json"@
}

impl InstallState {
    /// Whether `event` answers the work this state waits for.
    pub open spec fn accepts(&self, event: &InstallEvent) -> bool {
        match (self, event) {
            (InstallState::FindingWorkingDir, InstallEvent::WorkingDir(_)) => true,
            (InstallState::CheckingBuildDir, InstallEvent::BuildDirExists(_)) => true,
            (InstallState::CreatingBuildDir, InstallEvent::BuildDirCreated(_)) => true,
            (InstallState::CheckingConfig, InstallEvent::ConfigExists(_)) => true,
            (InstallState::LoadingConfig, InstallEvent::ConfigLoaded(_)) => true,
            (InstallState::Fetching(_), InstallEvent::Fetched(_)) => true,
            (InstallState::Writing, InstallEvent::ConfigWritten(_)) => true,
            _ => false,
        }
    }
}

/// How an installation begins: by asking for the working directory.
pub fn install_start() -> (next: (InstallState, InstallAction))
    ensures
        next.0 is FindingWorkingDir,
        next.1 is LocateWorkingDir,
{
    (InstallState::FindingWorkingDir, InstallAction::LocateWorkingDir)
}

/// One step of installing the package `pkg`: from where the installation
/// stands and what the last piece of outside work came to, where it stands
/// next and what it asks for. Without a working directory it ends
/// quietly; a missing `_build` is created; a missing configuration, a
/// malformed package spec, a failed fetch or a failed write ends it with
/// an error; otherwise the fetched package becomes the configuration's
/// only dependency and the configuration is written back.
pub fn install_step(state: InstallState, event: InstallEvent, pkg: &str) -> (next: (
    InstallState,
    InstallAction,
))
    requires
        state.accepts(&event),
    ensures
        match event {
            InstallEvent::WorkingDir(found) => if found {
                next.0 is CheckingBuildDir && next.1 is CheckBuildDir
            } else {
                next.0 is Finished && next.1 == InstallAction::Finish(Ok(()))
            },
            InstallEvent::BuildDirExists(exists) => if exists {
                next.0 is CheckingConfig && next.1 is CheckConfig
            } else {
                next.0 is CreatingBuildDir && next.1 is CreateBuildDir
            },
            InstallEvent::BuildDirCreated(created) => if created {
                next.0 is CheckingConfig && next.1 is CheckConfig
            } else {
                &&& next.0 is Finished
                &&& next.1 matches InstallAction::Finish(Err(e))
                &&& e@ == spec_build_dir_message()
            },
            InstallEvent::ConfigExists(exists) => if exists {
                next.0 is LoadingConfig && next.1 is LoadConfig
            } else {
                &&& next.0 is Finished
                &&& next.1 matches InstallAction::Finish(Err(e))
                &&& e@ == spec_missing_config_message()
            },
            InstallEvent::ConfigLoaded(config) => if pkg@.contains('@') {
                &&& next.0 == InstallState::Fetching(config)
                &&& next.1 matches InstallAction::Fetch(d)
                &&& d.name@ == before_first(pkg@, '@')
                &&& d.version@ == before_first(after_first(pkg@, '@'), '@')
                &&& d.alias@ == Seq::<String>::empty()
            } else {
                &&& next.0 is Finished
                &&& next.1 matches InstallAction::Finish(Err(e))
                &&& e@ == spec_malformed_package_message()
            },
            InstallEvent::Fetched(fetched) => match fetched {
                Ok(dep) => {
                    &&& next.0 is Writing
                    &&& next.1 matches InstallAction::WriteConfig(c)
                    &&& state matches InstallState::Fetching(loaded)
                    &&& c.dependencies@ == seq![dep]
                    &&& c.name == loaded.name
                    &&& c.description == loaded.description
                    &&& c.keywords == loaded.keywords
                },
                Err(e) => next.0 is Finished && next.1 == InstallAction::Finish(Err(e)),
            },
            InstallEvent::ConfigWritten(written) => if written {
                next.0 is Finished && next.1 == InstallAction::Finish(Ok(()))
            } else {
                &&& next.0 is Finished
                &&& next.1 matches InstallAction::Finish(Err(e))
                &&& e@ == spec_update_failed_message()
            },
        },
{
    match event {
        InstallEvent::WorkingDir(found) => {
            if found {
                (InstallState::CheckingBuildDir, InstallAction::CheckBuildDir)
            } else {
                (InstallState::Finished, InstallAction::Finish(Ok(())))
            }
        },
        InstallEvent::BuildDirExists(exists) => {
            if exists {
                (InstallState::CheckingConfig, InstallAction::CheckConfig)
            } else {
                (InstallState::CreatingBuildDir, InstallAction::CreateBuildDir)
            }
        },
        InstallEvent::BuildDirCreated(created) => {
            if created {
                (InstallState::CheckingConfig, InstallAction::CheckConfig)
            } else {
                (
                    InstallState::Finished,
                    InstallAction::Finish(
                        Err(
                            String::from_str(
                                "Error: cannot create _build directory to host dependency files",
                            ),
                        ),
                    ),
                )
            }
        },
        InstallEvent::ConfigExists(exists) => {
            if exists {
                (InstallState::LoadingConfig, InstallAction::LoadConfig)
            } else {
                (
                    InstallState::Finished,
                    InstallAction::Finish(
                        Err(
                            String::from_str(
                                "Config file 'inert.json' not found. Please fun `$ inert init` or cd into the appropriate directory",
                            ),
                        ),
                    ),
                )
            }
        },
        InstallEvent::ConfigLoaded(config) => {
            match Dependency::from_str(pkg) {
                Ok(dep) => (InstallState::Fetching(config), InstallAction::Fetch(dep)),
                Err(e) => (InstallState::Finished, InstallAction::Finish(Err(e))),
            }
        },
        InstallEvent::Fetched(fetched) => {
            match state {
                InstallState::Fetching(mut config) => {
                    match config.add_dependency(fetched) {
                        Ok(()) => (InstallState::Writing, InstallAction::WriteConfig(config)),
                        Err(e) => (InstallState::Finished, InstallAction::Finish(Err(e))),
                    }
                },
                _ => {
                    proof {
                        assert(false);
                    }
                    (InstallState::Finished, InstallAction::Finish(Ok(())))
                },
            }
        },
        InstallEvent::ConfigWritten(written) => {
            if written {
                (InstallState::Finished, InstallAction::Finish(Ok(())))
            } else {
                (
                    InstallState::Finished,
                    InstallAction::Finish(Err(String::from_str("unable to update inert.json"))),
                )
            }
        },
    }
}

} // verus!
