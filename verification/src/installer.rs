use vstd::prelude::*;
use crate::text::{join_spaced, str_views, views, join_with_spaces};

verus! {

/// Why installing the host application failed.
#[derive(Debug)]
pub enum Error {
    Io(std::io::Error),
    AppNotFound,
    AppInstalled,
    CommandFailed { command: String, status: String },
}

/// Where applications are installed.
pub open spec fn applications_dir() -> Seq<char> {
    "/Applications"@
}

/// Where the application named `name` is installed.
pub open spec fn installed_path(name: Seq<char>) -> Seq<char> {
    "/Applications/"@ + name
}

/// How a command is shown: the program, a space, and its arguments joined by
/// spaces.
pub open spec fn command_line(program: Seq<char>, args: Seq<Seq<char>>) -> Seq<char> {
    program + " "@ + join_spaced(args)
}

/// The command line that names `program` run with `args`.
pub fn describe_command(program: &str, args: &[&str]) -> (r: String)
    ensures
        r@ == command_line(program@, str_views(args@)),
{
    let mut r = String::from_str(program);
    r.append(" ");
    let joined = join_with_spaces(args);
    r.append(joined.as_str());
    r
}

/// What a command's exit tells: success, or the failure that names the
/// command line and the exit status.
pub fn command_outcome(program: &str, args: &[&str], success: bool, status: String) -> (r: Result<(), Error>)
    ensures
        success ==> r is Ok,
        !success ==> (r matches Err(Error::CommandFailed { command, status: s }) && command@
            == command_line(program@, str_views(args@)) && s == status),
{
    if success {
        Ok(())
    } else {
        Err(Error::CommandFailed { command: describe_command(program, args), status })
    }
}

/// Where an installation stands.
#[derive(Debug, Clone, Copy, PartialEq, Eq, Structural)]
pub enum InstallPhase {
    Start,
    CheckingSource,
    CheckingInstalled,
    Removing,
    Copying,
    Unquarantining,
    Opening,
    Finished,
}

/// How far along an installation is; each step moves it forward.
pub open spec fn install_progress(phase: InstallPhase) -> nat {
    match phase {
        InstallPhase::Start => 0,
        InstallPhase::CheckingSource => 1,
        InstallPhase::CheckingInstalled => 2,
        InstallPhase::Removing => 3,
        InstallPhase::Copying => 4,
        InstallPhase::Unquarantining => 5,
        InstallPhase::Opening => 6,
        InstallPhase::Finished => 7,
    }
}

/// What the outside world reports back.
#[derive(Debug)]
pub enum InstallEvent {
    Begin,
    /// Whether the application to install exists.
    SourceExists(bool),
    /// Whether the application is installed already.
    InstalledExists(bool),
    /// The installed copy has been removed.
    Removed,
    /// The last command exited, successfully or not, with this status text.
    CommandExited { success: bool, status: String },
    /// An I/O operation failed.
    IoFailed(std::io::Error),
}

/// What to do next.
#[derive(Debug)]
pub enum InstallAction {
    /// Tell whether this path exists.
    CheckSource(String),
    /// Tell whether this path exists.
    CheckInstalled(String),
    /// Remove this directory and everything in it.
    Remove(String),
    /// Run this program with these arguments and report its exit.
    Run { program: String, args: Vec<String> },
    /// The installation is over, with this outcome.
    Finish(Result<(), Error>),
}

/// The installation of an application bundle into `/Applications`: copy it
/// there (replacing an installed copy only when forced), clear its
/// quarantine attribute, and open it.
pub struct Installer {
    /// The bundle to install.
    pub source: String,
    /// The bundle's file name, when its path has one.
    pub name: Option<String>,
    /// Whether an installed copy may be replaced.
    pub force: bool,
    pub phase: InstallPhase,
}

impl Installer {
    /// Once the bundle is known to exist, its file name is known.
    pub open spec fn wf(self) -> bool {
        match self.phase {
            InstallPhase::Start | InstallPhase::CheckingSource | InstallPhase::Finished => true,
            _ => self.name is Some,
        }
    }

    /// The events that may come in each phase.  The bundle must have a file
    /// name once it is known to exist.
    pub open spec fn accepts(self, event: InstallEvent) -> bool {
        &&& self.wf()
        &&& match self.phase {
            InstallPhase::Start => event is Begin,
            InstallPhase::CheckingSource => event matches InstallEvent::SourceExists(present) && (
            present ==> self.name is Some),
            InstallPhase::CheckingInstalled => event is InstalledExists,
            InstallPhase::Removing => event is Removed || event is IoFailed,
            InstallPhase::Copying => event is CommandExited || event is IoFailed,
            InstallPhase::Unquarantining => event is CommandExited || event is IoFailed,
            InstallPhase::Opening => event is CommandExited || event is IoFailed,
            InstallPhase::Finished => false,
        }
    }

    /// The installed path of the bundle.
    pub open spec fn installed(self) -> Seq<char> {
        installed_path(self.name->0@)
    }

    /// An installation of the bundle at `source`, whose file name is `name`,
    /// that has not started.
    pub fn new(source: String, name: Option<String>, force: bool) -> (i: Self)
        ensures
            i.source == source,
            i.name == name,
            i.force == force,
            i.phase == InstallPhase::Start,
            i.wf(),
    {
        Installer { source, name, force, phase: InstallPhase::Start }
    }

    fn installed_path(&self) -> (p: String)
        requires
            self.name is Some,
        ensures
            p@ == self.installed(),
    {
        let mut p = String::from_str("/Applications/");
        match &self.name {
            Some(n) => p.append(n.as_str()),
            None => {},
        }
        p
    }

    /// Takes in what happened and says what to do next.
    pub fn step(&mut self, event: InstallEvent) -> (a: InstallAction)
        requires
            old(self).accepts(event),
        ensures
            final(self).source == old(self).source,
            final(self).name == old(self).name,
            final(self).force == old(self).force,
            final(self).wf(),
            install_progress(final(self).phase) > install_progress(old(self).phase),
            event matches InstallEvent::IoFailed(e) ==> final(self).phase == InstallPhase::Finished
                && a == InstallAction::Finish(Err(Error::Io(e))),
            event is Begin ==> {
                &&& final(self).phase == InstallPhase::CheckingSource
                &&& a matches InstallAction::CheckSource(p) && p@ == old(self).source@
            },
            event matches InstallEvent::SourceExists(present) ==> if present {
                &&& final(self).phase == InstallPhase::CheckingInstalled
                &&& a matches InstallAction::CheckInstalled(p) && p@ == old(self).installed()
            } else {
                final(self).phase == InstallPhase::Finished && a == InstallAction::Finish(
                    Err(Error::AppNotFound),
                )
            },
            event matches InstallEvent::InstalledExists(present) ==> if !present {
                &&& final(self).phase == InstallPhase::Copying
                &&& a matches InstallAction::Run { program, args } && program@ == "cp"@ && views(
                    args@,
                ) == seq!["-r"@, old(self).source@, applications_dir()]
            } else if old(self).force {
                &&& final(self).phase == InstallPhase::Removing
                &&& a matches InstallAction::Remove(p) && p@ == old(self).installed()
            } else {
                final(self).phase == InstallPhase::Finished && a == InstallAction::Finish(
                    Err(Error::AppInstalled),
                )
            },
            event is Removed ==> {
                &&& final(self).phase == InstallPhase::Copying
                &&& a matches InstallAction::Run { program, args } && program@ == "cp"@ && views(
                    args@,
                ) == seq!["-r"@, old(self).source@, applications_dir()]
            },
            event matches InstallEvent::CommandExited { success, status } ==> if !success {
                &&& final(self).phase == InstallPhase::Finished
                &&& a matches InstallAction::Finish(Err(Error::CommandFailed { command, status: s }))
                &&& s == status
                &&& old(self).phase == InstallPhase::Copying ==> command@ == command_line(
                    "cp"@,
                    seq!["-r"@, old(self).source@, applications_dir()],
                )
                &&& old(self).phase == InstallPhase::Unquarantining ==> command@ == command_line(
                    "xattr"@,
                    seq!["-dr"@, "com.apple.quarantine"@, old(self).installed()],
                )
                &&& old(self).phase == InstallPhase::Opening ==> command@ == command_line(
                    "open"@,
                    seq!["-a"@, old(self).installed(), "--args"@, "-s"@],
                )
            } else if old(self).phase == InstallPhase::Copying {
                &&& final(self).phase == InstallPhase::Unquarantining
                &&& a matches InstallAction::Run { program, args } && program@ == "xattr"@ && views(
                    args@,
                ) == seq!["-dr"@, "com.apple.quarantine"@, old(self).installed()]
            } else if old(self).phase == InstallPhase::Unquarantining {
                &&& final(self).phase == InstallPhase::Opening
                &&& a matches InstallAction::Run { program, args } && program@ == "open"@ && views(
                    args@,
                ) == seq!["-a"@, old(self).installed(), "--args"@, "-s"@]
            } else {
                final(self).phase == InstallPhase::Finished && a == InstallAction::Finish(Ok(()))
            },
    {
        match event {
            InstallEvent::IoFailed(e) => {
                self.phase = InstallPhase::Finished;
                InstallAction::Finish(Err(Error::Io(e)))
            },
            InstallEvent::Begin => {
                self.phase = InstallPhase::CheckingSource;
                InstallAction::CheckSource(self.source.clone())
            },
            InstallEvent::SourceExists(present) => {
                if present {
                    self.phase = InstallPhase::CheckingInstalled;
                    InstallAction::CheckInstalled(self.installed_path())
                } else {
                    self.phase = InstallPhase::Finished;
                    InstallAction::Finish(Err(Error::AppNotFound))
                }
            },
            InstallEvent::InstalledExists(present) => {
                if !present {
                    self.phase = InstallPhase::Copying;
                    self.copy_command()
                } else if self.force {
                    self.phase = InstallPhase::Removing;
                    InstallAction::Remove(self.installed_path())
                } else {
                    self.phase = InstallPhase::Finished;
                    InstallAction::Finish(Err(Error::AppInstalled))
                }
            },
            InstallEvent::Removed => {
                self.phase = InstallPhase::Copying;
                self.copy_command()
            },
            InstallEvent::CommandExited { success, status } => {
                let app = self.installed_path();
                if !success {
                    let phase = self.phase;
                    self.phase = InstallPhase::Finished;
                    let mut args: Vec<&str> = Vec::new();
                    let program = if phase == InstallPhase::Copying {
                        args.push("-r");
                        args.push(self.source.as_str());
                        args.push("/Applications");
                        "cp"
                    } else if phase == InstallPhase::Unquarantining {
                        args.push("-dr");
                        args.push("com.apple.quarantine");
                        args.push(app.as_str());
                        "xattr"
                    } else {
                        args.push("-a");
                        args.push(app.as_str());
                        args.push("--args");
                        args.push("-s");
                        "open"
                    };
                    proof {
                        if phase == InstallPhase::Copying {
                            assert(str_views(args@) =~= seq!["-r"@, self.source@, applications_dir()]);
                        } else if phase == InstallPhase::Unquarantining {
                            assert(str_views(args@) =~= seq!["-dr"@, "com.apple.quarantine"@, app@]);
                        } else {
                            assert(str_views(args@) =~= seq!["-a"@, app@, "--args"@, "-s"@]);
                        }
                    }
                    let outcome = command_outcome(program, args.as_slice(), success, status);
                    InstallAction::Finish(outcome)
                } else if self.phase == InstallPhase::Copying {
                    self.phase = InstallPhase::Unquarantining;
                    InstallAction::Run {
                        program: String::from_str("xattr"),
                        args: strings(&["-dr", "com.apple.quarantine", app.as_str()]),
                    }
                } else if self.phase == InstallPhase::Unquarantining {
                    self.phase = InstallPhase::Opening;
                    InstallAction::Run {
                        program: String::from_str("open"),
                        args: strings(&["-a", app.as_str(), "--args", "-s"]),
                    }
                } else {
                    self.phase = InstallPhase::Finished;
                    InstallAction::Finish(Ok(()))
                }
            },
        }
    }

    fn copy_command(&self) -> (a: InstallAction)
        ensures
            a matches InstallAction::Run { program, args } && program@ == "cp"@ && views(args@)
                == seq!["-r"@, self.source@, applications_dir()],
    {
        InstallAction::Run {
            program: String::from_str("cp"),
            args: strings(&["-r", self.source.as_str(), "/Applications"]),
        }
    }
}

/// Owned copies of `parts`.
fn strings(parts: &[&str]) -> (r: Vec<String>)
    ensures
        views(r@) == str_views(parts@),
{
    let mut r: Vec<String> = Vec::new();
    for i in 0..parts.len()
        invariant
            views(r@) == str_views(parts@.take(i as int)),
    {
        r.push(String::from_str(parts[i]));
        assert(str_views(parts@.take(i + 1)) =~= str_views(parts@.take(i as int)).push(parts@[i as int]@));
        assert(views(r@) =~= views(r@.drop_last()).push(r@.last()@));
    }
    assert(parts@.take(parts@.len() as int) =~= parts@);
    r
}

} // verus!
