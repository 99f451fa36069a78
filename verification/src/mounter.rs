use vstd::prelude::*;
use crate::options::MountOptions;
use crate::text::{contains, trim, views, str_contains, str_trim};

verus! {

/// Why mounting or unmounting failed.
#[derive(Debug)]
pub enum Error {
    Io(std::io::Error),
    MountPointMissing,
    MountPointBusy,
    ExtensionDisabled,
    NeedReboot,
    MountFailed,
    UnmountFailed,
}

/// How long the mount command may run before it counts as hung.
pub const MOUNT_TIMEOUT_MILLIS: u64 = 3000;

/// How long to wait between two looks at a running mount command.
pub const POLL_INTERVAL_MILLIS: u64 = 100;

/// The failure that the mount command's error output reports.
pub open spec fn failure_of(stderr: Seq<char>) -> Error {
    if contains(stderr, "is disabled"@) {
        Error::ExtensionDisabled
    } else if contains(stderr, "Resource busy"@) {
        Error::MountPointBusy
    } else if contains(stderr, "Probing resource"@) || contains(stderr, "Loading resource"@) {
        Error::NeedReboot
    } else {
        Error::MountFailed
    }
}

/// Reads the mount command's error output: a disabled extension, a busy
/// mount point, a resource still being probed or loaded (which needs a
/// reboot), or a failure with no known cause.
pub fn classify_mount_failure(stderr: &str) -> (e: Error)
    ensures
        e == failure_of(stderr@),
{
    if str_contains(stderr, "is disabled") {
        Error::ExtensionDisabled
    } else if str_contains(stderr, "Resource busy") {
        Error::MountPointBusy
    } else if str_contains(stderr, "Probing resource") || str_contains(stderr, "Loading resource") {
        Error::NeedReboot
    } else {
        Error::MountFailed
    }
}

/// The arguments of `umount` that force `path` off its mount.
pub fn unmount_args(path: &str) -> (args: Vec<String>)
    ensures
        views(args@) == seq!["-f"@, path@],
{
    let mut args: Vec<String> = Vec::new();
    args.push(String::from_str("-f"));
    args.push(String::from_str(path));
    assert(views(args@) =~= seq!["-f"@, path@]);
    args
}

/// What the exit status of `umount` means.
pub fn unmount_outcome(success: bool) -> (r: Result<(), Error>)
    ensures
        success ==> r is Ok,
        !success ==> r matches Err(Error::UnmountFailed),
{
    if success {
        Ok(())
    } else {
        Err(Error::UnmountFailed)
    }
}

/// The raw disk image the file system of type `fs_type` is attached from.
pub open spec fn image_path(fs_type: Seq<char>) -> Seq<char> {
    "/tmp/fskit-"@ + fs_type
}

/// The arguments of `hdiutil` that attach `image` as a raw disk without
/// mounting it.  The image path is one argument, whatever it holds: it is
/// not split at whitespace, so a file system type with a space in it still
/// names its own image.
pub open spec fn attach_args(image: Seq<char>) -> Seq<Seq<char>> {
    seq!["attach"@, "-imagekey"@, "diskimage-class=CRawDiskImage"@, "-nomount"@, image]
}

/// The arguments of `mount` that mount `device` with file system type
/// `fs_type` at `mount_point`; each of the three is one argument, whatever
/// it holds.
pub open spec fn mount_args(fs_type: Seq<char>, device: Seq<char>, mount_point: Seq<char>) -> Seq<Seq<char>> {
    seq!["-F"@, "-t"@, fs_type, device, mount_point]
}

/// Where a mount stands.
#[derive(Debug, Clone, Copy, PartialEq, Eq, Structural)]
pub enum MountPhase {
    Start,
    Unmounting,
    CheckingMountPoint,
    CheckingImage,
    CreatingImage,
    Attaching,
    Spawning,
    Polling,
    Killing,
    ReadingStderr,
    Finished,
}

/// How far along a mount is; a mount only moves forward.
pub open spec fn mount_progress(phase: MountPhase) -> nat {
    match phase {
        MountPhase::Start => 0,
        MountPhase::Unmounting => 1,
        MountPhase::CheckingMountPoint => 2,
        MountPhase::CheckingImage => 3,
        MountPhase::CreatingImage => 4,
        MountPhase::Attaching => 5,
        MountPhase::Spawning => 6,
        MountPhase::Polling => 7,
        MountPhase::Killing => 8,
        MountPhase::ReadingStderr => 8,
        MountPhase::Finished => 9,
    }
}

/// What the outside world reports back.
#[derive(Debug)]
pub enum MountEvent {
    /// Mounting starts.
    Begin,
    /// The forced unmount has run (its outcome does not matter).
    Unmounted,
    /// Whether the mount point exists.
    MountPointExists(bool),
    /// Whether the disk image exists.
    ImageExists(bool),
    /// The disk image has been created.
    ImageCreated,
    /// The disk image is attached; the text `hdiutil` printed.
    Attached(String),
    /// The mount command is running.
    Spawned,
    /// The mount command exited, successfully or not.
    Exited(bool),
    /// The mount command is still running, this many milliseconds after it
    /// started.
    Running(u64),
    /// The hung mount command has been told to stop.
    Killed,
    /// The mount command's error output.
    Stderr(String),
    /// An I/O operation failed.
    IoFailed(std::io::Error),
}

/// What to do next.
#[derive(Debug)]
pub enum MountAction {
    /// Run `umount` with these arguments, whatever its outcome.
    Unmount(Vec<String>),
    /// Tell whether this path exists.
    CheckMountPoint(String),
    /// Tell whether the disk image at this path exists.
    CheckImage(String),
    /// Create an empty file at this path.
    CreateImage(String),
    /// Run `hdiutil` with these arguments and report what it printed.
    Attach(Vec<String>),
    /// Start `mount` with these arguments, its error output captured.
    Spawn(Vec<String>),
    /// Look whether the mount command has exited.
    Poll,
    /// Wait this many milliseconds, then look again.
    Sleep(u64),
    /// Stop the hung mount command.
    Kill,
    /// Read the error output of the failed mount command.
    ReadStderr,
    /// Mounting is over, with this outcome.
    Finish(Result<(), Error>),
}

/// The mount of one file system: the options, where it stands, and the
/// device its disk image was attached as.
pub struct MountProcess {
    pub opts: MountOptions,
    pub phase: MountPhase,
    pub device: String,
}

impl MountProcess {
    /// The events that may come in each phase.
    pub open spec fn accepts(self, event: MountEvent) -> bool {
        match self.phase {
            MountPhase::Start => event is Begin,
            MountPhase::Unmounting => event is Unmounted,
            MountPhase::CheckingMountPoint => event is MountPointExists,
            MountPhase::CheckingImage => event is ImageExists,
            MountPhase::CreatingImage => event is ImageCreated || event is IoFailed,
            MountPhase::Attaching => event is Attached || event is IoFailed,
            MountPhase::Spawning => event is Spawned || event is IoFailed,
            MountPhase::Polling => event is Exited || event is Running || event is IoFailed,
            MountPhase::Killing => event is Killed,
            MountPhase::ReadingStderr => event is Stderr || event is IoFailed,
            MountPhase::Finished => false,
        }
    }

    /// A mount of `opts` that has not started.
    pub fn new(opts: MountOptions) -> (m: Self)
        ensures
            m.opts == opts,
            m.phase == MountPhase::Start,
    {
        MountProcess { opts, phase: MountPhase::Start, device: String::new() }
    }

    fn image(&self) -> (p: String)
        ensures
            p@ == image_path(self.opts.fs_type@),
    {
        let mut p = String::from_str("/tmp/fskit-");
        p.append(self.opts.fs_type.as_str());
        p
    }

    /// Takes in what happened and says what to do next: unmount first when
    /// forced; fail when the mount point is missing; create the disk image
    /// when it is missing; attach it; mount the device it was attached as
    /// (the trimmed text `hdiutil` printed) at the mount point;
    /// look at the mount command every 100 ms; stop it and ask for a reboot
    /// when it still runs after 3 s; on failure, read its error output to
    /// tell why.  Any failed I/O ends the mount with that error.
    pub fn step(&mut self, event: MountEvent) -> (a: MountAction)
        requires
            old(self).accepts(event),
        ensures
            final(self).opts == old(self).opts,
            !(event is Attached) ==> final(self).device == old(self).device,
            mount_progress(final(self).phase) > mount_progress(old(self).phase) || (
            event matches MountEvent::Running(elapsed) && elapsed < MOUNT_TIMEOUT_MILLIS
                && final(self).phase == MountPhase::Polling),
            event matches MountEvent::IoFailed(e) ==> final(self).phase == MountPhase::Finished
                && a == MountAction::Finish(Err(Error::Io(e))),
            old(self).phase == MountPhase::Start ==> if old(self).opts.force {
                &&& final(self).phase == MountPhase::Unmounting
                &&& a matches MountAction::Unmount(args) && views(args@) == seq![
                    "-f"@,
                    old(self).opts.mount_point@,
                ]
            } else {
                &&& final(self).phase == MountPhase::CheckingMountPoint
                &&& a matches MountAction::CheckMountPoint(p) && p@ == old(self).opts.mount_point@
            },
            old(self).phase == MountPhase::Unmounting ==> {
                &&& final(self).phase == MountPhase::CheckingMountPoint
                &&& a matches MountAction::CheckMountPoint(p) && p@ == old(self).opts.mount_point@
            },
            event matches MountEvent::MountPointExists(present) ==> if present {
                &&& final(self).phase == MountPhase::CheckingImage
                &&& a matches MountAction::CheckImage(p) && p@ == image_path(old(self).opts.fs_type@)
            } else {
                &&& final(self).phase == MountPhase::Finished
                &&& a == MountAction::Finish(Err(Error::MountPointMissing))
            },
            event matches MountEvent::ImageExists(present) ==> if present {
                &&& final(self).phase == MountPhase::Attaching
                &&& a matches MountAction::Attach(args) && views(args@) == attach_args(
                    image_path(old(self).opts.fs_type@),
                )
            } else {
                &&& final(self).phase == MountPhase::CreatingImage
                &&& a matches MountAction::CreateImage(p) && p@ == image_path(old(self).opts.fs_type@)
            },
            event is ImageCreated ==> {
                &&& final(self).phase == MountPhase::Attaching
                &&& a matches MountAction::Attach(args) && views(args@) == attach_args(
                    image_path(old(self).opts.fs_type@),
                )
            },
            event matches MountEvent::Attached(out) ==> {
                &&& final(self).phase == MountPhase::Spawning
                &&& final(self).device@ == trim(out@)
                &&& a matches MountAction::Spawn(args) && views(args@) == mount_args(
                    old(self).opts.fs_type@,
                    trim(out@),
                    old(self).opts.mount_point@,
                )
            },
            event is Spawned ==> final(self).phase == MountPhase::Polling && a == MountAction::Poll,
            event matches MountEvent::Exited(success) ==> if success {
                final(self).phase == MountPhase::Finished && a == MountAction::Finish(Ok(()))
            } else {
                final(self).phase == MountPhase::ReadingStderr && a == MountAction::ReadStderr
            },
            event matches MountEvent::Running(elapsed) ==> if elapsed >= MOUNT_TIMEOUT_MILLIS {
                final(self).phase == MountPhase::Killing && a == MountAction::Kill
            } else {
                final(self).phase == MountPhase::Polling && a == MountAction::Sleep(POLL_INTERVAL_MILLIS)
            },
            event is Killed ==> final(self).phase == MountPhase::Finished && a == MountAction::Finish(
                Err(Error::NeedReboot),
            ),
            event matches MountEvent::Stderr(text) ==> final(self).phase == MountPhase::Finished
                && a == MountAction::Finish(Err(failure_of(text@))),
    {
        match event {
            MountEvent::IoFailed(e) => {
                self.phase = MountPhase::Finished;
                MountAction::Finish(Err(Error::Io(e)))
            },
            MountEvent::Begin => {
                if self.opts.force {
                    self.phase = MountPhase::Unmounting;
                    MountAction::Unmount(unmount_args(self.opts.mount_point.as_str()))
                } else {
                    self.phase = MountPhase::CheckingMountPoint;
                    MountAction::CheckMountPoint(self.opts.mount_point.clone())
                }
            },
            MountEvent::Unmounted => {
                self.phase = MountPhase::CheckingMountPoint;
                MountAction::CheckMountPoint(self.opts.mount_point.clone())
            },
            MountEvent::MountPointExists(present) => {
                if present {
                    self.phase = MountPhase::CheckingImage;
                    MountAction::CheckImage(self.image())
                } else {
                    self.phase = MountPhase::Finished;
                    MountAction::Finish(Err(Error::MountPointMissing))
                }
            },
            MountEvent::ImageExists(present) => {
                if present {
                    self.phase = MountPhase::Attaching;
                    MountAction::Attach(self.attach_command())
                } else {
                    self.phase = MountPhase::CreatingImage;
                    MountAction::CreateImage(self.image())
                }
            },
            MountEvent::ImageCreated => {
                self.phase = MountPhase::Attaching;
                MountAction::Attach(self.attach_command())
            },
            MountEvent::Attached(out) => {
                let device = str_trim(out.as_str());
                let mut args: Vec<String> = Vec::new();
                args.push(String::from_str("-F"));
                args.push(String::from_str("-t"));
                args.push(self.opts.fs_type.clone());
                args.push(String::from_str(device));
                args.push(self.opts.mount_point.clone());
                proof {
                    assert(views(args@) =~= mount_args(self.opts.fs_type@, device@, self.opts.mount_point@));
                }
                self.device = String::from_str(device);
                self.phase = MountPhase::Spawning;
                MountAction::Spawn(args)
            },
            MountEvent::Spawned => {
                self.phase = MountPhase::Polling;
                MountAction::Poll
            },
            MountEvent::Exited(success) => {
                if success {
                    self.phase = MountPhase::Finished;
                    MountAction::Finish(Ok(()))
                } else {
                    self.phase = MountPhase::ReadingStderr;
                    MountAction::ReadStderr
                }
            },
            MountEvent::Running(elapsed) => {
                if elapsed >= MOUNT_TIMEOUT_MILLIS {
                    self.phase = MountPhase::Killing;
                    MountAction::Kill
                } else {
                    MountAction::Sleep(POLL_INTERVAL_MILLIS)
                }
            },
            MountEvent::Killed => {
                self.phase = MountPhase::Finished;
                MountAction::Finish(Err(Error::NeedReboot))
            },
            MountEvent::Stderr(text) => {
                self.phase = MountPhase::Finished;
                MountAction::Finish(Err(classify_mount_failure(text.as_str())))
            },
        }
    }

    fn attach_command(&self) -> (args: Vec<String>)
        ensures
            views(args@) == attach_args(image_path(self.opts.fs_type@)),
    {
        let mut args: Vec<String> = Vec::new();
        args.push(String::from_str("attach"));
        args.push(String::from_str("-imagekey"));
        args.push(String::from_str("diskimage-class=CRawDiskImage"));
        args.push(String::from_str("-nomount"));
        args.push(self.image());
        assert(views(args@) =~= attach_args(image_path(self.opts.fs_type@)));
        args
    }
}

/// Law: the cause of a failed mount is read from its error output by which
/// phrases occur in it, anywhere: "is disabled" means the extension is
/// disabled, whatever else the output says; otherwise "Resource busy" means
/// the mount point is busy; otherwise "Probing resource" or "Loading
/// resource" means a reboot is needed; with none of them, the cause is
/// unknown.
pub proof fn lemma_mount_failure_causes(stderr: Seq<char>)
    ensures
        contains(stderr, "is disabled"@) ==> failure_of(stderr) is ExtensionDisabled,
        !contains(stderr, "is disabled"@) && contains(stderr, "Resource busy"@) ==> failure_of(
            stderr,
        ) is MountPointBusy,
        !contains(stderr, "is disabled"@) && !contains(stderr, "Resource busy"@) && (contains(
            stderr,
            "Probing resource"@,
        ) || contains(stderr, "Loading resource"@)) ==> failure_of(stderr) is NeedReboot,
        !contains(stderr, "is disabled"@) && !contains(stderr, "Resource busy"@) && !contains(
            stderr,
            "Probing resource"@,
        ) && !contains(stderr, "Loading resource"@) ==> failure_of(stderr) is MountFailed,
{
}

/// Law: text that holds a phrase between any other text holds it: the
/// phrase "is disabled" anywhere in the error output, followed or preceded
/// by anything (a newline, say), is reported as a disabled extension.
pub proof fn lemma_disabled_anywhere(before: Seq<char>, after: Seq<char>)
    ensures
        failure_of(before + "is disabled"@ + after) is ExtensionDisabled,
{
    let s = before + "is disabled"@ + after;
    let n = "is disabled"@;
    assert(s.subrange(before.len() as int, before.len() + n.len() as int) =~= n);
    assert(crate::text::occurs_at(s, n, before.len() as int));
}

} // verus!
