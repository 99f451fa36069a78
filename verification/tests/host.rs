use fskit_rs::installer::{self, describe_command, InstallAction, InstallEvent, Installer};
use fskit_rs::mounter::{self, classify_mount_failure, unmount_args, unmount_outcome, MountAction, MountEvent, MountProcess};
use fskit_rs::options::MountOptions;
use fskit_rs::session::{self, describe_failure, registered_appex, registered_paths, registration_outcome, SessionSetup, SetupAction, SetupEvent};
use fskit_rs::framing::FrameBounds;
use fskit_rs::socket::{self, decode_failure_awaits_more, listen_address, settle_reads, start_outcome};

#[test]
fn default_options() {
    let opts = MountOptions::default();
    assert_eq!(opts.socket_port, 35367);
    assert_eq!(opts.fs_type, "bridgefs");
    assert_eq!(opts.mount_point, "/tmp/bridgefs-mount-point");
    assert!(opts.force);
}

#[test]
fn mount_failures_are_classified() {
    assert!(matches!(classify_mount_failure("mount: extension is disabled"), mounter::Error::ExtensionDisabled));
    assert!(matches!(classify_mount_failure("mount: /tmp/m: Resource busy"), mounter::Error::MountPointBusy));
    assert!(matches!(classify_mount_failure("Probing resource failed"), mounter::Error::NeedReboot));
    assert!(matches!(classify_mount_failure("Loading resource"), mounter::Error::NeedReboot));
    assert!(matches!(classify_mount_failure("something else"), mounter::Error::MountFailed));
    assert!(matches!(classify_mount_failure("Resource busy; is disabled"), mounter::Error::ExtensionDisabled));
}

#[test]
fn unmount_command() {
    assert_eq!(unmount_args("/tmp/my mount"), vec!["-f", "/tmp/my mount"]);
    assert!(unmount_outcome(true).is_ok());
    assert!(matches!(unmount_outcome(false), Err(mounter::Error::UnmountFailed)));
}

fn opts(force: bool) -> MountOptions {
    MountOptions {
        socket_port: 1,
        fs_type: "bridgefs".to_string(),
        mount_point: "/tmp/m".to_string(),
        force,
    }
}

#[test]
fn mount_happy_path() {
    let mut m = MountProcess::new(opts(true));
    assert!(matches!(m.step(MountEvent::Begin), MountAction::Unmount(a) if a == vec!["-f", "/tmp/m"]));
    assert!(matches!(m.step(MountEvent::Unmounted), MountAction::CheckMountPoint(p) if p == "/tmp/m"));
    assert!(matches!(m.step(MountEvent::MountPointExists(true)), MountAction::CheckImage(p) if p == "/tmp/fskit-bridgefs"));
    assert!(matches!(m.step(MountEvent::ImageExists(false)), MountAction::CreateImage(p) if p == "/tmp/fskit-bridgefs"));
    match m.step(MountEvent::ImageCreated) {
        MountAction::Attach(args) => assert_eq!(args, vec!["attach", "-imagekey", "diskimage-class=CRawDiskImage", "-nomount", "/tmp/fskit-bridgefs"]),
        other => panic!("{other:?}"),
    }
    match m.step(MountEvent::Attached("/dev/disk7\t\n".to_string())) {
        MountAction::Spawn(args) => assert_eq!(args, vec!["-F", "-t", "bridgefs", "/dev/disk7", "/tmp/m"]),
        other => panic!("{other:?}"),
    }
    assert_eq!(m.device, "/dev/disk7");
    assert!(matches!(m.step(MountEvent::Spawned), MountAction::Poll));
    assert!(matches!(m.step(MountEvent::Running(99)), MountAction::Sleep(100)));
    assert!(matches!(m.step(MountEvent::Exited(true)), MountAction::Finish(Ok(()))));
}

#[test]
fn mount_without_force_checks_mount_point() {
    let mut m = MountProcess::new(opts(false));
    assert!(matches!(m.step(MountEvent::Begin), MountAction::CheckMountPoint(p) if p == "/tmp/m"));
    assert!(matches!(m.step(MountEvent::MountPointExists(false)), MountAction::Finish(Err(mounter::Error::MountPointMissing))));
}

#[test]
fn mount_hangs_then_needs_reboot() {
    let mut m = MountProcess::new(opts(false));
    m.step(MountEvent::Begin);
    m.step(MountEvent::MountPointExists(true));
    m.step(MountEvent::ImageExists(true));
    m.step(MountEvent::Attached("/dev/disk2".to_string()));
    m.step(MountEvent::Spawned);
    assert!(matches!(m.step(MountEvent::Running(2999)), MountAction::Sleep(100)));
    assert!(matches!(m.step(MountEvent::Running(3000)), MountAction::Kill));
    assert!(matches!(m.step(MountEvent::Killed), MountAction::Finish(Err(mounter::Error::NeedReboot))));
}

#[test]
fn mount_failure_reads_stderr() {
    let mut m = MountProcess::new(opts(false));
    m.step(MountEvent::Begin);
    m.step(MountEvent::MountPointExists(true));
    m.step(MountEvent::ImageExists(true));
    m.step(MountEvent::Attached("/dev/disk2".to_string()));
    m.step(MountEvent::Spawned);
    assert!(matches!(m.step(MountEvent::Exited(false)), MountAction::ReadStderr));
    assert!(matches!(m.step(MountEvent::Stderr("Resource busy".to_string())), MountAction::Finish(Err(mounter::Error::MountPointBusy))));
}

#[test]
fn mount_io_failure_ends() {
    let mut m = MountProcess::new(opts(false));
    m.step(MountEvent::Begin);
    m.step(MountEvent::MountPointExists(true));
    m.step(MountEvent::ImageExists(false));
    let e = std::io::Error::new(std::io::ErrorKind::PermissionDenied, "denied");
    assert!(matches!(m.step(MountEvent::IoFailed(e)), MountAction::Finish(Err(mounter::Error::Io(_)))));
}

#[test]
fn describe_command_joins_arguments() {
    assert_eq!(describe_command("cp", &["-r", "/x/B.app", "/Applications"]), "cp -r /x/B.app /Applications");
    assert_eq!(describe_command("open", &[]), "open ");
}

fn installer(force: bool) -> Installer {
    Installer::new("/x/Bridge.app".to_string(), Some("Bridge.app".to_string()), force)
}

#[test]
fn install_fresh() {
    let mut i = installer(false);
    assert!(matches!(i.step(InstallEvent::Begin), InstallAction::CheckSource(p) if p == "/x/Bridge.app"));
    assert!(matches!(i.step(InstallEvent::SourceExists(true)), InstallAction::CheckInstalled(p) if p == "/Applications/Bridge.app"));
    match i.step(InstallEvent::InstalledExists(false)) {
        InstallAction::Run { program, args } => {
            assert_eq!(program, "cp");
            assert_eq!(args, vec!["-r", "/x/Bridge.app", "/Applications"]);
        }
        other => panic!("{other:?}"),
    }
    match i.step(InstallEvent::CommandExited { success: true, status: "exit status: 0".to_string() }) {
        InstallAction::Run { program, args } => {
            assert_eq!(program, "xattr");
            assert_eq!(args, vec!["-dr", "com.apple.quarantine", "/Applications/Bridge.app"]);
        }
        other => panic!("{other:?}"),
    }
    match i.step(InstallEvent::CommandExited { success: true, status: "exit status: 0".to_string() }) {
        InstallAction::Run { program, args } => {
            assert_eq!(program, "open");
            assert_eq!(args, vec!["-a", "/Applications/Bridge.app", "--args", "-s"]);
        }
        other => panic!("{other:?}"),
    }
    assert!(matches!(i.step(InstallEvent::CommandExited { success: true, status: String::new() }), InstallAction::Finish(Ok(()))));
}

#[test]
fn install_missing_or_present() {
    let mut i = installer(false);
    i.step(InstallEvent::Begin);
    assert!(matches!(i.step(InstallEvent::SourceExists(false)), InstallAction::Finish(Err(installer::Error::AppNotFound))));

    let mut i = installer(false);
    i.step(InstallEvent::Begin);
    i.step(InstallEvent::SourceExists(true));
    assert!(matches!(i.step(InstallEvent::InstalledExists(true)), InstallAction::Finish(Err(installer::Error::AppInstalled))));

    let mut i = installer(true);
    i.step(InstallEvent::Begin);
    i.step(InstallEvent::SourceExists(true));
    assert!(matches!(i.step(InstallEvent::InstalledExists(true)), InstallAction::Remove(p) if p == "/Applications/Bridge.app"));
    assert!(matches!(i.step(InstallEvent::Removed), InstallAction::Run { program, .. } if program == "cp"));
}

#[test]
fn install_command_failure_names_command() {
    let mut i = installer(false);
    i.step(InstallEvent::Begin);
    i.step(InstallEvent::SourceExists(true));
    i.step(InstallEvent::InstalledExists(false));
    i.step(InstallEvent::CommandExited { success: true, status: String::new() });
    match i.step(InstallEvent::CommandExited { success: false, status: "exit status: 1".to_string() }) {
        InstallAction::Finish(Err(installer::Error::CommandFailed { command, status })) => {
            assert_eq!(command, "xattr -dr com.apple.quarantine /Applications/Bridge.app");
            assert_eq!(status, "exit status: 1");
        }
        other => panic!("{other:?}"),
    }
}

#[test]
fn failure_description() {
    assert_eq!(describe_failure("  no such plugin \n", "exit status: 1"), "no such plugin");
    assert_eq!(describe_failure(" \n", "exit status: 2"), "exit status: 2");
}

#[test]
fn appex_path_from_pluginkit() {
    let out = "{\n    path = \"/Applications/A.app/Contents/PlugIns/A.appex\";\n    other = 1;\n}\n{\n  path = \"/Applications/B.app/Contents/PlugIns/B.appex\";\n}\n";
    match registered_appex(true, out) {
        Ok(p) => assert_eq!(p, "/Applications/B.app/Contents/PlugIns/B.appex"),
        Err(e) => panic!("{e:?}"),
    }
    assert!(matches!(registered_appex(true, "nothing here"), Err(session::Error::ExtensionNotRegistered)));
    assert!(matches!(registered_appex(false, out), Err(session::Error::ExtensionNotRegistered)));
    assert!(matches!(registration_outcome(true, vec!["a".to_string(), "p".to_string()]), Ok(p) if p == "p"));
    assert!(matches!(registration_outcome(true, vec![]), Err(session::Error::ExtensionNotRegistered)));
    assert!(matches!(registration_outcome(false, vec!["p".to_string()]), Err(session::Error::ExtensionNotRegistered)));
}

#[test]
fn socket_decisions() {
    assert_eq!(listen_address(35367), "127.0.0.1:35367");
    assert_eq!(listen_address(0), "127.0.0.1:0");
    assert!(start_outcome(Some(true)).is_ok());
    assert!(matches!(start_outcome(Some(false)), Err(socket::Error::StartFailed)));
    assert!(matches!(start_outcome(None), Err(socket::Error::StartFailed)));
    assert!(decode_failure_awaits_more("failed to decode Protobuf message: buffer underflow"));
    assert!(decode_failure_awaits_more("failed to decode length prefix"));
    assert!(!decode_failure_awaits_more("failed to decode Protobuf message: invalid varint"));
}

#[test]
fn settling_reads() {
    let frames = vec![
        FrameBounds { start: 0, header_len: 1, body_len: 3 },
        FrameBounds { start: 4, header_len: 1, body_len: 2 },
    ];
    let s = settle_reads(&frames, 7, 2, None, None);
    assert_eq!((s.served, s.consumed, s.fatal), (2, 7, false));
    let s = settle_reads(&frames, 7, 1, Some("failed to decode Protobuf message: buffer underflow"), None);
    assert_eq!((s.served, s.consumed, s.fatal), (1, 4, false));
    let s = settle_reads(&frames, 7, 0, Some("failed to decode Protobuf message: invalid wire type"), None);
    assert_eq!((s.served, s.fatal), (0, true));
    let s = settle_reads(&frames, 7, 2, None, Some("failed to decode Protobuf message: invalid varint"));
    assert_eq!((s.served, s.fatal), (2, true));
}

#[test]
fn session_setup_paths() {
    let mut s = SessionSetup::new(35367);
    assert!(matches!(s.step(SetupEvent::Begin), SetupAction::StartSocket(35367)));
    assert!(matches!(s.step(SetupEvent::SocketStarted(Ok(()))), SetupAction::Mount));
    assert!(matches!(s.step(SetupEvent::Mounted(Ok(()))), SetupAction::Finish(Ok(()))));

    let mut s = SessionSetup::new(1);
    s.step(SetupEvent::Begin);
    assert!(matches!(
        s.step(SetupEvent::SocketStarted(Err(socket::Error::StartFailed))),
        SetupAction::Finish(Err(session::Error::Socket(socket::Error::StartFailed)))
    ));

    let mut s = SessionSetup::new(1);
    s.step(SetupEvent::Begin);
    s.step(SetupEvent::SocketStarted(Ok(())));
    assert!(matches!(s.step(SetupEvent::Mounted(Err(mounter::Error::MountPointMissing))), SetupAction::StopSocket));
    assert!(matches!(
        s.step(SetupEvent::SocketStopped),
        SetupAction::Finish(Err(session::Error::Mounter(mounter::Error::MountPointMissing)))
    ));
}

#[test]
fn mount_point_with_spaces_is_one_argument() {
    let mut m = MountProcess::new(MountOptions {
        socket_port: 1,
        fs_type: "bridgefs".to_string(),
        mount_point: "/Volumes/My Disk".to_string(),
        force: false,
    });
    assert!(matches!(m.step(MountEvent::Begin), MountAction::CheckMountPoint(p) if p == "/Volumes/My Disk"));
    m.step(MountEvent::MountPointExists(true));
    m.step(MountEvent::ImageExists(true));
    match m.step(MountEvent::Attached("  disk4\n".to_string())) {
        MountAction::Spawn(args) => assert_eq!(args, vec!["-F", "-t", "bridgefs", "disk4", "/Volumes/My Disk"]),
        other => panic!("{other:?}"),
    }
}

#[test]
fn image_path_with_spaces_is_one_argument() {
    let mut m = MountProcess::new(MountOptions {
        socket_port: 1,
        fs_type: "my fs".to_string(),
        mount_point: "/tmp/m".to_string(),
        force: false,
    });
    m.step(MountEvent::Begin);
    m.step(MountEvent::MountPointExists(true));
    match m.step(MountEvent::ImageExists(true)) {
        MountAction::Attach(args) => assert_eq!(args, vec!["attach", "-imagekey", "diskimage-class=CRawDiskImage", "-nomount", "/tmp/fskit-my fs"]),
        other => panic!("{other:?}"),
    }
}

fn regex_paths(text: &str) -> Vec<String> {
    let reg = regex::Regex::new(r#"(?m)^\s*path = "([^"]+)";"#).unwrap();
    reg.captures_iter(text).map(|caps| caps[1].to_string()).collect()
}

#[test]
fn registered_paths_examples() {
    let out = "{\n    path = \"/A.appex\";\n}\n  path = \"/B.appex\";\n";
    assert_eq!(registered_paths(out), vec!["/A.appex", "/B.appex"]);
    assert!(registered_paths("").is_empty());
    assert!(registered_paths("x path = \"/no\";").is_empty());
    assert!(registered_paths("path = \"\";").is_empty());
    assert!(registered_paths("path = \"/open\"").is_empty());
    assert_eq!(registered_paths("path = \"/a\nb\";"), vec!["/a\nb"]);
    assert_eq!(registered_paths("\n\u{3000}\n\tpath = \"/w\"; path = \"/x\";"), vec!["/w"]);
}

#[test]
fn registered_paths_agree_with_the_pattern() {
    let samples = [
        "{\n    path = \"/Applications/A.app/Contents/PlugIns/A.appex\";\n    other = 1;\n}\n",
        "path = \"/a\";\npath = \"/b\";\n  path = \"/c\";",
        "path = \"/a\";path = \"/b\";\npath = \"/c\";",
        "\n\n   \n path = \"/deep\";",
        "path = \"/x\" ;\npath = \"/y\";",
        "  path=\"/nospace\";\n path = \"/ok\";",
        "path = \"/multi\nline\";\npath = \"/next\";",
        "path = \"/unterminated\npath = \"/b\";",
        "\u{2028}path = \"/sep\";",
        "\r\npath = \"/crlf\";\r\n",
        "xx\npath = \"/é€\";tail",
        "path = \"\";\npath = \"/after-empty\";",
    ];
    for s in samples {
        assert_eq!(registered_paths(s), regex_paths(s), "{s:?}");
    }
}
