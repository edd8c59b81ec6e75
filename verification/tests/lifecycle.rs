use mount_guard::guard::TmpMountPoint;
use mount_guard::session::MountAction;
use mount_guard::session::MountError;
use mount_guard::session::MountEvent;
use mount_guard::session::StepOutcome;

fn expect_next(outcome: StepOutcome) -> MountAction {
    match outcome {
        StepOutcome::Next { action } => action,
        StepOutcome::Ready { .. } => panic!("expected another action, got a guard"),
        StepOutcome::Failed { .. } => panic!("expected another action, got an error"),
    }
}

fn expect_ready(outcome: StepOutcome) -> TmpMountPoint {
    match outcome {
        StepOutcome::Ready { guard } => guard,
        _ => panic!("expected a guard"),
    }
}

fn expect_failed(outcome: StepOutcome) -> MountError {
    match outcome {
        StepOutcome::Failed { error } => error,
        _ => panic!("expected an error"),
    }
}

#[test]
fn unmounted_device_is_mounted_directly() {
    let (mut session, first) = TmpMountPoint::mount("/dev/sdb1".to_string());
    match first {
        MountAction::RunProbe { argv } => assert_eq!(
            argv,
            vec![
                "findmnt".to_string(),
                "-n".to_string(),
                "-o".to_string(),
                "TARGET".to_string(),
                "/dev/sdb1".to_string(),
            ],
        ),
        _ => panic!("expected the mount-table query first"),
    }

    let probe = MountEvent::ProbeFinished { success: false, stdout: "".to_string() };
    assert!(session.accepts(&probe));
    match expect_next(session.step(probe)) {
        MountAction::CreateTempDir { prefix } => {
            assert_eq!(prefix, "cryptpilot-mount-".to_string())
        },
        _ => panic!("expected the temporary-directory request"),
    }

    let created = MountEvent::TempDirCreated {
        path: "/tmp/cryptpilot-mount-xxxx".to_string(),
    };
    match expect_next(session.step(created)) {
        MountAction::RunMount { argv } => assert_eq!(
            argv,
            vec![
                "mount".to_string(),
                "/dev/sdb1".to_string(),
                "/tmp/cryptpilot-mount-xxxx".to_string(),
            ],
        ),
        _ => panic!("expected the direct mount command"),
    }

    let guard = expect_ready(session.step(MountEvent::MountFinished { success: true }));
    assert_eq!(guard.mount_point().as_str(), "/tmp/cryptpilot-mount-xxxx");
    assert_eq!(guard.device().as_str(), "/dev/sdb1");

    let (task, action) = guard.begin_unmount();
    match action {
        MountAction::RunUnmount { argv } => assert_eq!(
            argv,
            vec!["umount".to_string(), "/tmp/cryptpilot-mount-xxxx".to_string()],
        ),
        _ => panic!("expected the unmount command"),
    }
    assert!(task.finish(true).is_none());
}

#[test]
fn device_mounted_at_boot_is_bind_mounted() {
    let (mut session, _) = TmpMountPoint::mount("/dev/sda2".to_string());
    let probe = MountEvent::ProbeFinished { success: true, stdout: "/boot\n".to_string() };
    expect_next(session.step(probe));
    let created = MountEvent::TempDirCreated {
        path: "/tmp/cryptpilot-mount-yyyy".to_string(),
    };
    match expect_next(session.step(created)) {
        MountAction::RunMount { argv } => assert_eq!(
            argv,
            vec![
                "mount".to_string(),
                "--bind".to_string(),
                "/boot".to_string(),
                "/tmp/cryptpilot-mount-yyyy".to_string(),
            ],
        ),
        _ => panic!("expected the bind mount command"),
    }

    let guard = expect_ready(session.step(MountEvent::MountFinished { success: true }));
    assert_eq!(guard.mount_point().as_str(), "/tmp/cryptpilot-mount-yyyy");

    // teardown touches the bind target only, never the original boot mount
    let (_, action) = guard.begin_unmount();
    match action {
        MountAction::RunUnmount { argv } => assert_eq!(
            argv,
            vec!["umount".to_string(), "/tmp/cryptpilot-mount-yyyy".to_string()],
        ),
        _ => panic!("expected the unmount command"),
    }
}

#[test]
fn device_mounted_elsewhere_is_still_mounted_directly() {
    let (mut session, _) = TmpMountPoint::mount("/dev/sdc1".to_string());
    let probe = MountEvent::ProbeFinished {
        success: true,
        stdout: "/mnt/data\n".to_string(),
    };
    expect_next(session.step(probe));
    let created = MountEvent::TempDirCreated {
        path: "/tmp/cryptpilot-mount-zzzz".to_string(),
    };
    match expect_next(session.step(created)) {
        MountAction::RunMount { argv } => assert_eq!(
            argv,
            vec![
                "mount".to_string(),
                "/dev/sdc1".to_string(),
                "/tmp/cryptpilot-mount-zzzz".to_string(),
            ],
        ),
        _ => panic!("expected the direct mount command"),
    }
}

#[test]
fn failed_direct_mount_yields_error_not_guard() {
    let (mut session, _) = TmpMountPoint::mount("/dev/sdb1".to_string());
    expect_next(session.step(MountEvent::ProbeFinished {
        success: false,
        stdout: "".to_string(),
    }));
    expect_next(session.step(MountEvent::TempDirCreated {
        path: "/tmp/cryptpilot-mount-xxxx".to_string(),
    }));
    match expect_failed(session.step(MountEvent::MountFinished { success: false })) {
        MountError::DirectMountFailed { dev } => assert_eq!(dev, "/dev/sdb1".to_string()),
        _ => panic!("expected the direct-mount failure"),
    }
}

#[test]
fn failed_bind_mount_yields_error_not_guard() {
    let (mut session, _) = TmpMountPoint::mount("/dev/sda2".to_string());
    expect_next(session.step(MountEvent::ProbeFinished {
        success: true,
        stdout: "/boot\n".to_string(),
    }));
    expect_next(session.step(MountEvent::TempDirCreated {
        path: "/tmp/cryptpilot-mount-yyyy".to_string(),
    }));
    match expect_failed(session.step(MountEvent::MountFinished { success: false })) {
        MountError::BindMountFailed { dev } => assert_eq!(dev, "/dev/sda2".to_string()),
        _ => panic!("expected the bind-mount failure"),
    }
}

#[test]
fn failed_temp_dir_allocation_yields_error() {
    let (mut session, _) = TmpMountPoint::mount("/dev/sdb1".to_string());
    expect_next(session.step(MountEvent::ProbeFinished {
        success: false,
        stdout: "".to_string(),
    }));
    match expect_failed(session.step(MountEvent::TempDirFailed)) {
        MountError::TempDirCreation { dev } => assert_eq!(dev, "/dev/sdb1".to_string()),
        _ => panic!("expected the temporary-directory failure"),
    }
}

#[test]
fn mount_point_is_stable_across_calls() {
    let (mut session, _) = TmpMountPoint::mount("/dev/sdb1".to_string());
    expect_next(session.step(MountEvent::ProbeFinished {
        success: false,
        stdout: "".to_string(),
    }));
    expect_next(session.step(MountEvent::TempDirCreated {
        path: "/tmp/cryptpilot-mount-xxxx".to_string(),
    }));
    let guard = expect_ready(session.step(MountEvent::MountFinished { success: true }));
    let first = guard.mount_point().clone();
    let second = guard.mount_point().clone();
    assert_eq!(first, second);
    assert_eq!(first, "/tmp/cryptpilot-mount-xxxx".to_string());
}

#[test]
fn failed_unmount_is_reported_not_escalated() {
    let (mut session, _) = TmpMountPoint::mount("/dev/sdb1".to_string());
    expect_next(session.step(MountEvent::ProbeFinished {
        success: false,
        stdout: "".to_string(),
    }));
    expect_next(session.step(MountEvent::TempDirCreated {
        path: "/tmp/cryptpilot-mount-xxxx".to_string(),
    }));
    let guard = expect_ready(session.step(MountEvent::MountFinished { success: true }));
    let (task, _) = guard.begin_unmount();
    let failure = task.finish(false).expect("a failed unmount must be reported");
    assert_eq!(failure.device().as_str(), "/dev/sdb1");
    assert_eq!(failure.mount_dir().as_str(), "/tmp/cryptpilot-mount-xxxx");
    assert_eq!(
        failure.message(),
        "failed to unmount device /dev/sdb1 from /tmp/cryptpilot-mount-xxxx".to_string(),
    );
}

#[test]
fn session_rejects_out_of_order_events() {
    let (session, _) = TmpMountPoint::mount("/dev/sdb1".to_string());
    assert_eq!(session.device().as_str(), "/dev/sdb1");
    assert!(!session.accepts(&MountEvent::MountFinished { success: true }));
    assert!(!session.accepts(&MountEvent::TempDirCreated { path: "/tmp/x".to_string() }));
    assert!(session.accepts(&MountEvent::ProbeFinished {
        success: true,
        stdout: "/boot\n".to_string(),
    }));
}

#[test]
fn finished_session_accepts_nothing_further() {
    let (mut session, _) = TmpMountPoint::mount("/dev/sdb1".to_string());
    expect_next(session.step(MountEvent::ProbeFinished {
        success: false,
        stdout: "".to_string(),
    }));
    expect_next(session.step(MountEvent::TempDirCreated {
        path: "/tmp/cryptpilot-mount-xxxx".to_string(),
    }));
    expect_ready(session.step(MountEvent::MountFinished { success: true }));
    assert!(!session.accepts(&MountEvent::MountFinished { success: true }));
    assert!(!session.accepts(&MountEvent::ProbeFinished {
        success: true,
        stdout: "/boot\n".to_string(),
    }));
    assert!(!session.accepts(&MountEvent::TempDirFailed));
}
