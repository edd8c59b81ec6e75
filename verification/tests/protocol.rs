use mount_guard::command::bind_mount_argv;
use mount_guard::command::boot_path;
use mount_guard::command::direct_mount_argv;
use mount_guard::command::probe_argv;
use mount_guard::command::temp_prefix;
use mount_guard::command::umount_argv;
use mount_guard::probe::probe_target;
use mount_guard::strategy::select_strategy;
use mount_guard::strategy::MountStrategy;
use mount_guard::text::trim;

#[test]
fn trim_removes_surrounding_whitespace() {
    assert_eq!(trim("  /boot\n"), "/boot".to_string());
    assert_eq!(trim("\t/mnt/data \r\n"), "/mnt/data".to_string());
}

#[test]
fn trim_keeps_inner_whitespace() {
    assert_eq!(trim(" a b \n"), "a b".to_string());
}

#[test]
fn trim_of_blank_input_is_empty() {
    assert_eq!(trim(""), "".to_string());
    assert_eq!(trim(" \t\r\n"), "".to_string());
}

#[test]
fn trim_without_whitespace_is_identity() {
    assert_eq!(trim("/boot"), "/boot".to_string());
}

#[test]
fn probe_success_reports_trimmed_target() {
    assert_eq!(probe_target(true, "/boot\n"), Some("/boot".to_string()));
    assert_eq!(probe_target(true, " /mnt/data \n"), Some("/mnt/data".to_string()));
}

#[test]
fn probe_failure_means_not_mounted() {
    assert_eq!(probe_target(false, "/boot\n"), None);
    assert_eq!(probe_target(false, ""), None);
}

#[test]
fn probe_success_with_blank_output_means_not_mounted() {
    assert_eq!(probe_target(true, "\n"), None);
    assert_eq!(probe_target(true, ""), None);
}

#[test]
fn boot_path_target_selects_bind() {
    assert_eq!(select_strategy(&Some("/boot".to_string())), MountStrategy::Bind);
}

#[test]
fn other_target_selects_direct() {
    assert_eq!(select_strategy(&Some("/mnt/data".to_string())), MountStrategy::Direct);
}

#[test]
fn no_target_selects_direct() {
    assert_eq!(select_strategy(&None), MountStrategy::Direct);
}

#[test]
fn probe_argv_is_findmnt_query() {
    assert_eq!(
        probe_argv("/dev/sdb1"),
        vec![
            "findmnt".to_string(),
            "-n".to_string(),
            "-o".to_string(),
            "TARGET".to_string(),
            "/dev/sdb1".to_string(),
        ],
    );
}

#[test]
fn bind_mount_argv_binds_boot_path() {
    assert_eq!(
        bind_mount_argv("/tmp/cryptpilot-mount-yyyy"),
        vec![
            "mount".to_string(),
            "--bind".to_string(),
            "/boot".to_string(),
            "/tmp/cryptpilot-mount-yyyy".to_string(),
        ],
    );
}

#[test]
fn direct_mount_argv_mounts_device() {
    assert_eq!(
        direct_mount_argv("/dev/sdb1", "/tmp/cryptpilot-mount-xxxx"),
        vec![
            "mount".to_string(),
            "/dev/sdb1".to_string(),
            "/tmp/cryptpilot-mount-xxxx".to_string(),
        ],
    );
}

#[test]
fn umount_argv_unmounts_directory() {
    assert_eq!(
        umount_argv("/tmp/cryptpilot-mount-xxxx"),
        vec!["umount".to_string(), "/tmp/cryptpilot-mount-xxxx".to_string()],
    );
}

#[test]
fn constants_match_the_external_tools() {
    assert_eq!(boot_path(), "/boot".to_string());
    assert_eq!(temp_prefix(), "cryptpilot-mount-".to_string());
}
