use migrator::ensured_commands::{
    CmdCall, EnsuredCommands, DF_CMD, GRUB_REBOOT_CMD, GRUB_UPDT_CMD, LSBLK_CMD, MOUNT_CMD,
};
use migrator::error::MigErrorKind;

fn found(path: &str) -> Option<String> {
    Some(String::from(path))
}

#[test]
fn new_enters_every_command_that_was_found() {
    let cmds = EnsuredCommands::new(
        &[DF_CMD, LSBLK_CMD],
        &[found("/bin/df"), found("/bin/lsblk")],
    )
    .unwrap();
    assert_eq!(cmds.get_cmd("df").unwrap(), "/bin/df");
    assert_eq!(cmds.get_cmd("lsblk").unwrap(), "/bin/lsblk");
}

#[test]
fn new_reports_the_first_missing_tool_by_name() {
    let err = EnsuredCommands::new(
        &[DF_CMD, GRUB_UPDT_CMD, GRUB_REBOOT_CMD],
        &[found("/bin/df"), None, None],
    )
    .unwrap_err();
    assert_eq!(err.kind(), MigErrorKind::ToolMissing);
    assert_eq!(err.remark(), "cannot find required command update-grub");
}

#[test]
fn new_rejects_lists_of_different_length() {
    let err = EnsuredCommands::new(&[DF_CMD, LSBLK_CMD], &[found("/bin/df")]).unwrap_err();
    assert_eq!(err.kind(), MigErrorKind::InvParam);
}

#[test]
fn new_of_nothing_is_empty() {
    let cmds = EnsuredCommands::new(&[], &[]).unwrap();
    assert_eq!(cmds.get_cmd("df").unwrap_err().kind(), MigErrorKind::InvParam);
}

#[test]
fn ensure_cmds_keeps_what_came_before_the_missing_tool() {
    let mut cmds = EnsuredCommands::new(&[DF_CMD], &[found("/bin/df")]).unwrap();
    let err = cmds
        .ensure_cmds(&[MOUNT_CMD, GRUB_UPDT_CMD, LSBLK_CMD], &[found("/bin/mount"), None, found("/bin/lsblk")])
        .unwrap_err();
    assert_eq!(err.kind(), MigErrorKind::ToolMissing);
    assert_eq!(err.remark(), "cannot find required command update-grub");
    assert_eq!(cmds.get_cmd("df").unwrap(), "/bin/df");
    assert_eq!(cmds.get_cmd("mount").unwrap(), "/bin/mount");
    assert!(cmds.get_cmd("lsblk").is_err());
}

#[test]
fn ensure_cmds_replaces_an_earlier_entry() {
    let mut cmds = EnsuredCommands::new(&[DF_CMD], &[found("/bin/df")]).unwrap();
    cmds.ensure_cmds(&[DF_CMD, DF_CMD], &[found("/usr/bin/df"), found("/sbin/df")]).unwrap();
    assert_eq!(cmds.get_cmd("df").unwrap(), "/sbin/df");
}

#[test]
fn ensure_cmd_returns_the_place() {
    let mut cmds = EnsuredCommands::new(&[], &[]).unwrap();
    assert_eq!(cmds.ensure_cmd("dd", found("/bin/dd")).unwrap(), "/bin/dd");
    assert_eq!(cmds.get_cmd("dd").unwrap(), "/bin/dd");
    let err = cmds.ensure_cmd("gzip", None).unwrap_err();
    assert_eq!(err.kind(), MigErrorKind::ToolMissing);
    assert_eq!(err.remark(), "cannot find required command gzip");
    assert!(cmds.get_cmd("gzip").is_err());
    assert_eq!(cmds.get_cmd("dd").unwrap(), "/bin/dd");
}

#[test]
fn get_cmd_names_the_unchecked_command() {
    let cmds = EnsuredCommands::new(&[DF_CMD], &[found("/bin/df")]).unwrap();
    let err = cmds.get_cmd("fdisk").unwrap_err();
    assert_eq!(err.kind(), MigErrorKind::InvParam);
    assert_eq!(err.remark(), "The command is not a checked command: fdisk");
}

#[test]
fn call_cmd_names_program_and_arguments() {
    let cmds = EnsuredCommands::new(&[MOUNT_CMD], &[found("/bin/mount")]).unwrap();
    let call = cmds.call_cmd("mount", &["-o", "ro", "/dev/sda1"], true).unwrap();
    assert_eq!(
        call,
        CmdCall {
            program: String::from("/bin/mount"),
            args: vec![String::from("-o"), String::from("ro"), String::from("/dev/sda1")],
            trim_stdout: true,
        }
    );
    let err = cmds.call_cmd("umount", &[], false).unwrap_err();
    assert_eq!(err.kind(), MigErrorKind::InvParam);
    assert_eq!(err.remark(), "The command is not a checked command: umount");
}
