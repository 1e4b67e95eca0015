use migrator::ensured_commands::{CmdCall, EnsuredCommands};
use migrator::error::MigErrorKind;
use migrator::extract::extract;

fn cmds() -> EnsuredCommands {
    EnsuredCommands::new(&["gzip"], &[Some(String::from("/bin/gzip"))]).unwrap()
}

#[test]
fn extract_plans_the_call_and_the_place_of_the_image() {
    let (call, to) = extract(&cmds(), "/home/user/balena.img.gz").unwrap();
    assert_eq!(
        call,
        CmdCall {
            program: String::from("/bin/gzip"),
            args: vec![String::from("-d"), String::from("-c"), String::from("/home/user/balena.img.gz")],
            trim_stdout: false,
        }
    );
    assert_eq!(to, "/home/user/balena.img");
    assert_eq!(extract(&cmds(), "image.zip").unwrap().1, "image");
    assert_eq!(extract(&cmds(), "/a.b/c.d").unwrap().1, "/a.b/c");
    assert_eq!(extract(&cmds(), "x.").unwrap().1, "x");
}

#[test]
fn extract_needs_an_extension_and_gzip() {
    for image in ["", "image", "/home/user.d/image", ".hidden", "/dir/.hidden", "C:\\dir.x\\image"] {
        assert_eq!(extract(&cmds(), image).unwrap_err().kind(), MigErrorKind::InvParam);
    }
    let none = EnsuredCommands::new(&[], &[]).unwrap();
    let err = extract(&none, "image.gz").unwrap_err();
    assert_eq!(err.kind(), MigErrorKind::InvParam);
    assert_eq!(err.remark(), "The command is not a checked command: gzip");
}
