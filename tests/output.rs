use tfgen::cli::{Args, Command};
use tfgen::output::{FileWriter, StdoutWriter};

#[test]
fn file_writer_collects_until_cleared() {
    let mut w = FileWriter::new("out.tf".to_string());
    assert_eq!(w.path(), "out.tf");
    assert_eq!(w.buffer(), "");
    w.write("abc");
    w.write("\n");
    assert_eq!(w.buffer(), "abc\n");
    w.clear();
    assert_eq!(w.buffer(), "");
    assert_eq!(w.path(), "out.tf");
}

#[test]
fn options_hold_their_values() {
    let a = Args { debug: true, profile: Some("dev".to_string()), output: None, command: Command::S3 };
    assert!(a.debug);
    assert_eq!(a.profile.as_deref(), Some("dev"));
    assert!(a.output.is_none());
    assert_eq!(a.command, Command::S3);
    assert_eq!(StdoutWriter, StdoutWriter);
}
