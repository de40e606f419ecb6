use bios_boot::device::{read_output, ResolveState};
use bios_boot::model::{BootError, Fault};
use bios_boot::paths::join_path;
use bios_boot::plan::{Action, CommandLine, CommandOutput, Event, Step};
use bios_boot::platform::{Bios, Platform, Strategy};
use bios_boot::text::{same_text, trim};

fn command(program: &str, args: &[&str]) -> CommandLine {
    CommandLine {
        program: program.to_string(),
        args: args.iter().map(|s| s.to_string()).collect(),
    }
}

fn ran(success: bool, stdout: &[u8]) -> Event {
    Event::Ran(CommandOutput { success, stdout: stdout.to_vec(), stderr: b"oops".to_vec() })
}

#[test]
fn platforms_choose_their_strategy() {
    assert_eq!(Platform::X86_64.strategy(), Strategy::MountChain);
    assert_eq!(Platform::Powerpc64.strategy(), Strategy::FixedSymlink);
}

#[test]
fn mount_chain_asks_twice() {
    let bios = Bios::new(Platform::X86_64);
    let step = bios.get_device();
    assert_eq!(
        step,
        Step::Next(
            ResolveState::MountSource,
            Action::Query(command(
                "findmnt",
                &["--noheadings", "--nofsroot", "--output", "SOURCE", "/boot"]
            ))
        )
    );
    let step = bios.get_device_next(ResolveState::MountSource, ran(true, b"/dev/vda3\n"));
    assert_eq!(
        step,
        Step::Next(
            ResolveState::ParentDevice,
            Action::Query(command(
                "lsblk",
                &["--paths", "--noheadings", "--output", "PKNAME", "/dev/vda3"]
            ))
        )
    );
    let step = bios.get_device_next(ResolveState::ParentDevice, ran(true, b"/dev/vda\n"));
    assert_eq!(step, Step::Done("/dev/vda".to_string()));
}

#[test]
fn fixed_symlink_asks_once() {
    let bios = Bios::new(Platform::Powerpc64);
    let step = bios.get_device();
    assert_eq!(
        step,
        Step::Next(
            ResolveState::SymlinkTarget,
            Action::Query(command("realpath", &["/dev/disk/by-partlabel/PowerPC-PReP-boot"]))
        )
    );
    let step = bios.get_device_next(ResolveState::SymlinkTarget, ran(true, b"  /dev/sda1 \n"));
    assert_eq!(step, Step::Done("/dev/sda1".to_string()));
}

#[test]
fn failed_query_fails_the_lookup() {
    let bios = Bios::new(Platform::X86_64);
    for state in [ResolveState::MountSource, ResolveState::ParentDevice, ResolveState::SymlinkTarget] {
        assert_eq!(
            bios.get_device_next(state, ran(false, b"/dev/vda\n")),
            Step::Failed(BootError::Resolution(Fault::ToolFailed))
        );
        assert_eq!(
            bios.get_device_next(state, ran(true, &[0x2f, 0xc3, 0x28])),
            Step::Failed(BootError::Resolution(Fault::NotText))
        );
        assert_eq!(
            bios.get_device_next(state, ran(true, b"")),
            Step::Failed(BootError::Resolution(Fault::Empty))
        );
        assert_eq!(
            bios.get_device_next(state, ran(true, b" \n\t\n")),
            Step::Failed(BootError::Resolution(Fault::Empty))
        );
    }
}

#[test]
fn event_out_of_turn_fails_the_lookup() {
    let bios = Bios::new(Platform::X86_64);
    assert_eq!(
        bios.get_device_next(ResolveState::MountSource, Event::Probed(None)),
        Step::Failed(BootError::OutOfTurn)
    );
    assert_eq!(
        bios.get_device_next(ResolveState::ParentDevice, Event::Written),
        Step::Failed(BootError::OutOfTurn)
    );
}

#[test]
fn output_is_decoded_and_trimmed() {
    let out = CommandOutput { success: true, stdout: b"\n /dev/vda \r\n".to_vec(), stderr: vec![] };
    assert_eq!(read_output(out), Ok("/dev/vda".to_string()));
    let out = CommandOutput {
        success: true,
        stdout: "\u{a0}/dev/\u{e9}\u{3000}".as_bytes().to_vec(),
        stderr: vec![],
    };
    assert_eq!(read_output(out), Ok("/dev/\u{e9}".to_string()));
    let out = CommandOutput { success: false, stdout: b"/dev/vda".to_vec(), stderr: vec![] };
    assert_eq!(read_output(out), Err(Fault::ToolFailed));
}

#[test]
fn trim_removes_white_space_at_both_ends_only() {
    assert_eq!(trim("  a b  "), "a b");
    assert_eq!(trim("a"), "a");
    assert_eq!(trim(""), "");
    assert_eq!(trim(" \t\r\n"), "");
    assert_eq!(trim("\u{2003}x\u{2028}y\u{85}"), "x\u{2028}y");
    assert_eq!(trim("/dev/vda\n"), "/dev/vda");
    assert_eq!(trim("\u{200b}x"), "\u{200b}x");
    assert_eq!(trim(trim("  a b  ")), trim("  a b  "));
}

#[test]
fn same_text_compares_characters() {
    assert!(same_text("", ""));
    assert!(same_text("BIOS boot", "BIOS boot"));
    assert!(!same_text("BIOS boot", "BIOS boot "));
    assert!(!same_text("gpt", "gpT"));
    assert!(!same_text("abc", "ab"));
    assert!(same_text("d\u{e9}j\u{e0}", "d\u{e9}j\u{e0}"));
}

#[test]
fn join_path_follows_the_rules_of_paths() {
    assert_eq!(join_path("/", "usr/sbin/grub-install"), "/usr/sbin/grub-install");
    assert_eq!(join_path("/mnt", "boot"), "/mnt/boot");
    assert_eq!(join_path("/mnt/", "boot"), "/mnt/boot");
    assert_eq!(join_path("", "boot"), "boot");
    assert_eq!(join_path("/mnt", "/boot"), "/boot");
    assert_eq!(join_path("/mnt", ""), "/mnt/");
    assert_eq!(join_path("a/b", "c/d"), "a/b/c/d");
    for (base, name) in [("/", "x"), ("/mnt", "boot"), ("/mnt/", "boot"), ("", "b"), ("/a", "/b"), ("/a", "")] {
        let expected = std::path::Path::new(base).join(name);
        assert_eq!(join_path(base, name), expected.to_str().unwrap());
    }
}
