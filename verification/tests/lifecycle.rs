use std::collections::{BTreeMap, BTreeSet};

use bios_boot::component::{AdoptQueryState, AdoptState, InstallOpState, MetadataState, UpdateState};
use bios_boot::copier::{copy_dir_all, copy_dir_all_next, CopyState};
use bios_boot::installer::InstallState;
use bios_boot::model::{
    Adoptable, BootError, ContentMetadata, Fault, InstalledContent, ValidationResult,
};
use bios_boot::partition::PartitionState;
use bios_boot::plan::{Action, CommandLine, CommandOutput, DirEntry, EntryKind, Event, Step};
use bios_boot::platform::{Bios, Platform};

/// A system held in memory: a file tree, and the answers of the tools.
#[derive(Clone, Debug, PartialEq)]
struct World {
    dirs: BTreeSet<String>,
    files: BTreeMap<String, Vec<u8>>,
    others: BTreeSet<String>,
    efi: bool,
    adoptable: Option<Adoptable>,
    update: Option<ContentMetadata>,
    package: ContentMetadata,
    listing: String,
    install_fails: bool,
    stored: Option<(String, ContentMetadata)>,
    log: Vec<Action>,
}

fn meta(version: &str, timestamp: i64) -> ContentMetadata {
    ContentMetadata { timestamp, version: version.to_string() }
}

fn parent(path: &str) -> Option<String> {
    match path.rfind('/') {
        Some(0) if path.len() > 1 => Some("/".to_string()),
        Some(0) => None,
        Some(i) => Some(path[..i].to_string()),
        None => None,
    }
}

impl World {
    fn new() -> World {
        World {
            dirs: BTreeSet::new(),
            files: BTreeMap::new(),
            others: BTreeSet::new(),
            efi: false,
            adoptable: None,
            update: None,
            package: meta("grub2-tools-1:2.06-95", 1_700_000_000),
            listing: r#"{"blockdevices":[{"path":"/dev/vda","pttype":"gpt","parttypename":null}]}"#
                .to_string(),
            install_fails: false,
            stored: None,
            log: Vec::new(),
        }
    }

    /// A PC with the loader fully installed under `/usr`.
    fn pc() -> World {
        let mut w = World::new();
        w.mkdir("/usr/lib64/grub/i386-pc");
        w.write("/usr/lib64/grub/i386-pc/normal.mod", b"normal");
        w.write("/usr/sbin/grub-install", b"#!");
        w.mkdir("/usr/lib64/grub/x86_64-efi");
        w.write("/usr/lib64/grub/x86_64-efi/part_gpt.mod", b"gpt module");
        w.write("/usr/lib64/grub/x86_64-efi/fonts/unicode.pf2", b"font");
        w.update = Some(meta("grub2-tools-1:2.06-100", 1_710_000_000));
        w
    }

    fn mkdir(&mut self, path: &str) {
        let mut at = Some(path.to_string());
        while let Some(p) = at {
            at = parent(&p);
            self.dirs.insert(p);
        }
    }

    fn write(&mut self, path: &str, content: &[u8]) {
        if let Some(p) = parent(path) {
            self.mkdir(&p);
        }
        self.files.insert(path.to_string(), content.to_vec());
    }

    fn kind(&self, path: &str) -> Option<EntryKind> {
        if self.dirs.contains(path) {
            Some(EntryKind::Directory)
        } else if self.files.contains_key(path) {
            Some(EntryKind::File)
        } else if self.others.contains(path) {
            Some(EntryKind::Other)
        } else {
            None
        }
    }

    fn has(&self, path: &str) -> bool {
        self.kind(path).is_some()
    }

    fn list(&self, dir: &str) -> Vec<DirEntry> {
        let mut out = Vec::new();
        let mut push = |path: &String, kind: EntryKind| {
            if parent(path).as_deref() == Some(dir) {
                let name = path[path.rfind('/').unwrap() + 1..].to_string();
                out.push(DirEntry { name, kind });
            }
        };
        for d in &self.dirs {
            push(d, EntryKind::Directory);
        }
        for f in self.files.keys() {
            push(f, EntryKind::File);
        }
        for o in &self.others {
            push(o, EntryKind::Other);
        }
        out.sort_by(|a, b| a.name.cmp(&b.name));
        out
    }

    fn run(&mut self, command: &CommandLine, installs: bool) -> CommandOutput {
        let ok = |text: &str| CommandOutput {
            success: true,
            stdout: text.as_bytes().to_vec(),
            stderr: Vec::new(),
        };
        if installs {
            if self.install_fails {
                return CommandOutput {
                    success: false,
                    stdout: Vec::new(),
                    stderr: b"grub-install: error: disk not found.\n".to_vec(),
                };
            }
            let at = command.args.iter().position(|a| a == "--boot-directory").unwrap();
            let boot = command.args[at + 1].clone();
            let device = command.args.last().unwrap().clone();
            let core = format!("{}/grub/core.img", boot);
            self.write(&core, device.as_bytes());
            return ok("Installation finished. No error reported.\n");
        }
        match command.program.as_str() {
            "findmnt" => ok("/dev/vda3\n"),
            "realpath" => ok("/dev/sda1\n"),
            "lsblk" if command.args.iter().any(|a| a == "--json") => {
                let text = self.listing.clone();
                ok(&text)
            }
            "lsblk" => ok("/dev/vda\n"),
            other => panic!("unexpected tool {}", other),
        }
    }

    fn perform(&mut self, action: Action) -> Event {
        self.log.push(action.clone());
        match action {
            Action::Probe { path, .. } => Event::Probed(self.kind(&path)),
            Action::Query(command) => Event::Ran(self.run(&command, false)),
            Action::Install(command) => Event::Ran(self.run(&command, true)),
            Action::CreateDir { path } => {
                self.mkdir(&path);
                Event::Created
            }
            Action::ListDir { path } => Event::Listed(self.list(&path)),
            Action::CopyFile { source, dest } => {
                let content = self.files[&source].clone();
                self.files.insert(dest, content);
                Event::FileCopied
            }
            Action::Skip { .. } => Event::Skipped,
            Action::FirmwareMode => Event::FirmwareMode(self.efi),
            Action::AdoptState => Event::AdoptState(self.adoptable.clone()),
            Action::ReadUpdate => Event::Update(self.update.clone()),
            Action::PackageInfo { .. } => Event::Package(self.package.clone()),
            Action::WriteUpdate { sysroot, meta } => {
                self.stored = Some((sysroot, meta));
                Event::Written
            }
        }
    }

    fn tree(&self) -> (BTreeSet<String>, BTreeMap<String, Vec<u8>>) {
        (self.dirs.clone(), self.files.clone())
    }

    fn harmless(&self) -> bool {
        self.log.iter().all(|a| !a.is_destructive())
    }
}

fn probe(path: &str) -> Action {
    Action::Probe { path: path.to_string(), strict: false }
}

fn strict_probe(path: &str) -> Action {
    Action::Probe { path: path.to_string(), strict: true }
}

fn drive<S, T>(
    world: &mut World,
    first: Step<S, T>,
    next: impl Fn(S, Event) -> Step<S, T>,
) -> Result<T, BootError> {
    let mut step = first;
    loop {
        match step {
            Step::Next(state, action) => {
                let event = world.perform(action);
                step = next(state, event);
            }
            Step::Done(value) => return Ok(value),
            Step::Failed(error) => return Err(error),
        }
    }
}

fn copy_tree(world: &mut World, source: &str, dest: &str) -> Result<(), BootError> {
    drive(world, copy_dir_all(source, dest), |s: CopyState, e| copy_dir_all_next(s, e))
}

fn grub_install(world: &mut World, bios: Bios, dest_root: &str, device: &str) -> Result<(), BootError> {
    drive(world, bios.run_grub_install(), |s: InstallState, e| {
        bios.run_grub_install_next(dest_root, device, s, e)
    })
}

fn install(
    world: &mut World,
    bios: Bios,
    dest_root: &str,
    device: &str,
) -> Result<InstalledContent, BootError> {
    drive(world, bios.install(), |s: InstallOpState, e| bios.install_next(dest_root, device, s, e))
}

fn query_adopt(world: &mut World, bios: Bios) -> Result<Option<Adoptable>, BootError> {
    drive(world, bios.query_adopt(), |s: AdoptQueryState, e| bios.query_adopt_next(s, e))
}

fn adopt_update(
    world: &mut World,
    bios: Bios,
    update: &ContentMetadata,
) -> Result<InstalledContent, BootError> {
    drive(world, bios.adopt_update(update), |s: AdoptState, e| bios.adopt_update_next(update, s, e))
}

fn run_update(world: &mut World, bios: Bios) -> Result<InstalledContent, BootError> {
    drive(world, bios.run_update(), |s: UpdateState, e| bios.run_update_next(s, e))
}

fn args(list: &[&str]) -> Vec<String> {
    list.iter().map(|s| s.to_string()).collect()
}

// Copying a tree

#[test]
fn test_copy_dir_all() {
    let mut world = World::new();
    world.mkdir("/tmp/src");
    world.mkdir("/tmp/dst");
    world.write("/tmp/src/subdir/testfile.txt", b"Hello, world!\n");

    copy_tree(&mut world, "/tmp/src", "/tmp/dst/copied_subdir").unwrap();

    let copied = "/tmp/dst/copied_subdir/subdir/testfile.txt";
    assert!(world.has(copied));
    let content = String::from_utf8(world.files[copied].clone()).unwrap();
    assert_eq!(content.trim(), "Hello, world!");
    assert_eq!(world.files[copied], world.files["/tmp/src/subdir/testfile.txt"]);
}

#[test]
fn test_copy_dir_all_nonexistent_src() {
    let mut world = World::new();
    let result = copy_tree(&mut world, "/nonexistent/source", "/nonexistent/dest");
    assert!(result.is_err());
}

#[test]
fn missing_source_creates_nothing() {
    let mut world = World::new();
    let before = world.tree();
    let result = copy_tree(&mut world, "/nonexistent/source", "/nonexistent/dest");
    assert_eq!(result, Err(BootError::SourceMissing { path: "/nonexistent/source".to_string() }));
    assert_eq!(world.tree(), before);
    assert!(!world.has("/nonexistent/dest"));
    assert_eq!(world.log, vec![probe("/nonexistent/source")]);
}

#[test]
fn source_that_is_a_file_is_missing_as_a_directory() {
    let mut world = World::new();
    world.write("/etc/hostname", b"host\n");
    let before = world.tree();
    let result = copy_tree(&mut world, "/etc/hostname", "/tmp/out");
    assert_eq!(result, Err(BootError::SourceMissing { path: "/etc/hostname".to_string() }));
    assert_eq!(world.tree(), before);
    assert!(!world.has("/tmp/out"));
    assert_eq!(world.log, vec![probe("/etc/hostname")]);
}

#[test]
fn source_that_is_neither_file_nor_directory_is_missing() {
    let mut world = World::new();
    world.mkdir("/dev");
    world.others.insert("/dev/null".to_string());
    let before = world.tree();
    let result = copy_tree(&mut world, "/dev/null", "/tmp/out");
    assert_eq!(result, Err(BootError::SourceMissing { path: "/dev/null".to_string() }));
    assert_eq!(world.tree(), before);
    assert!(world.harmless());
}

#[test]
fn only_a_directory_lets_the_copy_create_its_destination() {
    for found in [None, Some(EntryKind::File), Some(EntryKind::Other)] {
        let state = match copy_dir_all("/s", "/t") {
            Step::Next(state, _) => state,
            other => panic!("unexpected step {:?}", other),
        };
        assert_eq!(
            copy_dir_all_next(state, Event::Probed(found)),
            Step::Failed(BootError::SourceMissing { path: "/s".to_string() })
        );
    }
    let state = match copy_dir_all("/s", "/t") {
        Step::Next(state, _) => state,
        other => panic!("unexpected step {:?}", other),
    };
    match copy_dir_all_next(state, Event::Probed(Some(EntryKind::Directory))) {
        Step::Next(_, action) => assert_eq!(action, Action::CreateDir { path: "/t".to_string() }),
        other => panic!("unexpected step {:?}", other),
    }
}

#[test]
fn directory_that_turned_into_a_file_fails_the_copy() {
    let first = copy_dir_all("/s", "/t");
    let mut step = first;
    let answers = vec![
        Event::Probed(Some(EntryKind::Directory)),
        Event::Created,
        Event::Listed(vec![DirEntry { name: "a".to_string(), kind: EntryKind::Directory }]),
        Event::Probed(Some(EntryKind::File)),
    ];
    for answer in answers {
        step = match step {
            Step::Next(state, _) => copy_dir_all_next(state, answer),
            other => panic!("unexpected step {:?}", other),
        };
    }
    assert_eq!(step, Step::Failed(BootError::SourceMissing { path: "/s/a".to_string() }));
}

#[test]
fn support_files_that_are_a_file_are_missing() {
    let mut world = World::pc();
    world.dirs.remove("/usr/lib64/grub/x86_64-efi");
    world.dirs.remove("/usr/lib64/grub/x86_64-efi/fonts");
    world.files.remove("/usr/lib64/grub/x86_64-efi/part_gpt.mod");
    world.files.remove("/usr/lib64/grub/x86_64-efi/fonts/unicode.pf2");
    world.write("/usr/lib64/grub/x86_64-efi", b"not a directory");
    let bios = Bios::new(Platform::X86_64);
    let result = grub_install(&mut world, bios, "/", "/dev/vda");
    assert_eq!(
        result,
        Err(BootError::AssetsMissing { path: "/usr/lib64/grub/x86_64-efi".to_string() })
    );
    assert!(!world.has("/boot/grub/x86_64-efi"));
}

#[test]
fn modules_that_are_a_file_are_missing() {
    let mut world = World::pc();
    world.dirs.remove("/usr/lib64/grub/i386-pc");
    world.files.remove("/usr/lib64/grub/i386-pc/normal.mod");
    world.write("/usr/lib64/grub/i386-pc", b"not a directory");
    let before = world.tree();
    let bios = Bios::new(Platform::X86_64);
    let result = grub_install(&mut world, bios, "/", "/dev/vda");
    assert_eq!(
        result,
        Err(BootError::ModulesMissing { path: "/usr/lib64/grub/i386-pc".to_string() })
    );
    assert_eq!(world.log, vec![strict_probe("/usr/lib64/grub/i386-pc")]);
    assert_eq!(world.tree(), before);
}

#[test]
fn install_tool_that_is_a_directory_is_missing() {
    let mut world = World::pc();
    world.files.remove("/usr/sbin/grub-install");
    world.mkdir("/usr/sbin/grub-install");
    let bios = Bios::new(Platform::X86_64);
    let result = grub_install(&mut world, bios, "/", "/dev/vda");
    assert_eq!(
        result,
        Err(BootError::BinaryMissing { path: "/usr/sbin/grub-install".to_string() })
    );
    assert!(world.harmless());

    let mut world = World::new();
    world.mkdir("/sysroot/usr/sbin/grub-install");
    let result = drive(&mut world, bios.generate_update_metadata("/sysroot"), |s: MetadataState, e| {
        bios.generate_update_metadata_next("/sysroot", s, e)
    });
    assert_eq!(
        result,
        Err(BootError::BinaryMissing { path: "/sysroot/usr/sbin/grub-install".to_string() })
    );
    assert_eq!(world.stored, None);
}

#[test]
fn only_the_probe_for_the_modules_is_strict() {
    let mut world = World::pc();
    let bios = Bios::new(Platform::X86_64);
    grub_install(&mut world, bios, "/", "/dev/vda").unwrap();
    let strict: Vec<&Action> = world
        .log
        .iter()
        .filter(|a| matches!(a, Action::Probe { strict: true, .. }))
        .collect();
    assert_eq!(strict, vec![&strict_probe("/usr/lib64/grub/i386-pc")]);
}

#[test]
fn destructive_actions_are_told_apart() {
    let command = CommandLine { program: "lsblk".to_string(), args: vec![] };
    assert!(Action::Install(command.clone()).is_destructive());
    assert!(Action::CreateDir { path: "/t".to_string() }.is_destructive());
    assert!(Action::CopyFile { source: "/a".to_string(), dest: "/b".to_string() }.is_destructive());
    assert!(Action::WriteUpdate { sysroot: "/".to_string(), meta: meta("v", 1) }.is_destructive());
    assert!(!Action::Query(command).is_destructive());
    assert!(!probe("/a").is_destructive());
    assert!(!strict_probe("/a").is_destructive());
    assert!(!Action::ListDir { path: "/a".to_string() }.is_destructive());
    assert!(!Action::Skip { path: "/a".to_string() }.is_destructive());
    assert!(!Action::FirmwareMode.is_destructive());
    assert!(!Action::AdoptState.is_destructive());
    assert!(!Action::ReadUpdate.is_destructive());
    assert!(!Action::PackageInfo { sysroot: "/".to_string(), path: "/a".to_string() }
        .is_destructive());
}

#[test]
fn copy_takes_entries_in_order_and_directories_in_full() {
    let mut world = World::new();
    world.write("/s/a/x", b"1");
    world.write("/s/a/y", b"2");
    world.write("/s/b", b"3");
    world.others.insert("/s/c".to_string());
    world.mkdir("/s/d");
    copy_tree(&mut world, "/s", "/t").unwrap();
    let p = |s: &str| s.to_string();
    assert_eq!(
        world.log,
        vec![
            probe("/s"),
            Action::CreateDir { path: p("/t") },
            Action::ListDir { path: p("/s") },
            probe("/s/a"),
            Action::CreateDir { path: p("/t/a") },
            Action::ListDir { path: p("/s/a") },
            Action::CopyFile { source: p("/s/a/x"), dest: p("/t/a/x") },
            Action::CopyFile { source: p("/s/a/y"), dest: p("/t/a/y") },
            Action::CopyFile { source: p("/s/b"), dest: p("/t/b") },
            Action::Skip { path: p("/s/c") },
            probe("/s/d"),
            Action::CreateDir { path: p("/t/d") },
            Action::ListDir { path: p("/s/d") },
        ]
    );
    assert_eq!(world.files["/t/a/y"], b"2");
    assert!(world.dirs.contains("/t/d"));
    assert!(!world.has("/t/c"));
}

#[test]
fn copy_of_an_empty_directory_creates_it() {
    let mut world = World::new();
    world.mkdir("/s");
    copy_tree(&mut world, "/s", "/deep/down/t").unwrap();
    assert!(world.dirs.contains("/deep/down/t"));
    assert!(world.dirs.contains("/deep"));
}

#[test]
fn copy_twice_changes_nothing_more() {
    let mut world = World::new();
    world.write("/s/a/x", b"1");
    world.write("/s/b", b"3");
    copy_tree(&mut world, "/s", "/t").unwrap();
    let once = world.tree();
    copy_tree(&mut world, "/s", "/t").unwrap();
    assert_eq!(world.tree(), once);
}

#[test]
fn copy_rejects_an_event_out_of_turn() {
    let first = copy_dir_all("/s", "/t");
    let state = match first {
        Step::Next(state, Action::Probe { path, strict }) => {
            assert_eq!(path, "/s");
            assert!(!strict);
            state
        }
        other => panic!("unexpected step {:?}", other),
    };
    assert_eq!(copy_dir_all_next(state.clone(), Event::Created), Step::Failed(BootError::OutOfTurn));
    assert_eq!(copy_dir_all_next(state, Event::FileCopied), Step::Failed(BootError::OutOfTurn));
}

// Installing the bootloader

#[test]
fn install_runs_the_tool_and_stages_the_support_files() {
    let mut world = World::pc();
    let bios = Bios::new(Platform::X86_64);
    grub_install(&mut world, bios, "/mnt", "/dev/vda").unwrap();
    let command = world
        .log
        .iter()
        .find_map(|a| match a {
            Action::Install(c) => Some(c.clone()),
            _ => None,
        })
        .unwrap();
    assert_eq!(command.program, "/usr/sbin/grub-install");
    assert_eq!(
        command.args,
        args(&[
            "--target",
            "i386-pc",
            "--boot-directory",
            "/mnt/boot",
            "--modules",
            "mdraid1x part_gpt",
            "/dev/vda"
        ])
    );
    assert_eq!(world.files["/mnt/boot/grub/core.img"], b"/dev/vda");
    assert_eq!(world.files["/mnt/boot/grub/x86_64-efi/part_gpt.mod"], b"gpt module");
    assert_eq!(world.files["/mnt/boot/grub/x86_64-efi/fonts/unicode.pf2"], b"font");
    assert_eq!(
        world.log[..4],
        [
            strict_probe("/usr/lib64/grub/i386-pc"),
            probe("/usr/sbin/grub-install"),
            Action::Install(command.clone()),
            probe("/usr/lib64/grub/x86_64-efi"),
        ]
    );
}

#[test]
fn install_on_power_uses_its_own_target_and_paths() {
    let mut world = World::new();
    world.write("/usr/lib64/grub/powerpc-ieee1275/normal.mod", b"normal");
    world.write("/usr/sbin/grub-install", b"#!");
    let bios = Bios::new(Platform::Powerpc64);
    grub_install(&mut world, bios, "/", "/dev/sda1").unwrap();
    let command = world
        .log
        .iter()
        .find_map(|a| match a {
            Action::Install(c) => Some(c.clone()),
            _ => None,
        })
        .unwrap();
    assert_eq!(
        command.args,
        args(&[
            "--target",
            "powerpc-ieee1275",
            "--boot-directory",
            "/boot",
            "--no-nvram",
            "/dev/sda1"
        ])
    );
    assert_eq!(world.files["/boot/powerpc-ieee1275/normal.mod"], b"normal");
}

#[test]
fn install_twice_gives_the_same_boot_directory() {
    let mut world = World::pc();
    let bios = Bios::new(Platform::X86_64);
    grub_install(&mut world, bios, "/", "/dev/vda").unwrap();
    let once = world.tree();
    let actions = world.log.clone();
    world.log.clear();
    grub_install(&mut world, bios, "/", "/dev/vda").unwrap();
    assert_eq!(world.tree(), once);
    assert_eq!(world.log, actions);
}

#[test]
fn missing_modules_stop_the_install_before_the_tool_runs() {
    let mut world = World::pc();
    world.dirs.remove("/usr/lib64/grub/i386-pc");
    world.files.remove("/usr/lib64/grub/i386-pc/normal.mod");
    let before = world.tree();
    let bios = Bios::new(Platform::X86_64);
    let result = grub_install(&mut world, bios, "/", "/dev/vda");
    assert_eq!(
        result,
        Err(BootError::ModulesMissing { path: "/usr/lib64/grub/i386-pc".to_string() })
    );
    assert_eq!(world.log, vec![strict_probe("/usr/lib64/grub/i386-pc")]);
    assert_eq!(world.tree(), before);
}

#[test]
fn missing_tool_stops_the_install() {
    let mut world = World::pc();
    world.files.remove("/usr/sbin/grub-install");
    let bios = Bios::new(Platform::X86_64);
    let result = grub_install(&mut world, bios, "/", "/dev/vda");
    assert_eq!(
        result,
        Err(BootError::BinaryMissing { path: "/usr/sbin/grub-install".to_string() })
    );
    assert!(world.harmless());
}

#[test]
fn failed_tool_reports_what_it_wrote() {
    let mut world = World::pc();
    world.install_fails = true;
    let bios = Bios::new(Platform::X86_64);
    let result = grub_install(&mut world, bios, "/", "/dev/vda");
    assert_eq!(
        result,
        Err(BootError::InstallCommandFailed {
            stderr: b"grub-install: error: disk not found.\n".to_vec()
        })
    );
    assert!(!world.has("/boot/grub/x86_64-efi"));
}

#[test]
fn missing_support_files_fail_after_the_tool_has_run() {
    let mut world = World::pc();
    world.dirs.remove("/usr/lib64/grub/x86_64-efi");
    world.dirs.remove("/usr/lib64/grub/x86_64-efi/fonts");
    world.files.remove("/usr/lib64/grub/x86_64-efi/part_gpt.mod");
    world.files.remove("/usr/lib64/grub/x86_64-efi/fonts/unicode.pf2");
    let bios = Bios::new(Platform::X86_64);
    let result = grub_install(&mut world, bios, "/", "/dev/vda");
    assert_eq!(
        result,
        Err(BootError::AssetsMissing { path: "/usr/lib64/grub/x86_64-efi".to_string() })
    );
    assert!(world.has("/boot/grub/core.img"));
}

#[test]
fn check_grub_modules_reads_the_probe() {
    let bios = Bios::new(Platform::X86_64);
    assert_eq!(bios.check_grub_modules(&Event::Probed(Some(EntryKind::Directory))), Ok(true));
    assert_eq!(bios.check_grub_modules(&Event::Probed(Some(EntryKind::File))), Ok(false));
    assert_eq!(bios.check_grub_modules(&Event::Probed(Some(EntryKind::Other))), Ok(false));
    assert_eq!(bios.check_grub_modules(&Event::Probed(None)), Ok(false));
    assert_eq!(bios.check_grub_modules(&Event::Created), Err(BootError::OutOfTurn));
    assert_eq!(Platform::X86_64.modules_dir(), "/usr/lib64/grub/i386-pc");
    assert_eq!(Platform::Powerpc64.modules_dir(), "/usr/lib64/grub/powerpc-ieee1275");
}

#[test]
fn install_rejects_an_event_out_of_turn() {
    let bios = Bios::new(Platform::X86_64);
    for state in [InstallState::Modules, InstallState::Binary, InstallState::Assets] {
        assert_eq!(
            bios.run_grub_install_next("/", "/dev/vda", state, Event::Written),
            Step::Failed(BootError::OutOfTurn)
        );
    }
    assert_eq!(
        bios.run_grub_install_next(
            "/",
            "/dev/vda",
            InstallState::Tool,
            Event::Probed(Some(EntryKind::File))
        ),
        Step::Failed(BootError::OutOfTurn)
    );
}

// The operations of the component

#[test]
fn component_has_its_name() {
    assert_eq!(Bios::new(Platform::X86_64).name(), "BIOS");
}

#[test]
fn install_records_the_update_metadata() {
    let mut world = World::pc();
    let bios = Bios::new(Platform::X86_64);
    let record = install(&mut world, bios, "/mnt", "/dev/vda").unwrap();
    assert_eq!(
        record,
        InstalledContent {
            meta: meta("grub2-tools-1:2.06-100", 1_710_000_000),
            filetree: None,
            adopted_from: None,
        }
    );
    assert!(world.has("/mnt/boot/grub/core.img"));
}

#[test]
fn install_without_metadata_fails_and_touches_nothing() {
    let mut world = World::pc();
    world.update = None;
    let before = world.tree();
    let bios = Bios::new(Platform::X86_64);
    assert_eq!(install(&mut world, bios, "/mnt", "/dev/vda"), Err(BootError::MetadataNotFound));
    assert_eq!(world.log, vec![Action::ReadUpdate]);
    assert_eq!(world.tree(), before);
}

#[test]
fn install_record_is_the_same_for_any_device() {
    let bios = Bios::new(Platform::X86_64);
    let mut one = World::pc();
    let mut two = World::pc();
    let a = install(&mut one, bios, "/mnt", "/dev/vda").unwrap();
    let b = install(&mut two, bios, "/srv/root", "/dev/nvme0n1").unwrap();
    assert_eq!(a, b);
}

#[test]
fn metadata_is_generated_from_the_package_database() {
    let mut world = World::new();
    world.write("/sysroot/usr/sbin/grub-install", b"#!");
    let bios = Bios::new(Platform::X86_64);
    let result = drive(&mut world, bios.generate_update_metadata("/sysroot"), |s: MetadataState, e| {
        bios.generate_update_metadata_next("/sysroot", s, e)
    });
    assert_eq!(result, Ok(meta("grub2-tools-1:2.06-95", 1_700_000_000)));
    assert_eq!(
        world.stored,
        Some(("/sysroot".to_string(), meta("grub2-tools-1:2.06-95", 1_700_000_000)))
    );
    assert_eq!(
        world.log,
        vec![
            probe("/sysroot/usr/sbin/grub-install"),
            Action::PackageInfo {
                sysroot: "/sysroot".to_string(),
                path: "/sysroot/usr/sbin/grub-install".to_string()
            },
            Action::WriteUpdate {
                sysroot: "/sysroot".to_string(),
                meta: meta("grub2-tools-1:2.06-95", 1_700_000_000)
            },
        ]
    );
}

#[test]
fn metadata_needs_the_install_tool() {
    let mut world = World::new();
    let bios = Bios::new(Platform::X86_64);
    let result = drive(&mut world, bios.generate_update_metadata("/sysroot"), |s: MetadataState, e| {
        bios.generate_update_metadata_next("/sysroot", s, e)
    });
    assert_eq!(
        result,
        Err(BootError::BinaryMissing { path: "/sysroot/usr/sbin/grub-install".to_string() })
    );
    assert_eq!(world.stored, None);
}

#[test]
fn query_update_hands_on_what_was_read() {
    let bios = Bios::new(Platform::X86_64);
    let mut world = World::pc();
    let found = drive(&mut world, bios.query_update(), |s, e| bios.query_update_next(s, e));
    assert_eq!(found, Ok(Some(meta("grub2-tools-1:2.06-100", 1_710_000_000))));
    world.update = None;
    let found = drive(&mut world, bios.query_update(), |s, e| bios.query_update_next(s, e));
    assert_eq!(found, Ok(None));
}

#[test]
fn adoption_is_skipped_on_efi_without_bios_boot_partition() {
    let mut world = World::pc();
    world.efi = true;
    world.adoptable = Some(Adoptable { version: "grub2-1:2.04".to_string(), confident: true });
    let before = world.tree();
    let bios = Bios::new(Platform::X86_64);
    assert_eq!(query_adopt(&mut world, bios), Ok(None));
    assert!(world.harmless());
    assert!(!world.log.contains(&Action::AdoptState));
    assert_eq!(world.tree(), before);
    let listing = world.log.last().unwrap();
    assert_eq!(
        *listing,
        Action::Query(CommandLine {
            program: "lsblk".to_string(),
            args: args(&["--json", "--output", "PATH,PTTYPE,PARTTYPENAME", "/dev/vda"]),
        })
    );
}

#[test]
fn adoption_goes_on_where_the_partition_exists() {
    let mut world = World::pc();
    world.efi = true;
    world.listing = r#"{"blockdevices":[
        {"path":"/dev/vda","pttype":"gpt","parttypename":null},
        {"path":"/dev/vda1","pttype":"gpt","parttypename":"BIOS boot"}]}"#
        .to_string();
    let found = Adoptable { version: "grub2-1:2.04".to_string(), confident: true };
    world.adoptable = Some(found.clone());
    let bios = Bios::new(Platform::X86_64);
    assert_eq!(query_adopt(&mut world, bios), Ok(Some(found)));
    assert!(world.harmless());
}

#[test]
fn adoption_on_bios_boot_asks_for_no_listing() {
    let mut world = World::pc();
    world.efi = false;
    let found = Adoptable { version: "grub2-1:2.04".to_string(), confident: false };
    world.adoptable = Some(found.clone());
    let bios = Bios::new(Platform::X86_64);
    assert_eq!(query_adopt(&mut world, bios), Ok(Some(found)));
    assert_eq!(world.log, vec![Action::FirmwareMode, Action::AdoptState]);
}

#[test]
fn power_does_not_ask_for_the_firmware_mode() {
    let mut world = World::new();
    world.efi = true;
    let bios = Bios::new(Platform::Powerpc64);
    assert_eq!(query_adopt(&mut world, bios), Ok(None));
    assert_eq!(world.log, vec![Action::AdoptState]);
}

#[test]
fn malformed_listing_fails_the_query() {
    let mut world = World::pc();
    world.efi = true;
    world.listing = "not json".to_string();
    let bios = Bios::new(Platform::X86_64);
    assert_eq!(query_adopt(&mut world, bios), Err(BootError::Query(Fault::Malformed)));
}

#[test]
fn bios_boot_partition_is_searched_on_the_boot_device() {
    let mut world = World::pc();
    world.listing = r#"{"blockdevices":[
        {"path":"/dev/vda1","pttype":"gpt","parttypename":"BIOS boot"}]}"#
        .to_string();
    let bios = Bios::new(Platform::X86_64);
    let found = drive(&mut world, bios.get_bios_boot_partition(), |s: PartitionState, e| {
        bios.get_bios_boot_partition_next(s, e)
    });
    assert_eq!(found, Ok(Some("/dev/vda1".to_string())));
    assert_eq!(world.log.len(), 3);
}

#[test]
fn adopt_update_marks_the_record() {
    let mut world = World::pc();
    world.adoptable = Some(Adoptable { version: "grub2-1:2.04".to_string(), confident: true });
    let bios = Bios::new(Platform::X86_64);
    let update = meta("grub2-tools-1:2.06-100", 1_710_000_000);
    let record = adopt_update(&mut world, bios, &update).unwrap();
    assert_eq!(
        record,
        InstalledContent {
            meta: update.clone(),
            filetree: None,
            adopted_from: Some("grub2-1:2.04".to_string()),
        }
    );
    assert_eq!(world.files["/boot/grub/core.img"], b"/dev/vda");
    assert!(world.has("/boot/grub/x86_64-efi/part_gpt.mod"));
}

#[test]
fn adopt_update_fails_where_nothing_is_adoptable() {
    let mut world = World::pc();
    world.adoptable = None;
    let before = world.tree();
    let bios = Bios::new(Platform::X86_64);
    let update = meta("grub2-tools-1:2.06-100", 1_710_000_000);
    assert_eq!(adopt_update(&mut world, bios, &update), Err(BootError::AdoptionNotFound));
    assert!(world.harmless());
    assert_eq!(world.tree(), before);

    let mut world = World::pc();
    world.efi = true;
    world.adoptable = Some(Adoptable { version: "grub2-1:2.04".to_string(), confident: true });
    assert_eq!(adopt_update(&mut world, bios, &update), Err(BootError::AdoptionNotFound));
    assert!(world.harmless());
}

#[test]
fn run_update_installs_to_the_resolved_device() {
    let mut world = World::pc();
    let bios = Bios::new(Platform::X86_64);
    let record = run_update(&mut world, bios).unwrap();
    assert_eq!(
        record,
        InstalledContent {
            meta: meta("grub2-tools-1:2.06-100", 1_710_000_000),
            filetree: None,
            adopted_from: None,
        }
    );
    assert_eq!(world.files["/boot/grub/core.img"], b"/dev/vda");
    let installs = world.log.iter().filter(|a| matches!(a, Action::Install(_))).count();
    assert_eq!(installs, 1);
}

#[test]
fn run_update_on_power_installs_to_the_prep_partition() {
    let mut world = World::new();
    world.write("/usr/lib64/grub/powerpc-ieee1275/normal.mod", b"normal");
    world.write("/usr/sbin/grub-install", b"#!");
    world.update = Some(meta("grub2-ppc64le-1:2.06-100", 1_710_000_000));
    let bios = Bios::new(Platform::Powerpc64);
    let record = run_update(&mut world, bios).unwrap();
    assert_eq!(record.meta.version, "grub2-ppc64le-1:2.06-100");
    assert_eq!(record.adopted_from, None);
    assert_eq!(world.files["/boot/grub/core.img"], b"/dev/sda1");
}

#[test]
fn validation_is_skipped() {
    let bios = Bios::new(Platform::X86_64);
    let record = InstalledContent { meta: meta("v", 0), filetree: None, adopted_from: None };
    assert_eq!(bios.validate(&record), ValidationResult::Skip);
}

#[test]
fn component_has_no_efi_vendor() {
    assert_eq!(Bios::new(Platform::X86_64).get_efi_vendor(), None);
    assert_eq!(Bios::new(Platform::Powerpc64).get_efi_vendor(), None);
}

#[test]
fn metadata_copy_is_equal() {
    let m = meta("grub2-tools-1:2.06-100", -5);
    assert_eq!(m.duplicate(), m);
}
