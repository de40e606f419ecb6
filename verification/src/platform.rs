//! The platform strategy: the facts that differ between the supported
//! platforms, held as data so that the operations themselves are the same on
//! each.

use vstd::prelude::*;
use crate::paths::{join_path, joined};
use crate::plan::{push_text, CommandLine, CommandLineView};

verus! {

/// A platform whose bootloader this library manages.
#[derive(Debug, Clone, Copy, PartialEq, Eq, Structural)]
pub enum Platform {
    /// PC BIOS: the loader is written to the whole disk that holds `/boot`.
    X86_64,
    /// Open Firmware on POWER: the loader is written to the PReP partition.
    Powerpc64,
}

/// The BIOS bootloader component of a platform.
#[derive(Debug, Clone, Copy, PartialEq, Eq, Structural)]
pub struct Bios {
    pub platform: Platform,
}

impl Bios {
    /// The component for `platform`.
    pub fn new(platform: Platform) -> (r: Bios)
        ensures
            r.platform == platform,
    {
        Bios { platform }
    }
}

/// How the device that receives the bootloader is found.
#[derive(Debug, Clone, Copy, PartialEq, Eq, Structural)]
pub enum Strategy {
    /// Find the device mounted at `/boot`, then the disk it is a part of.
    MountChain,
    /// Resolve the well-known symlink of the reserved boot partition.
    FixedSymlink,
}

/// The directory under which the loader's modules and support files live.
pub open spec fn grub_lib() -> Seq<char> {
    "/usr/lib64/grub"@
}

/// The install tool, relative to a system root.
pub open spec fn grub_bin() -> Seq<char> {
    "usr/sbin/grub-install"@
}

/// The install tool on the running system.
pub open spec fn install_binary() -> Seq<char> {
    joined("/"@, grub_bin())
}

/// The install tool, relative to a system root.
pub const GRUB_BIN: &'static str = "usr/sbin/grub-install";

/// The path of the install tool on the running system.
pub fn install_binary_path() -> (r: String)
    ensures
        r@ == install_binary(),
{
    join_path("/", GRUB_BIN)
}

/// The path of the install tool under `sysroot`.
pub fn install_binary_under(sysroot: &str) -> (r: String)
    ensures
        r@ == joined(sysroot@, grub_bin()),
{
    join_path(sysroot, GRUB_BIN)
}

impl Platform {
    pub open spec fn strategy_spec(self) -> Strategy {
        match self {
            Platform::X86_64 => Strategy::MountChain,
            Platform::Powerpc64 => Strategy::FixedSymlink,
        }
    }

    /// How the platform finds its boot device.
    pub fn strategy(self) -> (r: Strategy)
        ensures
            r == self.strategy_spec(),
    {
        match self {
            Platform::X86_64 => Strategy::MountChain,
            Platform::Powerpc64 => Strategy::FixedSymlink,
        }
    }

    pub open spec fn target_spec(self) -> Seq<char> {
        match self {
            Platform::X86_64 => "i386-pc"@,
            Platform::Powerpc64 => "powerpc-ieee1275"@,
        }
    }

    /// The name of the loader target, which is also the name of the
    /// directory that holds its modules.
    pub fn target(self) -> (r: &'static str)
        ensures
            r@ == self.target_spec(),
    {
        match self {
            Platform::X86_64 => "i386-pc",
            Platform::Powerpc64 => "powerpc-ieee1275",
        }
    }

    pub open spec fn modules_dir_spec(self) -> Seq<char> {
        joined(grub_lib(), self.target_spec())
    }

    /// The directory that must exist for the loader modules to count as
    /// installed.
    pub fn modules_dir(self) -> (r: String)
        ensures
            r@ == self.modules_dir_spec(),
    {
        join_path("/usr/lib64/grub", self.target())
    }

    pub open spec fn support_name_spec(self) -> Seq<char> {
        match self {
            Platform::X86_64 => "x86_64-efi"@,
            Platform::Powerpc64 => "powerpc-ieee1275"@,
        }
    }

    pub open spec fn support_source_spec(self) -> Seq<char> {
        joined(grub_lib(), self.support_name_spec())
    }

    /// The directory of support files that is staged into the boot
    /// directory after the install tool has run.
    pub fn support_source(self) -> (r: String)
        ensures
            r@ == self.support_source_spec(),
    {
        match self {
            Platform::X86_64 => join_path("/usr/lib64/grub", "x86_64-efi"),
            Platform::Powerpc64 => join_path("/usr/lib64/grub", "powerpc-ieee1275"),
        }
    }

    pub open spec fn support_dest_spec(self, boot_dir: Seq<char>) -> Seq<char> {
        match self {
            Platform::X86_64 => joined(joined(boot_dir, "grub"@), "x86_64-efi"@),
            Platform::Powerpc64 => joined(boot_dir, "powerpc-ieee1275"@),
        }
    }

    /// Where the support files go under the boot directory.
    pub fn support_dest(self, boot_dir: &str) -> (r: String)
        ensures
            r@ == self.support_dest_spec(boot_dir@),
    {
        match self {
            Platform::X86_64 => {
                let grub = join_path(boot_dir, "grub");
                join_path(grub.as_str(), "x86_64-efi")
            },
            Platform::Powerpc64 => join_path(boot_dir, "powerpc-ieee1275"),
        }
    }

    /// The arguments of the install tool: the target, the boot directory,
    /// the options that the platform forces, and the device last.
    pub open spec fn install_args_spec(self, boot_dir: Seq<char>, device: Seq<char>) -> Seq<
        Seq<char>,
    > {
        match self {
            Platform::X86_64 => seq![
                "--target"@,
                "i386-pc"@,
                "--boot-directory"@,
                boot_dir,
                "--modules"@,
                "mdraid1x part_gpt"@,
                device,
            ],
            Platform::Powerpc64 => seq![
                "--target"@,
                "powerpc-ieee1275"@,
                "--boot-directory"@,
                boot_dir,
                "--no-nvram"@,
                device,
            ],
        }
    }

    /// The install command for a destination root and a device. The boot
    /// directory is `boot` under the destination root.
    pub open spec fn install_command_spec(
        self,
        dest_root: Seq<char>,
        device: Seq<char>,
    ) -> CommandLineView {
        CommandLineView {
            program: install_binary(),
            args: self.install_args_spec(joined(dest_root, "boot"@), device),
        }
    }

    /// Builds the install command. On the PC platform it forces the RAID and
    /// GPT modules into the loader, whatever the running system uses.
    pub fn install_command(self, dest_root: &str, device: &str) -> (r: CommandLine)
        ensures
            r.deep_view() == self.install_command_spec(dest_root@, device@),
    {
        let boot_dir = join_path(dest_root, "boot");
        let mut args: Vec<String> = Vec::new();
        push_text(&mut args, "--target");
        push_text(&mut args, self.target());
        push_text(&mut args, "--boot-directory");
        push_text(&mut args, boot_dir.as_str());
        match self {
            Platform::X86_64 => {
                push_text(&mut args, "--modules");
                push_text(&mut args, "mdraid1x part_gpt");
            },
            Platform::Powerpc64 => {
                push_text(&mut args, "--no-nvram");
            },
        }
        push_text(&mut args, device);
        assert(args.deep_view() =~= self.install_args_spec(boot_dir@, device@));
        CommandLine { program: install_binary_path(), args }
    }

    /// Whether adoption is skipped on this platform when the system was
    /// booted through EFI and has no BIOS boot partition.
    pub open spec fn checks_firmware_spec(self) -> bool {
        self == Platform::X86_64
    }

    pub fn checks_firmware(self) -> (r: bool)
        ensures
            r == self.checks_firmware_spec(),
    {
        match self {
            Platform::X86_64 => true,
            Platform::Powerpc64 => false,
        }
    }
}

} // verus!
