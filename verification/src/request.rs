//! What the executor is asked to do for each operation: the kind of
//! action, its arguments, what is fed to it on its input stream, and
//! whether it runs inside the target.

use vstd::prelude::*;
use vstd::string::*;
use crate::model::{Edition, Filesystem, Firmware, GpuVendor, MicroarchLevel};
use crate::plan::{Asset, AssetDir, Operation, VirtualFs};
use crate::wizard::{InstallerState, StateView};

verus! {

/// The kinds of action the executor knows.
#[derive(Clone, Copy, Debug, PartialEq, Eq, Structural)]
pub enum Action {
    /// Run the program `args[0]` with the rest as its arguments and
    /// capture what it prints.
    Run,
    /// Run the program with the terminal handed over to it.
    Interactive,
    /// Hand back the contents of the file `args[0]`, or nothing where
    /// there is no such file; the absence of the file is no failure.
    ReadIfPresent,
    /// Write the input stream to the file `args[0]`.
    WriteFile,
    /// Create the directory `args[0]` and its parents.
    CreateDir,
    /// Remove the tree at `args[0]`.
    RemoveTree,
    /// Copy the tree at `args[0]` into `args[1]`.
    CopyTree,
    /// Fetch the address `args[0]` into the file `args[1]`.
    Download,
    /// Clone the repository at `args[0]` into `args[1]`.
    CloneRepository,
}

/// One request to the executor. Its input stream may hold a password, so
/// it has no printable form.
#[derive(Clone)]
pub struct Request {
    pub operation: Operation,
    pub action: Action,
    pub args: Vec<String>,
    /// What the action reads from its input stream. Secrets travel here
    /// and nowhere else.
    pub stdin: Option<String>,
    /// The root the program is confined to, for actions that run inside
    /// the target.
    pub target_root: Option<String>,
}

/// Mathematical content of a [`Request`].
pub ghost struct RequestView {
    pub operation: Operation,
    pub action: Action,
    pub args: Seq<Seq<char>>,
    pub stdin: Option<Seq<char>>,
    pub target_root: Option<Seq<char>>,
}

impl View for Request {
    type V = RequestView;

    open spec fn view(&self) -> RequestView {
        RequestView {
            operation: self.operation,
            action: self.action,
            args: self.args.deep_view(),
            stdin: crate::wizard::text_of(self.stdin),
            target_root: crate::wizard::text_of(self.target_root),
        }
    }
}

/// What the executor reports back.
#[derive(Clone, Debug)]
pub struct Outcome {
    pub success: bool,
    pub output: String,
}

/// An owned copy of `s`.
pub fn word(s: &str) -> (r: String)
    ensures
        r@ == s@,
{
    String::from_str(s)
}

/// `a` followed by `b`.
pub fn glue(a: &str, b: &str) -> (r: String)
    ensures
        r@ == a@ + b@,
{
    let mut r = String::from_str(a);
    r.append(b);
    r
}

/// `a` followed by `b` and `c`.
pub fn glue3(a: &str, b: &str, c: &str) -> (r: String)
    ensures
        r@ == a@ + b@ + c@,
{
    let mut r = String::from_str(a);
    r.append(b);
    r.append(c);
    r
}

/// Owned copies of the strings of `list`, in order.
pub fn words(list: Vec<&str>) -> (r: Vec<String>)
    ensures
        r.deep_view() == list.deep_view(),
{
    let mut r: Vec<String> = Vec::new();
    let mut i: usize = 0;
    while i < list.len()
        invariant
            i <= list.len(),
            r.len() == i,
            forall|k: int| 0 <= k < i ==> r@[k]@ == list@[k]@,
        decreases list.len() - i,
    {
        r.push(String::from_str(list[i]));
        i = i + 1;
    }
    assert(r.deep_view() =~= list.deep_view());
    r
}

impl VirtualFs {
    /// Where the filesystem lives on the host.
    pub open spec fn spec_host_path(self) -> Seq<char> {
        match self {
            VirtualFs::Dev => "/dev"@,
            VirtualFs::DevPts => "/dev/pts"@,
            VirtualFs::Proc => "/proc"@,
            VirtualFs::Sys => "/sys"@,
            VirtualFs::Run => "/run"@,
        }
    }

    pub fn host_path(self) -> (s: &'static str)
        ensures
            s@ == self.spec_host_path(),
    {
        match self {
            VirtualFs::Dev => "/dev",
            VirtualFs::DevPts => "/dev/pts",
            VirtualFs::Proc => "/proc",
            VirtualFs::Sys => "/sys",
            VirtualFs::Run => "/run",
        }
    }

    /// Where the filesystem is bound under the target's root.
    pub open spec fn spec_bind_path(self) -> Seq<char> {
        match self {
            VirtualFs::Dev => "/mnt/dev"@,
            VirtualFs::DevPts => "/mnt/dev/pts"@,
            VirtualFs::Proc => "/mnt/proc"@,
            VirtualFs::Sys => "/mnt/sys"@,
            VirtualFs::Run => "/mnt/run"@,
        }
    }

    pub fn bind_path(self) -> (s: &'static str)
        ensures
            s@ == self.spec_bind_path(),
    {
        match self {
            VirtualFs::Dev => "/mnt/dev",
            VirtualFs::DevPts => "/mnt/dev/pts",
            VirtualFs::Proc => "/mnt/proc",
            VirtualFs::Sys => "/mnt/sys",
            VirtualFs::Run => "/mnt/run",
        }
    }
}

impl Asset {
    /// Where the asset is fetched from.
    pub open spec fn spec_url(self) -> Seq<char> {
        match self {
            Asset::BlueWm => "https://github.com/HackerOS-Linux-System/Blue-Environment/releases/download/v0.1/wm"@,
            Asset::BlueShell => "https://github.com/HackerOS-Linux-System/Blue-Environment/releases/download/v0.1/shell"@,
            Asset::BlueLauncher => "https://github.com/HackerOS-Linux-System/Blue-Environment/releases/download/v0.1/launcher"@,
            Asset::BlueDesktop => "https://github.com/HackerOS-Linux-System/Blue-Environment/releases/download/v0.1/Desktop"@,
            Asset::BlueDecorations => "https://github.com/HackerOS-Linux-System/Blue-Environment/releases/download/v0.1/decorations"@,
            Asset::BlueCore => "https://github.com/HackerOS-Linux-System/Blue-Environment/releases/download/v0.1/core"@,
            Asset::BlueSession => "https://github.com/HackerOS-Linux-System/Blue-Environment/releases/download/v0.1/Blue-Environment"@,
            Asset::BlueSessionEntry => "https://raw.githubusercontent.com/HackerOS-Linux-System/Blue-Environment/main/Blue-Environment.desktop"@,
            Asset::Hammer => "https://github.com/HackerOS-Linux-System/hammer/releases/download/v0.5/hammer"@,
            Asset::HammerUpdater => "https://github.com/HackerOS-Linux-System/hammer/releases/download/v0.5/hammer-updater"@,
            Asset::HammerTui => "https://github.com/HackerOS-Linux-System/hammer/releases/download/v0.5/hammer-tui"@,
            Asset::HammerCore => "https://github.com/HackerOS-Linux-System/hammer/releases/download/v0.5/hammer-core"@,
            Asset::HammerBuilder => "https://github.com/HackerOS-Linux-System/hammer/releases/download/v0.5/hammer-builder"@,
        }
    }

    pub fn url(self) -> (s: &'static str)
        ensures
            s@ == self.spec_url(),
    {
        match self {
            Asset::BlueWm => "https://github.com/HackerOS-Linux-System/Blue-Environment/releases/download/v0.1/wm",
            Asset::BlueShell => "https://github.com/HackerOS-Linux-System/Blue-Environment/releases/download/v0.1/shell",
            Asset::BlueLauncher => "https://github.com/HackerOS-Linux-System/Blue-Environment/releases/download/v0.1/launcher",
            Asset::BlueDesktop => "https://github.com/HackerOS-Linux-System/Blue-Environment/releases/download/v0.1/Desktop",
            Asset::BlueDecorations => "https://github.com/HackerOS-Linux-System/Blue-Environment/releases/download/v0.1/decorations",
            Asset::BlueCore => "https://github.com/HackerOS-Linux-System/Blue-Environment/releases/download/v0.1/core",
            Asset::BlueSession => "https://github.com/HackerOS-Linux-System/Blue-Environment/releases/download/v0.1/Blue-Environment",
            Asset::BlueSessionEntry => "https://raw.githubusercontent.com/HackerOS-Linux-System/Blue-Environment/main/Blue-Environment.desktop",
            Asset::Hammer => "https://github.com/HackerOS-Linux-System/hammer/releases/download/v0.5/hammer",
            Asset::HammerUpdater => "https://github.com/HackerOS-Linux-System/hammer/releases/download/v0.5/hammer-updater",
            Asset::HammerTui => "https://github.com/HackerOS-Linux-System/hammer/releases/download/v0.5/hammer-tui",
            Asset::HammerCore => "https://github.com/HackerOS-Linux-System/hammer/releases/download/v0.5/hammer-core",
            Asset::HammerBuilder => "https://github.com/HackerOS-Linux-System/hammer/releases/download/v0.5/hammer-builder",
        }
    }

    /// The part of the asset's place that does not depend on the user:
    /// the whole path for what lies outside the user's home, the path
    /// below the home for what lies inside.
    pub open spec fn spec_tail(self) -> Seq<char> {
        match self {
            Asset::BlueWm => "/.hackeros/Blue-Environment/wm"@,
            Asset::BlueShell => "/.hackeros/Blue-Environment/shell"@,
            Asset::BlueLauncher => "/.hackeros/Blue-Environment/launcher"@,
            Asset::BlueDesktop => "/.hackeros/Blue-Environment/Desktop"@,
            Asset::BlueDecorations => "/.hackeros/Blue-Environment/decorations"@,
            Asset::BlueCore => "/.hackeros/Blue-Environment/core"@,
            Asset::BlueSession => "/usr/bin/Blue-Environment"@,
            Asset::BlueSessionEntry => "/usr/share/wayland-sessions/Blue-Environment.desktop"@,
            Asset::Hammer => "/usr/bin/hammer"@,
            Asset::HammerUpdater => "/usr/lib/HackerOS/hammer/hammer-updater"@,
            Asset::HammerTui => "/usr/lib/HackerOS/hammer/hammer-tui"@,
            Asset::HammerCore => "/usr/lib/HackerOS/hammer/hammer-core"@,
            Asset::HammerBuilder => "/usr/lib/HackerOS/hammer/hammer-builder"@,
        }
    }

    pub fn tail(self) -> (s: &'static str)
        ensures
            s@ == self.spec_tail(),
    {
        match self {
            Asset::BlueWm => "/.hackeros/Blue-Environment/wm",
            Asset::BlueShell => "/.hackeros/Blue-Environment/shell",
            Asset::BlueLauncher => "/.hackeros/Blue-Environment/launcher",
            Asset::BlueDesktop => "/.hackeros/Blue-Environment/Desktop",
            Asset::BlueDecorations => "/.hackeros/Blue-Environment/decorations",
            Asset::BlueCore => "/.hackeros/Blue-Environment/core",
            Asset::BlueSession => "/usr/bin/Blue-Environment",
            Asset::BlueSessionEntry => "/usr/share/wayland-sessions/Blue-Environment.desktop",
            Asset::Hammer => "/usr/bin/hammer",
            Asset::HammerUpdater => "/usr/lib/HackerOS/hammer/hammer-updater",
            Asset::HammerTui => "/usr/lib/HackerOS/hammer/hammer-tui",
            Asset::HammerCore => "/usr/lib/HackerOS/hammer/hammer-core",
            Asset::HammerBuilder => "/usr/lib/HackerOS/hammer/hammer-builder",
        }
    }

    /// The asset belongs into the home of the user.
    pub open spec fn in_home(self) -> bool {
        self == Asset::BlueWm || self == Asset::BlueShell || self == Asset::BlueLauncher
            || self == Asset::BlueDesktop || self == Asset::BlueDecorations || self
            == Asset::BlueCore
    }

    pub fn lies_in_home(self) -> (b: bool)
        ensures
            b == self.in_home(),
    {
        match self {
            Asset::BlueWm | Asset::BlueShell | Asset::BlueLauncher | Asset::BlueDesktop
            | Asset::BlueDecorations | Asset::BlueCore => true,
            _ => false,
        }
    }

    /// Where the asset lies, seen from inside the target.
    pub open spec fn spec_path(self, user: Seq<char>) -> Seq<char> {
        if self.in_home() {
            "/home/"@ + user + self.spec_tail()
        } else {
            self.spec_tail()
        }
    }

    pub fn path(self, user: &str) -> (p: String)
        ensures
            p@ == self.spec_path(user@),
    {
        if self.lies_in_home() {
            glue3("/home/", user, self.tail())
        } else {
            word(self.tail())
        }
    }
}

/// The partition that holds the boot files on a UEFI machine.
pub open spec fn efi_device(s: StateView) -> Seq<char> {
    s.disk + "1"@
}

/// The partition that holds the system: the second where the first
/// holds the boot files, else the first.
pub open spec fn root_device(s: StateView) -> Seq<char> {
    if s.firmware == Firmware::Uefi {
        s.disk + "2"@
    } else {
        s.disk + "1"@
    }
}

/// The kind of action an operation is carried out by.
pub open spec fn action_of(op: Operation) -> Action {
    match op {
        Operation::ManualPartition | Operation::ConfigureNetwork => Action::Interactive,
        Operation::CreateMountRoot | Operation::CreateEfiMountPoint | Operation::CreateBindPoint(_)
        | Operation::CreateAssetDir(_) => Action::CreateDir,
        Operation::WriteLocale | Operation::WriteHostname | Operation::WriteHosts
            => Action::WriteFile,
        Operation::CopyOverlay | Operation::CopyTheme => Action::CopyTree,
        Operation::Download(_) | Operation::FetchMicroarch => Action::Download,
        Operation::CloneTheme => Action::CloneRepository,
        Operation::RemoveThemeClone => Action::RemoveTree,
        Operation::ReadKernelMarker | Operation::ReadMicroarch => Action::ReadIfPresent,
        _ => Action::Run,
    }
}

pub fn action(op: Operation) -> (a: Action)
    ensures
        a == action_of(op),
{
    match op {
        Operation::ManualPartition | Operation::ConfigureNetwork => Action::Interactive,
        Operation::CreateMountRoot | Operation::CreateEfiMountPoint | Operation::CreateBindPoint(_)
        | Operation::CreateAssetDir(_) => Action::CreateDir,
        Operation::WriteLocale | Operation::WriteHostname | Operation::WriteHosts
            => Action::WriteFile,
        Operation::CopyOverlay | Operation::CopyTheme => Action::CopyTree,
        Operation::Download(_) | Operation::FetchMicroarch => Action::Download,
        Operation::CloneTheme => Action::CloneRepository,
        Operation::RemoveThemeClone => Action::RemoveTree,
        Operation::ReadKernelMarker | Operation::ReadMicroarch => Action::ReadIfPresent,
        _ => Action::Run,
    }
}

/// The operation is a program run inside the target.
pub open spec fn runs_in_target(op: Operation) -> bool {
    match op {
        Operation::RefreshPackages | Operation::InstallBasePackages | Operation::GenerateLocales
        | Operation::SetTimezone | Operation::SyncClock | Operation::SetRootPassword
        | Operation::CreateUser | Operation::SetUserPassword | Operation::InstallDesktop(_)
        | Operation::MakeExecutable(_) | Operation::HammerSetup | Operation::InstallGpuDriver(_)
        | Operation::InstallLiquorix | Operation::AddXanmodKey | Operation::AddXanmodSource
        | Operation::InstallXanmod(_) | Operation::RemoveDefaultKernel
        | Operation::UpdateBootConfig | Operation::InstallBootloader => true,
        _ => false,
    }
}

pub fn in_target(op: Operation) -> (b: bool)
    ensures
        b == runs_in_target(op),
{
    match op {
        Operation::RefreshPackages | Operation::InstallBasePackages | Operation::GenerateLocales
        | Operation::SetTimezone | Operation::SyncClock | Operation::SetRootPassword
        | Operation::CreateUser | Operation::SetUserPassword | Operation::InstallDesktop(_)
        | Operation::MakeExecutable(_) | Operation::HammerSetup | Operation::InstallGpuDriver(_)
        | Operation::InstallLiquorix | Operation::AddXanmodKey | Operation::AddXanmodSource
        | Operation::InstallXanmod(_) | Operation::RemoveDefaultKernel
        | Operation::UpdateBootConfig | Operation::InstallBootloader => true,
        _ => false,
    }
}

/// What is fed to the operation on its input stream.
pub open spec fn stdin_of(op: Operation, s: StateView) -> Option<Seq<char>> {
    match op {
        Operation::WriteLocale => Some(s.locale.spec_name() + "\n"@),
        Operation::SetRootPassword => Some("root:"@ + s.root_password + "\n"@),
        Operation::SetUserPassword => Some(s.username + ":"@ + s.password + "\n"@),
        Operation::WriteHostname => Some(s.hostname + "\n"@),
        Operation::WriteHosts => Some("127.0.0.1 localhost\n127.0.1.1 "@ + s.hostname + "\n"@),
        _ => None,
    }
}

pub fn stdin(op: Operation, state: &InstallerState) -> (r: Option<String>)
    ensures
        crate::wizard::text_of(r) == stdin_of(op, state@),
{
    match op {
        Operation::WriteLocale => Some(glue(state.locale.name(), "\n")),
        Operation::SetRootPassword => Some(glue3("root:", state.root_password.as_str(), "\n")),
        Operation::SetUserPassword => {
            let mut line = glue3(state.username.as_str(), ":", state.password.as_str());
            line.append("\n");
            Some(line)
        },
        Operation::WriteHostname => Some(glue(state.hostname.as_str(), "\n")),
        Operation::WriteHosts => Some(
            glue3("127.0.0.1 localhost\n127.0.1.1 ", state.hostname.as_str(), "\n"),
        ),
        _ => None,
    }
}

/// The packages an edition's desktop consists of.
pub open spec fn desktop_packages(e: Edition) -> Seq<Seq<char>> {
    match e {
        Edition::Official | Edition::Atomic => seq!["task-kde-desktop"@, "sddm"@],
        Edition::Gnome => seq!["task-gnome-desktop"@, "gdm3"@],
        Edition::Xfce => seq!["task-xfce-desktop"@, "lightdm"@],
        Edition::Blue => seq!["sddm"@, "wayland"@],
        Edition::Hydra => seq!["plasma-desktop"@],
        Edition::Cybersecurity => seq![
            "nmap"@,
            "wireshark"@,
            "metasploit-framework"@,
            "burpsuite"@,
        ],
        Edition::Wayfire => seq!["wayfire"@, "sddm"@],
    }
}

/// The packages that drive the graphics hardware of a vendor.
pub open spec fn driver_packages(v: GpuVendor) -> Seq<Seq<char>> {
    match v {
        GpuVendor::Nvidia => seq![
            "nvidia-driver"@,
            "nvidia-kernel-dkms"@,
            "nvidia-smi"@,
            "libnvidia-ml1"@,
            "nvidia-settings"@,
            "nvidia-cuda-mps"@,
        ],
        GpuVendor::Amd => seq!["firmware-amd-graphics"@],
        GpuVendor::Intel => seq!["intel-gpu-tools"@],
    }
}

/// The kernel package built for a microarchitecture level.
pub open spec fn xanmod_package(l: MicroarchLevel) -> Seq<char> {
    match l {
        MicroarchLevel::V1 => "linux-xanmod-lts-x64v1"@,
        MicroarchLevel::V2 => "linux-xanmod-lts-x64v2"@,
        MicroarchLevel::V3 => "linux-xanmod-lts-x64v3"@,
    }
}

/// The words that start every package installation.
pub open spec fn install_words() -> Seq<Seq<char>> {
    seq!["apt"@, "install"@, "-y"@]
}

/// The arguments of the operations that work on the disk and its mounts.
pub open spec fn disk_args(op: Operation, s: StateView) -> Seq<Seq<char>> {
    match op {
        Operation::ManualPartition => seq!["cfdisk"@, s.disk],
        Operation::CreateTable => seq![
            "parted"@,
            "-s"@,
            s.disk,
            "mklabel"@,
            if s.firmware == Firmware::Uefi {
                "gpt"@
            } else {
                "msdos"@
            },
        ],
        Operation::CreateEfiPartition => seq![
            "parted"@,
            "-s"@,
            s.disk,
            "mkpart"@,
            "ESP"@,
            "fat32"@,
            "1MiB"@,
            "513MiB"@,
        ],
        Operation::FlagEfiPartition => seq!["parted"@, "-s"@, s.disk, "set"@, "1"@, "esp"@, "on"@],
        Operation::CreateRootPartition => if s.firmware == Firmware::Uefi {
            seq!["parted"@, "-s"@, s.disk, "mkpart"@, "root"@, "ext4"@, "513MiB"@, "100%"@]
        } else {
            seq!["parted"@, "-s"@, s.disk, "mkpart"@, "primary"@, "ext4"@, "1MiB"@, "100%"@]
        },
        Operation::SetBootFlag => seq!["parted"@, "-s"@, s.disk, "set"@, "1"@, "boot"@, "on"@],
        Operation::FormatEfi => seq!["mkfs.fat"@, "-F32"@, efi_device(s)],
        Operation::FormatRoot(f) => match f {
            Filesystem::Btrfs => seq!["mkfs.btrfs"@, "-f"@, root_device(s)],
            Filesystem::Ext4 => seq!["mkfs.ext4"@, root_device(s)],
            Filesystem::Zfs => seq!["zpool"@, "create"@, "-f"@, "hackeros"@, root_device(s)],
        },
        Operation::CreateMountRoot => seq!["/mnt"@],
        Operation::MountRoot => seq!["mount"@, root_device(s), "/mnt"@],
        Operation::CreateEfiMountPoint => seq!["/mnt/boot/efi"@],
        Operation::MountEfi => seq!["mount"@, efi_device(s), "/mnt/boot/efi"@],
        Operation::CreateBindPoint(v) => seq![v.spec_bind_path()],
        Operation::Bind(v) => seq!["mount"@, "--bind"@, v.spec_host_path(), v.spec_bind_path()],
        Operation::Unbind(v) => seq!["umount"@, v.spec_bind_path()],
        Operation::UnmountEfi => seq!["umount"@, "/mnt/boot/efi"@],
        Operation::UnmountRoot => seq!["umount"@, "/mnt"@],
        _ => Seq::empty(),
    }
}

/// The arguments of the operations that fill and configure the system.
pub open spec fn system_args(op: Operation, s: StateView) -> Seq<Seq<char>> {
    match op {
        Operation::CopyLiveSystem => seq![
            "rsync"@,
            "-aAXv"@,
            "--exclude=/dev/*"@,
            "--exclude=/proc/*"@,
            "--exclude=/sys/*"@,
            "--exclude=/tmp/*"@,
            "--exclude=/run/*"@,
            "--exclude=/mnt/*"@,
            "--exclude=/media/*"@,
            "--exclude=/lost+found"@,
            "/"@,
            "/mnt"@,
        ],
        Operation::Bootstrap(b) => seq![
            "debootstrap"@,
            b.spec_codename(),
            "/mnt"@,
            "http://deb.debian.org/debian/"@,
        ],
        Operation::RefreshPackages => seq!["apt"@, "update"@, "-y"@],
        Operation::InstallBasePackages => install_words() + seq![
            "linux-image-amd64"@,
            if s.firmware == Firmware::Uefi {
                "grub-efi-amd64"@
            } else {
                "grub-pc"@
            },
            "sudo"@,
            "locales"@,
            "tzdata"@,
        ],
        Operation::WriteLocale => seq!["/mnt/etc/locale.gen"@],
        Operation::GenerateLocales => seq!["locale-gen"@],
        Operation::SetTimezone => seq![
            "ln"@,
            "-sf"@,
            "/usr/share/zoneinfo/"@ + s.timezone.spec_name(),
            "/etc/localtime"@,
        ],
        Operation::SyncClock => seq!["hwclock"@, "--systohc"@],
        Operation::SetRootPassword | Operation::SetUserPassword => seq!["chpasswd"@],
        Operation::CreateUser => seq![
            "useradd"@,
            "-m"@,
            "-G"@,
            "sudo,audio,video"@,
            "-s"@,
            "/bin/bash"@,
            s.username,
        ],
        Operation::WriteHostname => seq!["/mnt/etc/hostname"@],
        Operation::WriteHosts => seq!["/mnt/etc/hosts"@],
        Operation::InstallBootloader => if s.firmware == Firmware::Uefi {
            seq![
                "grub-install"@,
                "--target=x86_64-efi"@,
                "--efi-directory=/boot/efi"@,
                "--bootloader-id=HackerOS"@,
                s.disk,
            ]
        } else {
            seq!["grub-install"@, s.disk]
        },
        Operation::UpdateBootConfig => seq!["update-grub"@],
        _ => Seq::empty(),
    }
}

/// The arguments of the operations that install the desktop, the
/// graphics drivers and the kernel.
pub open spec fn extras_args(op: Operation, s: StateView) -> Seq<Seq<char>> {
    match op {
        Operation::CopyOverlay => seq!["/usr/share/HackerOS-Installer/official/"@, "/mnt/"@],
        Operation::InstallDesktop(e) => install_words() + desktop_packages(e),
        Operation::CreateAssetDir(d) => match d {
            AssetDir::BlueHome => seq!["/mnt/home/"@ + s.username + "/.hackeros/Blue-Environment"@],
            AssetDir::HammerLib => seq!["/mnt/usr/lib/HackerOS/hammer"@],
        },
        Operation::Download(a) => seq![a.spec_url(), "/mnt"@ + a.spec_path(s.username)],
        Operation::MakeExecutable(a) => seq!["chmod"@, "+x"@, a.spec_path(s.username)],
        Operation::CloneTheme => seq![
            "https://github.com/HackerOS-Linux-System/hydra-look-and-feel.git"@,
            "/tmp/hydra-look-and-feel"@,
        ],
        Operation::CopyTheme => seq!["/tmp/hydra-look-and-feel/files/"@, "/mnt/"@],
        Operation::RemoveThemeClone => seq!["/tmp/hydra-look-and-feel"@],
        Operation::HammerSetup => seq!["hammer"@, "setup"@],
        Operation::EnumerateHardware => seq!["lspci"@],
        Operation::InstallGpuDriver(v) => install_words() + driver_packages(v),
        Operation::ReadKernelMarker => seq!["/mnt/usr/share/HackerOS/Archived/kernel.hacker"@],
        Operation::InstallLiquorix => seq![
            "sh"@,
            "-c"@,
            "curl -s 'https://liquorix.net/install-liquorix.sh' | bash"@,
        ],
        Operation::FetchMicroarch => seq![
            "https://github.com/HackerOS-Linux-System/Hacker-Lang/blob/main/hacker-packages/xanmod-cpu.hacker?raw=true"@,
            "/mnt/tmp/xanmod-cpu.hacker"@,
        ],
        Operation::ReadMicroarch => seq!["/mnt/tmp/xanmod-cpu.hacker"@],
        Operation::AddXanmodKey => seq![
            "sh"@,
            "-c"@,
            "wget -qO - https://dl.xanmod.org/archive.key | gpg --dearmor -vo /etc/apt/keyrings/xanmod-archive-keyring.gpg"@,
        ],
        Operation::AddXanmodSource => seq![
            "sh"@,
            "-c"@,
            "echo 'deb [signed-by=/etc/apt/keyrings/xanmod-archive-keyring.gpg] http://deb.xanmod.org $(lsb_release -sc) main' | tee /etc/apt/sources.list.d/xanmod-release.list"@,
        ],
        Operation::InstallXanmod(l) => install_words() + seq![xanmod_package(l)],
        Operation::RemoveDefaultKernel => seq!["apt"@, "remove"@, "-y"@, "linux-image-*generic"@],
        Operation::RequestLease => seq!["dhclient"@],
        Operation::ProbeNetwork => seq!["ping"@, "-c1"@, "8.8.8.8"@],
        Operation::ConfigureNetwork => seq!["nmtui"@],
        _ => Seq::empty(),
    }
}

/// The part of the table an operation's arguments stand in.
#[derive(Clone, Copy, Debug, PartialEq, Eq, Structural)]
pub enum Family {
    Disk,
    System,
    Extras,
}

pub open spec fn family_of(op: Operation) -> Family {
    match op {
        Operation::ManualPartition | Operation::CreateTable | Operation::CreateEfiPartition
        | Operation::FlagEfiPartition | Operation::CreateRootPartition | Operation::SetBootFlag
        | Operation::FormatEfi | Operation::FormatRoot(_) | Operation::CreateMountRoot
        | Operation::MountRoot | Operation::CreateEfiMountPoint | Operation::MountEfi
        | Operation::CreateBindPoint(_) | Operation::Bind(_) | Operation::Unbind(_)
        | Operation::UnmountEfi | Operation::UnmountRoot => Family::Disk,
        Operation::CopyLiveSystem | Operation::Bootstrap(_) | Operation::RefreshPackages
        | Operation::InstallBasePackages | Operation::WriteLocale | Operation::GenerateLocales
        | Operation::SetTimezone | Operation::SyncClock | Operation::SetRootPassword
        | Operation::CreateUser | Operation::SetUserPassword | Operation::WriteHostname
        | Operation::WriteHosts | Operation::InstallBootloader | Operation::UpdateBootConfig
            => Family::System,
        _ => Family::Extras,
    }
}

pub fn family(op: Operation) -> (f: Family)
    ensures
        f == family_of(op),
{
    match op {
        Operation::ManualPartition | Operation::CreateTable | Operation::CreateEfiPartition
        | Operation::FlagEfiPartition | Operation::CreateRootPartition | Operation::SetBootFlag
        | Operation::FormatEfi | Operation::FormatRoot(_) | Operation::CreateMountRoot
        | Operation::MountRoot | Operation::CreateEfiMountPoint | Operation::MountEfi
        | Operation::CreateBindPoint(_) | Operation::Bind(_) | Operation::Unbind(_)
        | Operation::UnmountEfi | Operation::UnmountRoot => Family::Disk,
        Operation::CopyLiveSystem | Operation::Bootstrap(_) | Operation::RefreshPackages
        | Operation::InstallBasePackages | Operation::WriteLocale | Operation::GenerateLocales
        | Operation::SetTimezone | Operation::SyncClock | Operation::SetRootPassword
        | Operation::CreateUser | Operation::SetUserPassword | Operation::WriteHostname
        | Operation::WriteHosts | Operation::InstallBootloader | Operation::UpdateBootConfig
            => Family::System,
        _ => Family::Extras,
    }
}

/// The arguments of an operation, for the answers in `s`. For a program
/// the first is its name. No argument depends on a password.
pub open spec fn args_of(op: Operation, s: StateView) -> Seq<Seq<char>> {
    match family_of(op) {
        Family::Disk => disk_args(op, s),
        Family::System => system_args(op, s),
        Family::Extras => extras_args(op, s),
    }
}

/// The request that carries out `op`, for the answers in `s`.
pub open spec fn request_for(op: Operation, s: StateView) -> RequestView {
    RequestView {
        operation: op,
        action: action_of(op),
        args: args_of(op, s),
        stdin: stdin_of(op, s),
        target_root: if runs_in_target(op) {
            Some("/mnt"@)
        } else {
            None
        },
    }
}

fn disk_arguments(op: Operation, state: &InstallerState) -> (r: Vec<String>)
    requires
        family_of(op) == Family::Disk,
    ensures
        r.deep_view() == disk_args(op, state@),
{
    let disk: &str = state.disk.as_str();
    let uefi: bool = state.firmware == Firmware::Uefi;
    let efi: String = glue(disk, "1");
    let root: String = if uefi {
        glue(disk, "2")
    } else {
        glue(disk, "1")
    };
    match op {
        Operation::ManualPartition => words(vec!["cfdisk", disk]),
        Operation::CreateTable => words(
            vec!["parted", "-s", disk, "mklabel", if uefi {
                "gpt"
            } else {
                "msdos"
            }],
        ),
        Operation::CreateEfiPartition => words(
            vec!["parted", "-s", disk, "mkpart", "ESP", "fat32", "1MiB", "513MiB"],
        ),
        Operation::FlagEfiPartition => words(vec!["parted", "-s", disk, "set", "1", "esp", "on"]),
        Operation::CreateRootPartition => if uefi {
            words(vec!["parted", "-s", disk, "mkpart", "root", "ext4", "513MiB", "100%"])
        } else {
            words(vec!["parted", "-s", disk, "mkpart", "primary", "ext4", "1MiB", "100%"])
        },
        Operation::SetBootFlag => words(vec!["parted", "-s", disk, "set", "1", "boot", "on"]),
        Operation::FormatEfi => words(vec!["mkfs.fat", "-F32", efi.as_str()]),
        Operation::FormatRoot(f) => match f {
            Filesystem::Btrfs => words(vec!["mkfs.btrfs", "-f", root.as_str()]),
            Filesystem::Ext4 => words(vec!["mkfs.ext4", root.as_str()]),
            Filesystem::Zfs => words(vec!["zpool", "create", "-f", "hackeros", root.as_str()]),
        },
        Operation::CreateMountRoot => words(vec!["/mnt"]),
        Operation::MountRoot => words(vec!["mount", root.as_str(), "/mnt"]),
        Operation::CreateEfiMountPoint => words(vec!["/mnt/boot/efi"]),
        Operation::MountEfi => words(vec!["mount", efi.as_str(), "/mnt/boot/efi"]),
        Operation::CreateBindPoint(v) => words(vec![v.bind_path()]),
        Operation::Bind(v) => words(vec!["mount", "--bind", v.host_path(), v.bind_path()]),
        Operation::Unbind(v) => words(vec!["umount", v.bind_path()]),
        Operation::UnmountEfi => words(vec!["umount", "/mnt/boot/efi"]),
        Operation::UnmountRoot => words(vec!["umount", "/mnt"]),
        _ => Vec::new(),
    }
}

fn system_arguments(op: Operation, state: &InstallerState) -> (r: Vec<String>)
    requires
        family_of(op) == Family::System,
    ensures
        r.deep_view() == system_args(op, state@),
{
    let uefi: bool = state.firmware == Firmware::Uefi;
    match op {
        Operation::CopyLiveSystem => words(
            vec![
                "rsync",
                "-aAXv",
                "--exclude=/dev/*",
                "--exclude=/proc/*",
                "--exclude=/sys/*",
                "--exclude=/tmp/*",
                "--exclude=/run/*",
                "--exclude=/mnt/*",
                "--exclude=/media/*",
                "--exclude=/lost+found",
                "/",
                "/mnt",
            ],
        ),
        Operation::Bootstrap(b) => words(
            vec!["debootstrap", b.codename(), "/mnt", "http://deb.debian.org/debian/"],
        ),
        Operation::RefreshPackages => words(vec!["apt", "update", "-y"]),
        Operation::InstallBasePackages => {
            let r = words(
                vec!["apt", "install", "-y", "linux-image-amd64", if uefi {
                    "grub-efi-amd64"
                } else {
                    "grub-pc"
                }, "sudo", "locales", "tzdata"],
            );
            assert(r.deep_view() =~= system_args(op, state@));
            r
        },
        Operation::WriteLocale => words(vec!["/mnt/etc/locale.gen"]),
        Operation::GenerateLocales => words(vec!["locale-gen"]),
        Operation::SetTimezone => {
            let zone: String = glue("/usr/share/zoneinfo/", state.timezone.name());
            words(vec!["ln", "-sf", zone.as_str(), "/etc/localtime"])
        },
        Operation::SyncClock => words(vec!["hwclock", "--systohc"]),
        Operation::SetRootPassword | Operation::SetUserPassword => words(vec!["chpasswd"]),
        Operation::CreateUser => words(
            vec![
                "useradd",
                "-m",
                "-G",
                "sudo,audio,video",
                "-s",
                "/bin/bash",
                state.username.as_str(),
            ],
        ),
        Operation::WriteHostname => words(vec!["/mnt/etc/hostname"]),
        Operation::WriteHosts => words(vec!["/mnt/etc/hosts"]),
        Operation::InstallBootloader => if uefi {
            words(
                vec![
                    "grub-install",
                    "--target=x86_64-efi",
                    "--efi-directory=/boot/efi",
                    "--bootloader-id=HackerOS",
                    state.disk.as_str(),
                ],
            )
        } else {
            words(vec!["grub-install", state.disk.as_str()])
        },
        Operation::UpdateBootConfig => words(vec!["update-grub"]),
        _ => Vec::new(),
    }
}

fn desktop_arguments(e: Edition) -> (r: Vec<String>)
    ensures
        r.deep_view() == install_words() + desktop_packages(e),
{
    let r = match e {
        Edition::Official | Edition::Atomic => words(
            vec!["apt", "install", "-y", "task-kde-desktop", "sddm"],
        ),
        Edition::Gnome => words(vec!["apt", "install", "-y", "task-gnome-desktop", "gdm3"]),
        Edition::Xfce => words(vec!["apt", "install", "-y", "task-xfce-desktop", "lightdm"]),
        Edition::Blue => words(vec!["apt", "install", "-y", "sddm", "wayland"]),
        Edition::Hydra => words(vec!["apt", "install", "-y", "plasma-desktop"]),
        Edition::Cybersecurity => words(
            vec!["apt", "install", "-y", "nmap", "wireshark", "metasploit-framework", "burpsuite"],
        ),
        Edition::Wayfire => words(vec!["apt", "install", "-y", "wayfire", "sddm"]),
    };
    assert(r.deep_view() =~= install_words() + desktop_packages(e));
    r
}

fn driver_arguments(v: GpuVendor) -> (r: Vec<String>)
    ensures
        r.deep_view() == install_words() + driver_packages(v),
{
    let r = match v {
        GpuVendor::Nvidia => words(
            vec![
                "apt",
                "install",
                "-y",
                "nvidia-driver",
                "nvidia-kernel-dkms",
                "nvidia-smi",
                "libnvidia-ml1",
                "nvidia-settings",
                "nvidia-cuda-mps",
            ],
        ),
        GpuVendor::Amd => words(vec!["apt", "install", "-y", "firmware-amd-graphics"]),
        GpuVendor::Intel => words(vec!["apt", "install", "-y", "intel-gpu-tools"]),
    };
    assert(r.deep_view() =~= install_words() + driver_packages(v));
    r
}

fn kernel_arguments(l: MicroarchLevel) -> (r: Vec<String>)
    ensures
        r.deep_view() == install_words() + seq![xanmod_package(l)],
{
    let r = match l {
        MicroarchLevel::V1 => words(vec!["apt", "install", "-y", "linux-xanmod-lts-x64v1"]),
        MicroarchLevel::V2 => words(vec!["apt", "install", "-y", "linux-xanmod-lts-x64v2"]),
        MicroarchLevel::V3 => words(vec!["apt", "install", "-y", "linux-xanmod-lts-x64v3"]),
    };
    assert(r.deep_view() =~= install_words() + seq![xanmod_package(l)]);
    r
}

fn extras_arguments(op: Operation, state: &InstallerState) -> (r: Vec<String>)
    requires
        family_of(op) == Family::Extras,
    ensures
        r.deep_view() == extras_args(op, state@),
{
    let user: &str = state.username.as_str();
    match op {
        Operation::CopyOverlay => words(vec!["/usr/share/HackerOS-Installer/official/", "/mnt/"]),
        Operation::InstallDesktop(e) => desktop_arguments(e),
        Operation::CreateAssetDir(d) => match d {
            AssetDir::BlueHome => {
                let home: String = glue3("/mnt/home/", user, "/.hackeros/Blue-Environment");
                words(vec![home.as_str()])
            },
            AssetDir::HammerLib => words(vec!["/mnt/usr/lib/HackerOS/hammer"]),
        },
        Operation::Download(a) => {
            let inside: String = a.path(user);
            let place: String = glue("/mnt", inside.as_str());
            words(vec![a.url(), place.as_str()])
        },
        Operation::MakeExecutable(a) => {
            let inside: String = a.path(user);
            words(vec!["chmod", "+x", inside.as_str()])
        },
        Operation::CloneTheme => words(
            vec![
                "https://github.com/HackerOS-Linux-System/hydra-look-and-feel.git",
                "/tmp/hydra-look-and-feel",
            ],
        ),
        Operation::CopyTheme => words(vec!["/tmp/hydra-look-and-feel/files/", "/mnt/"]),
        Operation::RemoveThemeClone => words(vec!["/tmp/hydra-look-and-feel"]),
        Operation::HammerSetup => words(vec!["hammer", "setup"]),
        Operation::EnumerateHardware => words(vec!["lspci"]),
        Operation::InstallGpuDriver(v) => driver_arguments(v),
        Operation::ReadKernelMarker => words(
            vec!["/mnt/usr/share/HackerOS/Archived/kernel.hacker"],
        ),
        Operation::InstallLiquorix => words(
            vec!["sh", "-c", "curl -s 'https://liquorix.net/install-liquorix.sh' | bash"],
        ),
        Operation::FetchMicroarch => words(
            vec![
                "https://github.com/HackerOS-Linux-System/Hacker-Lang/blob/main/hacker-packages/xanmod-cpu.hacker?raw=true",
                "/mnt/tmp/xanmod-cpu.hacker",
            ],
        ),
        Operation::ReadMicroarch => words(vec!["/mnt/tmp/xanmod-cpu.hacker"]),
        Operation::AddXanmodKey => words(
            vec![
                "sh",
                "-c",
                "wget -qO - https://dl.xanmod.org/archive.key | gpg --dearmor -vo /etc/apt/keyrings/xanmod-archive-keyring.gpg",
            ],
        ),
        Operation::AddXanmodSource => words(
            vec![
                "sh",
                "-c",
                "echo 'deb [signed-by=/etc/apt/keyrings/xanmod-archive-keyring.gpg] http://deb.xanmod.org $(lsb_release -sc) main' | tee /etc/apt/sources.list.d/xanmod-release.list",
            ],
        ),
        Operation::InstallXanmod(l) => kernel_arguments(l),
        Operation::RemoveDefaultKernel => words(
            vec!["apt", "remove", "-y", "linux-image-*generic"],
        ),
        Operation::RequestLease => words(vec!["dhclient"]),
        Operation::ProbeNetwork => words(vec!["ping", "-c1", "8.8.8.8"]),
        Operation::ConfigureNetwork => words(vec!["nmtui"]),
        _ => Vec::new(),
    }
}

/// The arguments of `op` for the answers in `state`.
pub fn arguments(op: Operation, state: &InstallerState) -> (r: Vec<String>)
    ensures
        r.deep_view() == args_of(op, state@),
{
    match family(op) {
        Family::Disk => disk_arguments(op, state),
        Family::System => system_arguments(op, state),
        Family::Extras => extras_arguments(op, state),
    }
}

/// Where programs that work inside the target are confined to.
pub fn target_root() -> (s: &'static str)
    ensures
        s@ == "/mnt"@,
{
    "/mnt"
}

/// The request that carries out `op` for the answers in `state`.
pub fn request(op: Operation, state: &InstallerState) -> (r: Request)
    ensures
        r@ == request_for(op, state@),
{
    Request {
        operation: op,
        action: action(op),
        args: arguments(op, state),
        stdin: stdin(op, state),
        target_root: if in_target(op) {
            Some(word(target_root()))
        } else {
            None
        },
    }
}

} // verus!
