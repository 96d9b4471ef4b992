//! The installation plan: the phases in their order and the operations
//! each phase consists of, as far as they are known before the phase
//! starts.

use vstd::prelude::*;
use crate::detect::{
    detect_gpu_vendor, gpu_vendor_in, kernel_family_in, microarch_in, read_kernel_marker,
    select_microarch,
};
use crate::model::{
    Branch, Edition, Filesystem, Firmware, GpuVendor, KernelFamily, MicroarchLevel, PartitionMode,
    PopulatePolicy,
};
use crate::wizard::{InstallerState, StateView};

verus! {

/// The phases of an installation, in the order in which they run.
#[derive(Clone, Copy, Debug, PartialEq, Eq, Structural)]
pub enum Phase {
    Partition,
    Format,
    Mount,
    Populate,
    BindVirtual,
    Configure,
    Desktop,
    Gpu,
    Kernel,
    Bootloader,
    Cleanup,
}

/// Virtual filesystems of the host that are made visible inside the
/// target, in the order in which they are bound.
#[derive(Clone, Copy, Debug, PartialEq, Eq, Structural)]
pub enum VirtualFs {
    Dev,
    DevPts,
    Proc,
    Sys,
    Run,
}

/// Files that an edition fetches from the network and places in the
/// target.
#[derive(Clone, Copy, Debug, PartialEq, Eq, Structural)]
pub enum Asset {
    BlueWm,
    BlueShell,
    BlueLauncher,
    BlueDesktop,
    BlueDecorations,
    BlueCore,
    BlueSession,
    BlueSessionEntry,
    Hammer,
    HammerUpdater,
    HammerTui,
    HammerCore,
    HammerBuilder,
}

/// Directories that an edition's assets are placed in.
#[derive(Clone, Copy, Debug, PartialEq, Eq, Structural)]
pub enum AssetDir {
    BlueHome,
    HammerLib,
}

/// One step of the installation, named by what it achieves.
#[derive(Clone, Copy, Debug, PartialEq, Eq, Structural)]
pub enum Operation {
    ManualPartition,
    CreateTable,
    CreateEfiPartition,
    FlagEfiPartition,
    CreateRootPartition,
    SetBootFlag,
    FormatEfi,
    FormatRoot(Filesystem),
    CreateMountRoot,
    MountRoot,
    CreateEfiMountPoint,
    MountEfi,
    CopyLiveSystem,
    Bootstrap(Branch),
    CreateBindPoint(VirtualFs),
    Bind(VirtualFs),
    RefreshPackages,
    InstallBasePackages,
    WriteLocale,
    GenerateLocales,
    SetTimezone,
    SyncClock,
    SetRootPassword,
    CreateUser,
    SetUserPassword,
    WriteHostname,
    WriteHosts,
    CopyOverlay,
    InstallDesktop(Edition),
    CreateAssetDir(AssetDir),
    Download(Asset),
    MakeExecutable(Asset),
    CloneTheme,
    CopyTheme,
    RemoveThemeClone,
    HammerSetup,
    EnumerateHardware,
    InstallGpuDriver(GpuVendor),
    ReadKernelMarker,
    InstallLiquorix,
    FetchMicroarch,
    ReadMicroarch,
    AddXanmodKey,
    AddXanmodSource,
    InstallXanmod(MicroarchLevel),
    RemoveDefaultKernel,
    UpdateBootConfig,
    InstallBootloader,
    Unbind(VirtualFs),
    UnmountEfi,
    UnmountRoot,
    RequestLease,
    ProbeNetwork,
    ConfigureNetwork,
}

impl Phase {
    /// Place of the phase in the run, the first being 0.
    pub open spec fn index(self) -> nat {
        match self {
            Phase::Partition => 0,
            Phase::Format => 1,
            Phase::Mount => 2,
            Phase::Populate => 3,
            Phase::BindVirtual => 4,
            Phase::Configure => 5,
            Phase::Desktop => 6,
            Phase::Gpu => 7,
            Phase::Kernel => 8,
            Phase::Bootloader => 9,
            Phase::Cleanup => 10,
        }
    }

    pub fn position(self) -> (n: usize)
        ensures
            n == self.index(),
    {
        match self {
            Phase::Partition => 0,
            Phase::Format => 1,
            Phase::Mount => 2,
            Phase::Populate => 3,
            Phase::BindVirtual => 4,
            Phase::Configure => 5,
            Phase::Desktop => 6,
            Phase::Gpu => 7,
            Phase::Kernel => 8,
            Phase::Bootloader => 9,
            Phase::Cleanup => 10,
        }
    }

    /// The phase at place `i`.
    pub open spec fn at(i: int) -> Option<Phase> {
        if i == 0 {
            Some(Phase::Partition)
        } else if i == 1 {
            Some(Phase::Format)
        } else if i == 2 {
            Some(Phase::Mount)
        } else if i == 3 {
            Some(Phase::Populate)
        } else if i == 4 {
            Some(Phase::BindVirtual)
        } else if i == 5 {
            Some(Phase::Configure)
        } else if i == 6 {
            Some(Phase::Desktop)
        } else if i == 7 {
            Some(Phase::Gpu)
        } else if i == 8 {
            Some(Phase::Kernel)
        } else if i == 9 {
            Some(Phase::Bootloader)
        } else if i == 10 {
            Some(Phase::Cleanup)
        } else {
            None
        }
    }

    /// The phase that follows, if any.
    pub open spec fn following(self) -> Option<Phase> {
        Phase::at(self.index() as int + 1)
    }

    pub fn next(self) -> (n: Option<Phase>)
        ensures
            n == self.following(),
    {
        match self {
            Phase::Partition => Some(Phase::Format),
            Phase::Format => Some(Phase::Mount),
            Phase::Mount => Some(Phase::Populate),
            Phase::Populate => Some(Phase::BindVirtual),
            Phase::BindVirtual => Some(Phase::Configure),
            Phase::Configure => Some(Phase::Desktop),
            Phase::Desktop => Some(Phase::Gpu),
            Phase::Gpu => Some(Phase::Kernel),
            Phase::Kernel => Some(Phase::Bootloader),
            Phase::Bootloader => Some(Phase::Cleanup),
            Phase::Cleanup => None,
        }
    }

    /// The line that is logged when the phase has finished.
    pub open spec fn spec_marker(self) -> Seq<char> {
        match self {
            Phase::Partition => "Disk partitioned."@,
            Phase::Format => "Filesystems created."@,
            Phase::Mount => "Target mounted."@,
            Phase::Populate => "Base system in place."@,
            Phase::BindVirtual => "Virtual filesystems bound."@,
            Phase::Configure => "System configured."@,
            Phase::Desktop => "Desktop installed."@,
            Phase::Gpu => "GPU drivers installed."@,
            Phase::Kernel => "Kernel installed."@,
            Phase::Bootloader => "Bootloader installed."@,
            Phase::Cleanup => "Installation finalized."@,
        }
    }

    pub fn marker(self) -> (s: &'static str)
        ensures
            s@ == self.spec_marker(),
    {
        match self {
            Phase::Partition => "Disk partitioned.",
            Phase::Format => "Filesystems created.",
            Phase::Mount => "Target mounted.",
            Phase::Populate => "Base system in place.",
            Phase::BindVirtual => "Virtual filesystems bound.",
            Phase::Configure => "System configured.",
            Phase::Desktop => "Desktop installed.",
            Phase::Gpu => "GPU drivers installed.",
            Phase::Kernel => "Kernel installed.",
            Phase::Bootloader => "Bootloader installed.",
            Phase::Cleanup => "Installation finalized.",
        }
    }
}

/// The lines logged by the first `n` phases, in order.
pub open spec fn markers_before(n: nat) -> Seq<Seq<char>>
    decreases n,
{
    if n == 0 || n > 11 {
        Seq::empty()
    } else {
        markers_before((n - 1) as nat).push(Phase::at(n - 1)->0.spec_marker())
    }
}

/// Operations that lay out the disk.
pub open spec fn partition_ops(s: StateView) -> Seq<Operation> {
    if s.partition_mode == PartitionMode::Manual {
        seq![Operation::ManualPartition]
    } else if s.firmware == Firmware::Uefi {
        seq![
            Operation::CreateTable,
            Operation::CreateEfiPartition,
            Operation::FlagEfiPartition,
            Operation::CreateRootPartition,
        ]
    } else {
        seq![Operation::CreateTable, Operation::CreateRootPartition, Operation::SetBootFlag]
    }
}

/// Operations that create the filesystems.
pub open spec fn format_ops(s: StateView) -> Seq<Operation> {
    let root = match s.filesystem {
        Some(f) => seq![Operation::FormatRoot(f)],
        None => Seq::empty(),
    };
    if s.firmware == Firmware::Uefi {
        seq![Operation::FormatEfi] + root
    } else {
        root
    }
}

/// Operations that mount the target.
pub open spec fn mount_ops(s: StateView) -> Seq<Operation> {
    if s.firmware == Firmware::Uefi {
        seq![
            Operation::CreateMountRoot,
            Operation::MountRoot,
            Operation::CreateEfiMountPoint,
            Operation::MountEfi,
        ]
    } else {
        seq![Operation::CreateMountRoot, Operation::MountRoot]
    }
}

/// Operations that bring the base system into the target.
pub open spec fn populate_ops(s: StateView) -> Seq<Operation> {
    match s.populate {
        PopulatePolicy::CopyLive => seq![Operation::CopyLiveSystem],
        PopulatePolicy::Bootstrap => match s.branch {
            Some(b) => seq![Operation::Bootstrap(b)],
            None => Seq::empty(),
        },
    }
}

/// Operations that bind the virtual filesystems.
pub open spec fn bind_ops() -> Seq<Operation> {
    seq![
        Operation::CreateBindPoint(VirtualFs::Dev),
        Operation::Bind(VirtualFs::Dev),
        Operation::CreateBindPoint(VirtualFs::DevPts),
        Operation::Bind(VirtualFs::DevPts),
        Operation::CreateBindPoint(VirtualFs::Proc),
        Operation::Bind(VirtualFs::Proc),
        Operation::CreateBindPoint(VirtualFs::Sys),
        Operation::Bind(VirtualFs::Sys),
        Operation::CreateBindPoint(VirtualFs::Run),
        Operation::Bind(VirtualFs::Run),
    ]
}

/// Operations that configure the system inside the target.
pub open spec fn configure_ops(s: StateView) -> Seq<Operation> {
    let packages = if s.populate == PopulatePolicy::Bootstrap {
        seq![Operation::RefreshPackages, Operation::InstallBasePackages]
    } else {
        Seq::empty()
    };
    packages + seq![
        Operation::WriteLocale,
        Operation::GenerateLocales,
        Operation::SetTimezone,
        Operation::SyncClock,
        Operation::SetRootPassword,
        Operation::CreateUser,
        Operation::SetUserPassword,
        Operation::WriteHostname,
        Operation::WriteHosts,
    ]
}

/// Operations that are particular to an edition.
pub open spec fn edition_ops(e: Edition) -> Seq<Operation> {
    match e {
        Edition::Official | Edition::Gnome | Edition::Xfce | Edition::Cybersecurity
        | Edition::Wayfire => seq![Operation::InstallDesktop(e)],
        Edition::Blue => seq![
            Operation::CreateAssetDir(AssetDir::BlueHome),
            Operation::Download(Asset::BlueWm),
            Operation::MakeExecutable(Asset::BlueWm),
            Operation::Download(Asset::BlueShell),
            Operation::MakeExecutable(Asset::BlueShell),
            Operation::Download(Asset::BlueLauncher),
            Operation::MakeExecutable(Asset::BlueLauncher),
            Operation::Download(Asset::BlueDesktop),
            Operation::MakeExecutable(Asset::BlueDesktop),
            Operation::Download(Asset::BlueDecorations),
            Operation::MakeExecutable(Asset::BlueDecorations),
            Operation::Download(Asset::BlueCore),
            Operation::MakeExecutable(Asset::BlueCore),
            Operation::Download(Asset::BlueSession),
            Operation::MakeExecutable(Asset::BlueSession),
            Operation::Download(Asset::BlueSessionEntry),
            Operation::InstallDesktop(Edition::Blue),
        ],
        Edition::Hydra => seq![
            Operation::InstallDesktop(Edition::Hydra),
            Operation::CloneTheme,
            Operation::CopyTheme,
            Operation::RemoveThemeClone,
        ],
        Edition::Atomic => seq![
            Operation::Download(Asset::Hammer),
            Operation::MakeExecutable(Asset::Hammer),
            Operation::CreateAssetDir(AssetDir::HammerLib),
            Operation::Download(Asset::HammerUpdater),
            Operation::MakeExecutable(Asset::HammerUpdater),
            Operation::Download(Asset::HammerTui),
            Operation::MakeExecutable(Asset::HammerTui),
            Operation::Download(Asset::HammerCore),
            Operation::MakeExecutable(Asset::HammerCore),
            Operation::Download(Asset::HammerBuilder),
            Operation::MakeExecutable(Asset::HammerBuilder),
            Operation::InstallDesktop(Edition::Atomic),
            Operation::HammerSetup,
        ],
    }
}

/// Operations that install the desktop: the overlay every edition
/// shares, then what the chosen edition adds.
pub open spec fn desktop_ops(s: StateView) -> Seq<Operation> {
    match s.edition {
        Some(e) => seq![Operation::CopyOverlay] + edition_ops(e),
        None => seq![Operation::CopyOverlay],
    }
}

/// Operations that install and configure the bootloader.
pub open spec fn bootloader_ops() -> Seq<Operation> {
    seq![Operation::InstallBootloader, Operation::UpdateBootConfig]
}

/// Operations that release the target.
pub open spec fn cleanup_ops(s: StateView) -> Seq<Operation> {
    let unbind = seq![
        Operation::Unbind(VirtualFs::Run),
        Operation::Unbind(VirtualFs::Sys),
        Operation::Unbind(VirtualFs::Proc),
        Operation::Unbind(VirtualFs::DevPts),
        Operation::Unbind(VirtualFs::Dev),
    ];
    if s.firmware == Firmware::Uefi {
        unbind + seq![Operation::UnmountEfi, Operation::UnmountRoot]
    } else {
        unbind + seq![Operation::UnmountRoot]
    }
}

/// The operations a phase starts with. The two phases that look before
/// they act start with the look alone; what they go on with is given by
/// [`follow_up`].
pub open spec fn phase_ops(phase: Phase, s: StateView) -> Seq<Operation> {
    match phase {
        Phase::Partition => partition_ops(s),
        Phase::Format => format_ops(s),
        Phase::Mount => mount_ops(s),
        Phase::Populate => populate_ops(s),
        Phase::BindVirtual => bind_ops(),
        Phase::Configure => configure_ops(s),
        Phase::Desktop => desktop_ops(s),
        Phase::Gpu => seq![Operation::EnumerateHardware],
        Phase::Kernel => seq![Operation::ReadKernelMarker],
        Phase::Bootloader => bootloader_ops(),
        Phase::Cleanup => cleanup_ops(s),
    }
}

/// The operations that the output of a finished operation calls for,
/// to be carried out directly after it.
pub open spec fn follow_up(op: Operation, output: Seq<char>) -> Seq<Operation> {
    match op {
        Operation::EnumerateHardware => match gpu_vendor_in(output) {
            Some(v) => seq![Operation::InstallGpuDriver(v)],
            None => Seq::empty(),
        },
        Operation::ReadKernelMarker => match kernel_family_in(output) {
            KernelFamily::Default => Seq::empty(),
            KernelFamily::Liquorix => seq![
                Operation::InstallLiquorix,
                Operation::RemoveDefaultKernel,
                Operation::UpdateBootConfig,
            ],
            KernelFamily::Xanmod => seq![Operation::FetchMicroarch, Operation::ReadMicroarch],
        },
        Operation::ReadMicroarch => seq![
            Operation::AddXanmodKey,
            Operation::AddXanmodSource,
            Operation::RefreshPackages,
            Operation::InstallXanmod(microarch_in(output)),
            Operation::RemoveDefaultKernel,
            Operation::UpdateBootConfig,
        ],
        _ => Seq::empty(),
    }
}

fn edition_operations(e: Edition) -> (ops: Vec<Operation>)
    ensures
        ops@ == edition_ops(e),
{
    match e {
        Edition::Blue => vec![
            Operation::CreateAssetDir(AssetDir::BlueHome),
            Operation::Download(Asset::BlueWm),
            Operation::MakeExecutable(Asset::BlueWm),
            Operation::Download(Asset::BlueShell),
            Operation::MakeExecutable(Asset::BlueShell),
            Operation::Download(Asset::BlueLauncher),
            Operation::MakeExecutable(Asset::BlueLauncher),
            Operation::Download(Asset::BlueDesktop),
            Operation::MakeExecutable(Asset::BlueDesktop),
            Operation::Download(Asset::BlueDecorations),
            Operation::MakeExecutable(Asset::BlueDecorations),
            Operation::Download(Asset::BlueCore),
            Operation::MakeExecutable(Asset::BlueCore),
            Operation::Download(Asset::BlueSession),
            Operation::MakeExecutable(Asset::BlueSession),
            Operation::Download(Asset::BlueSessionEntry),
            Operation::InstallDesktop(Edition::Blue),
        ],
        Edition::Hydra => vec![
            Operation::InstallDesktop(Edition::Hydra),
            Operation::CloneTheme,
            Operation::CopyTheme,
            Operation::RemoveThemeClone,
        ],
        Edition::Atomic => vec![
            Operation::Download(Asset::Hammer),
            Operation::MakeExecutable(Asset::Hammer),
            Operation::CreateAssetDir(AssetDir::HammerLib),
            Operation::Download(Asset::HammerUpdater),
            Operation::MakeExecutable(Asset::HammerUpdater),
            Operation::Download(Asset::HammerTui),
            Operation::MakeExecutable(Asset::HammerTui),
            Operation::Download(Asset::HammerCore),
            Operation::MakeExecutable(Asset::HammerCore),
            Operation::Download(Asset::HammerBuilder),
            Operation::MakeExecutable(Asset::HammerBuilder),
            Operation::InstallDesktop(Edition::Atomic),
            Operation::HammerSetup,
        ],
        _ => vec![Operation::InstallDesktop(e)],
    }
}

/// Appends `tail` to `ops`.
pub fn extend(ops: Vec<Operation>, tail: &Vec<Operation>) -> (all: Vec<Operation>)
    ensures
        all@ == ops@ + tail@,
{
    let mut all = ops;
    let mut i: usize = 0;
    while i < tail.len()
        invariant
            i <= tail.len(),
            all@ == ops@ + tail@.take(i as int),
        decreases tail.len() - i,
    {
        all.push(tail[i]);
        i = i + 1;
    }
    all
}

/// The operations a phase starts with, for the answers in `state`.
pub fn phase_operations(phase: Phase, state: &InstallerState) -> (ops: Vec<Operation>)
    ensures
        ops@ == phase_ops(phase, state@),
{
    let uefi: bool = state.firmware == Firmware::Uefi;
    match phase {
        Phase::Partition => {
            if state.partition_mode == PartitionMode::Manual {
                vec![Operation::ManualPartition]
            } else if uefi {
                vec![
                    Operation::CreateTable,
                    Operation::CreateEfiPartition,
                    Operation::FlagEfiPartition,
                    Operation::CreateRootPartition,
                ]
            } else {
                vec![Operation::CreateTable, Operation::CreateRootPartition, Operation::SetBootFlag]
            }
        },
        Phase::Format => {
            let mut ops: Vec<Operation> = Vec::new();
            if uefi {
                ops.push(Operation::FormatEfi);
            }
            match state.filesystem {
                Some(f) => {
                    ops.push(Operation::FormatRoot(f));
                },
                None => {},
            }
            ops
        },
        Phase::Mount => {
            if uefi {
                vec![
                    Operation::CreateMountRoot,
                    Operation::MountRoot,
                    Operation::CreateEfiMountPoint,
                    Operation::MountEfi,
                ]
            } else {
                vec![Operation::CreateMountRoot, Operation::MountRoot]
            }
        },
        Phase::Populate => {
            match state.populate {
                PopulatePolicy::CopyLive => vec![Operation::CopyLiveSystem],
                PopulatePolicy::Bootstrap => match state.branch {
                    Some(b) => vec![Operation::Bootstrap(b)],
                    None => Vec::new(),
                },
            }
        },
        Phase::BindVirtual => vec![
            Operation::CreateBindPoint(VirtualFs::Dev),
            Operation::Bind(VirtualFs::Dev),
            Operation::CreateBindPoint(VirtualFs::DevPts),
            Operation::Bind(VirtualFs::DevPts),
            Operation::CreateBindPoint(VirtualFs::Proc),
            Operation::Bind(VirtualFs::Proc),
            Operation::CreateBindPoint(VirtualFs::Sys),
            Operation::Bind(VirtualFs::Sys),
            Operation::CreateBindPoint(VirtualFs::Run),
            Operation::Bind(VirtualFs::Run),
        ],
        Phase::Configure => {
            let mut ops: Vec<Operation> = Vec::new();
            if state.populate == PopulatePolicy::Bootstrap {
                ops.push(Operation::RefreshPackages);
                ops.push(Operation::InstallBasePackages);
            }
            let rest: Vec<Operation> = vec![
                Operation::WriteLocale,
                Operation::GenerateLocales,
                Operation::SetTimezone,
                Operation::SyncClock,
                Operation::SetRootPassword,
                Operation::CreateUser,
                Operation::SetUserPassword,
                Operation::WriteHostname,
                Operation::WriteHosts,
            ];
            extend(ops, &rest)
        },
        Phase::Desktop => {
            let ops: Vec<Operation> = vec![Operation::CopyOverlay];
            match state.edition {
                Some(e) => {
                    let more: Vec<Operation> = edition_operations(e);
                    extend(ops, &more)
                },
                None => ops,
            }
        },
        Phase::Gpu => vec![Operation::EnumerateHardware],
        Phase::Kernel => vec![Operation::ReadKernelMarker],
        Phase::Bootloader => vec![Operation::InstallBootloader, Operation::UpdateBootConfig],
        Phase::Cleanup => {
            let mut ops: Vec<Operation> = vec![
                Operation::Unbind(VirtualFs::Run),
                Operation::Unbind(VirtualFs::Sys),
                Operation::Unbind(VirtualFs::Proc),
                Operation::Unbind(VirtualFs::DevPts),
                Operation::Unbind(VirtualFs::Dev),
            ];
            if uefi {
                ops.push(Operation::UnmountEfi);
            }
            ops.push(Operation::UnmountRoot);
            ops
        },
    }
}

/// The operations that `output`, captured from `op`, calls for.
pub fn follow_up_operations(op: Operation, output: &str) -> (ops: Vec<Operation>)
    ensures
        ops@ == follow_up(op, output@),
{
    match op {
        Operation::EnumerateHardware => match detect_gpu_vendor(output) {
            Some(v) => vec![Operation::InstallGpuDriver(v)],
            None => Vec::new(),
        },
        Operation::ReadKernelMarker => match read_kernel_marker(output) {
            KernelFamily::Default => Vec::new(),
            KernelFamily::Liquorix => vec![
                Operation::InstallLiquorix,
                Operation::RemoveDefaultKernel,
                Operation::UpdateBootConfig,
            ],
            KernelFamily::Xanmod => vec![Operation::FetchMicroarch, Operation::ReadMicroarch],
        },
        Operation::ReadMicroarch => {
            let level: MicroarchLevel = select_microarch(output);
            vec![
                Operation::AddXanmodKey,
                Operation::AddXanmodSource,
                Operation::RefreshPackages,
                Operation::InstallXanmod(level),
                Operation::RemoveDefaultKernel,
                Operation::UpdateBootConfig,
            ]
        },
        _ => Vec::new(),
    }
}

} // verus!
