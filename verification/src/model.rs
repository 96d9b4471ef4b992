//! The closed sets of choices the installer works with.

use vstd::prelude::*;

verus! {

/// Desktop edition offered by the wizard, in menu order.
#[derive(Clone, Copy, Debug, PartialEq, Eq, Structural)]
pub enum Edition {
    Official,
    Gnome,
    Xfce,
    Blue,
    Hydra,
    Cybersecurity,
    Wayfire,
    Atomic,
}

/// Distribution branch the base system is taken from.
#[derive(Clone, Copy, Debug, PartialEq, Eq, Structural)]
pub enum Branch {
    Stable,
    Testing,
    Unstable,
}

/// Filesystem of the root partition.
#[derive(Clone, Copy, Debug, PartialEq, Eq, Structural)]
pub enum Filesystem {
    Btrfs,
    Ext4,
    Zfs,
}

/// Who lays out the partitions of the target disk.
#[derive(Clone, Copy, Debug, PartialEq, Eq, Structural)]
pub enum PartitionMode {
    Automatic,
    Manual,
}

/// Time zone of the installed system, in menu order.
#[derive(Clone, Copy, Debug, PartialEq, Eq, Structural)]
pub enum Timezone {
    Utc,
    NewYork,
    Warsaw,
}

/// Locale of the installed system, in menu order.
#[derive(Clone, Copy, Debug, PartialEq, Eq, Structural)]
pub enum Locale {
    EnUs,
    PlPl,
}

/// How the machine boots; discovered once, never chosen.
#[derive(Clone, Copy, Debug, PartialEq, Eq, Structural)]
pub enum Firmware {
    Uefi,
    Bios,
}

/// Where the base system comes from; fixed when the installer is built.
#[derive(Clone, Copy, Debug, PartialEq, Eq, Structural)]
pub enum PopulatePolicy {
    CopyLive,
    Bootstrap,
}

/// Graphics vendors the installer knows drivers for, in priority order.
#[derive(Clone, Copy, Debug, PartialEq, Eq, Structural)]
pub enum GpuVendor {
    Nvidia,
    Amd,
    Intel,
}

/// Kernel the installed system boots: the distribution's own, or one of
/// two alternates.
#[derive(Clone, Copy, Debug, PartialEq, Eq, Structural)]
pub enum KernelFamily {
    Default,
    Liquorix,
    Xanmod,
}

/// x86-64 microarchitecture level of an alternate kernel build.
#[derive(Clone, Copy, Debug, PartialEq, Eq, Structural)]
pub enum MicroarchLevel {
    V1,
    V2,
    V3,
}

/// Position of the wizard. `Installing` is reached only from `Summary`
/// and accepts no further input.
#[derive(Clone, Copy, Debug, PartialEq, Eq, Structural)]
pub enum Step {
    Welcome,
    Username,
    Password,
    RootPassword,
    Edition,
    Branch,
    Filesystem,
    PartitionMode,
    Disk,
    Hostname,
    Timezone,
    Locale,
    Summary,
    Installing,
}

impl Edition {
    /// The edition at menu position `i`.
    pub open spec fn at(i: int) -> Option<Edition> {
        if i == 0 {
            Some(Edition::Official)
        } else if i == 1 {
            Some(Edition::Gnome)
        } else if i == 2 {
            Some(Edition::Xfce)
        } else if i == 3 {
            Some(Edition::Blue)
        } else if i == 4 {
            Some(Edition::Hydra)
        } else if i == 5 {
            Some(Edition::Cybersecurity)
        } else if i == 6 {
            Some(Edition::Wayfire)
        } else if i == 7 {
            Some(Edition::Atomic)
        } else {
            None
        }
    }

    /// The edition at menu position `i`.
    pub fn from_index(i: usize) -> (r: Option<Edition>)
        ensures
            r == Edition::at(i as int),
    {
        match i {
            0 => Some(Edition::Official),
            1 => Some(Edition::Gnome),
            2 => Some(Edition::Xfce),
            3 => Some(Edition::Blue),
            4 => Some(Edition::Hydra),
            5 => Some(Edition::Cybersecurity),
            6 => Some(Edition::Wayfire),
            7 => Some(Edition::Atomic),
            _ => None,
        }
    }

    /// The filesystem an edition insists on, if it does.
    pub open spec fn mandate(self) -> Option<Filesystem> {
        match self {
            Edition::Atomic => Some(Filesystem::Btrfs),
            _ => None,
        }
    }

    pub fn mandated_filesystem(self) -> (r: Option<Filesystem>)
        ensures
            r == self.mandate(),
    {
        match self {
            Edition::Atomic => Some(Filesystem::Btrfs),
            _ => None,
        }
    }
}

impl Branch {
    pub open spec fn at(i: int) -> Option<Branch> {
        if i == 0 {
            Some(Branch::Stable)
        } else if i == 1 {
            Some(Branch::Testing)
        } else if i == 2 {
            Some(Branch::Unstable)
        } else {
            None
        }
    }

    pub fn from_index(i: usize) -> (r: Option<Branch>)
        ensures
            r == Branch::at(i as int),
    {
        match i {
            0 => Some(Branch::Stable),
            1 => Some(Branch::Testing),
            2 => Some(Branch::Unstable),
            _ => None,
        }
    }

    pub open spec fn spec_codename(self) -> Seq<char> {
        match self {
            Branch::Stable => "trixie"@,
            Branch::Testing => "forky"@,
            Branch::Unstable => "sid"@,
        }
    }

    /// Release name the package archive knows the branch by.
    pub fn codename(self) -> (s: &'static str)
        ensures
            s@ == self.spec_codename(),
    {
        match self {
            Branch::Stable => "trixie",
            Branch::Testing => "forky",
            Branch::Unstable => "sid",
        }
    }
}

impl Filesystem {
    pub open spec fn at(i: int) -> Option<Filesystem> {
        if i == 0 {
            Some(Filesystem::Btrfs)
        } else if i == 1 {
            Some(Filesystem::Ext4)
        } else if i == 2 {
            Some(Filesystem::Zfs)
        } else {
            None
        }
    }

    pub fn from_index(i: usize) -> (r: Option<Filesystem>)
        ensures
            r == Filesystem::at(i as int),
    {
        match i {
            0 => Some(Filesystem::Btrfs),
            1 => Some(Filesystem::Ext4),
            2 => Some(Filesystem::Zfs),
            _ => None,
        }
    }
}

impl PartitionMode {
    pub open spec fn at(i: int) -> Option<PartitionMode> {
        if i == 0 {
            Some(PartitionMode::Automatic)
        } else if i == 1 {
            Some(PartitionMode::Manual)
        } else {
            None
        }
    }

    pub fn from_index(i: usize) -> (r: Option<PartitionMode>)
        ensures
            r == PartitionMode::at(i as int),
    {
        match i {
            0 => Some(PartitionMode::Automatic),
            1 => Some(PartitionMode::Manual),
            _ => None,
        }
    }
}

impl Timezone {
    pub open spec fn at(i: int) -> Option<Timezone> {
        if i == 0 {
            Some(Timezone::Utc)
        } else if i == 1 {
            Some(Timezone::NewYork)
        } else if i == 2 {
            Some(Timezone::Warsaw)
        } else {
            None
        }
    }

    pub fn from_index(i: usize) -> (r: Option<Timezone>)
        ensures
            r == Timezone::at(i as int),
    {
        match i {
            0 => Some(Timezone::Utc),
            1 => Some(Timezone::NewYork),
            2 => Some(Timezone::Warsaw),
            _ => None,
        }
    }

    pub open spec fn spec_name(self) -> Seq<char> {
        match self {
            Timezone::Utc => "UTC"@,
            Timezone::NewYork => "America/New_York"@,
            Timezone::Warsaw => "Europe/Warsaw"@,
        }
    }

    /// Name of the zone in the zoneinfo database.
    pub fn name(self) -> (s: &'static str)
        ensures
            s@ == self.spec_name(),
    {
        match self {
            Timezone::Utc => "UTC",
            Timezone::NewYork => "America/New_York",
            Timezone::Warsaw => "Europe/Warsaw",
        }
    }
}

impl Locale {
    pub open spec fn at(i: int) -> Option<Locale> {
        if i == 0 {
            Some(Locale::EnUs)
        } else if i == 1 {
            Some(Locale::PlPl)
        } else {
            None
        }
    }

    pub fn from_index(i: usize) -> (r: Option<Locale>)
        ensures
            r == Locale::at(i as int),
    {
        match i {
            0 => Some(Locale::EnUs),
            1 => Some(Locale::PlPl),
            _ => None,
        }
    }

    pub open spec fn spec_name(self) -> Seq<char> {
        match self {
            Locale::EnUs => "en_US.UTF-8"@,
            Locale::PlPl => "pl_PL.UTF-8"@,
        }
    }

    pub fn name(self) -> (s: &'static str)
        ensures
            s@ == self.spec_name(),
    {
        match self {
            Locale::EnUs => "en_US.UTF-8",
            Locale::PlPl => "pl_PL.UTF-8",
        }
    }
}

impl MicroarchLevel {
    pub open spec fn rank(self) -> nat {
        match self {
            MicroarchLevel::V1 => 1,
            MicroarchLevel::V2 => 2,
            MicroarchLevel::V3 => 3,
        }
    }
}

impl Step {
    /// Place of a step in the wizard's order, `Welcome` being 0.
    pub open spec fn index(self) -> nat {
        match self {
            Step::Welcome => 0,
            Step::Username => 1,
            Step::Password => 2,
            Step::RootPassword => 3,
            Step::Edition => 4,
            Step::Branch => 5,
            Step::Filesystem => 6,
            Step::PartitionMode => 7,
            Step::Disk => 8,
            Step::Hostname => 9,
            Step::Timezone => 10,
            Step::Locale => 11,
            Step::Summary => 12,
            Step::Installing => 13,
        }
    }

    pub fn position(self) -> (n: usize)
        ensures
            n == self.index(),
    {
        match self {
            Step::Welcome => 0,
            Step::Username => 1,
            Step::Password => 2,
            Step::RootPassword => 3,
            Step::Edition => 4,
            Step::Branch => 5,
            Step::Filesystem => 6,
            Step::PartitionMode => 7,
            Step::Disk => 8,
            Step::Hostname => 9,
            Step::Timezone => 10,
            Step::Locale => 11,
            Step::Summary => 12,
            Step::Installing => 13,
        }
    }

    /// A step that collects free text.
    pub open spec fn is_text(self) -> bool {
        self == Step::Username || self == Step::Password || self == Step::RootPassword
            || self == Step::Disk || self == Step::Hostname
    }

    pub fn takes_text(self) -> (b: bool)
        ensures
            b == self.is_text(),
    {
        match self {
            Step::Username | Step::Password | Step::RootPassword | Step::Disk | Step::Hostname => true,
            _ => false,
        }
    }

    /// A text step whose input must not be shown.
    pub open spec fn is_secret(self) -> bool {
        self == Step::Password || self == Step::RootPassword
    }

    pub fn hides_input(self) -> (b: bool)
        ensures
            b == self.is_secret(),
    {
        match self {
            Step::Password | Step::RootPassword => true,
            _ => false,
        }
    }

    /// Number of entries a step lets the cursor rest on (1 where there is
    /// no list).
    pub open spec fn items(self) -> nat {
        match self {
            Step::Edition => 8,
            Step::Branch => 3,
            Step::Filesystem => 3,
            Step::PartitionMode => 2,
            Step::Timezone => 3,
            Step::Locale => 2,
            _ => 1,
        }
    }

    pub fn item_count(self) -> (n: usize)
        ensures
            n == self.items(),
    {
        match self {
            Step::Edition => 8,
            Step::Branch => 3,
            Step::Filesystem => 3,
            Step::PartitionMode => 2,
            Step::Timezone => 3,
            Step::Locale => 2,
            _ => 1,
        }
    }

    /// A step that shows a single-choice list.
    pub open spec fn is_list(self) -> bool {
        self == Step::Edition || self == Step::Branch || self == Step::Filesystem
            || self == Step::PartitionMode || self == Step::Timezone || self == Step::Locale
    }

    pub fn shows_list(self) -> (b: bool)
        ensures
            b == self.is_list(),
    {
        match self {
            Step::Edition | Step::Branch | Step::Filesystem | Step::PartitionMode
            | Step::Timezone | Step::Locale => true,
            _ => false,
        }
    }

    /// The step an accepted confirm leads to. The filesystem list is
    /// passed over when the chosen edition leaves no choice.
    pub open spec fn following(self, edition: Option<Edition>) -> Step {
        match self {
            Step::Welcome => Step::Username,
            Step::Username => Step::Password,
            Step::Password => Step::RootPassword,
            Step::RootPassword => Step::Edition,
            Step::Edition => Step::Branch,
            Step::Branch => if edition is Some && edition->0.mandate() is Some {
                Step::PartitionMode
            } else {
                Step::Filesystem
            },
            Step::Filesystem => Step::PartitionMode,
            Step::PartitionMode => Step::Disk,
            Step::Disk => Step::Hostname,
            Step::Hostname => Step::Timezone,
            Step::Timezone => Step::Locale,
            Step::Locale => Step::Summary,
            Step::Summary => Step::Installing,
            Step::Installing => Step::Installing,
        }
    }

    pub fn next(self, edition: Option<Edition>) -> (s: Step)
        ensures
            s == self.following(edition),
    {
        match self {
            Step::Welcome => Step::Username,
            Step::Username => Step::Password,
            Step::Password => Step::RootPassword,
            Step::RootPassword => Step::Edition,
            Step::Edition => Step::Branch,
            Step::Branch => {
                let skip: bool = match edition {
                    Some(e) => e.mandated_filesystem().is_some(),
                    None => false,
                };
                if skip {
                    Step::PartitionMode
                } else {
                    Step::Filesystem
                }
            },
            Step::Filesystem => Step::PartitionMode,
            Step::PartitionMode => Step::Disk,
            Step::Disk => Step::Hostname,
            Step::Hostname => Step::Timezone,
            Step::Timezone => Step::Locale,
            Step::Locale => Step::Summary,
            Step::Summary => Step::Installing,
            Step::Installing => Step::Installing,
        }
    }
}

} // verus!
