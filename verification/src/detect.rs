//! Decisions read off text that was fetched beforehand: the graphics
//! vendor in a hardware listing, the kernel family in a marker file, the
//! microarchitecture level in a descriptor.

use vstd::prelude::*;
use crate::model::{GpuVendor, KernelFamily, MicroarchLevel};
use crate::text::{chars_of, contains, contains_line, has_line, is_substring};

verus! {

impl GpuVendor {
    /// The string a hardware listing names the vendor by.
    pub open spec fn spec_signature(self) -> Seq<char> {
        match self {
            GpuVendor::Nvidia => "NVIDIA"@,
            GpuVendor::Amd => "AMD"@,
            GpuVendor::Intel => "Intel"@,
        }
    }

    pub fn signature(self) -> (s: &'static str)
        ensures
            s@ == self.spec_signature(),
    {
        match self {
            GpuVendor::Nvidia => "NVIDIA",
            GpuVendor::Amd => "AMD",
            GpuVendor::Intel => "Intel",
        }
    }
}

impl KernelFamily {
    /// The marker line that asks for the family; the default kernel has
    /// none.
    pub open spec fn spec_tag(self) -> Seq<char> {
        match self {
            KernelFamily::Default => Seq::empty(),
            KernelFamily::Liquorix => "[liquorix]"@,
            KernelFamily::Xanmod => "[xanmod]"@,
        }
    }
}

impl MicroarchLevel {
    /// The substring by which a descriptor advertises the level.
    pub open spec fn spec_signature(self) -> Seq<char> {
        match self {
            MicroarchLevel::V1 => "x86-64"@,
            MicroarchLevel::V2 => "x86-64-v2"@,
            MicroarchLevel::V3 => "x86-64-v3"@,
        }
    }

    pub fn signature(self) -> (s: &'static str)
        ensures
            s@ == self.spec_signature(),
    {
        match self {
            MicroarchLevel::V1 => "x86-64",
            MicroarchLevel::V2 => "x86-64-v2",
            MicroarchLevel::V3 => "x86-64-v3",
        }
    }
}

/// The listing names the vendor.
pub open spec fn names_vendor(listing: Seq<char>, v: GpuVendor) -> bool {
    is_substring(v.spec_signature(), listing)
}

/// The vendor a hardware listing stands for: the first, in the order
/// NVIDIA, AMD, Intel, whose name occurs in it.
pub open spec fn gpu_vendor_in(listing: Seq<char>) -> Option<GpuVendor> {
    if names_vendor(listing, GpuVendor::Nvidia) {
        Some(GpuVendor::Nvidia)
    } else if names_vendor(listing, GpuVendor::Amd) {
        Some(GpuVendor::Amd)
    } else if names_vendor(listing, GpuVendor::Intel) {
        Some(GpuVendor::Intel)
    } else {
        None
    }
}

/// Place of a vendor in the order of preference, 0 being first.
pub open spec fn vendor_priority(v: GpuVendor) -> nat {
    match v {
        GpuVendor::Nvidia => 0,
        GpuVendor::Amd => 1,
        GpuVendor::Intel => 2,
    }
}

/// Picks the graphics vendor of a hardware listing.
pub fn detect_gpu_vendor(listing: &str) -> (v: Option<GpuVendor>)
    ensures
        v == gpu_vendor_in(listing@),
{
    let text: Vec<char> = chars_of(listing);
    let nvidia: Vec<char> = chars_of(GpuVendor::Nvidia.signature());
    let amd: Vec<char> = chars_of(GpuVendor::Amd.signature());
    let intel: Vec<char> = chars_of(GpuVendor::Intel.signature());
    if contains(&text, &nvidia) {
        Some(GpuVendor::Nvidia)
    } else if contains(&text, &amd) {
        Some(GpuVendor::Amd)
    } else if contains(&text, &intel) {
        Some(GpuVendor::Intel)
    } else {
        None
    }
}

/// Exactly one vendor is picked whenever any is named, and it is the one
/// that comes first in the order of preference among those named; none is
/// picked only when none is named.
pub proof fn lemma_gpu_vendor_priority(listing: Seq<char>)
    ensures
        gpu_vendor_in(listing) is None <==> forall|v: GpuVendor| !names_vendor(listing, v),
        gpu_vendor_in(listing) matches Some(w) ==> names_vendor(listing, w) && forall|
            v: GpuVendor,
        |
            names_vendor(listing, v) ==> vendor_priority(w) <= vendor_priority(v),
{
    if gpu_vendor_in(listing) is None {
        assert forall|v: GpuVendor| !names_vendor(listing, v) by {
            match v {
                GpuVendor::Nvidia => {},
                GpuVendor::Amd => {},
                GpuVendor::Intel => {},
            }
        }
    } else {
        assert(names_vendor(listing, gpu_vendor_in(listing)->0));
    }
}

/// The kernel family a marker file asks for: Liquorix where a line is its
/// tag, else XanMod where a line is its tag, else the default kernel.
pub open spec fn kernel_family_in(marker: Seq<char>) -> KernelFamily {
    if has_line(marker, KernelFamily::Liquorix.spec_tag()) {
        KernelFamily::Liquorix
    } else if has_line(marker, KernelFamily::Xanmod.spec_tag()) {
        KernelFamily::Xanmod
    } else {
        KernelFamily::Default
    }
}

/// Reads the kernel family off the contents of the marker file. A file
/// without a recognised line, an empty one included, means the default.
pub fn read_kernel_marker(marker: &str) -> (k: KernelFamily)
    ensures
        k == kernel_family_in(marker@),
{
    let text: Vec<char> = chars_of(marker);
    let liquorix: Vec<char> = chars_of("[liquorix]");
    let xanmod: Vec<char> = chars_of("[xanmod]");
    if contains_line(&text, &liquorix) {
        KernelFamily::Liquorix
    } else if contains_line(&text, &xanmod) {
        KernelFamily::Xanmod
    } else {
        KernelFamily::Default
    }
}

/// The descriptor advertises the level.
pub open spec fn advertises(descriptor: Seq<char>, level: MicroarchLevel) -> bool {
    is_substring(level.spec_signature(), descriptor)
}

/// The level to build for: the highest the descriptor advertises, and the
/// highest there is where it advertises none.
pub open spec fn microarch_in(descriptor: Seq<char>) -> MicroarchLevel {
    if advertises(descriptor, MicroarchLevel::V3) {
        MicroarchLevel::V3
    } else if advertises(descriptor, MicroarchLevel::V2) {
        MicroarchLevel::V2
    } else if advertises(descriptor, MicroarchLevel::V1) {
        MicroarchLevel::V1
    } else {
        MicroarchLevel::V3
    }
}

/// Selects the microarchitecture level from a descriptor.
pub fn select_microarch(descriptor: &str) -> (level: MicroarchLevel)
    ensures
        level == microarch_in(descriptor@),
{
    let text: Vec<char> = chars_of(descriptor);
    let v3: Vec<char> = chars_of(MicroarchLevel::V3.signature());
    let v2: Vec<char> = chars_of(MicroarchLevel::V2.signature());
    let v1: Vec<char> = chars_of(MicroarchLevel::V1.signature());
    if contains(&text, &v3) {
        MicroarchLevel::V3
    } else if contains(&text, &v2) {
        MicroarchLevel::V2
    } else if contains(&text, &v1) {
        MicroarchLevel::V1
    } else {
        MicroarchLevel::V3
    }
}

/// The level selected is no lower than any level advertised, and it is
/// itself advertised unless nothing is.
pub proof fn lemma_highest_level_wins(descriptor: Seq<char>)
    ensures
        forall|l: MicroarchLevel|
            advertises(descriptor, l) ==> microarch_in(descriptor).rank() >= l.rank(),
        (exists|l: MicroarchLevel| advertises(descriptor, l)) ==> advertises(
            descriptor,
            microarch_in(descriptor),
        ),
        (forall|l: MicroarchLevel| !advertises(descriptor, l)) ==> microarch_in(descriptor)
            == MicroarchLevel::V3,
{
    assert forall|l: MicroarchLevel| advertises(descriptor, l) implies microarch_in(
        descriptor,
    ).rank() >= l.rank() by {
        match l {
            MicroarchLevel::V1 => {},
            MicroarchLevel::V2 => {},
            MicroarchLevel::V3 => {},
        }
    }
    if exists|l: MicroarchLevel| advertises(descriptor, l) {
        let l = choose|l: MicroarchLevel| advertises(descriptor, l);
        match l {
            MicroarchLevel::V1 => {},
            MicroarchLevel::V2 => {},
            MicroarchLevel::V3 => {},
        }
    }
}

} // verus!
