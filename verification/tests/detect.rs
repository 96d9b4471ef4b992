use hackeros_installer::detect::{detect_gpu_vendor, read_kernel_marker, select_microarch};
use hackeros_installer::disks::parse_disk_list;
use hackeros_installer::model::{GpuVendor, KernelFamily, MicroarchLevel};
use hackeros_installer::text::{chars_of, contains, contains_line};

fn chars(s: &str) -> Vec<char> {
    s.chars().collect()
}

#[test]
fn chars_of_keeps_every_character() {
    assert_eq!(chars_of("aż\n b"), vec!['a', 'ż', '\n', ' ', 'b']);
    assert_eq!(chars_of(""), Vec::<char>::new());
}

#[test]
fn contains_finds_substrings() {
    assert!(contains(&chars("hello world"), &chars("lo w")));
    assert!(contains(&chars("hello"), &chars("hello")));
    assert!(contains(&chars("hello"), &chars("")));
    assert!(contains(&chars(""), &chars("")));
    assert!(contains(&chars("aab"), &chars("ab")));
    assert!(!contains(&chars("hello"), &chars("hellox")));
    assert!(!contains(&chars("hello"), &chars("Hello")));
    assert!(!contains(&chars(""), &chars("a")));
}

#[test]
fn gpu_vendor_follows_priority() {
    assert_eq!(detect_gpu_vendor("VGA: Intel UHD\n3D: NVIDIA GA107"), Some(GpuVendor::Nvidia));
    assert_eq!(detect_gpu_vendor("VGA: NVIDIA\nVGA: AMD\nIntel"), Some(GpuVendor::Nvidia));
    assert_eq!(detect_gpu_vendor("Intel bridge\nVGA: AMD Radeon"), Some(GpuVendor::Amd));
    assert_eq!(detect_gpu_vendor("00:02.0 VGA: Intel Corporation"), Some(GpuVendor::Intel));
    assert_eq!(detect_gpu_vendor("VGA: Matrox"), None);
    assert_eq!(detect_gpu_vendor(""), None);
}

#[test]
fn gpu_vendor_match_is_case_sensitive() {
    assert_eq!(detect_gpu_vendor("nvidia amd intel"), None);
    assert_eq!(detect_gpu_vendor("Nvidia INTEL Amd"), None);
    assert_eq!(detect_gpu_vendor("xxAMDxx"), Some(GpuVendor::Amd));
}

#[test]
fn kernel_marker_is_read_by_line() {
    assert_eq!(read_kernel_marker("[xanmod]"), KernelFamily::Xanmod);
    assert_eq!(read_kernel_marker("# kernel\n  [xanmod]  \r\nrest"), KernelFamily::Xanmod);
    assert_eq!(read_kernel_marker("[liquorix]\n"), KernelFamily::Liquorix);
    assert_eq!(read_kernel_marker("[xanmod]\n[liquorix]"), KernelFamily::Liquorix);
    assert_eq!(read_kernel_marker(""), KernelFamily::Default);
    assert_eq!(read_kernel_marker("\n\n"), KernelFamily::Default);
    assert_eq!(read_kernel_marker("kernel = [xanmod]"), KernelFamily::Default);
    assert_eq!(read_kernel_marker("[xanmod] x"), KernelFamily::Default);
    assert_eq!(read_kernel_marker("[Xanmod]"), KernelFamily::Default);
    assert_eq!(read_kernel_marker("[xan\nmod]"), KernelFamily::Default);
}

#[test]
fn contains_line_trims_white_space() {
    assert!(contains_line(&chars("a\n\t b \nc"), &chars("b")));
    assert!(contains_line(&chars("b"), &chars("b")));
    assert!(contains_line(&chars("x\nb"), &chars("b")));
    assert!(!contains_line(&chars("a b"), &chars("b")));
    assert!(!contains_line(&chars(""), &chars("b")));
}

#[test]
fn highest_microarch_level_wins() {
    assert_eq!(select_microarch("x86-64-v2 x86-64-v3"), MicroarchLevel::V3);
    assert_eq!(select_microarch("x86-64-v3"), MicroarchLevel::V3);
    assert_eq!(select_microarch("flags: x86-64-v2"), MicroarchLevel::V2);
    assert_eq!(select_microarch("plain x86-64 cpu"), MicroarchLevel::V1);
    assert_eq!(select_microarch("x86-64-v4"), MicroarchLevel::V1);
    assert_eq!(select_microarch("nothing known"), MicroarchLevel::V3);
    assert_eq!(select_microarch(""), MicroarchLevel::V3);
}

#[test]
fn disk_list_is_parsed_by_line() {
    let disks = parse_disk_list("sda   465.8G\nnvme0n1 1T\n");
    assert_eq!(disks.len(), 2);
    assert_eq!(disks[0].device, "/dev/sda");
    assert_eq!(disks[0].size, "465.8G");
    assert_eq!(disks[0].label(), "/dev/sda (465.8G)");
    assert_eq!(disks[1].device, "/dev/nvme0n1");
    assert_eq!(disks[1].size, "1T");
}

#[test]
fn disk_list_passes_over_short_lines() {
    let disks = parse_disk_list("\nsda\n  sdb 10G extra\n\t\nsdc 5G");
    assert_eq!(disks.len(), 2);
    assert_eq!(disks[0].label(), "/dev/sdb (10G)");
    assert_eq!(disks[1].label(), "/dev/sdc (5G)");
    assert!(parse_disk_list("").is_empty());
}
