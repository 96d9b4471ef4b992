use hackeros_installer::model::{
    Branch, Edition, Filesystem, Firmware, GpuVendor, KernelFamily, MicroarchLevel, PartitionMode,
    PopulatePolicy, Step,
};
use hackeros_installer::pipeline::{check, describe_failure, join, Pipeline, Refusal, Status};
use hackeros_installer::plan::{
    follow_up_operations, phase_operations, Asset, Operation, Phase, VirtualFs,
};
use hackeros_installer::request::{Action, Outcome, Request};
use hackeros_installer::wizard::{Event, InstallerState};

const PHASES: [Phase; 11] = [
    Phase::Partition,
    Phase::Format,
    Phase::Mount,
    Phase::Populate,
    Phase::BindVirtual,
    Phase::Configure,
    Phase::Desktop,
    Phase::Gpu,
    Phase::Kernel,
    Phase::Bootloader,
    Phase::Cleanup,
];

fn ready(firmware: Firmware, mode: PartitionMode, edition: Edition, fs: Filesystem) -> InstallerState {
    let mut s = InstallerState::new(firmware, PopulatePolicy::Bootstrap);
    s.step = Step::Installing;
    s.username = String::from("alice");
    s.password = String::from("pw-user");
    s.root_password = String::from("pw-root");
    s.disk = String::from("/dev/sda");
    s.edition = Some(edition);
    s.branch = Some(Branch::Stable);
    s.filesystem = Some(fs);
    s.partition_mode = mode;
    s
}

fn uefi_auto() -> InstallerState {
    ready(Firmware::Uefi, PartitionMode::Automatic, Edition::Official, Filesystem::Ext4)
}

fn ok(output: &str) -> Outcome {
    Outcome { success: true, output: String::from(output) }
}

fn failed(output: &str) -> Outcome {
    Outcome { success: false, output: String::from(output) }
}

fn answer(req: &Request, lspci: &str, marker: &str, cpu: &str) -> Outcome {
    match req.operation {
        Operation::EnumerateHardware => ok(lspci),
        Operation::ReadKernelMarker => ok(marker),
        Operation::ReadMicroarch => ok(cpu),
        _ => ok(""),
    }
}

fn run_all(state: InstallerState, lspci: &str, marker: &str, cpu: &str) -> (Pipeline, Vec<Request>) {
    let mut p = Pipeline::new(state).begin();
    let mut issued = Vec::new();
    let mut guard = 0;
    while let Some(req) = p.next_request() {
        let outcome = answer(&req, lspci, marker, cpu);
        issued.push(req);
        p = p.record(outcome);
        guard += 1;
        assert!(guard < 500);
    }
    (p, issued)
}

fn ops(issued: &[Request]) -> Vec<Operation> {
    issued.iter().map(|r| r.operation).collect()
}

fn markers(n: usize) -> Vec<String> {
    PHASES[..n].iter().map(|p| String::from(p.marker())).collect()
}

#[test]
fn new_pipeline_has_not_started() {
    let p = Pipeline::new(uefi_auto());
    assert_eq!(p.status(), Status::NotStarted);
    assert!(p.next_request().is_none());
    let p = p.record(ok(""));
    assert_eq!(p.status(), Status::NotStarted);
    assert!(p.state().progress.is_empty());
}

#[test]
fn begin_enters_partition_phase() {
    let p = Pipeline::new(uefi_auto()).begin();
    assert_eq!(p.status(), Status::Running(Phase::Partition));
    let req = p.next_request().unwrap();
    assert_eq!(req.operation, Operation::CreateTable);
    assert_eq!(req.args, vec!["parted", "-s", "/dev/sda", "mklabel", "gpt"]);
    let p = p.begin();
    assert_eq!(p.status(), Status::Running(Phase::Partition));
}

#[test]
fn successful_uefi_run_issues_plan_in_order() {
    let (p, issued) = run_all(uefi_auto(), "VGA: Matrox", "", "");
    assert_eq!(p.status(), Status::Done);
    assert!(p.state().error.is_none());
    assert_eq!(p.state().progress, markers(11));
    let mut expected: Vec<Operation> = vec![
        Operation::CreateTable,
        Operation::CreateEfiPartition,
        Operation::FlagEfiPartition,
        Operation::CreateRootPartition,
        Operation::FormatEfi,
        Operation::FormatRoot(Filesystem::Ext4),
        Operation::CreateMountRoot,
        Operation::MountRoot,
        Operation::CreateEfiMountPoint,
        Operation::MountEfi,
        Operation::Bootstrap(Branch::Stable),
    ];
    for v in [VirtualFs::Dev, VirtualFs::DevPts, VirtualFs::Proc, VirtualFs::Sys, VirtualFs::Run] {
        expected.push(Operation::CreateBindPoint(v));
        expected.push(Operation::Bind(v));
    }
    expected.extend([
        Operation::RefreshPackages,
        Operation::InstallBasePackages,
        Operation::WriteLocale,
        Operation::GenerateLocales,
        Operation::SetTimezone,
        Operation::SyncClock,
        Operation::SetRootPassword,
        Operation::CreateUser,
        Operation::SetUserPassword,
        Operation::WriteHostname,
        Operation::WriteHosts,
        Operation::CopyOverlay,
        Operation::InstallDesktop(Edition::Official),
        Operation::EnumerateHardware,
        Operation::ReadKernelMarker,
        Operation::InstallBootloader,
        Operation::UpdateBootConfig,
        Operation::Unbind(VirtualFs::Run),
        Operation::Unbind(VirtualFs::Sys),
        Operation::Unbind(VirtualFs::Proc),
        Operation::Unbind(VirtualFs::DevPts),
        Operation::Unbind(VirtualFs::Dev),
        Operation::UnmountEfi,
        Operation::UnmountRoot,
    ]);
    assert_eq!(ops(&issued), expected);
    assert!(p.next_request().is_none());
    assert_eq!(p.gpu(), None);
    assert_eq!(p.kernel(), Some(KernelFamily::Default));
    assert_eq!(p.microarch(), None);
}

#[test]
fn uefi_run_creates_and_formats_efi_partition() {
    let (_, issued) = run_all(uefi_auto(), "", "", "");
    let all = ops(&issued);
    assert!(all.contains(&Operation::CreateEfiPartition));
    assert!(all.contains(&Operation::FormatEfi));
    assert!(!all.contains(&Operation::SetBootFlag));
    let format = issued.iter().find(|r| r.operation == Operation::FormatEfi).unwrap();
    assert_eq!(format.args, vec!["mkfs.fat", "-F32", "/dev/sda1"]);
    let create = issued.iter().find(|r| r.operation == Operation::CreateEfiPartition).unwrap();
    assert_eq!(
        create.args,
        vec!["parted", "-s", "/dev/sda", "mkpart", "ESP", "fat32", "1MiB", "513MiB"]
    );
    let boot = issued.iter().find(|r| r.operation == Operation::InstallBootloader).unwrap();
    assert_eq!(
        boot.args,
        vec![
            "grub-install",
            "--target=x86_64-efi",
            "--efi-directory=/boot/efi",
            "--bootloader-id=HackerOS",
            "/dev/sda"
        ]
    );
    assert_eq!(boot.target_root, Some(String::from("/mnt")));
    let root = issued.iter().find(|r| r.operation == Operation::MountRoot).unwrap();
    assert_eq!(root.args, vec!["mount", "/dev/sda2", "/mnt"]);
}

#[test]
fn bios_run_sets_boot_flag_and_has_no_efi_steps() {
    let state = ready(Firmware::Bios, PartitionMode::Automatic, Edition::Xfce, Filesystem::Btrfs);
    let (p, issued) = run_all(state, "", "", "");
    assert_eq!(p.status(), Status::Done);
    let all = ops(&issued);
    assert!(!all.contains(&Operation::CreateEfiPartition));
    assert!(!all.contains(&Operation::FlagEfiPartition));
    assert!(!all.contains(&Operation::FormatEfi));
    assert!(!all.contains(&Operation::MountEfi));
    assert!(!all.contains(&Operation::UnmountEfi));
    assert!(all.contains(&Operation::SetBootFlag));
    assert_eq!(
        &all[..4],
        &[
            Operation::CreateTable,
            Operation::CreateRootPartition,
            Operation::SetBootFlag,
            Operation::FormatRoot(Filesystem::Btrfs)
        ]
    );
    assert_eq!(issued[0].args, vec!["parted", "-s", "/dev/sda", "mklabel", "msdos"]);
    assert_eq!(issued[2].args, vec!["parted", "-s", "/dev/sda", "set", "1", "boot", "on"]);
    assert_eq!(issued[3].args, vec!["mkfs.btrfs", "-f", "/dev/sda1"]);
    let boot = issued.iter().find(|r| r.operation == Operation::InstallBootloader).unwrap();
    assert_eq!(boot.args, vec!["grub-install", "/dev/sda"]);
    for r in &issued {
        for a in &r.args {
            assert!(!a.contains("efi"), "{:?}", r.operation);
        }
    }
}

#[test]
fn manual_partitioning_hands_over_to_the_tool() {
    let state = ready(Firmware::Uefi, PartitionMode::Manual, Edition::Gnome, Filesystem::Ext4);
    let p = Pipeline::new(state).begin();
    let req = p.next_request().unwrap();
    assert_eq!(req.operation, Operation::ManualPartition);
    assert_eq!(req.action, Action::Interactive);
    assert_eq!(req.args, vec!["cfdisk", "/dev/sda"]);
    let p = p.record(ok(""));
    assert_eq!(p.status(), Status::Running(Phase::Format));
    assert_eq!(p.state().progress, markers(1));
    assert_eq!(p.next_request().unwrap().operation, Operation::FormatEfi);
}

#[test]
fn failure_at_each_phase_stops_the_run() {
    for (i, phase) in PHASES.iter().enumerate() {
        let mut p = Pipeline::new(uefi_auto()).begin();
        let mut guard = 0;
        while p.status() != Status::Running(*phase) {
            let req = p.next_request().unwrap();
            p = p.record(answer(&req, "", "", ""));
            guard += 1;
            assert!(guard < 500);
        }
        let req = p.next_request().unwrap();
        let p = p.record(failed("device busy"));
        assert_eq!(p.status(), Status::Failed(Some(*phase)));
        assert_eq!(p.state().progress, markers(i));
        let error = p.state().error.clone().unwrap();
        assert!(!error.is_empty());
        assert_eq!(error, format!("Command failed: {}: device busy", req.args.join(" ")));
        assert!(p.next_request().is_none());
        let p = p.record(ok(""));
        assert_eq!(p.status(), Status::Failed(Some(*phase)));
        assert_eq!(p.state().progress, markers(i));
        assert_eq!(p.state().error, Some(error));
    }
}

#[test]
fn failure_in_the_middle_of_a_phase_logs_no_marker_for_it() {
    let mut p = Pipeline::new(uefi_auto()).begin();
    p = p.record(ok(""));
    p = p.record(ok(""));
    assert_eq!(p.status(), Status::Running(Phase::Partition));
    let p = p.record(failed(""));
    assert_eq!(p.status(), Status::Failed(Some(Phase::Partition)));
    assert!(p.state().progress.is_empty());
    assert_eq!(
        p.state().error,
        Some(String::from("Command failed: parted -s /dev/sda set 1 esp on"))
    );
}

#[test]
fn done_is_terminal() {
    let (p, _) = run_all(uefi_auto(), "", "", "");
    let p = p.record(failed("late"));
    assert_eq!(p.status(), Status::Done);
    assert!(p.state().error.is_none());
    assert_eq!(p.state().progress.len(), 11);
    let p = p.begin();
    assert_eq!(p.status(), Status::Done);
    let s = p.into_state();
    assert_eq!(s.progress, markers(11));
}

#[test]
fn answers_are_untouched_by_the_run() {
    let before = uefi_auto();
    let (p, _) = run_all(uefi_auto(), "NVIDIA", "[xanmod]", "x86-64-v2");
    let after = p.into_state();
    assert_eq!(after.username, before.username);
    assert_eq!(after.password, before.password);
    assert_eq!(after.root_password, before.root_password);
    assert_eq!(after.hostname, before.hostname);
    assert_eq!(after.disk, before.disk);
    assert_eq!(after.edition, before.edition);
    assert_eq!(after.branch, before.branch);
    assert_eq!(after.filesystem, before.filesystem);
    assert_eq!(after.partition_mode, before.partition_mode);
    assert_eq!(after.firmware, before.firmware);
    assert_eq!(after.step, Step::Installing);
}

#[test]
fn gpu_phase_installs_driver_of_detected_vendor() {
    let (p, issued) = run_all(uefi_auto(), "VGA: Intel\n3D: NVIDIA", "", "");
    assert_eq!(p.gpu(), Some(GpuVendor::Nvidia));
    let all = ops(&issued);
    let at = all.iter().position(|o| *o == Operation::EnumerateHardware).unwrap();
    assert_eq!(all[at + 1], Operation::InstallGpuDriver(GpuVendor::Nvidia));
    assert_eq!(all[at + 2], Operation::ReadKernelMarker);
    assert_eq!(
        issued[at + 1].args,
        vec![
            "apt",
            "install",
            "-y",
            "nvidia-driver",
            "nvidia-kernel-dkms",
            "nvidia-smi",
            "libnvidia-ml1",
            "nvidia-settings",
            "nvidia-cuda-mps"
        ]
    );
    assert_eq!(issued[at].args, vec!["lspci"]);
    assert_eq!(issued[at].target_root, None);
}

#[test]
fn xanmod_marker_with_v2_and_v3_selects_v3() {
    let (p, issued) = run_all(uefi_auto(), "", "[xanmod]\n", "x86-64-v2 x86-64-v3");
    assert_eq!(p.status(), Status::Done);
    assert_eq!(p.kernel(), Some(KernelFamily::Xanmod));
    assert_eq!(p.microarch(), Some(MicroarchLevel::V3));
    let all = ops(&issued);
    let at = all.iter().position(|o| *o == Operation::ReadKernelMarker).unwrap();
    assert_eq!(
        &all[at..at + 10],
        &[
            Operation::ReadKernelMarker,
            Operation::FetchMicroarch,
            Operation::ReadMicroarch,
            Operation::AddXanmodKey,
            Operation::AddXanmodSource,
            Operation::RefreshPackages,
            Operation::InstallXanmod(MicroarchLevel::V3),
            Operation::RemoveDefaultKernel,
            Operation::UpdateBootConfig,
            Operation::InstallBootloader,
        ]
    );
    assert_eq!(issued[at + 6].args, vec!["apt", "install", "-y", "linux-xanmod-lts-x64v3"]);
    assert_eq!(issued[at].action, Action::ReadIfPresent);
    assert_eq!(issued[at].args, vec!["/mnt/usr/share/HackerOS/Archived/kernel.hacker"]);
}

#[test]
fn liquorix_marker_installs_liquorix() {
    let (p, issued) = run_all(uefi_auto(), "", "[liquorix]", "");
    assert_eq!(p.kernel(), Some(KernelFamily::Liquorix));
    let all = ops(&issued);
    let at = all.iter().position(|o| *o == Operation::ReadKernelMarker).unwrap();
    assert_eq!(
        &all[at + 1..at + 5],
        &[
            Operation::InstallLiquorix,
            Operation::RemoveDefaultKernel,
            Operation::UpdateBootConfig,
            Operation::InstallBootloader,
        ]
    );
    assert_eq!(p.state().progress, markers(11));
}

#[test]
fn undetermined_descriptor_defaults_to_highest_level() {
    let (p, issued) = run_all(uefi_auto(), "", "[xanmod]", "");
    assert_eq!(p.microarch(), Some(MicroarchLevel::V3));
    assert!(ops(&issued).contains(&Operation::InstallXanmod(MicroarchLevel::V3)));
}

#[test]
fn every_refusal_has_its_input() {
    let good = uefi_auto;
    assert_eq!(check(&good()), None);

    let mut s = good();
    s.step = Step::Summary;
    assert_eq!(check(&s), Some(Refusal::NotConfirmed));
    let mut s = good();
    s.progress.push(String::from("old"));
    assert_eq!(check(&s), Some(Refusal::AlreadyRun));
    let mut s = good();
    s.error = Some(String::from("old"));
    assert_eq!(check(&s), Some(Refusal::AlreadyRun));
    let mut s = good();
    s.username.clear();
    assert_eq!(check(&s), Some(Refusal::MissingUsername));
    let mut s = good();
    s.password.clear();
    assert_eq!(check(&s), Some(Refusal::MissingPassword));
    let mut s = good();
    s.root_password.clear();
    assert_eq!(check(&s), Some(Refusal::MissingRootPassword));
    let mut s = good();
    s.hostname.clear();
    assert_eq!(check(&s), Some(Refusal::MissingHostname));
    let mut s = good();
    s.disk.clear();
    assert_eq!(check(&s), Some(Refusal::MissingDisk));
    let mut s = good();
    s.edition = None;
    assert_eq!(check(&s), Some(Refusal::MissingEdition));
    let mut s = good();
    s.branch = None;
    assert_eq!(check(&s), Some(Refusal::MissingBranch));
    let mut s = good();
    s.filesystem = None;
    assert_eq!(check(&s), Some(Refusal::MissingFilesystem));
    let mut s = good();
    s.edition = Some(Edition::Atomic);
    s.filesystem = Some(Filesystem::Ext4);
    assert_eq!(check(&s), Some(Refusal::FilesystemMismatch));
    s.filesystem = Some(Filesystem::Btrfs);
    assert_eq!(check(&s), None);
    let mut s = good();
    s.username.clear();
    s.disk.clear();
    assert_eq!(check(&s), Some(Refusal::MissingUsername));
}

#[test]
fn unfit_state_fails_before_the_first_phase() {
    let mut s = uefi_auto();
    s.filesystem = None;
    let p = Pipeline::new(s).begin();
    assert_eq!(p.status(), Status::Failed(None));
    assert_eq!(p.state().error, Some(String::from("No filesystem was chosen.")));
    assert!(p.state().progress.is_empty());
    assert!(p.next_request().is_none());
    let p = p.record(ok(""));
    assert_eq!(p.status(), Status::Failed(None));
}

#[test]
fn refusals_are_described() {
    assert_eq!(Refusal::NotConfirmed.description(), "The summary has not been confirmed.");
    assert_eq!(Refusal::MissingDisk.description(), "No target disk was given.");
    assert_eq!(
        Refusal::FilesystemMismatch.description(),
        "The filesystem is not the one the edition requires."
    );
}

#[test]
fn failure_text_joins_arguments() {
    let args = vec![String::from("mount"), String::from("/dev/sda2"), String::from("/mnt")];
    assert_eq!(join(&args), "mount /dev/sda2 /mnt");
    assert_eq!(join(&vec![String::from("lspci")]), "lspci");
    assert_eq!(join(&Vec::new()), "");
    assert_eq!(describe_failure(&args, ""), "Command failed: mount /dev/sda2 /mnt");
    assert_eq!(
        describe_failure(&args, "no such device"),
        "Command failed: mount /dev/sda2 /mnt: no such device"
    );
}

#[test]
fn cleanup_unbinds_in_reverse_of_binding() {
    let s = uefi_auto();
    let bound: Vec<VirtualFs> = phase_operations(Phase::BindVirtual, &s)
        .into_iter()
        .filter_map(|o| match o {
            Operation::Bind(v) => Some(v),
            _ => None,
        })
        .collect();
    let unbound: Vec<VirtualFs> = phase_operations(Phase::Cleanup, &s)
        .into_iter()
        .filter_map(|o| match o {
            Operation::Unbind(v) => Some(v),
            _ => None,
        })
        .collect();
    let mut reversed = bound.clone();
    reversed.reverse();
    assert_eq!(bound.len(), 5);
    assert_eq!(unbound, reversed);
    let cleanup = phase_operations(Phase::Cleanup, &s);
    assert_eq!(&cleanup[5..], &[Operation::UnmountEfi, Operation::UnmountRoot]);
}

#[test]
fn phases_follow_each_other() {
    for (i, phase) in PHASES.iter().enumerate() {
        assert_eq!(phase.position(), i);
        if i + 1 < PHASES.len() {
            assert_eq!(phase.next(), Some(PHASES[i + 1]));
        } else {
            assert_eq!(phase.next(), None);
        }
    }
    assert_eq!(Phase::Partition.marker(), "Disk partitioned.");
    assert_eq!(Phase::Cleanup.marker(), "Installation finalized.");
}

#[test]
fn copy_live_policy_copies_and_skips_base_packages() {
    let mut s = uefi_auto();
    s.populate = PopulatePolicy::CopyLive;
    assert_eq!(phase_operations(Phase::Populate, &s), vec![Operation::CopyLiveSystem]);
    let configure = phase_operations(Phase::Configure, &s);
    assert_eq!(configure[0], Operation::WriteLocale);
    assert_eq!(configure.len(), 9);
    s.populate = PopulatePolicy::Bootstrap;
    let configure = phase_operations(Phase::Configure, &s);
    assert_eq!(configure[0], Operation::RefreshPackages);
    assert_eq!(configure.len(), 11);
}

#[test]
fn editions_have_independent_operation_lists() {
    let mut s = uefi_auto();
    s.edition = Some(Edition::Hydra);
    assert_eq!(
        phase_operations(Phase::Desktop, &s),
        vec![
            Operation::CopyOverlay,
            Operation::InstallDesktop(Edition::Hydra),
            Operation::CloneTheme,
            Operation::CopyTheme,
            Operation::RemoveThemeClone,
        ]
    );
    s.edition = Some(Edition::Blue);
    let blue = phase_operations(Phase::Desktop, &s);
    assert_eq!(blue.len(), 18);
    assert_eq!(blue[2], Operation::Download(Asset::BlueWm));
    assert_eq!(blue[3], Operation::MakeExecutable(Asset::BlueWm));
    assert_eq!(blue[17], Operation::InstallDesktop(Edition::Blue));
    s.edition = Some(Edition::Atomic);
    let atomic = phase_operations(Phase::Desktop, &s);
    assert_eq!(atomic.len(), 14);
    assert_eq!(atomic[13], Operation::HammerSetup);
    s.edition = Some(Edition::Wayfire);
    assert_eq!(
        phase_operations(Phase::Desktop, &s),
        vec![Operation::CopyOverlay, Operation::InstallDesktop(Edition::Wayfire)]
    );
}

#[test]
fn follow_ups_depend_on_output() {
    assert_eq!(
        follow_up_operations(Operation::EnumerateHardware, "AMD"),
        vec![Operation::InstallGpuDriver(GpuVendor::Amd)]
    );
    assert!(follow_up_operations(Operation::EnumerateHardware, "none").is_empty());
    assert!(follow_up_operations(Operation::ReadKernelMarker, "").is_empty());
    assert!(follow_up_operations(Operation::MountRoot, "NVIDIA [xanmod]").is_empty());
    assert_eq!(
        follow_up_operations(Operation::ReadMicroarch, "x86-64-v2")[3],
        Operation::InstallXanmod(MicroarchLevel::V2)
    );
}

#[test]
fn longest_run_issues_seventy_requests() {
    let state = ready(Firmware::Uefi, PartitionMode::Automatic, Edition::Blue, Filesystem::Ext4);
    let (p, issued) = run_all(state, "NVIDIA", "[xanmod]", "x86-64-v3");
    assert_eq!(p.status(), Status::Done);
    assert_eq!(issued.len(), 70);
}

#[test]
fn shortest_run_is_well_below_the_bound() {
    let mut state = ready(Firmware::Bios, PartitionMode::Manual, Edition::Gnome, Filesystem::Ext4);
    state.populate = PopulatePolicy::CopyLive;
    let (p, issued) = run_all(state, "", "", "");
    assert_eq!(p.status(), Status::Done);
    assert_eq!(issued.len(), 1 + 1 + 2 + 1 + 10 + 9 + 2 + 1 + 1 + 2 + 6);
}

#[test]
fn state_delivered_by_the_wizard_is_accepted() {
    let mut s = InstallerState::new(Firmware::Bios, PopulatePolicy::CopyLive);
    let script: Vec<(&str, usize)> = vec![
        ("", 0),
        ("alice", 0),
        ("pw", 0),
        ("rootpw", 0),
        ("", 7),
        ("", 1),
        ("", 0),
        ("/dev/sdb", 0),
        ("", 0),
        ("", 1),
        ("", 0),
        ("", 0),
    ];
    for (text, index) in script {
        for c in text.chars() {
            s = s.transition(Event::Char(c));
        }
        for _ in 0..index {
            s = s.transition(Event::Down);
        }
        s = s.transition(Event::Confirm);
    }
    assert_eq!(s.step, Step::Installing);
    assert_eq!(check(&s), None);
    let p = Pipeline::new(s).begin();
    assert_eq!(p.status(), Status::Running(Phase::Partition));
    assert_eq!(p.state().filesystem, Some(Filesystem::Btrfs));
    assert_eq!(p.state().branch, Some(Branch::Testing));
    assert_eq!(p.state().hostname, "hackeros");
    let req = p.next_request().unwrap();
    assert_eq!(req.args, vec!["parted", "-s", "/dev/sdb", "mklabel", "msdos"]);
}

#[test]
fn summary_not_confirmed_is_turned_down() {
    let mut s = uefi_auto();
    s.step = Step::Summary;
    let p = Pipeline::new(s).begin();
    assert_eq!(p.status(), Status::Failed(None));
    assert_eq!(p.state().error, Some(String::from("The summary has not been confirmed.")));
}
