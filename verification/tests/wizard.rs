use hackeros_installer::model::{Edition, Filesystem, Firmware, PopulatePolicy, Step};
use hackeros_installer::wizard::{Event, InstallerState};

fn fresh() -> InstallerState {
    InstallerState::new(Firmware::Uefi, PopulatePolicy::CopyLive)
}

fn type_text(mut s: InstallerState, text: &str) -> InstallerState {
    for c in text.chars() {
        s = s.transition(Event::Char(c));
    }
    s
}

#[test]
fn new_state_has_defaults() {
    let s = fresh();
    assert_eq!(s.step, Step::Welcome);
    assert_eq!(s.hostname, "hackeros");
    assert_eq!(s.username, "");
    assert_eq!(s.cursor, 0);
    assert!(s.progress.is_empty());
    assert!(s.error.is_none());
    assert_eq!(s.filesystem, None);
    assert_eq!(s.edition, None);
}

#[test]
fn confirm_on_empty_username_is_ignored() {
    let s = fresh().transition(Event::Confirm);
    assert_eq!(s.step, Step::Username);
    let s = s.transition(Event::Confirm);
    assert_eq!(s.step, Step::Username);
    assert_eq!(s.username, "");
}

#[test]
fn typed_username_is_committed() {
    let s = fresh().transition(Event::Confirm);
    let s = type_text(s, "alicx");
    let s = s.transition(Event::Backspace);
    let s = s.transition(Event::Char('e'));
    assert_eq!(s.input, "alice");
    let s = s.transition(Event::Confirm);
    assert_eq!(s.step, Step::Password);
    assert_eq!(s.username, "alice");
    assert_eq!(s.input, "");
}

#[test]
fn atomic_sets_btrfs_and_skips_filesystem_step() {
    let mut s = fresh().transition(Event::Confirm);
    s = type_text(s, "u").transition(Event::Confirm);
    s = type_text(s, "p").transition(Event::Confirm);
    s = type_text(s, "r").transition(Event::Confirm);
    assert_eq!(s.step, Step::Edition);
    for _ in 0..7 {
        s = s.transition(Event::Down);
    }
    assert_eq!(s.cursor, 7);
    s = s.transition(Event::Confirm);
    assert_eq!(s.edition, Some(Edition::Atomic));
    assert_eq!(s.filesystem, Some(Filesystem::Btrfs));
    assert_eq!(s.step, Step::Branch);
    s = s.transition(Event::Confirm);
    assert_eq!(s.step, Step::PartitionMode);
}

fn confirm_text(s: InstallerState, text: &str) -> InstallerState {
    type_text(s, text).transition(Event::Confirm)
}

fn pick(mut s: InstallerState, index: usize) -> InstallerState {
    for _ in 0..index {
        s = s.transition(Event::Down);
    }
    s.transition(Event::Confirm)
}

#[test]
fn full_walk_takes_twelve_confirms_without_skip() {
    let mut s = fresh();
    let mut confirms = 0;
    let mut last = 0;
    let script: Vec<(&str, usize)> = vec![
        ("", 0),
        ("alice", 0),
        ("pw", 0),
        ("rootpw", 0),
        ("", 1),
        ("", 2),
        ("", 1),
        ("", 1),
        ("/dev/sda", 0),
        ("box", 0),
        ("", 2),
        ("", 1),
    ];
    for (text, index) in script {
        s = type_text(s, text);
        s = pick(s, index);
        confirms += 1;
        assert!(s.step.position() > last);
        last = s.step.position();
    }
    assert_eq!(confirms, 12);
    assert_eq!(s.step, Step::Summary);
    assert_eq!(s.username, "alice");
    assert_eq!(s.password, "pw");
    assert_eq!(s.root_password, "rootpw");
    assert_eq!(s.edition, Some(Edition::Gnome));
    assert_eq!(s.branch, Some(hackeros_installer::model::Branch::Unstable));
    assert_eq!(s.filesystem, Some(Filesystem::Ext4));
    assert_eq!(s.partition_mode, hackeros_installer::model::PartitionMode::Manual);
    assert_eq!(s.disk, "/dev/sda");
    assert_eq!(s.hostname, "box");
    assert_eq!(s.timezone, hackeros_installer::model::Timezone::Warsaw);
    assert_eq!(s.locale, hackeros_installer::model::Locale::PlPl);
    let s = s.transition(Event::Confirm);
    assert_eq!(s.step, Step::Installing);
}

#[test]
fn full_walk_takes_eleven_confirms_with_skip() {
    let mut s = fresh();
    let script: Vec<(&str, usize)> = vec![
        ("", 0),
        ("alice", 0),
        ("pw", 0),
        ("rootpw", 0),
        ("", 7),
        ("", 0),
        ("", 0),
        ("/dev/vda", 0),
        ("", 0),
        ("", 0),
        ("", 0),
    ];
    let mut seen_filesystem_step = false;
    let mut confirms = 0;
    for (text, index) in script {
        s = type_text(s, text);
        s = pick(s, index);
        confirms += 1;
        if s.step == Step::Filesystem {
            seen_filesystem_step = true;
        }
    }
    assert_eq!(confirms, 11);
    assert_eq!(s.step, Step::Summary);
    assert!(!seen_filesystem_step);
    assert_eq!(s.filesystem, Some(Filesystem::Btrfs));
    assert_eq!(s.hostname, "hackeros");
}

#[test]
fn cursor_is_clamped_at_both_ends() {
    let mut s = fresh().transition(Event::Confirm);
    s = confirm_text(s, "u");
    s = confirm_text(s, "p");
    s = confirm_text(s, "r");
    assert_eq!(s.step, Step::Edition);
    s = s.transition(Event::Up);
    assert_eq!(s.cursor, 0);
    for _ in 0..100 {
        s = s.transition(Event::Down);
        assert!(s.cursor < 8);
    }
    assert_eq!(s.cursor, 7);
    for _ in 0..100 {
        s = s.transition(Event::Up);
    }
    assert_eq!(s.cursor, 0);
    s = s.transition(Event::Down);
    assert_eq!(s.cursor, 1);
    s = s.transition(Event::Confirm);
    assert_eq!(s.step, Step::Branch);
    assert_eq!(s.cursor, 0);
    for _ in 0..10 {
        s = s.transition(Event::Down);
    }
    assert_eq!(s.cursor, 2);
}

#[test]
fn arrows_do_nothing_outside_lists() {
    let s = fresh().transition(Event::Confirm);
    let s = s.transition(Event::Down).transition(Event::Down).transition(Event::Up);
    assert_eq!(s.step, Step::Username);
    assert_eq!(s.cursor, 0);
}

#[test]
fn cancel_discards_buffer_and_keeps_step() {
    let s = fresh().transition(Event::Confirm);
    let s = type_text(s, "half");
    assert_eq!(s.input, "half");
    let s = s.transition(Event::Cancel);
    assert_eq!(s.input, "");
    assert_eq!(s.step, Step::Username);
    assert_eq!(s.username, "");
}

#[test]
fn cancel_keeps_committed_answers() {
    let s = fresh().transition(Event::Confirm);
    let s = confirm_text(s, "alice");
    let s = type_text(s, "pw").transition(Event::Cancel);
    assert_eq!(s.username, "alice");
    assert_eq!(s.step, Step::Password);
    assert_eq!(s.password, "");
}

#[test]
fn backspace_on_empty_buffer_changes_nothing() {
    let s = fresh().transition(Event::Confirm).transition(Event::Backspace);
    assert_eq!(s.input, "");
    assert_eq!(s.step, Step::Username);
}

#[test]
fn control_characters_are_not_taken() {
    let s = fresh().transition(Event::Confirm);
    let s = s.transition(Event::Char('\u{7}')).transition(Event::Char('\n'));
    let s = s.transition(Event::Char('\u{7f}')).transition(Event::Char('\u{9f}'));
    assert_eq!(s.input, "");
    let s = s.transition(Event::Char(' ')).transition(Event::Char('ż')).transition(Event::Char('~'));
    assert_eq!(s.input, " ż~");
    let s = s.transition(Event::Backspace).transition(Event::Backspace);
    assert_eq!(s.input, " ");
}

#[test]
fn characters_are_ignored_on_list_and_plain_steps() {
    let s = fresh().transition(Event::Char('x'));
    assert_eq!(s.input, "");
    assert_eq!(s.step, Step::Welcome);
}

#[test]
fn empty_hostname_falls_back_to_default() {
    let mut s = fresh();
    s.step = Step::Hostname;
    s.hostname = String::from("old");
    let s = s.transition(Event::Confirm);
    assert_eq!(s.hostname, "hackeros");
    assert_eq!(s.step, Step::Timezone);
}

#[test]
fn required_text_steps_turn_down_empty_confirm() {
    for step in [Step::Username, Step::Password, Step::RootPassword, Step::Disk] {
        let mut s = fresh();
        s.step = step;
        let s = s.transition(Event::Confirm);
        assert_eq!(s.step, step);
        assert!(s.error.is_none());
    }
}

#[test]
fn installing_takes_no_input() {
    let mut s = fresh();
    s.step = Step::Installing;
    for e in [Event::Char('a'), Event::Backspace, Event::Up, Event::Down, Event::Confirm, Event::Cancel] {
        s = s.transition(e);
        assert_eq!(s.step, Step::Installing);
        assert_eq!(s.input, "");
        assert_eq!(s.cursor, 0);
    }
}

#[test]
fn out_of_range_cursor_confirm_is_ignored() {
    let mut s = fresh();
    s.step = Step::Branch;
    s.cursor = 9;
    let s = s.transition(Event::Confirm);
    assert_eq!(s.step, Step::Branch);
    assert_eq!(s.branch, None);
}

#[test]
fn password_input_is_masked_in_snapshot() {
    let mut s = fresh();
    s.step = Step::Password;
    let s = type_text(s, "s3cret");
    assert_eq!(s.display_input(), "******");
    let snap = s.snapshot();
    assert_eq!(snap.shown_input, "******");
    assert_eq!(snap.step, Step::Password);
    let mut t = fresh();
    t.step = Step::Disk;
    let t = type_text(t, "/dev/sdb");
    assert_eq!(t.display_input(), "/dev/sdb");
}

#[test]
fn snapshot_copies_visible_fields() {
    let mut s = fresh();
    s.username = String::from("alice");
    s.password = String::from("secret");
    s.progress = vec![String::from("one"), String::from("two")];
    s.error = Some(String::from("boom"));
    s.cursor = 0;
    let snap = s.snapshot();
    assert_eq!(snap.username, "alice");
    assert_eq!(snap.hostname, "hackeros");
    assert_eq!(snap.progress, vec![String::from("one"), String::from("two")]);
    assert_eq!(snap.error, Some(String::from("boom")));
    assert_eq!(snap.firmware, Firmware::Uefi);
    assert!(!format!("{:?}", snap).contains("secret"));
}

#[test]
fn step_positions_follow_the_order() {
    let order = [
        Step::Welcome,
        Step::Username,
        Step::Password,
        Step::RootPassword,
        Step::Edition,
        Step::Branch,
        Step::Filesystem,
        Step::PartitionMode,
        Step::Disk,
        Step::Hostname,
        Step::Timezone,
        Step::Locale,
        Step::Summary,
        Step::Installing,
    ];
    for (i, step) in order.iter().enumerate() {
        assert_eq!(step.position(), i);
    }
    assert_eq!(Step::Edition.item_count(), 8);
    assert_eq!(Step::Branch.item_count(), 3);
    assert_eq!(Step::Filesystem.item_count(), 3);
    assert_eq!(Step::PartitionMode.item_count(), 2);
    assert_eq!(Step::Timezone.item_count(), 3);
    assert_eq!(Step::Locale.item_count(), 2);
    assert_eq!(Step::Welcome.item_count(), 1);
    assert_eq!(Step::Branch.next(Some(Edition::Atomic)), Step::PartitionMode);
    assert_eq!(Step::Branch.next(Some(Edition::Gnome)), Step::Filesystem);
    assert_eq!(Step::Branch.next(None), Step::Filesystem);
}
