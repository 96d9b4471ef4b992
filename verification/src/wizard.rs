//! The wizard: which answer is collected at which step, and what each key
//! does to the installer's state.

use vstd::prelude::*;
use vstd::string::*;
use crate::model::{
    Branch, Edition, Filesystem, Firmware, Locale, PartitionMode, PopulatePolicy, Step, Timezone,
};

verus! {

/// One discrete input from the operator.
#[derive(Clone, Copy, Debug, PartialEq, Eq)]
pub enum Event {
    Char(char),
    Backspace,
    Up,
    Down,
    Confirm,
    Cancel,
}

/// Everything the installer knows: the wizard's position, the answers given
/// so far, what was found out about the machine, and the record of the run.
/// It holds the passwords and so has no printable form; see [`Snapshot`].
#[derive(Clone)]
pub struct InstallerState {
    pub step: Step,
    /// Text typed at the current step and not yet confirmed.
    pub input: String,
    /// Highlighted entry of the current list.
    pub cursor: usize,
    pub username: String,
    pub password: String,
    pub root_password: String,
    pub hostname: String,
    pub disk: String,
    pub locale: Locale,
    pub timezone: Timezone,
    pub filesystem: Option<Filesystem>,
    pub partition_mode: PartitionMode,
    pub edition: Option<Edition>,
    pub branch: Option<Branch>,
    pub firmware: Firmware,
    pub populate: PopulatePolicy,
    /// One line per finished phase, oldest first.
    pub progress: Vec<String>,
    /// Why the run stopped, if it did.
    pub error: Option<String>,
}

/// Mathematical content of an [`InstallerState`].
pub ghost struct StateView {
    pub step: Step,
    pub input: Seq<char>,
    pub cursor: nat,
    pub username: Seq<char>,
    pub password: Seq<char>,
    pub root_password: Seq<char>,
    pub hostname: Seq<char>,
    pub disk: Seq<char>,
    pub locale: Locale,
    pub timezone: Timezone,
    pub filesystem: Option<Filesystem>,
    pub partition_mode: PartitionMode,
    pub edition: Option<Edition>,
    pub branch: Option<Branch>,
    pub firmware: Firmware,
    pub populate: PopulatePolicy,
    pub progress: Seq<Seq<char>>,
    pub error: Option<Seq<char>>,
}

/// Content of an optional string.
pub open spec fn text_of(o: Option<String>) -> Option<Seq<char>> {
    match o {
        Some(s) => Some(s@),
        None => None,
    }
}

impl View for InstallerState {
    type V = StateView;

    open spec fn view(&self) -> StateView {
        StateView {
            step: self.step,
            input: self.input@,
            cursor: self.cursor as nat,
            username: self.username@,
            password: self.password@,
            root_password: self.root_password@,
            hostname: self.hostname@,
            disk: self.disk@,
            locale: self.locale,
            timezone: self.timezone,
            filesystem: self.filesystem,
            partition_mode: self.partition_mode,
            edition: self.edition,
            branch: self.branch,
            firmware: self.firmware,
            populate: self.populate,
            progress: self.progress.deep_view(),
            error: text_of(self.error),
        }
    }
}

/// Characters a text field accepts: everything but control characters.
pub open spec fn printable(c: char) -> bool {
    !(c as u32 <= 0x1f || (0x7f <= c as u32 && c as u32 <= 0x9f))
}

pub fn is_printable(c: char) -> (b: bool)
    ensures
        b == printable(c),
{
    let u: u32 = c as u32;
    !(u <= 0x1f || (0x7f <= u && u <= 0x9f))
}

/// `String::push` of the standard library appends exactly the given
/// character and leaves what was there before untouched.
pub assume_specification[ String::push ](s: &mut String, c: char)
    ensures
        final(s)@ == old(s)@.push(c),
;

impl StateView {
    /// The state on arrival at `step`: nothing typed, first entry lit.
    pub open spec fn enter(self, step: Step) -> StateView {
        StateView { step, input: Seq::empty(), cursor: 0, ..self }
    }

    /// The filesystem after `e` was chosen.
    pub open spec fn filesystem_with(self, e: Edition) -> Option<Filesystem> {
        if e.mandate() is Some {
            e.mandate()
        } else {
            self.filesystem
        }
    }

    /// Whether a confirm at this point is taken up. A required text that
    /// is empty and a cursor that points at nothing are turned down.
    pub open spec fn confirm_accepted(self) -> bool {
        match self.step {
            Step::Welcome | Step::Summary | Step::Hostname => true,
            Step::Username | Step::Password | Step::RootPassword | Step::Disk => self.input.len()
                > 0,
            Step::Edition => Edition::at(self.cursor as int) is Some,
            Step::Branch => Branch::at(self.cursor as int) is Some,
            Step::Filesystem => (self.edition is Some && self.edition->0.mandate() is Some)
                || Filesystem::at(self.cursor as int) is Some,
            Step::PartitionMode => PartitionMode::at(self.cursor as int) is Some,
            Step::Timezone => Timezone::at(self.cursor as int) is Some,
            Step::Locale => Locale::at(self.cursor as int) is Some,
            Step::Installing => false,
        }
    }

    /// The answer of the current step written into its field.
    pub open spec fn committed(self) -> StateView {
        match self.step {
            Step::Username => StateView { username: self.input, ..self },
            Step::Password => StateView { password: self.input, ..self },
            Step::RootPassword => StateView { root_password: self.input, ..self },
            Step::Disk => StateView { disk: self.input, ..self },
            Step::Hostname => StateView {
                hostname: if self.input.len() == 0 {
                    "hackeros"@
                } else {
                    self.input
                },
                ..self
            },
            Step::Edition => StateView {
                edition: Edition::at(self.cursor as int),
                filesystem: self.filesystem_with(Edition::at(self.cursor as int)->0),
                ..self
            },
            Step::Branch => StateView { branch: Branch::at(self.cursor as int), ..self },
            Step::Filesystem => StateView {
                filesystem: if self.edition is Some && self.edition->0.mandate() is Some {
                    self.edition->0.mandate()
                } else {
                    Filesystem::at(self.cursor as int)
                },
                ..self
            },
            Step::PartitionMode => StateView {
                partition_mode: PartitionMode::at(self.cursor as int)->0,
                ..self
            },
            Step::Timezone => StateView { timezone: Timezone::at(self.cursor as int)->0, ..self },
            Step::Locale => StateView { locale: Locale::at(self.cursor as int)->0, ..self },
            _ => self,
        }
    }

    /// Effect of a confirm: an accepted one commits the answer and moves
    /// on, any other changes nothing.
    pub open spec fn confirm(self) -> StateView {
        if self.confirm_accepted() {
            let done = self.committed();
            done.enter(self.step.following(done.edition))
        } else {
            self
        }
    }

    /// Effect of one event.
    pub open spec fn after(self, e: Event) -> StateView {
        if self.step == Step::Installing {
            self
        } else {
            match e {
                Event::Char(c) => if self.step.is_text() && printable(c) {
                    StateView { input: self.input.push(c), ..self }
                } else {
                    self
                },
                Event::Backspace => if self.step.is_text() && self.input.len() > 0 {
                    StateView { input: self.input.drop_last(), ..self }
                } else {
                    self
                },
                Event::Up => if self.step.is_list() && self.cursor > 0 {
                    StateView { cursor: (self.cursor - 1) as nat, ..self }
                } else {
                    self
                },
                Event::Down => if self.step.is_list() && self.cursor + 1 < self.step.items() {
                    StateView { cursor: self.cursor + 1, ..self }
                } else {
                    self
                },
                Event::Cancel => if self.step.is_text() {
                    StateView { input: Seq::empty(), ..self }
                } else {
                    self
                },
                Event::Confirm => self.confirm(),
            }
        }
    }

    /// The cursor rests on an entry of the current step.
    pub open spec fn cursor_in_range(self) -> bool {
        self.cursor < self.step.items()
    }
}

/// The state at process start: at the welcome step, nothing answered, the
/// stock host name, zone and locale, nothing logged.
pub open spec fn initial_view(firmware: Firmware, populate: PopulatePolicy) -> StateView {
    StateView {
        step: Step::Welcome,
        input: Seq::empty(),
        cursor: 0,
        username: Seq::empty(),
        password: Seq::empty(),
        root_password: Seq::empty(),
        hostname: "hackeros"@,
        disk: Seq::empty(),
        locale: Locale::EnUs,
        timezone: Timezone::Utc,
        filesystem: None,
        partition_mode: PartitionMode::Automatic,
        edition: None,
        branch: None,
        firmware,
        populate,
        progress: Seq::empty(),
        error: None,
    }
}

impl InstallerState {
    /// The state at process start: at the welcome step, nothing answered,
    /// the stock host name, zone and locale, nothing logged.
    pub fn new(firmware: Firmware, populate: PopulatePolicy) -> (s: InstallerState)
        ensures
            s@ == initial_view(firmware, populate),
    {
        let s = InstallerState {
            step: Step::Welcome,
            input: String::new(),
            cursor: 0,
            username: String::new(),
            password: String::new(),
            root_password: String::new(),
            hostname: String::from_str("hackeros"),
            disk: String::new(),
            locale: Locale::EnUs,
            timezone: Timezone::Utc,
            filesystem: None,
            partition_mode: PartitionMode::Automatic,
            edition: None,
            branch: None,
            firmware,
            populate,
            progress: Vec::new(),
            error: None,
        };
        assert(s.progress.deep_view() =~= Seq::empty());
        s
    }

    /// Moves to `step` with an empty buffer and the cursor on the first
    /// entry.
    fn arrive(self, step: Step) -> (next: InstallerState)
        ensures
            next@ == self@.enter(step),
    {
        let mut s = self;
        s.step = step;
        s.input = String::new();
        s.cursor = 0;
        s
    }

    /// Handles a confirm on one of the text steps.
    fn confirm_text(self) -> (next: InstallerState)
        requires
            self.step.is_text(),
        ensures
            next@ == self@.confirm(),
    {
        let mut s = self;
        let empty: bool = s.input.as_str().unicode_len() == 0;
        match s.step {
            Step::Hostname => {
                if empty {
                    s.hostname = String::from_str("hackeros");
                } else {
                    s.hostname = s.input.clone();
                }
            },
            _ => {
                if empty {
                    return s;
                }
                match s.step {
                    Step::Username => {
                        s.username = s.input.clone();
                    },
                    Step::Password => {
                        s.password = s.input.clone();
                    },
                    Step::RootPassword => {
                        s.root_password = s.input.clone();
                    },
                    _ => {
                        s.disk = s.input.clone();
                    },
                }
            },
        }
        let next: Step = s.step.next(s.edition);
        s.arrive(next)
    }

    /// Handles a confirm on one of the list steps.
    fn confirm_choice(self) -> (next: InstallerState)
        requires
            self.step.is_list(),
        ensures
            next@ == self@.confirm(),
    {
        let mut s = self;
        match s.step {
            Step::Edition => {
                match Edition::from_index(s.cursor) {
                    Some(e) => {
                        s.edition = Some(e);
                        let forced: Option<Filesystem> = e.mandated_filesystem();
                        if forced.is_some() {
                            s.filesystem = forced;
                        }
                    },
                    None => {
                        return s;
                    },
                }
            },
            Step::Branch => {
                match Branch::from_index(s.cursor) {
                    Some(b) => {
                        s.branch = Some(b);
                    },
                    None => {
                        return s;
                    },
                }
            },
            Step::Filesystem => {
                let forced: Option<Filesystem> = match s.edition {
                    Some(e) => e.mandated_filesystem(),
                    None => None,
                };
                if forced.is_some() {
                    s.filesystem = forced;
                } else {
                    match Filesystem::from_index(s.cursor) {
                        Some(f) => {
                            s.filesystem = Some(f);
                        },
                        None => {
                            return s;
                        },
                    }
                }
            },
            Step::PartitionMode => {
                match PartitionMode::from_index(s.cursor) {
                    Some(m) => {
                        s.partition_mode = m;
                    },
                    None => {
                        return s;
                    },
                }
            },
            Step::Timezone => {
                match Timezone::from_index(s.cursor) {
                    Some(z) => {
                        s.timezone = z;
                    },
                    None => {
                        return s;
                    },
                }
            },
            _ => {
                match Locale::from_index(s.cursor) {
                    Some(l) => {
                        s.locale = l;
                    },
                    None => {
                        return s;
                    },
                }
            },
        }
        let next: Step = s.step.next(s.edition);
        s.arrive(next)
    }

    /// Applies one event to the state and returns the state that follows.
    /// Nothing outside the state is touched; the step never moves back; the
    /// cursor stays on an entry of the list it belongs to.
    pub fn transition(self, event: Event) -> (next: InstallerState)
        ensures
            next@ == self@.after(event),
            next@.step.index() >= self@.step.index(),
            self@.cursor_in_range() ==> next@.cursor_in_range(),
            next@.progress == self@.progress,
            next@.error == self@.error,
    {
        let mut s = self;
        if s.step == Step::Installing {
            return s;
        }
        match event {
            Event::Char(c) => {
                if s.step.takes_text() && is_printable(c) {
                    s.input.push(c);
                }
                s
            },
            Event::Backspace => {
                let n: usize = s.input.as_str().unicode_len();
                if s.step.takes_text() && n > 0 {
                    let shorter: String = String::from_str(
                        s.input.as_str().substring_char(0, n - 1),
                    );
                    s.input = shorter;
                }
                s
            },
            Event::Up => {
                if s.step.shows_list() && s.cursor > 0 {
                    s.cursor = s.cursor - 1;
                }
                s
            },
            Event::Down => {
                if s.step.shows_list() && s.cursor < s.step.item_count() - 1 {
                    s.cursor = s.cursor + 1;
                }
                s
            },
            Event::Cancel => {
                if s.step.takes_text() {
                    s.input = String::new();
                }
                s
            },
            Event::Confirm => {
                if s.step.takes_text() {
                    s.confirm_text()
                } else if s.step.shows_list() {
                    s.confirm_choice()
                } else {
                    let next: Step = s.step.next(s.edition);
                    s.arrive(next)
                }
            },
        }
    }
}

/// The state reached from `s` by the events of `events`, first to last.
pub open spec fn run(s: StateView, events: Seq<Event>) -> StateView
    decreases events.len(),
{
    if events.len() == 0 {
        s
    } else {
        run(s, events.drop_last()).after(events.last())
    }
}

/// 1 where `e` is a confirm that `s` takes up, else 0.
pub open spec fn confirm_taken(s: StateView, e: Event) -> nat {
    if e == Event::Confirm && s.confirm_accepted() {
        1
    } else {
        0
    }
}

/// 1 where `e` makes `s` pass over the filesystem list, else 0.
pub open spec fn step_skipped(s: StateView, e: Event) -> nat {
    if e == Event::Confirm && s.confirm_accepted() && s.step == Step::Branch
        && s.committed().edition is Some && s.committed().edition->0.mandate() is Some {
        1
    } else {
        0
    }
}

/// Number of confirms taken up along `events`, starting in `s`.
pub open spec fn confirms_taken(s: StateView, events: Seq<Event>) -> nat
    decreases events.len(),
{
    if events.len() == 0 {
        0
    } else {
        confirms_taken(s, events.drop_last()) + confirm_taken(
            run(s, events.drop_last()),
            events.last(),
        )
    }
}

/// Number of steps passed over along `events`, starting in `s`.
pub open spec fn steps_skipped(s: StateView, events: Seq<Event>) -> nat
    decreases events.len(),
{
    if events.len() == 0 {
        0
    } else {
        steps_skipped(s, events.drop_last()) + step_skipped(
            run(s, events.drop_last()),
            events.last(),
        )
    }
}

/// One event moves the wizard forward by one step for a confirm that is
/// taken up, by one more where a step is passed over, and not at all
/// otherwise.
pub proof fn lemma_event_advance(s: StateView, e: Event)
    ensures
        s.after(e).step.index() == s.step.index() + confirm_taken(s, e) + step_skipped(s, e),
        s.after(e).step.index() >= s.step.index(),
{
}

/// Whatever the operator types, the step at any moment is no earlier than
/// the step at any earlier moment.
pub proof fn lemma_step_never_moves_back(s: StateView, events: Seq<Event>, i: int, j: int)
    requires
        0 <= i <= j <= events.len(),
    ensures
        run(s, events.take(i)).step.index() <= run(s, events.take(j)).step.index(),
    decreases j - i,
{
    if i < j {
        lemma_step_never_moves_back(s, events, i, j - 1);
        assert(events.take(j).drop_last() =~= events.take(j - 1));
        lemma_event_advance(run(s, events.take(j - 1)), events.take(j).last());
    }
}

/// The distance covered by a series of events is the number of confirms
/// taken up plus the number of steps passed over.
pub proof fn lemma_distance_is_confirms_plus_skips(s: StateView, events: Seq<Event>)
    ensures
        run(s, events).step.index() == s.step.index() + confirms_taken(s, events) + steps_skipped(
            s,
            events,
        ),
        steps_skipped(s, events) <= (if s.step.index() <= Step::Branch.index() {
            1nat
        } else {
            0nat
        }),
        steps_skipped(s, events) == 1 ==> run(s, events).step.index()
            > Step::Filesystem.index(),
    decreases events.len(),
{
    if events.len() > 0 {
        lemma_distance_is_confirms_plus_skips(s, events.drop_last());
        lemma_event_advance(run(s, events.drop_last()), events.last());
    }
}

/// From the welcome step the summary is reached after exactly as many
/// confirms as there are steps before it, less the one step that may be
/// passed over: twelve, or eleven where the edition fixes the filesystem.
pub proof fn lemma_confirms_to_summary(s: StateView, events: Seq<Event>)
    requires
        s.step == Step::Welcome,
        run(s, events).step == Step::Summary,
    ensures
        confirms_taken(s, events) + steps_skipped(s, events) == 12,
        steps_skipped(s, events) <= 1,
        confirms_taken(s, events) <= events.len(),
{
    lemma_distance_is_confirms_plus_skips(s, events);
    lemma_confirms_bounded(s, events);
}

/// Confirms that are taken up always lead on: once twelve have been taken
/// up, less one where a step was passed over, the wizard has reached the
/// summary, wherever it started.
pub proof fn lemma_enough_confirms_reach_summary(s: StateView, events: Seq<Event>)
    requires
        confirms_taken(s, events) + steps_skipped(s, events) >= 12,
    ensures
        run(s, events).step.index() >= Step::Summary.index(),
{
    lemma_distance_is_confirms_plus_skips(s, events);
}

/// No more confirms are taken up than events arrive.
pub proof fn lemma_confirms_bounded(s: StateView, events: Seq<Event>)
    ensures
        confirms_taken(s, events) <= events.len(),
    decreases events.len(),
{
    if events.len() > 0 {
        lemma_confirms_bounded(s, events.drop_last());
    }
}

/// The wizard hands over to the installation at one point only: by a
/// confirm at the summary. No event changes an answer there, and after
/// the handoff no event changes anything.
pub proof fn lemma_handoff_only_from_summary(s: StateView, e: Event)
    ensures
        s.step != Step::Installing && s.after(e).step == Step::Installing ==> s.step
            == Step::Summary && e == Event::Confirm,
        s.step == Step::Summary ==> s.after(e) == s || s.after(e) == s.enter(Step::Installing),
        s.step == Step::Installing ==> s.after(e) == s,
{
}

/// An edition that fixes the filesystem has been chosen, its filesystem is
/// set, and the wizard is past the edition list and not at the filesystem
/// list.
pub open spec fn filesystem_settled(s: StateView, x: Edition) -> bool {
    &&& s.edition == Some(x)
    &&& x.mandate() is Some
    &&& s.filesystem == x.mandate()
    &&& s.step.index() >= Step::Branch.index()
    &&& s.step != Step::Filesystem
}

/// Confirming an edition that fixes the filesystem sets that filesystem at
/// once, and whatever follows, the filesystem list is never shown and the
/// filesystem stays as set.
pub proof fn lemma_mandated_filesystem(s: StateView, x: Edition, events: Seq<Event>)
    requires
        s.step == Step::Edition,
        Edition::at(s.cursor as int) == Some(x),
        x.mandate() is Some,
    ensures
        s.after(Event::Confirm).filesystem == x.mandate(),
        s.after(Event::Confirm).step == Step::Branch,
        run(s.after(Event::Confirm), events).step != Step::Filesystem,
        run(s.after(Event::Confirm), events).filesystem == x.mandate(),
        run(s.after(Event::Confirm), events).edition == Some(x),
{
    lemma_settled_filesystem_stays(s.after(Event::Confirm), x, events);
}

/// Once settled, the filesystem stays settled under every series of events.
pub proof fn lemma_settled_filesystem_stays(s: StateView, x: Edition, events: Seq<Event>)
    requires
        filesystem_settled(s, x),
    ensures
        filesystem_settled(run(s, events), x),
    decreases events.len(),
{
    if events.len() > 0 {
        lemma_settled_filesystem_stays(s, x, events.drop_last());
    }
}

/// A cursor that rests on an entry does so after any series of events.
pub proof fn lemma_cursor_stays_in_range(s: StateView, events: Seq<Event>)
    requires
        s.cursor_in_range(),
    ensures
        run(s, events).cursor_in_range(),
    decreases events.len(),
{
    if events.len() > 0 {
        lemma_cursor_stays_in_range(s, events.drop_last());
    }
}

/// At either end of a list the cursor stays where it is: up on the first
/// entry and down on the last change nothing.
pub proof fn lemma_cursor_stops_at_ends(s: StateView)
    requires
        s.cursor_in_range(),
    ensures
        s.cursor == 0 ==> s.after(Event::Up) == s,
        s.cursor + 1 == s.step.items() ==> s.after(Event::Down) == s,
        s.after(Event::Up).cursor == (if s.step.is_list() && s.step != Step::Installing
            && s.cursor > 0 {
            (s.cursor - 1) as nat
        } else {
            s.cursor
        }),
{
}

/// Cancel throws away what was typed and nothing else; no event but a
/// confirm changes an answer that was already given.
pub proof fn lemma_cancel_discards_buffer(s: StateView)
    ensures
        s.after(Event::Cancel).step == s.step,
        s.step.is_text() ==> s.after(Event::Cancel) == (StateView { input: Seq::empty(), ..s }),
        !s.step.is_text() ==> s.after(Event::Cancel) == s,
{
}

/// What a reader of the state may see: the position, the answers other
/// than the two passwords, the log and the error. What is being typed is
/// shown as typed, or as one asterisk per character at a password step.
#[derive(Clone, Debug)]
pub struct Snapshot {
    pub step: Step,
    pub shown_input: String,
    pub cursor: usize,
    pub username: String,
    pub hostname: String,
    pub disk: String,
    pub locale: Locale,
    pub timezone: Timezone,
    pub filesystem: Option<Filesystem>,
    pub partition_mode: PartitionMode,
    pub edition: Option<Edition>,
    pub branch: Option<Branch>,
    pub firmware: Firmware,
    pub progress: Vec<String>,
    pub error: Option<String>,
}

/// Mathematical content of a [`Snapshot`].
pub ghost struct SnapshotView {
    pub step: Step,
    pub shown_input: Seq<char>,
    pub cursor: nat,
    pub username: Seq<char>,
    pub hostname: Seq<char>,
    pub disk: Seq<char>,
    pub locale: Locale,
    pub timezone: Timezone,
    pub filesystem: Option<Filesystem>,
    pub partition_mode: PartitionMode,
    pub edition: Option<Edition>,
    pub branch: Option<Branch>,
    pub firmware: Firmware,
    pub progress: Seq<Seq<char>>,
    pub error: Option<Seq<char>>,
}

impl View for Snapshot {
    type V = SnapshotView;

    open spec fn view(&self) -> SnapshotView {
        SnapshotView {
            step: self.step,
            shown_input: self.shown_input@,
            cursor: self.cursor as nat,
            username: self.username@,
            hostname: self.hostname@,
            disk: self.disk@,
            locale: self.locale,
            timezone: self.timezone,
            filesystem: self.filesystem,
            partition_mode: self.partition_mode,
            edition: self.edition,
            branch: self.branch,
            firmware: self.firmware,
            progress: self.progress.deep_view(),
            error: text_of(self.error),
        }
    }
}

impl StateView {
    /// The buffer as it may be shown.
    pub open spec fn shown_input(self) -> Seq<char> {
        if self.step.is_secret() {
            Seq::new(self.input.len(), |i: int| '*')
        } else {
            self.input
        }
    }

    /// The part of the state that may be shown.
    pub open spec fn visible(self) -> SnapshotView {
        SnapshotView {
            step: self.step,
            shown_input: self.shown_input(),
            cursor: self.cursor,
            username: self.username,
            hostname: self.hostname,
            disk: self.disk,
            locale: self.locale,
            timezone: self.timezone,
            filesystem: self.filesystem,
            partition_mode: self.partition_mode,
            edition: self.edition,
            branch: self.branch,
            firmware: self.firmware,
            progress: self.progress,
            error: self.error,
        }
    }
}

/// Owned copies of the lines of `lines`.
pub fn copy_lines(lines: &Vec<String>) -> (r: Vec<String>)
    ensures
        r.deep_view() == lines.deep_view(),
{
    let mut r: Vec<String> = Vec::new();
    let mut i: usize = 0;
    while i < lines.len()
        invariant
            i <= lines.len(),
            r.len() == i,
            forall|k: int| 0 <= k < i ==> r@[k]@ == lines@[k]@,
        decreases lines.len() - i,
    {
        r.push(lines[i].clone());
        i = i + 1;
    }
    assert(r.deep_view() =~= lines.deep_view());
    r
}

/// `n` asterisks.
pub fn mask(n: usize) -> (r: String)
    ensures
        r@ == Seq::new(n as nat, |i: int| '*'),
{
    let mut r: String = String::new();
    let mut i: usize = 0;
    while i < n
        invariant
            i <= n,
            r@ == Seq::new(i as nat, |k: int| '*'),
        decreases n - i,
    {
        r.push('*');
        assert(r@ =~= Seq::new((i + 1) as nat, |k: int| '*'));
        i = i + 1;
    }
    r
}

impl InstallerState {
    /// The text to show for what is being typed.
    pub fn display_input(&self) -> (r: String)
        ensures
            r@ == self@.shown_input(),
    {
        if self.step.hides_input() {
            mask(self.input.as_str().unicode_len())
        } else {
            self.input.clone()
        }
    }

    /// A copy of what may be shown of the state. It holds no password.
    pub fn snapshot(&self) -> (r: Snapshot)
        ensures
            r@ == self@.visible(),
    {
        let error: Option<String> = match &self.error {
            Some(e) => Some(e.clone()),
            None => None,
        };
        Snapshot {
            step: self.step,
            shown_input: self.display_input(),
            cursor: self.cursor,
            username: self.username.clone(),
            hostname: self.hostname.clone(),
            disk: self.disk.clone(),
            locale: self.locale,
            timezone: self.timezone,
            filesystem: self.filesystem,
            partition_mode: self.partition_mode,
            edition: self.edition,
            branch: self.branch,
            firmware: self.firmware,
            progress: copy_lines(&self.progress),
            error,
        }
    }
}

/// What is shown of the state does not depend on the passwords, and at a
/// password step not on what is being typed beyond its length.
pub proof fn lemma_snapshot_hides_secrets(
    s: StateView,
    password: Seq<char>,
    root_password: Seq<char>,
    input: Seq<char>,
)
    ensures
        (StateView { password, root_password, ..s }).visible() == s.visible(),
        s.step.is_secret() && input.len() == s.input.len() ==> (StateView { input, ..s }).visible()
            == s.visible(),
{
    if s.step.is_secret() && input.len() == s.input.len() {
        assert((StateView { input, ..s }).shown_input() =~= s.shown_input());
    }
}

} // verus!
