use crate::monitor::storage::StorageV1;
use crate::monitor::update::{
    report_after, retries_after, storage_after, update_character_at, utc_now, Poll, UpdateReport,
};
use vstd::prelude::*;

pub mod changes;
pub mod install;
pub mod load;
pub mod queue;
pub mod rotation;
pub mod storage;
pub mod update;

verus! {

/// How many updates of a character may fail in a row before it is
/// suspended.
pub const SUSPEND_AFTER: u64 = 8;

/// Seconds in which the rotation updates every character once.
pub const ROTATION_SECONDS: u64 = 1800;

/// Nanoseconds in a second.
pub const NANOS_PER_SECOND: u64 = 1_000_000_000;

/// A character in the rotation, with the number of updates that failed
/// since the last one that succeeded.
#[derive(Clone, Copy, Debug, PartialEq, Eq, Structural)]
pub struct Character {
    pub id: u64,
    pub retries: u64,
}

impl Character {
    /// A character stays in the rotation while fewer than `SUSPEND_AFTER`
    /// updates failed in a row.
    pub open spec fn active(&self) -> bool {
        self.retries < SUSPEND_AFTER
    }

    /// A character without failed updates.
    pub fn new(id: u64) -> (character: Character)
        ensures
            character == (Character { id, retries: 0 }),
    {
        Character { id, retries: 0 }
    }
}

/// The rotation: the monitored characters in the order in which they were
/// added, and the place of the one whose turn is next.
pub struct Monitor {
    storage_folder: String,
    eve_character_list: Vec<Character>,
    current_index: usize,
}

/// A `Monitor` as contracts speak of it.
pub struct MonitorView {
    pub storage_folder: Seq<char>,
    pub characters: Seq<Character>,
    pub current_index: int,
}

impl MonitorView {
    /// Every character in the rotation is active, and the cursor stands
    /// on one of them, or at 0 while there is none.
    pub open spec fn wf(self) -> bool {
        &&& forall|i: int| 0 <= i < self.characters.len() ==> (#[trigger] self.characters[i]).active()
        &&& 0 <= self.current_index
        &&& self.current_index < self.characters.len() || self.current_index == 0
    }

    /// Whether the rotation holds a character `id`.
    pub open spec fn has(self, id: u64) -> bool {
        exists|i: int| 0 <= i < self.characters.len() && (#[trigger] self.characters[i]).id == id
    }

    /// The character whose turn is next.
    pub open spec fn current(self) -> Option<Character> {
        if self.characters.len() == 0 {
            None
        } else {
            Some(self.characters[self.current_index])
        }
    }
}

/// True of every character but `id`.
pub open spec fn other_than(id: u64) -> spec_fn(Character) -> bool {
    |character: Character| character.id != id
}

/// The rotation after the character at the cursor came back from its
/// update as `updated`. An active character keeps its place and the
/// cursor moves on, back to the start after the last place. A suspended
/// one leaves, with every entry that bears its id; the cursor then
/// stands on what followed it, or at the start when nothing did.
pub open spec fn after_tick(monitor: MonitorView, updated: Character) -> MonitorView {
    if monitor.characters.len() == 0 {
        monitor
    } else if updated.active() {
        MonitorView {
            characters: monitor.characters.update(monitor.current_index, updated),
            current_index: (monitor.current_index + 1) % (monitor.characters.len() as int),
            ..monitor
        }
    } else {
        let rest = monitor.characters.filter(other_than(updated.id));
        MonitorView {
            characters: rest,
            current_index: if monitor.current_index >= rest.len() {
                0
            } else {
                monitor.current_index
            },
            ..monitor
        }
    }
}

/// The rotation after one turn in which the progress source answered
/// `poll`.
pub open spec fn after_poll(monitor: MonitorView, poll: crate::monitor::update::PollView) -> MonitorView {
    match monitor.current() {
        Some(character) => after_tick(
            monitor,
            Character { id: character.id, retries: retries_after(character.retries, poll) },
        ),
        None => monitor,
    }
}

/// Nanoseconds from the start of one turn to the start of the next, with
/// `list_len` characters in the rotation: the whole seconds that
/// `ROTATION_SECONDS` gives each of them, and all of it while there is
/// none.
pub open spec fn turn_nanos(list_len: nat) -> int {
    if list_len == 0 {
        ROTATION_SECONDS * NANOS_PER_SECOND
    } else {
        (ROTATION_SECONDS as int / list_len as int) * NANOS_PER_SECOND
    }
}

/// Nanoseconds to sleep after a turn that took `elapsed_nanos`: what is
/// left of the turn, and nothing when it took longer.
pub open spec fn sleep_nanos(list_len: nat, elapsed_nanos: int) -> int {
    if elapsed_nanos < turn_nanos(list_len) {
        turn_nanos(list_len) - elapsed_nanos
    } else {
        0
    }
}

impl Monitor {
    pub closed spec fn view(&self) -> MonitorView {
        MonitorView {
            storage_folder: self.storage_folder@,
            characters: self.eve_character_list@,
            current_index: self.current_index as int,
        }
    }

    pub open spec fn wf(&self) -> bool {
        self@.wf()
    }

    /// An empty rotation whose records are kept below `storage_folder`.
    pub fn new(storage_folder: String) -> (monitor: Monitor)
        ensures
            monitor.wf(),
            monitor@ == (MonitorView {
                storage_folder: storage_folder@,
                characters: Seq::empty(),
                current_index: 0,
            }),
    {
        Monitor { storage_folder, eve_character_list: Vec::new(), current_index: 0 }
    }

    /// The folder below which the records are kept.
    pub fn storage_folder(&self) -> (storage_folder: &String)
        ensures
            storage_folder@ == self@.storage_folder,
    {
        &self.storage_folder
    }

    /// How many characters are in the rotation.
    pub fn len(&self) -> (len: usize)
        ensures
            len == self@.characters.len(),
    {
        self.eve_character_list.len()
    }

    /// The place of the character whose turn is next.
    pub fn current_index(&self) -> (current_index: usize)
        ensures
            current_index == self@.current_index,
    {
        self.current_index
    }

    /// The characters in the rotation, in order.
    pub fn characters(&self) -> (characters: Vec<Character>)
        ensures
            characters@ == self@.characters,
    {
        let mut characters: Vec<Character> = Vec::new();
        let mut i: usize = 0;
        while i < self.eve_character_list.len()
            invariant
                i <= self.eve_character_list.len(),
                characters@ == self.eve_character_list@.take(i as int),
            decreases self.eve_character_list.len() - i,
        {
            characters.push(self.eve_character_list[i]);
            assert(characters@ =~= self.eve_character_list@.take(i + 1));
            i += 1;
        }
        assert(self.eve_character_list@.take(self.eve_character_list.len() as int)
            =~= self.eve_character_list@);
        characters
    }

    /// The character whose turn is next; `None` while nobody is monitored.
    pub fn current(&self) -> (character: Option<Character>)
        requires
            self.wf(),
        ensures
            character == self@.current(),
    {
        if self.eve_character_list.len() == 0 {
            None
        } else {
            Some(self.eve_character_list[self.current_index])
        }
    }

    /// One turn of the rotation at time `now`: the character at the cursor
    /// is updated from what the progress source answered, with `storage`
    /// its record; then it keeps its place and the cursor moves on, or it
    /// leaves the rotation because the update suspended it. Nothing
    /// happens, and `None` is returned, while nobody is monitored.
    pub fn run_at(&mut self, storage: &mut StorageV1, poll: Poll, now: i64) -> (report: Option<
        UpdateReport,
    >)
        requires
            old(self).wf(),
        ensures
            final(self).wf(),
            final(self)@ == after_poll(old(self)@, poll@),
            match old(self)@.current() {
                Some(character) => {
                    &&& report matches Some(report)
                    &&& report@ == report_after(old(storage)@, character.retries, poll@, now)
                    &&& final(storage)@ == storage_after(
                        old(storage)@,
                        character.retries,
                        poll@,
                        now,
                    )
                },
                None => report is None && final(storage)@ == old(storage)@,
            },
    {
        if self.eve_character_list.len() == 0 {
            return None;
        }
        let mut character = self.eve_character_list[self.current_index];
        let report = update_character_at(&mut character, storage, poll, now);
        if report.keep {
            self.eve_character_list.set(self.current_index, character);
            self.current_index = (self.current_index + 1) % self.eve_character_list.len();
        } else {
            let ghost before = self.eve_character_list@;
            let mut rest: Vec<Character> = Vec::new();
            let mut i: usize = 0;
            while i < self.eve_character_list.len()
                invariant
                    i <= self.eve_character_list.len(),
                    self.eve_character_list@ == before,
                    rest@ == before.take(i as int).filter(other_than(character.id)),
                    forall|j: int| 0 <= j < before.len() ==> (#[trigger] before[j]).active(),
                    forall|j: int| 0 <= j < rest.len() ==> (#[trigger] rest@[j]).active(),
                decreases self.eve_character_list.len() - i,
            {
                let other = self.eve_character_list[i];
                proof {
                    assert(before.take(i + 1) =~= before.take(i as int).push(other));
                    before.take(i as int).lemma_filter_push(other, other_than(character.id));
                }
                if other.id != character.id {
                    rest.push(other);
                }
                i += 1;
            }
            assert(before.take(before.len() as int) =~= before);
            self.eve_character_list = rest;
            if self.current_index >= self.eve_character_list.len() {
                self.current_index = 0;
            }
        }
        Some(report)
    }

    /// `run_at` at the time that the system clock shows.
    pub fn run(&mut self, storage: &mut StorageV1, poll: Poll) -> (report: Option<UpdateReport>)
        requires
            old(self).wf(),
        ensures
            final(self).wf(),
            final(self)@ == after_poll(old(self)@, poll@),
            match old(self)@.current() {
                Some(character) => {
                    &&& report matches Some(report)
                    &&& exists|now: i64|
                        report@ == #[trigger] report_after(
                            old(storage)@,
                            character.retries,
                            poll@,
                            now,
                        ) && final(storage)@ == storage_after(
                            old(storage)@,
                            character.retries,
                            poll@,
                            now,
                        )
                },
                None => report is None && final(storage)@ == old(storage)@,
            },
    {
        let now = utc_now();
        self.run_at(storage, poll, now)
    }

    /// How long to sleep after a turn that took `elapsed_nanos`
    /// nanoseconds, so that the turns of all characters together take
    /// `ROTATION_SECONDS`: the share of the rotation that each character
    /// in it now has, less what the turn took, and nothing if it took
    /// longer than that.
    pub fn sleep_time(&self, elapsed_nanos: u128) -> (nanos: u64)
        ensures
            nanos == sleep_nanos(self@.characters.len(), elapsed_nanos as int),
    {
        let list_len: usize = self.eve_character_list.len();
        let seconds: u64 = if list_len == 0 {
            ROTATION_SECONDS
        } else {
            ROTATION_SECONDS / (list_len as u64)
        };
        assert(seconds <= ROTATION_SECONDS) by (nonlinear_arith)
            requires
                list_len == 0 ==> seconds == ROTATION_SECONDS,
                list_len > 0 ==> seconds == ROTATION_SECONDS as int / list_len as int,
        ;
        let turn: u64 = seconds * NANOS_PER_SECOND;
        if elapsed_nanos < turn as u128 {
            turn - (elapsed_nanos as u64)
        } else {
            0
        }
    }
}

/// The roman numeral shown for a skill level: `I` to `V`, and `??` for
/// anything outside that range.
pub open spec fn roman_numeral(level: int) -> Seq<char> {
    if level == 1 {
        "I"@
    } else if level == 2 {
        "II"@
    } else if level == 3 {
        "III"@
    } else if level == 4 {
        "IV"@
    } else if level == 5 {
        "V"@
    } else {
        "??"@
    }
}

pub fn level_to_roman(level: i32) -> (numeral: &'static str)
    ensures
        numeral@ == roman_numeral(level as int),
{
    match level {
        1 => "I",
        2 => "II",
        3 => "III",
        4 => "IV",
        5 => "V",
        _ => "??",
    }
}

} // verus!
