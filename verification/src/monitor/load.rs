use crate::monitor::storage::{storage_file_name_of, StorageV1};
use crate::monitor::update::{
    report_after, retries_after, storage_after, update_character_at, utc_now, Poll, UpdateReport,
};
use crate::monitor::{Character, Monitor, MonitorView};
use crate::text::{lemma_decimal_round_trip, parse_u64_range, parsed_u64};
use vstd::prelude::*;
use vstd::string::*;

verus! {

/// The character whose record a file of the storage folder holds, going
/// by the file's name: `char-`, the number of the character, `.json`.
/// Other files hold no record.
pub open spec fn stored_character_id(file_name: Seq<char>) -> Option<u64> {
    if file_name.len() >= 10 && "char-"@.is_prefix_of(file_name) && ".json"@.is_suffix_of(
        file_name,
    ) {
        parsed_u64(file_name.subrange(5, file_name.len() - 5))
    } else {
        None
    }
}

/// The record of every character is found again under its file name.
pub proof fn lemma_storage_file_name_round_trip(eve_character_id: u64)
    ensures
        stored_character_id(storage_file_name_of(eve_character_id)) == Some(eve_character_id),
{
    reveal_strlit("char-");
    reveal_strlit(".json");
    let name = storage_file_name_of(eve_character_id);
    let number = crate::text::decimal(eve_character_id as int);
    assert(name.subrange(0, 5) =~= "char-"@);
    assert(name.subrange(name.len() - 5, name.len() as int) =~= ".json"@);
    assert(name.subrange(5, name.len() - 5) =~= number);
    lemma_decimal_round_trip(eve_character_id);
}

/// Whether the five characters of `s` from `at` on are those of `word`.
fn has_word_at(s: &str, len: usize, at: usize, word: &str) -> (has: bool)
    requires
        word@.len() == 5,
        len == s@.len(),
        at + 5 <= len,
    ensures
        has == (s@.subrange(at as int, at + 5) == word@),
{
    let mut i: usize = 0;
    while i < 5
        invariant
            i <= 5,
            word@.len() == 5,
            len == s@.len(),
            at + 5 <= len,
            forall|j: int| 0 <= j < i ==> s@[at + j] == word@[j],
        decreases 5 - i,
    {
        if s.get_char(at + i) != word.get_char(i) {
            assert(s@.subrange(at as int, at + 5)[i as int] != word@[i as int]);
            return false;
        }
        i += 1;
    }
    assert(s@.subrange(at as int, at + 5) =~= word@);
    true
}

/// The character whose record the file `file_name` holds, if it holds one.
pub fn character_id_from_file_name(file_name: &str) -> (eve_character_id: Option<u64>)
    ensures
        eve_character_id == stored_character_id(file_name@),
{
    proof {
        reveal_strlit("char-");
        reveal_strlit(".json");
    }
    let len = file_name.unicode_len();
    if len < 10 {
        return None;
    }
    if !has_word_at(file_name, len, 0, "char-") {
        return None;
    }
    if !has_word_at(file_name, len, len - 5, ".json") {
        return None;
    }
    parse_u64_range(file_name, 5, len - 5)
}

/// The character that a stored record brings into the rotation at
/// startup: none for a suspended one.
pub open spec fn loaded_character(record: (u64, StorageV1)) -> Option<Character> {
    if record.1.expired {
        None
    } else {
        Some(Character { id: record.0, retries: 0 })
    }
}

/// The characters that the stored records bring into the rotation, in
/// the order of the records.
pub open spec fn loaded_characters(records: Seq<(u64, StorageV1)>) -> Seq<Character> {
    records.filter_map(|record: (u64, StorageV1)| loaded_character(record))
}

impl Monitor {
    /// Fills the rotation at startup. `records` holds, for each record
    /// that could be read, the character that its file name gives and the
    /// record. Every character whose record is not suspended joins the
    /// rotation, without failures.
    pub fn load_all_eve_characters(&mut self, records: &Vec<(u64, StorageV1)>)
        requires
            old(self).wf(),
        ensures
            final(self).wf(),
            final(self)@ == (MonitorView {
                characters: old(self)@.characters + loaded_characters(records@),
                ..old(self)@
            }),
    {
        let ghost rule = |record: (u64, StorageV1)| loaded_character(record);
        let mut i: usize = 0;
        assert(self@.characters =~= old(self)@.characters + loaded_characters(records@.take(0)));
        while i < records.len()
            invariant
                i <= records.len(),
                self.wf(),
                rule == |record: (u64, StorageV1)| loaded_character(record),
                self@ == (MonitorView {
                    characters: old(self)@.characters + loaded_characters(
                        records@.take(i as int),
                    ),
                    ..old(self)@
                }),
            decreases records.len() - i,
        {
            proof {
                records@.lemma_filter_map_take_succ(rule, i as int);
            }
            if !records[i].1.expired {
                let character = Character::new(records[i].0);
                self.eve_character_list.push(character);
                assert(self@.characters =~= old(self)@.characters + loaded_characters(
                    records@.take(i + 1),
                ));
            }
            i += 1;
        }
        assert(records@.take(records.len() as int) =~= records@);
    }

    /// Brings a character that was just registered, or registered again,
    /// into the rotation at time `now`: it is updated once, from what the
    /// progress source answered and with `storage` its record, and then
    /// joins the rotation at the end.
    pub fn queue_eve_character_at(
        &mut self,
        eve_character_id: u64,
        storage: &mut StorageV1,
        poll: Poll,
        now: i64,
    ) -> (report: UpdateReport)
        requires
            old(self).wf(),
        ensures
            final(self).wf(),
            final(self)@ == (MonitorView {
                characters: old(self)@.characters.push(
                    Character { id: eve_character_id, retries: retries_after(0, poll@) },
                ),
                ..old(self)@
            }),
            final(storage)@ == storage_after(old(storage)@, 0, poll@, now),
            report@ == report_after(old(storage)@, 0, poll@, now),
    {
        let mut character = Character::new(eve_character_id);
        let report = update_character_at(&mut character, storage, poll, now);
        self.eve_character_list.push(character);
        report
    }

    /// `queue_eve_character_at` at the time that the system clock shows.
    pub fn queue_eve_character(
        &mut self,
        eve_character_id: u64,
        storage: &mut StorageV1,
        poll: Poll,
    ) -> (report: UpdateReport)
        requires
            old(self).wf(),
        ensures
            final(self).wf(),
            final(self)@ == (MonitorView {
                characters: old(self)@.characters.push(
                    Character { id: eve_character_id, retries: retries_after(0, poll@) },
                ),
                ..old(self)@
            }),
            exists|now: i64|
                report@ == #[trigger] report_after(old(storage)@, 0, poll@, now) && final(storage)@
                    == storage_after(old(storage)@, 0, poll@, now),
    {
        let now = utc_now();
        self.queue_eve_character_at(eve_character_id, storage, poll, now)
    }
}

} // verus!
