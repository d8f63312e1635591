use crate::esi::{display_name, find_skill, skill_position, Esi, EsiSkill, EsiSkillQueue, EsiSkillQueueItem};
use crate::monitor::{level_to_roman, roman_numeral, ROTATION_SECONDS};
use crate::text::{append_decimal, decimal};
use vstd::prelude::*;
use vstd::string::*;

verus! {

/// How many queue entries a progress summary lists at most.
pub const LISTED_ENTRIES: usize = 5;

/// `skills` with the first record for `skill_id` trained to `level`;
/// unchanged where `skills` has no record for it.
pub open spec fn trained_to(skills: Seq<EsiSkill>, skill_id: i32, level: i32) -> Seq<EsiSkill> {
    match skill_position(skills, skill_id) {
        Some(i) => skills.update(i, EsiSkill { trained_skill_level: level, ..skills[i] }),
        None => skills,
    }
}

/// `skills` brought up to date with a queue: going through `queue` in
/// order, every entry that finished at or before `now` sets the trained
/// level of its skill; stalled entries are passed over, and the first
/// entry that finishes after `now` ends the scan.
pub open spec fn reconciled(skills: Seq<EsiSkill>, queue: Seq<EsiSkillQueueItem>, now: i64) -> Seq<
    EsiSkill,
>
    decreases queue.len(),
{
    if queue.len() == 0 {
        skills
    } else {
        match queue[0].finish_date {
            None => reconciled(skills, queue.drop_first(), now),
            Some(finish) => if finish > now {
                skills
            } else {
                reconciled(
                    trained_to(skills, queue[0].skill_id, queue[0].finished_level),
                    queue.drop_first(),
                    now,
                )
            },
        }
    }
}

/// Two snapshots hold the same skills in the same places and differ at
/// most in trained levels.
pub open spec fn same_but_trained_levels(a: Seq<EsiSkill>, b: Seq<EsiSkill>) -> bool {
    &&& a.len() == b.len()
    &&& forall|i: int|
        0 <= i < a.len() ==> (#[trigger] a[i]).skill_id == b[i].skill_id && a[i].skillpoints_in_skill
            == b[i].skillpoints_in_skill && a[i].active_skill_level == b[i].active_skill_level
}

/// Reconciling touches nothing but trained levels.
pub proof fn lemma_reconciled_keeps_skills(
    skills: Seq<EsiSkill>,
    queue: Seq<EsiSkillQueueItem>,
    now: i64,
)
    ensures
        same_but_trained_levels(skills, reconciled(skills, queue, now)),
    decreases queue.len(),
{
    if queue.len() > 0 {
        match queue[0].finish_date {
            None => {
                lemma_reconciled_keeps_skills(skills, queue.drop_first(), now);
            },
            Some(finish) => {
                if finish <= now {
                    let next = trained_to(skills, queue[0].skill_id, queue[0].finished_level);
                    crate::esi::lemma_skill_position(skills, queue[0].skill_id);
                    lemma_reconciled_keeps_skills(next, queue.drop_first(), now);
                    let last = reconciled(next, queue.drop_first(), now);
                    assert forall|i: int| 0 <= i < skills.len() implies (#[trigger] skills[i]).skill_id
                        == last[i].skill_id && skills[i].skillpoints_in_skill
                        == last[i].skillpoints_in_skill && skills[i].active_skill_level
                        == last[i].active_skill_level by {
                        assert(next[i].skill_id == last[i].skill_id);
                    }
                }
            },
        }
    }
}

/// A queue whose first entry finishes after `now` changes nothing.
pub proof fn lemma_future_queue_changes_nothing(
    skills: Seq<EsiSkill>,
    queue: Seq<EsiSkillQueueItem>,
    now: i64,
)
    requires
        queue.len() > 0,
        queue[0].finish_date matches Some(finish) && finish > now,
    ensures
        reconciled(skills, queue, now) == skills,
{
}

/// A single finished entry for a known skill sets that skill's trained
/// level to the entry's level.
pub proof fn lemma_finished_entry_sets_level(
    skills: Seq<EsiSkill>,
    item: EsiSkillQueueItem,
    now: i64,
    i: int,
)
    requires
        item.finish_date matches Some(finish) && finish <= now,
        skill_position(skills, item.skill_id) == Some(i),
    ensures
        reconciled(skills, seq![item], now).len() == skills.len(),
        reconciled(skills, seq![item], now)[i].trained_skill_level == item.finished_level,
        reconciled(skills, seq![item], now)[i].skill_id == item.skill_id,
{
    crate::esi::lemma_skill_position(skills, item.skill_id);
    let queue = seq![item];
    assert(queue.drop_first().len() == 0);
    assert(reconciled(skills, queue, now) == reconciled(
        trained_to(skills, item.skill_id, item.finished_level),
        queue.drop_first(),
        now,
    ));
}

/// Applies to `skills` the queue entries that have finished by `now`.
pub fn reconcile(skills: &mut Vec<EsiSkill>, skill_queue: &EsiSkillQueue, now: i64)
    ensures
        final(skills)@ == reconciled(old(skills)@, skill_queue.0@, now),
{
    let ghost start = skills@;
    let queue = &skill_queue.0;
    let mut k: usize = 0;
    assert(queue@.skip(0) =~= queue@);
    while k < queue.len()
        invariant
            k <= queue.len(),
            start == old(skills)@,
            queue@ == skill_queue.0@,
            reconciled(start, queue@, now) == reconciled(skills@, queue@.skip(k as int), now),
        decreases queue.len() - k,
    {
        let item = queue[k];
        proof {
            assert(queue@.skip(k as int)[0] == queue@[k as int]);
            assert(queue@.skip(k as int).drop_first() =~= queue@.skip(k + 1));
        }
        match item.finish_date {
            None => {},
            Some(finish) => {
                if finish > now {
                    return ;
                }
                match find_skill(skills, item.skill_id) {
                    Some(i) => {
                        let skill = skills[i];
                        skills.set(
                            i,
                            EsiSkill { trained_skill_level: item.finished_level, ..skill },
                        );
                    },
                    None => {},
                }
            },
        }
        k += 1;
    }
}

/// An entry is still ahead when it is stalled or finishes after `now`.
pub open spec fn is_pending(item: EsiSkillQueueItem, now: i64) -> bool {
    match item.finish_date {
        Some(finish) => finish > now,
        None => true,
    }
}

/// `is_pending` with the time fixed.
pub open spec fn pending_rule(now: i64) -> spec_fn(EsiSkillQueueItem) -> bool {
    |item: EsiSkillQueueItem| is_pending(item, now)
}

/// The entries of `queue` that are still ahead, in queue order.
pub open spec fn pending_items(queue: Seq<EsiSkillQueueItem>, now: i64) -> Seq<EsiSkillQueueItem> {
    queue.filter(pending_rule(now))
}

/// The entries that a progress summary lists: the first `LISTED_ENTRIES`
/// of those still ahead.
pub open spec fn listed_items(queue: Seq<EsiSkillQueueItem>, now: i64) -> Seq<EsiSkillQueueItem> {
    let pending = pending_items(queue, now);
    if pending.len() > LISTED_ENTRIES {
        pending.take(LISTED_ENTRIES as int)
    } else {
        pending
    }
}

/// When a queue entry, or the whole queue, will be done, in words.
pub open spec fn finish_words(finish_date: Option<i64>, what: Seq<char>) -> Seq<char> {
    match finish_date {
        Some(finish) => "finish"@ + what + " <t:"@ + decimal(finish as int) + ":R>"@,
        None => "never finish"@ + what,
    }
}

/// The line of a progress summary for one listed entry.
pub open spec fn item_line(item: EsiSkillQueueItem, names: Map<i32, Seq<char>>) -> Seq<char> {
    "- `"@ + display_name(names, item.skill_id) + " "@ + roman_numeral(item.finished_level as int)
        + "` will "@ + finish_words(item.finish_date, " training"@) + ".\n"@
}

/// The lines for `items`, one after the other.
pub open spec fn item_lines(items: Seq<EsiSkillQueueItem>, names: Map<i32, Seq<char>>) -> Seq<char>
    decreases items.len(),
{
    if items.len() == 0 {
        Seq::empty()
    } else {
        item_lines(items.drop_last(), names) + item_line(items.last(), names)
    }
}

/// The finish date of the last entry of `queue`, if it has one.
pub open spec fn queue_finish(queue: Seq<EsiSkillQueueItem>) -> Option<i64> {
    if queue.len() == 0 {
        None
    } else {
        queue.last().finish_date
    }
}

/// The progress summary of a queue at time `now`: a line for each listed
/// entry; once `LISTED_ENTRIES` are listed, how many entries the queue has
/// beyond that number; when the whole queue will be done; and when the
/// next update is due.
pub open spec fn queue_message(
    queue: Seq<EsiSkillQueueItem>,
    names: Map<i32, Seq<char>>,
    now: i64,
) -> Seq<char> {
    let listed = listed_items(queue, now);
    item_lines(listed, names) + (if listed.len() == LISTED_ENTRIES {
        "... and "@ + decimal(queue.len() - LISTED_ENTRIES) + " more.\n"@
    } else {
        Seq::empty()
    }) + "\nSkill queue will "@ + finish_words(queue_finish(queue), Seq::empty()) + ".\n"@
        + "\nNext update expected <t:"@ + decimal(now + ROTATION_SECONDS) + ":R>.\n"@
}

/// The first entries of a queue are among its pending entries what they
/// are among themselves.
proof fn lemma_pending_prefix(queue: Seq<EsiSkillQueueItem>, now: i64, k: int)
    requires
        0 <= k <= queue.len(),
    ensures
        pending_items(queue.take(k), now).is_prefix_of(pending_items(queue, now)),
{
    assert(queue =~= queue.take(k) + queue.skip(k));
    Seq::filter_distributes_over_add(queue.take(k), queue.skip(k), pending_rule(now));
}

/// The queue entries that the progress summary at `now` lists; the names
/// of their skills are the ones the summary shows.
pub fn listed_queue_items(skill_queue: &EsiSkillQueue, now: i64) -> (listed: Vec<EsiSkillQueueItem>)
    ensures
        listed@ == listed_items(skill_queue.0@, now),
{
    let queue = &skill_queue.0;
    let mut listed: Vec<EsiSkillQueueItem> = Vec::new();
    let mut k: usize = 0;
    while k < queue.len()
        invariant
            k <= queue.len(),
            queue@ == skill_queue.0@,
            listed@ == pending_items(queue@.take(k as int), now),
            listed.len() < LISTED_ENTRIES,
        decreases queue.len() - k,
    {
        let item = queue[k];
        let ahead = match item.finish_date {
            Some(finish) => finish > now,
            None => true,
        };
        proof {
            assert(queue@.take(k + 1) =~= queue@.take(k as int).push(item));
            queue@.take(k as int).lemma_filter_push(item, pending_rule(now));
        }
        if ahead {
            listed.push(item);
            if listed.len() >= LISTED_ENTRIES {
                proof {
                    lemma_pending_prefix(queue@, now, k + 1);
                    let pending = pending_items(queue@, now);
                    assert(pending.take(LISTED_ENTRIES as int) =~= listed@);
                    assert(pending.len() == LISTED_ENTRIES ==> pending =~= listed@);
                }
                return listed;
            }
        }
        k += 1;
    }
    assert(queue@.take(queue.len() as int) =~= queue@);
    listed
}

fn append_finish(message: &mut String, finish_date: Option<i64>, what: &str)
    ensures
        final(message)@ == old(message)@ + finish_words(finish_date, what@),
{
    match finish_date {
        Some(finish) => {
            message.append("finish");
            message.append(what);
            message.append(" <t:");
            append_decimal(message, finish as i128);
            message.append(":R>");
            assert(message@ =~= old(message)@ + finish_words(finish_date, what@));
        },
        None => {
            message.append("never finish");
            message.append(what);
            assert(message@ =~= old(message)@ + finish_words(finish_date, what@));
        },
    }
}

fn append_item_line(message: &mut String, item: &EsiSkillQueueItem, esi: &Esi)
    ensures
        final(message)@ == old(message)@ + item_line(*item, esi.skill_names()),
{
    let name = match esi.lookup_skill_name(item.skill_id) {
        Some(name) => name,
        None => String::from_str("Unknown"),
    };
    message.append("- `");
    message.append(name.as_str());
    message.append(" ");
    message.append(level_to_roman(item.finished_level));
    message.append("` will ");
    append_finish(message, item.finish_date, " training");
    message.append(".\n");
    assert(message@ =~= old(message)@ + item_line(*item, esi.skill_names()));
}

/// The progress summary of `skill_queue` at time `now`, with the skill
/// names that `esi` remembers.
pub fn skill_queue_to_message(skill_queue: &EsiSkillQueue, esi: &Esi, now: i64) -> (message: String)
    ensures
        message@ == queue_message(skill_queue.0@, esi.skill_names(), now),
{
    let queue = &skill_queue.0;
    let listed = listed_queue_items(skill_queue, now);
    let mut message = String::new();
    let mut i: usize = 0;
    while i < listed.len()
        invariant
            i <= listed.len(),
            message@ == item_lines(listed@.take(i as int), esi.skill_names()),
        decreases listed.len() - i,
    {
        proof {
            assert(listed@.take(i + 1).drop_last() =~= listed@.take(i as int));
        }
        append_item_line(&mut message, &listed[i], esi);
        i += 1;
    }
    assert(listed@.take(listed.len() as int) =~= listed@);
    let ghost lines = message@;
    if listed.len() == LISTED_ENTRIES {
        proof {
            queue@.lemma_filter_len(pending_rule(now));
        }
        message.append("... and ");
        append_decimal(&mut message, (queue.len() - LISTED_ENTRIES) as i128);
        message.append(" more.\n");
    }
    let finish_date = if queue.len() == 0 {
        None
    } else {
        queue[queue.len() - 1].finish_date
    };
    message.append("\nSkill queue will ");
    append_finish(&mut message, finish_date, "");
    message.append(".\n");
    message.append("\nNext update expected <t:");
    append_decimal(&mut message, now as i128 + ROTATION_SECONDS as i128);
    message.append(":R>.\n");
    proof {
        reveal_strlit("");
        assert(""@ =~= Seq::<char>::empty());
        assert(message@ =~= queue_message(queue@, esi.skill_names(), now));
    }
    message
}

} // verus!
