use crate::monitor::storage::StorageV1View;
use crate::monitor::update::{poll_failure, retries_after, storage_after, PollView};
use crate::monitor::{
    after_poll, after_tick, other_than, sleep_nanos, turn_nanos, Character, MonitorView,
    NANOS_PER_SECOND, ROTATION_SECONDS, SUSPEND_AFTER,
};
use vstd::arithmetic::div_mod::{lemma_fundamental_div_mod, lemma_fundamental_div_mod_converse};
use vstd::prelude::*;

verus! {

/// Work and sleep fill the turn: the sleep is never negative and never
/// longer than the turn, and a turn whose work took no longer than its
/// share ends exactly when the share is used up.
pub proof fn lemma_sleep_fills_the_turn(list_len: nat, elapsed_nanos: int)
    requires
        0 <= elapsed_nanos,
    ensures
        0 <= sleep_nanos(list_len, elapsed_nanos) <= turn_nanos(list_len),
        elapsed_nanos <= turn_nanos(list_len) ==> elapsed_nanos + sleep_nanos(
            list_len,
            elapsed_nanos,
        ) == turn_nanos(list_len),
        elapsed_nanos >= turn_nanos(list_len) ==> sleep_nanos(list_len, elapsed_nanos) == 0,
{
}

/// One round of turns takes the rotation period, but for the fraction of
/// a second that each turn is cut short by: together the turns of
/// `list_len` characters take no longer than `ROTATION_SECONDS`, and fall
/// short of it by less than a second for each character.
pub proof fn lemma_round_takes_the_rotation(list_len: nat)
    requires
        list_len > 0,
    ensures
        list_len * turn_nanos(list_len) <= ROTATION_SECONDS * NANOS_PER_SECOND,
        list_len * turn_nanos(list_len) > (ROTATION_SECONDS - list_len) * NANOS_PER_SECOND,
{
    let len = list_len as int;
    let seconds = ROTATION_SECONDS as int / len;
    lemma_fundamental_div_mod(ROTATION_SECONDS as int, len);
    assert(len * seconds <= ROTATION_SECONDS && len * seconds > ROTATION_SECONDS - len);
    assert(len * (seconds * NANOS_PER_SECOND) == (len * seconds) * NANOS_PER_SECOND)
        by (nonlinear_arith);
    assert((len * seconds) * NANOS_PER_SECOND <= ROTATION_SECONDS * NANOS_PER_SECOND)
        by (nonlinear_arith)
        requires
            len * seconds <= ROTATION_SECONDS,
    ;
    assert((len * seconds) * NANOS_PER_SECOND > (ROTATION_SECONDS - len) * NANOS_PER_SECOND)
        by (nonlinear_arith)
        requires
            len * seconds > ROTATION_SECONDS - len,
    ;
}

/// The place `steps` after `start` on a round of `len` places.
pub open spec fn place_after(len: int, start: int, steps: int) -> int {
    (start + steps) % len
}

/// Going round: a place less than a round ahead is the sum where that is
/// on the round, and the sum less one round where it is not.
pub proof fn lemma_place_after(len: int, start: int, steps: int)
    requires
        0 <= start < len,
        0 <= steps <= len,
    ensures
        place_after(len, start, steps) == if start + steps < len {
            start + steps
        } else {
            start + steps - len
        },
{
    if start + steps < len {
        lemma_fundamental_div_mod_converse(start + steps, len, 0, start + steps);
    } else {
        lemma_fundamental_div_mod_converse(start + steps, len, 1, start + steps - len);
    }
}

/// A turn leaves the rotation well formed.
pub proof fn lemma_after_tick_wf(monitor: MonitorView, updated: Character)
    requires
        monitor.wf(),
    ensures
        after_tick(monitor, updated).wf(),
{
    let after = after_tick(monitor, updated);
    if monitor.characters.len() > 0 {
        if updated.active() {
            lemma_place_after(monitor.characters.len() as int, monitor.current_index, 1);
        } else {
            let keep = other_than(updated.id);
            assert forall|i: int| 0 <= i < after.characters.len() implies (
            #[trigger] after.characters[i]).active() by {
                let character = after.characters[i];
                assert(monitor.characters.filter(keep).contains(character));
                monitor.characters.lemma_filter_contains_rev(keep, character);
            }
        }
    }
}

/// A turn that keeps the character changes nothing but the failures of
/// the character at the cursor, and moves the cursor one place on.
pub proof fn lemma_kept_turn(monitor: MonitorView, updated: Character)
    requires
        monitor.wf(),
        monitor.characters.len() > 0,
        updated.active(),
        updated.id == monitor.characters[monitor.current_index].id,
    ensures
        after_tick(monitor, updated).characters.len() == monitor.characters.len(),
        forall|i: int|
            0 <= i < monitor.characters.len() ==> (#[trigger] after_tick(
                monitor,
                updated,
            ).characters[i]).id == monitor.characters[i].id,
        forall|i: int|
            0 <= i < monitor.characters.len() && i != monitor.current_index ==> #[trigger] after_tick(
                monitor,
                updated,
            ).characters[i] == monitor.characters[i],
        after_tick(monitor, updated).current_index == place_after(
            monitor.characters.len() as int,
            monitor.current_index,
            1,
        ),
{
}

/// A turn that suspends the character takes it out of the rotation and
/// leaves the others in their order.
pub proof fn lemma_suspending_turn(monitor: MonitorView, updated: Character)
    requires
        monitor.wf(),
        monitor.characters.len() > 0,
        !updated.active(),
    ensures
        !after_tick(monitor, updated).has(updated.id),
        after_tick(monitor, updated).characters == monitor.characters.filter(
            other_than(updated.id),
        ),
        forall|id: u64|
            id != updated.id && monitor.has(id) ==> #[trigger] after_tick(monitor, updated).has(id),
{
    let keep = other_than(updated.id);
    let after = after_tick(monitor, updated);
    assert forall|i: int| 0 <= i < after.characters.len() implies (
    #[trigger] after.characters[i]).id != updated.id by {
        monitor.characters.lemma_filter_pred(keep, i);
    }
    assert forall|id: u64| id != updated.id && monitor.has(id) implies #[trigger] after.has(
        id,
    ) by {
        let i = choose|i: int|
            0 <= i < monitor.characters.len() && (#[trigger] monitor.characters[i]).id == id;
        monitor.characters.lemma_filter_contains(keep, i);
        let character = monitor.characters[i];
        let j = choose|j: int| 0 <= j < after.characters.len() && after.characters[j] == character;
        assert(after.characters[j].id == id);
    }
}

/// A turn brings nobody into the rotation.
pub proof fn lemma_turn_adds_nobody(monitor: MonitorView, poll: PollView, id: u64)
    requires
        monitor.wf(),
        after_poll(monitor, poll).has(id),
    ensures
        monitor.has(id),
{
    let after = after_poll(monitor, poll);
    if monitor.characters.len() > 0 {
        let character = monitor.characters[monitor.current_index];
        let updated = Character {
            id: character.id,
            retries: retries_after(character.retries, poll),
        };
        let i = choose|i: int|
            0 <= i < after.characters.len() && (#[trigger] after.characters[i]).id == id;
        if updated.active() {
            assert(monitor.characters[i].id == id);
        } else {
            let found = after.characters[i];
            assert(monitor.characters.filter(other_than(updated.id)).contains(found));
            monitor.characters.lemma_filter_contains_rev(other_than(updated.id), found);
            let j = choose|j: int|
                0 <= j < monitor.characters.len() && monitor.characters[j] == found;
            assert(monitor.characters[j].id == id);
        }
    }
}

/// The rotation after a run of turns, one for each answer in `polls`.
pub open spec fn after_polls(monitor: MonitorView, polls: Seq<PollView>) -> MonitorView
    decreases polls.len(),
{
    if polls.len() == 0 {
        monitor
    } else {
        after_poll(after_polls(monitor, polls.drop_last()), polls.last())
    }
}

/// Turns keep the rotation well formed.
pub proof fn lemma_after_polls_wf(monitor: MonitorView, polls: Seq<PollView>)
    requires
        monitor.wf(),
    ensures
        after_polls(monitor, polls).wf(),
    decreases polls.len(),
{
    if polls.len() > 0 {
        lemma_after_polls_wf(monitor, polls.drop_last());
        let before = after_polls(monitor, polls.drop_last());
        if before.characters.len() > 0 {
            let character = before.characters[before.current_index];
            lemma_after_tick_wf(
                before,
                Character {
                    id: character.id,
                    retries: retries_after(character.retries, polls.last()),
                },
            );
        }
    }
}

/// The update that brings a character's failures in a row to
/// `SUSPEND_AFTER` takes it out of the rotation and marks its record as
/// suspended.
pub proof fn lemma_suspended_is_removed(
    monitor: MonitorView,
    storage: StorageV1View,
    poll: PollView,
    now: i64,
)
    requires
        monitor.wf(),
        monitor.characters.len() > 0,
        retries_after(monitor.characters[monitor.current_index].retries, poll) >= SUSPEND_AFTER,
    ensures
        !after_poll(monitor, poll).has(monitor.characters[monitor.current_index].id),
        storage_after(
            storage,
            monitor.characters[monitor.current_index].retries,
            poll,
            now,
        ).expired,
{
    let character = monitor.characters[monitor.current_index];
    lemma_suspending_turn(
        monitor,
        Character { id: character.id, retries: retries_after(character.retries, poll) },
    );
}

/// A character that is not in the rotation is never updated by it again,
/// however many turns follow and whatever they bring: it stays out, and
/// no turn is its turn.
pub proof fn lemma_absent_stays_absent(monitor: MonitorView, polls: Seq<PollView>, id: u64)
    requires
        monitor.wf(),
        !monitor.has(id),
    ensures
        !after_polls(monitor, polls).has(id),
        match after_polls(monitor, polls).current() {
            Some(character) => character.id != id,
            None => true,
        },
    decreases polls.len(),
{
    let after = after_polls(monitor, polls);
    if polls.len() > 0 {
        let before = after_polls(monitor, polls.drop_last());
        lemma_absent_stays_absent(monitor, polls.drop_last(), id);
        lemma_after_polls_wf(monitor, polls.drop_last());
        if after.has(id) {
            lemma_turn_adds_nobody(before, polls.last(), id);
        }
    }
    lemma_after_polls_wf(monitor, polls);
    if after.characters.len() > 0 {
        assert(after.characters[after.current_index].id != id);
    }
}

/// The place of the character that turn `k` of a run of turns updates,
/// counting from 0.
pub open spec fn turn_place(monitor: MonitorView, polls: Seq<PollView>, k: int) -> int {
    after_polls(monitor, polls.take(k)).current_index
}

/// Some turn of a run of turns updates the character at `place`.
pub open spec fn has_turn(monitor: MonitorView, polls: Seq<PollView>, place: int) -> bool {
    exists|k: int| 0 <= k < polls.len() && #[trigger] turn_place(monitor, polls, k) == place
}

/// No answer in `polls` suspends a character of `monitor` in a run of
/// turns.
pub open spec fn all_kept(monitor: MonitorView, polls: Seq<PollView>) -> bool {
    forall|k: int|
        0 <= k < polls.len() ==> after_polls(monitor, #[trigger] polls.take(k + 1)).characters.len()
            == monitor.characters.len()
}

/// Turns in which the progress source answers every question keep the
/// rotation as long as it is.
proof fn lemma_successes_keep_length(monitor: MonitorView, polls: Seq<PollView>)
    requires
        monitor.wf(),
        forall|k: int| 0 <= k < polls.len() ==> poll_failure(#[trigger] polls[k]) is None,
    ensures
        after_polls(monitor, polls).characters.len() == monitor.characters.len(),
    decreases polls.len(),
{
    if polls.len() > 0 {
        let earlier = polls.drop_last();
        assert forall|k: int| 0 <= k < earlier.len() implies poll_failure(
            #[trigger] earlier[k],
        ) is None by {
            assert(earlier[k] == polls[k]);
        }
        lemma_successes_keep_length(monitor, earlier);
        lemma_after_polls_wf(monitor, earlier);
        let before = after_polls(monitor, earlier);
        assert(poll_failure(polls[polls.len() - 1]) is None);
        if before.characters.len() > 0 {
            let character = before.characters[before.current_index];
            let updated = Character {
                id: character.id,
                retries: retries_after(character.retries, polls.last()),
            };
            assert(updated.active());
            assert(after_polls(monitor, polls) == after_tick(before, updated));
        }
    }
}

/// Successful updates suspend nobody.
pub proof fn lemma_successful_turns_keep(monitor: MonitorView, polls: Seq<PollView>)
    requires
        monitor.wf(),
        forall|k: int| 0 <= k < polls.len() ==> poll_failure(#[trigger] polls[k]) is None,
    ensures
        all_kept(monitor, polls),
{
    assert forall|k: int| 0 <= k < polls.len() implies after_polls(
        monitor,
        #[trigger] polls.take(k + 1),
    ).characters.len() == monitor.characters.len() by {
        let first = polls.take(k + 1);
        assert forall|j: int| 0 <= j < first.len() implies poll_failure(
            #[trigger] first[j],
        ) is None by {
            assert(first[j] == polls[j]);
        }
        lemma_successes_keep_length(monitor, first);
    }
}

/// While no character is suspended, the turns go round: turn `k` updates
/// the character `k` places after the cursor, the characters keep their
/// places, and only their failures change.
pub proof fn lemma_round_robin(monitor: MonitorView, polls: Seq<PollView>)
    requires
        monitor.wf(),
        monitor.characters.len() > 0,
        all_kept(monitor, polls),
    ensures
        after_polls(monitor, polls).wf(),
        after_polls(monitor, polls).characters.len() == monitor.characters.len(),
        forall|i: int|
            0 <= i < monitor.characters.len() ==> (#[trigger] after_polls(
                monitor,
                polls,
            ).characters[i]).id == monitor.characters[i].id,
        after_polls(monitor, polls).current_index == place_after(
            monitor.characters.len() as int,
            monitor.current_index,
            polls.len() as int,
        ),
    decreases polls.len(),
{
    let len = monitor.characters.len() as int;
    lemma_after_polls_wf(monitor, polls);
    if polls.len() == 0 {
        lemma_place_after(len, monitor.current_index, 0);
    } else {
        let earlier = polls.drop_last();
        assert forall|k: int| 0 <= k < earlier.len() implies after_polls(
            monitor,
            #[trigger] earlier.take(k + 1),
        ).characters.len() == monitor.characters.len() by {
            assert(earlier.take(k + 1) =~= polls.take(k + 1));
        }
        lemma_round_robin(monitor, earlier);
        let before = after_polls(monitor, earlier);
        let after = after_polls(monitor, polls);
        let last = polls.len() - 1;
        assert(polls.take(last + 1) =~= polls);
        assert(after_polls(monitor, polls.take(last + 1)).characters.len() == len);
        let character = before.characters[before.current_index];
        let updated = Character {
            id: character.id,
            retries: retries_after(character.retries, polls.last()),
        };
        if !updated.active() {
            lemma_suspending_turn(before, updated);
            before.characters.lemma_filter_len(other_than(updated.id));
            assert(before.characters.filter(other_than(updated.id)).len() < before.characters.len())
                by {
                lemma_filter_drops(before.characters, updated.id, before.current_index);
            }
        }
        vstd::arithmetic::div_mod::lemma_add_mod_noop(
            monitor.current_index + earlier.len(),
            1,
            len,
        );
        vstd::arithmetic::div_mod::lemma_mod_twice(monitor.current_index + earlier.len(), len);
        lemma_place_after(len, before.current_index, 1);
        if len == 1 {
            assert(1int % 1 == 0);
        } else {
            vstd::arithmetic::div_mod::lemma_small_mod(1, len as nat);
        }
    }
}

/// Leaving a character out makes the rotation shorter.
proof fn lemma_filter_drops(characters: Seq<Character>, id: u64, i: int)
    requires
        0 <= i < characters.len(),
        characters[i].id == id,
    ensures
        characters.filter(other_than(id)).len() < characters.len(),
    decreases characters.len(),
{
    reveal(Seq::filter);
    let rest = characters.drop_last();
    rest.lemma_filter_len(other_than(id));
    if i < characters.len() - 1 {
        lemma_filter_drops(rest, id, i);
    }
}

/// Round-robin fairness: in as many turns as the rotation has characters,
/// none of which suspends one, every character is updated exactly once,
/// in the order of their places starting at the cursor, and the cursor is
/// then back where it stood.
pub proof fn lemma_rotation_fair(monitor: MonitorView, polls: Seq<PollView>)
    requires
        monitor.wf(),
        monitor.characters.len() > 0,
        polls.len() == monitor.characters.len(),
        all_kept(monitor, polls),
    ensures
        forall|k: int|
            0 <= k < polls.len() ==> #[trigger] turn_place(monitor, polls, k) == place_after(
                monitor.characters.len() as int,
                monitor.current_index,
                k,
            ),
        forall|j: int, k: int|
            0 <= j < k < polls.len() ==> #[trigger] turn_place(monitor, polls, j)
                != #[trigger] turn_place(monitor, polls, k),
        forall|place: int|
            0 <= place < monitor.characters.len() ==> #[trigger] has_turn(monitor, polls, place),
        after_polls(monitor, polls).current_index == monitor.current_index,
{
    let len = monitor.characters.len() as int;
    let start = monitor.current_index;
    assert forall|k: int| 0 <= k < polls.len() implies #[trigger] turn_place(monitor, polls, k)
        == place_after(len, start, k) && place_after(len, start, k) == (if start + k < len {
        start + k
    } else {
        start + k - len
    }) by {
        let first = polls.take(k);
        assert forall|j: int| 0 <= j < first.len() implies after_polls(
            monitor,
            #[trigger] first.take(j + 1),
        ).characters.len() == monitor.characters.len() by {
            assert(first.take(j + 1) =~= polls.take(j + 1));
        }
        lemma_round_robin(monitor, first);
        lemma_place_after(len, start, k);
    }
    assert forall|place: int| 0 <= place < len implies #[trigger] has_turn(
        monitor,
        polls,
        place,
    ) by {
        let k = if place >= start {
            place - start
        } else {
            place - start + len
        };
        assert(turn_place(monitor, polls, k) == place);
    }
    lemma_round_robin(monitor, polls);
    lemma_place_after(len, start, len);
}

} // verus!
