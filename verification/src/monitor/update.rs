use crate::esi::{Esi, EsiSkill, EsiSkillQueue, EsiSkillQueueItem, EsiSkills};
use crate::monitor::changes::{
    change_lines, changes_message, detect_changes, detected_changes, SkillChange,
};
use crate::monitor::queue::{
    listed_items, listed_queue_items, queue_message, reconcile, reconciled, skill_queue_to_message,
};
use crate::monitor::storage::{StorageV1, StorageV1View};
use crate::monitor::{Character, SUSPEND_AFTER};
use crate::text::{append_decimal, decimal};
use vstd::prelude::*;
use vstd::string::*;

verus! {

/// What the progress source answered in one update of one character.
#[derive(Clone, Debug, PartialEq, Eq)]
pub enum Poll {
    /// It did not take the refresh credential.
    RefreshFailed,
    /// It gave a new refresh credential; `skills` and `skill_queue` hold
    /// what the two fetches that followed brought, `None` for one that
    /// failed.
    Refreshed { refresh_token: String, skills: Option<EsiSkills>, skill_queue: Option<EsiSkillQueue> },
}

/// A `Poll` as contracts speak of it.
pub enum PollView {
    RefreshFailed,
    Refreshed {
        refresh_token: Seq<char>,
        skills: Option<Seq<EsiSkill>>,
        skill_queue: Option<Seq<EsiSkillQueueItem>>,
    },
}

impl View for Poll {
    type V = PollView;

    open spec fn view(&self) -> PollView {
        match *self {
            Poll::RefreshFailed => PollView::RefreshFailed,
            Poll::Refreshed { refresh_token, skills, skill_queue } => PollView::Refreshed {
                refresh_token: refresh_token@,
                skills: match skills {
                    Some(skills) => Some(skills.skills@),
                    None => None,
                },
                skill_queue: match skill_queue {
                    Some(skill_queue) => Some(skill_queue.0@),
                    None => None,
                },
            },
        }
    }
}

/// The step of an update that failed.
#[derive(Clone, Copy, Debug, PartialEq, Eq, Structural)]
pub enum UpdateFailure {
    RefreshToken,
    Skills,
    SkillQueue,
}

/// A message that an update asks to be delivered.
#[derive(Clone, Debug, PartialEq, Eq)]
pub enum Notice {
    /// The progress summary of `skill_queue` at `now`; it takes the place
    /// of the last message in the channel.
    Progress { channel_id: u64, skill_queue: EsiSkillQueue, now: i64 },
    /// What changed since the update before; a new message in the thread.
    Changes { thread_id: u64, changes: Vec<SkillChange> },
    /// The character is suspended and its owner has to authenticate
    /// again; a new message in the thread.
    Suspended { thread_id: u64, discord_character_id: u64 },
}

/// A `Notice` as contracts speak of it.
pub enum NoticeView {
    Progress { channel_id: u64, skill_queue: Seq<EsiSkillQueueItem>, now: i64 },
    Changes { thread_id: u64, changes: Seq<SkillChange> },
    Suspended { thread_id: u64, discord_character_id: u64 },
}

impl View for Notice {
    type V = NoticeView;

    open spec fn view(&self) -> NoticeView {
        match *self {
            Notice::Progress { channel_id, skill_queue, now } => NoticeView::Progress {
                channel_id,
                skill_queue: skill_queue.0@,
                now,
            },
            Notice::Changes { thread_id, changes } => NoticeView::Changes {
                thread_id,
                changes: changes@,
            },
            Notice::Suspended { thread_id, discord_character_id } => NoticeView::Suspended {
                thread_id,
                discord_character_id,
            },
        }
    }
}

/// The text of the alert that tells the owner of a suspended character to
/// authenticate again.
pub open spec fn suspended_text(discord_character_id: u64) -> Seq<char> {
    "<@"@ + decimal(discord_character_id as int)
        + ">: Failed to retrieve Character information eight times in a row. Please re-authenticate with /monitor to continue monitoring. Monitoring suspended."@
}

/// The text of a notice, with the skill names `names`.
pub open spec fn notice_text(notice: NoticeView, names: Map<i32, Seq<char>>) -> Seq<char> {
    match notice {
        NoticeView::Progress { skill_queue, now, .. } => queue_message(skill_queue, names, now),
        NoticeView::Changes { changes, .. } => change_lines(changes, names),
        NoticeView::Suspended { discord_character_id, .. } => suspended_text(discord_character_id),
    }
}

/// The skills whose names the text of a notice shows, in the order in
/// which it shows them.
pub open spec fn notice_skills(notice: NoticeView) -> Seq<i32> {
    match notice {
        NoticeView::Progress { skill_queue, now, .. } => listed_items(skill_queue, now).map_values(
            |item: EsiSkillQueueItem| item.skill_id,
        ),
        NoticeView::Changes { changes, .. } => changes.map_values(
            |change: SkillChange| change.spec_skill_id(),
        ),
        NoticeView::Suspended { .. } => Seq::empty(),
    }
}

/// The channel or thread that a notice goes to.
pub open spec fn notice_target(notice: NoticeView) -> u64 {
    match notice {
        NoticeView::Progress { channel_id, .. } => channel_id,
        NoticeView::Changes { thread_id, .. } => thread_id,
        NoticeView::Suspended { thread_id, .. } => thread_id,
    }
}

impl Notice {
    /// The channel or thread that the notice goes to.
    pub fn target(&self) -> (target: u64)
        ensures
            target == notice_target(self@),
    {
        match self {
            Notice::Progress { channel_id, .. } => *channel_id,
            Notice::Changes { thread_id, .. } => *thread_id,
            Notice::Suspended { thread_id, .. } => *thread_id,
        }
    }

    /// Whether the notice takes the place of the last message in its
    /// target; otherwise it is a new message.
    pub fn replaces_last(&self) -> (replaces: bool)
        ensures
            replaces == (self@ is Progress),
    {
        match self {
            Notice::Progress { .. } => true,
            _ => false,
        }
    }

    /// The skills whose names the text shows. A name that `Esi` does not
    /// remember is shown as `Unknown`.
    pub fn skill_ids(&self) -> (skill_ids: Vec<i32>)
        ensures
            skill_ids@ == notice_skills(self@),
    {
        let mut skill_ids: Vec<i32> = Vec::new();
        match self {
            Notice::Progress { skill_queue, now, .. } => {
                let listed = listed_queue_items(skill_queue, *now);
                let mut i: usize = 0;
                while i < listed.len()
                    invariant
                        i <= listed.len(),
                        skill_ids@ == listed@.take(i as int).map_values(
                            |item: EsiSkillQueueItem| item.skill_id,
                        ),
                    decreases listed.len() - i,
                {
                    skill_ids.push(listed[i].skill_id);
                    assert(skill_ids@ =~= listed@.take(i + 1).map_values(
                        |item: EsiSkillQueueItem| item.skill_id,
                    ));
                    i += 1;
                }
                assert(listed@.take(listed.len() as int) =~= listed@);
            },
            Notice::Changes { changes, .. } => {
                let mut i: usize = 0;
                while i < changes.len()
                    invariant
                        i <= changes.len(),
                        skill_ids@ == changes@.take(i as int).map_values(
                            |change: SkillChange| change.spec_skill_id(),
                        ),
                    decreases changes.len() - i,
                {
                    skill_ids.push(changes[i].skill_id());
                    assert(skill_ids@ =~= changes@.take(i + 1).map_values(
                        |change: SkillChange| change.spec_skill_id(),
                    ));
                    i += 1;
                }
                assert(changes@.take(changes.len() as int) =~= changes@);
            },
            Notice::Suspended { .. } => {
                assert(skill_ids@ =~= notice_skills(self@));
            },
        }
        skill_ids
    }

    /// The text to deliver, with the skill names that `esi` remembers.
    pub fn message(&self, esi: &Esi) -> (text: String)
        ensures
            text@ == notice_text(self@, esi.skill_names()),
    {
        match self {
            Notice::Progress { skill_queue, now, .. } => skill_queue_to_message(
                skill_queue,
                esi,
                *now,
            ),
            Notice::Changes { changes, .. } => changes_message(changes, esi),
            Notice::Suspended { discord_character_id, .. } => {
                let mut text = String::from_str("<@");
                append_decimal(&mut text, *discord_character_id as i128);
                text.append(
                    ">: Failed to retrieve Character information eight times in a row. Please re-authenticate with /monitor to continue monitoring. Monitoring suspended.",
                );
                text
            },
        }
    }
}

/// The views of `notices`, in order.
pub open spec fn notice_views(notices: Seq<Notice>) -> Seq<NoticeView> {
    notices.map_values(|notice: Notice| notice@)
}

/// The outcome of one update.
#[derive(Clone, Debug, PartialEq, Eq)]
pub struct UpdateReport {
    /// `false` when the character was suspended by this update and has to
    /// leave the rotation.
    pub keep: bool,
    /// The step that failed, if one did.
    pub failure: Option<UpdateFailure>,
    /// The messages to deliver, in this order.
    pub notices: Vec<Notice>,
}

/// An `UpdateReport` as contracts speak of it.
pub struct UpdateReportView {
    pub keep: bool,
    pub failure: Option<UpdateFailure>,
    pub notices: Seq<NoticeView>,
}

impl View for UpdateReport {
    type V = UpdateReportView;

    open spec fn view(&self) -> UpdateReportView {
        UpdateReportView {
            keep: self.keep,
            failure: self.failure,
            notices: notice_views(self.notices@),
        }
    }
}

/// The step at which `poll` failed: the refresh, else the skills, else the
/// queue; `None` when all three answered.
pub open spec fn poll_failure(poll: PollView) -> Option<UpdateFailure> {
    match poll {
        PollView::RefreshFailed => Some(UpdateFailure::RefreshToken),
        PollView::Refreshed { skills, skill_queue, .. } => if skills is None {
            Some(UpdateFailure::Skills)
        } else if skill_queue is None {
            Some(UpdateFailure::SkillQueue)
        } else {
            None
        },
    }
}

/// The failures in a row after an update: none after one that succeeded,
/// one more after one that failed, and never more than `SUSPEND_AFTER`.
pub open spec fn retries_after(retries: u64, poll: PollView) -> u64 {
    if poll_failure(poll) is None {
        0
    } else if retries < SUSPEND_AFTER {
        (retries + 1) as u64
    } else {
        retries
    }
}

/// The skills that a successful `poll` shows at `now`: those it fetched,
/// brought up to date with the queue it fetched.
pub open spec fn polled_skills(poll: PollView, now: i64) -> Option<Seq<EsiSkill>> {
    match poll {
        PollView::Refreshed { skills: Some(skills), skill_queue: Some(skill_queue), .. } => Some(
            reconciled(skills, skill_queue, now),
        ),
        _ => None,
    }
}

/// The record after an update. A successful update stores the new
/// credential and the skills it shows; a failed one stores neither. The
/// update that brings the failures in a row to `SUSPEND_AFTER` marks the
/// record as suspended.
pub open spec fn storage_after(
    storage: StorageV1View,
    retries: u64,
    poll: PollView,
    now: i64,
) -> StorageV1View {
    let polled = match poll {
        PollView::Refreshed { refresh_token, skills: Some(skills), skill_queue: Some(skill_queue) } => {
            StorageV1View {
                refresh_token,
                skills: reconciled(skills, skill_queue, now),
                ..storage
            }
        },
        _ => storage,
    };
    StorageV1View {
        expired: storage.expired || retries_after(retries, poll) >= SUSPEND_AFTER,
        ..polled
    }
}

/// The changes that an update reports: none when the record held no
/// skills yet, else those from the stored skills to the polled ones.
pub open spec fn reported_changes(storage: StorageV1View, poll: PollView, now: i64) -> Seq<
    SkillChange,
> {
    match polled_skills(poll, now) {
        Some(skills) => if storage.skills.len() == 0 {
            Seq::empty()
        } else {
            detected_changes(storage.skills, skills)
        },
        None => Seq::empty(),
    }
}

/// The messages of an update, in the order of delivery: after a
/// successful poll the progress summary, then the changes if there are
/// any; after the failure that suspends the character, the alert.
pub open spec fn notices_after(
    storage: StorageV1View,
    retries: u64,
    poll: PollView,
    now: i64,
) -> Seq<NoticeView> {
    let progress = match poll {
        PollView::Refreshed { skills: Some(skills), skill_queue: Some(skill_queue), .. } => seq![
            NoticeView::Progress { channel_id: storage.discord_channel_id, skill_queue, now },
        ],
        _ => Seq::empty(),
    };
    let changes = if reported_changes(storage, poll, now).len() > 0 {
        seq![
            NoticeView::Changes {
                thread_id: storage.discord_activity_thread_id,
                changes: reported_changes(storage, poll, now),
            },
        ]
    } else {
        Seq::empty()
    };
    let alert = if retries_after(retries, poll) >= SUSPEND_AFTER {
        seq![
            NoticeView::Suspended {
                thread_id: storage.discord_activity_thread_id,
                discord_character_id: storage.discord_character_id,
            },
        ]
    } else {
        Seq::empty()
    };
    progress + changes + alert
}

/// The report of an update.
pub open spec fn report_after(
    storage: StorageV1View,
    retries: u64,
    poll: PollView,
    now: i64,
) -> UpdateReportView {
    UpdateReportView {
        keep: retries_after(retries, poll) < SUSPEND_AFTER,
        failure: poll_failure(poll),
        notices: notices_after(storage, retries, poll, now),
    }
}

/// One update of `character` at time `now`, from what the progress source
/// answered: counts the failure or clears the count, brings the polled
/// skills up to date, stores them with the new credential, and suspends
/// the character once `SUSPEND_AFTER` updates failed in a row. Whatever
/// the outcome, `storage` is to be written back afterwards.
pub fn update_character_at(
    character: &mut Character,
    storage: &mut StorageV1,
    poll: Poll,
    now: i64,
) -> (report: UpdateReport)
    ensures
        final(character).id == old(character).id,
        final(character).retries == retries_after(old(character).retries, poll@),
        final(storage)@ == storage_after(old(storage)@, old(character).retries, poll@, now),
        report@ == report_after(old(storage)@, old(character).retries, poll@, now),
{
    let mut notices: Vec<Notice> = Vec::new();
    let mut failure: Option<UpdateFailure> = Some(UpdateFailure::RefreshToken);
    match poll {
        Poll::RefreshFailed => {},
        Poll::Refreshed { refresh_token, skills, skill_queue } => {
            match skills {
                None => {
                    failure = Some(UpdateFailure::Skills);
                },
                Some(skills) => {
                    match skill_queue {
                        None => {
                            failure = Some(UpdateFailure::SkillQueue);
                        },
                        Some(skill_queue) => {
                            failure = None;
                            let mut new_skills = skills.skills;
                            reconcile(&mut new_skills, &skill_queue, now);
                            let changes = if storage.skills.len() != 0 {
                                detect_changes(&storage.skills, &new_skills)
                            } else {
                                Vec::new()
                            };
                            notices.push(
                                Notice::Progress {
                                    channel_id: storage.discord_channel_id,
                                    skill_queue,
                                    now,
                                },
                            );
                            if changes.len() > 0 {
                                notices.push(
                                    Notice::Changes {
                                        thread_id: storage.discord_activity_thread_id,
                                        changes,
                                    },
                                );
                            }
                            storage.skills = new_skills;
                            storage.refresh_token = refresh_token;
                        },
                    }
                },
            }
        },
    }
    if failure.is_some() {
        if character.retries < SUSPEND_AFTER {
            character.retries = character.retries + 1;
        }
    } else {
        character.retries = 0;
    }
    let keep = character.retries < SUSPEND_AFTER;
    if !keep {
        notices.push(
            Notice::Suspended {
                thread_id: storage.discord_activity_thread_id,
                discord_character_id: storage.discord_character_id,
            },
        );
        storage.expired = true;
    }
    let report = UpdateReport { keep, failure, notices };
    proof {
        assert(report@.notices =~= notices_after(
            old(storage)@,
            old(character).retries,
            poll@,
            now,
        ));
    }
    report
}

/// `chrono::Utc::now` followed by `DateTime::timestamp`: the system time in
/// whole seconds since the Unix epoch. Nothing is claimed of the value; the
/// call does not return where the system clock stands before the epoch.
#[verifier::external_body]
pub(crate) fn utc_now() -> i64 {
    chrono::Utc::now().timestamp()
}

/// `update_character_at` has brought `character`, `storage` and `report`
/// about at time `now`.
pub open spec fn updated_at(
    character_before: Character,
    storage_before: StorageV1View,
    poll: PollView,
    now: i64,
    character: Character,
    storage: StorageV1View,
    report: UpdateReportView,
) -> bool {
    &&& character.id == character_before.id
    &&& character.retries == retries_after(character_before.retries, poll)
    &&& storage == storage_after(storage_before, character_before.retries, poll, now)
    &&& report == report_after(storage_before, character_before.retries, poll, now)
}

/// `update_character_at` at the time that the system clock shows.
pub fn update_character(character: &mut Character, storage: &mut StorageV1, poll: Poll) -> (report:
    UpdateReport)
    ensures
        exists|now: i64|
            updated_at(
                *old(character),
                old(storage)@,
                poll@,
                now,
                *final(character),
                final(storage)@,
                report@,
            ),
{
    let now = utc_now();
    let report = update_character_at(character, storage, poll, now);
    assert(updated_at(*old(character), old(storage)@, poll@, now, *character, storage@, report@));
    report
}

/// The update that brings the failures in a row to `SUSPEND_AFTER` takes
/// the character out of the rotation, marks its record as suspended and
/// ends with the alert; any other update keeps the character, leaves the
/// mark as it was and sends no alert.
pub proof fn lemma_suspension(storage: StorageV1View, retries: u64, poll: PollView, now: i64)
    ensures
        retries_after(retries, poll) >= SUSPEND_AFTER <==> !report_after(
            storage,
            retries,
            poll,
            now,
        ).keep,
        !report_after(storage, retries, poll, now).keep ==> {
            &&& storage_after(storage, retries, poll, now).expired
            &&& poll_failure(poll) is Some
            &&& notices_after(storage, retries, poll, now) == seq![
                NoticeView::Suspended {
                    thread_id: storage.discord_activity_thread_id,
                    discord_character_id: storage.discord_character_id,
                },
            ]
        },
        report_after(storage, retries, poll, now).keep ==> {
            &&& storage_after(storage, retries, poll, now).expired == storage.expired
            &&& forall|i: int|
                0 <= i < notices_after(storage, retries, poll, now).len() ==> !(
                #[trigger] notices_after(storage, retries, poll, now)[i] is Suspended)
        },
{
    if !report_after(storage, retries, poll, now).keep {
        assert(notices_after(storage, retries, poll, now) =~= seq![
            NoticeView::Suspended {
                thread_id: storage.discord_activity_thread_id,
                discord_character_id: storage.discord_character_id,
            },
        ]);
    }
}

/// A character with `retries` failures in a row is suspended by the
/// failure that makes them `SUSPEND_AFTER`, and by no update before it.
pub proof fn lemma_retry_budget(retries: u64, poll: PollView)
    requires
        retries < SUSPEND_AFTER,
    ensures
        retries_after(retries, poll) >= SUSPEND_AFTER <==> (poll_failure(poll) is Some && retries
            == SUSPEND_AFTER - 1),
        poll_failure(poll) is None ==> retries_after(retries, poll) == 0,
        poll_failure(poll) is Some ==> retries_after(retries, poll) == retries + 1,
{
}

/// The first successful update of a character reports no changes,
/// whatever skills it shows, and stores those skills.
pub proof fn lemma_first_poll(storage: StorageV1View, retries: u64, poll: PollView, now: i64)
    requires
        storage.skills.len() == 0,
        poll_failure(poll) is None,
    ensures
        polled_skills(poll, now) is Some,
        storage_after(storage, retries, poll, now).skills == polled_skills(poll, now)->0,
        forall|i: int|
            0 <= i < notices_after(storage, retries, poll, now).len() ==> !(
            #[trigger] notices_after(storage, retries, poll, now)[i] is Changes),
        notices_after(storage, retries, poll, now).len() == 1,
        notices_after(storage, retries, poll, now)[0] is Progress,
{
}

/// A failed update leaves the stored credential and skills as they were:
/// a credential that brought no skills is not kept.
pub proof fn lemma_failed_update_keeps_record(
    storage: StorageV1View,
    retries: u64,
    poll: PollView,
    now: i64,
)
    requires
        poll_failure(poll) is Some,
    ensures
        storage_after(storage, retries, poll, now) == (StorageV1View {
            expired: storage.expired || retries_after(retries, poll) >= SUSPEND_AFTER,
            ..storage
        }),
{
}

} // verus!
