use crate::esi::{display_name, find_skill, skill_position, Esi, EsiSkill};
use crate::monitor::{level_to_roman, roman_numeral};
use vstd::prelude::*;
use vstd::string::*;

verus! {

/// Something worth telling the owner of a character about one skill.
#[derive(Clone, Copy, Debug, PartialEq, Eq, Structural)]
pub enum SkillChange {
    /// The skill is now trained to `level`.
    TrainingCompleted { skill_id: i32, level: i32 },
    /// The skill is new to the character and not trained at all.
    SkillInjected { skill_id: i32 },
}

impl SkillChange {
    pub open spec fn spec_skill_id(&self) -> i32 {
        match *self {
            SkillChange::TrainingCompleted { skill_id, .. } => skill_id,
            SkillChange::SkillInjected { skill_id } => skill_id,
        }
    }

    /// The skill that the change is about.
    #[verifier::when_used_as_spec(spec_skill_id)]
    pub fn skill_id(&self) -> (skill_id: i32)
        ensures
            skill_id == self.spec_skill_id(),
    {
        match *self {
            SkillChange::TrainingCompleted { skill_id, .. } => skill_id,
            SkillChange::SkillInjected { skill_id } => skill_id,
        }
    }
}

/// What is reported of one skill of the new snapshot, given the snapshot
/// `before`: a completed training where the trained level differs from the
/// known one or where an unknown skill is already trained, an injection
/// where an unknown skill is untrained, and nothing otherwise.
pub open spec fn skill_change(before: Seq<EsiSkill>, skill: EsiSkill) -> Option<SkillChange> {
    match skill_position(before, skill.skill_id) {
        Some(i) => if before[i].trained_skill_level != skill.trained_skill_level {
            Some(
                SkillChange::TrainingCompleted {
                    skill_id: skill.skill_id,
                    level: skill.trained_skill_level,
                },
            )
        } else {
            None
        },
        None => if skill.trained_skill_level == 0 {
            Some(SkillChange::SkillInjected { skill_id: skill.skill_id })
        } else {
            Some(
                SkillChange::TrainingCompleted {
                    skill_id: skill.skill_id,
                    level: skill.trained_skill_level,
                },
            )
        },
    }
}

/// `skill_change` with the earlier snapshot fixed.
pub open spec fn change_rule(before: Seq<EsiSkill>) -> spec_fn(EsiSkill) -> Option<SkillChange> {
    |skill: EsiSkill| skill_change(before, skill)
}

/// The changes from `before` to `after`: one for each skill of `after` that
/// has something to report, in the order of `after`. Skills that only
/// `before` holds are passed over.
pub open spec fn detected_changes(before: Seq<EsiSkill>, after: Seq<EsiSkill>) -> Seq<
    SkillChange,
> {
    after.filter_map(change_rule(before))
}

/// The line of text that announces `change`.
pub open spec fn change_line(change: SkillChange, names: Map<i32, Seq<char>>) -> Seq<char> {
    match change {
        SkillChange::TrainingCompleted { skill_id, level } => "`"@ + display_name(names, skill_id)
            + " "@ + roman_numeral(level as int) + "` has finished training.\n"@,
        SkillChange::SkillInjected { skill_id } => "`"@ + display_name(names, skill_id)
            + "` has been injected.\n"@,
    }
}

/// The lines for `changes`, one after the other.
pub open spec fn change_lines(changes: Seq<SkillChange>, names: Map<i32, Seq<char>>) -> Seq<char>
    decreases changes.len(),
{
    if changes.len() == 0 {
        Seq::empty()
    } else {
        change_lines(changes.drop_last(), names) + change_line(changes.last(), names)
    }
}

/// Detection has no hidden state: on equal snapshots it reports equal
/// changes, however often it is asked.
pub proof fn lemma_detection_deterministic(
    before_a: Seq<EsiSkill>,
    after_a: Seq<EsiSkill>,
    before_b: Seq<EsiSkill>,
    after_b: Seq<EsiSkill>,
)
    requires
        before_a == before_b,
        after_a == after_b,
    ensures
        detected_changes(before_a, after_a) == detected_changes(before_b, after_b),
{
}

/// Every change that is reported is about a skill of the new snapshot, and
/// is the one that `skill_change` gives for that skill.
pub proof fn lemma_detected_change_has_source(
    before: Seq<EsiSkill>,
    after: Seq<EsiSkill>,
    change: SkillChange,
)
    requires
        detected_changes(before, after).contains(change),
    ensures
        exists|i: int|
            0 <= i < after.len() && skill_change(before, #[trigger] after[i]) == Some(change),
{
    after.lemma_filter_map_contains(change_rule(before), change);
    let skill = choose|skill: EsiSkill| #[trigger]
        after.contains(skill) && change_rule(before)(skill) == Some(change);
    let i = choose|i: int| 0 <= i < after.len() && after[i] == skill;
    assert(skill_change(before, after[i]) == Some(change));
}

/// Nothing is reported when the snapshot did not change and no skill
/// occurs in it twice.
pub proof fn lemma_no_change_no_report(skills: Seq<EsiSkill>)
    requires
        forall|i: int, j: int|
            0 <= i < j < skills.len() ==> skills[i].skill_id != skills[j].skill_id,
    ensures
        detected_changes(skills, skills) == Seq::<SkillChange>::empty(),
{
    let changes = detected_changes(skills, skills);
    if changes.len() > 0 {
        let change = changes[0];
        assert(changes.contains(change));
        lemma_detected_change_has_source(skills, skills, change);
        let i = choose|i: int|
            0 <= i < skills.len() && skill_change(skills, #[trigger] skills[i]) == Some(change);
        crate::esi::lemma_skill_position(skills, skills[i].skill_id);
    }
    assert(changes =~= Seq::<SkillChange>::empty());
}

/// What there is to report of `skill`, given the snapshot `before`.
pub fn change_of(before: &Vec<EsiSkill>, skill: &EsiSkill) -> (change: Option<SkillChange>)
    ensures
        change == skill_change(before@, *skill),
{
    match find_skill(before, skill.skill_id) {
        Some(i) => {
            if before[i].trained_skill_level != skill.trained_skill_level {
                Some(
                    SkillChange::TrainingCompleted {
                        skill_id: skill.skill_id,
                        level: skill.trained_skill_level,
                    },
                )
            } else {
                None
            }
        },
        None => {
            if skill.trained_skill_level == 0 {
                Some(SkillChange::SkillInjected { skill_id: skill.skill_id })
            } else {
                Some(
                    SkillChange::TrainingCompleted {
                        skill_id: skill.skill_id,
                        level: skill.trained_skill_level,
                    },
                )
            }
        },
    }
}

/// Compares two snapshots of one character's skills.
pub fn detect_changes(old_skills: &Vec<EsiSkill>, new_skills: &Vec<EsiSkill>) -> (changes: Vec<
    SkillChange,
>)
    ensures
        changes@ == detected_changes(old_skills@, new_skills@),
{
    let mut changes: Vec<SkillChange> = Vec::new();
    let mut i: usize = 0;
    while i < new_skills.len()
        invariant
            i <= new_skills.len(),
            changes@ == detected_changes(old_skills@, new_skills@.take(i as int)),
        decreases new_skills.len() - i,
    {
        let change = change_of(old_skills, &new_skills[i]);
        proof {
            new_skills@.lemma_filter_map_take_succ(change_rule(old_skills@), i as int);
        }
        match change {
            Some(change) => {
                changes.push(change);
            },
            None => {},
        }
        i += 1;
    }
    assert(new_skills@.take(new_skills.len() as int) =~= new_skills@);
    changes
}

/// The text that announces `changes`, with the skill names that `esi`
/// remembers.
pub fn changes_message(changes: &Vec<SkillChange>, esi: &Esi) -> (message: String)
    ensures
        message@ == change_lines(changes@, esi.skill_names()),
{
    let mut message = String::new();
    let mut i: usize = 0;
    while i < changes.len()
        invariant
            i <= changes.len(),
            message@ == change_lines(changes@.take(i as int), esi.skill_names()),
        decreases changes.len() - i,
    {
        proof {
            assert(changes@.take(i + 1).drop_last() =~= changes@.take(i as int));
        }
        let ghost before = message@;
        let name = match esi.lookup_skill_name(changes[i].skill_id()) {
            Some(name) => name,
            None => String::from_str("Unknown"),
        };
        message.append("`");
        message.append(name.as_str());
        match changes[i] {
            SkillChange::TrainingCompleted { level, .. } => {
                message.append(" ");
                message.append(level_to_roman(level));
                message.append("` has finished training.\n");
            },
            SkillChange::SkillInjected { .. } => {
                message.append("` has been injected.\n");
            },
        }
        assert(message@ =~= before + change_line(changes@[i as int], esi.skill_names()));
        i += 1;
    }
    assert(changes@.take(changes.len() as int) =~= changes@);
    message
}

/// The text that tells what changed from `old_skills` to `new_skills`;
/// empty when nothing did.
pub fn skills_change(old_skills: &Vec<EsiSkill>, new_skills: &Vec<EsiSkill>, esi: &Esi) -> (message:
    String)
    ensures
        message@ == change_lines(detected_changes(old_skills@, new_skills@), esi.skill_names()),
{
    let changes = detect_changes(old_skills, new_skills);
    changes_message(&changes, esi)
}

} // verus!
