use skill_monitor::esi::{Esi, EsiSkill};
use skill_monitor::monitor::changes::{
    change_of, changes_message, detect_changes, skills_change, SkillChange,
};

fn skill(skill_id: i32, trained_skill_level: i32) -> EsiSkill {
    EsiSkill {
        skill_id,
        skillpoints_in_skill: 1000 * trained_skill_level,
        trained_skill_level,
        active_skill_level: trained_skill_level,
    }
}

fn esi_with_names() -> Esi {
    let mut esi = Esi::new("client".to_string(), "https://example.com".to_string());
    esi.remember_skill_name(3300, "Gunnery".to_string());
    esi.remember_skill_name(3327, "Spaceship Command".to_string());
    esi
}

#[test]
fn known_skill_with_another_level_has_completed_training() {
    let before = vec![skill(3300, 2)];
    let after = vec![skill(3300, 3)];
    assert_eq!(
        detect_changes(&before, &after),
        vec![SkillChange::TrainingCompleted { skill_id: 3300, level: 3 }]
    );
}

#[test]
fn known_skill_with_a_lower_level_is_reported_too() {
    let before = vec![skill(3300, 3)];
    let after = vec![skill(3300, 2)];
    assert_eq!(
        detect_changes(&before, &after),
        vec![SkillChange::TrainingCompleted { skill_id: 3300, level: 2 }]
    );
}

#[test]
fn known_skill_with_the_same_level_is_not_reported() {
    let before = vec![skill(3300, 3)];
    let mut changed_points = skill(3300, 3);
    changed_points.skillpoints_in_skill = 99999;
    changed_points.active_skill_level = 1;
    assert_eq!(detect_changes(&before, &vec![changed_points]), Vec::<SkillChange>::new());
}

#[test]
fn unknown_untrained_skill_was_injected() {
    let before = vec![skill(3300, 3)];
    let after = vec![skill(3300, 3), skill(3327, 0)];
    assert_eq!(
        detect_changes(&before, &after),
        vec![SkillChange::SkillInjected { skill_id: 3327 }]
    );
}

#[test]
fn unknown_trained_skill_has_completed_training() {
    let before = vec![skill(3300, 3)];
    let after = vec![skill(3327, 4), skill(3300, 3)];
    assert_eq!(
        detect_changes(&before, &after),
        vec![SkillChange::TrainingCompleted { skill_id: 3327, level: 4 }]
    );
}

#[test]
fn skill_that_went_missing_is_not_reported() {
    let before = vec![skill(3300, 3), skill(3327, 1)];
    let after = vec![skill(3300, 3)];
    assert_eq!(detect_changes(&before, &after), Vec::<SkillChange>::new());
    assert_eq!(detect_changes(&before, &vec![]), Vec::<SkillChange>::new());
}

#[test]
fn changes_come_in_the_order_of_the_new_snapshot() {
    let before = vec![skill(1, 1), skill(2, 1), skill(3, 1)];
    let after = vec![skill(3, 2), skill(9, 0), skill(1, 5), skill(2, 1)];
    assert_eq!(
        detect_changes(&before, &after),
        vec![
            SkillChange::TrainingCompleted { skill_id: 3, level: 2 },
            SkillChange::SkillInjected { skill_id: 9 },
            SkillChange::TrainingCompleted { skill_id: 1, level: 5 },
        ]
    );
}

#[test]
fn first_record_of_a_skill_counts() {
    let before = vec![skill(7, 1), skill(7, 4)];
    assert_eq!(change_of(&before, &skill(7, 1)), None);
    assert_eq!(
        change_of(&before, &skill(7, 4)),
        Some(SkillChange::TrainingCompleted { skill_id: 7, level: 4 })
    );
}

#[test]
fn detection_gives_the_same_changes_every_time() {
    let before = vec![skill(1, 1), skill(2, 1), skill(3, 1)];
    let after = vec![skill(3, 2), skill(9, 0), skill(1, 5), skill(2, 1)];
    let first = detect_changes(&before, &after);
    let second = detect_changes(&before, &after);
    let third = detect_changes(&before.clone(), &after.clone());
    assert_eq!(first, second);
    assert_eq!(first, third);
}

#[test]
fn unchanged_snapshot_reports_nothing() {
    let skills = vec![skill(1, 0), skill(2, 5), skill(3, 3)];
    assert_eq!(detect_changes(&skills, &skills), Vec::<SkillChange>::new());
}

#[test]
fn change_knows_its_skill() {
    assert_eq!(SkillChange::TrainingCompleted { skill_id: 3300, level: 3 }.skill_id(), 3300);
    assert_eq!(SkillChange::SkillInjected { skill_id: 3327 }.skill_id(), 3327);
}

#[test]
fn message_of_a_completed_training() {
    let esi = esi_with_names();
    let changes = vec![SkillChange::TrainingCompleted { skill_id: 3300, level: 3 }];
    assert_eq!(changes_message(&changes, &esi), "`Gunnery III` has finished training.\n");
}

#[test]
fn message_of_an_injection() {
    let esi = esi_with_names();
    let changes = vec![SkillChange::SkillInjected { skill_id: 3327 }];
    assert_eq!(changes_message(&changes, &esi), "`Spaceship Command` has been injected.\n");
}

#[test]
fn message_with_a_name_that_is_not_remembered() {
    let esi = esi_with_names();
    let changes = vec![
        SkillChange::TrainingCompleted { skill_id: 1, level: 5 },
        SkillChange::SkillInjected { skill_id: 2 },
    ];
    assert_eq!(
        changes_message(&changes, &esi),
        "`Unknown V` has finished training.\n`Unknown` has been injected.\n"
    );
}

#[test]
fn message_with_a_level_out_of_range() {
    let esi = esi_with_names();
    let changes = vec![SkillChange::TrainingCompleted { skill_id: 3300, level: 6 }];
    assert_eq!(changes_message(&changes, &esi), "`Gunnery ??` has finished training.\n");
}

#[test]
fn message_of_no_changes_is_empty() {
    let esi = esi_with_names();
    assert_eq!(changes_message(&vec![], &esi), "");
    let skills = vec![skill(3300, 3)];
    assert_eq!(skills_change(&skills, &skills, &esi), "");
}

#[test]
fn message_of_two_snapshots() {
    let esi = esi_with_names();
    let before = vec![skill(3300, 2)];
    let after = vec![skill(3300, 3), skill(3327, 0), skill(5, 1)];
    assert_eq!(
        skills_change(&before, &after, &esi),
        "`Gunnery III` has finished training.\n`Spaceship Command` has been injected.\n`Unknown I` has finished training.\n"
    );
}
