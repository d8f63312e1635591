use skill_monitor::esi::{EsiSkill, EsiSkillQueue, EsiSkills};
use skill_monitor::monitor::install::{
    character_id_from_subject, update_pending_message, Claims, Install,
};
use skill_monitor::monitor::storage::{MonitorError, StorageV1};
use skill_monitor::monitor::update::{Notice, Poll};
use skill_monitor::monitor::{Character, Monitor};

const NOW: i64 = 1_700_000_000;

fn claims(sub: &str) -> Claims {
    Claims { sub: sub.to_string(), name: "Jane Doe".to_string() }
}

fn record(expired: bool) -> StorageV1 {
    StorageV1 {
        refresh_token: "old".to_string(),
        expired,
        eve_character_id: 42,
        eve_character_name: "Jane Doe".to_string(),
        discord_character_id: 7,
        discord_guild_id: 8,
        discord_channel_id: 9,
        discord_activity_thread_id: 10,
        skills: vec![EsiSkill {
            skill_id: 3300,
            skillpoints_in_skill: 1,
            trained_skill_level: 2,
            active_skill_level: 2,
        }],
    }
}

fn success() -> Poll {
    Poll::Refreshed {
        refresh_token: "newer".to_string(),
        skills: Some(EsiSkills { skills: vec![], total_sp: 0, unallocated_sp: 0 }),
        skill_queue: Some(EsiSkillQueue(vec![])),
    }
}

fn monitor_with(id: u64) -> Monitor {
    let mut monitor = Monitor::new("storage".to_string());
    let mut stored = record(false);
    stored.eve_character_id = id;
    monitor.load_all_eve_characters(&vec![(id, stored)]);
    monitor
}

#[test]
fn subject_names_the_character_in_its_third_field() {
    assert_eq!(character_id_from_subject("CHARACTER:EVE:95465499"), Some(95465499));
    assert_eq!(character_id_from_subject("CHARACTER:EVE:42"), Some(42));
    assert_eq!(character_id_from_subject("a:b:42:d:e"), Some(42));
    assert_eq!(character_id_from_subject("::42"), Some(42));
    assert_eq!(character_id_from_subject("::42:"), Some(42));
    assert_eq!(character_id_from_subject("::+42"), Some(42));
}

#[test]
fn subject_without_a_number_in_its_third_field_names_nobody() {
    assert_eq!(character_id_from_subject(""), None);
    assert_eq!(character_id_from_subject("42"), None);
    assert_eq!(character_id_from_subject("CHARACTER:42"), None);
    assert_eq!(character_id_from_subject("CHARACTER:EVE:"), None);
    assert_eq!(character_id_from_subject("CHARACTER:EVE::42"), None);
    assert_eq!(character_id_from_subject("CHARACTER:EVE:Jane"), None);
    assert_eq!(character_id_from_subject("CHARACTER:EVE:-42"), None);
    assert_eq!(character_id_from_subject("CHARACTER:EVE: 42"), None);
    assert_eq!(character_id_from_subject("CHARACTER:EVE:18446744073709551616"), None);
    assert_eq!(character_id_from_subject("42:EVE:CHARACTER"), None);
}

#[test]
fn subject_agrees_with_split_and_parse() {
    let subjects = vec!["CHARACTER:EVE:1", "a:b", "a:b:c", "::", ":::", "1:2:3:4", "é:ü:77:ß"];
    for subject in subjects {
        let expected = subject.split(':').nth(2).and_then(|field| field.parse::<u64>().ok());
        assert_eq!(character_id_from_subject(subject), expected, "subject {:?}", subject);
    }
}

#[test]
fn pending_message() {
    assert_eq!(update_pending_message(), "Update pending ...");
}

#[test]
fn registration_without_claims_is_refused() {
    let monitor = Monitor::new("storage".to_string());
    assert_eq!(
        monitor.install(None, Err(MonitorError::CharacterNotFound), &"new".to_string()),
        Install::Rejected(MonitorError::Internal)
    );
}

#[test]
fn registration_with_a_subject_that_names_nobody_is_refused() {
    let monitor = Monitor::new("storage".to_string());
    assert_eq!(
        monitor.install(Some(&claims("CHARACTER:EVE")), Ok(record(true)), &"new".to_string()),
        Install::Rejected(MonitorError::Internal)
    );
}

#[test]
fn registration_of_a_character_in_the_rotation_is_refused() {
    let monitor = monitor_with(42);
    let subject = claims("CHARACTER:EVE:42");
    assert_eq!(
        monitor.install(Some(&subject), Ok(record(false)), &"new".to_string()),
        Install::Rejected(MonitorError::ActivelyMonitored)
    );
    assert_eq!(
        monitor.install(Some(&subject), Ok(record(true)), &"new".to_string()),
        Install::Rejected(MonitorError::ActivelyMonitored)
    );
    assert_eq!(
        monitor.install(Some(&subject), Err(MonitorError::CharacterNotFound), &"new".to_string()),
        Install::Rejected(MonitorError::ActivelyMonitored)
    );
}

#[test]
fn registration_of_a_new_character_sets_it_up() {
    let mut monitor = monitor_with(41);
    let subject = claims("CHARACTER:EVE:42");
    let install =
        monitor.install(Some(&subject), Err(MonitorError::CharacterNotFound), &"new".to_string());
    assert_eq!(install, Install::Create { eve_character_id: 42, eve_character_name: "Jane Doe".to_string() });

    let mut storage = Monitor::create_eve_character(
        "new".to_string(),
        42,
        subject.name.clone(),
        7,
        8,
        9,
        10,
    );
    assert!(!storage.expired);
    assert_eq!(storage.skills, Vec::<EsiSkill>::new());
    assert_eq!(storage.eve_character_id, 42);
    assert_eq!(storage.eve_character_name, "Jane Doe");

    assert!(!monitor.has_eve_character(42));
    let report = monitor.queue_eve_character_at(42, &mut storage, success(), NOW);
    assert_eq!(
        report.notices,
        vec![Notice::Progress { channel_id: 9, skill_queue: EsiSkillQueue(vec![]), now: NOW }]
    );
    assert_eq!(storage.refresh_token, "newer");
    assert_eq!(
        monitor.characters(),
        vec![Character { id: 41, retries: 0 }, Character { id: 42, retries: 0 }]
    );
    assert_eq!(monitor.current(), Some(Character { id: 41, retries: 0 }));
}

#[test]
fn registration_over_an_unreadable_record_sets_the_character_up_anew() {
    let monitor = Monitor::new("storage".to_string());
    assert_eq!(
        monitor.install(
            Some(&claims("CHARACTER:EVE:42")),
            Err(MonitorError::InvalidStorage),
            &"new".to_string()
        ),
        Install::Create { eve_character_id: 42, eve_character_name: "Jane Doe".to_string() }
    );
}

#[test]
fn registration_over_a_record_in_use_sets_the_character_up_anew() {
    let monitor = Monitor::new("storage".to_string());
    assert_eq!(
        monitor.install(Some(&claims("CHARACTER:EVE:42")), Ok(record(false)), &"new".to_string()),
        Install::Create { eve_character_id: 42, eve_character_name: "Jane Doe".to_string() }
    );
}

#[test]
fn registration_of_a_suspended_character_takes_its_record_up_again() {
    let mut monitor = monitor_with(41);
    let install =
        monitor.install(Some(&claims("CHARACTER:EVE:42")), Ok(record(true)), &"new".to_string());
    let mut expected = record(true);
    expected.expired = false;
    expected.refresh_token = "new".to_string();
    assert_eq!(install, Install::Resume { eve_character_id: 42, storage: expected.clone() });
    assert_eq!(expected.discord_channel_id, 9);
    assert_eq!(expected.discord_activity_thread_id, 10);
    assert_eq!(expected.discord_guild_id, 8);

    let mut storage = match install {
        Install::Resume { storage, .. } => storage,
        other => panic!("unexpected decision {:?}", other),
    };
    monitor.queue_eve_character_at(42, &mut storage, success(), NOW);
    assert!(monitor.has_eve_character(42));
    assert!(!storage.expired);
    assert_eq!(
        monitor.install(Some(&claims("CHARACTER:EVE:42")), Ok(storage), &"again".to_string()),
        Install::Rejected(MonitorError::ActivelyMonitored)
    );
}

#[test]
fn suspension_and_resurrection() {
    let mut monitor = monitor_with(42);
    let mut storage = record(false);
    for _ in 0..8 {
        monitor.run_at(&mut storage, Poll::RefreshFailed, NOW);
    }
    assert!(storage.expired);
    assert!(!monitor.has_eve_character(42));
    let install =
        monitor.install(Some(&claims("CHARACTER:EVE:42")), Ok(storage), &"new".to_string());
    let mut storage = match install {
        Install::Resume { storage, .. } => storage,
        other => panic!("unexpected decision {:?}", other),
    };
    assert!(!storage.expired);
    assert_eq!(storage.refresh_token, "new");
    assert_eq!(storage.skills, record(false).skills);
    monitor.queue_eve_character_at(42, &mut storage, Poll::RefreshFailed, NOW);
    assert_eq!(monitor.characters(), vec![Character { id: 42, retries: 1 }]);
}
