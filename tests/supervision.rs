use sp2any::database::{downgrade, Decrypted, InvalidConstraints, ValidConstraints};
use sp2any::manager::{SupervisorError, UpdaterManager};
use sp2any::plurality::Fronter;
use sp2any::updater::{available_updaters, implemented_updaters, Platform, Updater, UpdaterStatus};
use sp2any::users::{
    create_config_with_strong_constraints, default_user_db_entries, ConfigField,
    UserConfigDbEntries, UserConfigForUpdater, UserId,
};
use sp2any::worker::UpdaterWorker;

fn secret(s: &str) -> Option<Decrypted> {
    Some(Decrypted { secret: s.to_owned() })
}

fn stored() -> UserConfigDbEntries<Decrypted> {
    UserConfigDbEntries {
        valid_constraints: None,
        wait_seconds: None,
        system_name: Some("Our System".to_owned()),
        status_prefix: None,
        status_no_fronts: None,
        status_truncate_names_to: None,
        enable_discord_status_message: Some(true),
        enable_vrchat: Some(true),
        simply_plural_token: secret("sp"),
        discord_status_message_token: secret("dc"),
        vrchat_username: secret("user"),
        vrchat_password: secret("pass"),
        vrchat_cookie: None,
    }
}

fn config(user: u128, prefix: &str) -> UserConfigForUpdater {
    let mut db = stored();
    db.status_prefix = Some(prefix.to_owned());
    create_config_with_strong_constraints(&UserId { inner: user }, &db).unwrap().0
}

fn fronter(name: &str) -> Fronter {
    Fronter { id: String::new(), name: name.to_owned(), avatar_url: String::new(), vrchat_status_name: None }
}

#[test]
fn defaults_fill_unset_fields() {
    let (c, valid) = create_config_with_strong_constraints(&UserId { inner: 7 }, &stored()).unwrap();
    assert_eq!(c.user_id, UserId { inner: 7 });
    assert_eq!(c.wait_seconds.secs, 60);
    assert_eq!(c.status_prefix, "F:");
    assert_eq!(c.status_no_fronts, "none?");
    assert_eq!(c.status_truncate_names_to, 3);
    assert_eq!(c.simply_plural_base_url, "https://api.apparyllis.com/v1");
    assert_eq!(c.discord_base_url, "https://discord.com");
    assert_eq!(c.vrchat_cookie.secret, "");
    assert_eq!(valid.valid_constraints, Some(ValidConstraints {}));
    assert_eq!(valid.wait_seconds, None);
}

#[test]
fn default_entries_hold_the_documented_values() {
    let d: UserConfigDbEntries<Decrypted> = default_user_db_entries();
    assert_eq!(d.status_prefix.as_deref(), Some("F:"));
    assert_eq!(d.status_no_fronts.as_deref(), Some("none?"));
    assert_eq!(d.status_truncate_names_to, Some(3));
    assert_eq!(d.wait_seconds, Some(60));
    assert_eq!(d.enable_vrchat, Some(false));
    assert_eq!(d.enable_discord_status_message, Some(false));
    assert!(d.system_name.is_none());
}

#[test]
fn each_missing_mandatory_field_is_reported() {
    let user = UserId { inner: 1 };
    let mut db = stored();
    db.system_name = None;
    assert_eq!(create_config_with_strong_constraints(&user, &db).unwrap_err().field, ConfigField::SystemName);
    let mut db = stored();
    db.simply_plural_token = None;
    assert_eq!(create_config_with_strong_constraints(&user, &db).unwrap_err().field, ConfigField::SimplyPluralToken);
    let mut db = stored();
    db.discord_status_message_token = None;
    assert_eq!(
        create_config_with_strong_constraints(&user, &db).unwrap_err().field,
        ConfigField::DiscordStatusMessageToken
    );
    let mut db = stored();
    db.vrchat_username = None;
    assert_eq!(create_config_with_strong_constraints(&user, &db).unwrap_err().field, ConfigField::VrchatUsername);
    let mut db = stored();
    db.vrchat_password = None;
    assert_eq!(create_config_with_strong_constraints(&user, &db).unwrap_err().field, ConfigField::VrchatPassword);
    let mut db = stored();
    db.status_truncate_names_to = Some(-3);
    assert_eq!(
        create_config_with_strong_constraints(&user, &db).unwrap_err().field,
        ConfigField::StatusTruncateNamesTo
    );
    assert_eq!(ConfigField::StatusTruncateNamesTo.name(), "status_truncate_names_to");
}

#[test]
fn negative_wait_wraps_to_a_long_wait() {
    let mut db = stored();
    db.wait_seconds = Some(-1);
    let (c, _) = create_config_with_strong_constraints(&UserId { inner: 1 }, &db).unwrap();
    assert_eq!(c.wait_seconds.secs, u64::MAX);
}

#[test]
fn credentials_of_a_disabled_platform_are_not_needed() {
    let mut db = stored();
    db.enable_discord_status_message = None;
    db.discord_status_message_token = None;
    db.enable_vrchat = Some(false);
    db.vrchat_username = None;
    db.vrchat_password = None;
    let (c, _) = create_config_with_strong_constraints(&UserId { inner: 1 }, &db).unwrap();
    assert!(!c.enable_discord_status_message);
    assert!(!c.enable_vrchat);
    assert_eq!(c.discord_base_url, "");
    assert_eq!(c.vrchat_username.secret, "");
}

#[test]
fn downgrade_keeps_values_and_clears_validation() {
    let mut db = stored();
    db.wait_seconds = Some(30);
    let d = downgrade(&db);
    assert_eq!(d.valid_constraints, Some(InvalidConstraints {}));
    assert_eq!(d.wait_seconds, Some(30));
    assert_eq!(d.system_name.as_deref(), Some("Our System"));
}

#[test]
fn platforms_are_listed_in_order() {
    assert_eq!(implemented_updaters(), vec![Platform::VRChat, Platform::DiscordStatusMessage]);
    assert_eq!(available_updaters(false), vec![Platform::VRChat]);
    assert_eq!(available_updaters(true), vec![Platform::VRChat, Platform::DiscordStatusMessage]);
    assert_eq!(Platform::DiscordStatusMessage.name(), "DiscordStatusMessage");
}

#[test]
fn adapter_status_follows_its_latest_operation() {
    let mut c = config(1, "F:");
    let mut u = Updater::new(Platform::VRChat);
    assert!(matches!(u.status(&c), UpdaterStatus::Running));
    u.record_result(Err("boom".to_owned()));
    assert!(matches!(u.status(&c), UpdaterStatus::Error(ref e) if e == "boom"));
    assert_eq!(u.last_operation_error().map(|e| e.as_str()), Some("boom"));
    u.record_result(Ok(()));
    assert!(matches!(u.status(&c), UpdaterStatus::Running));
    c.enable_vrchat = false;
    assert!(matches!(u.status(&c), UpdaterStatus::Inactive));
}

#[test]
fn adapter_without_setup_refuses_to_update() {
    let c = config(1, "F:");
    let mut u = Updater::new(Platform::VRChat);
    assert_eq!(u.prepare_update(&c, &vec![fronter("Alice")]), None);
    assert_eq!(u.last_operation_error.as_deref(), Some("Updater not initalized!"));
    u.record_setup(Ok(()));
    assert_eq!(u.prepare_update(&c, &vec![fronter("Alice😊")]), Some("F: Alice".to_owned()));
}

#[test]
fn each_platform_formats_with_its_own_rules() {
    let c = config(1, "F:");
    let mut w = UpdaterWorker::new(c, 0);
    assert_eq!(w.platforms_to_set_up(), vec![Platform::VRChat, Platform::DiscordStatusMessage]);
    w.record_setup(Platform::VRChat, Ok(()));
    w.record_setup(Platform::DiscordStatusMessage, Ok(()));
    let plan = w.plan_cycle(&Ok(vec![fronter("Zoë😊")]));
    assert_eq!(
        plan,
        vec![
            (Platform::VRChat, "F: Zoë".to_owned()),
            (Platform::DiscordStatusMessage, "F: Zoë😊".to_owned()),
        ]
    );
}

#[test]
fn one_failing_platform_does_not_affect_the_other() {
    let mut w = UpdaterWorker::new(config(1, "F:"), 0);
    w.record_setup(Platform::VRChat, Ok(()));
    w.record_setup(Platform::DiscordStatusMessage, Ok(()));
    for _cycle in 0..3 {
        let plan = w.plan_cycle(&Ok(vec![fronter("Alice")]));
        assert_eq!(plan.len(), 2);
        w.record_update(Platform::VRChat, Err("remote refused".to_owned()));
        w.record_update(Platform::DiscordStatusMessage, Ok(()));
        let s = w.statuses();
        assert_eq!(s[0].0, Platform::VRChat);
        assert!(matches!(s[0].1, UpdaterStatus::Error(ref e) if e == "remote refused"));
        assert_eq!(s[1].0, Platform::DiscordStatusMessage);
        assert!(matches!(s[1].1, UpdaterStatus::Running));
    }
}

#[test]
fn failed_fetch_sends_nothing() {
    let mut w = UpdaterWorker::new(config(1, "F:"), 0);
    w.record_setup(Platform::VRChat, Err("login failed".to_owned()));
    let plan = w.plan_cycle(&Err("feed down".to_owned()));
    assert!(plan.is_empty());
    let s = w.statuses();
    assert!(matches!(s[0].1, UpdaterStatus::Error(ref e) if e == "login failed"));
    assert!(matches!(s[1].1, UpdaterStatus::Running));
}

#[test]
fn failed_setup_is_reported_and_skips_updates() {
    let mut w = UpdaterWorker::new(config(1, "F:"), 0);
    w.record_setup(Platform::VRChat, Err("login failed".to_owned()));
    let plan = w.plan_cycle(&Ok(vec![fronter("Alice")]));
    assert_eq!(plan, vec![(Platform::DiscordStatusMessage, "F: Alice".to_owned())]);
    assert!(matches!(w.statuses()[0].1, UpdaterStatus::Error(ref e) if e == "Updater not initalized!"));
}

#[test]
fn restart_replaces_the_live_worker() {
    let mut m = UpdaterManager::new();
    let user = UserId { inner: 42 };
    let first = m.restart_updater(&user, config(42, "A:")).unwrap();
    assert_eq!(first.aborted, None);
    let second = m.restart_updater(&user, config(42, "B:")).unwrap();
    assert_eq!(second.aborted, Some(first.worker.generation));
    assert_eq!(second.worker.config.status_prefix, "B:");
    assert_eq!(m.tasks.len(), 1);
    assert_eq!(m.tasks.get(&42), Some(&second.worker.generation));
    let stale = m.set_updater_state(&user, first.worker.generation, first.worker.statuses());
    assert_eq!(stale, Err(SupervisorError::NotLiveWorker));
    assert_eq!(m.get_updaters_state(&user).unwrap_err(), SupervisorError::NoUpdatersFound);
    m.set_updater_state(&user, second.worker.generation, second.worker.statuses()).unwrap();
    let s = m.get_updaters_state(&user).unwrap();
    assert_eq!(s.len(), 2);
}

#[test]
fn users_are_supervised_independently() {
    let mut m = UpdaterManager::new();
    let a = m.restart_updater(&UserId { inner: 1 }, config(1, "A:")).unwrap();
    let b = m.restart_updater(&UserId { inner: 2 }, config(2, "B:")).unwrap();
    assert_ne!(a.worker.generation, b.worker.generation);
    m.set_updater_state(&UserId { inner: 1 }, a.worker.generation, a.worker.statuses()).unwrap();
    assert!(m.get_updaters_state(&UserId { inner: 2 }).is_err());
    assert_eq!(
        m.set_updater_state(&UserId { inner: 2 }, a.worker.generation, a.worker.statuses()),
        Err(SupervisorError::NotLiveWorker)
    );
}

#[test]
fn generations_run_out_at_the_largest_number() {
    let mut m = UpdaterManager::new();
    m.next_generation = u64::MAX;
    let r = m.restart_updater(&UserId { inner: 1 }, config(1, "F:"));
    assert!(matches!(r, Err(SupervisorError::GenerationsExhausted)));
    assert!(m.tasks.is_empty());
}
