use phone_backup::files::ext_matches;
use phone_backup::desktop::{
    auto_backup_outcome, auto_backup_start, hardware_actions, s3_fallback, startup_storage, workspace_layout,
    HardwareEvent, MonitorAction, SavedBackend, StartupStorage,
};

fn emitted(a: &MonitorAction) -> Option<(String, String)> {
    match a {
        MonitorAction::Emit { event, payload } => Some((event.clone(), payload.clone())),
        _ => None,
    }
}

#[test]
fn workspace_under_app_data() {
    let l = workspace_layout("/home/u/.local/share/phone-backup");
    assert_eq!(l.workspace, "/home/u/.local/share/phone-backup/workspace");
    assert_eq!(l.database, "/home/u/.local/share/phone-backup/workspace/backup.db");
    assert_eq!(l.backups, "/home/u/.local/share/phone-backup/workspace/backups");
    let t = workspace_layout("/data/");
    assert_eq!(t.workspace, "/data/workspace");
}

#[test]
fn saved_backend_is_opened() {
    let l = workspace_layout("/app");
    match startup_storage(SavedBackend::Local, &l) {
        StartupStorage::Local { root } => assert_eq!(root, "/app/workspace/backups"),
        _ => panic!("local storage expected"),
    }
    assert!(matches!(startup_storage(SavedBackend::Mock, &l), StartupStorage::Mock));
    let s3 = SavedBackend::S3 {
        bucket: "b".to_string(),
        region: "eu-west-1".to_string(),
        endpoint: "https://s3.example".to_string(),
        access_key: "ak".to_string(),
        secret_key: "sk".to_string(),
    };
    match startup_storage(s3, &l) {
        StartupStorage::S3 { bucket, region, endpoint, access_key, secret_key } => {
            assert_eq!((bucket.as_str(), region.as_str()), ("b", "eu-west-1"));
            assert_eq!(endpoint, "https://s3.example");
            assert_eq!((access_key.as_str(), secret_key.as_str()), ("ak", "sk"));
        }
        _ => panic!("S3 storage expected"),
    }
    match s3_fallback(&l) {
        StartupStorage::Local { root } => assert_eq!(root, "/app/workspace/backups"),
        _ => panic!("local storage expected"),
    }
}

#[test]
fn device_connection_is_announced_and_backed_up() {
    let acts = hardware_actions(&HardwareEvent::Connected { device_id: "R58M".to_string() });
    assert_eq!(acts.len(), 3);
    assert_eq!(emitted(&acts[0]), Some(("device-changed".to_string(), "connected".to_string())));
    assert!(matches!(acts[1], MonitorAction::EmitDevice));
    match &acts[2] {
        MonitorAction::AutoBackup { device_id } => assert_eq!(device_id, "R58M"),
        _ => panic!("automatic backup expected"),
    }
}

#[test]
fn device_removal_is_announced() {
    let acts = hardware_actions(&HardwareEvent::Disconnected { device_id: "R58M".to_string() });
    assert_eq!(acts.len(), 2);
    assert_eq!(emitted(&acts[0]), Some(("device-changed".to_string(), "disconnected".to_string())));
    assert_eq!(emitted(&acts[1]), Some(("device-disconnected".to_string(), "R58M".to_string())));
}

#[test]
fn auto_backup_announcements() {
    assert_eq!(emitted(&auto_backup_start("d1")), Some(("auto-backup-started".to_string(), "d1".to_string())));
    let done = auto_backup_outcome("d1", Some(true)).expect("a notice");
    assert_eq!(emitted(&done), Some(("auto-backup-finished".to_string(), "d1".to_string())));
    assert!(auto_backup_outcome("d1", Some(false)).is_none());
    assert!(auto_backup_outcome("d1", None).is_none());
}

#[test]
fn extension_comparison() {
    assert!(ext_matches(&Some("ICS".to_string()), "ics"));
    assert!(ext_matches(&Some("ics".to_string()), "ics"));
    assert!(!ext_matches(&Some("icsx".to_string()), "ics"));
    assert!(!ext_matches(&None, "ics"));
}
