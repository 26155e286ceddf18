use phone_backup::audit::manifest_plan;
use phone_backup::cloud::{cloud_test_result, open_cloud_operator, plan_cloud_test, CloudCheck, CloudProbe};
use phone_backup::device::{
    adb_connect_outcome, adb_connect_target, adb_version_line, doctor_report,
    get_wireless_pairing_info, is_busy_error, is_confirmation, usb_serial, PAIRING_PORT,
};
use phone_backup::files::{
    candidate_paths, category_matches, chat_title, display_name, extension, find_file_in_workspace,
    first_found, is_calendar_file, is_image_mime, is_json_file, is_netscape_bookmarks,
    is_note_file, is_telegram_path, is_wifi_config_store, keep_telegram_item, keep_video,
    probe_file,
};
use phone_backup::kit::{recovery_kit_document, recovery_kit_page};
use phone_backup::observer::IndicatifProgressObserver;
use phone_backup::options::{TelegramMediaType, VideoQuality};
use phone_backup::snapshots::{
    in_sync, is_latest_alias, no_snapshot_message, restore_message, restore_target, total_size,
};
use phone_backup::tally::summarize;
use phone_backup::whatsapp::{sync_status, SyncMeta};

#[test]
fn file_recognition() {
    assert!(is_calendar_file("/sdcard/Download/events.ICS"));
    assert!(is_calendar_file("a/b.vcs"));
    assert!(!is_calendar_file("/sdcard/ics"));
    assert!(!is_calendar_file("/sdcard/.ics"));
    assert!(is_note_file("/sdcard/Notes/todo.MD"));
    assert!(is_note_file("/sdcard/MyNotes/a.txt"));
    assert!(!is_note_file("/sdcard/Docs/a.txt"));
    assert!(is_json_file("keep/a.json"));
    assert!(!is_json_file("keep/a.JSON"));
    assert!(is_wifi_config_store("WifiConfigStore.xml", ""));
    assert!(is_wifi_config_store("store.bak", "<WifiConfigStoreData>"));
    assert!(!is_wifi_config_store("wpa_supplicant.conf", "network={"));
    assert!(is_netscape_bookmarks("<!DOCTYPE NETSCAPE-Bookmark-file-1>"));
    assert!(is_netscape_bookmarks("<DL><H3>Bar</H3>"));
    assert!(!is_netscape_bookmarks("{\"roots\": {}}"));
    assert!(is_telegram_path("/sdcard/Android/media/org.telegram.messenger/Telegram Images/1.jpg"));
    assert!(is_telegram_path("/sdcard/Telegram/Telegram Audio/a.ogg"));
    assert!(is_telegram_path("/sdcard/TELEGRAM X/a.jpg"));
    assert!(is_telegram_path("/x/Telegram Video/a.mp4"));
    assert!(!is_telegram_path("/x/Telegramvideo/a.mp4"));
    assert!(is_image_mime("image/jpeg"));
    assert!(!is_image_mime("video/mp4"));
    assert!(category_matches("Photos", "PHOTOS"));
    assert!(!category_matches("Photos", "videos"));
}

#[test]
fn path_parts() {
    assert_eq!(extension("/a/b.tar.gz"), Some("gz".to_string()));
    assert_eq!(extension("/a/.bashrc"), None);
    assert_eq!(display_name("/sdcard/DCIM/a.mp4"), "a.mp4");
    assert_eq!(display_name("/"), "/");
    assert_eq!(chat_title("chats/WhatsApp Chat with Ana.txt"), "WhatsApp Chat with Ana");
    assert_eq!(chat_title(""), "WhatsApp Chat");
}

#[test]
fn listing_filters() {
    assert!(keep_telegram_item(TelegramMediaType::Photo, 10, None, None));
    assert!(keep_telegram_item(TelegramMediaType::Photo, 10, Some(TelegramMediaType::Photo), Some(10)));
    assert!(!keep_telegram_item(TelegramMediaType::Photo, 9, None, Some(10)));
    assert!(!keep_telegram_item(TelegramMediaType::Video, 10, Some(TelegramMediaType::Photo), None));
    assert!(keep_video(true, 100, Some(50), VideoQuality::Hd720p, Some(VideoQuality::Hd720p)));
    assert!(!keep_video(false, 100, None, VideoQuality::Hd720p, None));
    assert!(!keep_video(true, 10, Some(50), VideoQuality::Hd720p, None));
    assert!(!keep_video(true, 100, None, VideoQuality::Unknown, Some(VideoQuality::Hd720p)));
}

#[test]
fn workspace_lookup() {
    assert_eq!(
        candidate_paths("WifiConfigStore.xml"),
        vec![
            "workspace/WifiConfigStore.xml".to_string(),
            "../../workspace/WifiConfigStore.xml".to_string(),
            "../workspace/WifiConfigStore.xml".to_string(),
        ]
    );
    assert_eq!(candidate_paths("/abs/file")[0], "/abs/file");
    assert_eq!(probe_file("no_such_file_7f3a.json"), None);
    assert_eq!(find_file_in_workspace("no_such_file_7f3a.json", Some("/tmp")), None);
    assert_eq!(find_file_in_workspace("no_such_file_7f3a.json", None), None);
    let cands = vec!["a".to_string(), "b".to_string(), "c".to_string()];
    assert_eq!(first_found(&cands, &vec![false, true, true]), Some("b".to_string()));
    assert_eq!(first_found(&cands, &vec![false, false, false]), None);
    assert_eq!(first_found(&cands, &vec![false]), None);
}

#[test]
fn device_decisions() {
    assert!(is_busy_error("device is opened exclusively by another process"));
    assert!(is_busy_error("operation timed out"));
    assert!(is_busy_error("Error: SessionAlreadyOpen"));
    assert!(!is_busy_error("permission denied"));
    assert!(is_confirmation(" Y\n"));
    assert!(is_confirmation("y"));
    assert!(!is_confirmation("yes"));
    assert_eq!(usb_serial("usb://serial/R58M123"), Some("R58M123".to_string()));
    assert_eq!(usb_serial("usb://serial/usb://serial/X"), Some("X".to_string()));
    assert_eq!(usb_serial("A1B2C3D4"), None);
    assert_eq!(adb_version_line("Android Debug Bridge version 1.0.41\nVersion 35.0.2"), "Android Debug Bridge version 1.0.41");
    assert_eq!(adb_version_line(""), "Unknown");
    let r = doctor_report(Some("Android Debug Bridge version 1.0.41\n".to_string()), 2);
    assert!(r.adb_found && r.db_healthy);
    assert_eq!(r.adb_version, "Android Debug Bridge version 1.0.41");
    assert_eq!(r.device_count, 2);
    let none = doctor_report(None, 0);
    assert!(!none.adb_found);
    assert_eq!(none.adb_version, "Not Found");
}

#[test]
fn wireless_adb() {
    assert_eq!(adb_connect_target(" 192.168.1.5 ", None), "192.168.1.5:5555");
    assert_eq!(adb_connect_target("phone.local", Some(37000)), "phone.local:37000");
    assert_eq!(adb_connect_outcome("connected to 192.168.1.5:5555\n"), Ok("connected to 192.168.1.5:5555".to_string()));
    assert_eq!(adb_connect_outcome("already connected to x\n"), Ok("already connected to x".to_string()));
    assert_eq!(adb_connect_outcome("failed to connect to x\n"), Err("failed to connect to x".to_string()));
}

#[test]
fn pairing_details() {
    let info = get_wireless_pairing_info(Some("10.0.0.2".to_string()));
    assert_eq!(info.ip_address, "10.0.0.2");
    assert_eq!(info.port, PAIRING_PORT);
    assert_eq!(info.port, 3030);
    let t = &info.pairing_token;
    assert_eq!(t.len(), 36);
    assert_eq!(&t[14..15], "4");
    assert!("89ab".contains(&t[19..20]));
    assert_eq!(info.qr_payload, format!("phonebackup://pair?ip=10.0.0.2&port=3030&token={}", t));
    assert_eq!(info.server_status, "Active (Listening on 0.0.0.0:3030)");
    let local = get_wireless_pairing_info(None);
    assert_eq!(local.ip_address, "127.0.0.1");
    assert_ne!(local.pairing_token, info.pairing_token);
}

fn probe_message(p: &CloudProbe) -> Option<(bool, String, String)> {
    match p {
        CloudProbe::Finished(r) => Some((r.success, r.message.clone(), r.provider.clone())),
        _ => None,
    }
}

#[test]
fn cloud_test_plans() {
    let blank = plan_cloud_test("s3", "  ", None, None, None, None);
    assert_eq!(probe_message(&blank), Some((false, "Bucket name cannot be empty".to_string(), "s3".to_string())));
    match plan_cloud_test("MinIO", "b", Some("http://h:9000".into()), Some(" ".into()), Some("ak".into()), None) {
        CloudProbe::S3 { bucket, region, endpoint, access_key, secret_key } => {
            assert_eq!(bucket, "b");
            assert_eq!(region, None);
            assert_eq!(endpoint, Some("http://h:9000".to_string()));
            assert_eq!(access_key, Some("ak".to_string()));
            assert_eq!(secret_key, None);
        }
        _ => panic!("expected S3"),
    }
    let no_ep = plan_cloud_test("webdav", "b", Some(" ".into()), None, None, None);
    assert_eq!(probe_message(&no_ep), Some((false, "WebDAV endpoint URL cannot be empty".to_string(), "webdav".to_string())));
    match plan_cloud_test("Nextcloud", "b", Some("https://dav".into()), None, Some("u".into()), Some("p".into())) {
        CloudProbe::Webdav { endpoint, username, password } => {
            assert_eq!(endpoint, "https://dav");
            assert_eq!(username, Some("u".to_string()));
            assert_eq!(password, Some("p".to_string()));
        }
        _ => panic!("expected WebDAV"),
    }
    let mock = plan_cloud_test("gcs", "b", None, None, None, None);
    assert_eq!(probe_message(&mock), Some((true, "Mock test passed for provider: gcs".to_string(), "gcs".to_string())));
}

#[test]
fn cloud_test_answers() {
    let s3 = plan_cloud_test("s3", "photos", None, None, None, None);
    let ok = cloud_test_result(&s3, "s3", &CloudCheck::Passed);
    assert!(ok.success);
    assert_eq!(ok.message, "Successfully connected to S3 bucket 'photos'");
    let failed = cloud_test_result(&s3, "s3", &CloudCheck::Failed("denied".into()));
    assert!(!failed.success);
    assert_eq!(failed.message, "S3 connection failed: denied");
    let bad = cloud_test_result(&s3, "s3", &CloudCheck::ConfigInvalid("bucket".into()));
    assert_eq!(bad.message, "Invalid S3 configuration: bucket");
    let dav = plan_cloud_test("webdav", "x", Some("https://dav".into()), None, None, None);
    assert_eq!(cloud_test_result(&dav, "webdav", &CloudCheck::Passed).message, "Successfully connected to WebDAV server at 'https://dav'");
    assert_eq!(cloud_test_result(&dav, "webdav", &CloudCheck::Failed("e".into())).message, "WebDAV connection failed: e");
    assert_eq!(cloud_test_result(&dav, "webdav", &CloudCheck::ConfigInvalid("e".into())).message, "Invalid WebDAV configuration: e");
    let mock = plan_cloud_test("other", "x", None, None, None, None);
    let kept = cloud_test_result(&mock, "ignored", &CloudCheck::Failed("e".into()));
    assert!(kept.success);
    assert_eq!(kept.provider, "other");
    assert!(open_cloud_operator(&mock).is_none());
    assert!(open_cloud_operator(&dav).is_some());
}

#[test]
fn recovery_kit() {
    let page = recovery_kit_page("Mon, 1 Jan 2024 00:00:00 +0000", "age1pub", "AGE-SECRET-KEY-1");
    assert!(page.starts_with("<!DOCTYPE html>"));
    assert!(page.contains("<div class=\"date\">Generated on: Mon, 1 Jan 2024 00:00:00 +0000</div>"));
    assert!(page.contains("<div class=\"key\">age1pub</div>"));
    assert!(page.contains("<div class=\"key\">AGE-SECRET-KEY-1</div>"));
    assert!(page.contains("--privkey \"AGE-SECRET-KEY-1\" restore &lt;SNAPSHOT_ID&gt; -t ./restored_folder</div>"));
    assert!(page.contains("body { font-family"));
    assert!(page.ends_with("</html>"));
    let now = recovery_kit_document("p", "s");
    assert!(now.contains("<div class=\"key\">p</div>"));
}

#[test]
fn snapshot_decisions() {
    assert!(is_latest_alias("last"));
    assert!(!is_latest_alias("Last"));
    assert_eq!(restore_target(Some("out".into()), "dev", "20240101_000000"), "out");
    assert_eq!(restore_target(None, "A1B2", "20240101_120000"), "restored_A1B2_20240101_120000");
    assert_eq!(restore_message(Some("*.jpg"), "s1", "t"), "Restoring files matching '*.jpg' from snapshot s1 to t...");
    assert_eq!(restore_message(None, "s1", "t"), "Restoring snapshot s1 to t...");
    assert_eq!(total_size(&vec![1, 2, 3]), 6);
    assert_eq!(total_size(&vec![]), 0);
    assert_eq!(no_snapshot_message("A1"), "No previous snapshots found for device A1. Run a backup first!");
    assert!(in_sync(0, 0, 0));
    assert!(!in_sync(0, 1, 0));
}

#[test]
fn whatsapp_status() {
    let s = sync_status(Some(SyncMeta { total_chats: Some(3), total_messages: None, synced_at: Some("now".into()) }), false);
    assert!(s.has_synced_data);
    assert_eq!(s.total_chats, 3);
    assert_eq!(s.total_messages, 0);
    assert_eq!(s.synced_at, Some("now".to_string()));
    assert!(!s.has_qr_file);
    let none = sync_status(None, true);
    assert!(!none.has_synced_data && none.has_qr_file);
    assert_eq!(none.total_chats + none.total_messages, 0);
}

#[test]
fn audit_manifest() {
    let pool = vec![
        "manifest".to_string(),
        "com.example.app".to_string(),
        "android.permission.CAMERA".to_string(),
        "x".to_string(),
        "android.permission.INTERNET".to_string(),
    ];
    let m = manifest_plan(Some(pool));
    assert_eq!(m.package_name, "com.example.app");
    assert_eq!((m.min_sdk, m.target_sdk), (26, 34));
    assert_eq!(m.permissions, vec!["android.permission.CAMERA".to_string(), "android.permission.INTERNET".to_string()]);
    let plain = manifest_plan(Some(vec!["abc".to_string()]));
    assert_eq!(plain.package_name, "com.unknown.app");
    assert!(plain.permissions.is_empty());
    let fallback = manifest_plan(None);
    assert_eq!(fallback.package_name, "com.app.audited");
    assert_eq!((fallback.min_sdk, fallback.target_sdk), (28, 34));
    assert_eq!(fallback.permissions, vec!["android.permission.INTERNET".to_string()]);
}

#[test]
fn observer_lines() {
    let o = IndicatifProgressObserver::new();
    assert_eq!(o.finish_line("Backup done"), "✨ Backup done");
    let d: IndicatifProgressObserver = Default::default();
    assert_eq!(d.finish_line(""), "✨ ");
}

#[test]
fn summaries() {
    let labels: Vec<String> = ["Photo", "Voice Note", "Photo", "Document"].iter().map(|s| s.to_string()).collect();
    let sizes = vec![10, 5, 20, 1];
    let sum = summarize(&labels, &sizes);
    let lines: Vec<(String, usize, u64)> = sum.iter().map(|t| (t.label.clone(), t.count, t.bytes)).collect();
    assert_eq!(
        lines,
        vec![
            ("Document".to_string(), 1, 1),
            ("Photo".to_string(), 2, 30),
            ("Voice Note".to_string(), 1, 5),
        ]
    );
    assert!(summarize(&vec![], &vec![]).is_empty());
    let total: usize = sum.iter().map(|t| t.count).sum();
    assert_eq!(total, labels.len());
}
