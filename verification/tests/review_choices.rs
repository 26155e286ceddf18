use phone_backup::cli::ExportCommands;
use phone_backup::cloud::{open_cloud_operator, operator_settings, plan_cloud_test, provider_from_lowercase, CloudProvider, OperatorSettings};
use phone_backup::device::is_yes;
use phone_backup::files::{is_json_export, mentions_telegram, note_file_from};
use phone_backup::options::{
    export_format_from_lowercase, parse_document_type, whatsapp_format_from_lowercase, DocumentType, ExportFormat,
    WhatsAppExportFormat,
};
use phone_backup::wifi::{bookmark_store_paths, wifi_store_format, BrowserProfile, WifiStoreFormat};

fn chars(s: &str) -> Vec<char> {
    s.chars().collect()
}

#[test]
fn provider_kinds() {
    assert_eq!(provider_from_lowercase(&chars("s3")), CloudProvider::S3);
    assert_eq!(provider_from_lowercase(&chars("s3-compatible")), CloudProvider::S3);
    assert_eq!(provider_from_lowercase(&chars("minio")), CloudProvider::S3);
    assert_eq!(provider_from_lowercase(&chars("nextcloud")), CloudProvider::Webdav);
    assert_eq!(provider_from_lowercase(&chars("webdav")), CloudProvider::Webdav);
    assert_eq!(provider_from_lowercase(&chars("MinIO")), CloudProvider::Other);
    assert_eq!(provider_from_lowercase(&chars("gcs")), CloudProvider::Other);
}

#[test]
fn s3_settings_reach_the_client() {
    let probe = plan_cloud_test(
        "s3",
        "bucket-1",
        Some("http://h:9000".into()),
        Some("eu-west-1".into()),
        Some("AK".into()),
        Some(" ".into()),
    );
    match operator_settings(&probe) {
        Some(OperatorSettings::S3(s)) => {
            assert_eq!(s.bucket, "bucket-1");
            assert_eq!(s.region, "eu-west-1");
            assert_eq!(s.endpoint, "http://h:9000");
            assert_eq!(s.access_key, "AK");
            assert_eq!(s.secret_key, "");
        }
        _ => panic!("S3 settings expected"),
    }
}

#[test]
fn webdav_settings_reach_the_client() {
    let probe = plan_cloud_test("WebDAV", "b", Some("https://dav.example/".into()), None, Some("me".into()), Some("pw".into()));
    match operator_settings(&probe) {
        Some(OperatorSettings::Webdav(s)) => {
            assert_eq!(s.endpoint, "https://dav.example/");
            assert_eq!(s.username, "me");
            assert_eq!(s.password, "pw");
        }
        _ => panic!("WebDAV settings expected"),
    }
    let done = plan_cloud_test("dropbox", "b", None, None, None, None);
    assert!(operator_settings(&done).is_none());
}

#[test]
fn lowercase_decisions() {
    assert!(is_yes(&chars("y")));
    assert!(!is_yes(&chars("Y")));
    assert!(!is_yes(&chars("yes")));
    assert!(mentions_telegram(&chars("/sdcard/telegram/photo.jpg")));
    assert!(mentions_telegram(&chars("/android/data/org.telegram.messenger/x")));
    assert!(mentions_telegram(&chars("/sdcard/telegram images/a.png")));
    assert!(!mentions_telegram(&chars("/sdcard/Telegram/a.png")));
    assert!(!mentions_telegram(&chars("/sdcard/telegramx/a.png")));
    assert!(note_file_from(&Some("MD".to_string()), &chars("/x/readme.md")));
    assert!(note_file_from(&Some("txt".to_string()), &chars("/notes/a.txt")));
    assert!(!note_file_from(&Some("txt".to_string()), &chars("/docs/a.txt")));
    assert!(!note_file_from(&None, &chars("/notes/a")));
    assert_eq!(whatsapp_format_from_lowercase(&chars("json")), WhatsAppExportFormat::Json);
    assert_eq!(whatsapp_format_from_lowercase(&chars("JSON")), WhatsAppExportFormat::Html);
    let sms = ExportCommands::Sms { snapshot: "s".into(), format: "ignored".into(), output: None };
    assert_eq!(export_format_from_lowercase(&sms, &chars("csv")), ExportFormat::SmsCsv);
    assert_eq!(export_format_from_lowercase(&sms, &chars("html")), ExportFormat::SmsHtml);
    assert_eq!(export_format_from_lowercase(&sms, &chars("json")), ExportFormat::SmsJson);
    assert_eq!(export_format_from_lowercase(&sms, &chars("xml")), ExportFormat::SmsXml);
    assert_eq!(export_format_from_lowercase(&sms, &chars("CSV")), ExportFormat::SmsXml);
}

#[test]
fn unknown_document_keyword_reads_as_text() {
    assert_eq!(parse_document_type("xyz"), DocumentType::TextOrCode);
    assert_eq!(parse_document_type("xyz"), parse_document_type("text"));
}

#[test]
fn device_store_files() {
    assert_eq!(wifi_store_format("/data/misc/wifi/WifiConfigStore.xml"), WifiStoreFormat::ConfigStoreXml);
    assert_eq!(wifi_store_format("/data/misc/wifi/wpa_supplicant.conf"), WifiStoreFormat::WpaSupplicant);
    assert_eq!(wifi_store_format("store.XML"), WifiStoreFormat::WpaSupplicant);
    let paths = bookmark_store_paths();
    assert_eq!(paths.len(), 3);
    assert_eq!(paths[0], ("/data/data/com.android.chrome/app_chrome/Default/Bookmarks", BrowserProfile::Chrome));
    assert_eq!(paths[1], ("/data/data/com.brave.browser/app_brave/Default/Bookmarks", BrowserProfile::Brave));
    assert_eq!(paths[2], ("/data/data/com.microsoft.emmx/app_edge/Default/Bookmarks", BrowserProfile::Edge));
    assert!(is_json_export("calls.json"));
    assert!(is_json_export(".json"));
    assert!(!is_json_export("calls.JSON"));
    assert!(!is_json_export("calls.csv"));
}

#[test]
fn opened_client_keeps_its_settings() {
    let probe = plan_cloud_test("webdav", "b", Some("https://dav.example".into()), None, Some("me".into()), None);
    let opened = open_cloud_operator(&probe).expect("a client is tried");
    match opened.settings {
        OperatorSettings::Webdav(s) => {
            assert_eq!(s.endpoint, "https://dav.example");
            assert_eq!(s.username, "me");
            assert_eq!(s.password, "");
        }
        _ => panic!("WebDAV settings expected"),
    }
    let s3 = plan_cloud_test("s3", "bkt", Some("http://127.0.0.1:9000".into()), Some("us-east-1".into()), Some("AK".into()), Some("SK".into()));
    match open_cloud_operator(&s3).expect("a client is tried").settings {
        OperatorSettings::S3(s) => {
            assert_eq!(s.bucket, "bkt");
            assert_eq!(s.endpoint, "http://127.0.0.1:9000");
            assert_eq!(s.region, "us-east-1");
            assert_eq!(s.access_key, "AK");
            assert_eq!(s.secret_key, "SK");
        }
        _ => panic!("S3 settings expected"),
    }
}
