use phone_backup::cli::{
    key_encryption, password_or, Cli, Commands, EncryptionMode, ExportCommands, StorageConfig,
    StorageFactory,
};
use phone_backup::options::{
    export_format, parse_audit_format, parse_document_type, parse_frequency,
    parse_live_data_kind, parse_structured_data_type, parse_telegram_media_type,
    parse_video_quality, parse_whatsapp_format, wifi_export_kind, AuditReportFormat,
    DocumentType, ExportFormat, LiveDataKind, ScheduleFrequency, StructuredDataType,
    TelegramMediaType, VideoQuality, WhatsAppExportFormat, WifiExportKind,
};
use phone_backup::ordering::{order_by_text, order_desc, order_desc_optional, scan_sort, text_less, ScanSort};
use phone_backup::text::chars_of;

fn cli(storage: &str) -> Cli {
    Cli {
        adapter: "mock".to_string(),
        storage: storage.to_string(),
        s3_bucket: Some("photos".to_string()),
        s3_region: None,
        s3_endpoint: Some("http://127.0.0.1:9000".to_string()),
        s3_access_key: None,
        s3_secret_key: Some("SECRET-REDACTED".to_string()),
        gcs_bucket: None,
        gcs_credential: Some("cred.json".to_string()),
        azure_container: Some("box".to_string()),
        azure_account_name: None,
        azure_account_key: None,
        webdav_endpoint: Some("https://dav.example".to_string()),
        webdav_user: Some("me".to_string()),
        webdav_password: None,
        pubkey: None,
        privkey: None,
        command: Commands::Stats,
    }
}

#[test]
fn storage_plans() {
    match StorageFactory::storage_plan(&cli("s3")) {
        StorageConfig::S3 { bucket, region, endpoint, access_key, secret_key } => {
            assert_eq!(bucket, "photos");
            assert_eq!(region, "us-east-1");
            assert_eq!(endpoint, "http://127.0.0.1:9000");
            assert_eq!(access_key, "");
            assert_eq!(secret_key, "SECRET-REDACTED");
        }
        _ => panic!("expected S3"),
    }
    match StorageFactory::storage_plan(&cli("gcs")) {
        StorageConfig::Gcs { bucket, credential } => {
            assert_eq!(bucket, "");
            assert_eq!(credential, "cred.json");
        }
        _ => panic!("expected GCS"),
    }
    match StorageFactory::storage_plan(&cli("azure")) {
        StorageConfig::Azure { container, endpoint, account, key } => {
            assert_eq!(container, "box");
            assert_eq!(endpoint, "http://127.0.0.1:9000");
            assert_eq!(account, "");
            assert_eq!(key, "");
        }
        _ => panic!("expected Azure"),
    }
    for name in ["webdav", "nextcloud"] {
        match StorageFactory::storage_plan(&cli(name)) {
            StorageConfig::Webdav { endpoint, user, password } => {
                assert_eq!(endpoint, "https://dav.example");
                assert_eq!(user, "me");
                assert_eq!(password, "");
            }
            _ => panic!("expected WebDAV"),
        }
    }
    for name in ["local", "S3", ""] {
        match StorageFactory::storage_plan(&cli(name)) {
            StorageConfig::Local { root } => assert_eq!(root, "workspace/backups"),
            _ => panic!("expected local storage"),
        }
    }
}

fn mode_text(m: EncryptionMode) -> String {
    match m {
        EncryptionMode::Unencrypted => "none".to_string(),
        EncryptionMode::Password(p) => format!("password:{}", p),
        EncryptionMode::PublicKey(k) => format!("key:{}", k),
        EncryptionMode::PrivateKey(k) => format!("private:{}", k),
    }
}

#[test]
fn encryption_choice() {
    assert_eq!(mode_text(key_encryption(Some("pk".into()), Some("sk".into()))), "key:pk");
    assert_eq!(mode_text(key_encryption(None, Some("sk".into()))), "private:sk");
    assert_eq!(mode_text(key_encryption(None, None)), "none");
    let fallback = key_encryption(Some("pk".into()), None);
    assert_eq!(mode_text(password_or(Some("pw".into()), fallback)), "password:pw");
    assert_eq!(mode_text(password_or(None, key_encryption(Some("pk".into()), None))), "key:pk");
}

#[test]
fn keyword_choices() {
    assert_eq!(parse_frequency("Hourly"), ScheduleFrequency::Hourly);
    assert_eq!(parse_frequency("WEEKLY"), ScheduleFrequency::Weekly);
    assert_eq!(parse_frequency("monthly"), ScheduleFrequency::Daily);
    assert_eq!(parse_audit_format("JSON"), AuditReportFormat::Json);
    assert_eq!(parse_audit_format("plain"), AuditReportFormat::PlainText);
    assert_eq!(parse_audit_format("md"), AuditReportFormat::Markdown);
    assert_eq!(parse_document_type("PDF"), DocumentType::Pdf);
    assert_eq!(parse_document_type("excel"), DocumentType::Spreadsheet);
    assert_eq!(parse_document_type("docx"), DocumentType::WordProcessing);
    assert_eq!(parse_document_type("pptx"), DocumentType::Presentation);
    assert_eq!(parse_document_type("epub"), DocumentType::EBook);
    assert_eq!(parse_document_type("rs"), DocumentType::TextOrCode);
    assert_eq!(parse_telegram_media_type("PTT"), TelegramMediaType::VoiceNote);
    assert_eq!(parse_telegram_media_type("round"), TelegramMediaType::VideoNote);
    assert_eq!(parse_telegram_media_type("images"), TelegramMediaType::Photo);
    assert_eq!(parse_telegram_media_type("videos"), TelegramMediaType::Video);
    assert_eq!(parse_telegram_media_type("doc"), TelegramMediaType::Document);
    assert_eq!(parse_telegram_media_type("sticker"), TelegramMediaType::Unknown);
    assert_eq!(parse_video_quality("4K"), VideoQuality::Uhd4K);
    assert_eq!(parse_video_quality("qhd"), VideoQuality::Qhd2K);
    assert_eq!(parse_video_quality("1080P"), VideoQuality::Fhd1080p);
    assert_eq!(parse_video_quality("hd"), VideoQuality::Hd720p);
    assert_eq!(parse_video_quality("sd"), VideoQuality::Sd480p);
    assert_eq!(parse_video_quality("8k"), VideoQuality::Unknown);
    assert_eq!(parse_whatsapp_format("Json"), WhatsAppExportFormat::Json);
    assert_eq!(parse_whatsapp_format("txt"), WhatsAppExportFormat::Html);
}

#[test]
fn export_choices() {
    let c = |f: &str| ExportCommands::Contacts { snapshot: "s".into(), format: f.into(), output: None };
    let m = |f: &str| ExportCommands::Sms { snapshot: "s".into(), format: f.into(), output: None };
    let l = |f: &str| ExportCommands::Calls { snapshot: "s".into(), format: f.into(), output: None };
    assert_eq!(export_format(&c("CSV")), ExportFormat::ContactsCsv);
    assert_eq!(export_format(&c("vcard")), ExportFormat::ContactsVcard);
    assert_eq!(export_format(&m("html")), ExportFormat::SmsHtml);
    assert_eq!(export_format(&m("JSON")), ExportFormat::SmsJson);
    assert_eq!(export_format(&m("csv")), ExportFormat::SmsCsv);
    assert_eq!(export_format(&m("xml")), ExportFormat::SmsXml);
    assert_eq!(export_format(&m("other")), ExportFormat::SmsXml);
    assert_eq!(export_format(&l("Stats")), ExportFormat::CallStats);
    assert_eq!(export_format(&l("json")), ExportFormat::CallLogsJson);
}

#[test]
fn desktop_data_kinds() {
    assert_eq!(parse_structured_data_type("contacts"), Ok(StructuredDataType::Contacts));
    assert_eq!(parse_structured_data_type("sms"), Ok(StructuredDataType::Sms));
    assert_eq!(parse_structured_data_type("call_logs"), Ok(StructuredDataType::CallLogs));
    assert_eq!(parse_structured_data_type("apps"), Ok(StructuredDataType::Applications));
    assert_eq!(parse_structured_data_type("wifi"), Ok(StructuredDataType::WifiNetworks));
    assert_eq!(parse_structured_data_type("settings"), Ok(StructuredDataType::DeviceSettings));
    assert_eq!(parse_structured_data_type("Contacts"), Err("Unknown structured data type: Contacts".to_string()));
    assert_eq!(parse_live_data_kind("sms"), Ok(LiveDataKind::Sms));
    assert_eq!(parse_live_data_kind("contacts"), Ok(LiveDataKind::Contacts));
    assert_eq!(parse_live_data_kind("call_logs"), Ok(LiveDataKind::CallLogs));
    assert_eq!(parse_live_data_kind("apps"), Err("Unsupported data type".to_string()));
    assert_eq!(wifi_export_kind(Some("csv")), WifiExportKind::Csv);
    assert_eq!(wifi_export_kind(Some("conf")), WifiExportKind::WpaSupplicant);
    assert_eq!(wifi_export_kind(Some("CSV")), WifiExportKind::Json);
    assert_eq!(wifi_export_kind(None), WifiExportKind::Json);
}

#[test]
fn largest_first_is_stable() {
    assert_eq!(order_desc(&vec![3, 9, 3, 1, 9]), vec![1, 4, 0, 2, 3]);
    assert_eq!(order_desc(&vec![]), Vec::<usize>::new());
    assert_eq!(order_desc(&vec![i128::MIN, i128::MAX]), vec![1, 0]);
}

#[test]
fn newest_first_puts_undated_last() {
    let keys = vec![None, Some(5), Some(7), None, Some(5)];
    assert_eq!(order_desc_optional(&keys), vec![2, 1, 4, 0, 3]);
    assert_eq!(order_desc_optional(&vec![Some(i128::MIN), None]), vec![0, 1]);
}

#[test]
fn text_order() {
    assert!(text_less(&chars_of("/a"), &chars_of("/b")));
    assert!(text_less(&chars_of("/a"), &chars_of("/a/b")));
    assert!(!text_less(&chars_of("/a"), &chars_of("/a")));
    assert!(text_less(&chars_of("Z"), &chars_of("a")));
    let paths: Vec<Vec<char>> = ["/sdcard/b", "/sdcard/a", "/sdcard/b", "/data"].iter().map(|p| chars_of(p)).collect();
    assert_eq!(order_by_text(&paths), vec![3, 1, 0, 2]);
    // The order agrees with the order of `str`.
    let words = ["é", "z", "€", "a", "ab"];
    let keys: Vec<Vec<char>> = words.iter().map(|w| chars_of(w)).collect();
    let order = order_by_text(&keys);
    let mut sorted: Vec<&str> = words.to_vec();
    sorted.sort();
    let ours: Vec<&str> = order.iter().map(|i| words[*i]).collect();
    assert_eq!(ours, sorted);
}

#[test]
fn scan_sort_names() {
    assert_eq!(scan_sort("size"), ScanSort::Size);
    assert_eq!(scan_sort("date"), ScanSort::Date);
    assert_eq!(scan_sort("name"), ScanSort::Path);
    assert_eq!(scan_sort("Size"), ScanSort::Path);
}
