use phone_backup::cli::{adapter_kind, AdapterKind};
use phone_backup::wifi::{find_ssid, password_cell, wifi_store_paths};

#[test]
fn adapter_names() {
    assert_eq!(adapter_kind("adb"), AdapterKind::Adb);
    assert_eq!(adapter_kind("agent"), AdapterKind::Agent);
    assert_eq!(adapter_kind("mtp"), AdapterKind::Mtp);
    assert_eq!(adapter_kind("folder"), AdapterKind::Folder);
    assert_eq!(adapter_kind("mock"), AdapterKind::Mock);
    assert_eq!(adapter_kind("ADB"), AdapterKind::Mock);
}

#[test]
fn ssid_lookup() {
    let ssids = vec!["Office_Fiber_5G".to_string(), "guest".to_string(), "GUEST".to_string()];
    assert_eq!(find_ssid(&ssids, "office_fiber_5g"), Some(0));
    assert_eq!(find_ssid(&ssids, "Guest"), Some(1));
    assert_eq!(find_ssid(&ssids, "Home"), None);
    assert_eq!(find_ssid(&vec![], "x"), None);
}

#[test]
fn password_column() {
    assert_eq!(password_cell(true, Some("UltraSecret".into()), "U*********t".into()), "UltraSecret");
    assert_eq!(password_cell(true, None, "".into()), "[None]");
    assert_eq!(password_cell(false, Some("UltraSecret".into()), "U*********t".into()), "U*********t");
}

#[test]
fn probe_order() {
    assert_eq!(
        wifi_store_paths(),
        vec![
            "/data/misc/apexdata/com.android.wifi/WifiConfigStore.xml",
            "/data/misc/wifi/WifiConfigStore.xml",
            "/data/misc/wifi/wpa_supplicant.conf",
        ]
    );
}
