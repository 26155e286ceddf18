//! Choices made when listing saved Wi-Fi networks.

use vstd::prelude::*;
use crate::display::string_texts;
use crate::text::{chars_of, ends_with, eq_ascii_nocase, eq_ignore_ascii_case, has_suffix};

verus! {

broadcast use vstd::string::group_string_axioms;

/// The device files saved Wi-Fi networks are read from, in the order they
/// are tried.
pub fn wifi_store_paths() -> (paths: Vec<&'static str>)
    ensures
        paths@.len() == 3,
        paths@[0]@ == "/data/misc/apexdata/com.android.wifi/WifiConfigStore.xml"@,
        paths@[1]@ == "/data/misc/wifi/WifiConfigStore.xml"@,
        paths@[2]@ == "/data/misc/wifi/wpa_supplicant.conf"@,
{
    let mut paths: Vec<&'static str> = Vec::new();
    paths.push("/data/misc/apexdata/com.android.wifi/WifiConfigStore.xml");
    paths.push("/data/misc/wifi/WifiConfigStore.xml");
    paths.push("/data/misc/wifi/wpa_supplicant.conf");
    paths
}

/// The first network whose name equals `wanted` ignoring ASCII case.
pub fn find_ssid(ssids: &Vec<String>, wanted: &str) -> (found: Option<usize>)
    ensures
        match found {
            Some(i) => i < ssids@.len() && eq_ascii_nocase(string_texts(ssids@)[i as int], wanted@)
                && forall|j: int| 0 <= j < i ==> !eq_ascii_nocase(#[trigger] string_texts(ssids@)[j], wanted@),
            None => forall|j: int| 0 <= j < ssids@.len() ==> !eq_ascii_nocase(#[trigger] string_texts(ssids@)[j], wanted@),
        },
{
    let w = chars_of(wanted);
    let mut i: usize = 0;
    while i < ssids.len()
        invariant
            w@ == wanted@,
            i <= ssids@.len(),
            forall|j: int| 0 <= j < i ==> !eq_ascii_nocase(#[trigger] string_texts(ssids@)[j], wanted@),
        decreases ssids@.len() - i,
    {
        let s = chars_of(ssids[i].as_str());
        assert(string_texts(ssids@)[i as int] == s@);
        if eq_ignore_ascii_case(s.as_slice(), w.as_slice()) {
            return Some(i);
        }
        i = i + 1;
    }
    None
}

/// The password column of a network: the stored key (or `[None]`) when
/// passwords are shown, else its masked form.
pub fn password_cell(show: bool, pre_shared_key: Option<String>, masked: String) -> (cell: String)
    ensures
        cell@ == (if show {
            match pre_shared_key {
                Some(k) => k@,
                None => "[None]"@,
            }
        } else {
            masked@
        }),
{
    if show {
        match pre_shared_key {
            Some(k) => k,
            None => "[None]".to_owned(),
        }
    } else {
        masked
    }
}

/// How a saved Wi-Fi store file is written.
#[derive(PartialEq, Eq, Structural, Clone, Copy, Debug)]
pub enum WifiStoreFormat {
    /// Android's `WifiConfigStore` XML.
    ConfigStoreXml,
    /// A `wpa_supplicant` configuration.
    WpaSupplicant,
}

/// How a store file on the device is read: as `WifiConfigStore` XML when
/// its path ends with `.xml`, as a `wpa_supplicant` configuration otherwise.
pub fn wifi_store_format(path: &str) -> (f: WifiStoreFormat)
    ensures
        f == (if has_suffix(path@, ".xml"@) { WifiStoreFormat::ConfigStoreXml } else { WifiStoreFormat::WpaSupplicant }),
{
    let p = chars_of(path);
    let x = chars_of(".xml");
    if ends_with(p.as_slice(), x.as_slice()) {
        WifiStoreFormat::ConfigStoreXml
    } else {
        WifiStoreFormat::WpaSupplicant
    }
}

/// Browsers whose bookmarks are read from the device.
#[derive(PartialEq, Eq, Structural, Clone, Copy, Debug)]
pub enum BrowserProfile {
    Chrome,
    Brave,
    Edge,
}

/// The device files browser bookmarks are read from, with their browsers,
/// in the order they are read.
pub fn bookmark_store_paths() -> (paths: Vec<(&'static str, BrowserProfile)>)
    ensures
        paths@.len() == 3,
        paths@[0].0@ == "/data/data/com.android.chrome/app_chrome/Default/Bookmarks"@,
        paths@[0].1 == BrowserProfile::Chrome,
        paths@[1].0@ == "/data/data/com.brave.browser/app_brave/Default/Bookmarks"@,
        paths@[1].1 == BrowserProfile::Brave,
        paths@[2].0@ == "/data/data/com.microsoft.emmx/app_edge/Default/Bookmarks"@,
        paths@[2].1 == BrowserProfile::Edge,
{
    let mut paths: Vec<(&'static str, BrowserProfile)> = Vec::new();
    paths.push(("/data/data/com.android.chrome/app_chrome/Default/Bookmarks", BrowserProfile::Chrome));
    paths.push(("/data/data/com.brave.browser/app_brave/Default/Bookmarks", BrowserProfile::Brave));
    paths.push(("/data/data/com.microsoft.emmx/app_edge/Default/Bookmarks", BrowserProfile::Edge));
    paths
}

} // verus!
