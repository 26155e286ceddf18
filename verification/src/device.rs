//! Decisions around device connections: busy devices, USB serial numbers,
//! the ADB diagnostic, wireless ADB connections and pairing details.

use vstd::prelude::*;
use crate::options::is_word;
use crate::text::{
    chars_of, contains, decimal, decimal_chars, extend_chars, extend_str, first_line,
    first_line_of, has_infix, has_prefix, lowercase_chars, lowercased, starts_with,
    string_of, strip_prefixes, strip_prefixes_of, trim, trim_ws,
};

verus! {

broadcast use vstd::string::group_string_axioms;

/// Whether a device error means the device is held by another program or
/// its session hangs, so that closing interfering programs may help.
pub fn is_busy_error(message: &str) -> (r: bool)
    ensures
        r == (has_infix(message@, "exclusively"@) || has_infix(message@, "timed out"@)
            || has_infix(message@, "SessionAlreadyOpen"@)),
{
    let m = chars_of(message);
    let a = chars_of("exclusively");
    let b = chars_of("timed out");
    let c = chars_of("SessionAlreadyOpen");
    contains(m.as_slice(), a.as_slice()) || contains(m.as_slice(), b.as_slice()) || contains(
        m.as_slice(),
        c.as_slice(),
    )
}

/// Whether an answer typed at a yes/no prompt says yes: once trimmed and
/// lowercased it reads `y`.
pub fn is_confirmation(input: &str) -> (r: bool)
    ensures
        r == (lowercased(trim_ws(input@)) == "y"@),
{
    let raw = chars_of(input);
    let t = trim(raw.as_slice());
    let ts = string_of(t.as_slice());
    let l = lowercase_chars(ts.as_str());
    is_yes(l.as_slice())
}

/// Whether an already trimmed and lowercased answer says yes: it reads `y`.
pub fn is_yes(l: &[char]) -> (r: bool)
    ensures
        r == (l@ == "y"@),
{
    is_word(l, "y")
}

/// The prefix of the ids of devices reached over USB by serial number.
pub open spec fn usb_serial_prefix() -> Seq<char> {
    "usb://serial/"@
}

/// The USB serial number in a device id: for ids starting with
/// `usb://serial/`, the id with every leading copy of that prefix removed.
pub fn usb_serial(id: &str) -> (serial: Option<String>)
    ensures
        has_prefix(id@, usb_serial_prefix()) ==> serial is Some && serial->0@ == strip_prefixes(id@, usb_serial_prefix()),
        !has_prefix(id@, usb_serial_prefix()) ==> serial is None,
{
    let i = chars_of(id);
    let p = chars_of("usb://serial/");
    if starts_with(i.as_slice(), p.as_slice()) {
        let s = strip_prefixes_of(i.as_slice(), p.as_slice());
        Some(string_of(s.as_slice()))
    } else {
        None
    }
}

/// The version line of `adb version`: the first line of its output, or
/// `Unknown` when it printed nothing.
pub open spec fn adb_version_text(stdout: Seq<char>) -> Seq<char> {
    match first_line(stdout) {
        Some(l) => l,
        None => "Unknown"@,
    }
}

/// Reads the version line from the output of `adb version`.
pub fn adb_version_line(stdout: &str) -> (line: String)
    ensures
        line@ == adb_version_text(stdout@),
{
    let s = chars_of(stdout);
    match first_line_of(s.as_slice()) {
        Some(l) => string_of(l.as_slice()),
        None => "Unknown".to_owned(),
    }
}

/// What the desktop diagnostic reports.
pub struct DoctorReport {
    pub adb_found: bool,
    pub adb_version: String,
    pub device_count: usize,
    pub db_healthy: bool,
}

/// The desktop diagnostic from the output of `adb version` (none when the
/// program could not be run) and the number of devices found.
pub fn doctor_report(adb_stdout: Option<String>, device_count: usize) -> (report: DoctorReport)
    ensures
        report.adb_found == adb_stdout is Some,
        report.adb_version@ == (match adb_stdout {
            Some(out) => adb_version_text(out@),
            None => "Not Found"@,
        }),
        report.device_count == device_count,
        report.db_healthy,
{
    let adb_found = adb_stdout.is_some();
    let adb_version = match adb_stdout {
        Some(out) => adb_version_line(out.as_str()),
        None => "Not Found".to_owned(),
    };
    DoctorReport { adb_found, adb_version, device_count, db_healthy: true }
}

/// The `host:port` an ADB connection over the network goes to: the trimmed
/// host and the port, 5555 when none is given.
pub fn adb_connect_target(host: &str, port: Option<u16>) -> (target: String)
    ensures
        target@ == trim_ws(host@) + seq![':'] + decimal((match port {
            Some(p) => p,
            None => 5555u16,
        }) as nat),
{
    let h = chars_of(host);
    let mut v = trim(h.as_slice());
    v.push(':');
    let p: u16 = match port {
        Some(p) => p,
        None => 5555,
    };
    let d = decimal_chars(p as u64);
    extend_chars(&mut v, d.as_slice());
    string_of(v.as_slice())
}

/// Whether the output of `adb connect` reports a connection.
pub open spec fn reports_connection(stdout: Seq<char>) -> bool {
    has_infix(stdout, "connected to"@) || has_infix(stdout, "already connected"@)
}

/// The result of `adb connect`: its trimmed output, as success when it
/// reports a connection and as the error otherwise.
pub fn adb_connect_outcome(stdout: &str) -> (r: Result<String, String>)
    ensures
        reports_connection(stdout@) ==> r is Ok && r->Ok_0@ == trim_ws(stdout@),
        !reports_connection(stdout@) ==> r is Err && r->Err_0@ == trim_ws(stdout@),
{
    let s = chars_of(stdout);
    let a = chars_of("connected to");
    let b = chars_of("already connected");
    let t = trim(s.as_slice());
    let text = string_of(t.as_slice());
    if contains(s.as_slice(), a.as_slice()) || contains(s.as_slice(), b.as_slice()) {
        Ok(text)
    } else {
        Err(text)
    }
}

/// A lowercase hexadecimal digit.
pub open spec fn is_lower_hex(c: char) -> bool {
    ('0' <= c && c <= '9') || ('a' <= c && c <= 'f')
}

/// Text in the hyphenated form of a random (version 4, RFC 4122 variant)
/// UUID: 36 characters, hyphens at positions 8, 13, 18 and 23, lowercase
/// hexadecimal digits elsewhere, `4` at position 14 and one of `8`, `9`,
/// `a`, `b` at position 19.
pub open spec fn is_uuid_v4_text(s: Seq<char>) -> bool {
    &&& s.len() == 36
    &&& forall|i: int| 0 <= i < 36 ==> (if i == 8 || i == 13 || i == 18 || i == 23 {
        s[i] == '-'
    } else {
        is_lower_hex(s[i])
    })
    &&& s[14] == '4'
    &&& (s[19] == '8' || s[19] == '9' || s[19] == 'a' || s[19] == 'b')
}

/// `uuid::Uuid::new_v4()` written with `to_string`: a fresh random UUID in
/// its hyphenated lowercase form. Which UUID comes back is left open; the
/// contract states its shape, as the crate's mask of the version and
/// variant bits and its lowercase hyphenated `Display` give it.
#[verifier::external_body]
fn random_uuid_text() -> (token: String)
    ensures
        is_uuid_v4_text(token@),
{
    uuid::Uuid::new_v4().to_string()
}

/// What a phone needs to pair with the desktop over the network.
pub struct WirelessPairingInfo {
    pub ip_address: String,
    pub port: u16,
    pub pairing_token: String,
    pub qr_payload: String,
    pub server_status: String,
}

/// The port the desktop's pairing server listens on.
pub const PAIRING_PORT: u16 = 3030;

/// The link a pairing QR code carries.
pub open spec fn pairing_link(ip: Seq<char>, token: Seq<char>) -> Seq<char> {
    "phonebackup://pair?ip="@ + ip + "&port="@ + decimal(PAIRING_PORT as nat) + "&token="@ + token
}

/// Pairing details for the desktop reached at `local_ip` (`127.0.0.1` when
/// the address could not be found), with a fresh random token.
pub fn get_wireless_pairing_info(local_ip: Option<String>) -> (info: WirelessPairingInfo)
    ensures
        info.ip_address@ == (match local_ip {
            Some(ip) => ip@,
            None => "127.0.0.1"@,
        }),
        info.port == PAIRING_PORT,
        is_uuid_v4_text(info.pairing_token@),
        info.qr_payload@ == pairing_link(info.ip_address@, info.pairing_token@),
        info.server_status@ == "Active (Listening on 0.0.0.0:3030)"@,
{
    let ip = match local_ip {
        Some(ip) => ip,
        None => "127.0.0.1".to_owned(),
    };
    let token = random_uuid_text();
    let mut v = chars_of("phonebackup://pair?ip=");
    extend_str(&mut v, ip.as_str());
    extend_str(&mut v, "&port=");
    let d = decimal_chars(PAIRING_PORT as u64);
    extend_chars(&mut v, d.as_slice());
    extend_str(&mut v, "&token=");
    extend_str(&mut v, token.as_str());
    let qr_payload = string_of(v.as_slice());
    WirelessPairingInfo {
        ip_address: ip,
        port: PAIRING_PORT,
        pairing_token: token,
        qr_payload,
        server_status: "Active (Listening on 0.0.0.0:3030)".to_owned(),
    }
}

} // verus!
