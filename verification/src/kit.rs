//! The printable emergency recovery kit: an HTML page holding a key pair
//! and the command that restores a backup with it.

use vstd::prelude::*;
use crate::text::{chars_of, extend_str, string_of};

verus! {

broadcast use vstd::string::group_string_axioms;

/// The page up to the generation date.
pub const KIT_HEAD: &'static str = r#"<!DOCTYPE html>
<html lang="en">
<head>
    <meta charset="UTF-8">
    <title>Phone Backup - Emergency Recovery Kit</title>
    <style>
        body { font-family: -apple-system, BlinkMacSystemFont, "Segoe UI", Roboto, sans-serif; margin: 40px; color: #1e293b; line-height: 1.5; }
        .header { border-bottom: 2px solid #0284c7; padding-bottom: 12px; margin-bottom: 24px; }
        h1 { color: #0f172a; margin: 0 0 6px 0; }
        .date { color: #64748b; font-size: 14px; }
        .alert { background: #fef2f2; border: 1px solid #fecaca; color: #991b1b; padding: 14px; border-radius: 8px; margin-bottom: 24px; font-weight: 500; }
        .box { background: #f8fafc; border: 1px solid #e2e8f0; border-radius: 8px; padding: 16px; margin-bottom: 20px; }
        .label { font-size: 13px; font-weight: 600; text-transform: uppercase; color: #475569; margin-bottom: 6px; }
        .key { font-family: monospace; font-size: 14px; word-break: break-all; background: #fff; padding: 10px; border: 1px solid #cbd5e1; border-radius: 6px; }
        .instructions { font-size: 14px; }
        .cmd { background: #0f172a; color: #38bdf8; font-family: monospace; padding: 10px; border-radius: 6px; margin-top: 8px; }
    </style>
</head>
<body>
    <div class="header">
        <h1>📱 Phone Backup — Emergency Recovery Kit</h1>
        <div class="date">Generated on: "#;

/// The page from the generation date to the public key.
pub const KIT_PUBLIC: &'static str = r#"</div>
    </div>
    <div class="alert">
        ⚠️ CONFIDENTIAL DOCUMENT: Print this document and store it in a secure offline location (e.g., safe). Anyone with access to this secret key can decrypt your backups.
    </div>
    <div class="box">
        <div class="label">Public Encryption Key (PB_PUBKEY)</div>
        <div class="key">"#;

/// The page from the public key to the secret key.
pub const KIT_SECRET: &'static str = r#"</div>
    </div>
    <div class="box">
        <div class="label">Secret Decryption Key (PB_PRIVKEY)</div>
        <div class="key">"#;

/// The page from the secret key to the restore command's key.
pub const KIT_COMMAND: &'static str = r#"</div>
    </div>
    <div class="box instructions">
        <div class="label">How to Restore Offline</div>
        <p>Run the following command to restore your encrypted snapshot:</p>
        <div class="cmd">phone-backup --privkey ""#;

/// The rest of the page.
pub const KIT_TAIL: &'static str = r#"" restore &lt;SNAPSHOT_ID&gt; -t ./restored_folder</div>
    </div>
</body>
</html>"#;

/// The recovery kit page for a generation date and a key pair.
pub open spec fn recovery_kit_html(now: Seq<char>, public: Seq<char>, secret: Seq<char>) -> Seq<char> {
    KIT_HEAD@ + now + KIT_PUBLIC@ + public + KIT_SECRET@ + secret + KIT_COMMAND@ + secret + KIT_TAIL@
}

/// Writes the recovery kit page for a generation date and a key pair.
pub fn recovery_kit_page(now: &str, public: &str, secret: &str) -> (page: String)
    ensures
        page@ == recovery_kit_html(now@, public@, secret@),
{
    let mut v = chars_of(KIT_HEAD);
    extend_str(&mut v, now);
    extend_str(&mut v, KIT_PUBLIC);
    extend_str(&mut v, public);
    extend_str(&mut v, KIT_SECRET);
    extend_str(&mut v, secret);
    extend_str(&mut v, KIT_COMMAND);
    extend_str(&mut v, secret);
    extend_str(&mut v, KIT_TAIL);
    string_of(v.as_slice())
}

/// `chrono::Utc::now().to_rfc2822()`: the current time in RFC 2822 form.
/// Nothing is promised of it: it is the clock's reading.
#[verifier::external_body]
fn utc_now_rfc2822() -> String {
    chrono::Utc::now().to_rfc2822()
}

/// The recovery kit page for a key pair, dated now.
pub fn recovery_kit_document(public: &str, secret: &str) -> (page: String)
    ensures
        exists|now: Seq<char>| page@ == recovery_kit_html(now, public@, secret@),
{
    let now = utc_now_rfc2822();
    let page = recovery_kit_page(now.as_str(), public, secret);
    assert(page@ == recovery_kit_html(now@, public@, secret@));
    page
}

} // verus!
