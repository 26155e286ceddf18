//! The command line model: global options, subcommands, and the decisions
//! taken from them before any device or repository is touched.

use vstd::prelude::*;
use crate::text::{chars_of, same_chars};

verus! {

/// Global options of the command line program.
pub struct Cli {
    pub adapter: String,
    pub storage: String,
    pub s3_bucket: Option<String>,
    pub s3_region: Option<String>,
    pub s3_endpoint: Option<String>,
    pub s3_access_key: Option<String>,
    pub s3_secret_key: Option<String>,
    pub gcs_bucket: Option<String>,
    pub gcs_credential: Option<String>,
    pub azure_container: Option<String>,
    pub azure_account_name: Option<String>,
    pub azure_account_key: Option<String>,
    pub webdav_endpoint: Option<String>,
    pub webdav_user: Option<String>,
    pub webdav_password: Option<String>,
    /// Public key for asymmetric encryption.
    pub pubkey: Option<String>,
    /// Private key for asymmetric decryption.
    pub privkey: Option<String>,
    pub command: Commands,
}

/// Subcommands of the command line program.
pub enum Commands {
    Keygen,
    RecoveryKit { output: String },
    Devices,
    DeviceInfo { id: String },
    Scan {
        id: String,
        category: Option<String>,
        min_size: Option<u64>,
        max_size: Option<u64>,
        sort: String,
        limit: usize,
    },
    Diff { id: String },
    Apps { id: String },
    Backup {
        id: String,
        repo: String,
        password: Option<String>,
        includes: Option<Vec<String>>,
        exclude: Option<Vec<String>>,
        compression: String,
        medium: String,
    },
    Snapshots { id: String, snapshot: Option<String> },
    Restore {
        snapshot_id: String,
        target: Option<String>,
        password: Option<String>,
        filter: Option<String>,
    },
    Verify { password: Option<String> },
    Stats,
    Gc,
    Doctor,
    Search { query: String },
    Contacts { query: String },
    Sms { query: String },
    Clone { source: String, target: String },
    Photos { id: String },
    Schedule { command: ScheduleCommands },
    Export(ExportArgs),
    Audit(AuditArgs),
    Whatsapp(WhatsAppArgs),
    Audio(AudioArgs),
    Documents(DocumentsArgs),
    Videos(VideosArgs),
    Calls(CallsArgs),
    Calendar(CalendarArgs),
    Telegram(TelegramArgs),
    Notes(NotesArgs),
    Wifi(WifiArgs),
    Bookmarks(BookmarksArgs),
}

/// Schedule management subcommands.
pub enum ScheduleCommands {
    Add { id: String, frequency: String },
    List,
    Run { password: Option<String> },
}

/// Options of the `export` subcommand.
pub struct ExportArgs {
    pub command: ExportCommands,
}

/// What the `export` subcommand exports.
pub enum ExportCommands {
    Contacts { snapshot: String, format: String, output: Option<String> },
    Sms { snapshot: String, format: String, output: Option<String> },
    Calls { snapshot: String, format: String, output: Option<String> },
}

/// Options of the `audit` subcommand.
pub struct AuditArgs {
    pub apk: Option<String>,
    pub format: String,
    pub output: Option<String>,
}

/// Options of the `whatsapp` subcommand.
pub struct WhatsAppArgs {
    pub command: WhatsAppCommands,
}

/// WhatsApp tools.
pub enum WhatsAppCommands {
    Paths,
    Decrypt { file: String, key: String, output: String },
    Export { input: Option<String>, format: String, output: String },
}

/// Options of the `audio` subcommand.
pub struct AudioArgs {
    pub command: AudioCommands,
}

/// Audio tools.
pub enum AudioCommands {
    Inspect { path: String },
    Waveform { path: String },
}

/// Options of the `documents` subcommand.
pub struct DocumentsArgs {
    pub id: String,
    pub doc_type: Option<String>,
    pub min_size: Option<u64>,
    pub limit: usize,
    pub preview: bool,
}

/// Options of the `videos` subcommand.
pub struct VideosArgs {
    pub id: String,
    pub quality: Option<String>,
    pub container: Option<String>,
    pub min_size: Option<u64>,
    pub limit: usize,
    pub preview: bool,
}

/// Options of the `calls` subcommand.
pub struct CallsArgs {
    pub id: String,
    pub call_type: Option<String>,
    pub contact: Option<String>,
    pub min_duration: Option<u64>,
    pub limit: usize,
    pub export: Option<String>,
}

/// Options of the `calendar` subcommand.
pub struct CalendarArgs {
    pub id: String,
    pub upcoming: bool,
    pub category: Option<String>,
    pub query: Option<String>,
    pub limit: usize,
    pub export: Option<String>,
}

/// Options of the `telegram` subcommand.
pub struct TelegramArgs {
    pub id: String,
    pub media_type: Option<String>,
    pub min_size: Option<u64>,
    pub limit: usize,
    pub import_json: Option<String>,
    pub export_html: Option<String>,
}

/// Options of the `notes` subcommand.
pub struct NotesArgs {
    pub id: String,
    pub tag: Option<String>,
    pub pinned: bool,
    pub query: Option<String>,
    pub limit: usize,
    pub import_keep: Option<String>,
    pub export_html: Option<String>,
}

/// Options of the `wifi` subcommand.
pub struct WifiArgs {
    pub id: String,
    pub show_passwords: bool,
    pub qr: Option<String>,
    pub security: Option<String>,
    pub hidden_only: bool,
    pub query: Option<String>,
    pub limit: usize,
    pub import: Option<String>,
    pub export: Option<String>,
}

/// Options of the `bookmarks` subcommand.
pub struct BookmarksArgs {
    pub id: String,
    pub browser: Option<String>,
    pub folder: Option<String>,
    pub query: Option<String>,
    pub limit: usize,
    pub import: Option<String>,
    pub export_html: Option<String>,
    pub export_md: Option<String>,
    pub export_json: Option<String>,
}

/// Whether `s` is exactly the text `lit`.
pub fn is_text(s: &str, lit: &str) -> (r: bool)
    ensures
        r == (s@ == lit@),
{
    let a = chars_of(s);
    let b = chars_of(lit);
    same_chars(a.as_slice(), b.as_slice())
}

/// The text of an optional value, or `default` when it is absent.
pub open spec fn text_or(o: Option<String>, default: Seq<char>) -> Seq<char> {
    match o {
        Some(s) => s@,
        None => default,
    }
}

fn clone_or(o: &Option<String>, default: &str) -> (r: String)
    ensures
        r@ == text_or(*o, default@),
{
    match o {
        Some(s) => s.clone(),
        None => default.to_owned(),
    }
}

/// How backups are encrypted, or decrypted.
pub enum EncryptionMode {
    Unencrypted,
    Password(String),
    /// A public key, for asymmetric encryption.
    PublicKey(String),
    /// A private key, for asymmetric decryption.
    PrivateKey(String),
}

/// The encryption taken from the global key options: the public key when
/// one is given, else the private key for decryption, else none.
pub fn key_encryption(pubkey: Option<String>, privkey: Option<String>) -> (mode: EncryptionMode)
    ensures
        match pubkey {
            Some(pk) => mode == EncryptionMode::PublicKey(pk),
            None => match privkey {
                Some(sk) => mode == EncryptionMode::PrivateKey(sk),
                None => mode == EncryptionMode::Unencrypted,
            },
        },
{
    if let Some(pk) = pubkey {
        EncryptionMode::PublicKey(pk)
    } else if let Some(sk) = privkey {
        EncryptionMode::PrivateKey(sk)
    } else {
        EncryptionMode::Unencrypted
    }
}

/// The encryption of one command: a password given to the command wins over
/// the encryption taken from the global key options.
pub fn password_or(password: Option<String>, fallback: EncryptionMode) -> (mode: EncryptionMode)
    ensures
        match password {
            Some(p) => mode == EncryptionMode::Password(p),
            None => mode == fallback,
        },
{
    match password {
        Some(p) => EncryptionMode::Password(p),
        None => fallback,
    }
}

/// Where backups are stored, with the settings the backend is opened with.
pub enum StorageConfig {
    S3 { bucket: String, region: String, endpoint: String, access_key: String, secret_key: String },
    Gcs { bucket: String, credential: String },
    Azure { container: String, endpoint: String, account: String, key: String },
    Webdav { endpoint: String, user: String, password: String },
    Local { root: String },
}

/// Chooses the storage backend from the command line options.
pub struct StorageFactory;

impl StorageFactory {
    /// The storage backend named by `--storage`, each missing setting
    /// replaced by its default (the empty text, and `us-east-1` for the S3
    /// region). Azure takes its endpoint from the S3 endpoint option. Any
    /// other backend name selects local storage under `workspace/backups`.
    pub fn storage_plan(cli: &Cli) -> (plan: StorageConfig)
        ensures
            cli.storage@ == "s3"@ ==> plan is S3 && plan->S3_bucket@ == text_or(cli.s3_bucket, seq![])
                && plan->region@ == text_or(cli.s3_region, "us-east-1"@)
                && plan->S3_endpoint@ == text_or(cli.s3_endpoint, seq![])
                && plan->access_key@ == text_or(cli.s3_access_key, seq![])
                && plan->secret_key@ == text_or(cli.s3_secret_key, seq![]),
            cli.storage@ == "gcs"@ ==> plan is Gcs
                && plan->Gcs_bucket@ == text_or(cli.gcs_bucket, seq![])
                && plan->credential@ == text_or(cli.gcs_credential, seq![]),
            cli.storage@ == "azure"@ ==> plan is Azure
                && plan->container@ == text_or(cli.azure_container, seq![])
                && plan->Azure_endpoint@ == text_or(cli.s3_endpoint, seq![])
                && plan->account@ == text_or(cli.azure_account_name, seq![])
                && plan->key@ == text_or(cli.azure_account_key, seq![]),
            (cli.storage@ == "webdav"@ || cli.storage@ == "nextcloud"@) ==> plan is Webdav
                && plan->Webdav_endpoint@ == text_or(cli.webdav_endpoint, seq![])
                && plan->user@ == text_or(cli.webdav_user, seq![])
                && plan->password@ == text_or(cli.webdav_password, seq![]),
            !(cli.storage@ == "s3"@ || cli.storage@ == "gcs"@ || cli.storage@ == "azure"@
                || cli.storage@ == "webdav"@ || cli.storage@ == "nextcloud"@) ==> plan is Local
                && plan->root@ == "workspace/backups"@,
    {
        let kind = cli.storage.as_str();
        proof {
            reveal_strlit("s3");
            reveal_strlit("gcs");
            reveal_strlit("azure");
            reveal_strlit("webdav");
            reveal_strlit("nextcloud");
            reveal_strlit("");
            reveal_strlit("us-east-1");
            assert("s3"@.len() == 2 && "gcs"@.len() == 3 && "azure"@.len() == 5);
            assert("webdav"@.len() == 6 && "nextcloud"@.len() == 9);
            assert("gcs"@[0] != "s3"@[0] && "webdav"@[0] != "nextcloud"@[0]);
        }
        if is_text(kind, "s3") {
            StorageConfig::S3 {
                bucket: clone_or(&cli.s3_bucket, ""),
                region: clone_or(&cli.s3_region, "us-east-1"),
                endpoint: clone_or(&cli.s3_endpoint, ""),
                access_key: clone_or(&cli.s3_access_key, ""),
                secret_key: clone_or(&cli.s3_secret_key, ""),
            }
        } else if is_text(kind, "gcs") {
            StorageConfig::Gcs {
                bucket: clone_or(&cli.gcs_bucket, ""),
                credential: clone_or(&cli.gcs_credential, ""),
            }
        } else if is_text(kind, "azure") {
            StorageConfig::Azure {
                container: clone_or(&cli.azure_container, ""),
                endpoint: clone_or(&cli.s3_endpoint, ""),
                account: clone_or(&cli.azure_account_name, ""),
                key: clone_or(&cli.azure_account_key, ""),
            }
        } else if is_text(kind, "webdav") || is_text(kind, "nextcloud") {
            StorageConfig::Webdav {
                endpoint: clone_or(&cli.webdav_endpoint, ""),
                user: clone_or(&cli.webdav_user, ""),
                password: clone_or(&cli.webdav_password, ""),
            }
        } else {
            StorageConfig::Local { root: "workspace/backups".to_owned() }
        }
    }
}

/// The device connections the command line program can use.
#[derive(PartialEq, Eq, Structural, Clone, Copy, Debug)]
pub enum AdapterKind {
    /// Android Debug Bridge.
    Adb,
    /// The companion agent app on the phone.
    Agent,
    /// Media Transfer Protocol over USB.
    Mtp,
    /// The current directory, standing in for a device.
    Folder,
    /// The built-in simulated device.
    Mock,
}

/// The connection named by `--adapter`: `adb`, `agent`, `mtp`, `folder`, and
/// the simulated device for any other name.
pub fn adapter_kind(name: &str) -> (kind: AdapterKind)
    ensures
        name@ == "adb"@ ==> kind == AdapterKind::Adb,
        name@ != "adb"@ && name@ == "agent"@ ==> kind == AdapterKind::Agent,
        name@ != "adb"@ && name@ != "agent"@ && name@ == "mtp"@ ==> kind == AdapterKind::Mtp,
        name@ != "adb"@ && name@ != "agent"@ && name@ != "mtp"@ && name@ == "folder"@ ==> kind == AdapterKind::Folder,
        name@ != "adb"@ && name@ != "agent"@ && name@ != "mtp"@ && name@ != "folder"@ ==> kind == AdapterKind::Mock,
{
    if is_text(name, "adb") {
        AdapterKind::Adb
    } else if is_text(name, "agent") {
        AdapterKind::Agent
    } else if is_text(name, "mtp") {
        AdapterKind::Mtp
    } else if is_text(name, "folder") {
        AdapterKind::Folder
    } else {
        AdapterKind::Mock
    }
}

} // verus!
