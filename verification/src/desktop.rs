//! Start-up and monitoring decisions of the desktop front end: where its
//! workspace lives, which storage backend it opens, and what it announces
//! when devices come and go.

use vstd::prelude::*;
use crate::files::{join_path, joined};

verus! {

/// Where the desktop front end keeps its files.
pub struct WorkspaceLayout {
    pub workspace: String,
    pub database: String,
    pub backups: String,
}

/// The workspace under the application data folder `app_data_dir`, with
/// the database `backup.db` and the backup store `backups` inside it.
pub fn workspace_layout(app_data_dir: &str) -> (layout: WorkspaceLayout)
    ensures
        layout.workspace@ == joined(app_data_dir@, "workspace"@),
        layout.database@ == joined(layout.workspace@, "backup.db"@),
        layout.backups@ == joined(layout.workspace@, "backups"@),
{
    let workspace = join_path(app_data_dir, "workspace");
    let database = join_path(workspace.as_str(), "backup.db");
    let backups = join_path(workspace.as_str(), "backups");
    WorkspaceLayout { workspace, database, backups }
}

/// The storage backend saved in the desktop settings.
pub enum SavedBackend {
    Local,
    Mock,
    S3 { bucket: String, region: String, endpoint: String, access_key: String, secret_key: String },
}

/// The storage backend the desktop front end opens.
pub enum StartupStorage {
    /// Files under the given folder.
    Local { root: String },
    /// The in-memory store.
    Mock,
    /// An S3 bucket.
    S3 { bucket: String, region: String, endpoint: String, access_key: String, secret_key: String },
}

/// The backend opened at start-up: the saved one, local storage going to
/// the workspace's backup store.
pub fn startup_storage(saved: SavedBackend, layout: &WorkspaceLayout) -> (chosen: StartupStorage)
    ensures
        match saved {
            SavedBackend::Local => chosen == (StartupStorage::Local { root: layout.backups }),
            SavedBackend::Mock => chosen == StartupStorage::Mock,
            SavedBackend::S3 { bucket, region, endpoint, access_key, secret_key } =>
                chosen == (StartupStorage::S3 { bucket, region, endpoint, access_key, secret_key }),
        },
{
    match saved {
        SavedBackend::Local => StartupStorage::Local { root: layout.backups.clone() },
        SavedBackend::Mock => StartupStorage::Mock,
        SavedBackend::S3 { bucket, region, endpoint, access_key, secret_key } =>
            StartupStorage::S3 { bucket, region, endpoint, access_key, secret_key },
    }
}

/// The backend opened when the saved S3 bucket cannot be reached: local
/// storage in the workspace's backup store.
pub fn s3_fallback(layout: &WorkspaceLayout) -> (chosen: StartupStorage)
    ensures
        chosen == (StartupStorage::Local { root: layout.backups }),
{
    StartupStorage::Local { root: layout.backups.clone() }
}

/// A change of the devices plugged into the computer.
pub enum HardwareEvent {
    Connected { device_id: String },
    Disconnected { device_id: String },
}

/// A step the desktop front end takes about a hardware event.
pub enum MonitorAction {
    /// Emits a front-end event with a text payload.
    Emit { event: String, payload: String },
    /// Emits `device-connected` with the details of the connected device.
    EmitDevice,
    /// Starts the automatic backup of a device in the background.
    AutoBackup { device_id: String },
}

/// Whether `a` emits `event` with `payload`.
pub open spec fn emits(a: MonitorAction, event: Seq<char>, payload: Seq<char>) -> bool {
    a matches MonitorAction::Emit { event: e, payload: p } && e@ == event && p@ == payload
}

fn emit(event: &str, payload: &str) -> (a: MonitorAction)
    ensures
        emits(a, event@, payload@),
{
    MonitorAction::Emit { event: event.to_owned(), payload: payload.to_owned() }
}

/// The steps taken when a device comes or goes. A connected device is
/// announced as `device-changed` / `connected`, then with its details, and
/// its automatic backup starts. A disconnected one is announced as
/// `device-changed` / `disconnected`, then as `device-disconnected` with its id.
pub fn hardware_actions(event: &HardwareEvent) -> (actions: Vec<MonitorAction>)
    ensures
        match *event {
            HardwareEvent::Connected { device_id } => {
                &&& actions@.len() == 3
                &&& emits(actions@[0], "device-changed"@, "connected"@)
                &&& actions@[1] is EmitDevice
                &&& (actions@[2] matches MonitorAction::AutoBackup { device_id: d } && d@ == device_id@)
            },
            HardwareEvent::Disconnected { device_id } => {
                &&& actions@.len() == 2
                &&& emits(actions@[0], "device-changed"@, "disconnected"@)
                &&& emits(actions@[1], "device-disconnected"@, device_id@)
            },
        },
{
    let mut actions: Vec<MonitorAction> = Vec::new();
    match event {
        HardwareEvent::Connected { device_id } => {
            actions.push(emit("device-changed", "connected"));
            actions.push(MonitorAction::EmitDevice);
            actions.push(MonitorAction::AutoBackup { device_id: device_id.clone() });
        },
        HardwareEvent::Disconnected { device_id } => {
            actions.push(emit("device-changed", "disconnected"));
            actions.push(emit("device-disconnected", device_id.as_str()));
        },
    }
    actions
}

/// What the automatic backup of a device announces once it has been asked
/// for: `auto-backup-finished` with the device id when a backup ran
/// (`Some(true)`), nothing when none was due or asking failed.
pub fn auto_backup_outcome(device_id: &str, triggered: Option<bool>) -> (notice: Option<MonitorAction>)
    ensures
        triggered == Some(true) ==> (notice matches Some(a) && emits(a, "auto-backup-finished"@, device_id@)),
        triggered != Some(true) ==> notice is None,
{
    match triggered {
        Some(true) => Some(emit("auto-backup-finished", device_id)),
        _ => None,
    }
}

/// What the automatic backup of a device announces before it starts:
/// `auto-backup-started` with the device id.
pub fn auto_backup_start(device_id: &str) -> (notice: MonitorAction)
    ensures
        emits(notice, "auto-backup-started"@, device_id@),
{
    emit("auto-backup-started", device_id)
}

} // verus!
