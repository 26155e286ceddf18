//! The WhatsApp synchronisation status shown by the desktop front end.

use vstd::prelude::*;

verus! {

/// What the synchronisation agent records about its last run.
pub struct SyncMeta {
    pub total_chats: Option<usize>,
    pub total_messages: Option<usize>,
    pub synced_at: Option<String>,
}

/// The synchronisation status of WhatsApp data.
pub struct WhatsAppSyncStatus {
    pub has_synced_data: bool,
    pub total_chats: usize,
    pub total_messages: usize,
    pub synced_at: Option<String>,
    pub has_qr_file: bool,
}

/// The status from the agent's record, if one could be read, and whether
/// the pairing QR page exists. Missing counts read as zero.
pub fn sync_status(meta: Option<SyncMeta>, has_qr_file: bool) -> (status: WhatsAppSyncStatus)
    ensures
        status.has_qr_file == has_qr_file,
        match meta {
            Some(m) => {
                &&& status.has_synced_data
                &&& status.total_chats == (match m.total_chats {
                    Some(c) => c,
                    None => 0,
                })
                &&& status.total_messages == (match m.total_messages {
                    Some(c) => c,
                    None => 0,
                })
                &&& status.synced_at == m.synced_at
            },
            None => !status.has_synced_data && status.total_chats == 0 && status.total_messages == 0
                && status.synced_at is None,
        },
{
    match meta {
        Some(m) => WhatsAppSyncStatus {
            has_synced_data: true,
            total_chats: match m.total_chats {
                Some(c) => c,
                None => 0,
            },
            total_messages: match m.total_messages {
                Some(c) => c,
                None => 0,
            },
            synced_at: m.synced_at,
            has_qr_file,
        },
        None => WhatsAppSyncStatus {
            has_synced_data: false,
            total_chats: 0,
            total_messages: 0,
            synced_at: None,
            has_qr_file,
        },
    }
}

} // verus!
