//! The keywords the command line and the desktop front end accept, and what
//! each selects. Keywords typed by the user are compared after Unicode
//! lowercasing; keywords sent by the desktop front end are compared as given.

use vstd::prelude::*;
use crate::cli::ExportCommands;
use crate::text::{chars_of, extend_str, lowercase_chars, lowercased, same_chars, string_of};

verus! {

/// Whether the characters `l` are exactly the text `lit`.
pub fn is_word(l: &[char], lit: &str) -> (r: bool)
    ensures
        r == (l@ == lit@),
{
    let w = chars_of(lit);
    same_chars(l, w.as_slice())
}

/// How often a scheduled backup runs.
#[derive(PartialEq, Eq, Structural, Clone, Copy, Debug)]
pub enum ScheduleFrequency {
    Hourly,
    Daily,
    Weekly,
}

/// The frequency a lowercased keyword selects; daily unless `hourly` or `weekly`.
pub open spec fn frequency_named(l: Seq<char>) -> ScheduleFrequency {
    if l == "hourly"@ {
        ScheduleFrequency::Hourly
    } else if l == "weekly"@ {
        ScheduleFrequency::Weekly
    } else {
        ScheduleFrequency::Daily
    }
}

/// The frequency selected by an already lowercased keyword.
pub fn frequency_from_lowercase(l: &[char]) -> (f: ScheduleFrequency)
    ensures
        f == frequency_named(l@),
{
    if is_word(l, "hourly") {
        ScheduleFrequency::Hourly
    } else if is_word(l, "weekly") {
        ScheduleFrequency::Weekly
    } else {
        ScheduleFrequency::Daily
    }
}

/// The frequency selected by the `--frequency` option.
pub fn parse_frequency(s: &str) -> (f: ScheduleFrequency)
    ensures
        f == frequency_named(lowercased(s@)),
{
    let l = lowercase_chars(s);
    frequency_from_lowercase(l.as_slice())
}

/// Layout of an application security audit report.
#[derive(PartialEq, Eq, Structural, Clone, Copy, Debug)]
pub enum AuditReportFormat {
    Json,
    PlainText,
    Markdown,
}

/// The report layout a lowercased keyword selects; Markdown unless `json` or `plain`.
pub open spec fn audit_format_named(l: Seq<char>) -> AuditReportFormat {
    if l == "json"@ {
        AuditReportFormat::Json
    } else if l == "plain"@ {
        AuditReportFormat::PlainText
    } else {
        AuditReportFormat::Markdown
    }
}

/// The report layout selected by an already lowercased keyword.
pub fn audit_format_from_lowercase(l: &[char]) -> (f: AuditReportFormat)
    ensures
        f == audit_format_named(l@),
{
    if is_word(l, "json") {
        AuditReportFormat::Json
    } else if is_word(l, "plain") {
        AuditReportFormat::PlainText
    } else {
        AuditReportFormat::Markdown
    }
}

/// The report layout selected by the audit `--format` option.
pub fn parse_audit_format(s: &str) -> (f: AuditReportFormat)
    ensures
        f == audit_format_named(lowercased(s@)),
{
    let l = lowercase_chars(s);
    audit_format_from_lowercase(l.as_slice())
}

/// Kinds of documents the document inspector tells apart.
#[derive(PartialEq, Eq, Structural, Clone, Copy, Debug)]
pub enum DocumentType {
    Pdf,
    Spreadsheet,
    WordProcessing,
    Presentation,
    EBook,
    TextOrCode,
}

/// The document kind a lowercased keyword selects; text or code when no
/// other kind is named.
pub open spec fn document_type_named(l: Seq<char>) -> DocumentType {
    if l == "pdf"@ {
        DocumentType::Pdf
    } else if l == "spreadsheet"@ || l == "sheet"@ || l == "excel"@ || l == "csv"@ {
        DocumentType::Spreadsheet
    } else if l == "word"@ || l == "docx"@ || l == "doc"@ {
        DocumentType::WordProcessing
    } else if l == "presentation"@ || l == "ppt"@ || l == "pptx"@ {
        DocumentType::Presentation
    } else if l == "ebook"@ || l == "epub"@ {
        DocumentType::EBook
    } else {
        DocumentType::TextOrCode
    }
}

/// The document kind selected by an already lowercased keyword.
pub fn document_type_from_lowercase(l: &[char]) -> (t: DocumentType)
    ensures
        t == document_type_named(l@),
{
    if is_word(l, "pdf") {
        DocumentType::Pdf
    } else if is_word(l, "spreadsheet") || is_word(l, "sheet") || is_word(l, "excel") || is_word(l, "csv") {
        DocumentType::Spreadsheet
    } else if is_word(l, "word") || is_word(l, "docx") || is_word(l, "doc") {
        DocumentType::WordProcessing
    } else if is_word(l, "presentation") || is_word(l, "ppt") || is_word(l, "pptx") {
        DocumentType::Presentation
    } else if is_word(l, "ebook") || is_word(l, "epub") {
        DocumentType::EBook
    } else {
        DocumentType::TextOrCode
    }
}

/// The document kind selected by the documents `--type` option.
pub fn parse_document_type(s: &str) -> (t: DocumentType)
    ensures
        t == document_type_named(lowercased(s@)),
{
    let l = lowercase_chars(s);
    document_type_from_lowercase(l.as_slice())
}

/// Kinds of Telegram media.
#[derive(PartialEq, Eq, Structural, Clone, Copy, Debug)]
pub enum TelegramMediaType {
    VoiceNote,
    VideoNote,
    Photo,
    Video,
    Document,
    Unknown,
}

/// The Telegram media kind a lowercased keyword selects.
pub open spec fn telegram_media_named(l: Seq<char>) -> TelegramMediaType {
    if l == "voice"@ || l == "ptt"@ || l == "audio"@ {
        TelegramMediaType::VoiceNote
    } else if l == "video-note"@ || l == "round"@ {
        TelegramMediaType::VideoNote
    } else if l == "photo"@ || l == "image"@ || l == "images"@ {
        TelegramMediaType::Photo
    } else if l == "video"@ || l == "videos"@ {
        TelegramMediaType::Video
    } else if l == "doc"@ || l == "document"@ || l == "documents"@ {
        TelegramMediaType::Document
    } else {
        TelegramMediaType::Unknown
    }
}

/// The Telegram media kind selected by an already lowercased keyword.
pub fn telegram_media_from_lowercase(l: &[char]) -> (t: TelegramMediaType)
    ensures
        t == telegram_media_named(l@),
{
    if is_word(l, "voice") || is_word(l, "ptt") || is_word(l, "audio") {
        TelegramMediaType::VoiceNote
    } else if is_word(l, "video-note") || is_word(l, "round") {
        TelegramMediaType::VideoNote
    } else if is_word(l, "photo") || is_word(l, "image") || is_word(l, "images") {
        TelegramMediaType::Photo
    } else if is_word(l, "video") || is_word(l, "videos") {
        TelegramMediaType::Video
    } else if is_word(l, "doc") || is_word(l, "document") || is_word(l, "documents") {
        TelegramMediaType::Document
    } else {
        TelegramMediaType::Unknown
    }
}

/// The Telegram media kind selected by the telegram `--type` option.
pub fn parse_telegram_media_type(s: &str) -> (t: TelegramMediaType)
    ensures
        t == telegram_media_named(lowercased(s@)),
{
    let l = lowercase_chars(s);
    telegram_media_from_lowercase(l.as_slice())
}

/// Resolution tiers of videos.
#[derive(PartialEq, Eq, Structural, Clone, Copy, Debug)]
pub enum VideoQuality {
    Uhd4K,
    Qhd2K,
    Fhd1080p,
    Hd720p,
    Sd480p,
    Unknown,
}

/// The resolution tier a lowercased keyword selects.
pub open spec fn video_quality_named(l: Seq<char>) -> VideoQuality {
    if l == "4k"@ || l == "uhd"@ {
        VideoQuality::Uhd4K
    } else if l == "2k"@ || l == "qhd"@ {
        VideoQuality::Qhd2K
    } else if l == "1080p"@ || l == "fhd"@ {
        VideoQuality::Fhd1080p
    } else if l == "720p"@ || l == "hd"@ {
        VideoQuality::Hd720p
    } else if l == "480p"@ || l == "sd"@ {
        VideoQuality::Sd480p
    } else {
        VideoQuality::Unknown
    }
}

/// The resolution tier selected by an already lowercased keyword.
pub fn video_quality_from_lowercase(l: &[char]) -> (q: VideoQuality)
    ensures
        q == video_quality_named(l@),
{
    if is_word(l, "4k") || is_word(l, "uhd") {
        VideoQuality::Uhd4K
    } else if is_word(l, "2k") || is_word(l, "qhd") {
        VideoQuality::Qhd2K
    } else if is_word(l, "1080p") || is_word(l, "fhd") {
        VideoQuality::Fhd1080p
    } else if is_word(l, "720p") || is_word(l, "hd") {
        VideoQuality::Hd720p
    } else if is_word(l, "480p") || is_word(l, "sd") {
        VideoQuality::Sd480p
    } else {
        VideoQuality::Unknown
    }
}

/// The resolution tier selected by the videos `--quality` option.
pub fn parse_video_quality(s: &str) -> (q: VideoQuality)
    ensures
        q == video_quality_named(lowercased(s@)),
{
    let l = lowercase_chars(s);
    video_quality_from_lowercase(l.as_slice())
}

/// Layout of a WhatsApp chat archive.
#[derive(PartialEq, Eq, Structural, Clone, Copy, Debug)]
pub enum WhatsAppExportFormat {
    Json,
    Html,
}

/// The archive layout for an already lowercased keyword: JSON for `json`,
/// HTML otherwise.
pub fn whatsapp_format_from_lowercase(l: &[char]) -> (f: WhatsAppExportFormat)
    ensures
        f == (if l@ == "json"@ { WhatsAppExportFormat::Json } else { WhatsAppExportFormat::Html }),
{
    if is_word(l, "json") {
        WhatsAppExportFormat::Json
    } else {
        WhatsAppExportFormat::Html
    }
}

/// The archive layout selected by the whatsapp export `--format` option:
/// JSON when it reads `json` once lowercased, HTML otherwise.
pub fn parse_whatsapp_format(s: &str) -> (f: WhatsAppExportFormat)
    ensures
        f == (if lowercased(s@) == "json"@ { WhatsAppExportFormat::Json } else { WhatsAppExportFormat::Html }),
{
    let l = lowercase_chars(s);
    whatsapp_format_from_lowercase(l.as_slice())
}

/// What the export subcommand writes.
#[derive(PartialEq, Eq, Structural, Clone, Copy, Debug)]
pub enum ExportFormat {
    ContactsCsv,
    ContactsVcard,
    SmsHtml,
    SmsJson,
    SmsCsv,
    SmsXml,
    CallStats,
    CallLogsJson,
}

/// The export selected for an already lowercased `--format` keyword.
pub open spec fn export_named(what: ExportCommands, l: Seq<char>) -> ExportFormat {
    match what {
        ExportCommands::Contacts { .. } => if l == "csv"@ { ExportFormat::ContactsCsv } else { ExportFormat::ContactsVcard },
        ExportCommands::Sms { .. } => if l == "html"@ {
            ExportFormat::SmsHtml
        } else if l == "json"@ {
            ExportFormat::SmsJson
        } else if l == "csv"@ {
            ExportFormat::SmsCsv
        } else {
            ExportFormat::SmsXml
        },
        ExportCommands::Calls { .. } => if l == "stats"@ { ExportFormat::CallStats } else { ExportFormat::CallLogsJson },
    }
}

/// The export selected by the export subcommand for an already lowercased
/// `--format` keyword.
pub fn export_format_from_lowercase(what: &ExportCommands, l: &[char]) -> (f: ExportFormat)
    ensures
        f == export_named(*what, l@),
{
    match what {
        ExportCommands::Contacts { .. } => {
            if is_word(l, "csv") { ExportFormat::ContactsCsv } else { ExportFormat::ContactsVcard }
        },
        ExportCommands::Sms { .. } => {
            if is_word(l, "html") {
                ExportFormat::SmsHtml
            } else if is_word(l, "json") {
                ExportFormat::SmsJson
            } else if is_word(l, "csv") {
                ExportFormat::SmsCsv
            } else {
                ExportFormat::SmsXml
            }
        },
        ExportCommands::Calls { .. } => {
            if is_word(l, "stats") { ExportFormat::CallStats } else { ExportFormat::CallLogsJson }
        },
    }
}

/// The export selected by the export subcommand and its `--format` option:
/// contacts go to CSV or vCard, SMS to HTML, JSON, CSV or XML, call logs to
/// statistics or JSON.
pub fn export_format(what: &ExportCommands) -> (f: ExportFormat)
    ensures
        f == export_named(*what, lowercased(match what {
            ExportCommands::Contacts { format, .. } => format@,
            ExportCommands::Sms { format, .. } => format@,
            ExportCommands::Calls { format, .. } => format@,
        })),
{
    let l = match what {
        ExportCommands::Contacts { format, .. } => lowercase_chars(format.as_str()),
        ExportCommands::Sms { format, .. } => lowercase_chars(format.as_str()),
        ExportCommands::Calls { format, .. } => lowercase_chars(format.as_str()),
    };
    export_format_from_lowercase(what, l.as_slice())
}

/// Kinds of structured data a snapshot holds.
#[derive(PartialEq, Eq, Structural, Clone, Copy, Debug)]
pub enum StructuredDataType {
    Contacts,
    Sms,
    CallLogs,
    Applications,
    WifiNetworks,
    DeviceSettings,
}

/// The message for a structured data kind the desktop front end does not know.
pub open spec fn unknown_data_type_message(s: Seq<char>) -> Seq<char> {
    "Unknown structured data type: "@ + s
}

/// The structured data kind named by the desktop front end (`contacts`,
/// `sms`, `call_logs`, `apps`, `wifi`, `settings`), or the message for any
/// other name.
pub fn parse_structured_data_type(s: &str) -> (r: Result<StructuredDataType, String>)
    ensures
        s@ == "contacts"@ ==> r == Ok::<StructuredDataType, String>(StructuredDataType::Contacts),
        s@ != "contacts"@ && s@ == "sms"@ ==> r == Ok::<StructuredDataType, String>(StructuredDataType::Sms),
        s@ != "contacts"@ && s@ != "sms"@ && s@ == "call_logs"@ ==> r == Ok::<StructuredDataType, String>(StructuredDataType::CallLogs),
        s@ != "contacts"@ && s@ != "sms"@ && s@ != "call_logs"@ && s@ == "apps"@
            ==> r == Ok::<StructuredDataType, String>(StructuredDataType::Applications),
        s@ != "contacts"@ && s@ != "sms"@ && s@ != "call_logs"@ && s@ != "apps"@ && s@ == "wifi"@
            ==> r == Ok::<StructuredDataType, String>(StructuredDataType::WifiNetworks),
        s@ != "contacts"@ && s@ != "sms"@ && s@ != "call_logs"@ && s@ != "apps"@ && s@ != "wifi"@ && s@ == "settings"@
            ==> r == Ok::<StructuredDataType, String>(StructuredDataType::DeviceSettings),
        s@ != "contacts"@ && s@ != "sms"@ && s@ != "call_logs"@ && s@ != "apps"@ && s@ != "wifi"@ && s@ != "settings"@
            ==> r is Err && r->Err_0@ == unknown_data_type_message(s@),
{
    let l = chars_of(s);
    if is_word(l.as_slice(), "contacts") {
        Ok(StructuredDataType::Contacts)
    } else if is_word(l.as_slice(), "sms") {
        Ok(StructuredDataType::Sms)
    } else if is_word(l.as_slice(), "call_logs") {
        Ok(StructuredDataType::CallLogs)
    } else if is_word(l.as_slice(), "apps") {
        Ok(StructuredDataType::Applications)
    } else if is_word(l.as_slice(), "wifi") {
        Ok(StructuredDataType::WifiNetworks)
    } else if is_word(l.as_slice(), "settings") {
        Ok(StructuredDataType::DeviceSettings)
    } else {
        let mut m = chars_of("Unknown structured data type: ");
        extend_str(&mut m, s);
        Err(string_of(m.as_slice()))
    }
}

/// Live data the desktop front end can read from a connected device.
#[derive(PartialEq, Eq, Structural, Clone, Copy, Debug)]
pub enum LiveDataKind {
    Contacts,
    Sms,
    CallLogs,
}

/// The live data kind named by the desktop front end (`contacts`, `sms`,
/// `call_logs`), or `Unsupported data type` for any other name.
pub fn parse_live_data_kind(s: &str) -> (r: Result<LiveDataKind, String>)
    ensures
        s@ == "contacts"@ ==> r == Ok::<LiveDataKind, String>(LiveDataKind::Contacts),
        s@ != "contacts"@ && s@ == "sms"@ ==> r == Ok::<LiveDataKind, String>(LiveDataKind::Sms),
        s@ != "contacts"@ && s@ != "sms"@ && s@ == "call_logs"@ ==> r == Ok::<LiveDataKind, String>(LiveDataKind::CallLogs),
        s@ != "contacts"@ && s@ != "sms"@ && s@ != "call_logs"@ ==> r is Err && r->Err_0@ == "Unsupported data type"@,
{
    let l = chars_of(s);
    if is_word(l.as_slice(), "contacts") {
        Ok(LiveDataKind::Contacts)
    } else if is_word(l.as_slice(), "sms") {
        Ok(LiveDataKind::Sms)
    } else if is_word(l.as_slice(), "call_logs") {
        Ok(LiveDataKind::CallLogs)
    } else {
        Err("Unsupported data type".to_owned())
    }
}

/// Files the Wi-Fi networks can be exported to.
#[derive(PartialEq, Eq, Structural, Clone, Copy, Debug)]
pub enum WifiExportKind {
    Csv,
    WpaSupplicant,
    Json,
}

/// The export selected by the extension of the `--export` path: `csv` and
/// `conf` select CSV and wpa_supplicant files, anything else (or no
/// extension) JSON.
pub fn wifi_export_kind(extension: Option<&str>) -> (k: WifiExportKind)
    ensures
        k == (match extension {
            Some(e) => if e@ == "csv"@ {
                WifiExportKind::Csv
            } else if e@ == "conf"@ {
                WifiExportKind::WpaSupplicant
            } else {
                WifiExportKind::Json
            },
            None => WifiExportKind::Json,
        }),
{
    match extension {
        Some(e) => {
            let l = chars_of(e);
            if is_word(l.as_slice(), "csv") {
                WifiExportKind::Csv
            } else if is_word(l.as_slice(), "conf") {
                WifiExportKind::WpaSupplicant
            } else {
                WifiExportKind::Json
            }
        },
        None => WifiExportKind::Json,
    }
}

} // verus!
