//! What each keyword of the command line and desktop options selects,
//! stated with the keywords themselves, for every (lowercased) input.

use vstd::prelude::*;
use crate::cli::ExportCommands;
use crate::cloud::{provider_named, CloudProvider};
use crate::options::{
    audit_format_named, document_type_named, export_named, ExportFormat, frequency_named, telegram_media_named, video_quality_named,
    AuditReportFormat, DocumentType, ScheduleFrequency, TelegramMediaType, VideoQuality,
};

verus! {

/// Each `--quality` keyword selects its resolution tier, and any other
/// (lowercased) keyword selects the unknown tier: `4k` and `uhd` select 4K,
/// `2k` and `qhd` 2K, `1080p` and `fhd` 1080p, `720p` and `hd` 720p, `480p`
/// and `sd` 480p.
pub proof fn law_video_quality_keywords(l: Seq<char>)
    ensures
        (video_quality_named(l) == VideoQuality::Uhd4K) == (l == "4k"@ || l == "uhd"@),
        (video_quality_named(l) == VideoQuality::Qhd2K) == (l == "2k"@ || l == "qhd"@),
        (video_quality_named(l) == VideoQuality::Fhd1080p) == (l == "1080p"@ || l == "fhd"@),
        (video_quality_named(l) == VideoQuality::Hd720p) == (l == "720p"@ || l == "hd"@),
        (video_quality_named(l) == VideoQuality::Sd480p) == (l == "480p"@ || l == "sd"@),
        (video_quality_named(l) == VideoQuality::Unknown) == (l != "4k"@ && l != "uhd"@ && l != "2k"@ && l != "qhd"@ && l != "1080p"@ && l != "fhd"@ && l != "720p"@ && l != "hd"@ && l != "480p"@ && l != "sd"@),
{
    reveal_strlit("4k");
    reveal_strlit("uhd");
    reveal_strlit("2k");
    reveal_strlit("qhd");
    reveal_strlit("1080p");
    reveal_strlit("fhd");
    reveal_strlit("720p");
    reveal_strlit("hd");
    reveal_strlit("480p");
    reveal_strlit("sd");
    assert("4k"@.len() == 2 && "4k"@[0] == '4');
    assert("uhd"@.len() == 3 && "uhd"@[0] == 'u');
    assert("2k"@.len() == 2 && "2k"@[0] == '2');
    assert("qhd"@.len() == 3 && "qhd"@[0] == 'q');
    assert("1080p"@.len() == 5);
    assert("fhd"@.len() == 3 && "fhd"@[0] == 'f');
    assert("720p"@.len() == 4 && "720p"@[0] == '7');
    assert("hd"@.len() == 2 && "hd"@[0] == 'h');
    assert("480p"@.len() == 4 && "480p"@[0] == '4');
    assert("sd"@.len() == 2 && "sd"@[0] == 's');
}

/// Each Telegram `--type` keyword selects its media kind, and any other
/// (lowercased) keyword selects the unclassified kind: `voice`, `ptt` and
/// `audio` select voice notes, `video-note` and `round` video notes,
/// `photo`, `image` and `images` photos, `video` and `videos` videos, `doc`,
/// `document` and `documents` documents.
pub proof fn law_telegram_media_keywords(l: Seq<char>)
    ensures
        (telegram_media_named(l) == TelegramMediaType::VoiceNote) == (l == "voice"@ || l == "ptt"@ || l == "audio"@),
        (telegram_media_named(l) == TelegramMediaType::VideoNote) == (l == "video-note"@ || l == "round"@),
        (telegram_media_named(l) == TelegramMediaType::Photo) == (l == "photo"@ || l == "image"@ || l == "images"@),
        (telegram_media_named(l) == TelegramMediaType::Video) == (l == "video"@ || l == "videos"@),
        (telegram_media_named(l) == TelegramMediaType::Document) == (l == "doc"@ || l == "document"@ || l == "documents"@),
        (telegram_media_named(l) == TelegramMediaType::Unknown) == (l != "voice"@ && l != "ptt"@ && l != "audio"@ && l != "video-note"@ && l != "round"@ && l != "photo"@ && l != "image"@ && l != "images"@ && l != "video"@ && l != "videos"@ && l != "doc"@ && l != "document"@ && l != "documents"@),
{
    reveal_strlit("voice");
    reveal_strlit("ptt");
    reveal_strlit("audio");
    reveal_strlit("video-note");
    reveal_strlit("round");
    reveal_strlit("photo");
    reveal_strlit("image");
    reveal_strlit("images");
    reveal_strlit("video");
    reveal_strlit("videos");
    reveal_strlit("doc");
    reveal_strlit("document");
    reveal_strlit("documents");
    assert("voice"@.len() == 5 && "voice"@[0] == 'v' && "voice"@[1] == 'o');
    assert("ptt"@.len() == 3 && "ptt"@[0] == 'p');
    assert("audio"@.len() == 5 && "audio"@[0] == 'a');
    assert("video-note"@.len() == 10);
    assert("round"@.len() == 5 && "round"@[0] == 'r');
    assert("photo"@.len() == 5 && "photo"@[0] == 'p');
    assert("image"@.len() == 5 && "image"@[0] == 'i');
    assert("images"@.len() == 6 && "images"@[0] == 'i');
    assert("video"@.len() == 5 && "video"@[0] == 'v' && "video"@[1] == 'i');
    assert("videos"@.len() == 6 && "videos"@[0] == 'v');
    assert("doc"@.len() == 3 && "doc"@[0] == 'd');
    assert("document"@.len() == 8);
    assert("documents"@.len() == 9);
}

/// Each documents `--type` keyword selects its document kind, and any
/// other (lowercased) keyword selects text and code: `pdf` selects PDF,
/// `spreadsheet`, `sheet`, `excel` and `csv` spreadsheets, `word`, `docx`
/// and `doc` word processing, `presentation`, `ppt` and `pptx`
/// presentations, `ebook` and `epub` e-books.
pub proof fn law_document_type_keywords(l: Seq<char>)
    ensures
        (document_type_named(l) == DocumentType::Pdf) == (l == "pdf"@),
        (document_type_named(l) == DocumentType::Spreadsheet) == (l == "spreadsheet"@ || l == "sheet"@ || l == "excel"@ || l == "csv"@),
        (document_type_named(l) == DocumentType::WordProcessing) == (l == "word"@ || l == "docx"@ || l == "doc"@),
        (document_type_named(l) == DocumentType::Presentation) == (l == "presentation"@ || l == "ppt"@ || l == "pptx"@),
        (document_type_named(l) == DocumentType::EBook) == (l == "ebook"@ || l == "epub"@),
        (document_type_named(l) == DocumentType::TextOrCode) == (l != "pdf"@ && l != "spreadsheet"@ && l != "sheet"@ && l != "excel"@ && l != "csv"@ && l != "word"@ && l != "docx"@ && l != "doc"@ && l != "presentation"@ && l != "ppt"@ && l != "pptx"@ && l != "ebook"@ && l != "epub"@),
{
    reveal_strlit("pdf");
    reveal_strlit("spreadsheet");
    reveal_strlit("sheet");
    reveal_strlit("excel");
    reveal_strlit("csv");
    reveal_strlit("word");
    reveal_strlit("docx");
    reveal_strlit("doc");
    reveal_strlit("presentation");
    reveal_strlit("ppt");
    reveal_strlit("pptx");
    reveal_strlit("ebook");
    reveal_strlit("epub");
    assert("pdf"@.len() == 3 && "pdf"@[0] == 'p' && "pdf"@[1] == 'd');
    assert("spreadsheet"@.len() == 11);
    assert("sheet"@.len() == 5 && "sheet"@[0] == 's');
    assert("excel"@.len() == 5 && "excel"@[0] == 'e' && "excel"@[1] == 'x');
    assert("csv"@.len() == 3 && "csv"@[0] == 'c');
    assert("word"@.len() == 4 && "word"@[0] == 'w');
    assert("docx"@.len() == 4 && "docx"@[0] == 'd');
    assert("doc"@.len() == 3 && "doc"@[0] == 'd');
    assert("presentation"@.len() == 12);
    assert("ppt"@.len() == 3 && "ppt"@[0] == 'p' && "ppt"@[1] == 'p');
    assert("pptx"@.len() == 4 && "pptx"@[0] == 'p');
    assert("ebook"@.len() == 5 && "ebook"@[0] == 'e' && "ebook"@[1] == 'b');
    assert("epub"@.len() == 4 && "epub"@[0] == 'e');
}

/// The schedule keyword `hourly` selects hourly backups, `weekly` weekly
/// ones, and any other (lowercased) keyword daily ones.
pub proof fn law_frequency_keywords(l: Seq<char>)
    ensures
        (frequency_named(l) == ScheduleFrequency::Hourly) == (l == "hourly"@),
        (frequency_named(l) == ScheduleFrequency::Weekly) == (l == "weekly"@),
        (frequency_named(l) == ScheduleFrequency::Daily) == (l != "hourly"@ && l != "weekly"@),
{
    reveal_strlit("hourly");
    reveal_strlit("weekly");
    assert("hourly"@.len() == 6 && "hourly"@[0] == 'h');
    assert("weekly"@.len() == 6 && "weekly"@[0] == 'w');
}

/// The audit keyword `json` selects a JSON report, `plain` a plain text
/// one, and any other (lowercased) keyword Markdown.
pub proof fn law_audit_format_keywords(l: Seq<char>)
    ensures
        (audit_format_named(l) == AuditReportFormat::Json) == (l == "json"@),
        (audit_format_named(l) == AuditReportFormat::PlainText) == (l == "plain"@),
        (audit_format_named(l) == AuditReportFormat::Markdown) == (l != "json"@ && l != "plain"@),
{
    reveal_strlit("json");
    reveal_strlit("plain");
    assert("json"@.len() == 4);
    assert("plain"@.len() == 5);
}

/// The provider names `s3`, `s3-compatible` and `minio` select S3,
/// `webdav` and `nextcloud` WebDAV, and any other (lowercased) name a mock
/// test.
pub proof fn law_cloud_provider_keywords(l: Seq<char>)
    ensures
        (provider_named(l) == CloudProvider::S3) == (l == "s3"@ || l == "s3-compatible"@ || l == "minio"@),
        (provider_named(l) == CloudProvider::Webdav) == (l == "webdav"@ || l == "nextcloud"@),
        (provider_named(l) == CloudProvider::Other) == (l != "s3"@ && l != "s3-compatible"@ && l != "minio"@ && l != "webdav"@ && l != "nextcloud"@),
{
    reveal_strlit("s3");
    reveal_strlit("s3-compatible");
    reveal_strlit("minio");
    reveal_strlit("webdav");
    reveal_strlit("nextcloud");
    assert("s3"@.len() == 2);
    assert("s3-compatible"@.len() == 13);
    assert("minio"@.len() == 5);
    assert("webdav"@.len() == 6);
    assert("nextcloud"@.len() == 9);
}

/// The export keyword decides the export: contacts go to CSV for `csv`
/// and to vCard otherwise; SMS messages go to HTML for `html`, JSON for
/// `json`, CSV for `csv` and XML otherwise; call logs go to statistics for
/// `stats` and to JSON otherwise.
pub proof fn law_export_keywords(what: ExportCommands, l: Seq<char>)
    ensures
        what is Contacts ==> (export_named(what, l) == ExportFormat::ContactsCsv) == (l == "csv"@),
        what is Contacts ==> (export_named(what, l) == ExportFormat::ContactsVcard) == (l != "csv"@),
        what is Sms ==> (export_named(what, l) == ExportFormat::SmsHtml) == (l == "html"@),
        what is Sms ==> (export_named(what, l) == ExportFormat::SmsJson) == (l == "json"@),
        what is Sms ==> (export_named(what, l) == ExportFormat::SmsCsv) == (l == "csv"@),
        what is Sms ==> (export_named(what, l) == ExportFormat::SmsXml) == (l != "html"@ && l != "json"@ && l != "csv"@),
        what is Calls ==> (export_named(what, l) == ExportFormat::CallStats) == (l == "stats"@),
        what is Calls ==> (export_named(what, l) == ExportFormat::CallLogsJson) == (l != "stats"@),
{
    reveal_strlit("html");
    reveal_strlit("json");
    reveal_strlit("csv");
    reveal_strlit("stats");
    assert("html"@.len() == 4 && "html"@[0] == 'h');
    assert("json"@.len() == 4 && "json"@[0] == 'j');
    assert("csv"@.len() == 3);
    assert("stats"@.len() == 5);
}

} // verus!
