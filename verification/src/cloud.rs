//! Testing a cloud storage connection from the desktop front end.
//!
//! The test runs in three steps: `plan_cloud_test` decides from the form
//! what is to be tried (and answers at once when nothing can be tried),
//! `open_cloud_operator` opens the storage client, the caller waits for the
//! client's connection check, and `cloud_test_result` words the answer.

use vstd::prelude::*;
use crate::options::is_word;
use crate::text::{chars_of, extend_str, lowercase_chars, lowercased, string_of, trim, trim_ws};

verus! {

broadcast use vstd::string::group_string_axioms;

/// An OpenDAL storage client.
#[verifier::external_type_specification]
#[verifier::external_body]
pub struct ExOperator(opendal::Operator);

/// The answer of a cloud connection test.
pub struct CloudTestResult {
    pub success: bool,
    pub message: String,
    pub provider: String,
}

/// What a cloud connection test tries.
pub enum CloudProbe {
    /// Nothing is tried: the answer is already known.
    Finished(CloudTestResult),
    /// An S3 bucket, with the settings that were filled in.
    S3 {
        bucket: String,
        region: Option<String>,
        endpoint: Option<String>,
        access_key: Option<String>,
        secret_key: Option<String>,
    },
    /// A WebDAV server, with the credentials that were filled in.
    Webdav { endpoint: String, username: Option<String>, password: Option<String> },
}

/// The text of an optional value.
pub open spec fn opt_text(o: Option<String>) -> Option<Seq<char>> {
    match o {
        Some(s) => Some(s@),
        None => None,
    }
}

/// A form field counts as filled in when it holds more than white space.
pub open spec fn filled(o: Option<String>) -> Option<Seq<char>> {
    match o {
        Some(s) => if trim_ws(s@).len() > 0 { Some(s@) } else { None },
        None => None,
    }
}

/// Whether the lowercased provider name selects S3.
pub open spec fn names_s3(l: Seq<char>) -> bool {
    l == "s3"@ || l == "s3-compatible"@ || l == "minio"@
}

/// Whether the lowercased provider name selects WebDAV.
pub open spec fn names_webdav(l: Seq<char>) -> bool {
    l == "webdav"@ || l == "nextcloud"@
}

/// The storage services a cloud connection test tells apart.
#[derive(PartialEq, Eq, Structural, Clone, Copy, Debug)]
pub enum CloudProvider {
    S3,
    Webdav,
    /// Any other provider: the test passes as a mock test.
    Other,
}

/// The service an already lowercased provider name selects.
pub open spec fn provider_named(l: Seq<char>) -> CloudProvider {
    if names_s3(l) {
        CloudProvider::S3
    } else if names_webdav(l) {
        CloudProvider::Webdav
    } else {
        CloudProvider::Other
    }
}

/// The service selected by an already lowercased provider name: `s3`,
/// `s3-compatible` and `minio` select S3, `webdav` and `nextcloud` WebDAV.
pub fn provider_from_lowercase(l: &[char]) -> (p: CloudProvider)
    ensures
        p == provider_named(l@),
{
    if is_word(l, "s3") || is_word(l, "s3-compatible") || is_word(l, "minio") {
        CloudProvider::S3
    } else if is_word(l, "webdav") || is_word(l, "nextcloud") {
        CloudProvider::Webdav
    } else {
        CloudProvider::Other
    }
}

/// Whether a text is blank once white space is trimmed.
pub fn is_blank(s: &str) -> (r: bool)
    ensures
        r == (trim_ws(s@).len() == 0),
{
    let c = chars_of(s);
    let t = trim(c.as_slice());
    t.len() == 0
}

fn keep_filled(o: &Option<String>) -> (r: Option<String>)
    ensures
        opt_text(r) == filled(*o),
{
    match o {
        Some(s) => if is_blank(s.as_str()) { None } else { Some(s.clone()) },
        None => None,
    }
}

fn answer(success: bool, message: Vec<char>, provider: &str) -> (r: CloudTestResult)
    ensures
        r.success == success,
        r.message@ == message@,
        r.provider@ == provider@,
{
    CloudTestResult { success, message: string_of(message.as_slice()), provider: provider.to_owned() }
}

/// Decides what a cloud connection test tries. A blank bucket name fails at
/// once. The providers `s3`, `s3-compatible` and `minio` (in any case) try
/// an S3 bucket with the settings that hold more than white space; `webdav`
/// and `nextcloud` try a WebDAV server, failing at once on a blank endpoint,
/// with the access and secret keys as user name and password; any other
/// provider passes at once as a mock test.
pub fn plan_cloud_test(
    provider: &str,
    bucket: &str,
    endpoint: Option<String>,
    region: Option<String>,
    access_key: Option<String>,
    secret_key: Option<String>,
) -> (probe: CloudProbe)
    ensures
        trim_ws(bucket@).len() == 0 ==> probe is Finished && !probe->0.success
            && probe->0.message@ == "Bucket name cannot be empty"@ && probe->0.provider@ == provider@,
        trim_ws(bucket@).len() > 0 && names_s3(lowercased(provider@)) ==> probe is S3
            && probe->bucket@ == bucket@
            && opt_text(probe->region) == filled(region)
            && opt_text(probe->S3_endpoint) == filled(endpoint)
            && opt_text(probe->access_key) == filled(access_key)
            && opt_text(probe->secret_key) == filled(secret_key),
        trim_ws(bucket@).len() > 0 && !names_s3(lowercased(provider@)) && names_webdav(lowercased(provider@))
            && trim_ws(text_or_empty(endpoint)).len() == 0 ==> probe is Finished && !probe->0.success
            && probe->0.message@ == "WebDAV endpoint URL cannot be empty"@ && probe->0.provider@ == provider@,
        trim_ws(bucket@).len() > 0 && !names_s3(lowercased(provider@)) && names_webdav(lowercased(provider@))
            && trim_ws(text_or_empty(endpoint)).len() > 0 ==> probe is Webdav
            && probe->Webdav_endpoint@ == text_or_empty(endpoint)
            && opt_text(probe->username) == filled(access_key)
            && opt_text(probe->password) == filled(secret_key),
        trim_ws(bucket@).len() > 0 && !names_s3(lowercased(provider@)) && !names_webdav(lowercased(provider@))
            ==> probe is Finished && probe->0.success
            && probe->0.message@ == "Mock test passed for provider: "@ + provider@ && probe->0.provider@ == provider@,
{
    if is_blank(bucket) {
        return CloudProbe::Finished(answer(false, chars_of("Bucket name cannot be empty"), provider));
    }
    let l = lowercase_chars(provider);
    let kind = provider_from_lowercase(l.as_slice());
    if kind == CloudProvider::S3 {
        CloudProbe::S3 {
            bucket: bucket.to_owned(),
            region: keep_filled(&region),
            endpoint: keep_filled(&endpoint),
            access_key: keep_filled(&access_key),
            secret_key: keep_filled(&secret_key),
        }
    } else if kind == CloudProvider::Webdav {
        let ep = match endpoint {
            Some(e) => e,
            None => String::new(),
        };
        if is_blank(ep.as_str()) {
            return CloudProbe::Finished(answer(false, chars_of("WebDAV endpoint URL cannot be empty"), provider));
        }
        CloudProbe::Webdav { endpoint: ep, username: keep_filled(&access_key), password: keep_filled(&secret_key) }
    } else {
        let mut m = chars_of("Mock test passed for provider: ");
        extend_str(&mut m, provider);
        CloudProbe::Finished(answer(true, m, provider))
    }
}

/// The text of an optional value, empty when absent.
pub open spec fn text_or_empty(o: Option<String>) -> Seq<char> {
    match o {
        Some(s) => s@,
        None => seq![],
    }
}

/// The settings an S3 storage client is opened with; an empty setting is
/// left at the client's default.
pub struct S3Settings {
    pub bucket: String,
    pub region: String,
    pub endpoint: String,
    pub access_key: String,
    pub secret_key: String,
}

/// The settings a WebDAV storage client is opened with; an empty user name
/// or password is left unset.
pub struct WebdavSettings {
    pub endpoint: String,
    pub username: String,
    pub password: String,
}

/// The settings of the storage client a probe tries.
pub enum OperatorSettings {
    S3(S3Settings),
    Webdav(WebdavSettings),
}

/// Whether `s` holds the settings of the storage client `probe` tries: for
/// S3 the bucket and the region, endpoint, access key and secret key that
/// were filled in (the empty text for those that were not); for WebDAV the
/// endpoint, and the user name and password that were filled in (likewise).
/// A finished probe tries no client.
pub open spec fn settings_for(probe: CloudProbe, s: OperatorSettings) -> bool {
    match probe {
        CloudProbe::Finished(_) => false,
        CloudProbe::S3 { bucket, region, endpoint, access_key, secret_key } => {
            &&& s matches OperatorSettings::S3(t)
            &&& t.bucket@ == bucket@
            &&& t.region@ == text_or_empty(region)
            &&& t.endpoint@ == text_or_empty(endpoint)
            &&& t.access_key@ == text_or_empty(access_key)
            &&& t.secret_key@ == text_or_empty(secret_key)
        },
        CloudProbe::Webdav { endpoint, username, password } => {
            &&& s matches OperatorSettings::Webdav(t)
            &&& t.endpoint@ == endpoint@
            &&& t.username@ == text_or_empty(username)
            &&& t.password@ == text_or_empty(password)
        },
    }
}

/// The settings of the storage client a probe tries; nothing for a
/// finished probe.
pub fn operator_settings(probe: &CloudProbe) -> (settings: Option<OperatorSettings>)
    ensures
        (probe is Finished) == (settings is None),
        settings matches Some(t) ==> settings_for(*probe, t),
{
    match probe {
        CloudProbe::Finished(_) => None,
        CloudProbe::S3 { bucket, region, endpoint, access_key, secret_key } => Some(
            OperatorSettings::S3(S3Settings {
                bucket: bucket.clone(),
                region: setting(region),
                endpoint: setting(endpoint),
                access_key: setting(access_key),
                secret_key: setting(secret_key),
            }),
        ),
        CloudProbe::Webdav { endpoint, username, password } => Some(
            OperatorSettings::Webdav(WebdavSettings {
                endpoint: endpoint.clone(),
                username: setting(username),
                password: setting(password),
            }),
        ),
    }
}

fn setting(o: &Option<String>) -> (r: String)
    ensures
        r@ == text_or_empty(*o),
{
    match o {
        Some(s) => s.clone(),
        None => String::new(),
    }
}

/// A storage client as it was opened: the settings it was opened with, and
/// the client, or the error's text when it could not be opened.
pub struct OpenedClient {
    pub settings: OperatorSettings,
    pub operator: Result<opendal::Operator, String>,
}

/// `opendal::Operator::new` on an S3 builder given the settings' bucket,
/// region, endpoint, access key id and secret access key (an empty setting
/// leaves the builder's default, as the builder's setters do), kept beside
/// the settings it was given. Nothing is promised of the client: the
/// builder also reads the environment; its error is handed back as text.
#[verifier::external_body]
fn s3_operator(settings: S3Settings) -> (opened: OpenedClient)
    ensures
        opened.settings == OperatorSettings::S3(settings),
{
    let builder = opendal::services::S3::default()
        .bucket(&settings.bucket)
        .region(&settings.region)
        .endpoint(&settings.endpoint)
        .access_key_id(&settings.access_key)
        .secret_access_key(&settings.secret_key);
    let operator = opendal::Operator::new(builder).map_err(|e| e.to_string());
    OpenedClient { settings: OperatorSettings::S3(settings), operator }
}

/// `opendal::Operator::new` on a WebDAV builder given the settings'
/// endpoint, user name and password (an empty user name or password is left
/// unset, as the builder's setters do), kept beside the settings it was
/// given. Nothing is promised of the client; its error is handed back as
/// text.
#[verifier::external_body]
fn webdav_operator(settings: WebdavSettings) -> (opened: OpenedClient)
    ensures
        opened.settings == OperatorSettings::Webdav(settings),
{
    let builder = opendal::services::Webdav::default()
        .endpoint(&settings.endpoint)
        .username(&settings.username)
        .password(&settings.password);
    let operator = opendal::Operator::new(builder).map_err(|e| e.to_string());
    OpenedClient { settings: OperatorSettings::Webdav(settings), operator }
}

/// Opens the storage client a probe tries, with the settings
/// `operator_settings` gives for it; nothing for a finished probe.
pub fn open_cloud_operator(probe: &CloudProbe) -> (opened: Option<OpenedClient>)
    ensures
        (probe is Finished) == (opened is None),
        opened matches Some(c) ==> settings_for(*probe, c.settings),
{
    match operator_settings(probe) {
        None => None,
        Some(OperatorSettings::S3(settings)) => Some(s3_operator(settings)),
        Some(OperatorSettings::Webdav(settings)) => Some(webdav_operator(settings)),
    }
}

/// How trying a storage client ended.
pub enum CloudCheck {
    /// The client could not be opened from its settings; the error's text.
    ConfigInvalid(String),
    /// The client's connection check failed; the error's text.
    Failed(String),
    /// The client's connection check passed.
    Passed,
}

/// The answer for what a probe tried: `Successfully connected to S3 bucket
/// '<bucket>'` or `Successfully connected to WebDAV server at '<endpoint>'`
/// when the check passed, `S3 connection failed: <error>` or `WebDAV
/// connection failed: <error>` when it failed, and `Invalid S3
/// configuration: <error>` or `Invalid WebDAV configuration: <error>` when
/// the client could not be opened. A finished probe keeps its answer.
pub fn cloud_test_result(probe: &CloudProbe, provider: &str, check: &CloudCheck) -> (r: CloudTestResult)
    ensures
        probe is Finished ==> r.success == probe->0.success && r.message@ == probe->0.message@
            && r.provider@ == probe->0.provider@,
        !(probe is Finished) ==> r.provider@ == provider@ && r.success == (check is Passed),
        probe is S3 ==> r.message@ == (match *check {
            CloudCheck::Passed => "Successfully connected to S3 bucket '"@ + probe->S3_bucket@ + "'"@,
            CloudCheck::Failed(e) => "S3 connection failed: "@ + e@,
            CloudCheck::ConfigInvalid(e) => "Invalid S3 configuration: "@ + e@,
        }),
        probe is Webdav ==> r.message@ == (match *check {
            CloudCheck::Passed => "Successfully connected to WebDAV server at '"@ + probe->Webdav_endpoint@ + "'"@,
            CloudCheck::Failed(e) => "WebDAV connection failed: "@ + e@,
            CloudCheck::ConfigInvalid(e) => "Invalid WebDAV configuration: "@ + e@,
        }),
{
    match probe {
        CloudProbe::Finished(done) => CloudTestResult {
            success: done.success,
            message: done.message.clone(),
            provider: done.provider.clone(),
        },
        CloudProbe::S3 { bucket, .. } => match check {
            CloudCheck::Passed => {
                let mut m = chars_of("Successfully connected to S3 bucket '");
                extend_str(&mut m, bucket.as_str());
                extend_str(&mut m, "'");
                answer(true, m, provider)
            },
            CloudCheck::Failed(e) => {
                let mut m = chars_of("S3 connection failed: ");
                extend_str(&mut m, e.as_str());
                answer(false, m, provider)
            },
            CloudCheck::ConfigInvalid(e) => {
                let mut m = chars_of("Invalid S3 configuration: ");
                extend_str(&mut m, e.as_str());
                answer(false, m, provider)
            },
        },
        CloudProbe::Webdav { endpoint, .. } => match check {
            CloudCheck::Passed => {
                let mut m = chars_of("Successfully connected to WebDAV server at '");
                extend_str(&mut m, endpoint.as_str());
                extend_str(&mut m, "'");
                answer(true, m, provider)
            },
            CloudCheck::Failed(e) => {
                let mut m = chars_of("WebDAV connection failed: ");
                extend_str(&mut m, e.as_str());
                answer(false, m, provider)
            },
            CloudCheck::ConfigInvalid(e) => {
                let mut m = chars_of("Invalid WebDAV configuration: ");
                extend_str(&mut m, e.as_str());
                answer(false, m, provider)
            },
        },
    }
}

} // verus!
