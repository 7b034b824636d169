//! Download limits and the checksum file of a release.
use vstd::prelude::*;
use vstd::utf8::encode_utf8;

use super::error::{ErrorView, UpdateError, err_view};
use super::verify::{hex_lower, sha256_digest, sha256_hex};
use crate::text::{
    all_hex, chars_of, concat, debug_str, debug_text, decimal, decimal_string, eq_ignore_case,
    lower, split, split_vec, str_eq_ignore_case, string_of_all, trim, trim_start_char,
    trim_start_char_vec, trimmed, lower_vec, vec_all_hex, words, words_vec, chars_eq,
};

verus! {

/// Size limit of one update package (installer or ZIP).
pub const MAX_ARCHIVE_BYTES: u64 = 104857600;

/// Size limit of `SHA256SUMS.txt`, the release JSON and other metadata.
pub const MAX_CHECKSUMS_BYTES: u64 = 1048576;

/// Attempts of one download; release assets stall now and then.
pub const DOWNLOAD_ATTEMPTS: u32 = 3;

/// One text response: the body and the address after redirects.
#[derive(Clone, Debug, Eq, PartialEq)]
pub struct HttpTextResponse {
    pub final_url: String,
    pub body: Vec<u8>,
}

/// How releases and packages are fetched, implemented by the host's HTTP client: a text
/// response read up to `limit` bytes, or a download to `destination` that fails past
/// `limit` bytes.
pub trait UpdateTransport {
    fn get(&self, url: &str, accept: &str, limit: u64) -> Result<HttpTextResponse, UpdateError>;

    fn download(&self, url: &str, destination: &str, limit: u64) -> Result<(), UpdateError>;
}

pub open spec fn too_large_view(limit: u64) -> ErrorView {
    err_view("update_too_large"@, "更新文件超过允许大小 "@ + decimal(limit as nat) + " 字节"@)
}

/// The size check during a download: more than `limit` bytes fails at once.
pub fn ensure_within_download_limit(written: u64, limit: u64) -> (r: Result<(), UpdateError>)
    ensures
        written <= limit ==> r is Ok,
        written > limit ==> (r matches Err(e) && e@ == too_large_view(limit)),
{
    if written > limit {
        let n = decimal_string(limit);
        let mut message = String::from_str("更新文件超过允许大小 ");
        message.append(n.as_str());
        message.append(" 字节");
        return Err(UpdateError::new("update_too_large", message));
    }
    Ok(())
}

pub open spec fn response_too_large_view(limit: u64) -> ErrorView {
    err_view("update_too_large"@, "响应超过允许大小 "@ + decimal(limit as nat) + " 字节"@)
}

/// The error for a response body above its limit.
pub fn response_too_large(limit: u64) -> (r: UpdateError)
    ensures
        r@ == response_too_large_view(limit),
{
    let n = decimal_string(limit);
    let mut message = String::from_str("响应超过允许大小 ");
    message.append(n.as_str());
    message.append(" 字节");
    UpdateError::new("update_too_large", message)
}

/// The checksum that one line of `SHA256SUMS.txt` gives for `artifact_name`, if the line names it.
pub open spec fn line_checksum(line: Seq<char>, artifact_name: Seq<char>) -> Option<
    Result<Seq<char>, ErrorView>,
> {
    let fields = words(line);
    if fields.len() < 2 {
        None
    } else if trim_start_char(fields.last(), '*') != artifact_name {
        None
    } else {
        Some(checked_checksum(lower(trim(fields[0]))))
    }
}

/// A checksum must be 64 bytes of hexadecimal digits.
pub open spec fn checked_checksum(checksum: Seq<char>) -> Result<Seq<char>, ErrorView> {
    if encode_utf8(checksum).len() != 64 {
        Err(err_view("update_checksum_invalid"@, "更新包校验值长度无效："@ + debug_text(checksum)))
    } else if !all_hex(checksum) {
        Err(err_view("update_checksum_invalid"@, "更新包校验值格式无效："@ + debug_text(checksum)))
    } else {
        Ok(checksum)
    }
}

pub open spec fn checksum_missing_view(artifact_name: Seq<char>) -> ErrorView {
    err_view("update_checksum_missing"@, "SHA256SUMS.txt"@ + " 未包含 "@ + artifact_name)
}

/// The outcome for the lines from `i` on: the first line that names the artifact decides.
pub open spec fn checksum_from(lines: Seq<Seq<char>>, artifact_name: Seq<char>, i: int) -> Result<
    Seq<char>,
    ErrorView,
>
    decreases lines.len() - i,
{
    if i < 0 || i >= lines.len() {
        Err(checksum_missing_view(artifact_name))
    } else {
        match line_checksum(lines[i], artifact_name) {
            Some(r) => r,
            None => checksum_from(lines, artifact_name, i + 1),
        }
    }
}

/// `parse_checksum`: the first line whose last field (without leading `*`) is the artifact.
pub open spec fn checksum_spec(checksums: Seq<char>, artifact_name: Seq<char>) -> Result<
    Seq<char>,
    ErrorView,
> {
    checksum_from(split(checksums, seq!['\n']), artifact_name, 0)
}

/// Takes the SHA-256 of `artifact_name` out of `SHA256SUMS.txt`.
pub fn parse_checksum(checksums: &str, artifact_name: &str) -> (r: Result<String, UpdateError>)
    ensures
        match checksum_spec(checksums@, artifact_name@) {
            Ok(c) => r matches Ok(s) && s@ == c,
            Err(e) => r matches Err(err) && err@ == e,
        },
{
    let text = chars_of(checksums);
    let name = chars_of(artifact_name);
    let newline = vec!['\n'];
    proof {
        assert(newline@ == seq!['\n']);
    }
    let lines = split_vec(&text, &newline);
    let ghost spec_lines = split(checksums@, seq!['\n']);
    let mut i: usize = 0;
    while i < lines.len()
        invariant
            i <= lines@.len() == spec_lines.len(),
            forall|k: int| 0 <= k < lines@.len() ==> (#[trigger] lines@[k])@ == spec_lines[k],
            name@ == artifact_name@,
            checksum_spec(checksums@, artifact_name@) == checksum_from(
                spec_lines,
                artifact_name@,
                i as int,
            ),
        decreases lines.len() - i,
    {
        let fields = words_vec(&lines[i]);
        if fields.len() >= 2 {
            let last = trim_start_char_vec(&fields[fields.len() - 1], '*');
            if chars_eq(&last, &name) {
                let first = trimmed(&fields[0]);
                let lowered = lower_vec(&first);
                let checksum = string_of_all(&lowered);
                if checksum.as_str().as_bytes().len() != 64 {
                    let shown = debug_str(checksum.as_str());
                    return Err(
                        UpdateError::new("update_checksum_invalid", concat("更新包校验值长度无效：", shown.as_str())),
                    );
                }
                if !vec_all_hex(&lowered) {
                    let shown = debug_str(checksum.as_str());
                    return Err(
                        UpdateError::new("update_checksum_invalid", concat("更新包校验值格式无效：", shown.as_str())),
                    );
                }
                return Ok(checksum);
            }
        }
        i = i + 1;
    }
    let mut message = String::from_str("SHA256SUMS.txt");
    message.append(" 未包含 ");
    message.append(artifact_name);
    Err(UpdateError::new("update_checksum_missing", message))
}

pub open spec fn checksum_mismatch_view(expected: Seq<char>, actual: Seq<char>) -> ErrorView {
    err_view(
        "update_checksum_mismatch"@,
        "更新包 SHA256 校验失败：期望 "@ + expected + "，实际 "@ + actual,
    )
}

/// Compares the actual SHA-256 with the published one, ignoring ASCII case.
pub fn ensure_checksum_matches(expected: &str, actual: &str) -> (r: Result<(), UpdateError>)
    ensures
        eq_ignore_case(expected@, actual@) ==> r is Ok,
        !eq_ignore_case(expected@, actual@) ==> (r matches Err(e) && e@ == checksum_mismatch_view(
            expected@,
            actual@,
        )),
{
    if str_eq_ignore_case(expected, actual) {
        return Ok(());
    }
    let mut message = String::from_str("更新包 SHA256 校验失败：期望 ");
    message.append(expected);
    message.append("，实际 ");
    message.append(actual);
    Err(UpdateError::new("update_checksum_mismatch", message))
}

/// The temporary file a download is written to before it is renamed.
pub fn part_path(destination: &str) -> (r: String)
    ensures
        r@ == destination@ + ".part"@,
{
    concat(destination, ".part")
}

// ---------------------------------------------------------------- retrying a download
/// How many times a download is tried: at least once.
pub open spec fn attempt_count(attempts: u32) -> u32 {
    if attempts == 0 {
        1
    } else {
        attempts
    }
}

pub fn download_attempt_count(attempts: u32) -> (r: u32)
    ensures
        r == attempt_count(attempts),
{
    if attempts == 0 {
        1
    } else {
        attempts
    }
}

/// What follows one try of a download into the `.part` file. The `.part` file is removed
/// after a failed try either way.
#[derive(Debug)]
pub enum DownloadDecision {
    /// Rename the `.part` file to the destination.
    SavePart,
    /// Remove the `.part` file and try again.
    TryAgain,
    /// Remove the `.part` file and report the last failure.
    GiveUp(UpdateError),
}

/// After try number `attempt` (from 1) of `attempts`: a success is kept, a failure is tried
/// again while tries are left, and the last failure is reported.
pub fn after_download_attempt(attempt: u32, attempts: u32, result: Result<(), UpdateError>) -> (r:
    DownloadDecision)
    requires
        1 <= attempt <= attempt_count(attempts),
    ensures
        match result {
            Ok(()) => r is SavePart,
            Err(e) => if attempt < attempt_count(attempts) {
                r is TryAgain
            } else {
                r == DownloadDecision::GiveUp(e)
            },
        },
{
    match result {
        Ok(()) => DownloadDecision::SavePart,
        Err(e) => if attempt < download_attempt_count(attempts) {
            DownloadDecision::TryAgain
        } else {
            DownloadDecision::GiveUp(e)
        },
    }
}

pub open spec fn save_failed_view(reason: Seq<char>) -> ErrorView {
    err_view("update_io_failed"@, "保存更新文件失败："@ + reason)
}

/// The error when the finished `.part` file cannot be renamed to the destination.
pub fn save_failed_error(reason: &str) -> (r: UpdateError)
    ensures
        r@ == save_failed_view(reason@),
{
    UpdateError::new("update_io_failed", concat("保存更新文件失败：", reason))
}

// ---------------------------------------------------------------- download addresses
/// The scheme and the host (empty when there is none) that `reqwest::Url::parse` gives for
/// `s`; `None` when it rejects `s`.
pub uninterp spec fn url_scheme_and_host(s: Seq<char>) -> Option<(Seq<char>, Seq<char>)>;

/// Calls `reqwest::Url::parse`, then `Url::scheme` and `Url::host_str`; the URL grammar
/// of the `url` crate is not restated, the result is named by `url_scheme_and_host`.
#[verifier::external_body]
fn parsed_scheme_and_host(raw_url: &str) -> (r: Option<(String, String)>)
    ensures
        match url_scheme_and_host(raw_url@) {
            Some(p) => r matches Some(x) && x.0@ == p.0 && x.1@ == p.1,
            None => r is None,
        },
{
    let parsed = reqwest::Url::parse(raw_url).ok()?;
    Some((parsed.scheme().to_owned(), parsed.host_str().unwrap_or_default().to_owned()))
}

pub open spec fn url_invalid_view(raw_url: Seq<char>) -> ErrorView {
    err_view("update_url_invalid"@, "更新地址无效："@ + debug_text(raw_url))
}

pub open spec fn parts_view(parsed: Option<(String, String)>) -> Option<(Seq<char>, Seq<char>)> {
    match parsed {
        Some(p) => Some((p.0@, p.1@)),
        None => None,
    }
}

/// A download address must parse and have a scheme and a host.
pub open spec fn url_accepted(parsed: Option<(Seq<char>, Seq<char>)>) -> bool {
    parsed matches Some(p) && p.0.len() > 0 && p.1.len() > 0
}

/// Decides on a parsed address: accepted with a scheme and a host, else the error that
/// shows the raw address.
pub fn url_check(parsed: Option<(String, String)>, raw_url: &str) -> (r: Result<(), UpdateError>)
    ensures
        url_accepted(parts_view(parsed)) ==> r is Ok,
        !url_accepted(parts_view(parsed)) ==> (r matches Err(e) && e@ == url_invalid_view(raw_url@)),
{
    let ok = match &parsed {
        Some(p) => !p.0.as_str().is_empty() && !p.1.as_str().is_empty(),
        None => false,
    };
    if ok {
        return Ok(());
    }
    let shown = debug_str(raw_url);
    Err(UpdateError::new("update_url_invalid", concat("更新地址无效：", shown.as_str())))
}

/// Checks a download address before any request is made.
pub fn validate_url(raw_url: &str) -> (r: Result<(), UpdateError>)
    ensures
        url_accepted(url_scheme_and_host(raw_url@)) ==> r is Ok,
        !url_accepted(url_scheme_and_host(raw_url@)) ==> (r matches Err(e) && e@ == url_invalid_view(
            raw_url@,
        )),
{
    let parsed = parsed_scheme_and_host(raw_url);
    url_check(parsed, raw_url)
}

/// The SHA-256 of a downloaded file's contents (read by the caller), in lower-case hex.
pub fn hash_file(contents: &[u8]) -> (r: String)
    ensures
        r@ == hex_lower(sha256_digest(contents@)),
        r@.len() == 64,
{
    sha256_hex(contents)
}

} // verus!
