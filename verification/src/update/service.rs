//! Decisions of the update flow: channel policy, configuration, which release to install,
//! how a download failure is reported, the installation reports and the one-at-a-time lock.
use vstd::prelude::*;

use super::error::{ErrorView, UpdateError, err_view};
use super::release::{
    ArtifactKind, DEFAULT_API_BASE_URL, DEFAULT_REPOSITORY, ReleaseInfo, archive_asset_name,
    archive_name, installer_asset_name, installer_name, is_newer_version, newer_version,
    trim_trailing_slashes, without_trailing_slashes,
};
use super::verify::SignatureRequirement;
use crate::production::runtime::{hyphenated_uuid, random_uuid_text};
use crate::text::{
    all_hex, chars_of, is_hex, concat, concat3, is_upper, str_eq, string_of_all, trim, trim_str, trimmed,
};

verus! {

/// Name of the update working directory below the application's temp directory.
pub const UPDATE_DIR_NAME: &'static str = "updates";

/// Installer log file below the update working directory.
pub const UPDATE_LOG_NAME: &'static str = "last-update.log";

/// Directory of the backups of replaced files below the update working directory.
pub const BACKUP_DIR_NAME: &'static str = "backup";

/// Directory the ZIP is unpacked into below the version directory.
pub const EXTRACT_DIR_NAME: &'static str = "extracted";

/// Environment variable of a GitHub token (not needed for the public repository).
pub const GITHUB_TOKEN_ENV: &'static str = "AGENT_NOTIFY_GITHUB_TOKEN";

/// Update channel: the stable channel requires the pinned signature, the beta channel
/// accepts unsigned packages and marks them as preview.
#[derive(Clone, Copy, Debug, PartialEq, Eq, Structural)]
pub enum UpdateChannel {
    Stable,
    Beta,
}

impl UpdateChannel {
    pub open spec fn spec_is_preview(self) -> bool {
        self == UpdateChannel::Beta
    }

    pub open spec fn spec_requirement(self) -> SignatureRequirement {
        if self.spec_is_preview() {
            SignatureRequirement::Optional
        } else {
            SignatureRequirement::Required
        }
    }

    /// Whether packages of this channel are previews.
    pub fn is_preview(self) -> (b: bool)
        ensures
            b == self.spec_is_preview(),
    {
        match self {
            UpdateChannel::Beta => true,
            UpdateChannel::Stable => false,
        }
    }

    /// Signatures are optional only for previews.
    pub fn signature_requirement(self) -> (r: SignatureRequirement)
        ensures
            r == self.spec_requirement(),
    {
        if self.is_preview() {
            SignatureRequirement::Optional
        } else {
            SignatureRequirement::Required
        }
    }
}

/// Where releases are looked up.
#[derive(Clone, Debug, Eq, PartialEq)]
pub struct UpdateConfig {
    pub repository: String,
    pub api_base_url: String,
}

pub open spec fn opt_text(o: Option<String>) -> Option<Seq<char>> {
    match o {
        Some(s) => Some(s@),
        None => None,
    }
}

/// The repository: the trimmed override when it is not blank, else the default.
pub open spec fn configured_repository(value: Option<Seq<char>>) -> Seq<char> {
    match value {
        Some(v) => if trim(v).len() > 0 {
            trim(v)
        } else {
            DEFAULT_REPOSITORY@
        },
        None => DEFAULT_REPOSITORY@,
    }
}

/// The API base: the trimmed override without trailing `/` when that is not empty, else
/// the default.
pub open spec fn configured_api_base(value: Option<Seq<char>>) -> Seq<char> {
    match value {
        Some(v) => if trim_trailing_slashes(trim(v)).len() > 0 {
            trim_trailing_slashes(trim(v))
        } else {
            DEFAULT_API_BASE_URL@
        },
        None => DEFAULT_API_BASE_URL@,
    }
}

impl UpdateConfig {
    /// The configuration from the values of the two override variables (read by the caller).
    pub fn from_overrides(repository: Option<String>, api_base_url: Option<String>) -> (r: Self)
        ensures
            r.repository@ == configured_repository(opt_text(repository)),
            r.api_base_url@ == configured_api_base(opt_text(api_base_url)),
    {
        let repository = match repository {
            Some(v) => {
                let t = trim_str(v.as_str());
                if t.as_str().is_empty() {
                    String::from_str(DEFAULT_REPOSITORY)
                } else {
                    t
                }
            },
            None => String::from_str(DEFAULT_REPOSITORY),
        };
        let api_base_url = match api_base_url {
            Some(v) => {
                let t = trimmed(&chars_of(v.as_str()));
                let u = without_trailing_slashes(&t);
                if u.len() == 0 {
                    String::from_str(DEFAULT_API_BASE_URL)
                } else {
                    string_of_all(&u)
                }
            },
            None => String::from_str(DEFAULT_API_BASE_URL),
        };
        UpdateConfig { repository, api_base_url }
    }
}

/// How an update was applied.
#[derive(Clone, Copy, Debug, PartialEq, Eq, Structural)]
pub enum InstallMode {
    Installer,
    Archive,
}

/// A successful installation; `signed` and `preview` are carried to the interface as they are.
#[derive(Clone, Debug, Eq, PartialEq)]
pub struct InstallReport {
    pub version: String,
    pub signed: bool,
    pub preview: bool,
    pub mode: InstallMode,
    pub message: String,
}

// ---------------------------------------------------------------- which release
pub open spec fn up_to_date_view() -> ErrorView {
    err_view("update_up_to_date"@, "当前已是最新版本，无需安装。"@)
}

/// The error when there is nothing newer to install.
pub fn up_to_date_error() -> (r: UpdateError)
    ensures
        r@ == up_to_date_view(),
{
    UpdateError::new("update_up_to_date", String::from_str("当前已是最新版本，无需安装。"))
}

/// A release remembered from the last check, with the channel kind it was checked for.
#[derive(Clone, Debug, Eq, PartialEq)]
pub struct CachedRelease {
    pub preview: bool,
    pub release: ReleaseInfo,
}

/// What a check leaves in the cache: the release found, tagged with the channel kind.
pub fn cache_after_check(release: &Option<ReleaseInfo>, channel: UpdateChannel) -> (r: Option<
    CachedRelease,
>)
    ensures
        match release {
            Some(rel) => r matches Some(c) && c.preview == channel.spec_is_preview() && c.release@
                == rel@,
            None => r is None,
        },
{
    match release {
        Some(rel) => Some(CachedRelease { preview: channel.is_preview(), release: rel.duplicate() }),
        None => None,
    }
}

/// A cached release is used only by the channel kind it was checked for.
pub fn cached_release_for(cached: &Option<CachedRelease>, channel: UpdateChannel) -> (r: Option<
    ReleaseInfo,
>)
    ensures
        match cached {
            Some(c) => if c.preview == channel.spec_is_preview() {
                r matches Some(rel) && rel@ == c.release@
            } else {
                r is None
            },
            None => r is None,
        },
{
    match cached {
        Some(c) => {
            if c.preview == channel.is_preview() {
                Some(c.release.duplicate())
            } else {
                None
            }
        },
        None => None,
    }
}

/// The release to install: the one found, if it is still newer than the running version.
pub open spec fn release_to_install_spec(found: Option<ReleaseInfo>, current: Seq<char>) -> Result<
    ReleaseInfo,
    ErrorView,
> {
    match found {
        None => Err(up_to_date_view()),
        Some(rel) => match newer_version(rel.version@, current) {
            Err(e) => Err(e),
            Ok(false) => Err(up_to_date_view()),
            Ok(true) => Ok(rel),
        },
    }
}

/// Before installing, the found (or cached) release is compared once more with the
/// running version, so that nothing older or equal is installed.
pub fn release_to_install(found: Option<ReleaseInfo>, current_version: &str) -> (r: Result<
    ReleaseInfo,
    UpdateError,
>)
    ensures
        match release_to_install_spec(found, current_version@) {
            Ok(rel) => r matches Ok(x) && x@ == rel@,
            Err(v) => r matches Err(e) && e@ == v,
        },
{
    match found {
        None => Err(up_to_date_error()),
        Some(rel) => match is_newer_version(rel.version.as_str(), current_version) {
            Err(e) => Err(e),
            Ok(false) => Err(up_to_date_error()),
            Ok(true) => Ok(rel),
        },
    }
}

/// The asset name of the chosen artifact.
pub fn artifact_asset_name(kind: ArtifactKind, version: &str) -> (r: String)
    ensures
        r@ == match kind {
            ArtifactKind::Installer => installer_name(version@),
            ArtifactKind::Archive => archive_name(version@),
        },
{
    match kind {
        ArtifactKind::Installer => installer_asset_name(version),
        ArtifactKind::Archive => archive_asset_name(version),
    }
}

// ---------------------------------------------------------------- download failures
pub open spec fn checksums_download_view(message: Seq<char>) -> ErrorView {
    err_view("update_checksums_download_failed"@, "下载校验文件失败："@ + message)
}

/// The error for a failed download of the checksum file.
pub fn checksums_download_error(error: &UpdateError) -> (r: UpdateError)
    ensures
        r@ == checksums_download_view(error@.message),
{
    UpdateError::new("update_checksums_download_failed", concat("下载校验文件失败：", error.message()))
}

pub open spec fn artifact_download_view(error: ErrorView) -> ErrorView {
    if error.code == "update_timeout"@ {
        err_view(
            "update_download_timeout"@,
            "下载更新包超时（网络较慢或被限速）：请稍后重试，或到 Releases 页面手动下载安装包。原始错误："@
                + error.message,
        )
    } else {
        err_view("update_download_failed"@, "下载更新包失败："@ + error.message)
    }
}

/// A timeout while downloading the package gets its own code and advice; any other
/// failure is reported as a failed download.
pub fn map_artifact_download_error(error: UpdateError) -> (r: UpdateError)
    ensures
        r@ == artifact_download_view(error@),
{
    if str_eq(error.code(), "update_timeout") {
        return UpdateError::new(
            "update_download_timeout",
            concat(
                "下载更新包超时（网络较慢或被限速）：请稍后重试，或到 Releases 页面手动下载安装包。原始错误：",
                error.message(),
            ),
        );
    }
    UpdateError::new("update_download_failed", concat("下载更新包失败：", error.message()))
}

// ---------------------------------------------------------------- installation
/// Extra installer arguments: `/DIR=<install root>` unless the root is empty.
pub fn installer_extra_args(install_root: &str) -> (r: Vec<String>)
    ensures
        install_root@.len() == 0 ==> r@.len() == 0,
        install_root@.len() > 0 ==> r@.len() == 1 && r@[0]@ == "/DIR="@ + install_root@,
{
    let mut r: Vec<String> = Vec::new();
    if install_root.is_empty() {
        return r;
    }
    r.push(concat("/DIR=", install_root));
    r
}

pub open spec fn installer_started_message(version: Seq<char>) -> Seq<char> {
    "更新包已校验，安装程序已启动（v"@ + version + "）。安装完成后 AgentNotify 会自动重新打开。"@
}

pub open spec fn fallback_message(installer_message: Seq<char>, version: Seq<char>) -> Seq<char> {
    "安装程序未能启动（"@ + installer_message + "），已改用离线包替换：更新文件已就绪（v"@ + version
        + "），重启 AgentNotify 后生效。"@
}

pub open spec fn archive_ready_message(version: Seq<char>) -> Seq<char> {
    "更新文件已就绪（v"@ + version + "），重启 AgentNotify 后生效。"@
}

/// The report after the installer was started.
pub fn installer_started_report(version: &str, signed: bool, preview: bool) -> (r: InstallReport)
    ensures
        r.version@ == version@,
        r.signed == signed,
        r.preview == preview,
        r.mode == InstallMode::Installer,
        r.message@ == installer_started_message(version@),
{
    InstallReport {
        version: String::from_str(version),
        signed,
        preview,
        mode: InstallMode::Installer,
        message: concat3(
            "更新包已校验，安装程序已启动（v",
            version,
            "）。安装完成后 AgentNotify 会自动重新打开。",
        ),
    }
}

/// The report after the installer failed and the ZIP replaced the files instead.
pub fn fallback_report(version: &str, signed: bool, preview: bool, installer_error: &UpdateError) -> (r:
    InstallReport)
    ensures
        r.version@ == version@,
        r.signed == signed,
        r.preview == preview,
        r.mode == InstallMode::Archive,
        r.message@ == fallback_message(installer_error@.message, version@),
{
    let mut message = String::from_str("安装程序未能启动（");
    message.append(installer_error.message());
    message.append("），已改用离线包替换：更新文件已就绪（v");
    message.append(version);
    message.append("），重启 AgentNotify 后生效。");
    InstallReport {
        version: String::from_str(version),
        signed,
        preview,
        mode: InstallMode::Archive,
        message,
    }
}

/// The report after the ZIP replaced the files.
pub fn archive_report(version: &str, signed: bool, preview: bool) -> (r: InstallReport)
    ensures
        r.version@ == version@,
        r.signed == signed,
        r.preview == preview,
        r.mode == InstallMode::Archive,
        r.message@ == archive_ready_message(version@),
{
    InstallReport {
        version: String::from_str(version),
        signed,
        preview,
        mode: InstallMode::Archive,
        message: concat3("更新文件已就绪（v", version, "），重启 AgentNotify 后生效。"),
    }
}

pub open spec fn both_failed_view(installer_message: Seq<char>, fallback_message: Seq<char>) -> ErrorView {
    err_view(
        "update_install_failed"@,
        "更新安装器启动失败（"@ + installer_message + "），改用离线包替换也失败："@ + fallback_message,
    )
}

/// The error when both the installer and the ZIP fallback failed: it names both causes.
pub fn both_failed_error(installer_error: &UpdateError, fallback_error: &UpdateError) -> (r: UpdateError)
    ensures
        r@ == both_failed_view(installer_error@.message, fallback_error@.message),
{
    let mut message = String::from_str("更新安装器启动失败（");
    message.append(installer_error.message());
    message.append("），改用离线包替换也失败：");
    message.append(fallback_error.message());
    UpdateError::new("update_install_failed", message)
}

/// What the installation does once the download was checked.
#[derive(Debug)]
pub enum InstallAction {
    /// Start the verified installer.
    LaunchInstaller,
    /// Replace the installed files with the verified, unpacked ZIP.
    ApplyArchive,
    /// Stop with this error; no installed file is touched.
    Fail(UpdateError),
}

/// After the download and its checks (`prepared` is the checked artifact's kind, or why
/// a check failed): a failed check ends the installation before any installed file is
/// touched; a checked installer is started; a checked ZIP replaces the files when its
/// unpacked content is there.
pub fn after_prepare(prepared: Result<ArtifactKind, UpdateError>, has_staged_release: bool) -> (r: InstallAction)
    ensures
        match prepared {
            Err(e) => r == InstallAction::Fail(e),
            Ok(ArtifactKind::Installer) => r == InstallAction::LaunchInstaller,
            Ok(ArtifactKind::Archive) => if has_staged_release {
                r == InstallAction::ApplyArchive
            } else {
                r matches InstallAction::Fail(e) && e@ == staged_missing_view()
            },
        },
{
    match prepared {
        Err(e) => InstallAction::Fail(e),
        Ok(ArtifactKind::Installer) => InstallAction::LaunchInstaller,
        Ok(ArtifactKind::Archive) => if has_staged_release {
            InstallAction::ApplyArchive
        } else {
            InstallAction::Fail(staged_missing_error())
        },
    }
}

/// What follows an attempt to start the installer: the update is done (installed, or failed
/// for good), or the ZIP fallback is to be fetched from the given address.
#[derive(Debug)]
pub enum InstallerOutcome {
    Done(Result<InstallReport, UpdateError>),
    FallBackToArchive(String),
}

/// After the installer was asked to start: a started installer gives the installer report;
/// a failed start falls back to the ZIP where the release names one, and otherwise hands the
/// installer's error on unchanged.
pub fn after_installer_launch(
    version: &str,
    signed: bool,
    preview: bool,
    launch: Result<(), UpdateError>,
    archive_url: Option<String>,
) -> (r: InstallerOutcome)
    ensures
        match launch {
            Ok(_) => match r {
                InstallerOutcome::Done(Ok(report)) => {
                    &&& report.version@ == version@
                    &&& report.signed == signed
                    &&& report.preview == preview
                    &&& report.mode == InstallMode::Installer
                    &&& report.message@ == installer_started_message(version@)
                },
                _ => false,
            },
            Err(e) => match archive_url {
                Some(url) => r == InstallerOutcome::FallBackToArchive(url),
                None => r == InstallerOutcome::Done(Err(e)),
            },
        },
{
    match launch {
        Ok(()) => InstallerOutcome::Done(Ok(installer_started_report(version, signed, preview))),
        Err(installer_error) => match archive_url {
            Some(url) => InstallerOutcome::FallBackToArchive(url),
            None => InstallerOutcome::Done(Err(installer_error)),
        },
    }
}

/// After the ZIP fallback that followed a failed installer start: its success (with whether
/// the unpacked program was signed) gives the fallback report; its failure gives the error
/// that names both causes.
pub fn after_archive_fallback(
    version: &str,
    preview: bool,
    installer_error: &UpdateError,
    fallback: Result<bool, UpdateError>,
) -> (r: Result<InstallReport, UpdateError>)
    ensures
        match fallback {
            Ok(signed) => match r {
                Ok(report) => {
                    &&& report.version@ == version@
                    &&& report.signed == signed
                    &&& report.preview == preview
                    &&& report.mode == InstallMode::Archive
                    &&& report.message@ == fallback_message(installer_error@.message, version@)
                },
                Err(_) => false,
            },
            Err(fallback_error) => match r {
                Err(e) => e@ == both_failed_view(installer_error@.message, fallback_error@.message),
                Ok(_) => false,
            },
        },
{
    match fallback {
        Ok(signed) => Ok(fallback_report(version, signed, preview, installer_error)),
        Err(fallback_error) => Err(both_failed_error(installer_error, &fallback_error)),
    }
}

pub open spec fn staged_missing_view() -> ErrorView {
    err_view("update_release_layout_invalid"@, "更新包缺少已解压内容"@)
}

/// The error when an archive update has no unpacked content to apply.
pub fn staged_missing_error() -> (r: UpdateError)
    ensures
        r@ == staged_missing_view(),
{
    UpdateError::new("update_release_layout_invalid", String::from_str("更新包缺少已解压内容"))
}

// ---------------------------------------------------------------- backups
/// The backup directory name of one installation: the version and a random suffix, since
/// an older backup may still hold files in use.
pub fn backup_dir_name(version: &str, suffix: &str) -> (r: String)
    ensures
        r@ == version@ + "-"@ + suffix@,
{
    concat3(version, "-", suffix)
}

/// The simple form of a hyphenated UUID: its 32 digits without the hyphens.
fn uuid_digits(text: &str) -> (r: String)
    requires
        hyphenated_uuid(text@),
    ensures
        r@.len() == 32,
        all_hex(r@),
        forall|i: int| 0 <= i < r@.len() ==> !is_upper(#[trigger] r@[i]),
{
    let v = chars_of(text);
    let mut out: Vec<char> = Vec::new();
    let mut i: usize = 0;
    while i < 36
        invariant
            i <= 36,
            v@ == text@,
            hyphenated_uuid(v@),
            out@.len() == i - (if i > 23 {
                4int
            } else if i > 18 {
                3int
            } else if i > 13 {
                2int
            } else if i > 8 {
                1int
            } else {
                0int
            }),
            forall|k: int| 0 <= k < out@.len() ==> is_hex(#[trigger] out@[k]) && !is_upper(out@[k]),
        decreases 36 - i,
    {
        if i != 8 && i != 13 && i != 18 && i != 23 {
            assert(is_hex(v@[i as int]) && !is_upper(v@[i as int]));
            out.push(v[i]);
        }
        i = i + 1;
    }
    string_of_all(&out)
}

/// A fresh backup directory name for `version`.
pub fn new_backup_dir_name(version: &str) -> (r: String)
    ensures
        exists|suffix: Seq<char>|
            suffix.len() == 32 && all_hex(suffix) && #[trigger] (version@ + "-"@ + suffix) == r@,
{
    let text = random_uuid_text();
    let suffix = uuid_digits(text.as_str());
    let r = backup_dir_name(version, suffix.as_str());
    assert(version@ + "-"@ + suffix@ == r@);
    r
}

// ---------------------------------------------------------------- one installation at a time
pub open spec fn busy_view() -> ErrorView {
    err_view("update_install_busy"@, "已有更新任务正在进行，请等待完成。"@)
}

/// The flag that lets only one installation run at a time.
#[derive(Debug)]
pub struct InstallLock {
    busy: bool,
}

impl View for InstallLock {
    type V = bool;

    closed spec fn view(&self) -> bool {
        self.busy
    }
}

impl InstallLock {
    pub fn new() -> (r: Self)
        ensures
            !r@,
    {
        InstallLock { busy: false }
    }

    pub fn is_busy(&self) -> (b: bool)
        ensures
            b == self@,
    {
        self.busy
    }

    /// Takes the lock; a second installation while one runs is refused.
    pub fn acquire(&mut self) -> (r: Result<(), UpdateError>)
        ensures
            !old(self)@ ==> r is Ok && final(self)@,
            old(self)@ ==> (r matches Err(e) && e@ == busy_view()) && final(self)@,
    {
        if self.busy {
            return Err(
                UpdateError::new("update_install_busy", String::from_str("已有更新任务正在进行，请等待完成。")),
            );
        }
        self.busy = true;
        Ok(())
    }

    /// Gives the lock back when the installation ends, whatever its outcome.
    pub fn release(&mut self)
        ensures
            !final(self)@,
    {
        self.busy = false;
    }
}

} // verus!
