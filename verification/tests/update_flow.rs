use std::cmp::Ordering;

use agentnotify_desktop::update::download::{
    DOWNLOAD_ATTEMPTS, DownloadDecision, after_download_attempt, download_attempt_count, ensure_checksum_matches,
    ensure_within_download_limit, parse_checksum, part_path, save_failed_error, validate_url,
};
use agentnotify_desktop::update::error::UpdateError;
use agentnotify_desktop::update::install::{
    ArchiveExtraction, EntryAction, MAX_EXTRACTED_BYTES, check_staged_layout, staged_release_layout, check_archive_entry, install_relative_path, path_inside, safe_entry_path, within_extraction_budget,
};
use agentnotify_desktop::update::release::{
    ArtifactKind, ReleaseInfo, archive_asset_name, compare_versions, installer_asset_name,
    is_newer_version, normalize_version,
};
use agentnotify_desktop::update::service::{
    InstallLock, InstallMode, UpdateChannel, UpdateConfig, artifact_asset_name, both_failed_error,
    cache_after_check, cached_release_for, fallback_report, installer_extra_args,
    installer_started_report, map_artifact_download_error, new_backup_dir_name, release_to_install,
};
use agentnotify_desktop::update::verify::{
    DEFAULT_SIGNATURE_THUMBPRINT, SignatureRequirement, SignatureStatus, sha256_hex,
    signature_policy, signer_thumbprint, thumbprint_from_hash,
};

fn release(version: &str) -> ReleaseInfo {
    ReleaseInfo {
        version: version.to_owned(),
        tag_name: format!("v{version}"),
        notes: String::new(),
        artifact_kind: ArtifactKind::Installer,
        artifact_url: "https://example.com/a.exe".to_owned(),
        checksum_url: "https://example.com/SHA256SUMS.txt".to_owned(),
        archive_url: None,
    }
}

#[test]
fn versions_normalize_and_compare_by_component() {
    assert_eq!(normalize_version(" v1.2.3-beta+5 ").as_deref(), Some("1.2.3"));
    assert_eq!(normalize_version("1.2"), None);
    assert_eq!(normalize_version("1.a.3"), None);
    assert_eq!(compare_versions("1.10.0", "1.9.9").unwrap(), Ordering::Greater);
    assert_eq!(compare_versions("v2.0.0", "2.0.0").unwrap(), Ordering::Equal);
    assert_eq!(compare_versions("1.9.9", "1.10.0").unwrap(), Ordering::Less);
    assert!(is_newer_version("1.2.4", "1.2.3").unwrap());
    assert!(!is_newer_version("1.2.3", "1.2.3").unwrap());
    assert_eq!(compare_versions("x", "1.0.0").unwrap_err().code(), "update_version_not_comparable");
}

#[test]
fn asset_names_follow_the_release_layout() {
    assert_eq!(installer_asset_name("1.2.3"), "Agent-notify-Setup-v1.2.3.exe");
    assert_eq!(archive_asset_name("1.2.3"), "Agent-notify-v1.2.3.zip");
    assert_eq!(artifact_asset_name(ArtifactKind::Archive, "2.0.0"), "Agent-notify-v2.0.0.zip");
    assert_eq!(ArtifactKind::Installer.as_str(), "installer");
}

#[test]
fn checksum_file_gives_the_artifact_digest() {
    let digest = "AB".repeat(32);
    let sums = format!("{}  other.zip\n{digest} *Agent-notify-v1.2.3.zip\n", "cd".repeat(32));
    assert_eq!(parse_checksum(&sums, "Agent-notify-v1.2.3.zip").unwrap(), "ab".repeat(32));
    assert_eq!(
        parse_checksum(&sums, "missing.zip").unwrap_err().code(),
        "update_checksum_missing"
    );
    assert_eq!(
        parse_checksum("1234 a.zip", "a.zip").unwrap_err().code(),
        "update_checksum_invalid"
    );
    assert!(ensure_checksum_matches("ABCD", "abcd").is_ok());
    let error = ensure_checksum_matches("aa", "bb").unwrap_err();
    assert_eq!(error.code(), "update_checksum_mismatch");
    assert_eq!(error.message(), "更新包 SHA256 校验失败：期望 aa，实际 bb");
}

#[test]
fn download_limits_and_addresses_are_checked() {
    assert!(ensure_within_download_limit(10, 10).is_ok());
    let error = ensure_within_download_limit(11, 10).unwrap_err();
    assert_eq!(error.code(), "update_too_large");
    assert_eq!(error.message(), "更新文件超过允许大小 10 字节");
    assert_eq!(part_path(r"C:\x\a.zip"), r"C:\x\a.zip.part");
    assert!(validate_url("https://github.com/owner/repo").is_ok());
    let error = validate_url("not a url").unwrap_err();
    assert_eq!(error.code(), "update_url_invalid");
    assert_eq!(error.message(), "更新地址无效：\"not a url\"");
}

#[test]
fn digests_and_thumbprints_are_hex() {
    assert_eq!(
        sha256_hex(b"abc"),
        "ba7816bf8f01cfea414140de5dae2223b00361a396177a9cb410ff61f20015ad"
    );
    assert_eq!(thumbprint_from_hash(&[0xab, 0x01, 0xff]), "AB01FF");
    let hash = [0x1fu8; 20];
    assert_eq!(signer_thumbprint(Some(&hash)).as_deref(), Some("1F".repeat(20).as_str()));
    assert_eq!(signer_thumbprint(Some(&hash[..19])), None);
    assert_eq!(signer_thumbprint(None), None);
}

#[test]
fn stable_channel_requires_a_trusted_signature() {
    let none: Vec<String> = Vec::new();
    assert_eq!(
        signature_policy(SignatureStatus::NotSigned, "", SignatureRequirement::Optional, &none).unwrap(),
        false
    );
    assert_eq!(
        signature_policy(SignatureStatus::NotSigned, "", SignatureRequirement::Required, &none)
            .unwrap_err()
            .code(),
        "update_signature_missing"
    );
    assert_eq!(
        signature_policy(SignatureStatus::HashMismatch, "", SignatureRequirement::Optional, &none)
            .unwrap_err()
            .code(),
        "update_signature_invalid"
    );
    let pinned = vec![DEFAULT_SIGNATURE_THUMBPRINT.to_owned()];
    let spaced = "ed f9 e2 83 df 24 07 b3 18 e6 5d 59 bb 43 0f d5 46 50 9a cd";
    assert!(signature_policy(SignatureStatus::Valid, spaced, SignatureRequirement::Required, &pinned).unwrap());
    assert!(signature_policy(SignatureStatus::NotTrusted, spaced, SignatureRequirement::Required, &pinned).unwrap());
    assert_eq!(
        signature_policy(SignatureStatus::Valid, "00", SignatureRequirement::Required, &pinned)
            .unwrap_err()
            .code(),
        "update_signature_untrusted"
    );
}

#[test]
fn zip_entries_stay_inside_the_destination() {
    assert_eq!(safe_entry_path("a/./b//c").unwrap(), r"a\b\c");
    assert_eq!(safe_entry_path("dir/../x").unwrap(), "x");
    for name in ["../x", "/abs", "..", "", "a/../../x", r"C:\x"] {
        assert_eq!(
            safe_entry_path(name).unwrap_err().code(),
            "update_archive_path_unsafe",
            "must reject {name:?}"
        );
    }
    let mut seen = Vec::new();
    assert_eq!(check_archive_entry(&mut seen, r"C:\dest", "a/b.txt").unwrap(), r"C:\dest\a\b.txt");
    let duplicate = check_archive_entry(&mut seen, r"C:\dest", "A/B.txt").unwrap_err();
    assert_eq!(duplicate.message(), "更新包包含重复路径：A/B.txt");
    assert_eq!(seen.len(), 1);
    assert!(path_inside(r"C:\Dest\", r"c:/dest/a"));
    assert!(!path_inside(r"C:\dest", r"C:\destination\a"));
    assert!(within_extraction_budget(10, 90, 100));
    assert!(!within_extraction_budget(11, 90, 100));
}

#[test]
fn accepted_entries_pass_the_containment_check_below_any_directory() {
    assert_eq!(safe_entry_path("Agent-notify/bin/../VERSION").unwrap(), r"Agent-notify\VERSION");
    for destination in [r"C:\dest", r"C:\dest\\", "C:/dest/", r"C:\", r"\\server\share", "relative"] {
        let mut seen = Vec::new();
        let target = check_archive_entry(&mut seen, destination, "Agent-notify/bin/../VERSION")
            .unwrap_or_else(|error| panic!("{destination}: {error:?}"));
        assert!(path_inside(destination, &target), "{destination} -> {target}");
    }
    let mut seen = Vec::new();
    let bare_drive = check_archive_entry(&mut seen, "C:", "a.txt").unwrap_err();
    assert_eq!(bare_drive.message(), "更新包包含越界路径：a.txt");
    assert!(seen.is_empty());
}

#[test]
fn release_files_map_into_the_install_root() {
    assert_eq!(install_relative_path("bin/agentnotify-desktop.exe").as_deref(), Some("agentnotify-desktop.exe"));
    assert_eq!(install_relative_path("BIN/sub/x.dll").as_deref(), Some(r"sub\x.dll"));
    assert_eq!(install_relative_path("plugin/agent-notify.ts").as_deref(), Some("plugin/agent-notify.ts"));
    assert_eq!(install_relative_path("bin"), None);
}

#[test]
fn update_configuration_trims_and_falls_back() {
    let config = UpdateConfig::from_overrides(
        Some("  owner/repo ".to_owned()),
        Some(" https://api.example.com/// ".to_owned()),
    );
    assert_eq!(config.repository, "owner/repo");
    assert_eq!(config.api_base_url, "https://api.example.com");
    let defaults = UpdateConfig::from_overrides(Some("   ".to_owned()), Some("///".to_owned()));
    assert_eq!(defaults.repository, "srafyhucl-cpu/agent-notify-releases");
    assert_eq!(defaults.api_base_url, "https://api.github.com");
    assert_eq!(UpdateConfig::from_overrides(None, None), defaults);
}

#[test]
fn channels_decide_preview_and_signature_policy() {
    assert!(UpdateChannel::Beta.is_preview());
    assert!(!UpdateChannel::Stable.is_preview());
    assert_eq!(UpdateChannel::Beta.signature_requirement(), SignatureRequirement::Optional);
    assert_eq!(UpdateChannel::Stable.signature_requirement(), SignatureRequirement::Required);
}

#[test]
fn only_a_newer_release_is_installed() {
    assert_eq!(release_to_install(None, "1.0.0").unwrap_err().code(), "update_up_to_date");
    assert_eq!(release_to_install(Some(release("1.0.1")), "1.0.0").unwrap().version, "1.0.1");
    assert_eq!(
        release_to_install(Some(release("1.0.0")), "1.0.0").unwrap_err().message(),
        "当前已是最新版本，无需安装。"
    );
    assert_eq!(
        release_to_install(Some(release("bad")), "1.0.0").unwrap_err().code(),
        "update_version_not_comparable"
    );
}

#[test]
fn cached_release_is_kept_per_channel_kind() {
    let cached = cache_after_check(&Some(release("2.0.0")), UpdateChannel::Beta);
    assert!(cached.as_ref().unwrap().preview);
    assert_eq!(cached_release_for(&cached, UpdateChannel::Beta).unwrap().version, "2.0.0");
    assert!(cached_release_for(&cached, UpdateChannel::Stable).is_none());
    assert!(cache_after_check(&None, UpdateChannel::Stable).is_none());
}

#[test]
fn download_failures_and_reports_carry_their_causes() {
    let timeout = map_artifact_download_error(UpdateError::new("update_timeout", "slow".to_owned()));
    assert_eq!(timeout.code(), "update_download_timeout");
    assert!(timeout.message().ends_with("原始错误：slow"));
    let failed = map_artifact_download_error(UpdateError::new("update_http_status", "404".to_owned()));
    assert_eq!(failed.code(), "update_download_failed");
    assert_eq!(failed.message(), "下载更新包失败：404");

    assert!(installer_extra_args("").is_empty());
    assert_eq!(installer_extra_args(r"C:\Apps\AgentNotify"), vec![r"/DIR=C:\Apps\AgentNotify".to_owned()]);

    let started = installer_started_report("1.2.3", true, false);
    assert_eq!(started.mode, InstallMode::Installer);
    assert_eq!(started.message, "更新包已校验，安装程序已启动（v1.2.3）。安装完成后 AgentNotify 会自动重新打开。");
    let installer_error = UpdateError::new("update_installer_failed", "退出码 1".to_owned());
    let fallback = fallback_report("1.2.3", false, true, &installer_error);
    assert_eq!(fallback.mode, InstallMode::Archive);
    assert!(fallback.preview && !fallback.signed);
    assert!(fallback.message.contains("退出码 1"));
    let both = both_failed_error(&installer_error, &UpdateError::new("x", "磁盘已满".to_owned()));
    assert_eq!(both.code(), "update_install_failed");
    assert_eq!(both.message(), "更新安装器启动失败（退出码 1），改用离线包替换也失败：磁盘已满");
}

#[test]
fn only_one_installation_runs_at_a_time() {
    let mut lock = InstallLock::new();
    assert!(lock.acquire().is_ok());
    assert!(lock.is_busy());
    assert_eq!(lock.acquire().unwrap_err().code(), "update_install_busy");
    lock.release();
    assert!(lock.acquire().is_ok());
}

#[test]
fn backup_directories_get_a_random_suffix() {
    let name = new_backup_dir_name("1.2.3");
    assert!(name.starts_with("1.2.3-"));
    let suffix = &name["1.2.3-".len()..];
    assert_eq!(suffix.len(), 32);
    assert!(suffix.chars().all(|c| c.is_ascii_hexdigit() && !c.is_ascii_uppercase()));
    assert_ne!(new_backup_dir_name("1.2.3"), name);
}

/// Runs the retry decisions over scripted download results; returns the outcome and the tries.
fn run_download(attempts: u32, results: &[Result<(), UpdateError>]) -> (Result<(), UpdateError>, usize) {
    let total = download_attempt_count(attempts);
    let mut attempt = 1;
    loop {
        let result = results[attempt as usize - 1].clone();
        match after_download_attempt(attempt, attempts, result) {
            DownloadDecision::SavePart => return (Ok(()), attempt as usize),
            DownloadDecision::TryAgain => attempt += 1,
            DownloadDecision::GiveUp(error) => return (Err(error), attempt as usize),
        }
        assert!(attempt <= total);
    }
}

#[test]
fn downloads_are_retried_and_report_the_last_failure() {
    let stall = |n: &str| Err(UpdateError::new("update_http_failed", n.to_owned()));
    assert_eq!(download_attempt_count(0), 1);
    assert_eq!(download_attempt_count(DOWNLOAD_ATTEMPTS), 3);
    let (outcome, tries) = run_download(DOWNLOAD_ATTEMPTS, &[stall("1"), Ok(()), stall("x")]);
    assert!(outcome.is_ok());
    assert_eq!(tries, 2);
    let (outcome, tries) = run_download(DOWNLOAD_ATTEMPTS, &[stall("1"), stall("2"), stall("3")]);
    assert_eq!(outcome.unwrap_err().message(), "3");
    assert_eq!(tries, 3);
    let (outcome, tries) = run_download(0, &[stall("only")]);
    assert_eq!(outcome.unwrap_err().message(), "only");
    assert_eq!(tries, 1);
    let error = save_failed_error("拒绝访问");
    assert_eq!(error.code(), "update_io_failed");
    assert_eq!(error.message(), "保存更新文件失败：拒绝访问");
}

#[test]
fn a_staged_release_needs_its_root_program_and_version_file() {
    let layout = staged_release_layout(r"C:\tmp\stage");
    assert_eq!(layout.executable, r"C:\tmp\stage\Agent-notify\bin/agentnotify-desktop.exe");
    assert_eq!(check_staged_layout(&layout, false, true, true).unwrap_err().message(), "更新包缺少 Agent-notify 根目录");
    assert_eq!(
        check_staged_layout(&layout, true, false, false).unwrap_err().message(),
        r"更新包缺少文件：C:\tmp\stage\Agent-notify\bin/agentnotify-desktop.exe"
    );
    assert_eq!(
        check_staged_layout(&layout, true, true, false).unwrap_err().message(),
        r"更新包缺少文件：C:\tmp\stage\Agent-notify\VERSION"
    );
    assert!(check_staged_layout(&layout, true, true, true).is_ok());
}

#[test]
fn extraction_checks_each_entry_and_keeps_the_total_within_the_limit() {
    let mut extraction = ArchiveExtraction::new();
    match extraction.begin_entry(r"C:\dest", "Agent-notify/", true, false, 0).unwrap() {
        EntryAction::CreateDir(target) => assert_eq!(target, r"C:\dest\Agent-notify"),
        other => panic!("目录必须创建：{other:?}"),
    }
    let limit = match extraction.begin_entry(r"C:\dest", "Agent-notify/VERSION", false, false, 6).unwrap() {
        EntryAction::WriteFile { target, limit } => {
            assert_eq!(target, r"C:\dest\Agent-notify\VERSION");
            limit
        }
        other => panic!("文件必须写入：{other:?}"),
    };
    assert_eq!(limit, MAX_EXTRACTED_BYTES);
    extraction.entry_written(6, limit).unwrap();
    assert_eq!(extraction.extracted(), 6);

    let link = extraction.begin_entry(r"C:\dest", "Agent-notify/link", false, true, 0).unwrap_err();
    assert_eq!(link.code(), "update_archive_symlink");
    assert_eq!(link.message(), "更新包包含不支持的符号链接：Agent-notify/link");
    let duplicate = extraction.begin_entry(r"C:\dest", "agent-notify/version", false, false, 1).unwrap_err();
    assert_eq!(duplicate.message(), "更新包包含重复路径：agent-notify/version");

    let too_big = extraction.begin_entry(r"C:\dest", "big.bin", false, false, MAX_EXTRACTED_BYTES).unwrap_err();
    assert_eq!(too_big.code(), "update_archive_too_large");
    assert_eq!(
        too_big.message(),
        "解压后的更新内容超过允许大小（本条剩余 209715194 字节，总计 209715200 字节）"
    );
    let limit = match extraction.begin_entry(r"C:\dest", "lying.bin", false, false, 1).unwrap() {
        EntryAction::WriteFile { limit, .. } => limit,
        other => panic!("{other:?}"),
    };
    let lying = extraction.entry_written(limit + 1, limit).unwrap_err();
    assert_eq!(lying.code(), "update_archive_too_large");
    assert_eq!(extraction.extracted(), 6);
}
