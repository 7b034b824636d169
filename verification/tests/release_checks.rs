use agentnotify_desktop::platform::windows::secrets::credential_target;
use agentnotify_desktop::update::cms::{
    CmsSignerFacts, SHA256_DIGEST_OID, UNIX_EPOCH_FILETIME_TICKS, cms_metadata_decision, cms_signer_decision,
};
use agentnotify_desktop::update::download::hash_file;
use agentnotify_desktop::update::error::UpdateError;
use agentnotify_desktop::update::install::{StagedRelease, validate_staged_release_with_manifest};
use agentnotify_desktop::update::manifest::{ManifestFile, VerifiedReleaseManifest};
use agentnotify_desktop::update::release::ArtifactKind;
use agentnotify_desktop::update::service::{
    InstallAction, InstallMode, InstallerOutcome, after_archive_fallback, after_installer_launch, after_prepare,
};
use agentnotify_desktop::update::staging::{ListedEntry, ListedKind, collect_release_files};
use agentnotify_desktop::update::verify::{
    PackageFacts, SignatureRequirement, SignatureStatus, inspect_pe, sha256_hex, verify_download,
};

/// A minimal Windows executable: DOS header with `MZ`, the PE header at 0x80 and the given
/// optional-header magic.
fn pe_image(magic: u16) -> Vec<u8> {
    let mut bytes = vec![0u8; 0x80 + 26];
    bytes[0] = b'M';
    bytes[1] = b'Z';
    bytes[0x3c] = 0x80;
    bytes[0x80..0x84].copy_from_slice(b"PE\0\0");
    bytes[0x80 + 24] = (magic & 0xff) as u8;
    bytes[0x80 + 25] = (magic >> 8) as u8;
    bytes
}

const PINNED: &str = "ABABABABABABABABABABABABABABABABABABABAB";

#[test]
fn a_32_bit_installer_stub_is_accepted_as_well_as_a_64_bit_one() {
    assert!(inspect_pe(&pe_image(0x010b)).is_ok());
    assert!(inspect_pe(&pe_image(0x020b)).is_ok());
    let other = inspect_pe(&pe_image(0x0107)).unwrap_err();
    assert_eq!(other.code(), "update_not_pe");
    assert_eq!(other.message(), "更新包的 PE 可选头类型不受支持。");
    assert_eq!(inspect_pe(b"MZ").unwrap_err().code(), "update_not_pe");
}

#[test]
fn a_signed_32_bit_installer_with_the_right_digest_and_version_verifies() {
    let contents = pe_image(0x010b);
    let digest = sha256_hex(&contents);
    let facts = PackageFacts {
        contents,
        file_version: Some("2.0.5.0".to_owned()),
        signature_status: SignatureStatus::Valid,
        signer_thumbprint: PINNED.to_owned(),
    };
    let pinned = vec![PINNED.to_owned()];
    let verified =
        verify_download(&facts, &digest, SignatureRequirement::Required, Some("2.0.5"), &pinned).unwrap();
    assert_eq!(verified.sha256, digest);
    assert!(verified.signed);
}

#[test]
fn digests_and_credential_targets_have_fixed_lengths() {
    assert_eq!(sha256_hex(b"abc"), "ba7816bf8f01cfea414140de5dae2223b00361a396177a9cb410ff61f20015ad");
    assert_eq!(hash_file(b"").len(), 64);
    assert_eq!(hash_file(b"abc"), sha256_hex(b"abc"));
    let target = credential_target("wx-account", "token");
    assert!(target.starts_with("AgentNotify/"));
    assert_eq!(target.len(), 76);
    assert_eq!(target, credential_target("wx-account", "token"));
    assert_ne!(target, credential_target("wx-account", "cookie"));
    assert!(target["AgentNotify/".len()..].chars().all(|c| c.is_ascii_hexdigit() && !c.is_ascii_uppercase()));
}

fn cms_facts() -> CmsSignerFacts {
    CmsSignerFacts {
        signer_count: 1,
        digest_oid: Some(SHA256_DIGEST_OID.to_owned()),
        certificate_hash: Some(vec![0xab; 20]),
        validity: Some((UNIX_EPOCH_FILETIME_TICKS, UNIX_EPOCH_FILETIME_TICKS + 36_000_000_000)),
    }
}

const HALF_AN_HOUR_NANOS: u128 = 1_800_000_000_000;

#[test]
fn the_manifest_signature_needs_one_sha256_signer() {
    assert!(cms_metadata_decision(1, Some(SHA256_DIGEST_OID)).is_ok());
    let two = cms_metadata_decision(2, Some(SHA256_DIGEST_OID)).unwrap_err();
    assert_eq!(two.code(), "update_manifest_signature_invalid");
    assert_eq!(two.message(), "发布清单必须只有一个签名者。");
    assert_eq!(cms_metadata_decision(1, None).unwrap_err().message(), "读取发布清单签名摘要算法失败。");
    assert_eq!(
        cms_metadata_decision(1, Some("1.3.14.3.2.26")).unwrap_err().message(),
        "发布清单签名摘要算法不是 SHA-256。"
    );
}

#[test]
fn the_manifest_signer_must_be_pinned_and_valid_now() {
    let trusted = vec![PINNED.to_owned()];
    assert!(cms_signer_decision(&cms_facts(), HALF_AN_HOUR_NANOS, &trusted).is_ok());

    let stranger = cms_signer_decision(&cms_facts(), HALF_AN_HOUR_NANOS, &vec!["CDCD".to_owned()]).unwrap_err();
    assert_eq!(stranger.code(), "update_manifest_signature_untrusted");
    assert_eq!(stranger.message(), "发布清单签名者不在信任列表中。");

    let later = cms_signer_decision(&cms_facts(), 4 * HALF_AN_HOUR_NANOS, &trusted).unwrap_err();
    assert_eq!(later.code(), "update_manifest_expired");
    assert_eq!(later.message(), "发布清单签名证书不在有效期内。");

    let short_hash = CmsSignerFacts { certificate_hash: Some(vec![0xab; 19]), ..cms_facts() };
    assert_eq!(
        cms_signer_decision(&short_hash, HALF_AN_HOUR_NANOS, &trusted).unwrap_err().message(),
        "无法读取发布清单签名者指纹。"
    );
    let no_window = CmsSignerFacts { validity: None, ..cms_facts() };
    assert_eq!(
        cms_signer_decision(&no_window, HALF_AN_HOUR_NANOS, &trusted).unwrap_err().message(),
        "无法读取发布清单签名证书有效期。"
    );
    let before_epoch = CmsSignerFacts { validity: Some((0, UNIX_EPOCH_FILETIME_TICKS)), ..cms_facts() };
    let invalid = cms_signer_decision(&before_epoch, 0, &trusted).unwrap_err();
    assert_eq!(invalid.code(), "update_manifest_signature_invalid");
    assert_eq!(invalid.message(), "发布清单签名证书有效期无效。");
    let one_signer_too_many = CmsSignerFacts { signer_count: 2, ..cms_facts() };
    assert_eq!(
        cms_signer_decision(&one_signer_too_many, HALF_AN_HOUR_NANOS, &trusted).unwrap_err().code(),
        "update_manifest_signature_invalid"
    );
}

fn entry(components: &[&str], kind: ListedKind) -> ListedEntry {
    ListedEntry { components: components.iter().map(|c| (*c).to_owned()).collect(), kind }
}

fn legacy_listing() -> Vec<ListedEntry> {
    vec![
        entry(&["bin", "agentnotify-desktop.exe"], ListedKind::File),
        entry(&["bin"], ListedKind::Directory),
        entry(&["VERSION"], ListedKind::File),
        entry(&["bin", "a.dll"], ListedKind::File),
    ]
}

#[test]
fn a_legacy_release_lists_its_regular_files_in_path_order() {
    assert_eq!(
        collect_release_files(&legacy_listing()).unwrap(),
        vec!["VERSION".to_owned(), "bin\\a.dll".to_owned(), "bin\\agentnotify-desktop.exe".to_owned()]
    );
    assert!(collect_release_files(&Vec::new()).unwrap().is_empty());
    let mut with_link = legacy_listing();
    with_link.push(entry(&["bin", "link"], ListedKind::Other));
    let error = collect_release_files(&with_link).unwrap_err();
    assert_eq!(error.code(), "update_release_layout_invalid");
    assert_eq!(error.message(), "更新包包含不支持的链接或特殊文件。");
}

fn staged() -> StagedRelease {
    StagedRelease {
        root: "C:\\stage\\Agent-notify".to_owned(),
        executable: "C:\\stage\\Agent-notify\\bin\\agentnotify-desktop.exe".to_owned(),
        version_file: "C:\\stage\\Agent-notify\\VERSION".to_owned(),
        files: Vec::new(),
    }
}

#[test]
fn the_checked_file_list_comes_from_the_manifest_or_the_listing() {
    let legacy = validate_staged_release_with_manifest(staged(), VerifiedReleaseManifest::Legacy, &legacy_listing())
        .unwrap();
    assert_eq!(legacy.root, staged().root);
    assert_eq!(legacy.files, vec!["VERSION", "bin\\a.dll", "bin\\agentnotify-desktop.exe"]);

    let signed = VerifiedReleaseManifest::Signed {
        files: vec![ManifestFile { path: "bin/agentnotify-desktop.exe".to_owned(), size: 3, sha256: "00".repeat(32) }],
    };
    let checked = validate_staged_release_with_manifest(staged(), signed, &legacy_listing()).unwrap();
    assert_eq!(checked.files, vec!["bin/agentnotify-desktop.exe"]);

    let mut with_link = legacy_listing();
    with_link.push(entry(&["junction"], ListedKind::Other));
    assert_eq!(
        validate_staged_release_with_manifest(staged(), VerifiedReleaseManifest::Legacy, &with_link)
            .unwrap_err()
            .code(),
        "update_release_layout_invalid"
    );
}

#[test]
fn a_failed_installer_falls_back_to_the_archive_only_when_one_is_published() {
    let started = after_installer_launch("2.1.0", true, false, Ok(()), Some("https://example.test/a.zip".to_owned()));
    match started {
        InstallerOutcome::Done(Ok(report)) => {
            assert_eq!(report.mode, InstallMode::Installer);
            assert_eq!(report.message, "更新包已校验，安装程序已启动（v2.1.0）。安装完成后 AgentNotify 会自动重新打开。");
            assert!(report.signed);
        }
        other => panic!("unexpected outcome: {other:?}"),
    }
    let refused = UpdateError::new("update_installer_failed", "拒绝".to_owned());
    match after_installer_launch("2.1.0", true, false, Err(refused.clone()), Some("https://example.test/a.zip".to_owned())) {
        InstallerOutcome::FallBackToArchive(url) => assert_eq!(url, "https://example.test/a.zip"),
        other => panic!("unexpected outcome: {other:?}"),
    }
    match after_installer_launch("2.1.0", true, false, Err(refused.clone()), None) {
        InstallerOutcome::Done(Err(error)) => assert_eq!(error, refused),
        other => panic!("unexpected outcome: {other:?}"),
    }
}

#[test]
fn the_archive_fallback_reports_both_causes_when_it_fails_too() {
    let refused = UpdateError::new("update_installer_failed", "拒绝".to_owned());
    let report = after_archive_fallback("2.1.0", true, &refused, Ok(false)).unwrap();
    assert_eq!(report.mode, InstallMode::Archive);
    assert!(!report.signed);
    assert!(report.preview);
    assert_eq!(report.message, "安装程序未能启动（拒绝），已改用离线包替换：更新文件已就绪（v2.1.0），重启 AgentNotify 后生效。");
    let failed = UpdateError::new("update_checksum_mismatch", "校验失败".to_owned());
    let error = after_archive_fallback("2.1.0", false, &refused, Err(failed)).unwrap_err();
    assert_eq!(error.code(), "update_install_failed");
    assert_eq!(error.message(), "更新安装器启动失败（拒绝），改用离线包替换也失败：校验失败");
}

#[test]
fn a_failed_check_ends_the_installation_before_any_file_is_touched() {
    let mismatch = UpdateError::new("update_checksum_mismatch", "校验失败".to_owned());
    match after_prepare(Err(mismatch.clone()), true) {
        InstallAction::Fail(error) => assert_eq!(error, mismatch),
        other => panic!("unexpected action: {other:?}"),
    }
    assert!(matches!(after_prepare(Ok(ArtifactKind::Installer), false), InstallAction::LaunchInstaller));
    assert!(matches!(after_prepare(Ok(ArtifactKind::Archive), true), InstallAction::ApplyArchive));
    match after_prepare(Ok(ArtifactKind::Archive), false) {
        InstallAction::Fail(error) => {
            assert_eq!(error.code(), "update_release_layout_invalid");
            assert_eq!(error.message(), "更新包缺少已解压内容");
        }
        other => panic!("unexpected action: {other:?}"),
    }
}
