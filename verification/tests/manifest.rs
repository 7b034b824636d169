use agentnotify_desktop::update::manifest::{
    ActualFile, ControlFileProbe, ControlFileState, ManifestFile, ReleaseManifest,
    ReleaseManifestContract, VerifiedReleaseManifest, control_file_state, control_files_outcome,
    counted_release_files, ensure_control_file_size, reconcile_manifest_files, validate_contract,
    validate_manifest_header, validate_manifest_path,
};
use agentnotify_desktop::update::verify::SignatureRequirement;

fn contract() -> ReleaseManifestContract {
    ReleaseManifestContract {
        schema_version: 1,
        product: "AgentNotify".to_owned(),
        manifest_file_name: "release-files.json".to_owned(),
        signature_file_name: "release-files.json.p7s".to_owned(),
        hash_algorithm: "sha256".to_owned(),
        max_manifest_bytes: 1048576,
        max_signature_bytes: 65536,
        max_file_entries: 4,
    }
}

fn file(path: &str, size: u64, sha: &str) -> ManifestFile {
    ManifestFile { path: path.to_owned(), size, sha256: sha.to_owned() }
}

fn valid_manifest(contract: &ReleaseManifestContract) -> ReleaseManifest {
    ReleaseManifest {
        schema_version: contract.schema_version,
        product: contract.product.clone(),
        version: "2.0.7".to_owned(),
        hash_algorithm: contract.hash_algorithm.clone(),
        files: vec![file("VERSION", 5, &"0".repeat(64))],
    }
}

#[test]
fn path_validation_rejects_traversal_and_backslashes() {
    for path in ["../evil", "a/../b", "/absolute", "a\\b", "a//b", "a/"] {
        assert!(validate_manifest_path(path).is_err(), "must reject {path:?}");
    }
    assert!(validate_manifest_path("plugin/agent-notify.ts").is_ok());
}

#[test]
fn strict_json_and_manifest_headers_reject_ambiguity() {
    let contract = contract();
    let mut manifest = valid_manifest(&contract);
    manifest.version = "2.0.8".to_owned();
    assert_eq!(
        validate_manifest_header(&manifest, &contract, "2.0.7").expect_err("版本不匹配必须拒绝").code(),
        "update_manifest_invalid"
    );

    manifest = valid_manifest(&contract);
    manifest.files.push(manifest.files[0].clone());
    assert!(validate_manifest_header(&manifest, &contract, "2.0.7").is_err());

    manifest = valid_manifest(&contract);
    manifest.files[0].sha256 = "A".repeat(64);
    assert!(validate_manifest_header(&manifest, &contract, "2.0.7").is_err());
}

#[test]
fn manifest_paths_reject_control_characters_drives_and_current_dir() {
    for path in ["", "a\u{7}b", "a\0b", "C:evil", "./a", "..", "a/./../b"] {
        assert!(validate_manifest_path(path).is_err(), "must reject {path:?}");
    }
    let error = validate_manifest_path("..").unwrap_err();
    assert_eq!(error.code(), "update_manifest_invalid");
    assert_eq!(error.message(), "发布清单包含不安全的文件路径。");
    assert!(validate_manifest_path("a/./b").is_ok());
    assert!(validate_manifest_path("VERSION").is_ok());
}

#[test]
fn header_accepts_a_sorted_manifest_and_reports_each_problem() {
    let contract = contract();
    let mut manifest = valid_manifest(&contract);
    manifest.files = vec![
        file("VERSION", 5, &"a".repeat(64)),
        file("bin/agentnotify-desktop.exe", 10, &"b".repeat(64)),
        file("plugin/agent-notify.ts", 7, &"c".repeat(64)),
    ];
    assert!(validate_manifest_header(&manifest, &contract, "2.0.7").is_ok());

    let mut unsorted = manifest.clone();
    unsorted.files.swap(1, 2);
    assert_eq!(
        validate_manifest_header(&unsorted, &contract, "2.0.7").unwrap_err().message(),
        "发布清单文件路径未按固定顺序排列或存在重复。"
    );

    let mut case_conflict = manifest.clone();
    case_conflict.files = vec![file("Bin/a", 1, &"a".repeat(64)), file("bin/a", 1, &"a".repeat(64))];
    assert_eq!(
        validate_manifest_header(&case_conflict, &contract, "2.0.7").unwrap_err().message(),
        "发布清单包含大小写冲突的文件路径。"
    );

    let mut empty = manifest.clone();
    empty.files.clear();
    assert_eq!(
        validate_manifest_header(&empty, &contract, "2.0.7").unwrap_err().message(),
        "发布清单文件数量无效。"
    );

    let mut too_many = manifest.clone();
    too_many.files = (0..5).map(|i| file(&format!("f{i}"), 1, &"d".repeat(64))).collect();
    assert_eq!(
        validate_manifest_header(&too_many, &contract, "2.0.7").unwrap_err().message(),
        "发布清单文件数量无效。"
    );

    let mut wrong_product = manifest.clone();
    wrong_product.product = "Other".to_owned();
    assert_eq!(
        validate_manifest_header(&wrong_product, &contract, "2.0.7").unwrap_err().message(),
        "发布清单的版本、产品或哈希算法不匹配。"
    );

    let mut short_digest = manifest.clone();
    short_digest.files[0].sha256 = "a".repeat(63);
    assert_eq!(
        validate_manifest_header(&short_digest, &contract, "2.0.7").unwrap_err().message(),
        "发布清单中的 SHA-256 格式无效。"
    );
}

#[test]
fn contract_outside_the_supported_range_is_refused() {
    assert!(validate_contract(contract()).is_ok());
    let mut c = contract();
    c.schema_version = 2;
    assert_eq!(validate_contract(c).unwrap_err().message(), "发布清单合同字段超出支持范围");
    let mut c = contract();
    c.signature_file_name = c.manifest_file_name.clone();
    assert!(validate_contract(c).is_err());
    let mut c = contract();
    c.manifest_file_name = "dir/release.json".to_owned();
    assert!(validate_contract(c).is_err());
    let mut c = contract();
    c.max_file_entries = 0;
    assert!(validate_contract(c).is_err());
}

#[test]
fn control_files_decide_between_legacy_and_signed_packages() {
    assert_eq!(
        control_files_outcome(ControlFileState::Missing, ControlFileState::Missing, SignatureRequirement::Optional).unwrap(),
        Some(VerifiedReleaseManifest::Legacy)
    );
    assert_eq!(
        control_files_outcome(ControlFileState::Missing, ControlFileState::Missing, SignatureRequirement::Required).unwrap_err().code(),
        "update_manifest_missing"
    );
    assert_eq!(
        control_files_outcome(ControlFileState::Missing, ControlFileState::Present, SignatureRequirement::Optional).unwrap_err().code(),
        "update_manifest_missing"
    );
    assert_eq!(
        control_files_outcome(ControlFileState::Present, ControlFileState::Missing, SignatureRequirement::Optional).unwrap_err().code(),
        "update_manifest_signature_missing"
    );
    assert_eq!(control_files_outcome(ControlFileState::Present, ControlFileState::Present, SignatureRequirement::Required).unwrap(), None);
}

#[test]
fn control_file_must_be_a_regular_file() {
    assert_eq!(control_file_state(ControlFileProbe::NotFound).unwrap(), ControlFileState::Missing);
    assert_eq!(
        control_file_state(ControlFileProbe::Entry { is_symlink: false, is_file: true }).unwrap(),
        ControlFileState::Present
    );
    assert_eq!(
        control_file_state(ControlFileProbe::Entry { is_symlink: true, is_file: true })
            .unwrap_err()
            .message(),
        "发布清单控制文件无效。"
    );
    assert_eq!(
        control_file_state(ControlFileProbe::Unreadable).unwrap_err().message(),
        "读取发布清单控制文件失败。"
    );
    assert!(ensure_control_file_size(10, 10, "读取发布清单失败").is_ok());
    assert_eq!(
        ensure_control_file_size(11, 10, "读取发布清单失败").unwrap_err().message(),
        "读取发布清单失败：文件超过大小上限。"
    );
}

fn actual(path: &str, size: u64, sha: &str) -> ActualFile {
    ActualFile { path: path.to_owned(), size, sha256: sha.to_owned() }
}

#[test]
fn reconciliation_matches_declared_and_found_files() {
    let declared = vec![file("VERSION", 5, "aa"), file("bin/app.exe", 9, "bb")];
    let found = vec![actual("bin/app.exe", 9, "bb"), actual("VERSION", 5, "aa")];
    assert!(reconcile_manifest_files(&declared, &found).is_ok());

    let missing = vec![actual("VERSION", 5, "aa")];
    assert_eq!(
        reconcile_manifest_files(&declared, &missing).unwrap_err().code(),
        "update_manifest_file_missing"
    );

    let wrong_size = vec![actual("bin/app.exe", 8, "bb"), actual("VERSION", 5, "aa")];
    assert_eq!(
        reconcile_manifest_files(&declared, &wrong_size).unwrap_err().message(),
        "更新包文件大小与发布清单不一致，已拒绝安装。"
    );

    let wrong_hash = vec![actual("bin/app.exe", 9, "bc"), actual("VERSION", 5, "aa")];
    assert_eq!(
        reconcile_manifest_files(&declared, &wrong_hash).unwrap_err().message(),
        "更新包文件校验值与发布清单不一致，已拒绝安装。"
    );

    let extra = vec![
        actual("zzz.txt", 1, "cc"),
        actual("bin/app.exe", 9, "bb"),
        actual("VERSION", 5, "aa"),
        actual("extra.dll", 1, "dd"),
    ];
    let error = reconcile_manifest_files(&declared, &extra).unwrap_err();
    assert_eq!(error.code(), "update_manifest_file_extra");
    assert_eq!(error.message(), "更新包包含发布清单未声明的文件：extra.dll。");
}

#[test]
fn found_files_use_forward_slashes_and_skip_control_files() {
    let c = contract();
    let found = vec![
        actual("bin\\app.exe", 9, "bb"),
        actual("release-files.json", 100, "xx"),
        actual("release-files.json.p7s", 50, "yy"),
        actual("VERSION", 5, "aa"),
    ];
    let counted = counted_release_files(&found, &c).unwrap();
    assert_eq!(counted.len(), 2);
    assert_eq!(counted[0].path, "bin/app.exe");
    assert_eq!(counted[1].path, "VERSION");

    let many: Vec<ActualFile> = (0..5).map(|i| actual(&format!("f{i}"), 1, "aa")).collect();
    assert_eq!(
        counted_release_files(&many, &c).unwrap_err().message(),
        "更新包文件数量超过发布清单上限。"
    );
}
