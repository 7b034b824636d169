//! The signed release manifest of a ZIP update: its contract, its header and file list,
//! and how the files it declares are matched against the unpacked release.
use vstd::prelude::*;

use super::error::{ErrorView, UpdateError, err_view};
use super::verify::SignatureRequirement;
use crate::text::{
    all_hex, char_is_control, char_is_hex, chars_eq_ignore_case, chars_lt, chars_of,
    contains_char, eq_ignore_case, is_control, is_hex, is_upper, lemma_lex_order, lex_lt,
    replace_char, replace_char_vec, str_eq, string_of_all,
};
use crate::winpath::{is_safe_relative, safe_relative};

verus! {

/// Length of a SHA-256 digest in hex.
pub const SHA256_HEX_LENGTH: usize = 64;

/// The cross-language contract of the release manifest (names, algorithm and limits).
#[derive(Clone, Debug, Eq, PartialEq)]
pub struct ReleaseManifestContract {
    pub schema_version: u32,
    pub product: String,
    pub manifest_file_name: String,
    pub signature_file_name: String,
    pub hash_algorithm: String,
    pub max_manifest_bytes: u64,
    pub max_signature_bytes: u64,
    pub max_file_entries: usize,
}

/// One file that the manifest declares.
#[derive(Clone, Debug, Eq, PartialEq)]
pub struct ManifestFile {
    pub path: String,
    pub size: u64,
    pub sha256: String,
}

/// The release manifest as it was read.
#[derive(Clone, Debug, Eq, PartialEq)]
pub struct ReleaseManifest {
    pub schema_version: u32,
    pub product: String,
    pub version: String,
    pub hash_algorithm: String,
    pub files: Vec<ManifestFile>,
}

/// Outcome of the manifest check: `Legacy` only for a preview package without both control files.
#[derive(Clone, Debug, Eq, PartialEq)]
pub enum VerifiedReleaseManifest {
    Legacy,
    Signed { files: Vec<ManifestFile> },
}

/// Whether a control file (the manifest or its signature) exists.
#[derive(Clone, Copy, Debug, PartialEq, Eq, Structural)]
pub enum ControlFileState {
    Missing,
    Present,
}

/// What the file system said about a control file.
#[derive(Clone, Copy, Debug, PartialEq, Eq, Structural)]
pub enum ControlFileProbe {
    NotFound,
    Unreadable,
    Entry { is_symlink: bool, is_file: bool },
}

/// One file found in the unpacked release: its path below the release root, size and digest.
#[derive(Clone, Debug, Eq, PartialEq)]
pub struct ActualFile {
    pub path: String,
    pub size: u64,
    pub sha256: String,
}

pub open spec fn manifest_invalid(message: Seq<char>) -> ErrorView {
    err_view("update_manifest_invalid"@, message)
}

// ---------------------------------------------------------------- contract
pub open spec fn unsafe_control_name(name: Seq<char>) -> bool {
    name.len() == 0 || name.contains('/') || name.contains('\\')
}

/// The contract values this implementation supports.
pub open spec fn contract_supported(c: ReleaseManifestContract) -> bool {
    &&& c.schema_version == 1
    &&& c.product@.len() > 0
    &&& c.hash_algorithm@ == "sha256"@
    &&& c.max_manifest_bytes > 0
    &&& c.max_signature_bytes > 0
    &&& c.max_file_entries > 0
    &&& c.manifest_file_name@ != c.signature_file_name@
    &&& !unsafe_control_name(c.manifest_file_name@)
    &&& !unsafe_control_name(c.signature_file_name@)
}

pub open spec fn contract_unsupported_view() -> ErrorView {
    manifest_invalid("发布清单合同字段超出支持范围"@)
}

fn unsafe_name(name: &str) -> (b: bool)
    ensures
        b == unsafe_control_name(name@),
{
    let v = chars_of(name);
    v.len() == 0 || contains_char(&v, '/') || contains_char(&v, '\\')
}

/// Accepts the contract when every field is in the supported range.
pub fn validate_contract(contract: ReleaseManifestContract) -> (r: Result<
    ReleaseManifestContract,
    UpdateError,
>)
    ensures
        contract_supported(contract) ==> r == Ok::<ReleaseManifestContract, UpdateError>(contract),
        !contract_supported(contract) ==> (r matches Err(e) && e@ == contract_unsupported_view()),
{
    proof {
        reveal_strlit("sha256");
    }
    let supported = contract.schema_version == 1 && !contract.product.as_str().is_empty()
        && str_eq(contract.hash_algorithm.as_str(), "sha256") && contract.max_manifest_bytes > 0
        && contract.max_signature_bytes > 0 && contract.max_file_entries > 0 && !str_eq(
        contract.manifest_file_name.as_str(),
        contract.signature_file_name.as_str(),
    ) && !unsafe_name(contract.manifest_file_name.as_str()) && !unsafe_name(
        contract.signature_file_name.as_str(),
    );
    if supported {
        Ok(contract)
    } else {
        Err(UpdateError::new("update_manifest_invalid", String::from_str("发布清单合同字段超出支持范围")))
    }
}

// ---------------------------------------------------------------- control files
pub open spec fn manifest_missing_view() -> ErrorView {
    err_view("update_manifest_missing"@, "正式更新包缺少发布清单，已拒绝安装。"@)
}

pub open spec fn signature_missing_view() -> ErrorView {
    err_view("update_manifest_signature_missing"@, "发布清单缺少签名，已拒绝安装。"@)
}

pub open spec fn control_file_invalid_view() -> ErrorView {
    manifest_invalid("发布清单控制文件无效。"@)
}

pub open spec fn control_file_unreadable_view() -> ErrorView {
    manifest_invalid("读取发布清单控制文件失败。"@)
}

pub open spec fn control_file_state_spec(probe: ControlFileProbe) -> Result<ControlFileState, ErrorView> {
    match probe {
        ControlFileProbe::NotFound => Ok(ControlFileState::Missing),
        ControlFileProbe::Unreadable => Err(control_file_unreadable_view()),
        ControlFileProbe::Entry { is_symlink, is_file } => if is_symlink || !is_file {
            Err(control_file_invalid_view())
        } else {
            Ok(ControlFileState::Present)
        },
    }
}

/// A control file is present only as a regular file; a link or a directory is refused.
pub fn control_file_state(probe: ControlFileProbe) -> (r: Result<ControlFileState, UpdateError>)
    ensures
        match control_file_state_spec(probe) {
            Ok(s) => r == Ok::<ControlFileState, UpdateError>(s),
            Err(v) => r matches Err(e) && e@ == v,
        },
{
    match probe {
        ControlFileProbe::NotFound => Ok(ControlFileState::Missing),
        ControlFileProbe::Unreadable => Err(
            UpdateError::new("update_manifest_invalid", String::from_str("读取发布清单控制文件失败。")),
        ),
        ControlFileProbe::Entry { is_symlink, is_file } => {
            if is_symlink || !is_file {
                Err(UpdateError::new("update_manifest_invalid", String::from_str("发布清单控制文件无效。")))
            } else {
                Ok(ControlFileState::Present)
            }
        },
    }
}

/// What the presence of the two control files decides: `Some(Legacy)` ends the check,
/// `None` means the manifest must be read and verified.
pub open spec fn control_files_spec(
    manifest: ControlFileState,
    signature: ControlFileState,
    requirement: SignatureRequirement,
) -> Result<Option<VerifiedReleaseManifest>, ErrorView> {
    if manifest == ControlFileState::Missing && signature == ControlFileState::Missing {
        if requirement == SignatureRequirement::Optional {
            Ok(Some(VerifiedReleaseManifest::Legacy))
        } else {
            Err(manifest_missing_view())
        }
    } else if manifest == ControlFileState::Missing {
        Err(manifest_missing_view())
    } else if signature == ControlFileState::Missing {
        Err(signature_missing_view())
    } else {
        Ok(None)
    }
}

/// A package without manifest and signature is accepted as legacy only when the
/// signature is optional; one control file alone is always refused.
pub fn control_files_outcome(
    manifest: ControlFileState,
    signature: ControlFileState,
    requirement: SignatureRequirement,
) -> (r: Result<Option<VerifiedReleaseManifest>, UpdateError>)
    ensures
        match control_files_spec(manifest, signature, requirement) {
            Ok(o) => r == Ok::<Option<VerifiedReleaseManifest>, UpdateError>(o),
            Err(v) => r matches Err(e) && e@ == v,
        },
{
    if manifest == ControlFileState::Missing && signature == ControlFileState::Missing {
        if requirement == SignatureRequirement::Optional {
            return Ok(Some(VerifiedReleaseManifest::Legacy));
        }
        return Err(
            UpdateError::new("update_manifest_missing", String::from_str("正式更新包缺少发布清单，已拒绝安装。")),
        );
    }
    if manifest == ControlFileState::Missing {
        return Err(
            UpdateError::new("update_manifest_missing", String::from_str("正式更新包缺少发布清单，已拒绝安装。")),
        );
    }
    if signature == ControlFileState::Missing {
        return Err(
            UpdateError::new(
                "update_manifest_signature_missing",
                String::from_str("发布清单缺少签名，已拒绝安装。"),
            ),
        );
    }
    Ok(None)
}

pub open spec fn too_large_view(message: Seq<char>) -> ErrorView {
    manifest_invalid(message + "：文件超过大小上限。"@)
}

/// A control file larger than its limit is refused before it is read.
pub fn ensure_control_file_size(len: u64, limit: u64, message: &str) -> (r: Result<(), UpdateError>)
    ensures
        len <= limit ==> r is Ok,
        len > limit ==> (r matches Err(e) && e@ == too_large_view(message@)),
{
    if len > limit {
        let mut m = String::from_str(message);
        m.append("：文件超过大小上限。");
        return Err(UpdateError::new("update_manifest_invalid", m));
    }
    Ok(())
}

// ---------------------------------------------------------------- paths
/// A manifest path: non-empty, `/`-separated, without backslash, NUL, control
/// characters, empty pieces or a leading or trailing `/`, and made only of normal
/// components.
pub open spec fn manifest_path_ok(p: Seq<char>) -> bool {
    &&& p.len() > 0
    &&& !p.contains('\\')
    &&& !p.contains('\0')
    &&& p[0] != '/'
    &&& p.last() != '/'
    &&& forall|i: int| 0 <= i < p.len() - 1 ==> !(#[trigger] p[i] == '/' && p[i + 1] == '/')
    &&& forall|i: int| 0 <= i < p.len() ==> !is_control(#[trigger] p[i])
    &&& safe_relative(p)
}

pub open spec fn unsafe_manifest_path_view() -> ErrorView {
    manifest_invalid("发布清单包含不安全的文件路径。"@)
}

fn path_chars_ok(v: &Vec<char>) -> (b: bool)
    ensures
        b == ((forall|i: int| 0 <= i < v@.len() - 1 ==> !(#[trigger] v@[i] == '/' && v@[i + 1] == '/'))
            && (forall|i: int| 0 <= i < v@.len() ==> !is_control(#[trigger] v@[i]))),
{
    let mut i: usize = 0;
    while i < v.len()
        invariant
            i <= v.len(),
            forall|k: int| 0 <= k < i && k < v@.len() - 1 ==> !(#[trigger] v@[k] == '/' && v@[k + 1] == '/'),
            forall|k: int| 0 <= k < i ==> !is_control(#[trigger] v@[k]),
        decreases v.len() - i,
    {
        if char_is_control(v[i]) {
            return false;
        }
        if i + 1 < v.len() && v[i] == '/' && v[i + 1] == '/' {
            assert(v@[i as int] == '/' && v@[i as int + 1] == '/');
            return false;
        }
        i = i + 1;
    }
    true
}

/// Whether a manifest path is safe (see `manifest_path_ok`).
pub fn manifest_path_is_safe(value: &str) -> (b: bool)
    ensures
        b == manifest_path_ok(value@),
{
    let v = chars_of(value);
    if v.len() == 0 {
        return false;
    }
    if contains_char(&v, '\\') || contains_char(&v, '\0') || v[0] == '/' || v[v.len() - 1] == '/' {
        return false;
    }
    if !path_chars_ok(&v) {
        return false;
    }
    is_safe_relative(&v)
}

/// Refuses a manifest path that could leave the release directory or is ambiguous.
pub fn validate_manifest_path(value: &str) -> (r: Result<(), UpdateError>)
    ensures
        manifest_path_ok(value@) ==> r is Ok,
        !manifest_path_ok(value@) ==> (r matches Err(e) && e@ == unsafe_manifest_path_view()),
{
    if manifest_path_is_safe(value) {
        Ok(())
    } else {
        Err(UpdateError::new("update_manifest_invalid", String::from_str("发布清单包含不安全的文件路径。")))
    }
}

// ---------------------------------------------------------------- header
/// A lower-case SHA-256 hex digest.
pub open spec fn sha256_hex_ok(s: Seq<char>) -> bool {
    s.len() == 64 && forall|i: int| 0 <= i < s.len() ==> is_hex(#[trigger] s[i]) && !is_upper(s[i])
}

pub open spec fn header_mismatch_view() -> ErrorView {
    manifest_invalid("发布清单的版本、产品或哈希算法不匹配。"@)
}

pub open spec fn file_count_view() -> ErrorView {
    manifest_invalid("发布清单文件数量无效。"@)
}

pub open spec fn digest_format_view() -> ErrorView {
    manifest_invalid("发布清单中的 SHA-256 格式无效。"@)
}

pub open spec fn order_view() -> ErrorView {
    manifest_invalid("发布清单文件路径未按固定顺序排列或存在重复。"@)
}

pub open spec fn case_conflict_view() -> ErrorView {
    manifest_invalid("发布清单包含大小写冲突的文件路径。"@)
}

/// The problem of the `i`-th declared file, given the one before it.
pub open spec fn entry_error(files: Seq<ManifestFile>, i: int) -> Option<ErrorView> {
    let f = files[i];
    if !manifest_path_ok(f.path@) {
        Some(unsafe_manifest_path_view())
    } else if !sha256_hex_ok(f.sha256@) {
        Some(digest_format_view())
    } else if i > 0 && !lex_lt(files[i - 1].path@, f.path@) {
        Some(order_view())
    } else if i > 0 && eq_ignore_case(f.path@, files[i - 1].path@) {
        Some(case_conflict_view())
    } else {
        None
    }
}

/// The first problem among the declared files from position `i` on.
pub open spec fn first_entry_error(files: Seq<ManifestFile>, i: int) -> Option<ErrorView>
    decreases files.len() - i,
{
    if i < 0 || i >= files.len() {
        None
    } else {
        match entry_error(files, i) {
            Some(e) => Some(e),
            None => first_entry_error(files, i + 1),
        }
    }
}

/// The header check: product, version and algorithm, the number of files, then each
/// file in order.
pub open spec fn header_check(
    m: ReleaseManifest,
    c: ReleaseManifestContract,
    expected_version: Seq<char>,
) -> Result<(), ErrorView> {
    if m.schema_version != c.schema_version || m.product@ != c.product@ || m.version@
        != expected_version || m.hash_algorithm@ != c.hash_algorithm@ {
        Err(header_mismatch_view())
    } else if m.files@.len() == 0 || m.files@.len() > c.max_file_entries {
        Err(file_count_view())
    } else {
        match first_entry_error(m.files@, 0) {
            Some(e) => Err(e),
            None => Ok(()),
        }
    }
}

fn sha256_hex_is_ok(value: &str) -> (b: bool)
    ensures
        b == sha256_hex_ok(value@),
{
    let v = chars_of(value);
    if v.len() != SHA256_HEX_LENGTH {
        return false;
    }
    let mut i: usize = 0;
    while i < v.len()
        invariant
            i <= v.len(),
            v@ == value@,
            forall|k: int| 0 <= k < i ==> is_hex(#[trigger] v@[k]) && !is_upper(v@[k]),
        decreases v.len() - i,
    {
        if !char_is_hex(v[i]) || ('A' <= v[i] && v[i] <= 'Z') {
            assert(!(is_hex(value@[i as int]) && !is_upper(value@[i as int])));
            return false;
        }
        i = i + 1;
    }
    true
}

fn entry_check(files: &Vec<ManifestFile>, i: usize) -> (r: Result<(), UpdateError>)
    requires
        i < files.len(),
    ensures
        match entry_error(files@, i as int) {
            None => r is Ok,
            Some(v) => r matches Err(e) && e@ == v,
        },
{
    let f = &files[i];
    validate_manifest_path(f.path.as_str())?;
    if !sha256_hex_is_ok(f.sha256.as_str()) {
        return Err(UpdateError::new("update_manifest_invalid", String::from_str("发布清单中的 SHA-256 格式无效。")));
    }
    if i > 0 {
        let previous = chars_of(files[i - 1].path.as_str());
        let current = chars_of(f.path.as_str());
        if !chars_lt(&previous, &current) {
            return Err(
                UpdateError::new(
                    "update_manifest_invalid",
                    String::from_str("发布清单文件路径未按固定顺序排列或存在重复。"),
                ),
            );
        }
        if chars_eq_ignore_case(&current, &previous) {
            return Err(
                UpdateError::new("update_manifest_invalid", String::from_str("发布清单包含大小写冲突的文件路径。")),
            );
        }
    }
    Ok(())
}

/// Checks the manifest header against the contract and the expected version, then each
/// declared file: a safe path, a lower-case SHA-256, strictly increasing paths and no
/// two neighbours that differ only in ASCII case.
pub fn validate_manifest_header(
    manifest: &ReleaseManifest,
    contract: &ReleaseManifestContract,
    expected_version: &str,
) -> (r: Result<(), UpdateError>)
    ensures
        match header_check(*manifest, *contract, expected_version@) {
            Ok(()) => r is Ok,
            Err(v) => r matches Err(e) && e@ == v,
        },
{
    if manifest.schema_version != contract.schema_version || !str_eq(
        manifest.product.as_str(),
        contract.product.as_str(),
    ) || !str_eq(manifest.version.as_str(), expected_version) || !str_eq(
        manifest.hash_algorithm.as_str(),
        contract.hash_algorithm.as_str(),
    ) {
        return Err(
            UpdateError::new("update_manifest_invalid", String::from_str("发布清单的版本、产品或哈希算法不匹配。")),
        );
    }
    if manifest.files.len() == 0 || manifest.files.len() > contract.max_file_entries {
        return Err(UpdateError::new("update_manifest_invalid", String::from_str("发布清单文件数量无效。")));
    }
    let files = &manifest.files;
    let ghost outcome = match first_entry_error(files@, 0) {
        Some(e) => Err(e),
        None => Ok(()),
    };
    assert(header_check(*manifest, *contract, expected_version@) == outcome);
    let mut i: usize = 0;
    while i < files.len()
        invariant
            i <= files.len(),
            header_check(*manifest, *contract, expected_version@) == outcome,
            outcome == match first_entry_error(files@, 0) {
                Some(e) => Err(e),
                None => Ok::<(), ErrorView>(()),
            },
            first_entry_error(files@, 0) == first_entry_error(files@, i as int),
        decreases files.len() - i,
    {
        match entry_check(files, i) {
            Err(e) => {
                return Err(e);
            },
            Ok(()) => {},
        }
        i = i + 1;
    }
    assert(first_entry_error(files@, files@.len() as int) == None::<ErrorView>);
    Ok(())
}

// ---------------------------------------------------------------- files of the release
/// The observable content of a found file.
pub struct ActualFileView {
    pub path: Seq<char>,
    pub size: u64,
    pub sha256: Seq<char>,
}

pub open spec fn actual_view(f: ActualFile) -> ActualFileView {
    ActualFileView { path: f.path@, size: f.size, sha256: f.sha256@ }
}

pub open spec fn actual_views(files: Seq<ActualFile>) -> Seq<ActualFileView> {
    files.map_values(|f: ActualFile| actual_view(f))
}

/// The files that are matched against the manifest: paths written with `/`, the two
/// control files left out.
pub open spec fn counted_files(found: Seq<ActualFile>, c: ReleaseManifestContract) -> Seq<ActualFileView>
    decreases found.len(),
{
    if found.len() == 0 {
        Seq::<ActualFileView>::empty()
    } else {
        let rest = counted_files(found.drop_last(), c);
        let f = found.last();
        let rel = replace_char(f.path@, '\\', '/');
        if rel == c.manifest_file_name@ || rel == c.signature_file_name@ {
            rest
        } else {
            rest.push(ActualFileView { path: rel, size: f.size, sha256: f.sha256@ })
        }
    }
}

pub open spec fn too_many_files_view() -> ErrorView {
    err_view("update_manifest_file_extra"@, "更新包文件数量超过发布清单上限。"@)
}

/// The found files (paths below the release root as the platform writes them) that count
/// against the manifest; more than the contract allows is refused.
pub fn counted_release_files(found: &Vec<ActualFile>, contract: &ReleaseManifestContract) -> (r: Result<
    Vec<ActualFile>,
    UpdateError,
>)
    ensures
        counted_files(found@, *contract).len() > contract.max_file_entries ==> (r matches Err(e)
            && e@ == too_many_files_view()),
        counted_files(found@, *contract).len() <= contract.max_file_entries ==> (r matches Ok(v)
            && actual_views(v@) == counted_files(found@, *contract)),
{
    let mut out: Vec<ActualFile> = Vec::new();
    let mut i: usize = 0;
    while i < found.len()
        invariant
            i <= found.len(),
            actual_views(out@) == counted_files(found@.subrange(0, i as int), *contract),
        decreases found.len() - i,
    {
        let f = &found[i];
        let native = chars_of(f.path.as_str());
        let rel = replace_char_vec(&native, '\\', '/');
        let name = string_of_all(&rel);
        proof {
            assert(found@.subrange(0, i as int + 1).drop_last() == found@.subrange(0, i as int));
        }
        if !str_eq(name.as_str(), contract.manifest_file_name.as_str()) && !str_eq(
            name.as_str(),
            contract.signature_file_name.as_str(),
        ) {
            let ghost before = out@;
            let entry = ActualFile { path: name, size: f.size, sha256: f.sha256.clone() };
            out.push(entry);
            proof {
                assert(actual_views(out@) =~= actual_views(before).push(actual_view(entry)));
            }
        }
        i = i + 1;
    }
    proof {
        assert(found@.subrange(0, found@.len() as int) == found@);
    }
    if out.len() > contract.max_file_entries {
        return Err(UpdateError::new("update_manifest_file_extra", String::from_str("更新包文件数量超过发布清单上限。")));
    }
    Ok(out)
}

// ---------------------------------------------------------------- declared against found
/// The last found file with path `p` among the first `n` (a map built from the list keeps
/// the last one).
pub open spec fn last_with_path(actual: Seq<ActualFileView>, p: Seq<char>, n: int) -> Option<int>
    decreases n,
{
    if n <= 0 {
        None
    } else if actual[n - 1].path == p {
        Some(n - 1)
    } else {
        last_with_path(actual, p, n - 1)
    }
}

/// Whether one of the first `n` declared files has path `p`.
pub open spec fn declared_among(declared: Seq<ManifestFile>, p: Seq<char>, n: int) -> bool {
    exists|k: int| 0 <= k < n && #[trigger] declared[k].path@ == p
}

pub open spec fn file_missing_view() -> ErrorView {
    err_view("update_manifest_file_missing"@, "更新包缺少发布清单声明的文件，已拒绝安装。"@)
}

pub open spec fn size_mismatch_view() -> ErrorView {
    err_view("update_manifest_hash_mismatch"@, "更新包文件大小与发布清单不一致，已拒绝安装。"@)
}

pub open spec fn hash_mismatch_view() -> ErrorView {
    err_view("update_manifest_hash_mismatch"@, "更新包文件校验值与发布清单不一致，已拒绝安装。"@)
}

pub open spec fn extra_file_view(path: Seq<char>) -> ErrorView {
    err_view("update_manifest_file_extra"@, "更新包包含发布清单未声明的文件："@ + path + "。"@)
}

/// The check of the `i`-th declared file: it must be found (and not claimed by an earlier
/// entry), with the declared size and digest.
pub open spec fn declared_file_error(
    declared: Seq<ManifestFile>,
    actual: Seq<ActualFileView>,
    i: int,
) -> Option<ErrorView> {
    let d = declared[i];
    match last_with_path(actual, d.path@, actual.len() as int) {
        None => Some(file_missing_view()),
        Some(j) => if declared_among(declared, d.path@, i) {
            Some(file_missing_view())
        } else if actual[j].size != d.size {
            Some(size_mismatch_view())
        } else if actual[j].sha256 != d.sha256@ {
            Some(hash_mismatch_view())
        } else {
            None
        },
    }
}

pub open spec fn first_declared_error(
    declared: Seq<ManifestFile>,
    actual: Seq<ActualFileView>,
    i: int,
) -> Option<ErrorView>
    decreases declared.len() - i,
{
    if i < 0 || i >= declared.len() {
        None
    } else {
        match declared_file_error(declared, actual, i) {
            Some(e) => Some(e),
            None => first_declared_error(declared, actual, i + 1),
        }
    }
}

/// A found path that the manifest does not declare.
pub open spec fn is_extra(declared: Seq<ManifestFile>, actual: Seq<ActualFileView>, p: Seq<char>) -> bool {
    (exists|j: int| 0 <= j < actual.len() && #[trigger] actual[j].path == p) && !declared_among(
        declared,
        p,
        declared.len() as int,
    )
}

pub open spec fn has_extra(declared: Seq<ManifestFile>, actual: Seq<ActualFileView>) -> bool {
    exists|j: int| 0 <= j < actual.len() && is_extra(declared, actual, #[trigger] actual[j].path)
}

/// The smallest undeclared path (the one reported).
pub open spec fn least_extra(
    declared: Seq<ManifestFile>,
    actual: Seq<ActualFileView>,
    p: Seq<char>,
) -> bool {
    is_extra(declared, actual, p) && forall|j: int|
        0 <= j < actual.len() && is_extra(declared, actual, #[trigger] actual[j].path) ==> !lex_lt(
            actual[j].path,
            p,
        )
}

fn declared_contains(declared: &Vec<ManifestFile>, n: usize, p: &str) -> (b: bool)
    requires
        n <= declared.len(),
    ensures
        b == declared_among(declared@, p@, n as int),
{
    let mut k: usize = 0;
    while k < n
        invariant
            k <= n <= declared.len(),
            forall|q: int| 0 <= q < k ==> #[trigger] declared@[q].path@ != p@,
        decreases n - k,
    {
        if str_eq(declared[k].path.as_str(), p) {
            assert(declared@[k as int].path@ == p@);
            return true;
        }
        k = k + 1;
    }
    false
}

fn last_index_with_path(actual: &Vec<ActualFile>, p: &str) -> (r: Option<usize>)
    ensures
        match r {
            None => last_with_path(actual_views(actual@), p@, actual@.len() as int) is None,
            Some(j) => j < actual.len() && last_with_path(actual_views(actual@), p@, actual@.len() as int)
                == Some(j as int),
        },
{
    let ghost views = actual_views(actual@);
    let mut n: usize = actual.len();
    while n > 0
        invariant
            n <= actual.len(),
            views == actual_views(actual@),
            last_with_path(views, p@, actual@.len() as int) == last_with_path(views, p@, n as int),
        decreases n,
    {
        if str_eq(actual[n - 1].path.as_str(), p) {
            return Some(n - 1);
        }
        n = n - 1;
    }
    None
}

/// Whether a found file passes the check for the `i`-th declared file.
fn check_declared(declared: &Vec<ManifestFile>, actual: &Vec<ActualFile>, i: usize) -> (r: Result<
    (),
    UpdateError,
>)
    requires
        i < declared.len(),
    ensures
        match declared_file_error(declared@, actual_views(actual@), i as int) {
            None => r is Ok,
            Some(v) => r matches Err(e) && e@ == v,
        },
{
    let d = &declared[i];
    let missing = UpdateError::new(
        "update_manifest_file_missing",
        String::from_str("更新包缺少发布清单声明的文件，已拒绝安装。"),
    );
    match last_index_with_path(actual, d.path.as_str()) {
        None => Err(missing),
        Some(j) => {
            if declared_contains(declared, i, d.path.as_str()) {
                return Err(missing);
            }
            if actual[j].size != d.size {
                return Err(
                    UpdateError::new(
                        "update_manifest_hash_mismatch",
                        String::from_str("更新包文件大小与发布清单不一致，已拒绝安装。"),
                    ),
                );
            }
            if !str_eq(actual[j].sha256.as_str(), d.sha256.as_str()) {
                return Err(
                    UpdateError::new(
                        "update_manifest_hash_mismatch",
                        String::from_str("更新包文件校验值与发布清单不一致，已拒绝安装。"),
                    ),
                );
            }
            Ok(())
        },
    }
}

/// Matches the declared files against the files found in the release: each declared file
/// must be there with its size and digest, and no other file may be there; the error for
/// an undeclared file names the smallest such path.
pub fn reconcile_manifest_files(declared: &Vec<ManifestFile>, actual: &Vec<ActualFile>) -> (r: Result<
    (),
    UpdateError,
>)
    ensures
        match first_declared_error(declared@, actual_views(actual@), 0) {
            Some(v) => r matches Err(e) && e@ == v,
            None => if has_extra(declared@, actual_views(actual@)) {
                r matches Err(e) && exists|p: Seq<char>|
                    least_extra(declared@, actual_views(actual@), p) && e@ == extra_file_view(p)
            } else {
                r is Ok
            },
        },
{
    let ghost views = actual_views(actual@);
    let mut i: usize = 0;
    while i < declared.len()
        invariant
            i <= declared.len(),
            views == actual_views(actual@),
            first_declared_error(declared@, views, 0) == first_declared_error(declared@, views, i as int),
        decreases declared.len() - i,
    {
        match check_declared(declared, actual, i) {
            Err(e) => {
                return Err(e);
            },
            Ok(()) => {},
        }
        i = i + 1;
    }
    assert(first_declared_error(declared@, views, declared@.len() as int) == None::<ErrorView>);
    let mut best: Option<usize> = None;
    let mut j: usize = 0;
    while j < actual.len()
        invariant
            j <= actual.len(),
            views == actual_views(actual@),
            views.len() == actual@.len(),
            match best {
                None => forall|q: int| 0 <= q < j ==> !is_extra(declared@, views, #[trigger] views[q].path),
                Some(b) => b < j && is_extra(declared@, views, views[b as int].path) && forall|q: int|
                    0 <= q < j && is_extra(declared@, views, #[trigger] views[q].path) ==> !lex_lt(
                        views[q].path,
                        views[b as int].path,
                    ),
            },
        decreases actual.len() - j,
    {
        let path = actual[j].path.as_str();
        assert(views[j as int].path == path@);
        if !declared_contains(declared, declared.len(), path) {
            assert(is_extra(declared@, views, views[j as int].path));
            match best {
                None => {
                    proof {
                        lemma_lex_order(path@, path@, path@);
                    }
                    best = Some(j);
                },
                Some(b) => {
                    let current = chars_of(path);
                    let least = chars_of(actual[b].path.as_str());
                    if chars_lt(&current, &least) {
                        proof {
                            assert forall|q: int|
                                0 <= q < j + 1 && is_extra(
                                    declared@,
                                    views,
                                    #[trigger] views[q].path,
                                ) implies !lex_lt(views[q].path, views[j as int].path) by {
                                lemma_lex_order(views[q].path, views[j as int].path, views[b as int].path);
                            }
                        }
                        best = Some(j);
                    }
                },
            }
        } else {
            assert(!is_extra(declared@, views, views[j as int].path));
        }
        j = j + 1;
    }
    match best {
        None => {
            assert(!has_extra(declared@, views));
            Ok(())
        },
        Some(b) => {
            let p = actual[b].path.as_str();
            assert(least_extra(declared@, views, views[b as int].path));
            let mut message = String::from_str("更新包包含发布清单未声明的文件：");
            message.append(p);
            message.append("。");
            let e = UpdateError::new("update_manifest_file_extra", message);
            proof {
                reveal_strlit("更新包包含发布清单未声明的文件：");
                reveal_strlit("。");
                reveal_strlit("update_manifest_file_extra");
                assert(e@ == extra_file_view(views[b as int].path));
            }
            Err(e)
        },
    }
}

// ---------------------------------------------------------------- laws
proof fn lemma_no_entry_error(files: Seq<ManifestFile>, i: int, k: int)
    requires
        0 <= i <= k < files.len(),
        first_entry_error(files, i) is None,
    ensures
        entry_error(files, k) is None,
    decreases k - i,
{
    if i < k {
        lemma_no_entry_error(files, i + 1, k);
    }
}

proof fn lemma_increasing_from(files: Seq<ManifestFile>, i: int, j: int)
    requires
        0 <= i < j < files.len(),
        forall|k: int| 0 < k < files.len() ==> lex_lt(files[k - 1].path@, #[trigger] files[k].path@),
    ensures
        lex_lt(files[i].path@, files[j].path@),
    decreases j - i,
{
    if i + 1 < j {
        lemma_increasing_from(files, i + 1, j);
        assert(lex_lt(files[i].path@, files[i + 1].path@));
        lemma_lex_order(files[i].path@, files[i + 1].path@, files[j].path@);
    } else {
        assert(lex_lt(files[j - 1].path@, files[j].path@));
    }
}

/// An accepted manifest declares between one and the contract's limit of files, each
/// with a safe path and a lower-case SHA-256, in strictly increasing path order (so no
/// path twice).
pub proof fn lemma_accepted_manifest_is_ordered(
    m: ReleaseManifest,
    c: ReleaseManifestContract,
    expected_version: Seq<char>,
)
    requires
        header_check(m, c, expected_version) is Ok,
    ensures
        m.version@ == expected_version,
        0 < m.files@.len() <= c.max_file_entries,
        forall|i: int| 0 <= i < m.files@.len() ==> manifest_path_ok(#[trigger] m.files@[i].path@)
            && sha256_hex_ok(m.files@[i].sha256@),
        forall|i: int, j: int|
            0 <= i < j < m.files@.len() ==> lex_lt(#[trigger] m.files@[i].path@, #[trigger] m.files@[j].path@),
        forall|i: int, j: int|
            0 <= i < j < m.files@.len() ==> #[trigger] m.files@[i].path@ != #[trigger] m.files@[j].path@,
{
    let files = m.files@;
    assert forall|k: int| 0 <= k < files.len() implies entry_error(files, k) is None by {
        lemma_no_entry_error(files, 0, k);
    }
    assert forall|k: int| 0 < k < files.len() implies lex_lt(files[k - 1].path@, #[trigger] files[k].path@) by {
        assert(entry_error(files, k) is None);
    }
    assert forall|i: int| 0 <= i < files.len() implies manifest_path_ok(#[trigger] files[i].path@)
        && sha256_hex_ok(files[i].sha256@) by {
        assert(entry_error(files, i) is None);
    }
    assert forall|i: int, j: int| 0 <= i < j < files.len() implies lex_lt(
        #[trigger] files[i].path@,
        #[trigger] files[j].path@,
    ) && files[i].path@ != files[j].path@ by {
        lemma_increasing_from(files, i, j);
        lemma_lex_order(files[i].path@, files[j].path@, files[j].path@);
    }
}

proof fn lemma_no_declared_error(declared: Seq<ManifestFile>, actual: Seq<ActualFileView>, i: int, k: int)
    requires
        0 <= i <= k < declared.len(),
        first_declared_error(declared, actual, i) is None,
    ensures
        declared_file_error(declared, actual, k) is None,
    decreases k - i,
{
    if i < k {
        lemma_no_declared_error(declared, actual, i + 1, k);
    }
}

proof fn lemma_last_with_path_found(actual: Seq<ActualFileView>, p: Seq<char>, n: int)
    requires
        0 <= n <= actual.len(),
    ensures
        last_with_path(actual, p, n) matches Some(j) ==> 0 <= j < n && actual[j].path == p,
    decreases n,
{
    if n > 0 {
        lemma_last_with_path_found(actual, p, n - 1);
    }
}

/// A release that passes the reconciliation holds exactly the declared files: each one
/// is found with the declared size and digest, and every found file is declared.
pub proof fn lemma_reconciled_release_matches_manifest(
    declared: Seq<ManifestFile>,
    actual: Seq<ActualFileView>,
)
    requires
        first_declared_error(declared, actual, 0) is None,
        !has_extra(declared, actual),
    ensures
        forall|i: int|
            0 <= i < declared.len() ==> exists|j: int|
                0 <= j < actual.len() && #[trigger] actual[j].path == (#[trigger] declared[i]).path@
                    && actual[j].size == declared[i].size && actual[j].sha256 == declared[i].sha256@,
        forall|j: int|
            0 <= j < actual.len() ==> declared_among(declared, #[trigger] actual[j].path, declared.len() as int),
{
    assert forall|i: int| 0 <= i < declared.len() implies exists|j: int|
        0 <= j < actual.len() && #[trigger] actual[j].path == (#[trigger] declared[i]).path@
            && actual[j].size == declared[i].size && actual[j].sha256 == declared[i].sha256@ by {
        lemma_no_declared_error(declared, actual, 0, i);
        lemma_last_with_path_found(actual, declared[i].path@, actual.len() as int);
        let j = last_with_path(actual, declared[i].path@, actual.len() as int)->0;
        assert(actual[j].path == declared[i].path@);
    }
    assert forall|j: int| 0 <= j < actual.len() implies declared_among(
        declared,
        #[trigger] actual[j].path,
        declared.len() as int,
    ) by {
        if !declared_among(declared, actual[j].path, declared.len() as int) {
            assert(is_extra(declared, actual, actual[j].path));
        }
    }
}

/// A package is taken as a legacy package exactly when both control files are missing
/// and the signature is optional (the beta channel); the stable channel never takes one.
pub proof fn lemma_legacy_only_for_optional_without_control_files(
    manifest: ControlFileState,
    signature: ControlFileState,
    requirement: SignatureRequirement,
)
    ensures
        (control_files_spec(manifest, signature, requirement) == Ok::<
            Option<VerifiedReleaseManifest>,
            ErrorView,
        >(Some(VerifiedReleaseManifest::Legacy))) == (manifest == ControlFileState::Missing && signature
            == ControlFileState::Missing && requirement == SignatureRequirement::Optional),
        control_files_spec(manifest, signature, requirement) is Ok ==> (manifest == signature),
{
}

} // verus!
