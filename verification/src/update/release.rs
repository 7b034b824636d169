//! Release discovery: version numbers, GitHub release selection and download addresses.
use std::cmp::Ordering;
use vstd::prelude::*;
use vstd::utf8::encode_utf8;

use super::error::{ErrorView, UpdateError, err_view};
use crate::text::{
    is_digit, join, lemma_join_split, lemma_split_single, lemma_trim_digit_edges,
    all_digits, char_from_ascii, chars_eq_ignore_case, chars_of, concat, concat3, debug_str,
    eq_ignore_case, find_chars, find_from, occurs_at, hex_upper_char, push_char, str_eq, debug_text, digits_value, first_piece, parse_uint_vec,
    slice_of, split, split_vec, string_of_all, trim, trim_str, trimmed, vec_all_digits,
};

verus! {

/// The update source is the mirror repository; `AGENT_NOTIFY_UPDATE_REPOSITORY` overrides it.
pub const DEFAULT_REPOSITORY: &'static str = "srafyhucl-cpu/agent-notify-releases";

pub const REPOSITORY_ENV: &'static str = "AGENT_NOTIFY_UPDATE_REPOSITORY";

pub const DEFAULT_API_BASE_URL: &'static str = "https://api.github.com";

pub const API_BASE_ENV: &'static str = "AGENT_NOTIFY_UPDATE_API_BASE";

pub const DEFAULT_WEB_BASE_URL: &'static str = "https://github.com";

pub const CHECKSUM_ASSET_NAME: &'static str = "SHA256SUMS.txt";

/// The kinds of release artifact that can be installed.
#[derive(Clone, Copy, Debug, Eq, PartialEq, Structural)]
pub enum ArtifactKind {
    /// The installer, preferred when present.
    Installer,
    /// The portable ZIP, used when the installer is missing or fails to start.
    Archive,
}

impl ArtifactKind {
    pub open spec fn spec_name(self) -> Seq<char> {
        match self {
            ArtifactKind::Installer => "installer"@,
            ArtifactKind::Archive => "archive"@,
        }
    }

    pub fn as_str(self) -> (r: &'static str)
        ensures
            r@ == self.spec_name(),
    {
        match self {
            ArtifactKind::Installer => "installer",
            ArtifactKind::Archive => "archive",
        }
    }
}

/// An installable release.
#[derive(Clone, Debug, Eq, PartialEq)]
pub struct ReleaseInfo {
    pub version: String,
    pub tag_name: String,
    pub notes: String,
    pub artifact_kind: ArtifactKind,
    pub artifact_url: String,
    pub checksum_url: String,
    /// The ZIP address present beside a chosen installer, used when the installer fails.
    pub archive_url: Option<String>,
}

impl ReleaseInfo {
    /// A copy with the same content.
    pub fn duplicate(&self) -> (r: ReleaseInfo)
        ensures
            r@ == self@,
    {
        let archive_url = match &self.archive_url {
            Some(u) => Some(u.clone()),
            None => None,
        };
        ReleaseInfo {
            version: self.version.clone(),
            tag_name: self.tag_name.clone(),
            notes: self.notes.clone(),
            artifact_kind: self.artifact_kind,
            artifact_url: self.artifact_url.clone(),
            checksum_url: self.checksum_url.clone(),
            archive_url,
        }
    }
}

/// The observable content of a `ReleaseInfo`.
pub struct ReleaseView {
    pub version: Seq<char>,
    pub tag_name: Seq<char>,
    pub notes: Seq<char>,
    pub artifact_kind: ArtifactKind,
    pub artifact_url: Seq<char>,
    pub checksum_url: Seq<char>,
    pub archive_url: Option<Seq<char>>,
}

pub open spec fn opt_view(o: Option<String>) -> Option<Seq<char>> {
    match o {
        Some(s) => Some(s@),
        None => None,
    }
}

impl View for ReleaseInfo {
    type V = ReleaseView;

    open spec fn view(&self) -> ReleaseView {
        ReleaseView {
            version: self.version@,
            tag_name: self.tag_name@,
            notes: self.notes@,
            artifact_kind: self.artifact_kind,
            artifact_url: self.artifact_url@,
            checksum_url: self.checksum_url@,
            archive_url: opt_view(self.archive_url),
        }
    }
}

/// One asset of a GitHub release, as the release JSON gives it.
#[derive(Clone, Debug)]
pub struct GithubAsset {
    pub name: String,
    pub url: String,
    pub browser_download_url: String,
}

/// A GitHub release, as the release JSON gives it (absent fields read as empty).
#[derive(Clone, Debug)]
pub struct GithubRelease {
    pub tag_name: String,
    pub body: String,
    pub draft: bool,
    pub prerelease: bool,
    pub assets: Vec<GithubAsset>,
}

// ---------------------------------------------------------------- versions
/// The text with one leading `v` removed.
pub open spec fn strip_v(t: Seq<char>) -> Seq<char> {
    if t.len() > 0 && t[0] == 'v' {
        t.drop_first()
    } else {
        t
    }
}

/// The trimmed text without a leading `v` and without any `-`/`+` suffix.
pub open spec fn version_core(s: Seq<char>) -> Seq<char> {
    first_piece(strip_v(trim(s)), seq!['-', '+'])
}

/// A version component: ASCII digits whose value fits in a `u64`.
pub open spec fn valid_part(p: Seq<char>) -> bool {
    p.len() > 0 && all_digits(p) && digits_value(p) <= u64::MAX
}

/// `normalize_version`: three dot-separated numeric components, after trimming,
/// dropping a leading `v` and cutting any `-`/`+` suffix.
pub open spec fn normalized_version(s: Seq<char>) -> Option<Seq<char>> {
    let w = version_core(s);
    let parts = split(w, seq!['.']);
    if w.len() > 0 && parts.len() == 3 && valid_part(parts[0]) && valid_part(parts[1])
        && valid_part(parts[2]) {
        Some(w)
    } else {
        None
    }
}

/// The numeric components of a version, when it normalizes.
pub open spec fn version_triple(s: Seq<char>) -> Option<(nat, nat, nat)> {
    match normalized_version(s) {
        Some(w) => {
            let p = split(w, seq!['.']);
            Some((digits_value(p[0]), digits_value(p[1]), digits_value(p[2])))
        },
        None => None,
    }
}

/// Lexicographic order of version components.
pub open spec fn triple_order(a: (nat, nat, nat), b: (nat, nat, nat)) -> Ordering {
    if a.0 < b.0 {
        Ordering::Less
    } else if a.0 > b.0 {
        Ordering::Greater
    } else if a.1 < b.1 {
        Ordering::Less
    } else if a.1 > b.1 {
        Ordering::Greater
    } else if a.2 < b.2 {
        Ordering::Less
    } else if a.2 > b.2 {
        Ordering::Greater
    } else {
        Ordering::Equal
    }
}

pub open spec fn not_comparable_view(candidate: Seq<char>, current: Seq<char>) -> ErrorView {
    err_view(
        "update_version_not_comparable"@,
        "版本号无法比较：latest="@ + debug_text(candidate) + " current="@ + debug_text(current),
    )
}

/// The outcome of `compare_versions`.
pub open spec fn version_order(candidate: Seq<char>, current: Seq<char>) -> Result<
    Ordering,
    ErrorView,
> {
    match (version_triple(candidate), version_triple(current)) {
        (Some(a), Some(b)) => Ok(triple_order(a, b)),
        _ => Err(not_comparable_view(candidate, current)),
    }
}

/// The outcome of `is_newer_version`.
pub open spec fn newer_version(candidate: Seq<char>, current: Seq<char>) -> Result<
    bool,
    ErrorView,
> {
    match version_order(candidate, current) {
        Ok(Ordering::Greater) => Ok(true),
        Ok(_) => Ok(false),
        Err(e) => Err(e),
    }
}

/// Comparing versions that normalize is a total order: a version equals itself,
/// swapping the two reverses the result, `Greater` is transitive, and a newer version is
/// never also older.
pub proof fn lemma_version_order_laws(a: Seq<char>, b: Seq<char>, c: Seq<char>)
    requires
        version_triple(a) is Some,
        version_triple(b) is Some,
        version_triple(c) is Some,
    ensures
        version_order(a, a) == Ok::<Ordering, ErrorView>(Ordering::Equal),
        (version_order(a, b) == Ok::<Ordering, ErrorView>(Ordering::Greater)) == (version_order(b, a)
            == Ok::<Ordering, ErrorView>(Ordering::Less)),
        (version_order(a, b) == Ok::<Ordering, ErrorView>(Ordering::Equal)) == (version_order(b, a)
            == Ok::<Ordering, ErrorView>(Ordering::Equal)),
        version_order(a, b) == Ok::<Ordering, ErrorView>(Ordering::Greater) && version_order(b, c)
            == Ok::<Ordering, ErrorView>(Ordering::Greater) ==> version_order(a, c) == Ok::<
            Ordering,
            ErrorView,
        >(Ordering::Greater),
        newer_version(a, b) == Ok::<bool, ErrorView>(true) ==> newer_version(b, a) == Ok::<
            bool,
            ErrorView,
        >(false),
{
}

/// Versions are compared component by component from the major one: the first component
/// that differs decides (the larger one is newer), and versions with equal components are
/// equal. So a larger major version is newer whatever the minor and patch components are.
pub proof fn lemma_version_order_by_components(a: Seq<char>, b: Seq<char>)
    requires
        version_triple(a) is Some,
        version_triple(b) is Some,
    ensures
        ({
            let x = version_triple(a)->0;
            let y = version_triple(b)->0;
            &&& x.0 > y.0 ==> version_order(a, b) == Ok::<Ordering, ErrorView>(Ordering::Greater)
            &&& x.0 < y.0 ==> version_order(a, b) == Ok::<Ordering, ErrorView>(Ordering::Less)
            &&& x.0 == y.0 && x.1 > y.1 ==> version_order(a, b) == Ok::<Ordering, ErrorView>(Ordering::Greater)
            &&& x.0 == y.0 && x.1 < y.1 ==> version_order(a, b) == Ok::<Ordering, ErrorView>(Ordering::Less)
            &&& x.0 == y.0 && x.1 == y.1 && x.2 > y.2 ==> version_order(a, b) == Ok::<Ordering, ErrorView>(
                Ordering::Greater,
            )
            &&& x.0 == y.0 && x.1 == y.1 && x.2 < y.2 ==> version_order(a, b) == Ok::<Ordering, ErrorView>(
                Ordering::Less,
            )
            &&& x == y ==> version_order(a, b) == Ok::<Ordering, ErrorView>(Ordering::Equal)
            &&& (newer_version(a, b) == Ok::<bool, ErrorView>(true)) == (x.0 > y.0 || (x.0 == y.0 && x.1 > y.1) || (
            x.0 == y.0 && x.1 == y.1 && x.2 > y.2))
        }),
{
}

/// Versions that do not normalize cannot be compared.
pub proof fn lemma_unnormalized_not_comparable(a: Seq<char>, b: Seq<char>)
    requires
        version_triple(a) is None || version_triple(b) is None,
    ensures
        version_order(a, b) is Err,
        newer_version(a, b) is Err,
{
}

/// A normalized version normalizes to itself.
pub proof fn lemma_normalize_version_idempotent(s: Seq<char>)
    requires
        normalized_version(s) is Some,
    ensures
        normalized_version(normalized_version(s)->0) == normalized_version(s),
{
    let w = normalized_version(s)->0;
    let parts = split(w, seq!['.']);
    lemma_join_split(w, '.');
    assert(parts.len() == 3);
    assert(join(parts, '.') == join(parts.drop_last(), '.').push('.') + parts[2]);
    let pd = parts.drop_last();
    assert(pd.len() == 2);
    assert(pd.drop_last() =~= seq![parts[0]]);
    assert(join(seq![parts[0]], '.') == parts[0]);
    assert(pd.last() == parts[1]);
    assert(join(pd, '.') == join(pd.drop_last(), '.').push('.') + pd.last());
    assert(join(parts.drop_last(), '.') == parts[0].push('.') + parts[1]);
    assert(w == parts[0].push('.') + parts[1].push('.') + parts[2]);
    assert(is_digit(parts[0][0]));
    assert(w[0] == parts[0][0]);
    assert(is_digit(parts[2][parts[2].len() - 1]));
    assert(w.last() == parts[2].last());
    lemma_trim_digit_edges(w);
    assert(strip_v(w) == w);
    let seps = seq!['-', '+'];
    let core = strip_v(trim(s));
    crate::winpath::lemma_split_pieces_no_sep(core, seps);
    lemma_split_nonempty(core, seps);
    assert(w == split(core, seps)[0]);
    assert forall|i: int| 0 <= i < w.len() implies !seps.contains(#[trigger] w[i]) by {
        assert(w[i] == split(core, seps)[0][i]);
    }
    lemma_split_single(w, seps);
    assert(version_core(w) == w);
}

pub proof fn lemma_split_nonempty(s: Seq<char>, seps: Seq<char>)
    ensures
        split(s, seps).len() >= 1,
    decreases s.len(),
{
    if s.len() > 0 {
        lemma_split_nonempty(s.drop_last(), seps);
    }
}

fn valid_part_exec(p: &Vec<char>) -> (r: bool)
    ensures
        r == valid_part(p@),
{
    if p.len() == 0 || !vec_all_digits(p) {
        return false;
    }
    let parsed = parse_uint_vec(p, u64::MAX);
    parsed.is_some()
}

/// The version core of `value` and its dot-separated pieces.
fn version_pieces(value: &str) -> (r: (Vec<char>, Vec<Vec<char>>))
    ensures
        r.0@ == version_core(value@),
        r.1@.len() == split(version_core(value@), seq!['.']).len(),
        forall|k: int|
            0 <= k < r.1@.len() ==> (#[trigger] r.1@[k])@ == split(
                version_core(value@),
                seq!['.'],
            )[k],
{
    let v = chars_of(value);
    let t = trimmed(&v);
    let u = if t.len() > 0 && t[0] == 'v' {
        slice_of(&t, 1, t.len())
    } else {
        t
    };
    proof {
        assert(u@ == strip_v(trim(v@)));
    }
    let seps = vec!['-', '+'];
    proof {
        assert(seps@ == seq!['-', '+']);
    }
    let mut pieces = split_vec(&u, &seps);
    proof {
        lemma_split_nonempty(u@, seps@);
    }
    let w = pieces.swap_remove(0);
    let dots = vec!['.'];
    proof {
        assert(dots@ == seq!['.']);
    }
    let parts = split_vec(&w, &dots);
    (w, parts)
}

/// Version normalization: trim, drop a leading `v`, cut any `-`/`+` suffix, and
/// accept exactly three numeric components.
pub fn normalize_version(value: &str) -> (r: Option<String>)
    ensures
        match normalized_version(value@) {
            Some(w) => r is Some && r->0@ == w,
            None => r is None,
        },
{
    let (w, parts) = version_pieces(value);
    if w.len() == 0 || parts.len() != 3 {
        return None;
    }
    if !valid_part_exec(&parts[0]) || !valid_part_exec(&parts[1]) || !valid_part_exec(&parts[2]) {
        return None;
    }
    Some(string_of_all(&w))
}

/// The three numeric components of a version.
fn version_parts(value: &str) -> (r: Option<(u64, u64, u64)>)
    ensures
        match version_triple(value@) {
            Some(t) => r == Some((t.0 as u64, t.1 as u64, t.2 as u64)),
            None => r is None,
        },
{
    let (w, parts) = version_pieces(value);
    if w.len() == 0 || parts.len() != 3 {
        return None;
    }
    if !valid_part_exec(&parts[0]) || !valid_part_exec(&parts[1]) || !valid_part_exec(&parts[2]) {
        return None;
    }
    let a = parse_uint_vec(&parts[0], u64::MAX);
    let b = parse_uint_vec(&parts[1], u64::MAX);
    let c = parse_uint_vec(&parts[2], u64::MAX);
    match (a, b, c) {
        (Some(a), Some(b), Some(c)) => Some((a, b, c)),
        _ => None,
    }
}

fn not_comparable(candidate: &str, current: &str) -> (r: UpdateError)
    ensures
        r@ == not_comparable_view(candidate@, current@),
{
    let a = debug_str(candidate);
    let b = debug_str(current);
    let mut message = String::from_str("版本号无法比较：latest=");
    message.append(a.as_str());
    message.append(" current=");
    message.append(b.as_str());
    UpdateError::new("update_version_not_comparable", message)
}

pub open spec fn triple_nat(a: (u64, u64, u64)) -> (nat, nat, nat) {
    (a.0 as nat, a.1 as nat, a.2 as nat)
}

fn order_u64(a: (u64, u64, u64), b: (u64, u64, u64)) -> (r: Ordering)
    ensures
        r == triple_order(triple_nat(a), triple_nat(b)),
{
    if a.0 < b.0 {
        Ordering::Less
    } else if a.0 > b.0 {
        Ordering::Greater
    } else if a.1 < b.1 {
        Ordering::Less
    } else if a.1 > b.1 {
        Ordering::Greater
    } else if a.2 < b.2 {
        Ordering::Less
    } else if a.2 > b.2 {
        Ordering::Greater
    } else {
        Ordering::Equal
    }
}

/// Three-component version comparison; an error names both texts when either does not normalize.
pub fn compare_versions(candidate: &str, current: &str) -> (r: Result<Ordering, UpdateError>)
    ensures
        match version_order(candidate@, current@) {
            Ok(o) => r == Ok::<Ordering, UpdateError>(o),
            Err(e) => r is Err && r->Err_0@ == e,
        },
{
    let a = version_parts(candidate);
    let b = version_parts(current);
    match (a, b) {
        (Some(a), Some(b)) => Ok(order_u64(a, b)),
        _ => Err(not_comparable(candidate, current)),
    }
}

/// Whether `candidate` is strictly newer than `current`.
pub fn is_newer_version(candidate: &str, current: &str) -> (r: Result<bool, UpdateError>)
    ensures
        match newer_version(candidate@, current@) {
            Ok(b) => r == Ok::<bool, UpdateError>(b),
            Err(e) => r is Err && r->Err_0@ == e,
        },
{
    match compare_versions(candidate, current) {
        Ok(Ordering::Greater) => Ok(true),
        Ok(_) => Ok(false),
        Err(e) => Err(e),
    }
}


// ---------------------------------------------------------------- asset names
pub open spec fn installer_name(version: Seq<char>) -> Seq<char> {
    "Agent-notify-Setup-v"@ + version + ".exe"@
}

pub open spec fn archive_name(version: Seq<char>) -> Seq<char> {
    "Agent-notify-v"@ + version + ".zip"@
}

pub fn installer_asset_name(version: &str) -> (r: String)
    ensures
        r@ == installer_name(version@),
{
    concat3("Agent-notify-Setup-v", version, ".exe")
}

pub fn archive_asset_name(version: &str) -> (r: String)
    ensures
        r@ == archive_name(version@),
{
    concat3("Agent-notify-v", version, ".zip")
}

// ---------------------------------------------------------------- release selection
/// Whether an asset carries `name` (trimmed, ASCII case ignored).
pub open spec fn asset_named(a: GithubAsset, name: Seq<char>) -> bool {
    eq_ignore_case(trim(a.name@), name)
}

/// The index of the first asset named `name`.
pub open spec fn find_asset_index(assets: Seq<GithubAsset>, name: Seq<char>) -> Option<int>
    decreases assets.len(),
{
    if assets.len() == 0 {
        None
    } else {
        match find_asset_index(assets.drop_last(), name) {
            Some(i) => Some(i),
            None => if asset_named(assets.last(), name) {
                Some(assets.len() - 1)
            } else {
                None
            },
        }
    }
}

/// The download address of an asset: the API address first, then the browser address.
pub open spec fn asset_url(a: GithubAsset) -> Option<Seq<char>> {
    if trim(a.url@).len() > 0 {
        Some(trim(a.url@))
    } else if trim(a.browser_download_url@).len() > 0 {
        Some(trim(a.browser_download_url@))
    } else {
        None
    }
}

pub open spec fn or_empty(o: Option<Seq<char>>) -> Seq<char> {
    match o {
        Some(s) => s,
        None => Seq::<char>::empty(),
    }
}

pub proof fn lemma_find_asset_index_bounds(assets: Seq<GithubAsset>, name: Seq<char>)
    ensures
        match find_asset_index(assets, name) {
            Some(i) => 0 <= i < assets.len() && asset_named(assets[i], name) && forall|k: int|
                0 <= k < i ==> !asset_named(#[trigger] assets[k], name),
            None => forall|k: int| 0 <= k < assets.len() ==> !asset_named(#[trigger] assets[k], name),
        },
    decreases assets.len(),
{
    if assets.len() > 0 {
        lemma_find_asset_index_bounds(assets.drop_last(), name);
        assert forall|k: int| 0 <= k < assets.len() - 1 implies #[trigger] assets[k] == assets.drop_last()[k] by {
        }
    }
}

/// The index of the first asset named `name`.
fn find_asset(assets: &Vec<GithubAsset>, name: &str) -> (r: Option<usize>)
    ensures
        match find_asset_index(assets@, name@) {
            Some(i) => 0 <= i < assets@.len() && r is Some && r->0 as int == i,
            None => r is None,
        },
{
    proof {
        lemma_find_asset_index_bounds(assets@, name@);
    }
    let wanted = chars_of(name);
    let mut i: usize = 0;
    while i < assets.len()
        invariant
            i <= assets.len(),
            wanted@ == name@,
            find_asset_index(assets@.subrange(0, i as int), name@) is None,
        decreases assets.len() - i,
    {
        let ghost prefix = assets@.subrange(0, i + 1);
        proof {
            assert(prefix.drop_last() == assets@.subrange(0, i as int));
            assert(prefix.last() == assets@[i as int]);
        }
        let candidate = chars_of(assets[i].name.as_str());
        let trimmed_name = trimmed(&candidate);
        if chars_eq_ignore_case(&trimmed_name, &wanted) {
            proof {
                lemma_find_asset_prefix(assets@, name@, i as int);
            }
            return Some(i);
        }
        i = i + 1;
    }
    proof {
        assert(assets@.subrange(0, assets@.len() as int) == assets@);
    }
    None
}

proof fn lemma_find_asset_prefix(assets: Seq<GithubAsset>, name: Seq<char>, i: int)
    requires
        0 <= i < assets.len(),
        find_asset_index(assets.subrange(0, i), name) is None,
        asset_named(assets[i], name),
    ensures
        find_asset_index(assets, name) == Some(i),
    decreases assets.len(),
{
    if assets.len() == i + 1 {
        assert(assets.drop_last() == assets.subrange(0, i));
    } else {
        assert(assets.drop_last().subrange(0, i) == assets.subrange(0, i));
        lemma_find_asset_prefix(assets.drop_last(), name, i);
    }
}

/// The download address of an asset: the API address first, then the browser address.
fn asset_download_url(asset: &GithubAsset) -> (r: Option<String>)
    ensures
        opt_view(r) == asset_url(*asset),
{
    let url = trim_str(asset.url.as_str());
    if !url.as_str().is_empty() {
        return Some(url);
    }
    let browser = trim_str(asset.browser_download_url.as_str());
    if !browser.as_str().is_empty() {
        return Some(browser);
    }
    None
}

pub open spec fn unstable_view() -> ErrorView {
    err_view("update_release_unstable"@, "最新 Release 不是稳定版本"@)
}

pub open spec fn tag_invalid_view(tag: Seq<char>) -> ErrorView {
    err_view("update_release_tag_invalid"@, "Release 标签版本无效："@ + debug_text(tag))
}

pub open spec fn asset_missing_view(version: Seq<char>) -> ErrorView {
    err_view("update_asset_missing"@, "Release 缺少更新包："@ + archive_name(version))
}

pub open spec fn checksum_asset_missing_view() -> ErrorView {
    err_view("update_checksum_asset_missing"@, "Release 缺少校验文件："@ + "SHA256SUMS.txt"@)
}

pub open spec fn url_missing_view() -> ErrorView {
    err_view("update_download_url_missing"@, "Release 下载地址不完整"@)
}

/// The chosen artifact: its kind, the index of its asset, and the ZIP address kept beside an installer.
pub open spec fn chosen_artifact(assets: Seq<GithubAsset>, version: Seq<char>) -> Option<
    (ArtifactKind, int, Option<Seq<char>>),
> {
    match find_asset_index(assets, installer_name(version)) {
        Some(i) => Some(
            (
                ArtifactKind::Installer,
                i,
                match find_asset_index(assets, archive_name(version)) {
                    Some(j) => asset_url(assets[j]),
                    None => None,
                },
            ),
        ),
        None => match find_asset_index(assets, archive_name(version)) {
            Some(j) => Some((ArtifactKind::Archive, j, None)),
            None => None,
        },
    }
}

/// A newer stable release whose installer and checksum file are published (with
/// addresses) offers the installer: its address is the artifact's, the checksum file's is
/// the checksum address, and the ZIP of the same version, when published, is kept as the
/// fallback address.
pub proof fn lemma_installer_preferred(latest: GithubRelease, current: Seq<char>, v: Seq<char>, i: int, c: int)
    requires
        !latest.draft,
        !latest.prerelease,
        normalized_version(latest.tag_name@) == Some(v),
        newer_version(v, current) == Ok::<bool, ErrorView>(true),
        find_asset_index(latest.assets@, installer_name(v)) == Some(i),
        find_asset_index(latest.assets@, "SHA256SUMS.txt"@) == Some(c),
        asset_url(latest.assets@[i]) is Some,
        asset_url(latest.assets@[c]) is Some,
    ensures
        latest_release_outcome(latest, current) matches Ok(Some(view)) && {
            &&& view.version == v
            &&& view.artifact_kind == ArtifactKind::Installer
            &&& view.artifact_url == asset_url(latest.assets@[i])->0
            &&& view.checksum_url == asset_url(latest.assets@[c])->0
            &&& view.archive_url == match find_asset_index(latest.assets@, archive_name(v)) {
                Some(j) => asset_url(latest.assets@[j]),
                None => None,
            }
        },
{
    lemma_asset_url_nonempty(latest.assets@[i]);
    lemma_asset_url_nonempty(latest.assets@[c]);
}

/// Without an installer, a newer stable release whose ZIP and checksum file are published
/// (with addresses) offers the ZIP, with no further fallback.
pub proof fn lemma_archive_without_installer(latest: GithubRelease, current: Seq<char>, v: Seq<char>, j: int, c: int)
    requires
        !latest.draft,
        !latest.prerelease,
        normalized_version(latest.tag_name@) == Some(v),
        newer_version(v, current) == Ok::<bool, ErrorView>(true),
        find_asset_index(latest.assets@, installer_name(v)) is None,
        find_asset_index(latest.assets@, archive_name(v)) == Some(j),
        find_asset_index(latest.assets@, "SHA256SUMS.txt"@) == Some(c),
        asset_url(latest.assets@[j]) is Some,
        asset_url(latest.assets@[c]) is Some,
    ensures
        latest_release_outcome(latest, current) matches Ok(Some(view)) && {
            &&& view.version == v
            &&& view.artifact_kind == ArtifactKind::Archive
            &&& view.artifact_url == asset_url(latest.assets@[j])->0
            &&& view.checksum_url == asset_url(latest.assets@[c])->0
            &&& view.archive_url is None
        },
{
    lemma_asset_url_nonempty(latest.assets@[j]);
    lemma_asset_url_nonempty(latest.assets@[c]);
}

proof fn lemma_asset_url_nonempty(a: GithubAsset)
    ensures
        asset_url(a) matches Some(u) ==> u.len() > 0,
{
}

/// What a stable release newer than `current` offers, or why it cannot be used.
pub open spec fn release_selection(
    latest: GithubRelease,
    version: Seq<char>,
) -> Result<Option<ReleaseView>, ErrorView> {
    let assets = latest.assets@;
    match chosen_artifact(assets, version) {
        None => Err(asset_missing_view(version)),
        Some((kind, i, archive_url)) => match find_asset_index(assets, "SHA256SUMS.txt"@) {
            None => Err(checksum_asset_missing_view()),
            Some(c) => {
                let artifact_url = or_empty(asset_url(assets[i]));
                let checksum_url = or_empty(asset_url(assets[c]));
                if artifact_url.len() == 0 || checksum_url.len() == 0 {
                    Err(url_missing_view())
                } else {
                    Ok(
                        Some(
                            ReleaseView {
                                version,
                                tag_name: trim(latest.tag_name@),
                                notes: trim(latest.body@),
                                artifact_kind: kind,
                                artifact_url,
                                checksum_url,
                                archive_url,
                            },
                        ),
                    )
                }
            },
        },
    }
}

/// The outcome of reading the latest GitHub release against the running version.
pub open spec fn latest_release_outcome(latest: GithubRelease, current: Seq<char>) -> Result<
    Option<ReleaseView>,
    ErrorView,
> {
    if latest.draft || latest.prerelease {
        Err(unstable_view())
    } else {
        match normalized_version(latest.tag_name@) {
            None => Err(tag_invalid_view(latest.tag_name@)),
            Some(version) => match newer_version(version, current) {
                Err(e) => Err(e),
                Ok(false) => Ok(None),
                Ok(true) => release_selection(latest, version),
            },
        }
    }
}

pub open spec fn release_result_matches(
    r: Result<Option<ReleaseInfo>, UpdateError>,
    spec: Result<Option<ReleaseView>, ErrorView>,
) -> bool {
    match spec {
        Ok(None) => r matches Ok(None),
        Ok(Some(v)) => r matches Ok(Some(info)) && info@ == v,
        Err(e) => r matches Err(err) && err@ == e,
    }
}

fn url_or_empty(asset: &GithubAsset) -> (r: String)
    ensures
        r@ == or_empty(asset_url(*asset)),
{
    match asset_download_url(asset) {
        Some(u) => u,
        None => String::new(),
    }
}

/// Picks the artifact to install from a parsed GitHub release: drafts and pre-releases
/// are unstable, an invalid tag is an error, a release that is not newer gives `None`,
/// the installer is preferred over the ZIP, and the checksum file must be present.
pub fn release_from_latest(latest: &GithubRelease, current_version: &str) -> (r: Result<
    Option<ReleaseInfo>,
    UpdateError,
>)
    ensures
        release_result_matches(r, latest_release_outcome(*latest, current_version@)),
{
    if latest.draft || latest.prerelease {
        return Err(UpdateError::new("update_release_unstable", String::from_str("最新 Release 不是稳定版本")));
    }
    let version = match normalize_version(latest.tag_name.as_str()) {
        Some(v) => v,
        None => {
            let shown = debug_str(latest.tag_name.as_str());
            return Err(
                UpdateError::new("update_release_tag_invalid", concat("Release 标签版本无效：", shown.as_str())),
            );
        },
    };
    match is_newer_version(version.as_str(), current_version) {
        Err(e) => return Err(e),
        Ok(false) => return Ok(None),
        Ok(true) => {},
    }
    let installer_name_s = installer_asset_name(version.as_str());
    let archive_name_s = archive_asset_name(version.as_str());
    let installer = find_asset(&latest.assets, installer_name_s.as_str());
    let archive = find_asset(&latest.assets, archive_name_s.as_str());
    proof {
        lemma_find_asset_index_bounds(latest.assets@, installer_name_s@);
        lemma_find_asset_index_bounds(latest.assets@, archive_name_s@);
    }
    let (kind, index, archive_url): (ArtifactKind, usize, Option<String>) = match installer {
        Some(i) => {
            let archive_url = match archive {
                Some(j) => asset_download_url(&latest.assets[j]),
                None => None,
            };
            (ArtifactKind::Installer, i, archive_url)
        },
        None => match archive {
            Some(j) => (ArtifactKind::Archive, j, None),
            None => {
                return Err(
                    UpdateError::new("update_asset_missing", concat("Release 缺少更新包：", archive_name_s.as_str())),
                );
            },
        },
    };
    let checksums = find_asset(&latest.assets, "SHA256SUMS.txt");
    proof {
        lemma_find_asset_index_bounds(latest.assets@, "SHA256SUMS.txt"@);
    }
    let checksum_index = match checksums {
        Some(c) => c,
        None => {
            return Err(
                UpdateError::new("update_checksum_asset_missing", concat("Release 缺少校验文件：", "SHA256SUMS.txt")),
            );
        },
    };
    let artifact_url = url_or_empty(&latest.assets[index]);
    let checksum_url = url_or_empty(&latest.assets[checksum_index]);
    proof {
        assert(chosen_artifact(latest.assets@, version@) == Some(
            (kind, index as int, opt_view(archive_url)),
        ));
    }
    if artifact_url.as_str().is_empty() || checksum_url.as_str().is_empty() {
        return Err(UpdateError::new("update_download_url_missing", String::from_str("Release 下载地址不完整")));
    }
    Ok(
        Some(
            ReleaseInfo {
                version,
                tag_name: trim_str(latest.tag_name.as_str()),
                notes: trim_str(latest.body.as_str()),
                artifact_kind: kind,
                artifact_url,
                checksum_url,
                archive_url,
            },
        ),
    )
}


// ---------------------------------------------------------------- addresses
/// Characters kept as they are in a path segment.
pub open spec fn unreserved(b: u8) -> bool {
    (0x41 <= b <= 0x5a) || (0x61 <= b <= 0x7a) || (0x30 <= b <= 0x39) || b == 0x2d || b == 0x5f
        || b == 0x2e || b == 0x7e
}

/// One byte of a path segment: itself when unreserved, else `%` and two upper-case hex digits.
pub open spec fn escape_byte(b: u8) -> Seq<char> {
    if unreserved(b) {
        seq![(b as u32) as char]
    } else {
        seq!['%', hex_upper_char((b / 16) as nat), hex_upper_char((b % 16) as nat)]
    }
}

/// Percent-encoding of the UTF-8 bytes of a path segment.
pub open spec fn escape_bytes(bytes: Seq<u8>) -> Seq<char>
    decreases bytes.len(),
{
    if bytes.len() == 0 {
        Seq::<char>::empty()
    } else {
        escape_bytes(bytes.drop_last()) + escape_byte(bytes.last())
    }
}

pub open spec fn escaped_segment(value: Seq<char>) -> Seq<char> {
    escape_bytes(encode_utf8(value))
}

fn hex_digit_upper(d: u8) -> (c: char)
    requires
        d < 16,
    ensures
        c == hex_upper_char(d as nat),
{
    if d < 10 {
        char_from_ascii((d as u32) + 48)
    } else {
        char_from_ascii((d as u32) - 10 + 65)
    }
}

/// Percent-encodes a path segment byte by byte.
fn escape_path_segment(value: &str) -> (r: String)
    ensures
        r@ == escaped_segment(value@),
{
    let bytes = value.as_bytes();
    let mut escaped = String::new();
    let mut i: usize = 0;
    while i < bytes.len()
        invariant
            i <= bytes@.len(),
            bytes@ == encode_utf8(value@),
            escaped@ == escape_bytes(bytes@.subrange(0, i as int)),
        decreases bytes@.len() - i,
    {
        let b = bytes[i];
        let ghost prefix = bytes@.subrange(0, i + 1);
        proof {
            assert(prefix.drop_last() == bytes@.subrange(0, i as int));
            assert(prefix.last() == b);
        }
        if (0x41 <= b && b <= 0x5a) || (0x61 <= b && b <= 0x7a) || (0x30 <= b && b <= 0x39) || b
            == 0x2d || b == 0x5f || b == 0x2e || b == 0x7e {
            push_char(&mut escaped, char_from_ascii(b as u32));
        } else {
            push_char(&mut escaped, '%');
            push_char(&mut escaped, hex_digit_upper(b / 16));
            push_char(&mut escaped, hex_digit_upper(b % 16));
        }
        i = i + 1;
        proof {
            assert(escaped@ == escape_bytes(prefix));
        }
    }
    proof {
        assert(bytes@.subrange(0, bytes@.len() as int) == bytes@);
    }
    escaped
}

/// A repository of the form `owner/name`, both parts non-blank.
pub open spec fn valid_repository(repository: Seq<char>) -> bool {
    let parts = split(repository, seq!['/']);
    parts.len() == 2 && trim(parts[0]).len() > 0 && trim(parts[1]).len() > 0
}

pub open spec fn repository_invalid_view(repository: Seq<char>) -> ErrorView {
    err_view("update_repository_invalid"@, "GitHub 仓库格式无效："@ + debug_text(repository))
}

fn slash_parts(repository: &str) -> (r: Vec<Vec<char>>)
    ensures
        r@.len() == split(repository@, seq!['/']).len(),
        forall|k: int|
            0 <= k < r@.len() ==> (#[trigger] r@[k])@ == split(repository@, seq!['/'])[k],
{
    let v = chars_of(repository);
    let seps = vec!['/'];
    proof {
        assert(seps@ == seq!['/']);
    }
    split_vec(&v, &seps)
}

fn validate_repository(repository: &str) -> (r: Result<(), UpdateError>)
    ensures
        valid_repository(repository@) ==> r is Ok,
        !valid_repository(repository@) ==> r is Err && r->Err_0@ == repository_invalid_view(
            repository@,
        ),
{
    let parts = slash_parts(repository);
    if parts.len() != 2 || trimmed(&parts[0]).len() == 0 || trimmed(&parts[1]).len() == 0 {
        let shown = debug_str(repository);
        return Err(UpdateError::new("update_repository_invalid", concat("GitHub 仓库格式无效：", shown.as_str())));
    }
    Ok(())
}

/// `owner/name` with each part trimmed and percent-encoded.
pub open spec fn escaped_repository(repository: Seq<char>) -> Seq<char> {
    let parts = split(repository, seq!['/']);
    escaped_segment(trim(parts[0])) + "/"@ + escaped_segment(trim(parts[1]))
}

fn escape_repository(repository: &str) -> (r: String)
    requires
        split(repository@, seq!['/']).len() >= 2,
    ensures
        r@ == escaped_repository(repository@),
{
    let parts = slash_parts(repository);
    let owner = trimmed(&parts[0]);
    let name = trimmed(&parts[1]);
    let owner_s = string_of_all(&owner);
    let name_s = string_of_all(&name);
    let a = escape_path_segment(owner_s.as_str());
    let b = escape_path_segment(name_s.as_str());
    concat3(a.as_str(), "/", b.as_str())
}

/// The text with every trailing `/` removed (`trim_end_matches('/')`).
pub open spec fn trim_trailing_slashes(s: Seq<char>) -> Seq<char>
    decreases s.len(),
{
    if s.len() > 0 && s.last() == '/' {
        trim_trailing_slashes(s.drop_last())
    } else {
        s
    }
}

pub(crate) fn without_trailing_slashes(v: &Vec<char>) -> (r: Vec<char>)
    ensures
        r@ == trim_trailing_slashes(v@),
{
    let mut hi = v.len();
    proof {
        assert(v@.subrange(0, v@.len() as int) == v@);
    }
    while hi > 0 && v[hi - 1] == '/'
        invariant
            hi <= v.len(),
            trim_trailing_slashes(v@) == trim_trailing_slashes(v@.subrange(0, hi as int)),
        decreases hi,
    {
        proof {
            assert(v@.subrange(0, hi as int).drop_last() == v@.subrange(0, hi - 1));
        }
        hi = hi - 1;
    }
    proof {
        assert(v@.subrange(0, v@.len() as int) == v@);
    }
    slice_of(v, 0, hi)
}

/// The API base actually used: trimmed, without trailing slashes, and the default when blank.
pub open spec fn effective_api_base(api_base_url: Seq<char>) -> Seq<char> {
    let b = trim_trailing_slashes(trim(api_base_url));
    if b.len() == 0 {
        DEFAULT_API_BASE_URL@
    } else {
        b
    }
}

pub open spec fn version_unsupported_view(current: Seq<char>) -> ErrorView {
    err_view(
        "update_version_unsupported"@,
        "当前版本 "@ + debug_text(current) + " 不支持自动更新"@,
    )
}

/// The request for the latest release: the trimmed repository, the API base in use, and the URL.
pub struct LatestReleaseRequest {
    pub repository: String,
    pub api_base_url: String,
    pub request_url: String,
}

/// What `check_latest_release` asks for before any network traffic.
pub open spec fn latest_release_request_spec(
    repository: Seq<char>,
    api_base_url: Seq<char>,
    current: Seq<char>,
) -> Result<(Seq<char>, Seq<char>, Seq<char>), ErrorView> {
    if normalized_version(current) is None {
        Err(version_unsupported_view(current))
    } else if !valid_repository(trim(repository)) {
        Err(repository_invalid_view(trim(repository)))
    } else {
        let base = effective_api_base(api_base_url);
        Ok(
            (
                trim(repository),
                base,
                base + "/repos/"@ + escaped_repository(trim(repository)) + "/releases/latest"@,
            ),
        )
    }
}

/// Checks the running version and the repository, and builds the latest-release API address.
pub fn latest_release_request(repository: &str, api_base_url: &str, current_version: &str) -> (r:
    Result<LatestReleaseRequest, UpdateError>)
    ensures
        match latest_release_request_spec(repository@, api_base_url@, current_version@) {
            Ok((repo, base, url)) => r matches Ok(q) && q.repository@ == repo && q.api_base_url@
                == base && q.request_url@ == url,
            Err(e) => r matches Err(err) && err@ == e,
        },
{
    if normalize_version(current_version).is_none() {
        let shown = debug_str(current_version);
        return Err(
            UpdateError::new("update_version_unsupported", concat3("当前版本 ", shown.as_str(), " 不支持自动更新")),
        );
    }
    let repository = trim_str(repository);
    validate_repository(repository.as_str())?;
    let api_chars = chars_of(api_base_url);
    let api_trimmed = trimmed(&api_chars);
    let api_bare = without_trailing_slashes(&api_trimmed);
    let base = if api_bare.len() == 0 {
        String::from_str(DEFAULT_API_BASE_URL)
    } else {
        string_of_all(&api_bare)
    };
    let escaped = escape_repository(repository.as_str());
    let mut url = String::from_str(base.as_str());
    url.append("/repos/");
    url.append(escaped.as_str());
    url.append("/releases/latest");
    Ok(LatestReleaseRequest { repository, api_base_url: base, request_url: url })
}

/// The web base used when the API cannot be reached: a custom API base stays, GitHub's becomes github.com.
pub open spec fn web_base_for(api_base_url: Seq<char>) -> Seq<char> {
    if api_base_url != DEFAULT_API_BASE_URL@ {
        api_base_url
    } else {
        DEFAULT_WEB_BASE_URL@
    }
}

pub fn web_base_url(api_base_url: &str) -> (r: String)
    ensures
        r@ == web_base_for(api_base_url@),
{
    if str_eq(api_base_url, DEFAULT_API_BASE_URL) {
        String::from_str(DEFAULT_WEB_BASE_URL)
    } else {
        String::from_str(api_base_url)
    }
}

/// The address that redirects to the latest release page.
pub fn latest_release_page_url(web_base: &str, repository: &str) -> (r: String)
    requires
        valid_repository(repository@),
    ensures
        r@ == web_base@ + "/"@ + escaped_repository(repository@) + "/releases/latest"@,
{
    let escaped = escape_repository(repository);
    let mut url = String::from_str(web_base);
    url.append("/");
    url.append(escaped.as_str());
    url.append("/releases/latest");
    url
}

/// The error reported when neither the API nor the redirect gave a release.
pub fn check_failed_error(api_error: &UpdateError) -> (r: UpdateError)
    ensures
        r@ == err_view("update_check_failed"@, "检查更新失败："@ + api_error@.message),
{
    UpdateError::new("update_check_failed", concat("检查更新失败：", api_error.message()))
}

/// What the redirect fallback offers: only the ZIP, at addresses derived from the tag.
pub open spec fn redirect_release_outcome(
    web_base: Seq<char>,
    repository: Seq<char>,
    tag_name: Seq<char>,
    current: Seq<char>,
) -> Result<Option<ReleaseView>, ErrorView> {
    match normalized_version(tag_name) {
        None => Err(tag_invalid_view(tag_name)),
        Some(version) => match newer_version(version, current) {
            Err(e) => Err(e),
            Ok(false) => Ok(None),
            Ok(true) => {
                let base = web_base + "/"@ + escaped_repository(repository) + "/releases/download/"@
                    + escaped_segment(tag_name) + "/"@;
                Ok(
                    Some(
                        ReleaseView {
                            version,
                            tag_name,
                            notes: Seq::<char>::empty(),
                            artifact_kind: ArtifactKind::Archive,
                            artifact_url: base + escaped_segment(archive_name(version)),
                            checksum_url: base + escaped_segment("SHA256SUMS.txt"@),
                            archive_url: None,
                        },
                    ),
                )
            },
        },
    }
}

/// The release described by the tag that the latest-release page redirected to.
pub fn release_from_redirect(
    web_base: &str,
    repository: &str,
    tag_name: &str,
    current_version: &str,
) -> (r: Result<Option<ReleaseInfo>, UpdateError>)
    requires
        valid_repository(repository@),
    ensures
        release_result_matches(
            r,
            redirect_release_outcome(web_base@, repository@, tag_name@, current_version@),
        ),
{
    let version = match normalize_version(tag_name) {
        Some(v) => v,
        None => {
            let shown = debug_str(tag_name);
            return Err(
                UpdateError::new("update_release_tag_invalid", concat("Release 标签版本无效：", shown.as_str())),
            );
        },
    };
    match is_newer_version(version.as_str(), current_version) {
        Err(e) => return Err(e),
        Ok(false) => return Ok(None),
        Ok(true) => {},
    }
    let escaped_repo = escape_repository(repository);
    let escaped_tag = escape_path_segment(tag_name);
    let mut base = String::from_str(web_base);
    base.append("/");
    base.append(escaped_repo.as_str());
    base.append("/releases/download/");
    base.append(escaped_tag.as_str());
    base.append("/");
    let archive = archive_asset_name(version.as_str());
    let escaped_archive = escape_path_segment(archive.as_str());
    let escaped_checksum = escape_path_segment("SHA256SUMS.txt");
    let artifact_url = concat(base.as_str(), escaped_archive.as_str());
    let checksum_url = concat(base.as_str(), escaped_checksum.as_str());
    Ok(
        Some(
            ReleaseInfo {
                version,
                tag_name: String::from_str(tag_name),
                notes: String::new(),
                artifact_kind: ArtifactKind::Archive,
                artifact_url,
                checksum_url,
                archive_url: None,
            },
        ),
    )
}


// ---------------------------------------------------------------- release tag from a redirect
/// The path segments that `reqwest::Url` (the `url` crate) gives for `s`:
/// `None` when `Url::parse` rejects it, an empty list when the URL has no hierarchical path.
pub uninterp spec fn url_path_segments(s: Seq<char>) -> Option<Seq<Seq<char>>>;

/// Calls `reqwest::Url::parse` and, on success, `Url::path_segments`; the
/// percent-decoding and normalization rules of the `url` crate are not restated,
/// the result is named by `url_path_segments`.
#[verifier::external_body]
fn parsed_path_segments(final_url: &str) -> (r: Option<Vec<String>>)
    ensures
        match url_path_segments(final_url@) {
            Some(segs) => r is Some && r->0@.len() == segs.len() && forall|k: int|
                0 <= k < segs.len() ==> (#[trigger] r->0@[k])@ == segs[k],
            None => r is None,
        },
{
    let parsed = reqwest::Url::parse(final_url).ok()?;
    Some(parsed.path_segments().map(|segments| segments.map(str::to_owned).collect()).unwrap_or_default())
}

/// Whether `releases`, `tag`, and a non-blank tag start at segment `k`.
pub open spec fn tag_window(segs: Seq<Seq<char>>, k: int) -> bool {
    eq_ignore_case(segs[k], "releases"@) && eq_ignore_case(segs[k + 1], "tag"@) && trim(
        segs[k + 2],
    ).len() > 0
}

/// The first segment index from `k` that starts a tag window.
pub open spec fn first_tag_window(segs: Seq<Seq<char>>, k: int) -> Option<int>
    decreases segs.len() - k,
{
    if k < 0 || k + 3 > segs.len() {
        None
    } else if tag_window(segs, k) {
        Some(k)
    } else {
        first_tag_window(segs, k + 1)
    }
}

pub open spec fn release_url_invalid_view() -> ErrorView {
    err_view("update_release_url_invalid"@, "最新 Release 地址无法解析"@)
}

/// The tag named by the literal `/releases/tag/` in the address, when non-blank.
pub open spec fn literal_tag(url: Seq<char>) -> Option<Seq<char>> {
    match find_from(url, "/releases/tag/"@, 0) {
        Some(i) => {
            let rest = url.subrange(i + "/releases/tag/"@.len(), url.len() as int);
            let t = trim(first_piece(rest, seq!['/', '?', '#']));
            if t.len() > 0 {
                Some(t)
            } else {
                None
            }
        },
        None => None,
    }
}

/// The release tag in the address a latest-release page redirected to.
pub open spec fn release_tag_spec(url: Seq<char>) -> Result<Seq<char>, ErrorView> {
    match url_path_segments(url) {
        None => Err(release_url_invalid_view()),
        Some(segs) => match first_tag_window(segs, 0) {
            Some(k) => Ok(trim(segs[k + 2])),
            None => match literal_tag(url) {
                Some(t) => Ok(t),
                None => Err(release_url_invalid_view()),
            },
        },
    }
}

fn url_invalid() -> (r: UpdateError)
    ensures
        r@ == release_url_invalid_view(),
{
    UpdateError::new("update_release_url_invalid", String::from_str("最新 Release 地址无法解析"))
}

/// Reads the release tag from the final address of the latest-release redirect.
pub fn release_tag_from_url(final_url: &str) -> (r: Result<String, UpdateError>)
    ensures
        match release_tag_spec(final_url@) {
            Ok(t) => r matches Ok(s) && s@ == t,
            Err(e) => r matches Err(err) && err@ == e,
        },
{
    let segments = match parsed_path_segments(final_url) {
        Some(s) => s,
        None => return Err(url_invalid()),
    };
    let ghost segs = segments@.map_values(|x: String| x@);
    let mut k: usize = 0;
    while k < segments.len() && segments.len() - k >= 3
        invariant
            segs == segments@.map_values(|x: String| x@),
            url_path_segments(final_url@) == Some(segs),
            first_tag_window(segs, 0) == first_tag_window(segs, k as int),
        decreases segments.len() - k,
    {
        let a = chars_of(segments[k].as_str());
        let b = chars_of(segments[k + 1].as_str());
        let c = chars_of(segments[k + 2].as_str());
        let releases = chars_of("releases");
        let tag = chars_of("tag");
        if chars_eq_ignore_case(&a, &releases) && chars_eq_ignore_case(&b, &tag) {
            let t = trimmed(&c);
            if t.len() > 0 {
                proof {
                    assert(tag_window(segs, k as int));
                }
                return Ok(string_of_all(&t));
            }
        }
        k = k + 1;
    }
    proof {
        assert(first_tag_window(segs, 0) is None);
        assert(url_path_segments(final_url@) == Some(segs));
    }
    let url = chars_of(final_url);
    let marker = chars_of("/releases/tag/");
    match find_chars(&url, &marker) {
        Some(i) => {
            proof {
                assert(find_from(url@, marker@, 0) == Some(i as int));
                assert(occurs_at(url@, marker@, i as int));
            }
            let m = marker.len();
            let n = url.len();
            assert(i + m <= n);
            let rest = slice_of(&url, i + m, n);
            let seps = vec!['/', '?', '#'];
            proof {
                assert(seps@ == seq!['/', '?', '#']);
                lemma_split_nonempty(rest@, seps@);
            }
            let pieces = split_vec(&rest, &seps);
            let t = trimmed(&pieces[0]);
            if t.len() > 0 {
                return Ok(string_of_all(&t));
            }
            Err(url_invalid())
        },
        None => Err(url_invalid()),
    }
}

} // verus!
