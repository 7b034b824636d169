//! Installation rules: installer arguments and outcome, ZIP entry safety, extraction
//! budget, staged release checks and the mapping of release files into the install root.
use vstd::prelude::*;

use super::error::{ErrorView, UpdateError, err_view};
use super::manifest::{ManifestFile, VerifiedReleaseManifest};
use super::release::{normalize_version, normalized_version};
use super::staging::{
    ListedEntry, collect_release_files, has_special, listed_files, release_files_shown, special_file_view, texts,
};
use crate::text::{
    lower_char, is_upper, append_chars, chars_eq, chars_of, concat, debug_str, debug_text, decimal, decimal_string,
    eq_ignore_case, join, join_vec, lower, lower_vec, replace_char, replace_char_vec, slice_of,
    split, split_vec, starts_with, string_of_all, trim, trim_str, chars_eq_ignore_case,
};
use crate::winpath::{
    Component, ComponentList, clean_text, components, drive_prefix, has_drive_prefix, is_sep, needs_separator,
    join_chars, join_path, joined, lemma_component_texts, lemma_safe_relative_plain,
    path_components, safe_relative, text_of, is_safe_relative, list_matches, kind_of,
};

verus! {

/// Size limit of the unpacked update content.
pub const MAX_EXTRACTED_BYTES: u64 = 209715200;

/// Release root directory inside the ZIP.
pub const RELEASE_ROOT_NAME: &'static str = "Agent-notify";

/// Main program path relative to the release root.
pub const RELEASE_EXECUTABLE_PATH: &'static str = "bin/agentnotify-desktop.exe";

/// Version file path relative to the release root.
pub const RELEASE_VERSION_PATH: &'static str = "VERSION";

/// How long after its start an installer's exit counts as a failed start.
pub const INSTALLER_EARLY_EXIT_WINDOW_MILLIS: u64 = 2000;

/// The pause between two looks at a just-started installer.
pub const INSTALLER_EARLY_EXIT_POLL_MILLIS: u64 = 100;

/// How an installer is started.
#[derive(Clone, Debug, Eq, PartialEq)]
pub struct InstallerLaunchRequest {
    pub program: String,
    pub args: Vec<String>,
    pub working_dir: String,
}

/// What happened within the early-exit window after the installer started.
#[derive(Clone, Copy, Debug, Eq, PartialEq)]
pub enum InstallerLaunchOutcome {
    /// Still running: the silent installation has started normally.
    StillRunning,
    /// Exited within the window; exit code 0 means the installer finished at once.
    Exited { code: Option<i32> },
}

/// The unpacked release directory.
#[derive(Clone, Debug, Eq, PartialEq)]
pub struct StagedRelease {
    pub root: String,
    pub executable: String,
    pub version_file: String,
    /// Release-relative paths of the files that were checked by the manifest or the layout.
    pub files: Vec<String>,
}

/// The files an archive update replaced and where the old ones were kept.
#[derive(Clone, Debug, Eq, PartialEq)]
pub struct AppliedArchiveUpdate {
    pub replaced: Vec<String>,
    pub backup_dir: String,
}

pub open spec fn strings_view(v: Seq<String>) -> Seq<Seq<char>> {
    v.map_values(|s: String| s@)
}

/// Installer arguments: `/SILENT /NORESTART /LOG=<path>` followed by the extra arguments.
pub open spec fn installer_arguments_spec(log_path: Seq<char>, extra: Seq<Seq<char>>) -> Seq<
    Seq<char>,
> {
    seq!["/SILENT"@, "/NORESTART"@, "/LOG="@ + log_path] + extra
}

pub fn installer_arguments(log_path: &str, extra_args: &Vec<String>) -> (r: Vec<String>)
    ensures
        strings_view(r@) == installer_arguments_spec(log_path@, strings_view(extra_args@)),
{
    let mut args: Vec<String> = Vec::new();
    args.push(String::from_str("/SILENT"));
    args.push(String::from_str("/NORESTART"));
    args.push(concat("/LOG=", log_path));
    let mut i: usize = 0;
    while i < extra_args.len()
        invariant
            i <= extra_args.len(),
            strings_view(args@) == installer_arguments_spec(
                log_path@,
                strings_view(extra_args@.subrange(0, i as int)),
            ),
        decreases extra_args.len() - i,
    {
        args.push(String::from_str(extra_args[i].as_str()));
        i = i + 1;
        proof {
            let before = strings_view(extra_args@.subrange(0, i - 1));
            assert(strings_view(extra_args@.subrange(0, i as int)) =~= before.push(
                extra_args@[i - 1]@,
            ));
            assert(installer_arguments_spec(log_path@, before.push(extra_args@[i - 1]@))
                =~= installer_arguments_spec(log_path@, before).push(extra_args@[i - 1]@));
        }
    }
    proof {
        assert(extra_args@.subrange(0, extra_args@.len() as int) == extra_args@);
    }
    args
}

/// Decimal text of a signed number.
pub open spec fn signed_decimal(n: int) -> Seq<char> {
    if n < 0 {
        "-"@ + decimal((-n) as nat)
    } else {
        decimal(n as nat)
    }
}

fn signed_decimal_string(n: i32) -> (r: String)
    ensures
        r@ == signed_decimal(n as int),
{
    if n < 0 {
        let m: i64 = -(n as i64);
        let d = decimal_string(m as u64);
        concat("-", d.as_str())
    } else {
        decimal_string(n as u64)
    }
}

/// The result of a launch: running, or exited without a code or with 0, is success.
pub open spec fn launch_result_spec(outcome: InstallerLaunchOutcome, log_path: Seq<char>) -> Result<
    (),
    ErrorView,
> {
    match outcome {
        InstallerLaunchOutcome::Exited { code: Some(c) } => if c != 0 {
            Err(
                err_view(
                    "update_installer_failed"@,
                    "更新安装器启动失败：安装器立即退出（退出码 "@ + signed_decimal(c as int)
                        + "）（安装日志："@ + log_path + "）"@,
                ),
            )
        } else {
            Ok(())
        },
        _ => Ok(()),
    }
}

/// Judges the installer's start: a non-zero exit inside the window fails with its code and log path.
pub fn installer_launch_result(outcome: InstallerLaunchOutcome, log_path: &str) -> (r: Result<
    (),
    UpdateError,
>)
    ensures
        match launch_result_spec(outcome, log_path@) {
            Ok(()) => r is Ok,
            Err(e) => r matches Err(err) && err@ == e,
        },
{
    match outcome {
        InstallerLaunchOutcome::Exited { code: Some(c) } => {
            if c != 0 {
                let shown = signed_decimal_string(c);
                let mut message = String::from_str("更新安装器启动失败：安装器立即退出（退出码 ");
                message.append(shown.as_str());
                message.append("）（安装日志：");
                message.append(log_path);
                message.append("）");
                Err(UpdateError::new("update_installer_failed", message))
            } else {
                Ok(())
            }
        },
        _ => Ok(()),
    }
}

// ---------------------------------------------------------------- ZIP entries
/// One step of the lexical cleaning on the segments kept so far.
pub open spec fn clean_step(parts: Seq<Seq<char>>, piece: Seq<char>, rooted: bool) -> Seq<
    Seq<char>,
> {
    if piece.len() == 0 || piece == seq!['.'] {
        parts
    } else if piece == seq!['.', '.'] {
        if parts.len() == 0 || parts.last() == seq!['.', '.'] {
            if !rooted {
                parts.push(seq!['.', '.'])
            } else {
                parts
            }
        } else {
            parts.drop_last()
        }
    } else {
        parts.push(piece)
    }
}

pub open spec fn clean_parts(pieces: Seq<Seq<char>>, rooted: bool) -> Seq<Seq<char>>
    decreases pieces.len(),
{
    if pieces.len() == 0 {
        Seq::<Seq<char>>::empty()
    } else {
        clean_step(clean_parts(pieces.drop_last(), rooted), pieces.last(), rooted)
    }
}

/// Lexical cleaning of a `/` path: drops `.` and empty segments and resolves `..`
/// without climbing above a rooted path.
pub open spec fn cleaned_path(value: Seq<char>) -> Seq<char> {
    let rooted = value.len() > 0 && value[0] == '/';
    let joined = join(clean_parts(split(value, seq!['/']), rooted), '/');
    if rooted {
        seq!['/'] + joined
    } else {
        joined
    }
}

fn vec_of_dots(n: usize) -> (r: Vec<char>)
    requires
        n == 1 || n == 2,
    ensures
        n == 1 ==> r@ == seq!['.'],
        n == 2 ==> r@ == seq!['.', '.'],
{
    let mut r: Vec<char> = Vec::new();
    r.push('.');
    if n == 2 {
        r.push('.');
    }
    r
}

fn is_piece(p: &Vec<char>, n: usize) -> (b: bool)
    requires
        n == 1 || n == 2,
    ensures
        n == 1 ==> b == (p@ == seq!['.']),
        n == 2 ==> b == (p@ == seq!['.', '.']),
{
    let d = vec_of_dots(n);
    chars_eq(p, &d)
}

pub open spec fn views(v: Seq<Vec<char>>) -> Seq<Seq<char>> {
    v.map_values(|p: Vec<char>| p@)
}

fn clean_slash_path_chars(value: &Vec<char>) -> (r: Vec<char>)
    ensures
        r@ == cleaned_path(value@),
{
    let rooted = value.len() > 0 && value[0] == '/';
    let seps = vec!['/'];
    proof {
        assert(seps@ == seq!['/']);
    }
    let pieces = split_vec(value, &seps);
    let ghost spec_pieces = split(value@, seq!['/']);
    let mut parts: Vec<Vec<char>> = Vec::new();
    let mut i: usize = 0;
    while i < pieces.len()
        invariant
            i <= pieces@.len() == spec_pieces.len(),
            forall|k: int| 0 <= k < pieces@.len() ==> (#[trigger] pieces@[k])@ == spec_pieces[k],
            views(parts@) == clean_parts(spec_pieces.subrange(0, i as int), rooted),
        decreases pieces.len() - i,
    {
        let ghost before = spec_pieces.subrange(0, i as int);
        let ghost after = spec_pieces.subrange(0, i + 1);
        proof {
            assert(after.drop_last() == before);
            assert(after.last() == pieces@[i as int]@);
        }
        let piece = &pieces[i];
        if piece.len() == 0 || is_piece(piece, 1) {
        } else if is_piece(piece, 2) {
            let last_is_up = parts.len() > 0 && is_piece(&parts[parts.len() - 1], 2);
            if parts.len() == 0 || last_is_up {
                if !rooted {
                    parts.push(vec_of_dots(2));
                }
            } else {
                let _ = parts.pop();
            }
        } else {
            parts.push(piece.clone());
        }
        i = i + 1;
        proof {
            assert(spec_pieces.subrange(0, i as int) == after);
            assert(views(parts@) == clean_parts(after, rooted));
        }
    }
    proof {
        assert(spec_pieces.subrange(0, spec_pieces.len() as int) == spec_pieces);
    }
    let joined_chars = join_vec(&parts, '/');
    if rooted {
        let mut r: Vec<char> = Vec::new();
        r.push('/');
        append_chars(&mut r, &joined_chars);
        r
    } else {
        joined_chars
    }
}

/// Lexical cleaning of `/`-separated text (see `cleaned_path`).
pub fn clean_slash_path(value: &str) -> (r: String)
    ensures
        r@ == cleaned_path(value@),
{
    let v = chars_of(value);
    let c = clean_slash_path_chars(&v);
    string_of_all(&c)
}

pub open spec fn unsafe_path_view(name: Seq<char>) -> ErrorView {
    err_view("update_archive_path_unsafe"@, "更新包包含越界路径："@ + name)
}

pub fn unsafe_path_error(name: &str) -> (r: UpdateError)
    ensures
        r@ == unsafe_path_view(name@),
{
    UpdateError::new("update_archive_path_unsafe", concat("更新包包含越界路径：", name))
}

/// The cleaned `/` form of a ZIP entry name (backslashes read as separators).
pub open spec fn entry_clean(name: Seq<char>) -> Seq<char> {
    cleaned_path(replace_char(name, '\\', '/'))
}

/// A ZIP entry name is unsafe when its cleaned form is empty, `.` or `..`, climbs out with
/// `../`, or is rooted, or when the first component of its native form is not a name
/// (a drive prefix, a root or `..`); otherwise it maps to the native relative path.
pub open spec fn safe_entry_spec(name: Seq<char>) -> Result<Seq<char>, ErrorView> {
    let c = entry_clean(name);
    let native = replace_char(c, '/', '\\');
    let cs = path_components(native);
    if c.len() == 0 || c == seq!['.'] || c == seq!['.', '.'] || starts_with(c, seq!['.', '.', '/'])
        || starts_with(c, seq!['/']) {
        Err(unsafe_path_view(name))
    } else if cs.len() == 0 || !(cs[0] is Normal || cs[0] is CurDir) {
        Err(unsafe_path_view(name))
    } else {
        Ok(native)
    }
}

/// Normalizes a ZIP entry name and rejects any that would leave the destination.
pub fn safe_entry_path(name: &str) -> (r: Result<String, UpdateError>)
    ensures
        match safe_entry_spec(name@) {
            Ok(p) => r matches Ok(s) && s@ == p,
            Err(e) => r matches Err(err) && err@ == e,
        },
{
    let v = chars_of(name);
    let slashed = replace_char_vec(&v, '\\', '/');
    let c = clean_slash_path_chars(&slashed);
    let n = c.len();
    let dot = is_piece(&c, 1);
    let dot_dot = is_piece(&c, 2);
    let up = n >= 3 && c[0] == '.' && c[1] == '.' && c[2] == '/';
    proof {
        if n >= 3 {
            if c@[0] == '.' && c@[1] == '.' && c@[2] == '/' {
                assert(c@.subrange(0, 3) =~= seq!['.', '.', '/']);
            }
            if starts_with(c@, seq!['.', '.', '/']) {
                assert(c@.subrange(0, 3)[0] == c@[0]);
                assert(c@.subrange(0, 3)[1] == c@[1]);
                assert(c@.subrange(0, 3)[2] == c@[2]);
            }
        } else {
            assert(!starts_with(c@, seq!['.', '.', '/']));
        }
        if n > 0 {
            if c@[0] == '/' {
                assert(c@.subrange(0, 1) =~= seq!['/']);
            }
            if starts_with(c@, seq!['/']) {
                assert(c@.subrange(0, 1)[0] == c@[0]);
            }
        }
    }
    if n == 0 || dot || dot_dot || up || c[0] == '/' {
        return Err(unsafe_path_error(name));
    }
    let native = replace_char_vec(&c, '/', '\\');
    let list = components(&native);
    let ghost cs = path_components(native@);
    if list.kinds.len() == 0 || !(list.kinds[0] == 4 || list.kinds[0] == 2) {
        return Err(unsafe_path_error(name));
    }
    proof {
        assert(list.kinds@[0] == kind_of(cs[0]));
    }
    Ok(string_of_all(&native))
}

/// What cleaning leaves of a relative path: names without separators, none empty or `.`,
/// and `..` only in a leading run.
pub open spec fn cleaned_parts_shape(parts: Seq<Seq<char>>) -> bool {
    &&& forall|k: int|
        0 <= k < parts.len() ==> (#[trigger] parts[k]).len() > 0 && parts[k] != seq!['.']
    &&& forall|k: int, j: int|
        0 <= k < parts.len() && 0 <= j < parts[k].len() ==> !is_sep(#[trigger] parts[k][j])
    &&& forall|j: int, k: int|
        #![trigger parts[j], parts[k]]
        0 <= j < k < parts.len() && parts[k] == seq!['.', '.'] ==> parts[j] == seq!['.', '.']
}

proof fn lemma_clean_parts_shape(pieces: Seq<Seq<char>>)
    requires
        forall|k: int, j: int|
            0 <= k < pieces.len() && 0 <= j < pieces[k].len() ==> !is_sep(#[trigger] pieces[k][j]),
    ensures
        cleaned_parts_shape(clean_parts(pieces, false)),
    decreases pieces.len(),
{
    if pieces.len() > 0 {
        let d = pieces.drop_last();
        assert forall|k: int, j: int| 0 <= k < d.len() && 0 <= j < d[k].len() implies !is_sep(
            #[trigger] d[k][j],
        ) by {
            assert(d[k] == pieces[k]);
        }
        lemma_clean_parts_shape(d);
        let prev = clean_parts(d, false);
        let piece = pieces.last();
        assert(piece == pieces[pieces.len() - 1]);
        let next = clean_parts(pieces, false);
        assert(next == clean_step(prev, piece, false));
        if piece.len() == 0 || piece == seq!['.'] {
        } else if piece == seq!['.', '.'] {
            if prev.len() == 0 || prev.last() == seq!['.', '.'] {
                assert(next == prev.push(seq!['.', '.']));
                assert forall|j: int, k: int|
                    #![trigger next[j], next[k]]
                    0 <= j < k < next.len() && next[k] == seq!['.', '.'] implies next[j] == seq![
                        '.',
                        '.',
                    ] by {
                    assert(next[j] == prev[j]);
                    if k < prev.len() {
                        assert(next[k] == prev[k]);
                    } else if j < prev.len() - 1 {
                        assert(prev[prev.len() - 1] == seq!['.', '.']);
                    }
                }
                assert forall|k: int, j: int| 0 <= k < next.len() && 0 <= j < next[k].len() implies !is_sep(
                    #[trigger] next[k][j],
                ) by {
                    if k < prev.len() {
                        assert(next[k] == prev[k]);
                    } else {
                        assert(next[k] == seq!['.', '.']);
                    }
                }
            } else {
                assert(next == prev.drop_last());
                assert forall|j: int, k: int|
                    #![trigger next[j], next[k]]
                    0 <= j < k < next.len() && next[k] == seq!['.', '.'] implies next[j] == seq![
                        '.',
                        '.',
                    ] by {
                    assert(next[j] == prev[j]);
                    assert(next[k] == prev[k]);
                }
                assert forall|k: int, j: int| 0 <= k < next.len() && 0 <= j < next[k].len() implies !is_sep(
                    #[trigger] next[k][j],
                ) by {
                    assert(next[k] == prev[k]);
                }
            }
        } else {
            assert(next == prev.push(piece));
            assert forall|j: int, k: int|
                #![trigger next[j], next[k]]
                0 <= j < k < next.len() && next[k] == seq!['.', '.'] implies next[j] == seq![
                    '.',
                    '.',
                ] by {
                assert(next[j] == prev[j]);
                assert(next[k] == prev[k]);
            }
            assert forall|k: int, j: int| 0 <= k < next.len() && 0 <= j < next[k].len() implies !is_sep(
                #[trigger] next[k][j],
            ) by {
                if k < prev.len() {
                    assert(next[k] == prev[k]);
                } else {
                    assert(next[k] == piece);
                    assert(piece[j] == pieces[pieces.len() - 1][j]);
                }
            }
        }
    }
}

/// An entry name that `safe_entry_path` accepts becomes a relative path made only of normal
/// components, so an extracted entry always lands inside the destination directory.
pub proof fn lemma_accepted_entry_stays_inside(name: Seq<char>)
    requires
        safe_entry_spec(name) is Ok,
    ensures
        safe_relative(safe_entry_spec(name)->Ok_0),
{
    let value = replace_char(name, '\\', '/');
    let rooted = value.len() > 0 && value[0] == '/';
    let slash = seq!['/'];
    let pieces = split(value, slash);
    crate::winpath::lemma_split_pieces_no_sep(value, slash);
    assert forall|i: int| 0 <= i < value.len() implies value[i] != '\\' by {}
    crate::text::lemma_split_pieces_avoid(value, slash, '\\');
    assert forall|k: int, j: int| 0 <= k < pieces.len() && 0 <= j < pieces[k].len() implies !is_sep(
        #[trigger] pieces[k][j],
    ) by {
        if pieces[k][j] == '/' {
            assert(slash.contains(pieces[k][j])) by {
                assert(slash[0] == '/');
            }
        }
    }
    let c = entry_clean(name);
    if rooted {
        let j = join(clean_parts(pieces, rooted), '/');
        assert(c == seq!['/'] + j);
        assert(c.subrange(0, 1) =~= seq!['/']);
        assert(false);
    }
    let parts = clean_parts(pieces, false);
    lemma_clean_parts_shape(pieces);
    assert(c == join(parts, '/'));
    if parts.len() == 0 {
        assert(c.len() == 0);
        assert(false);
    }
    crate::text::lemma_join_head(parts, '/');
    if parts[0] == seq!['.', '.'] {
        if parts.len() >= 2 {
            assert(parts[0].push('/') =~= seq!['.', '.', '/']);
        }
        assert(false);
    }
    assert forall|k: int| 0 <= k < parts.len() implies (#[trigger] parts[k]).len() > 0 && parts[k]
        != seq!['.'] && parts[k] != seq!['.', '.'] by {
        if k > 0 && parts[k] == seq!['.', '.'] {
            assert(parts[0] == seq!['.', '.']);
        }
    }
    assert forall|i: int, k: int| 0 <= i < parts.len() && 0 <= k < parts[i].len() implies #[trigger] parts[i][k]
        != '/' by {
        assert(!is_sep(parts[i][k]));
    }
    crate::text::lemma_replace_join(parts, '/', '\\');
    let native = join(parts, '\\');
    assert(safe_entry_spec(name)->Ok_0 == native);
    crate::text::lemma_join_head(parts, '\\');
    assert(native[0] == parts[0][0]) by {
        if parts.len() >= 2 {
            assert(native.subrange(0, parts[0].len() + 1int)[0] == native[0]);
        }
    }
    let cs = path_components(native);
    assert(!drive_prefix(native)) by {
        if drive_prefix(native) {
            assert(cs[0] is Prefix);
        }
    }
    let seps = seq!['/', '\\'];
    assert(!is_sep(native[0]));
    assert forall|i: int, k: int| 0 <= i < parts.len() && 0 <= k < parts[i].len() implies !seps.contains(
        #[trigger] parts[i][k],
    ) by {
        assert(!is_sep(parts[i][k]));
    }
    assert(seps.contains('\\')) by {
        assert(seps[1] == '\\');
    }
    crate::text::lemma_split_join(parts, '\\', seps);
    crate::winpath::lemma_body_all_normal(parts, true);
    assert(cs == crate::winpath::body_components(parts, true));
}

/// ASCII case-insensitive form of a path with `\` as the separator.
pub open spec fn folded_path(p: Seq<char>) -> Seq<char> {
    lower(replace_char(p, '/', '\\'))
}

pub open spec fn trim_trailing_backslashes(s: Seq<char>) -> Seq<char>
    decreases s.len(),
{
    if s.len() > 0 && s.last() == '\\' {
        trim_trailing_backslashes(s.drop_last())
    } else {
        s
    }
}

/// Whether `target` is `root` or lies below it, ignoring ASCII case and separator style.
pub open spec fn path_inside_spec(root: Seq<char>, target: Seq<char>) -> bool {
    let r = trim_trailing_backslashes(folded_path(root));
    let t = folded_path(target);
    t == r || starts_with(t, r.push('\\'))
}

fn without_trailing_backslashes(v: &Vec<char>) -> (r: Vec<char>)
    ensures
        r@ == trim_trailing_backslashes(v@),
{
    let mut hi = v.len();
    proof {
        assert(v@.subrange(0, v@.len() as int) == v@);
    }
    while hi > 0 && v[hi - 1] == '\\'
        invariant
            hi <= v.len(),
            trim_trailing_backslashes(v@) == trim_trailing_backslashes(v@.subrange(0, hi as int)),
        decreases hi,
    {
        proof {
            assert(v@.subrange(0, hi as int).drop_last() == v@.subrange(0, hi - 1));
        }
        hi = hi - 1;
    }
    slice_of(v, 0, hi)
}

fn starts_with_chars(v: &Vec<char>, p: &Vec<char>) -> (b: bool)
    ensures
        b == starts_with(v@, p@),
{
    if p.len() > v.len() {
        return false;
    }
    let head = slice_of(v, 0, p.len());
    chars_eq(&head, p)
}

/// Folding keeps a character a backslash exactly when it was a separator.
proof fn lemma_fold_backslash(c: char)
    ensures
        (lower_char(if c == '/' { '\\' } else { c }) == '\\') == is_sep(c),
{
    if is_upper(c) {
        let u = (c as u32) + 32;
        assert(97 <= u <= 122);
        assert((u as char) as u32 == u);
    }
}

proof fn lemma_trimmed_backslashes(s: Seq<char>)
    ensures
        trim_trailing_backslashes(s).len() <= s.len(),
        s.subrange(0, trim_trailing_backslashes(s).len() as int) == trim_trailing_backslashes(s),
        forall|i: int| trim_trailing_backslashes(s).len() <= i < s.len() ==> s[i] == '\\',
        trim_trailing_backslashes(s).len() == s.len() ==> !(s.len() > 0 && s.last() == '\\'),
    decreases s.len(),
{
    if s.len() > 0 && s.last() == '\\' {
        let d = s.drop_last();
        lemma_trimmed_backslashes(d);
        let t = trim_trailing_backslashes(d);
        assert(s.subrange(0, t.len() as int) == d.subrange(0, t.len() as int));
        assert forall|i: int| t.len() <= i < s.len() implies s[i] == '\\' by {
            if i < d.len() {
                assert(s[i] == d[i]);
            }
        }
    } else {
        assert(s.subrange(0, s.len() as int) == s);
    }
}

/// A destination that extracted entries can go below: not empty and not a bare drive.
pub open spec fn usable_destination(d: Seq<char>) -> bool {
    d.len() > 0 && !(d.len() == 2 && drive_prefix(d))
}

/// The containment check never refuses an entry that `safe_entry_path` accepted: the
/// target of an accepted entry lies inside any usable destination.
pub proof fn lemma_accepted_entry_target_inside(destination: Seq<char>, name: Seq<char>)
    requires
        safe_entry_spec(name) is Ok,
        usable_destination(destination),
    ensures
        path_inside_spec(destination, joined(destination, safe_entry_spec(name)->Ok_0)),
{
    let native = safe_entry_spec(name)->Ok_0;
    lemma_accepted_entry_stays_inside(name);
    lemma_safe_relative_plain(native);
    assert(native.len() > 0) by {
        if native.len() == 0 {
            assert(split(native, seq!['/', '\\']) =~= seq![Seq::<char>::empty()]);
            assert(path_components(native).len() == 0);
        }
    }
    let d = destination;
    let target = joined(d, native);
    let fd = folded_path(d);
    let r = trim_trailing_backslashes(fd);
    let t = folded_path(target);
    lemma_trimmed_backslashes(fd);
    assert forall|i: int| 0 <= i < d.len() implies (#[trigger] fd[i] == '\\') == is_sep(d[i]) by {
        lemma_fold_backslash(d[i]);
    }
    assert(t.len() == target.len());
    assert forall|i: int| 0 <= i < d.len() implies #[trigger] t[i] == fd[i] by {
        assert(target[i] == d[i]);
    }
    let p = r.push('\\');
    assert(p.len() <= t.len());
    assert forall|i: int| 0 <= i < p.len() implies #[trigger] t[i] == p[i] by {
        if i < r.len() {
            assert(r[i] == fd.subrange(0, r.len() as int)[i]);
        } else if r.len() < fd.len() {
            assert(fd[i] == '\\');
        } else {
            assert(!is_sep(d.last())) by {
                assert(fd.last() == fd[d.len() - 1]);
            }
            assert(needs_separator(d));
            assert(target[i] == '\\');
            lemma_fold_backslash(target[i]);
        }
    }
    assert(t.subrange(0, p.len() as int) =~= p);
}

/// A second, defensive containment check (the first is `safe_entry_path`).
pub fn path_inside(root: &str, target: &str) -> (b: bool)
    ensures
        b == path_inside_spec(root@, target@),
{
    let r0 = replace_char_vec(&chars_of(root), '/', '\\');
    let r1 = lower_vec(&r0);
    let r = without_trailing_backslashes(&r1);
    let t0 = replace_char_vec(&chars_of(target), '/', '\\');
    let t = lower_vec(&t0);
    if chars_eq(&t, &r) {
        return true;
    }
    let mut prefix = r.clone();
    prefix.push('\\');
    starts_with_chars(&t, &prefix)
}

/// The remaining declared size must fit in the budget; all counting is unsigned.
pub open spec fn within_budget_spec(declared: u64, used: u64, max: u64) -> bool {
    used <= max && declared <= max - used
}

pub fn within_extraction_budget(declared: u64, used: u64, max: u64) -> (b: bool)
    ensures
        b == within_budget_spec(declared, used, max),
{
    if used > max {
        return false;
    }
    declared <= max - used
}

pub open spec fn budget_view(remaining: u64) -> ErrorView {
    err_view(
        "update_archive_too_large"@,
        "解压后的更新内容超过允许大小（本条剩余 "@ + decimal(remaining as nat) + " 字节，总计 "@
            + decimal(209715200) + " 字节）"@,
    )
}

pub fn extraction_budget_error(remaining: u64) -> (r: UpdateError)
    ensures
        r@ == budget_view(remaining),
{
    let shown = decimal_string(remaining);
    let total = decimal_string(MAX_EXTRACTED_BYTES);
    let mut message = String::from_str("解压后的更新内容超过允许大小（本条剩余 ");
    message.append(shown.as_str());
    message.append(" 字节，总计 ");
    message.append(total.as_str());
    message.append(" 字节）");
    UpdateError::new("update_archive_too_large", message)
}

/// The lower-case form that `str::to_lowercase` gives (full Unicode case mapping).
pub uninterp spec fn unicode_lower(s: Seq<char>) -> Seq<char>;

/// Calls `str::to_lowercase`; std's Unicode case tables are not restated, the result is
/// named by `unicode_lower`.
#[verifier::external_body]
pub(crate) fn to_lowercase(s: &str) -> (r: String)
    ensures
        r@ == unicode_lower(s@),
{
    s.to_lowercase()
}

/// The name used to detect duplicate entries: `/` separators, Unicode lower case.
pub open spec fn canonical_entry(relative: Seq<char>) -> Seq<char> {
    unicode_lower(replace_char(relative, '\\', '/'))
}

pub open spec fn duplicate_view(name: Seq<char>) -> ErrorView {
    err_view("update_archive_path_unsafe"@, "更新包包含重复路径："@ + name)
}

/// The checks one ZIP entry goes through before anything is written: a safe relative path,
/// no duplicate of an earlier entry (case-insensitively), and a target inside the destination.
pub open spec fn entry_check_spec(
    seen: Seq<Seq<char>>,
    destination: Seq<char>,
    name: Seq<char>,
) -> Result<(Seq<char>, Seq<char>), ErrorView> {
    match safe_entry_spec(name) {
        Err(e) => Err(e),
        Ok(relative) => {
            let canonical = canonical_entry(relative);
            if seen.contains(canonical) {
                Err(duplicate_view(name))
            } else {
                let target = joined(destination, relative);
                if !path_inside_spec(destination, target) {
                    Err(unsafe_path_view(name))
                } else {
                    Ok((canonical, target))
                }
            }
        },
    }
}

/// Checks one ZIP entry and records it as seen; returns the target path to write.
pub fn check_archive_entry(seen: &mut Vec<String>, destination: &str, entry_name: &str) -> (r:
    Result<String, UpdateError>)
    ensures
        match entry_check_spec(strings_view(old(seen)@), destination@, entry_name@) {
            Ok((canonical, target)) => r matches Ok(t) && t@ == target && strings_view(
                final(seen)@,
            ) == strings_view(old(seen)@).push(canonical),
            Err(e) => r matches Err(err) && err@ == e && final(seen)@ == old(seen)@,
        },
        strings_view(old(seen)@).no_duplicates() ==> strings_view(final(seen)@).no_duplicates(),
{
    let relative = safe_entry_path(entry_name)?;
    let rel_chars = chars_of(relative.as_str());
    let slashed = replace_char_vec(&rel_chars, '\\', '/');
    let slashed_s = string_of_all(&slashed);
    let canonical = to_lowercase(slashed_s.as_str());
    let canonical_chars = chars_of(canonical.as_str());
    let mut i: usize = 0;
    while i < seen.len()
        invariant
            seen@ == old(seen)@,
            canonical_chars@ == canonical@,
            canonical@ == canonical_entry(relative@),
            safe_entry_spec(entry_name@) == Ok::<Seq<char>, ErrorView>(relative@),
            i <= seen.len(),
            forall|k: int| 0 <= k < i ==> seen@[k]@ != canonical@,
        decreases seen.len() - i,
    {
        let other = chars_of(seen[i].as_str());
        if chars_eq(&other, &canonical_chars) {
            proof {
                assert(strings_view(old(seen)@)[i as int] == canonical@);
                assert(strings_view(old(seen)@).contains(canonical@));
            }
            let shown = String::from_str(entry_name);
            return Err(UpdateError::new("update_archive_path_unsafe", concat("更新包包含重复路径：", shown.as_str())));
        }
        i = i + 1;
    }
    proof {
        assert(!strings_view(seen@).contains(canonical@)) by {
            if strings_view(seen@).contains(canonical@) {
                let k = choose|k: int| 0 <= k < strings_view(seen@).len() && strings_view(seen@)[k] == canonical@;
                assert(seen@[k]@ == canonical@);
            }
        }
        crate::winpath::lemma_first_plain(relative@);
    }
    let target = join_path(destination, relative.as_str());
    if !path_inside(destination, target.as_str()) {
        return Err(unsafe_path_error(entry_name));
    }
    let ghost before = strings_view(seen@);
    seen.push(canonical);
    proof {
        assert(strings_view(seen@) =~= before.push(canonical@));
        if before.no_duplicates() {
            assert forall|a: int, b: int|
                0 <= a < strings_view(seen@).len() && 0 <= b < strings_view(seen@).len() && a != b implies
                strings_view(seen@)[a] != strings_view(seen@)[b] by {
                if a == before.len() as int {
                    assert(before[b] == strings_view(seen@)[b]);
                } else if b == before.len() as int {
                    assert(before[a] == strings_view(seen@)[a]);
                }
            }
        }
    }
    Ok(target)
}

pub open spec fn symlink_view(name: Seq<char>) -> ErrorView {
    err_view("update_archive_symlink"@, "更新包包含不支持的符号链接："@ + name)
}

/// What to do with one ZIP entry that passed the checks.
#[derive(Debug)]
pub enum EntryAction {
    /// Create this directory.
    CreateDir(String),
    /// Write the entry's content to `target`, reading at most `limit + 1` bytes of it.
    WriteFile { target: String, limit: u64 },
}

/// The extraction of one ZIP so far: the entry names seen (for duplicates) and the bytes
/// written, which never exceed `MAX_EXTRACTED_BYTES`.
#[derive(Debug)]
pub struct ArchiveExtraction {
    seen: Vec<String>,
    extracted: u64,
}

impl ArchiveExtraction {
    #[verifier::type_invariant]
    spec fn within_limit(&self) -> bool {
        self.extracted <= MAX_EXTRACTED_BYTES
    }

    pub closed spec fn spec_seen(&self) -> Seq<Seq<char>> {
        strings_view(self.seen@)
    }

    pub closed spec fn spec_extracted(&self) -> u64 {
        self.extracted
    }

    /// Nothing seen, nothing written.
    pub fn new() -> (r: Self)
        ensures
            r.spec_seen().len() == 0,
            r.spec_extracted() == 0,
    {
        ArchiveExtraction { seen: Vec::new(), extracted: 0 }
    }

    /// The bytes written so far.
    pub fn extracted(&self) -> (r: u64)
        ensures
            r == self.spec_extracted(),
            r <= MAX_EXTRACTED_BYTES,
    {
        proof {
            use_type_invariant(self);
        }
        self.extracted
    }

    /// Checks one entry before anything of it is written: its path (safe, not a duplicate,
    /// inside the destination), then a directory is created, a link is refused, and a file
    /// must fit, by its declared size, in what is left of the limit.
    pub fn begin_entry(
        &mut self,
        destination: &str,
        name: &str,
        is_dir: bool,
        is_symlink: bool,
        declared_size: u64,
    ) -> (r: Result<EntryAction, UpdateError>)
        ensures
            final(self).spec_extracted() == old(self).spec_extracted(),
            old(self).spec_extracted() <= MAX_EXTRACTED_BYTES,
            match entry_check_spec(old(self).spec_seen(), destination@, name@) {
                Err(e) => r matches Err(err) && err@ == e && final(self).spec_seen() == old(self).spec_seen(),
                Ok((canonical, target)) => final(self).spec_seen() == old(self).spec_seen().push(canonical)
                    && if is_dir {
                    r matches Ok(EntryAction::CreateDir(t)) && t@ == target
                } else if is_symlink {
                    r matches Err(err) && err@ == symlink_view(name@)
                } else if !within_budget_spec(declared_size, old(self).spec_extracted(), MAX_EXTRACTED_BYTES) {
                    r matches Err(err) && err@ == budget_view((MAX_EXTRACTED_BYTES - old(self).spec_extracted()) as u64)
                } else {
                    r matches Ok(EntryAction::WriteFile { target: t, limit }) && t@ == target && limit
                        == MAX_EXTRACTED_BYTES - old(self).spec_extracted()
                },
            },
    {
        proof {
            use_type_invariant(&*self);
        }
        let mut seen: Vec<String> = Vec::new();
        std::mem::swap(&mut seen, &mut self.seen);
        let checked = check_archive_entry(&mut seen, destination, name);
        self.seen = seen;
        let target = checked?;
        if is_dir {
            return Ok(EntryAction::CreateDir(target));
        }
        if is_symlink {
            return Err(UpdateError::new("update_archive_symlink", concat("更新包包含不支持的符号链接：", name)));
        }
        if !within_extraction_budget(declared_size, self.extracted, MAX_EXTRACTED_BYTES) {
            return Err(extraction_budget_error(MAX_EXTRACTED_BYTES - self.extracted));
        }
        Ok(EntryAction::WriteFile { target, limit: MAX_EXTRACTED_BYTES - self.extracted })
    }

    /// After a file entry was written with the `limit` it was given: more than the limit
    /// refuses the archive; otherwise the bytes count toward the total.
    pub fn entry_written(&mut self, written: u64, limit: u64) -> (r: Result<(), UpdateError>)
        requires
            limit == MAX_EXTRACTED_BYTES - old(self).spec_extracted(),
        ensures
            final(self).spec_seen() == old(self).spec_seen(),
            written > limit ==> (r matches Err(e) && e@ == budget_view(limit)) && final(self).spec_extracted()
                == old(self).spec_extracted(),
            written <= limit ==> r is Ok && final(self).spec_extracted() == old(self).spec_extracted() + written,
            final(self).spec_extracted() <= MAX_EXTRACTED_BYTES,
    {
        proof {
            use_type_invariant(&*self);
        }
        if written > limit {
            return Err(extraction_budget_error(limit));
        }
        self.extracted = self.extracted + written;
        Ok(())
    }
}

// ---------------------------------------------------------------- staged release
pub open spec fn version_mismatch_view(expected: Seq<char>, raw: Seq<char>) -> ErrorView {
    err_view(
        "update_release_version_mismatch"@,
        "更新包版本不一致：期望 "@ + expected + "，实际 "@ + debug_text(trim(raw)),
    )
}

/// The version file must normalize to exactly the expected version.
pub fn check_staged_version(raw: &str, expected_version: &str) -> (r: Result<(), UpdateError>)
    ensures
        normalized_version(raw@) == Some(expected_version@) ==> r is Ok,
        normalized_version(raw@) != Some(expected_version@) ==> (r matches Err(e) && e@
            == version_mismatch_view(expected_version@, raw@)),
{
    let matches = match normalize_version(raw) {
        Some(v) => crate::text::str_eq(v.as_str(), expected_version),
        None => false,
    };
    if matches {
        return Ok(());
    }
    let trimmed = trim_str(raw);
    let shown = debug_str(trimmed.as_str());
    let mut message = String::from_str("更新包版本不一致：期望 ");
    message.append(expected_version);
    message.append("，实际 ");
    message.append(shown.as_str());
    Err(UpdateError::new("update_release_version_mismatch", message))
}

// ---------------------------------------------------------------- install mapping
/// `Path::as_os_str` text of a component (the prefix is `X:`).
pub open spec fn os_text(c: Component) -> Seq<char> {
    match c {
        Component::Prefix => Seq::<char>::empty(),
        Component::RootDir => seq!['\\'],
        Component::CurDir => seq!['.'],
        Component::ParentDir => seq!['.', '.'],
        Component::Normal(t) => t,
    }
}

/// Collecting components into a `PathBuf`: each one joined onto the previous.
pub open spec fn collected(texts: Seq<Seq<char>>) -> Seq<char>
    decreases texts.len(),
{
    if texts.len() == 0 {
        Seq::<char>::empty()
    } else {
        joined(collected(texts.drop_last()), texts.last())
    }
}

/// Where a release file goes: `bin/` content directly under the install root, the rest
/// keeping its relative layout.
pub open spec fn install_relative_spec(rel: Seq<char>) -> Option<Seq<char>> {
    let cs = path_components(rel);
    if cs.len() == 0 {
        None
    } else if cs[0] is Normal && eq_ignore_case(text_of(cs[0]), "bin"@) {
        let rest = cs.drop_first().map_values(|c: Component| os_text(c));
        if rest.len() == 0 {
            None
        } else {
            Some(collected(rest))
        }
    } else {
        Some(rel)
    }
}

/// Maps a release path into the install directory; `bin/` content lands at the root.
pub fn install_relative_path(release_relative: &str) -> (r: Option<String>)
    ensures
        match install_relative_spec(release_relative@) {
            Some(p) => r matches Some(s) && s@ == p,
            None => r is None,
        },
{
    let v = chars_of(release_relative);
    let list = components(&v);
    let ghost cs = path_components(v@);
    proof {
        lemma_component_texts(v@);
    }
    if list.kinds.len() == 0 {
        return None;
    }
    let bin = chars_of("bin");
    let first_is_bin = list.kinds[0] == 4 && chars_eq_ignore_case(&list.texts[0], &bin);
    proof {
        crate::winpath::lemma_kind_normal(cs[0]);
        if cs[0] is Normal {
            crate::winpath::lemma_no_root_after_normal(v@);
        }
    }
    if !first_is_bin {
        return Some(String::from_str(release_relative));
    }
    if list.kinds.len() == 1 {
        return None;
    }
    let ghost rest = cs.drop_first().map_values(|c: Component| os_text(c));
    let mut out: Vec<char> = Vec::new();
    let mut k: usize = 1;
    while k < list.kinds.len()
        invariant
            1 <= k <= list.kinds@.len() == cs.len(),
            cs == path_components(v@),
            list_matches(list, cs),
            rest == cs.drop_first().map_values(|c: Component| os_text(c)),
            forall|j: int|
                0 <= j < cs.len() && #[trigger] cs[j] is Normal ==> clean_text(text_of(cs[j])),
            forall|j: int| 0 <= j < cs.len() ==> !(#[trigger] cs[j] is RootDir),
            out@ == collected(rest.subrange(0, k - 1)),
        decreases list.kinds.len() - k,
    {
        let kind = list.kinds[k];
        let piece: Vec<char> = if kind == 4 {
            list.texts[k].clone()
        } else if kind == 3 {
            vec_of_dots(2)
        } else if kind == 2 {
            vec_of_dots(1)
        } else if kind == 1 {
            let mut r: Vec<char> = Vec::new();
            r.push('\\');
            r
        } else {
            Vec::new()
        };
        proof {
            let c = cs[k as int];
            assert(list.kinds@[k as int] == kind_of(c));
            assert(list.texts@[k as int]@ == text_of(c));
            assert(piece@ == os_text(c));
            assert(rest[k - 1] == os_text(c));
            assert(rest.subrange(0, k as int).drop_last() == rest.subrange(0, k - 1));
        }
        out = join_chars(&out, &piece);
        k = k + 1;
    }
    proof {
        assert(rest.subrange(0, rest.len() as int) == rest);
    }
    Some(string_of_all(&out))
}

/// A relative path of normal components only.
pub fn is_safe_relative_file_path(path: &str) -> (b: bool)
    ensures
        b == safe_relative(path@),
{
    let v = chars_of(path);
    is_safe_relative(&v)
}


pub open spec fn all_clean(texts: Seq<Seq<char>>) -> bool {
    forall|k: int| 0 <= k < texts.len() ==> clean_text(#[trigger] texts[k])
}

/// Collecting clean names never yields a path that starts with a separator.
pub proof fn lemma_collected_head(texts: Seq<Seq<char>>)
    requires
        all_clean(texts),
    ensures
        !(collected(texts).len() > 0 && is_sep(collected(texts)[0])),
    decreases texts.len(),
{
    if texts.len() > 0 {
        let d = texts.drop_last();
        assert forall|k: int| 0 <= k < d.len() implies clean_text(#[trigger] d[k]) by {
            assert(d[k] == texts[k]);
        }
        lemma_collected_head(d);
        let last = texts.last();
        assert(clean_text(texts[texts.len() - 1]));
        assert(!is_sep(last[0]));
    }
}

pub open spec fn layout_invalid_view(message: Seq<char>) -> ErrorView {
    err_view("update_release_layout_invalid"@, message)
}

/// Where a verified release file is read from: it must be a relative path of plain names
/// and stay inside the release root.
pub open spec fn install_source_spec(staged_root: Seq<char>, rel: Seq<char>) -> Result<
    Seq<char>,
    ErrorView,
> {
    if !safe_relative(rel) {
        Err(layout_invalid_view("更新包文件路径无效："@ + rel))
    } else {
        let source = joined(staged_root, rel);
        if !path_inside_spec(staged_root, source) {
            Err(layout_invalid_view("更新包缺少已验证文件："@ + rel))
        } else {
            Ok(source)
        }
    }
}

/// The source of one release file inside the staged release root.
pub fn install_source(staged_root: &str, release_relative: &str) -> (r: Result<String, UpdateError>)
    ensures
        match install_source_spec(staged_root@, release_relative@) {
            Ok(p) => r matches Ok(s) && s@ == p,
            Err(e) => r matches Err(err) && err@ == e,
        },
{
    if !is_safe_relative_file_path(release_relative) {
        return Err(
            UpdateError::new("update_release_layout_invalid", concat("更新包文件路径无效：", release_relative)),
        );
    }
    proof {
        lemma_safe_relative_plain(release_relative@);
    }
    let source = join_path(staged_root, release_relative);
    if !path_inside(staged_root, source.as_str()) {
        return Err(
            UpdateError::new("update_release_layout_invalid", concat("更新包缺少已验证文件：", release_relative)),
        );
    }
    Ok(source)
}

/// Where a release file goes in the install root, or why it cannot go there.
pub open spec fn install_target_spec(install_root: Seq<char>, rel: Seq<char>) -> Result<
    (Seq<char>, Seq<char>),
    ErrorView,
> {
    match install_relative_spec(rel) {
        None => Err(layout_invalid_view("更新包文件路径无效："@ + rel)),
        Some(relative) => {
            let target = joined(install_root, relative);
            if !path_inside_spec(install_root, target) {
                Err(layout_invalid_view("更新包文件路径越过安装目录："@ + rel))
            } else {
                Ok((relative, target))
            }
        },
    }
}

/// The install-relative path and the target of a release file that passed `install_source`.
pub fn install_target(install_root: &str, release_relative: &str) -> (r: Result<
    (String, String),
    UpdateError,
>)
    requires
        safe_relative(release_relative@),
    ensures
        match install_target_spec(install_root@, release_relative@) {
            Ok((relative, target)) => r matches Ok((a, b)) && a@ == relative && b@ == target,
            Err(e) => r matches Err(err) && err@ == e,
        },
{
    let relative = match install_relative_path(release_relative) {
        Some(p) => p,
        None => {
            return Err(
                UpdateError::new("update_release_layout_invalid", concat("更新包文件路径无效：", release_relative)),
            );
        },
    };
    proof {
        let cs = path_components(release_relative@);
        lemma_component_texts(release_relative@);
        lemma_safe_relative_plain(release_relative@);
        if cs[0] is Normal && eq_ignore_case(text_of(cs[0]), "bin"@) {
            let rest = cs.drop_first().map_values(|c: Component| os_text(c));
            assert forall|k: int| 0 <= k < rest.len() implies clean_text(#[trigger] rest[k]) by {
                assert(crate::winpath::is_normal(cs[k + 1]));
                assert(rest[k] == os_text(cs[k + 1]));
            }
            lemma_collected_head(rest);
        }
    }
    let target = join_path(install_root, relative.as_str());
    if !path_inside(install_root, target.as_str()) {
        return Err(
            UpdateError::new("update_release_layout_invalid", concat("更新包文件路径越过安装目录：", release_relative)),
        );
    }
    Ok((relative, target))
}

/// The error after a failed replacement: unchanged when the rollback worked, otherwise
/// combined with the rollback failure.
pub fn rollback_after_failure(error: UpdateError, rollback: Result<(), UpdateError>) -> (r:
    UpdateError)
    ensures
        rollback is Ok ==> r@ == error@,
        rollback matches Err(re) ==> r@ == err_view(
            "update_install_rollback_failed"@,
            error@.message + "；并且恢复旧文件失败："@ + re@.message,
        ),
{
    match rollback {
        Ok(()) => error,
        Err(rollback_error) => {
            let mut message = String::from_str(error.message());
            message.append("；并且恢复旧文件失败：");
            message.append(rollback_error.message());
            UpdateError::new("update_install_rollback_failed", message)
        },
    }
}

/// The layout of a staged release under the extraction directory (files not yet listed).
pub fn staged_release_layout(staging_root: &str) -> (r: StagedRelease)
    ensures
        r.root@ == joined(staging_root@, RELEASE_ROOT_NAME@),
        r.executable@ == joined(r.root@, RELEASE_EXECUTABLE_PATH@),
        r.version_file@ == joined(r.root@, RELEASE_VERSION_PATH@),
        r.files@.len() == 0,
{
    proof {
        reveal_strlit("Agent-notify");
        reveal_strlit("bin/agentnotify-desktop.exe");
        reveal_strlit("VERSION");
    }
    let root = join_path(staging_root, RELEASE_ROOT_NAME);
    let executable = join_path(root.as_str(), RELEASE_EXECUTABLE_PATH);
    let version_file = join_path(root.as_str(), RELEASE_VERSION_PATH);
    StagedRelease { root, executable, version_file, files: Vec::new() }
}

pub open spec fn root_missing_view() -> ErrorView {
    err_view("update_release_layout_invalid"@, "更新包缺少 Agent-notify 根目录"@)
}

pub open spec fn file_missing_view(path: Seq<char>) -> ErrorView {
    err_view("update_release_layout_invalid"@, "更新包缺少文件："@ + path)
}

/// The layout of a staged release must be there: the release root directory, then the
/// main program, then the version file; the first one missing is reported.
pub fn check_staged_layout(
    layout: &StagedRelease,
    root_is_dir: bool,
    executable_is_file: bool,
    version_file_is_file: bool,
) -> (r: Result<(), UpdateError>)
    ensures
        !root_is_dir ==> (r matches Err(e) && e@ == root_missing_view()),
        root_is_dir && !executable_is_file ==> (r matches Err(e) && e@ == file_missing_view(
            layout.executable@,
        )),
        root_is_dir && executable_is_file && !version_file_is_file ==> (r matches Err(e) && e@
            == file_missing_view(layout.version_file@)),
        root_is_dir && executable_is_file && version_file_is_file ==> r is Ok,
{
    if !root_is_dir {
        return Err(UpdateError::new("update_release_layout_invalid", String::from_str("更新包缺少 Agent-notify 根目录")));
    }
    if !executable_is_file {
        return Err(UpdateError::new("update_release_layout_invalid", concat("更新包缺少文件：", layout.executable.as_str())));
    }
    if !version_file_is_file {
        return Err(UpdateError::new("update_release_layout_invalid", concat("更新包缺少文件：", layout.version_file.as_str())));
    }
    Ok(())
}

/// The files recorded for a staged release: the manifest's declared paths.
pub open spec fn declared_paths(files: Seq<ManifestFile>) -> Seq<Seq<char>> {
    files.map_values(|f: ManifestFile| f.path@)
}

/// Records on the staged release the files that the manifest check settled on: the
/// manifest's declared paths, or for a legacy package every regular file of `listing`
/// (what is below the release root), sorted as paths; a link or special file there refuses
/// the release.
pub fn validate_staged_release_with_manifest(
    staged: StagedRelease,
    verified: VerifiedReleaseManifest,
    listing: &Vec<ListedEntry>,
) -> (r: Result<StagedRelease, UpdateError>)
    ensures
        r matches Ok(s) ==> s.root@ == staged.root@ && s.executable@ == staged.executable@
            && s.version_file@ == staged.version_file@,
        match verified {
            VerifiedReleaseManifest::Signed { files } => r matches Ok(s) && strings_view(s.files@)
                == declared_paths(files@),
            VerifiedReleaseManifest::Legacy => if has_special(listing@) {
                r matches Err(e) && e@ == special_file_view()
            } else {
                r matches Ok(s) && release_files_shown(listed_files(listing@), texts(s.files@))
            },
        },
{
    let files = match verified {
        VerifiedReleaseManifest::Legacy => {
            let found = collect_release_files(listing)?;
            proof {
                assert(texts(found@) == strings_view(found@));
            }
            found
        },
        VerifiedReleaseManifest::Signed { files } => {
            let mut out: Vec<String> = Vec::new();
            let mut i: usize = 0;
            while i < files.len()
                invariant
                    i <= files.len(),
                    strings_view(out@) == files@.subrange(0, i as int).map_values(
                        |f: ManifestFile| f.path@,
                    ),
                decreases files.len() - i,
            {
                let ghost before = out@;
                out.push(files[i].path.clone());
                proof {
                    assert(strings_view(out@) =~= strings_view(before).push(files@[i as int].path@));
                    assert(files@.subrange(0, i as int + 1).map_values(|f: ManifestFile| f.path@)
                        =~= files@.subrange(0, i as int).map_values(|f: ManifestFile| f.path@).push(
                        files@[i as int].path@,
                    ));
                }
                i = i + 1;
            }
            proof {
                assert(files@.subrange(0, files@.len() as int) == files@);
            }
            out
        },
    };
    Ok(StagedRelease {
        root: staged.root,
        executable: staged.executable,
        version_file: staged.version_file,
        files,
    })
}

/// Asks the application to exit on its own after the installer started. It returns at
/// once; the exit itself happens later, so that the answer reaches the interface first.
pub trait AppExitRequester {
    fn request_exit(&self);
}

/// Starts the installer as a child process of the system.
#[derive(Clone, Copy, Debug, Default)]
pub struct SystemInstallerLauncher;

// ---------------------------------------------------------------- replacing installed files
pub open spec fn install_dir_missing_view(root: Seq<char>) -> ErrorView {
    err_view("update_install_dir_missing"@, "安装目录不可用："@ + root)
}

pub open spec fn nothing_to_install_view() -> ErrorView {
    err_view("update_release_layout_invalid"@, "更新包没有可安装的文件。"@)
}

/// Before any file is replaced: the install directory must exist and the release must
/// list at least one file.
pub fn apply_preconditions(install_root: &str, install_root_is_dir: bool, file_count: usize) -> (r: Result<
    (),
    UpdateError,
>)
    ensures
        !install_root_is_dir ==> (r matches Err(e) && e@ == install_dir_missing_view(install_root@)),
        install_root_is_dir && file_count == 0 ==> (r matches Err(e) && e@ == nothing_to_install_view()),
        install_root_is_dir && file_count > 0 ==> r is Ok,
{
    if !install_root_is_dir {
        return Err(UpdateError::new("update_install_dir_missing", concat("安装目录不可用：", install_root)));
    }
    if file_count == 0 {
        return Err(UpdateError::new("update_release_layout_invalid", String::from_str("更新包没有可安装的文件。")));
    }
    Ok(())
}

/// One change made while replacing files, kept so that it can be undone.
#[derive(Debug)]
pub enum AppliedAction {
    /// A file was written at this install-relative path.
    Created(String),
    /// The old file at this path was moved to the backup directory.
    BackedUp(String),
}

/// The observable content of a change: whether it was a backup, and its path.
pub open spec fn action_view(a: AppliedAction) -> (bool, Seq<char>) {
    match a {
        AppliedAction::Created(p) => (false, p@),
        AppliedAction::BackedUp(p) => (true, p@),
    }
}

pub open spec fn actions_view(actions: Seq<AppliedAction>) -> Seq<(bool, Seq<char>)> {
    actions.map_values(|a: AppliedAction| action_view(a))
}

// ---------------------------------------------------------------- replacing and undoing, as a model
/// The files of the install directory and of the backup directory, by install-relative path.
pub type DirsModel = (Map<Seq<char>, Seq<u8>>, Map<Seq<char>, Seq<u8>>);

/// What replacing one file does: an existing file is moved to the backup directory, then
/// the new contents are written at its path.
pub open spec fn replace_file(s: DirsModel, path: Seq<char>, contents: Seq<u8>) -> DirsModel {
    if s.0.dom().contains(path) {
        (s.0.insert(path, contents), s.1.insert(path, s.0[path]))
    } else {
        (s.0.insert(path, contents), s.1)
    }
}

/// The changes `record_applied_file` records for one file, given the install directory
/// before it (`backed_up` is whether a file was there).
pub open spec fn recorded_changes(files: Map<Seq<char>, Seq<u8>>, path: Seq<char>) -> Seq<(bool, Seq<char>)> {
    if files.dom().contains(path) {
        seq![(true, path), (false, path)]
    } else {
        seq![(false, path)]
    }
}

/// Replacing the release's files one after the other: the directories afterwards and the
/// changes recorded on the way.
pub open spec fn replace_files(s: DirsModel, staged: Seq<(Seq<char>, Seq<u8>)>) -> (DirsModel, Seq<(bool, Seq<char>)>)
    decreases staged.len(),
{
    if staged.len() == 0 {
        (s, Seq::empty())
    } else {
        let before = replace_files(s, staged.drop_last());
        let (path, contents) = staged.last();
        (replace_file(before.0, path, contents), before.1 + recorded_changes(before.0.0, path))
    }
}

/// What undoing one change does: a written file is removed; a backed-up file is moved back
/// from the backup directory over whatever is at its path.
pub open spec fn undo_change(s: DirsModel, change: (bool, Seq<char>)) -> DirsModel {
    let path = change.1;
    if change.0 && s.1.dom().contains(path) {
        (s.0.insert(path, s.1[path]), s.1.remove(path))
    } else {
        (s.0.remove(path), s.1)
    }
}

/// Undoing the changes in the order given, the first one first.
pub open spec fn undo_changes(s: DirsModel, changes: Seq<(bool, Seq<char>)>) -> DirsModel
    decreases changes.len(),
{
    if changes.len() == 0 {
        s
    } else {
        undo_changes(undo_change(s, changes[0]), changes.drop_first())
    }
}

pub open spec fn distinct_paths(staged: Seq<(Seq<char>, Seq<u8>)>) -> bool {
    forall|i: int, j: int| 0 <= i < j < staged.len() ==> #[trigger] staged[i].0 != #[trigger] staged[j].0
}

proof fn lemma_undo_concat(s: DirsModel, x: Seq<(bool, Seq<char>)>, y: Seq<(bool, Seq<char>)>)
    ensures
        undo_changes(s, x + y) == undo_changes(undo_changes(s, x), y),
    decreases x.len(),
{
    if x.len() == 0 {
        assert(x + y =~= y);
    } else {
        assert((x + y).drop_first() =~= x.drop_first() + y);
        assert((x + y)[0] == x[0]);
        lemma_undo_concat(undo_change(s, x[0]), x.drop_first(), y);
    }
}

proof fn lemma_replace_keeps_others(s: DirsModel, staged: Seq<(Seq<char>, Seq<u8>)>, q: Seq<char>)
    requires
        forall|i: int| 0 <= i < staged.len() ==> #[trigger] staged[i].0 != q,
    ensures
        replace_files(s, staged).0.0.dom().contains(q) == s.0.dom().contains(q),
        s.0.dom().contains(q) ==> replace_files(s, staged).0.0[q] == s.0[q],
        replace_files(s, staged).0.1.dom().contains(q) == s.1.dom().contains(q),
    decreases staged.len(),
{
    if staged.len() > 0 {
        let rest = staged.drop_last();
        assert forall|i: int| 0 <= i < rest.len() implies #[trigger] rest[i].0 != q by {
            assert(rest[i] == staged[i]);
        }
        lemma_replace_keeps_others(s, rest, q);
        assert(staged.last() == staged[staged.len() - 1]);
    }
}

/// Undoing the recorded changes, the last one first (as `rollback_order` orders them),
/// after any number of files of a release were replaced, gives back both directories as
/// they were before: the release's paths are distinct and none of them is in the backup
/// directory at the start.
pub proof fn lemma_rollback_restores(
    files: Map<Seq<char>, Seq<u8>>,
    backup: Map<Seq<char>, Seq<u8>>,
    staged: Seq<(Seq<char>, Seq<u8>)>,
)
    requires
        distinct_paths(staged),
        forall|i: int| 0 <= i < staged.len() ==> !backup.dom().contains(#[trigger] staged[i].0),
    ensures
        undo_changes(replace_files((files, backup), staged).0, replace_files((files, backup), staged).1.reverse())
            == (files, backup),
    decreases staged.len(),
{
    if staged.len() > 0 {
        let rest = staged.drop_last();
        let (path, contents) = staged.last();
        assert(staged.last() == staged[staged.len() - 1]);
        assert forall|i: int, j: int| 0 <= i < j < rest.len() implies #[trigger] rest[i].0 != #[trigger] rest[j].0 by {
            assert(rest[i] == staged[i] && rest[j] == staged[j]);
        }
        assert forall|i: int| 0 <= i < rest.len() implies !backup.dom().contains(#[trigger] rest[i].0) by {
            assert(rest[i] == staged[i]);
        }
        lemma_rollback_restores(files, backup, rest);
        assert forall|i: int| 0 <= i < rest.len() implies #[trigger] rest[i].0 != path by {
            assert(rest[i] == staged[i]);
        }
        lemma_replace_keeps_others((files, backup), rest, path);
        let before = replace_files((files, backup), rest);
        let t = before.0;
        let step = recorded_changes(t.0, path);
        let after = replace_file(t, path, contents);
        assert(!t.1.dom().contains(path));
        assert((before.1 + step).reverse() =~= step.reverse() + before.1.reverse());
        lemma_undo_concat(after, step.reverse(), before.1.reverse());
        if t.0.dom().contains(path) {
            let r = step.reverse();
            assert(r =~= seq![(false, path), (true, path)]);
            let u1 = undo_change(after, r[0]);
            assert(r.drop_first() =~= seq![(true, path)]);
            let u2 = undo_change(u1, r.drop_first()[0]);
            assert(r.drop_first().drop_first() =~= Seq::<(bool, Seq<char>)>::empty());
            assert(undo_changes(u2, r.drop_first().drop_first()) == u2);
            assert(undo_changes(u1, r.drop_first()) == u2);
            assert(u2.0 =~= t.0);
            assert(u2.1 =~= t.1);
        } else {
            let r = step.reverse();
            assert(r =~= seq![(false, path)]);
            let u1 = undo_change(after, r[0]);
            assert(r.drop_first() =~= Seq::<(bool, Seq<char>)>::empty());
            assert(undo_changes(u1, r.drop_first()) == u1);
            assert(u1.0 =~= t.0);
            assert(u1.1 =~= t.1);
        }
    }
}

/// A file whose write failed: an existing file was moved to the backup directory first
/// (recorded), then the write left `left` at the path (nothing, or partial contents).
pub open spec fn failed_write(s: DirsModel, path: Seq<char>, left: Option<Seq<u8>>) -> (DirsModel, Seq<(bool, Seq<char>)>) {
    let files = match left {
        Some(c) => s.0.insert(path, c),
        None => s.0.remove(path),
    };
    if s.0.dom().contains(path) {
        ((files, s.1.insert(path, s.0[path])), seq![(true, path)])
    } else {
        ((files, s.1), Seq::empty())
    }
}

/// When the write of one more file fails after any number of files were replaced, undoing
/// the recorded changes, the last one first, gives back both directories as they were:
/// the paths are distinct, none is in the backup directory at the start, and a failed
/// write over a path where no file was before left nothing behind (no change is recorded
/// for such a write, so partial contents there stay).
pub proof fn lemma_rollback_after_failed_write(
    files: Map<Seq<char>, Seq<u8>>,
    backup: Map<Seq<char>, Seq<u8>>,
    staged: Seq<(Seq<char>, Seq<u8>)>,
    path: Seq<char>,
    left: Option<Seq<u8>>,
)
    requires
        distinct_paths(staged),
        forall|i: int| 0 <= i < staged.len() ==> !backup.dom().contains(#[trigger] staged[i].0),
        forall|i: int| 0 <= i < staged.len() ==> #[trigger] staged[i].0 != path,
        !backup.dom().contains(path),
        !files.dom().contains(path) ==> left is None,
    ensures
        ({
            let before = replace_files((files, backup), staged);
            let failed = failed_write(before.0, path, left);
            undo_changes(failed.0, (before.1 + failed.1).reverse()) == (files, backup)
        }),
{
    let before = replace_files((files, backup), staged);
    let t = before.0;
    let failed = failed_write(t, path, left);
    lemma_rollback_restores(files, backup, staged);
    lemma_replace_keeps_others((files, backup), staged, path);
    assert((before.1 + failed.1).reverse() =~= failed.1.reverse() + before.1.reverse());
    lemma_undo_concat(failed.0, failed.1.reverse(), before.1.reverse());
    let r = failed.1.reverse();
    if t.0.dom().contains(path) {
        assert(r =~= seq![(true, path)]);
        let u1 = undo_change(failed.0, r[0]);
        assert(r.drop_first() =~= Seq::<(bool, Seq<char>)>::empty());
        assert(undo_changes(u1, r.drop_first()) == u1);
        assert(u1.0 =~= t.0);
        assert(u1.1 =~= t.1);
    } else {
        assert(r =~= Seq::<(bool, Seq<char>)>::empty());
        assert(failed.0.0 =~= t.0);
        assert(undo_changes(failed.0, r) == failed.0);
    }
}

/// The changes recorded for one file: its backup when a file was there, then its write
/// when the write succeeded.
pub open spec fn file_changes(path: Seq<char>, backed_up: bool, written: bool) -> Seq<(bool, Seq<char>)> {
    (if backed_up {
        seq![(true, path)]
    } else {
        Seq::empty()
    }) + (if written {
        seq![(false, path)]
    } else {
        Seq::empty()
    })
}

/// The directories after one file's step: replaced, or (the write failed) as `failed_write`
/// leaves them.
pub open spec fn after_file_step(
    before: DirsModel,
    path: Seq<char>,
    written: bool,
    contents: Seq<u8>,
    left: Option<Seq<u8>>,
) -> DirsModel {
    if written {
        replace_file(before, path, contents)
    } else {
        failed_write(before, path, left).0
    }
}

/// One file's step keeps "undoing everything recorded gives back the start": from the
/// directories after the step, undoing the changes recorded after it (last first) gives
/// what undoing the changes recorded before it gives from the directories before it.
/// `backed_up` is whether a file was at the path, the path is not in the backup directory
/// yet, and a failed write over a path where no file was left nothing behind.
pub open spec fn step_undone(
    before: DirsModel,
    path: Seq<char>,
    backed_up: bool,
    written: bool,
    contents: Seq<u8>,
    left: Option<Seq<u8>>,
    changes_before: Seq<(bool, Seq<char>)>,
    changes_after: Seq<(bool, Seq<char>)>,
) -> bool {
    (backed_up == before.0.dom().contains(path) && !before.1.dom().contains(path) && (!written && !backed_up
        ==> left is None)) ==> undo_changes(after_file_step(before, path, written, contents, left), changes_after.reverse())
        == undo_changes(before, changes_before.reverse())
}

proof fn lemma_file_step_undone(
    before: DirsModel,
    path: Seq<char>,
    backed_up: bool,
    written: bool,
    contents: Seq<u8>,
    left: Option<Seq<u8>>,
)
    requires
        backed_up == before.0.dom().contains(path),
        !before.1.dom().contains(path),
        !written && !backed_up ==> left is None,
    ensures
        undo_changes(after_file_step(before, path, written, contents, left), file_changes(path, backed_up, written).reverse())
            == before,
{
    let after = after_file_step(before, path, written, contents, left);
    let r = file_changes(path, backed_up, written).reverse();
    let empty = Seq::<(bool, Seq<char>)>::empty();
    if backed_up && written {
        assert(r =~= seq![(false, path), (true, path)]);
        let u1 = undo_change(after, r[0]);
        assert(r.drop_first() =~= seq![(true, path)]);
        let u2 = undo_change(u1, r.drop_first()[0]);
        assert(r.drop_first().drop_first() =~= empty);
        assert(undo_changes(u2, r.drop_first().drop_first()) == u2);
        assert(undo_changes(u1, r.drop_first()) == u2);
        assert(u2.0 =~= before.0);
        assert(u2.1 =~= before.1);
    } else if backed_up {
        assert(r =~= seq![(true, path)]);
        let u1 = undo_change(after, r[0]);
        assert(r.drop_first() =~= empty);
        assert(undo_changes(u1, r.drop_first()) == u1);
        assert(u1.0 =~= before.0);
        assert(u1.1 =~= before.1);
    } else if written {
        assert(r =~= seq![(false, path)]);
        let u1 = undo_change(after, r[0]);
        assert(r.drop_first() =~= empty);
        assert(undo_changes(u1, r.drop_first()) == u1);
        assert(u1.0 =~= before.0);
        assert(u1.1 =~= before.1);
    } else {
        assert(r =~= empty);
        assert(after.0 =~= before.0);
        assert(after.1 =~= before.1);
    }
}

proof fn lemma_step_keeps_undo(
    old_changes: Seq<(bool, Seq<char>)>,
    path: Seq<char>,
    backed_up: bool,
    written: bool,
)
    ensures
        forall|before: DirsModel, contents: Seq<u8>, left: Option<Seq<u8>>| #[trigger]
            step_undone(
                before,
                path,
                backed_up,
                written,
                contents,
                left,
                old_changes,
                old_changes + file_changes(path, backed_up, written),
            ),
{
    assert forall|before: DirsModel, contents: Seq<u8>, left: Option<Seq<u8>>| #[trigger]
        step_undone(
            before,
            path,
            backed_up,
            written,
            contents,
            left,
            old_changes,
            old_changes + file_changes(path, backed_up, written),
        ) by {
        if backed_up == before.0.dom().contains(path) && !before.1.dom().contains(path) && (!written && !backed_up
            ==> left is None) {
            let fc = file_changes(path, backed_up, written);
            let after = after_file_step(before, path, written, contents, left);
            assert((old_changes + fc).reverse() =~= fc.reverse() + old_changes.reverse());
            lemma_undo_concat(after, fc.reverse(), old_changes.reverse());
            lemma_file_step_undone(before, path, backed_up, written, contents, left);
        }
    }
}

/// Records the changes for one replaced file: the backup of an existing file first, then
/// the write. Undoing all recorded changes still gives back the directories as they were
/// before the first file (`step_undone`).
pub fn record_applied_file(actions: &mut Vec<AppliedAction>, relative: &str, backed_up: bool)
    ensures
        actions_view(final(actions)@) == if backed_up {
            actions_view(old(actions)@).push((true, relative@)).push((false, relative@))
        } else {
            actions_view(old(actions)@).push((false, relative@))
        },
        actions_view(final(actions)@) == actions_view(old(actions)@) + file_changes(relative@, backed_up, true),
        forall|before: DirsModel, contents: Seq<u8>, left: Option<Seq<u8>>| #[trigger]
            step_undone(
                before,
                relative@,
                backed_up,
                true,
                contents,
                left,
                actions_view(old(actions)@),
                actions_view(final(actions)@),
            ),
{
    let ghost start = actions_view(actions@);
    if backed_up {
        actions.push(AppliedAction::BackedUp(String::from_str(relative)));
        proof {
            assert(actions_view(actions@) =~= start.push((true, relative@)));
        }
    }
    let ghost mid = actions_view(actions@);
    actions.push(AppliedAction::Created(String::from_str(relative)));
    proof {
        assert(actions_view(actions@) =~= mid.push((false, relative@)));
        assert(actions_view(actions@) =~= start + file_changes(relative@, backed_up, true));
        lemma_step_keeps_undo(start, relative@, backed_up, true);
    }
}

/// Records the changes for a file whose write failed: only its backup, when a file was
/// there. Undoing all recorded changes still gives back the directories as they were
/// before the first file (`step_undone`).
pub fn record_failed_write(actions: &mut Vec<AppliedAction>, relative: &str, backed_up: bool)
    ensures
        actions_view(final(actions)@) == actions_view(old(actions)@) + file_changes(relative@, backed_up, false),
        forall|before: DirsModel, contents: Seq<u8>, left: Option<Seq<u8>>| #[trigger]
            step_undone(
                before,
                relative@,
                backed_up,
                false,
                contents,
                left,
                actions_view(old(actions)@),
                actions_view(final(actions)@),
            ),
{
    let ghost start = actions_view(actions@);
    if backed_up {
        actions.push(AppliedAction::BackedUp(String::from_str(relative)));
        proof {
            assert(actions_view(actions@) =~= start + file_changes(relative@, backed_up, false));
        }
    } else {
        proof {
            assert(actions_view(actions@) =~= start + file_changes(relative@, backed_up, false));
        }
    }
    proof {
        lemma_step_keeps_undo(start, relative@, backed_up, false);
    }
}

/// The order in which changes are undone after a failure: the last change first.
pub fn rollback_order(actions: &Vec<AppliedAction>) -> (r: Vec<AppliedAction>)
    ensures
        actions_view(r@) == actions_view(actions@).reverse(),
{
    let mut out: Vec<AppliedAction> = Vec::new();
    let mut i: usize = actions.len();
    while i > 0
        invariant
            i <= actions.len(),
            actions_view(out@) == actions_view(actions@).subrange(i as int, actions@.len() as int).reverse(),
        decreases i,
    {
        i = i - 1;
        let copy = match &actions[i] {
            AppliedAction::Created(p) => AppliedAction::Created(p.clone()),
            AppliedAction::BackedUp(p) => AppliedAction::BackedUp(p.clone()),
        };
        let ghost before = actions_view(out@);
        out.push(copy);
        proof {
            assert(action_view(copy) == actions_view(actions@)[i as int]);
            assert(actions_view(out@) =~= before.push(action_view(copy)));
            assert(actions_view(actions@).subrange(i as int, actions@.len() as int).reverse() =~= actions_view(
                actions@,
            ).subrange(i + 1, actions@.len() as int).reverse().push(actions_view(actions@)[i as int]));
        }
    }
    proof {
        assert(actions_view(actions@).subrange(0, actions@.len() as int) =~= actions_view(actions@));
    }
    out
}

/// While undoing changes, the first failure is the one reported.
pub fn keep_first_error(first: Option<UpdateError>, next: Option<UpdateError>) -> (r: Option<UpdateError>)
    ensures
        first is Some ==> r == first,
        first is None ==> r == next,
{
    match first {
        Some(e) => Some(e),
        None => next,
    }
}

pub open spec fn step_failure_view(code: Seq<char>, action: Seq<char>, target: Seq<char>, detail: Seq<char>) -> ErrorView {
    err_view(code, action + "（"@ + target + "）："@ + detail)
}

fn step_failure(code: &'static str, action: &str, target: &str, detail: &str) -> (r: UpdateError)
    ensures
        r@ == step_failure_view(code@, action@, target@, detail@),
{
    let mut message = String::from_str(action);
    message.append("（");
    message.append(target);
    message.append("）：");
    message.append(detail);
    UpdateError::new(code, message)
}

/// Moving the old file to the backup directory failed.
pub fn backup_failed_error(target: &str, detail: &str) -> (r: UpdateError)
    ensures
        r@ == step_failure_view("update_install_failed"@, "备份旧文件失败"@, target@, detail@),
{
    step_failure("update_install_failed", "备份旧文件失败", target, detail)
}

/// Writing the new file failed.
pub fn write_failed_error(target: &str, detail: &str) -> (r: UpdateError)
    ensures
        r@ == step_failure_view("update_install_failed"@, "写入更新文件失败"@, target@, detail@),
{
    step_failure("update_install_failed", "写入更新文件失败", target, detail)
}

/// Undoing a write failed: the new file could not be removed.
pub fn rollback_delete_error(target: &str, detail: &str) -> (r: UpdateError)
    ensures
        r@ == step_failure_view("update_install_rollback_failed"@, "删除更新文件失败"@, target@, detail@),
{
    step_failure("update_install_rollback_failed", "删除更新文件失败", target, detail)
}

/// Undoing a backup failed: the old file could not be moved back.
pub fn rollback_restore_error(target: &str, detail: &str) -> (r: UpdateError)
    ensures
        r@ == step_failure_view("update_install_rollback_failed"@, "恢复旧文件失败"@, target@, detail@),
{
    step_failure("update_install_rollback_failed", "恢复旧文件失败", target, detail)
}

} // verus!
