//! Verification of a downloaded package: SHA-256, PE layout, file version and Authenticode policy.
use sha2::Digest;
use vstd::prelude::*;

use super::error::{ErrorView, UpdateError};
use crate::text::{
    char_from_ascii, char_is_ws, chars_eq, chars_eq_ignore_case, chars_of, concat3, decimal,
    decimal_string, digit_char, eq_ignore_case, first_piece, is_hex, is_ws, lower, parse_uint,
    parse_uint_vec, push_char, split, split_vec, string_of_all, trim, trimmed, upper, upper_vec,
    lower_vec, vec_all_hex,
};

verus! {

/// Default trusted signer thumbprint: only packages signed by this certificate are accepted.
pub const DEFAULT_SIGNATURE_THUMBPRINT: &'static str = "EDF9E283DF2407B318E65D59BB430FD546509ACD";

/// Signature policy of a package. The stable channel uses `Required`; preview may use `Optional`.
#[derive(Clone, Copy, Debug, Eq, PartialEq, Structural)]
pub enum SignatureRequirement {
    Required,
    Optional,
}

/// Authenticode outcome, aligned with the states of `Get-AuthenticodeSignature`.
#[derive(Clone, Copy, Debug, Eq, PartialEq, Structural)]
pub enum SignatureStatus {
    Valid,
    NotSigned,
    HashMismatch,
    NotTrusted,
    UnknownError,
}

impl SignatureStatus {
    pub open spec fn spec_name(self) -> Seq<char> {
        match self {
            SignatureStatus::Valid => "Valid"@,
            SignatureStatus::NotSigned => "NotSigned"@,
            SignatureStatus::HashMismatch => "HashMismatch"@,
            SignatureStatus::NotTrusted => "NotTrusted"@,
            SignatureStatus::UnknownError => "UnknownError"@,
        }
    }

    pub fn as_str(self) -> (r: &'static str)
        ensures
            r@ == self.spec_name(),
    {
        match self {
            SignatureStatus::Valid => "Valid",
            SignatureStatus::NotSigned => "NotSigned",
            SignatureStatus::HashMismatch => "HashMismatch",
            SignatureStatus::NotTrusted => "NotTrusted",
            SignatureStatus::UnknownError => "UnknownError",
        }
    }
}

/// A failed package check. The code is stable; the message can be shown to the user.
#[derive(Clone, Debug, Eq, PartialEq)]
pub struct UpdateVerificationError {
    code: &'static str,
    message: String,
}

impl View for UpdateVerificationError {
    type V = ErrorView;

    closed spec fn view(&self) -> ErrorView {
        ErrorView { code: self.code@, message: self.message@ }
    }
}

impl UpdateVerificationError {
    fn new(code: &'static str, message: String) -> (r: Self)
        ensures
            r@ == (ErrorView { code: code@, message: message@ }),
    {
        UpdateVerificationError { code, message }
    }

    pub fn code(&self) -> (r: &'static str)
        ensures
            r@ == self@.code,
    {
        self.code
    }

    pub fn message(&self) -> (r: &str)
        ensures
            r@ == self@.message,
    {
        self.message.as_str()
    }
}

/// The update error that carries the code and message of a verification error.
pub fn update_error_from(error: &UpdateVerificationError) -> (r: UpdateError)
    ensures
        r@ == error@,
{
    UpdateError::new(error.code(), String::from_str(error.message()))
}

pub open spec fn verr(code: Seq<char>, message: Seq<char>) -> ErrorView {
    ErrorView { code, message }
}

/// What a successful check found.
#[derive(Clone, Debug, Eq, PartialEq)]
pub struct VerifiedUpdate {
    pub sha256: String,
    pub version: Option<String>,
    pub signed: bool,
}

// ---------------------------------------------------------------- thumbprints
/// The characters that `normalize_thumbprint` keeps: neither whitespace nor `:`.
pub open spec fn thumbprint_chars(s: Seq<char>) -> Seq<char>
    decreases s.len(),
{
    if s.len() == 0 {
        Seq::<char>::empty()
    } else if is_ws(s.last()) || s.last() == ':' {
        thumbprint_chars(s.drop_last())
    } else {
        thumbprint_chars(s.drop_last()).push(s.last())
    }
}

/// A thumbprint without whitespace and colons, in upper case.
pub open spec fn normalized_thumbprint(s: Seq<char>) -> Seq<char> {
    upper(thumbprint_chars(s))
}

/// Normalizes a thumbprint: drops whitespace and colons and upper-cases ASCII letters.
pub fn normalize_thumbprint(value: &str) -> (r: String)
    ensures
        r@ == normalized_thumbprint(value@),
{
    let v = chars_of(value);
    let mut kept: Vec<char> = Vec::new();
    let mut i: usize = 0;
    while i < v.len()
        invariant
            i <= v.len(),
            kept@ == thumbprint_chars(v@.subrange(0, i as int)),
        decreases v.len() - i,
    {
        let c = v[i];
        proof {
            assert(v@.subrange(0, i + 1).drop_last() == v@.subrange(0, i as int));
        }
        if !char_is_ws(c) && c != ':' {
            kept.push(c);
        }
        i = i + 1;
    }
    proof {
        assert(v@.subrange(0, v@.len() as int) == v@);
    }
    let up = upper_vec(&kept);
    string_of_all(&up)
}

/// The pinned thumbprints that take part in a decision: normalized, blanks dropped.
pub open spec fn pinned_set(pinned: Seq<Seq<char>>) -> Seq<Seq<char>>
    decreases pinned.len(),
{
    if pinned.len() == 0 {
        Seq::<Seq<char>>::empty()
    } else {
        let rest = pinned_set(pinned.drop_last());
        let n = normalized_thumbprint(pinned.last());
        if n.len() == 0 {
            rest
        } else {
            rest.push(n)
        }
    }
}

/// Statuses that still carry a signature that was not tampered with.
pub open spec fn acceptable_when_pinned_spec(status: SignatureStatus) -> bool {
    status == SignatureStatus::Valid || status == SignatureStatus::UnknownError || status
        == SignatureStatus::NotTrusted
}

fn acceptable_when_pinned(status: SignatureStatus) -> (r: bool)
    ensures
        r == acceptable_when_pinned_spec(status),
{
    match status {
        SignatureStatus::Valid | SignatureStatus::UnknownError | SignatureStatus::NotTrusted => true,
        _ => false,
    }
}

pub open spec fn displayed_thumbprint(value: Seq<char>) -> Seq<char> {
    if normalized_thumbprint(value).len() == 0 {
        "无签名者"@
    } else {
        normalized_thumbprint(value)
    }
}

fn display_thumbprint(value: &str) -> (r: String)
    ensures
        r@ == displayed_thumbprint(value@),
{
    let normalized = normalize_thumbprint(value);
    if normalized.as_str().is_empty() {
        String::from_str("无签名者")
    } else {
        normalized
    }
}

pub open spec fn signature_missing_view() -> ErrorView {
    verr("update_signature_missing"@, "更新包未签名，已按正式通道策略拒绝安装。"@)
}

/// The signature rule: with a pinned list on the stable channel the thumbprint is the trust
/// anchor; otherwise a valid signature passes, a broken one never does, and a missing one
/// passes only when the signature is optional.
pub open spec fn signature_decision(
    status: SignatureStatus,
    thumbprint: Seq<char>,
    requirement: SignatureRequirement,
    pinned: Seq<Seq<char>>,
) -> Result<bool, ErrorView> {
    let set = pinned_set(pinned);
    if requirement == SignatureRequirement::Required && set.len() > 0 {
        if !acceptable_when_pinned_spec(status) {
            if status == SignatureStatus::NotSigned {
                Err(signature_missing_view())
            } else {
                Err(
                    verr(
                        "update_signature_abnormal"@,
                        "更新包签名状态异常（"@ + status.spec_name() + "），拒绝安装。"@,
                    ),
                )
            }
        } else {
            let actual = normalized_thumbprint(thumbprint);
            if actual.len() == 0 || !set.contains(actual) {
                Err(
                    verr(
                        "update_signature_untrusted"@,
                        "更新包签名者不匹配：实际 "@ + displayed_thumbprint(thumbprint)
                            + "，不在信任列表中，拒绝安装。"@,
                    ),
                )
            } else {
                Ok(true)
            }
        }
    } else {
        match status {
            SignatureStatus::Valid => Ok(true),
            SignatureStatus::HashMismatch | SignatureStatus::NotTrusted => Err(
                verr(
                    "update_signature_invalid"@,
                    "更新包签名无效（"@ + status.spec_name() + "），拒绝安装。"@,
                ),
            ),
            _ => if requirement == SignatureRequirement::Required {
                Err(signature_missing_view())
            } else {
                Ok(false)
            },
        }
    }
}

pub open spec fn strings_view(v: Seq<String>) -> Seq<Seq<char>> {
    v.map_values(|s: String| s@)
}

pub(crate) fn normalized_pins(pinned: &Vec<String>) -> (r: Vec<Vec<char>>)
    ensures
        r@.len() == pinned_set(strings_view(pinned@)).len(),
        forall|k: int|
            0 <= k < r@.len() ==> (#[trigger] r@[k])@ == pinned_set(strings_view(pinned@))[k],
{
    let mut out: Vec<Vec<char>> = Vec::new();
    let mut i: usize = 0;
    while i < pinned.len()
        invariant
            i <= pinned.len(),
            out@.len() == pinned_set(strings_view(pinned@.subrange(0, i as int))).len(),
            forall|k: int|
                0 <= k < out@.len() ==> (#[trigger] out@[k])@ == pinned_set(
                    strings_view(pinned@.subrange(0, i as int)),
                )[k],
        decreases pinned.len() - i,
    {
        proof {
            assert(strings_view(pinned@.subrange(0, i + 1)).drop_last() == strings_view(
                pinned@.subrange(0, i as int),
            ));
            assert(strings_view(pinned@.subrange(0, i + 1)).last() == pinned@[i as int]@);
        }
        let n = normalize_thumbprint(pinned[i].as_str());
        let nv = chars_of(n.as_str());
        if nv.len() > 0 {
            out.push(nv);
        }
        i = i + 1;
    }
    proof {
        assert(pinned@.subrange(0, pinned@.len() as int) == pinned@);
    }
    out
}

pub(crate) fn contains_chars(set: &Vec<Vec<char>>, item: &Vec<char>) -> (r: bool)
    ensures
        r == set@.map_values(|v: Vec<char>| v@).contains(item@),
{
    let ghost views = set@.map_values(|v: Vec<char>| v@);
    let mut i: usize = 0;
    while i < set.len()
        invariant
            i <= set.len(),
            views == set@.map_values(|v: Vec<char>| v@),
            forall|k: int| 0 <= k < i ==> views[k] != item@,
        decreases set.len() - i,
    {
        if chars_eq(&set[i], item) {
            assert(views[i as int] == item@);
            return true;
        }
        i = i + 1;
    }
    false
}

fn signature_missing() -> (r: UpdateVerificationError)
    ensures
        r@ == signature_missing_view(),
{
    UpdateVerificationError::new(
        "update_signature_missing",
        String::from_str("更新包未签名，已按正式通道策略拒绝安装。"),
    )
}

/// The signature rule as a function of the Authenticode outcome and the trusted list.
pub fn signature_policy(
    status: SignatureStatus,
    thumbprint: &str,
    requirement: SignatureRequirement,
    pinned: &Vec<String>,
) -> (r: Result<bool, UpdateVerificationError>)
    ensures
        match signature_decision(status, thumbprint@, requirement, strings_view(pinned@)) {
            Ok(b) => r == Ok::<bool, UpdateVerificationError>(b),
            Err(e) => r matches Err(err) && err@ == e,
        },
{
    let set = normalized_pins(pinned);
    let ghost spec_set = pinned_set(strings_view(pinned@));
    proof {
        assert(set@.map_values(|v: Vec<char>| v@) == spec_set);
    }
    if requirement == SignatureRequirement::Required && set.len() > 0 {
        if !acceptable_when_pinned(status) {
            if status == SignatureStatus::NotSigned {
                return Err(signature_missing());
            }
            return Err(
                UpdateVerificationError::new(
                    "update_signature_abnormal",
                    concat3("更新包签名状态异常（", status.as_str(), "），拒绝安装。"),
                ),
            );
        }
        let actual = normalize_thumbprint(thumbprint);
        let actual_chars = chars_of(actual.as_str());
        if actual_chars.len() == 0 || !contains_chars(&set, &actual_chars) {
            let shown = display_thumbprint(thumbprint);
            return Err(
                UpdateVerificationError::new(
                    "update_signature_untrusted",
                    concat3("更新包签名者不匹配：实际 ", shown.as_str(), "，不在信任列表中，拒绝安装。"),
                ),
            );
        }
        return Ok(true);
    }
    match status {
        SignatureStatus::Valid => Ok(true),
        SignatureStatus::HashMismatch | SignatureStatus::NotTrusted => Err(
            UpdateVerificationError::new(
                "update_signature_invalid",
                concat3("更新包签名无效（", status.as_str(), "），拒绝安装。"),
            ),
        ),
        _ => {
            if requirement == SignatureRequirement::Required {
                Err(signature_missing())
            } else {
                Ok(false)
            }
        },
    }
}

/// The trusted thumbprints given an override value (comma or semicolon separated):
/// a non-blank override replaces the built-in thumbprint.
pub open spec fn trusted_thumbprints_spec(raw: Seq<char>) -> Seq<Seq<char>> {
    if trim(raw).len() > 0 {
        pinned_set(split(raw, seq![',', ';']))
    } else {
        pinned_set(seq![DEFAULT_SIGNATURE_THUMBPRINT@])
    }
}

/// The trusted thumbprints for an override value of `AGENT_NOTIFY_SIGNATURE_THUMBPRINT`
/// (empty when the variable is unset).
pub fn trusted_thumbprints_from(raw: &str) -> (r: Vec<String>)
    ensures
        strings_view(r@) == trusted_thumbprints_spec(raw@),
{
    let raw_chars = chars_of(raw);
    let pieces: Vec<String> = if trimmed(&raw_chars).len() > 0 {
        let seps = vec![',', ';'];
        proof {
            assert(seps@ == seq![',', ';']);
        }
        let parts = split_vec(&raw_chars, &seps);
        let mut out: Vec<String> = Vec::new();
        let mut i: usize = 0;
        while i < parts.len()
            invariant
                i <= parts.len(),
                out@.len() == i,
                forall|k: int| 0 <= k < i ==> (#[trigger] out@[k])@ == parts@[k]@,
            decreases parts.len() - i,
        {
            out.push(string_of_all(&parts[i]));
            i = i + 1;
        }
        proof {
            assert(strings_view(out@) == split(raw@, seq![',', ';']));
        }
        out
    } else {
        let mut out: Vec<String> = Vec::new();
        out.push(String::from_str(DEFAULT_SIGNATURE_THUMBPRINT));
        proof {
            assert(strings_view(out@) == seq![DEFAULT_SIGNATURE_THUMBPRINT@]);
        }
        out
    };
    let set = normalized_pins(&pieces);
    let mut result: Vec<String> = Vec::new();
    let mut j: usize = 0;
    while j < set.len()
        invariant
            j <= set.len(),
            result@.len() == j,
            forall|k: int| 0 <= k < j ==> (#[trigger] result@[k])@ == set@[k]@,
        decreases set.len() - j,
    {
        result.push(string_of_all(&set[j]));
        j = j + 1;
    }
    proof {
        assert(strings_view(result@) == pinned_set(strings_view(pieces@)));
    }
    result
}


// ---------------------------------------------------------------- SHA-256
/// The SHA-256 digest of `data`, as `sha2::Sha256` computes it.
pub uninterp spec fn sha256_digest(data: Seq<u8>) -> Seq<u8>;

/// Calls `sha2::Sha256::digest`; the hash function is not restated, its result is
/// named by `sha256_digest`, and its length is the 32 bytes of SHA-256.
#[verifier::external_body]
fn sha256_bytes(data: &[u8]) -> (r: Vec<u8>)
    ensures
        r@ == sha256_digest(data@),
        r@.len() == 32,
{
    sha2::Sha256::digest(data).to_vec()
}

pub open spec fn hex_lower_char(d: nat) -> char {
    if d < 10 {
        digit_char(d)
    } else {
        ((d - 10 + ('a' as u32)) as u32) as char
    }
}

pub open spec fn hex_upper_digit(d: nat) -> char {
    if d < 10 {
        digit_char(d)
    } else {
        ((d - 10 + ('A' as u32)) as u32) as char
    }
}

/// Lower-case hexadecimal text of bytes, two digits each (`{:x}`).
pub open spec fn hex_lower(bytes: Seq<u8>) -> Seq<char>
    decreases bytes.len(),
{
    if bytes.len() == 0 {
        Seq::<char>::empty()
    } else {
        hex_lower(bytes.drop_last()) + seq![
            hex_lower_char((bytes.last() / 16) as nat),
            hex_lower_char((bytes.last() % 16) as nat),
        ]
    }
}

/// Upper-case hexadecimal text of bytes, two digits each (`{:02X}`).
pub open spec fn hex_upper(bytes: Seq<u8>) -> Seq<char>
    decreases bytes.len(),
{
    if bytes.len() == 0 {
        Seq::<char>::empty()
    } else {
        hex_upper(bytes.drop_last()) + seq![
            hex_upper_digit((bytes.last() / 16) as nat),
            hex_upper_digit((bytes.last() % 16) as nat),
        ]
    }
}

fn hex_digit(d: u8, upper_case: bool) -> (c: char)
    requires
        d < 16,
    ensures
        upper_case ==> c == hex_upper_digit(d as nat),
        !upper_case ==> c == hex_lower_char(d as nat),
{
    if d < 10 {
        char_from_ascii((d as u32) + 48)
    } else if upper_case {
        char_from_ascii((d as u32) - 10 + 65)
    } else {
        char_from_ascii((d as u32) - 10 + 97)
    }
}

fn hex_text(bytes: &[u8], upper_case: bool) -> (r: String)
    ensures
        upper_case ==> r@ == hex_upper(bytes@),
        !upper_case ==> r@ == hex_lower(bytes@),
{
    let mut out = String::new();
    let mut i: usize = 0;
    while i < bytes.len()
        invariant
            i <= bytes@.len(),
            upper_case ==> out@ == hex_upper(bytes@.subrange(0, i as int)),
            !upper_case ==> out@ == hex_lower(bytes@.subrange(0, i as int)),
        decreases bytes@.len() - i,
    {
        let b = bytes[i];
        proof {
            assert(bytes@.subrange(0, i + 1).drop_last() == bytes@.subrange(0, i as int));
        }
        push_char(&mut out, hex_digit(b / 16, upper_case));
        push_char(&mut out, hex_digit(b % 16, upper_case));
        i = i + 1;
    }
    proof {
        assert(bytes@.subrange(0, bytes@.len() as int) == bytes@);
    }
    out
}

/// Two hexadecimal digits per byte.
pub proof fn lemma_hex_lower_len(bytes: Seq<u8>)
    ensures
        hex_lower(bytes).len() == 2 * bytes.len(),
    decreases bytes.len(),
{
    if bytes.len() > 0 {
        lemma_hex_lower_len(bytes.drop_last());
    }
}

/// Lower-case hexadecimal SHA-256 of `data`: 64 characters.
pub fn sha256_hex(data: &[u8]) -> (r: String)
    ensures
        r@ == hex_lower(sha256_digest(data@)),
        r@.len() == 64,
{
    let digest = sha256_bytes(data);
    proof {
        lemma_hex_lower_len(digest@);
    }
    hex_text(digest.as_slice(), false)
}

/// The thumbprint text of a certificate hash: upper-case hexadecimal, two digits per byte.
pub fn thumbprint_from_hash(hash: &[u8]) -> (r: String)
    ensures
        r@ == hex_upper(hash@),
{
    hex_text(hash, true)
}

/// The signer's thumbprint from the certificate's SHA-1 property: present only when the
/// property was read and is exactly 20 bytes long.
pub fn signer_thumbprint(certificate_hash: Option<&[u8]>) -> (r: Option<String>)
    ensures
        match certificate_hash {
            Some(h) => if h@.len() == 20 {
                r matches Some(t) && t@ == hex_upper(h@)
            } else {
                r is None
            },
            None => r is None,
        },
{
    match certificate_hash {
        Some(h) => {
            if h.len() == 20 {
                Some(thumbprint_from_hash(h))
            } else {
                None
            }
        },
        None => None,
    }
}

pub open spec fn hash_invalid_view() -> ErrorView {
    verr("update_hash_invalid"@, "发布清单中的 SHA-256 格式无效。"@)
}

/// The published SHA-256 in lower case; 64 hexadecimal digits after trimming.
pub open spec fn expected_sha256_spec(value: Seq<char>) -> Result<Seq<char>, ErrorView> {
    let n = lower(trim(value));
    if vstd::utf8::encode_utf8(n).len() != 64 || !crate::text::all_hex(n) {
        Err(hash_invalid_view())
    } else {
        Ok(n)
    }
}

fn normalize_expected_sha256(value: &str) -> (r: Result<String, UpdateVerificationError>)
    ensures
        match expected_sha256_spec(value@) {
            Ok(n) => r matches Ok(s) && s@ == n,
            Err(e) => r matches Err(err) && err@ == e,
        },
{
    let v = chars_of(value);
    let t = trimmed(&v);
    let l = lower_vec(&t);
    let normalized = string_of_all(&l);
    if normalized.as_str().as_bytes().len() != 64 || !vec_all_hex(&l) {
        return Err(
            UpdateVerificationError::new(
                "update_hash_invalid",
                String::from_str("发布清单中的 SHA-256 格式无效。"),
            ),
        );
    }
    Ok(normalized)
}

// ---------------------------------------------------------------- file versions
/// The numeric components of a file version: the part before `-`/`+`, split on dots,
/// each parsing as a `u32`.
pub open spec fn numeric_version_spec(value: Seq<char>) -> Option<Seq<nat>> {
    let parts = split(first_piece(value, seq!['-', '+']), seq!['.']);
    if forall|k: int| 0 <= k < parts.len() ==> #[trigger] parse_uint(parts[k], u32::MAX as nat) is Some {
        Some(parts.map_values(|p: Seq<char>| parse_uint(p, u32::MAX as nat)->0))
    } else {
        None
    }
}

/// Equal components over the shorter of two component lists.
pub open spec fn components_agree(e: Seq<nat>, a: Seq<nat>) -> bool {
    forall|k: int| 0 <= k < e.len() && k < a.len() ==> #[trigger] e[k] == a[k]
}

/// Whether a file version matches the expected one: equal ignoring ASCII case, or equal
/// numeric components over the shorter of the two.
pub open spec fn version_matches_spec(expected: Seq<char>, actual: Seq<char>) -> bool {
    if eq_ignore_case(expected, actual) {
        true
    } else {
        match numeric_version_spec(expected) {
            Some(e) => match numeric_version_spec(actual) {
                Some(a) => components_agree(e, a),
                None => false,
            },
            None => false,
        }
    }
}

/// A file version is a mismatch when its numeric components differ from the expected
/// version's at any position both have (unless the texts are equal ignoring ASCII case);
/// it matches when they agree at every such position.
pub proof fn lemma_version_match_by_components(expected: Seq<char>, actual: Seq<char>)
    requires
        numeric_version_spec(expected) is Some,
        numeric_version_spec(actual) is Some,
    ensures
        ({
            let e = numeric_version_spec(expected)->0;
            let a = numeric_version_spec(actual)->0;
            &&& forall|k: int|
                0 <= k < e.len() && k < a.len() && e[k] != a[k] && !eq_ignore_case(expected, actual)
                    ==> !#[trigger] version_matches_spec(expected, actual)
            &&& (forall|k: int| 0 <= k < e.len() && k < a.len() ==> e[k] == a[k]) ==> version_matches_spec(
                expected,
                actual,
            )
        }),
{
}

/// A package that passes the PE check and carries a file version differing from the
/// expected one in a shared numeric component is refused as a version mismatch.
pub proof fn lemma_differing_file_version_refused(
    facts: PackageFacts,
    requirement: SignatureRequirement,
    expected: Seq<char>,
    pinned: Seq<Seq<char>>,
    k: int,
)
    requires
        pe_check(facts.contents@) is Ok,
        facts.file_version matches Some(v) && !eq_ignore_case(expected, v@),
        numeric_version_spec(expected) is Some,
        numeric_version_spec(crate::update::release::opt_view(facts.file_version)->0) is Some,
        0 <= k < numeric_version_spec(expected)->0.len(),
        k < numeric_version_spec(crate::update::release::opt_view(facts.file_version)->0)->0.len(),
        numeric_version_spec(expected)->0[k] != numeric_version_spec(
            crate::update::release::opt_view(facts.file_version)->0,
        )->0[k],
    ensures
        pe_and_signature_spec(facts, requirement, Some(expected), pinned) == Err::<(Option<Seq<char>>, bool), ErrorView>(
            version_mismatch_view(expected, crate::update::release::opt_view(facts.file_version)->0),
        ),
{
    let actual = crate::update::release::opt_view(facts.file_version)->0;
    lemma_version_match_by_components(expected, actual);
    assert(!version_matches_spec(expected, actual));
}

fn numeric_version(value: &str) -> (r: Option<Vec<u64>>)
    ensures
        match numeric_version_spec(value@) {
            Some(ns) => r matches Some(v) && v@.len() == ns.len() && forall|k: int|
                0 <= k < ns.len() ==> v@[k] as nat == #[trigger] ns[k],
            None => r is None,
        },
{
    let v = chars_of(value);
    let seps = vec!['-', '+'];
    proof {
        assert(seps@ == seq!['-', '+']);
        crate::update::release::lemma_split_nonempty(v@, seps@);
    }
    let mut pieces = split_vec(&v, &seps);
    let release = pieces.swap_remove(0);
    let dots = vec!['.'];
    proof {
        assert(dots@ == seq!['.']);
    }
    let parts = split_vec(&release, &dots);
    let ghost spec_parts = split(first_piece(value@, seq!['-', '+']), seq!['.']);
    proof {
        assert(release@ == first_piece(value@, seq!['-', '+']));
    }
    let mut out: Vec<u64> = Vec::new();
    let mut i: usize = 0;
    while i < parts.len()
        invariant
            spec_parts == split(first_piece(value@, seq!['-', '+']), seq!['.']),
            i <= parts@.len() == spec_parts.len(),
            forall|k: int| 0 <= k < parts@.len() ==> (#[trigger] parts@[k])@ == spec_parts[k],
            out@.len() == i,
            forall|k: int|
                0 <= k < i ==> parse_uint(#[trigger] spec_parts[k], u32::MAX as nat) is Some
                    && out@[k] as nat == parse_uint(spec_parts[k], u32::MAX as nat)->0,
        decreases parts.len() - i,
    {
        match parse_uint_vec(&parts[i], 4294967295) {
            Some(n) => out.push(n),
            None => {
                proof {
                    assert(parse_uint(spec_parts[i as int], u32::MAX as nat) is None);
                    assert(!(forall|k: int|
                        0 <= k < spec_parts.len() ==> #[trigger] parse_uint(
                            spec_parts[k],
                            u32::MAX as nat,
                        ) is Some));
                }
                return None;
            },
        }
        i = i + 1;
    }
    Some(out)
}

fn version_matches(expected: &str, actual: &str) -> (r: bool)
    ensures
        r == version_matches_spec(expected@, actual@),
{
    if crate::text::str_eq_ignore_case(expected, actual) {
        return true;
    }
    let e = numeric_version(expected);
    let a = numeric_version(actual);
    match (e, a) {
        (Some(e), Some(a)) => {
            let ghost es = numeric_version_spec(expected@)->0;
            let ghost as_ = numeric_version_spec(actual@)->0;
            let mut k: usize = 0;
            while k < e.len() && k < a.len()
                invariant
                    numeric_version_spec(expected@) == Some(es),
                    numeric_version_spec(actual@) == Some(as_),
                    e@.len() == es.len(),
                    a@.len() == as_.len(),
                    forall|j: int| 0 <= j < es.len() ==> e@[j] as nat == #[trigger] es[j],
                    forall|j: int| 0 <= j < as_.len() ==> a@[j] as nat == #[trigger] as_[j],
                    !eq_ignore_case(expected@, actual@),
                    k <= e.len(),
                    forall|j: int| 0 <= j < k ==> e@[j] == a@[j],
                decreases e.len() - k,
            {
                if e[k] != a[k] {
                    proof {
                        assert(es[k as int] != as_[k as int]);
                        assert(!components_agree(es, as_));
                        assert(!version_matches_spec(expected@, actual@));
                    }
                    return false;
                }
                k = k + 1;
            }
            true
        },
        _ => false,
    }
}

pub open spec fn u32_parts(ms: u32, ls: u32) -> Seq<char> {
    decimal((ms / 65536) as nat) + "."@ + decimal((ms % 65536) as nat) + "."@ + decimal(
        (ls / 65536) as nat,
    ) + "."@ + decimal((ls % 65536) as nat)
}

/// The `a.b.c.d` text of a fixed file version (`dwFileVersionMS`, `dwFileVersionLS`).
pub fn file_version_string(version_ms: u32, version_ls: u32) -> (r: String)
    ensures
        r@ == u32_parts(version_ms, version_ls),
{
    let a = decimal_string((version_ms / 65536) as u64);
    let b = decimal_string((version_ms % 65536) as u64);
    let c = decimal_string((version_ls / 65536) as u64);
    let d = decimal_string((version_ls % 65536) as u64);
    let mut r = String::from_str(a.as_str());
    r.append(".");
    r.append(b.as_str());
    r.append(".");
    r.append(c.as_str());
    r.append(".");
    r.append(d.as_str());
    r
}

// ---------------------------------------------------------------- PE layout
pub open spec fn not_pe_view(message: Seq<char>) -> ErrorView {
    verr("update_not_pe"@, message)
}

pub open spec fn le_u32(b: Seq<u8>, i: int) -> nat {
    (b[i] as nat) + (b[i + 1] as nat) * 256 + (b[i + 2] as nat) * 65536 + (b[i + 3] as nat)
        * 16777216
}

/// The optional-header magics accepted: PE32 and PE32+.
pub open spec fn pe_optional_magic_ok(magic: nat) -> bool {
    magic == 0x010b || magic == 0x020b
}

/// The PE checks over the whole file: DOS header, `PE\0\0` at the offset stored at 0x3c,
/// a complete COFF header and an optional-header magic of PE32 (0x010b, the 32-bit stub of
/// the installer) or PE32+ (0x020b).
pub open spec fn pe_check(b: Seq<u8>) -> Result<(), ErrorView> {
    if b.len() < 64 || b[0] != 0x4d || b[1] != 0x5a {
        Err(not_pe_view("更新包不是有效的 Windows 可执行文件。"@))
    } else {
        let off = le_u32(b, 0x3c) as int;
        if off + 24 > b.len() {
            Err(not_pe_view("更新包的 PE 头不完整。"@))
        } else if b[off] != 0x50 || b[off + 1] != 0x45 || b[off + 2] != 0 || b[off + 3] != 0 {
            Err(not_pe_view("更新包不是有效的 Windows 可执行文件。"@))
        } else if off + 26 > b.len() {
            Err(not_pe_view("更新包缺少 PE 可选头。"@))
        } else if !pe_optional_magic_ok((b[off + 24] as nat) + (b[off + 25] as nat) * 256) {
            Err(not_pe_view("更新包的 PE 可选头类型不受支持。"@))
        } else {
            Ok(())
        }
    }
}

fn not_pe(message: &str) -> (r: UpdateVerificationError)
    ensures
        r@ == not_pe_view(message@),
{
    UpdateVerificationError::new("update_not_pe", String::from_str(message))
}

/// Checks that the file is a Windows executable, 32-bit (as the installer stub is) or 64-bit.
pub fn inspect_pe(contents: &[u8]) -> (r: Result<(), UpdateVerificationError>)
    ensures
        match pe_check(contents@) {
            Ok(()) => r is Ok,
            Err(e) => r matches Err(err) && err@ == e,
        },
{
    let n = contents.len();
    if n < 64 || contents[0] != 0x4d || contents[1] != 0x5a {
        return Err(not_pe("更新包不是有效的 Windows 可执行文件。"));
    }
    let off: u64 = (contents[0x3c] as u64) + (contents[0x3d] as u64) * 256 + (contents[0x3e] as u64)
        * 65536 + (contents[0x3f] as u64) * 16777216;
    if off + 24 > n as u64 {
        return Err(not_pe("更新包的 PE 头不完整。"));
    }
    let o = off as usize;
    if contents[o] != 0x50 || contents[o + 1] != 0x45 || contents[o + 2] != 0 || contents[o + 3] != 0 {
        return Err(not_pe("更新包不是有效的 Windows 可执行文件。"));
    }
    if off + 26 > n as u64 {
        return Err(not_pe("更新包缺少 PE 可选头。"));
    }
    let magic: u32 = (contents[o + 24] as u32) + (contents[o + 25] as u32) * 256;
    if magic != 0x010b && magic != 0x020b {
        return Err(not_pe("更新包的 PE 可选头类型不受支持。"));
    }
    Ok(())
}

// ---------------------------------------------------------------- Authenticode
/// The signature state for a `WinVerifyTrust` status code.
pub open spec fn wintrust_status_spec(code: i32) -> SignatureStatus {
    if code == 0 {
        SignatureStatus::Valid
    } else if code == -2146762496 {
        SignatureStatus::NotSigned
    } else if code == -2146869232 {
        SignatureStatus::HashMismatch
    } else if code == -2146762479 || code == -2146762748 || code == -2146869244 || code
        == -2146762487 || code == -2146762486 || code == -2146762495 || code == -2146762484
        || code == -2146885594 {
        SignatureStatus::NotTrusted
    } else {
        SignatureStatus::UnknownError
    }
}

/// Maps a `WinVerifyTrust` result (`TRUST_E_NOSIGNATURE`, `TRUST_E_BAD_DIGEST`, the
/// distrust and chain errors) to the signature states.
pub fn wintrust_status(code: i32) -> (r: SignatureStatus)
    ensures
        r == wintrust_status_spec(code),
{
    if code == 0 {
        SignatureStatus::Valid
    } else if code == -2146762496 {
        SignatureStatus::NotSigned
    } else if code == -2146869232 {
        SignatureStatus::HashMismatch
    } else if code == -2146762479 || code == -2146762748 || code == -2146869244 || code
        == -2146762487 || code == -2146762486 || code == -2146762495 || code == -2146762484
        || code == -2146885594 {
        SignatureStatus::NotTrusted
    } else {
        SignatureStatus::UnknownError
    }
}

/// The thumbprint reported beside a signature state: none for an unsigned file, otherwise
/// the signer's thumbprint when it could be read.
pub fn inspect_authenticode(status: SignatureStatus, signer: Option<String>) -> (r: (
    SignatureStatus,
    String,
))
    ensures
        r.0 == status,
        status == SignatureStatus::NotSigned ==> r.1@.len() == 0,
        status != SignatureStatus::NotSigned ==> r.1@ == crate::update::release::or_empty(
            crate::update::release::opt_view(signer),
        ),
{
    if status == SignatureStatus::NotSigned {
        return (status, String::new());
    }
    match signer {
        Some(t) => (status, t),
        None => (status, String::new()),
    }
}

/// What was read from a package file: its bytes, its file version and its Authenticode outcome.
pub struct PackageFacts {
    pub contents: Vec<u8>,
    pub file_version: Option<String>,
    pub signature_status: SignatureStatus,
    pub signer_thumbprint: String,
}

pub open spec fn version_unavailable_view() -> ErrorView {
    verr("update_version_unavailable"@, "更新包缺少可读取的文件版本信息，已拒绝安装。"@)
}

pub open spec fn version_mismatch_view(expected: Seq<char>, actual: Seq<char>) -> ErrorView {
    verr(
        "update_version_mismatch"@,
        "更新包版本不匹配：期望 "@ + expected + "，实际 "@ + actual + "。"@,
    )
}

/// PE, file version and signature, in that order; the result is the file version and
/// whether the file is signed.
pub open spec fn pe_and_signature_spec(
    facts: PackageFacts,
    requirement: SignatureRequirement,
    expected_version: Option<Seq<char>>,
    pinned: Seq<Seq<char>>,
) -> Result<(Option<Seq<char>>, bool), ErrorView> {
    match pe_check(facts.contents@) {
        Err(e) => Err(e),
        Ok(()) => {
            let version = crate::update::release::opt_view(facts.file_version);
            let version_ok: Result<(), ErrorView> = match expected_version {
                None => Ok(()),
                Some(expected) => match version {
                    None => Err(version_unavailable_view()),
                    Some(actual) => if version_matches_spec(expected, actual) {
                        Ok(())
                    } else {
                        Err(version_mismatch_view(expected, actual))
                    },
                },
            };
            match version_ok {
                Err(e) => Err(e),
                Ok(()) => match signature_decision(
                    facts.signature_status,
                    facts.signer_thumbprint@,
                    requirement,
                    pinned,
                ) {
                    Err(e) => Err(e),
                    Ok(signed) => Ok((version, signed)),
                },
            }
        },
    }
}

pub open spec fn str_opt_view(o: Option<&str>) -> Option<Seq<char>> {
    match o {
        Some(s) => Some(s@),
        None => None,
    }
}

fn verify_pe_and_signature(
    facts: &PackageFacts,
    requirement: SignatureRequirement,
    expected_version: Option<&str>,
    pinned: &Vec<String>,
) -> (r: Result<(Option<String>, bool), UpdateVerificationError>)
    ensures
        match pe_and_signature_spec(*facts, requirement, str_opt_view(expected_version), strings_view(pinned@)) {
            Ok((v, signed)) => r matches Ok((rv, rs)) && crate::update::release::opt_view(rv) == v
                && rs == signed,
            Err(e) => r matches Err(err) && err@ == e,
        },
{
    inspect_pe(facts.contents.as_slice())?;
    if let Some(expected) = expected_version {
        let actual = match &facts.file_version {
            Some(a) => a,
            None => {
                return Err(
                    UpdateVerificationError::new(
                        "update_version_unavailable",
                        String::from_str("更新包缺少可读取的文件版本信息，已拒绝安装。"),
                    ),
                );
            },
        };
        if !version_matches(expected, actual.as_str()) {
            let mut message = String::from_str("更新包版本不匹配：期望 ");
            message.append(expected);
            message.append("，实际 ");
            message.append(actual.as_str());
            message.append("。");
            return Err(UpdateVerificationError::new("update_version_mismatch", message));
        }
    }
    let signed = verify_signature(facts, requirement, pinned)?;
    let version = match &facts.file_version {
        Some(v) => Some(String::from_str(v.as_str())),
        None => None,
    };
    Ok((version, signed))
}

/// The Authenticode rule applied to what was read from the file.
pub fn verify_signature(
    facts: &PackageFacts,
    requirement: SignatureRequirement,
    pinned: &Vec<String>,
) -> (r: Result<bool, UpdateVerificationError>)
    ensures
        match signature_decision(
            facts.signature_status,
            facts.signer_thumbprint@,
            requirement,
            strings_view(pinned@),
        ) {
            Ok(b) => r == Ok::<bool, UpdateVerificationError>(b),
            Err(e) => r matches Err(err) && err@ == e,
        },
{
    signature_policy(facts.signature_status, facts.signer_thumbprint.as_str(), requirement, pinned)
}

pub open spec fn checksum_mismatch_view() -> ErrorView {
    verr("update_checksum_mismatch"@, "更新包校验失败，下载内容与发布清单不一致。"@)
}

/// The checks of a downloaded package in their fixed order: SHA-256, PE, file version, Authenticode.
pub open spec fn download_check_spec(
    facts: PackageFacts,
    expected_sha256: Seq<char>,
    requirement: SignatureRequirement,
    expected_version: Option<Seq<char>>,
    pinned: Seq<Seq<char>>,
) -> Result<(Seq<char>, Option<Seq<char>>, bool), ErrorView> {
    match expected_sha256_spec(expected_sha256) {
        Err(e) => Err(e),
        Ok(expected) => {
            let actual = hex_lower(sha256_digest(facts.contents@));
            if actual != expected {
                Err(checksum_mismatch_view())
            } else {
                match pe_and_signature_spec(facts, requirement, expected_version, pinned) {
                    Err(e) => Err(e),
                    Ok((v, signed)) => Ok((actual, v, signed)),
                }
            }
        },
    }
}

pub open spec fn verified_matches(
    r: Result<VerifiedUpdate, UpdateVerificationError>,
    spec: Result<(Seq<char>, Option<Seq<char>>, bool), ErrorView>,
) -> bool {
    match spec {
        Ok((sha, v, signed)) => r matches Ok(u) && u.sha256@ == sha
            && crate::update::release::opt_view(u.version) == v && u.signed == signed,
        Err(e) => r matches Err(err) && err@ == e,
    }
}

/// Verifies a downloaded package against the published SHA-256, the PE layout, the
/// expected file version and the signature policy.
pub fn verify_download(
    facts: &PackageFacts,
    expected_sha256: &str,
    signature_requirement: SignatureRequirement,
    expected_version: Option<&str>,
    pinned: &Vec<String>,
) -> (r: Result<VerifiedUpdate, UpdateVerificationError>)
    ensures
        verified_matches(
            r,
            download_check_spec(
                *facts,
                expected_sha256@,
                signature_requirement,
                str_opt_view(expected_version),
                strings_view(pinned@),
            ),
        ),
{
    let expected_hash = normalize_expected_sha256(expected_sha256)?;
    let actual_hash = sha256_hex(facts.contents.as_slice());
    let a = chars_of(actual_hash.as_str());
    let e = chars_of(expected_hash.as_str());
    if !chars_eq(&a, &e) {
        return Err(
            UpdateVerificationError::new(
                "update_checksum_mismatch",
                String::from_str("更新包校验失败，下载内容与发布清单不一致。"),
            ),
        );
    }
    let (version, signed) = verify_pe_and_signature(facts, signature_requirement, expected_version, pinned)?;
    Ok(VerifiedUpdate { sha256: actual_hash, version, signed })
}

/// The checks of an unpacked executable: SHA-256 is recorded, then PE, file version and Authenticode.
pub open spec fn executable_check_spec(
    facts: PackageFacts,
    requirement: SignatureRequirement,
    expected_version: Option<Seq<char>>,
    pinned: Seq<Seq<char>>,
) -> Result<(Seq<char>, Option<Seq<char>>, bool), ErrorView> {
    match pe_and_signature_spec(facts, requirement, expected_version, pinned) {
        Err(e) => Err(e),
        Ok((v, signed)) => Ok((hex_lower(sha256_digest(facts.contents@)), v, signed)),
    }
}

/// Verifies an unpacked executable (the ZIP path): PE, file version and Authenticode.
pub fn verify_executable(
    facts: &PackageFacts,
    signature_requirement: SignatureRequirement,
    expected_version: Option<&str>,
    pinned: &Vec<String>,
) -> (r: Result<VerifiedUpdate, UpdateVerificationError>)
    ensures
        verified_matches(
            r,
            executable_check_spec(
                *facts,
                signature_requirement,
                str_opt_view(expected_version),
                strings_view(pinned@),
            ),
        ),
{
    let sha256 = sha256_hex(facts.contents.as_slice());
    let (version, signed) = verify_pe_and_signature(facts, signature_requirement, expected_version, pinned)?;
    Ok(VerifiedUpdate { sha256, version, signed })
}

/// The stable channel never installs an unsigned package, nor one whose signature is
/// broken; with a pinned list it installs only a package whose signer is on the list.
/// The beta channel accepts an unsigned package and reports it as unsigned.
pub proof fn lemma_signature_policy_laws(
    status: SignatureStatus,
    thumbprint: Seq<char>,
    requirement: SignatureRequirement,
    pinned: Seq<Seq<char>>,
)
    ensures
        requirement == SignatureRequirement::Required ==> match signature_decision(
            status,
            thumbprint,
            requirement,
            pinned,
        ) {
            Ok(signed) => signed,
            Err(_) => true,
        },
        requirement == SignatureRequirement::Required && pinned_set(pinned).len() > 0
            && signature_decision(status, thumbprint, requirement, pinned) is Ok ==> pinned_set(
            pinned,
        ).contains(normalized_thumbprint(thumbprint)),
        status == SignatureStatus::HashMismatch ==> signature_decision(
            status,
            thumbprint,
            requirement,
            pinned,
        ) is Err,
        requirement == SignatureRequirement::Optional && status == SignatureStatus::NotSigned
            ==> signature_decision(status, thumbprint, requirement, pinned) == Ok::<bool, ErrorView>(
            false,
        ),
{
}

} // verus!
