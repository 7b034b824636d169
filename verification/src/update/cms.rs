//! The decisions about the detached CMS signature of the release manifest, over what the
//! system's cryptography reports: exactly one signer, a SHA-256 digest, a pinned signer
//! and a certificate valid now.
use vstd::prelude::*;

use super::error::{ErrorView, UpdateError, err_view};
use super::verify::{contains_chars, hex_upper, normalized_pins, pinned_set, strings_view, thumbprint_from_hash};
use crate::text::{chars_of, str_eq};

verus! {

/// The object identifier of SHA-256.
pub const SHA256_DIGEST_OID: &'static str = "2.16.840.1.101.3.4.2.1";

/// Windows file time (100 ns ticks since 1601) of the Unix epoch.
pub const UNIX_EPOCH_FILETIME_TICKS: u64 = 116444736000000000;

/// What the system reports about the manifest's signature and its signer.
#[derive(Clone, Debug)]
pub struct CmsSignerFacts {
    /// The number of signers in the signature.
    pub signer_count: u32,
    /// The signer's digest algorithm, when it could be read.
    pub digest_oid: Option<String>,
    /// The SHA-1 hash property of the signer's certificate, when it could be read.
    pub certificate_hash: Option<Vec<u8>>,
    /// The certificate's not-before and not-after times as file time ticks, when the
    /// certificate's information could be read.
    pub validity: Option<(u64, u64)>,
}

pub struct CmsFactsView {
    pub signer_count: u32,
    pub digest_oid: Option<Seq<char>>,
    pub certificate_hash: Option<Seq<u8>>,
    pub validity: Option<(u64, u64)>,
}

impl View for CmsSignerFacts {
    type V = CmsFactsView;

    open spec fn view(&self) -> CmsFactsView {
        CmsFactsView {
            signer_count: self.signer_count,
            digest_oid: match self.digest_oid {
                Some(s) => Some(s@),
                None => None,
            },
            certificate_hash: match self.certificate_hash {
                Some(h) => Some(h@),
                None => None,
            },
            validity: self.validity,
        }
    }
}

pub open spec fn cms_invalid_view(message: Seq<char>) -> ErrorView {
    err_view("update_manifest_signature_invalid"@, message)
}

/// A file time as nanoseconds since the Unix epoch (saturating at `u64::MAX`); none before
/// the epoch.
pub open spec fn filetime_unix_nanos(ticks: u64) -> Option<nat> {
    if ticks < UNIX_EPOCH_FILETIME_TICKS {
        None
    } else if (ticks - UNIX_EPOCH_FILETIME_TICKS) * 100 > u64::MAX {
        Some(u64::MAX as nat)
    } else {
        Some(((ticks - UNIX_EPOCH_FILETIME_TICKS) * 100) as nat)
    }
}

/// The checks before the signature itself is verified: one signer, digest SHA-256.
pub open spec fn cms_metadata_spec(signer_count: u32, digest_oid: Option<Seq<char>>) -> Result<(), ErrorView> {
    if signer_count != 1 {
        Err(cms_invalid_view("发布清单必须只有一个签名者。"@))
    } else {
        match digest_oid {
            None => Err(cms_invalid_view("读取发布清单签名摘要算法失败。"@)),
            Some(oid) => if oid != SHA256_DIGEST_OID@ {
                Err(cms_invalid_view("发布清单签名摘要算法不是 SHA-256。"@))
            } else {
                Ok(())
            },
        }
    }
}

/// All checks of a verified signature: the metadata, then a readable 20-byte signer hash
/// whose upper-case hex is one of the trusted thumbprints (normalized, blanks dropped),
/// then a certificate whose validity window holds `now`.
pub open spec fn cms_signer_spec(f: CmsFactsView, now_unix_nanos: u128, trusted: Seq<Seq<char>>) -> Result<
    (),
    ErrorView,
> {
    match cms_metadata_spec(f.signer_count, f.digest_oid) {
        Err(e) => Err(e),
        Ok(()) => match f.certificate_hash {
            None => Err(cms_invalid_view("无法读取发布清单签名者指纹。"@)),
            Some(h) => if h.len() != 20 {
                Err(cms_invalid_view("无法读取发布清单签名者指纹。"@))
            } else if !pinned_set(trusted).contains(hex_upper(h)) {
                Err(err_view("update_manifest_signature_untrusted"@, "发布清单签名者不在信任列表中。"@))
            } else {
                match f.validity {
                    None => Err(cms_invalid_view("无法读取发布清单签名证书有效期。"@)),
                    Some((nb, na)) => match (filetime_unix_nanos(nb), filetime_unix_nanos(na)) {
                        (Some(b), Some(a)) => if now_unix_nanos < b || a < now_unix_nanos {
                            Err(err_view("update_manifest_expired"@, "发布清单签名证书不在有效期内。"@))
                        } else {
                            Ok(())
                        },
                        _ => Err(cms_invalid_view("发布清单签名证书有效期无效。"@)),
                    },
                }
            },
        },
    }
}

fn cms_invalid(message: &str) -> (r: UpdateError)
    ensures
        r@ == cms_invalid_view(message@),
{
    UpdateError::new("update_manifest_signature_invalid", String::from_str(message))
}

/// The checks before the signature is verified.
pub fn cms_metadata_decision(signer_count: u32, digest_oid: Option<&str>) -> (r: Result<(), UpdateError>)
    ensures
        match cms_metadata_spec(
            signer_count,
            match digest_oid {
                Some(s) => Some(s@),
                None => None,
            },
        ) {
            Ok(()) => r is Ok,
            Err(e) => r matches Err(x) && x@ == e,
        },
{
    if signer_count != 1 {
        return Err(cms_invalid("发布清单必须只有一个签名者。"));
    }
    match digest_oid {
        None => Err(cms_invalid("读取发布清单签名摘要算法失败。")),
        Some(oid) => if !str_eq(oid, SHA256_DIGEST_OID) {
            Err(cms_invalid("发布清单签名摘要算法不是 SHA-256。"))
        } else {
            Ok(())
        },
    }
}

fn filetime_nanos(ticks: u64) -> (r: Option<u64>)
    ensures
        match filetime_unix_nanos(ticks) {
            Some(n) => r == Some(n as u64),
            None => r is None,
        },
{
    if ticks < UNIX_EPOCH_FILETIME_TICKS {
        return None;
    }
    let delta = ticks - UNIX_EPOCH_FILETIME_TICKS;
    if delta > u64::MAX / 100 {
        assert(delta * 100 > u64::MAX) by (nonlinear_arith)
            requires
                delta > u64::MAX / 100,
        ;
        Some(u64::MAX)
    } else {
        assert(delta * 100 <= u64::MAX) by (nonlinear_arith)
            requires
                delta <= u64::MAX / 100,
        ;
        Some(delta * 100)
    }
}

/// The decision on a verified manifest signature, given what the system reports about it
/// and the time now (nanoseconds since the Unix epoch).
pub fn cms_signer_decision(facts: &CmsSignerFacts, now_unix_nanos: u128, trusted: &Vec<String>) -> (r: Result<
    (),
    UpdateError,
>)
    ensures
        match cms_signer_spec(facts@, now_unix_nanos, strings_view(trusted@)) {
            Ok(()) => r is Ok,
            Err(e) => r matches Err(x) && x@ == e,
        },
{
    let oid = match &facts.digest_oid {
        Some(s) => Some(s.as_str()),
        None => None,
    };
    cms_metadata_decision(facts.signer_count, oid)?;
    let hash = match &facts.certificate_hash {
        Some(h) => h,
        None => return Err(cms_invalid("无法读取发布清单签名者指纹。")),
    };
    if hash.len() != 20 {
        return Err(cms_invalid("无法读取发布清单签名者指纹。"));
    }
    let thumbprint = thumbprint_from_hash(hash.as_slice());
    let thumbprint_chars = chars_of(thumbprint.as_str());
    let pins = normalized_pins(trusted);
    proof {
        assert(pins@.map_values(|v: Vec<char>| v@) =~= pinned_set(strings_view(trusted@)));
    }
    if !contains_chars(&pins, &thumbprint_chars) {
        return Err(UpdateError::new("update_manifest_signature_untrusted", String::from_str("发布清单签名者不在信任列表中。")));
    }
    let (nb, na) = match facts.validity {
        Some(v) => v,
        None => return Err(cms_invalid("无法读取发布清单签名证书有效期。")),
    };
    let (b, a) = match (filetime_nanos(nb), filetime_nanos(na)) {
        (Some(b), Some(a)) => (b, a),
        _ => return Err(cms_invalid("发布清单签名证书有效期无效。")),
    };
    if now_unix_nanos < b as u128 || (a as u128) < now_unix_nanos {
        return Err(UpdateError::new("update_manifest_expired", String::from_str("发布清单签名证书不在有效期内。")));
    }
    Ok(())
}

} // verus!
