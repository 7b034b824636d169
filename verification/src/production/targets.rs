//! Which notification policy and which delivery and reply targets the runtime gets:
//! quiet hours and cooldown from the settings, and the order of the channel accounts.
use vstd::prelude::*;

use crate::bridge::dto::{QuietHoursDto, SettingsDto};
use crate::text::{
    chars_lt, chars_of, lemma_lex_order, lex_lt, parse_uint, parse_uint_vec, split, split_vec,
    str_eq, trim, trim_str,
};

verus! {

/// Offset of the quiet hours' clock from UTC: the application runs on Beijing time.
pub const QUIET_HOURS_UTC_OFFSET_MINUTES: i32 = 480;

/// Text of the confirmation sent when a reply arrives.
pub const REPLY_CONFIRMATION_TEXT: &'static str = "已收到回复，正在处理中。";

// ---------------------------------------------------------------- quiet hours
/// `HH:MM` as two unsigned 16-bit numbers, hours below 24 and minutes below 60.
pub open spec fn hh_mm_spec(s: Seq<char>) -> Option<(nat, nat)> {
    let parts = split(s, seq![':']);
    if parts.len() != 2 {
        None
    } else {
        match (parse_uint(parts[0], 65535), parse_uint(parts[1], 65535)) {
            (Some(h), Some(m)) => if h < 24 && m < 60 {
                Some((h, m))
            } else {
                None
            },
            _ => None,
        }
    }
}

/// Reads `HH:MM`.
pub fn parse_hh_mm(s: &str) -> (r: Option<(u16, u16)>)
    ensures
        match hh_mm_spec(s@) {
            Some(p) => r matches Some(x) && x.0 == p.0 && x.1 == p.1,
            None => r is None,
        },
{
    let v = chars_of(s);
    let mut seps: Vec<char> = Vec::new();
    seps.push(':');
    proof {
        assert(seps@ == seq![':']);
    }
    let parts = split_vec(&v, &seps);
    if parts.len() != 2 {
        return None;
    }
    let h = parse_uint_vec(&parts[0], 65535);
    let m = parse_uint_vec(&parts[1], 65535);
    match (h, m) {
        (Some(h), Some(m)) => {
            if h < 24 && m < 60 {
                Some((h as u16, m as u16))
            } else {
                None
            }
        },
        _ => None,
    }
}

/// Quiet hours as minutes of the day on the application's clock.
#[derive(Clone, Copy, Debug, PartialEq, Eq, Structural)]
pub struct QuietHoursWindow {
    pub start_minute: u16,
    pub end_minute: u16,
    pub utc_offset_minutes: i32,
}

pub open spec fn quiet_window_spec(qh: Option<QuietHoursDto>) -> Option<QuietHoursWindow> {
    match qh {
        None => None,
        Some(q) => if !q.enabled {
            None
        } else {
            match (hh_mm_spec(q.start@), hh_mm_spec(q.end@)) {
                (Some(s), Some(e)) => Some(
                    QuietHoursWindow {
                        start_minute: (s.0 * 60 + s.1) as u16,
                        end_minute: (e.0 * 60 + e.1) as u16,
                        utc_offset_minutes: QUIET_HOURS_UTC_OFFSET_MINUTES,
                    },
                ),
                _ => None,
            }
        },
    }
}

/// The quiet hours that apply to every agent: only when enabled and both times read.
pub fn global_quiet_hours(qh: &Option<QuietHoursDto>) -> (r: Option<QuietHoursWindow>)
    ensures
        r == quiet_window_spec(*qh),
        qh matches Some(q) ==> (q.enabled ==> (hh_mm_spec(q.start@) matches Some(s) ==> (hh_mm_spec(q.end@) matches Some(
            e,
        ) ==> (r matches Some(w) && w.start_minute == s.0 * 60 + s.1 && w.end_minute == e.0 * 60 + e.1)))),
{
    match qh {
        None => None,
        Some(q) => {
            if !q.enabled {
                return None;
            }
            match (parse_hh_mm(q.start.as_str()), parse_hh_mm(q.end.as_str())) {
                (Some(s), Some(e)) => Some(
                    QuietHoursWindow {
                        start_minute: s.0 * 60 + s.1,
                        end_minute: e.0 * 60 + e.1,
                        utc_offset_minutes: QUIET_HOURS_UTC_OFFSET_MINUTES,
                    },
                ),
                _ => None,
            }
        },
    }
}

/// Enabled quiet hours whose two times read give the window from the start time's minute
/// of the day to the end time's (an end before the start crosses midnight), on Beijing
/// time; disabled or unreadable quiet hours give none.
pub proof fn lemma_quiet_window_from_times(q: QuietHoursDto)
    ensures
        !q.enabled ==> quiet_window_spec(Some(q)) is None,
        hh_mm_spec(q.start@) is None || hh_mm_spec(q.end@) is None ==> quiet_window_spec(Some(q)) is None,
        q.enabled && hh_mm_spec(q.start@) is Some && hh_mm_spec(q.end@) is Some ==> {
            let s = hh_mm_spec(q.start@)->0;
            let e = hh_mm_spec(q.end@)->0;
            quiet_window_spec(Some(q)) matches Some(w) && w.start_minute == s.0 * 60 + s.1 && w.end_minute == e.0
                * 60 + e.1 && w.utc_offset_minutes == 480
        },
{
    if q.enabled && hh_mm_spec(q.start@) is Some && hh_mm_spec(q.end@) is Some {
        let s = hh_mm_spec(q.start@)->0;
        let e = hh_mm_spec(q.end@)->0;
        assert(s.0 * 60 + s.1 < 1440) by (nonlinear_arith)
            requires
                s.0 < 24,
                s.1 < 60,
        ;
        assert(e.0 * 60 + e.1 < 1440) by (nonlinear_arith)
            requires
                e.0 < 24,
                e.1 < 60,
        ;
    }
}

/// The cooldown that applies to every agent; none when it is zero.
pub fn global_cooldown_seconds(cooldown_seconds: u32) -> (r: Option<u32>)
    ensures
        cooldown_seconds > 0 ==> r == Some(cooldown_seconds),
        cooldown_seconds == 0 ==> r is None,
{
    if cooldown_seconds > 0 {
        Some(cooldown_seconds)
    } else {
        None
    }
}

/// An agent without an explicit configuration is enabled.
pub fn agent_enabled(configured: Option<bool>) -> (r: bool)
    ensures
        r == match configured {
            Some(b) => b,
            None => true,
        },
{
    match configured {
        Some(b) => b,
        None => true,
    }
}

// ---------------------------------------------------------------- account order
/// A channel account as far as target selection is concerned.
#[derive(Clone, Debug)]
pub struct TargetAccount {
    pub id: String,
    pub enabled: bool,
}

pub open spec fn is_default(default_id: Option<Seq<char>>, a: Seq<char>) -> bool {
    default_id == Some(a)
}

/// Target order: the default account first, the others by id.
pub open spec fn ranks_before(default_id: Option<Seq<char>>, a: Seq<char>, b: Seq<char>) -> bool {
    (is_default(default_id, a) && !is_default(default_id, b)) || (is_default(default_id, a)
        == is_default(default_id, b) && lex_lt(a, b))
}

/// No element ranks before an earlier one.
pub open spec fn in_target_order(default_id: Option<Seq<char>>, s: Seq<Seq<char>>) -> bool {
    forall|i: int, j: int| 0 <= i < j < s.len() ==> !ranks_before(default_id, #[trigger] s[j], #[trigger] s[i])
}

/// The ids of the enabled accounts, in their given order.
pub open spec fn enabled_ids(accounts: Seq<TargetAccount>) -> Seq<Seq<char>>
    decreases accounts.len(),
{
    if accounts.len() == 0 {
        Seq::<Seq<char>>::empty()
    } else {
        let rest = enabled_ids(accounts.drop_last());
        if accounts.last().enabled {
            rest.push(accounts.last().id@)
        } else {
            rest
        }
    }
}

/// `ranks_before` is a strict order, total on distinct ids.
pub proof fn lemma_rank_order(d: Option<Seq<char>>, a: Seq<char>, b: Seq<char>, c: Seq<char>)
    ensures
        !ranks_before(d, a, a),
        ranks_before(d, a, b) ==> !ranks_before(d, b, a),
        a != b ==> ranks_before(d, a, b) || ranks_before(d, b, a),
        ranks_before(d, a, b) && ranks_before(d, b, c) ==> ranks_before(d, a, c),
{
    lemma_lex_order(a, b, c);
    lemma_lex_order(b, a, c);
    lemma_lex_order(a, c, b);
}

pub open spec fn opt_view(o: Option<String>) -> Option<Seq<char>> {
    match o {
        Some(s) => Some(s@),
        None => None,
    }
}

pub open spec fn id_views(v: Seq<String>) -> Seq<Seq<char>> {
    v.map_values(|s: String| s@)
}

fn opt_str(o: &Option<String>) -> (r: Option<&str>)
    ensures
        match r {
            Some(s) => o matches Some(x) && x@ == s@,
            None => o is None,
        },
{
    match o {
        Some(s) => Some(s.as_str()),
        None => None,
    }
}

fn ranks_before_exec(default_id: Option<&str>, a: &str, b: &str) -> (r: bool)
    ensures
        r == ranks_before(
            match default_id {
                Some(s) => Some(s@),
                None => None,
            },
            a@,
            b@,
        ),
{
    let (da, db) = match default_id {
        Some(d) => (str_eq(d, a), str_eq(d, b)),
        None => (false, false),
    };
    if da && !db {
        return true;
    }
    if da != db {
        return false;
    }
    chars_lt(&chars_of(a), &chars_of(b))
}

/// The enabled accounts in target order: the default account first, the others by id.
pub fn order_target_accounts(accounts: &Vec<TargetAccount>, default_id: &Option<String>) -> (r: Vec<String>)
    ensures
        id_views(r@).to_multiset() == enabled_ids(accounts@).to_multiset(),
        in_target_order(opt_view(*default_id), id_views(r@)),
{
    let ghost d = opt_view(*default_id);
    let dref = opt_str(default_id);
    let mut out: Vec<String> = Vec::new();
    let mut i: usize = 0;
    proof {
        assert(id_views(out@) =~= Seq::<Seq<char>>::empty());
        assert(accounts@.subrange(0, 0) =~= Seq::<TargetAccount>::empty());
    }
    while i < accounts.len()
        invariant
            i <= accounts.len(),
            d == match dref {
                Some(s) => Some(s@),
                None => None::<Seq<char>>,
            },
            id_views(out@).to_multiset() == enabled_ids(accounts@.subrange(0, i as int)).to_multiset(),
            in_target_order(d, id_views(out@)),
        decreases accounts.len() - i,
    {
        let ghost prefix = accounts@.subrange(0, i as int);
        let ghost next = accounts@.subrange(0, i as int + 1);
        proof {
            assert(next.drop_last() =~= prefix);
            assert(next.last() == accounts@[i as int]);
            assert(enabled_ids(next) == if accounts@[i as int].enabled {
                enabled_ids(prefix).push(accounts@[i as int].id@)
            } else {
                enabled_ids(prefix)
            });
        }
        if accounts[i].enabled {
            let id = accounts[i].id.as_str();
            let mut pos: usize = 0;
            while pos < out.len() && !ranks_before_exec(dref, id, out[pos].as_str())
                invariant
                    pos <= out.len(),
                    d == match dref {
                        Some(s) => Some(s@),
                        None => None::<Seq<char>>,
                    },
                    forall|k: int| 0 <= k < pos ==> !ranks_before(d, id@, #[trigger] id_views(out@)[k]),
                decreases out.len() - pos,
            {
                pos = pos + 1;
            }
            let ghost before = id_views(out@);
            let entry = accounts[i].id.clone();
            out.insert(pos, entry);
            proof {
                let after = id_views(out@);
                assert(after =~= before.insert(pos as int, id@));
                vstd::seq_lib::to_multiset_insert(before, pos as int, id@);
                vstd::seq_lib::to_multiset_build(enabled_ids(prefix), id@);
                assert(id@ == accounts@[i as int].id@);
                assert(after.to_multiset() == before.to_multiset().insert(id@));
                assert(enabled_ids(next).to_multiset() == enabled_ids(prefix).to_multiset().insert(id@));
                assert(pos < before.len() ==> ranks_before(d, id@, before[pos as int]));
                assert forall|a: int, b: int| 0 <= a < b < after.len() implies !ranks_before(
                    d,
                    #[trigger] after[b],
                    #[trigger] after[a],
                ) by {
                    if b < pos {
                    } else if b == pos {
                    } else if a < pos {
                        if ranks_before(d, before[b - 1], before[a]) {
                        }
                    } else if a == pos {
                        lemma_rank_order(d, before[b - 1], id@, before[pos as int]);
                        if b - 1 > pos {
                            assert(!ranks_before(d, before[b - 1], before[pos as int]));
                        }
                    } else {
                        assert(!ranks_before(d, before[b - 1], before[a - 1]));
                    }
                }
            }
        }
        i = i + 1;
    }
    proof {
        assert(accounts@.subrange(0, accounts@.len() as int) =~= accounts@);
    }
    out
}

// ---------------------------------------------------------------- targets and replies
/// Whether an account gets a delivery target and a reply target: only with a bound user,
/// and a reply target only when replies are enabled.
pub fn account_targets(user_id: &str, reply_enabled: bool) -> (r: (bool, bool))
    ensures
        r.0 == (trim(user_id@).len() > 0),
        r.1 == (trim(user_id@).len() > 0 && reply_enabled),
{
    let bound = !trim_str(user_id).as_str().is_empty();
    (bound, bound && reply_enabled)
}

/// How replies are handled.
#[derive(Clone, Debug, PartialEq, Eq)]
pub struct ReplyPlan {
    pub enabled: bool,
    pub send_confirmation: bool,
    pub claim_ttl_seconds: u32,
    pub confirmation_text: String,
}

/// The reply handling from the settings: the route time-to-live is also the claim's.
pub fn reply_plan(settings: &SettingsDto) -> (r: ReplyPlan)
    ensures
        r.enabled == settings.reply_enabled,
        r.send_confirmation == settings.delivery_receipt_enabled,
        r.claim_ttl_seconds == settings.route_ttl_seconds,
        r.confirmation_text@ == REPLY_CONFIRMATION_TEXT@,
{
    ReplyPlan {
        enabled: settings.reply_enabled,
        send_confirmation: settings.delivery_receipt_enabled,
        claim_ttl_seconds: settings.route_ttl_seconds,
        confirmation_text: String::from_str(REPLY_CONFIRMATION_TEXT),
    }
}

} // verus!
