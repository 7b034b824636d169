//! Settings persistence: the stored key/value entries, how the settings page is read from
//! them and written back, quiet hours text, and the checks before saving.
use vstd::prelude::*;

use crate::bridge::dto::{QuietHoursDto, SettingsDto, UpdateChannelDto};
use crate::bridge::error::CommandError;
use crate::json::{JsonValue, json_value, member_entries, member_index, member_value, parse_json_value};
use crate::text::{
    all_digits, chars_of, concat3, contains_char, digit_char, digit_value, digits_value, is_digit,
    lemma_split_pair, lemma_trim_digit_edges, parse_uint, parse_uint_vec, split, split_vec, str_eq, string_of_all, trim,
    trim_end, trim_start, trim_str, trimmed,
};

verus! {

pub const KEY_NOTIFICATIONS_PAUSED: &'static str = "notificationsPaused";

pub const KEY_QUIET_HOURS: &'static str = "notification.quietHours";

pub const KEY_COOLDOWN_MIN: &'static str = "notification.cooldownMin";

pub const KEY_COOLDOWN_SECONDS: &'static str = "notification.cooldownSeconds";

pub const KEY_DEFAULT_AGENT: &'static str = "notification.defaultAgent";

pub const KEY_DEFAULT_CHANNEL_ACCOUNT_ID: &'static str = "notification.defaultChannelAccountId";

pub const KEY_REPLY_ENABLED: &'static str = "reply.enabled";

pub const KEY_REPLY_CONFIRMATION: &'static str = "reply.confirmation";

pub const KEY_REPLY_ROUTE_TTL_SECONDS: &'static str = "reply.routeTtlSeconds";

pub const KEY_AUTO_START: &'static str = "autoStart";

pub const KEY_START_HIDDEN: &'static str = "startHidden";

pub const KEY_UPDATE_CHANNEL: &'static str = "updateChannel";

/// Reply routes live a day unless configured.
pub const DEFAULT_ROUTE_TTL_SECONDS: u32 = 86400;

/// A scalar field of an object setting.
#[derive(Clone, Debug)]
pub enum SettingScalar {
    Null,
    Bool(bool),
    /// A number; `as_u64` is its value when it is an unsigned 64-bit integer.
    Number { as_u64: Option<u64> },
    Text(String),
    /// An array or an object.
    Other,
}

/// A stored setting value, as far as the settings are read from it.
#[derive(Clone, Debug)]
pub enum SettingValue {
    Null,
    Bool(bool),
    Number { as_u64: Option<u64> },
    Text(String),
    Object(Vec<(String, SettingScalar)>),
    Array,
}

/// A stored setting: its key and value.
pub type SettingEntry = (String, SettingValue);

// ---------------------------------------------------------------- reading values
pub open spec fn lookup_from(entries: Seq<SettingEntry>, key: Seq<char>, i: int) -> Option<SettingValue>
    decreases entries.len() - i,
{
    if i < 0 || i >= entries.len() {
        None
    } else if entries[i].0@ == key {
        Some(entries[i].1)
    } else {
        lookup_from(entries, key, i + 1)
    }
}

/// The value stored under `key` (keys are unique; the first one counts).
pub open spec fn lookup(entries: Seq<SettingEntry>, key: Seq<char>) -> Option<SettingValue> {
    lookup_from(entries, key, 0)
}

pub open spec fn value_bool(v: Option<SettingValue>) -> Option<bool> {
    match v {
        Some(SettingValue::Bool(b)) => Some(b),
        _ => None,
    }
}

pub open spec fn value_u64(v: Option<SettingValue>) -> Option<u64> {
    match v {
        Some(SettingValue::Number { as_u64 }) => as_u64,
        _ => None,
    }
}

pub open spec fn value_text(v: Option<SettingValue>) -> Option<Seq<char>> {
    match v {
        Some(SettingValue::Text(s)) => Some(s@),
        _ => None,
    }
}

pub open spec fn field_from(fields: Seq<(String, SettingScalar)>, key: Seq<char>, i: int) -> Option<SettingScalar>
    decreases fields.len() - i,
{
    if i < 0 || i >= fields.len() {
        None
    } else if fields[i].0@ == key {
        Some(fields[i].1)
    } else {
        field_from(fields, key, i + 1)
    }
}

pub(crate) fn find_entry(entries: &Vec<SettingEntry>, key: &str) -> (r: Option<usize>)
    ensures
        match r {
            Some(i) => i < entries.len() && lookup(entries@, key@) == Some(entries@[i as int].1),
            None => lookup(entries@, key@) is None,
        },
{
    let mut i: usize = 0;
    while i < entries.len()
        invariant
            i <= entries.len(),
            lookup(entries@, key@) == lookup_from(entries@, key@, i as int),
        decreases entries.len() - i,
    {
        if str_eq(entries[i].0.as_str(), key) {
            return Some(i);
        }
        i = i + 1;
    }
    None
}

fn entry_bool(entries: &Vec<SettingEntry>, key: &str) -> (r: Option<bool>)
    ensures
        r == value_bool(lookup(entries@, key@)),
{
    match find_entry(entries, key) {
        Some(i) => match &entries[i].1 {
            SettingValue::Bool(b) => Some(*b),
            _ => None,
        },
        None => None,
    }
}

fn entry_u64(entries: &Vec<SettingEntry>, key: &str) -> (r: Option<u64>)
    ensures
        r == value_u64(lookup(entries@, key@)),
{
    match find_entry(entries, key) {
        Some(i) => match &entries[i].1 {
            SettingValue::Number { as_u64 } => *as_u64,
            _ => None,
        },
        None => None,
    }
}

fn entry_text(entries: &Vec<SettingEntry>, key: &str) -> (r: Option<String>)
    ensures
        match r {
            Some(s) => value_text(lookup(entries@, key@)) == Some(s@),
            None => value_text(lookup(entries@, key@)) is None,
        },
{
    match find_entry(entries, key) {
        Some(i) => match &entries[i].1 {
            SettingValue::Text(s) => Some(s.clone()),
            _ => None,
        },
        None => None,
    }
}

pub(crate) fn scalar_field(fields: &Vec<(String, SettingScalar)>, key: &str) -> (r: Option<usize>)
    ensures
        match r {
            Some(i) => i < fields.len() && field_from(fields@, key@, 0) == Some(fields@[i as int].1),
            None => field_from(fields@, key@, 0) is None,
        },
{
    let mut i: usize = 0;
    while i < fields.len()
        invariant
            i <= fields.len(),
            field_from(fields@, key@, 0) == field_from(fields@, key@, i as int),
        decreases fields.len() - i,
    {
        if str_eq(fields[i].0.as_str(), key) {
            return Some(i);
        }
        i = i + 1;
    }
    None
}

// ---------------------------------------------------------------- quiet hours text
/// `{n:02}` for a number below 100.
pub open spec fn two_digits(n: nat) -> Seq<char> {
    seq![digit_char(n / 10), digit_char(n % 10)]
}

/// One end of a quiet hours range: `H:M` or `H`, written back as `HH:MM`.
pub open spec fn time_text(part: Seq<char>) -> Option<Seq<char>> {
    if part.contains(':') {
        let t = split(part, seq![':']);
        if t.len() == 2 {
            match (parse_uint(t[0], 4294967295), parse_uint(t[1], 4294967295)) {
                (Some(h), Some(m)) => if h < 24 && m < 60 {
                    Some(two_digits(h) + seq![':'] + two_digits(m))
                } else {
                    None
                },
                _ => None,
            }
        } else {
            None
        }
    } else {
        match parse_uint(part, 4294967295) {
            Some(h) => if h < 24 {
                Some(two_digits(h) + ":00"@)
            } else {
                None
            },
            None => None,
        }
    }
}

/// The quiet hours of stored `start-end` text: both ends must read as times.
pub open spec fn quiet_text_spec(text: Seq<char>) -> Option<(bool, Seq<char>, Seq<char>)> {
    let raw = trim(text);
    if raw.len() == 0 {
        None
    } else {
        let parts = split(raw, seq!['-']);
        if parts.len() != 2 {
            None
        } else {
            match (time_text(trim(parts[0])), time_text(trim(parts[1]))) {
                (Some(a), Some(b)) => Some((true, a, b)),
                _ => None,
            }
        }
    }
}

/// The quiet hours a stored value gives: `start-end` text, or an object with
/// `enabled` (default on), `start` (default `22:00`) and `end` (default `07:00`).
pub open spec fn quiet_hours_spec(v: Option<SettingValue>) -> Option<(bool, Seq<char>, Seq<char>)> {
    match v {
        Some(SettingValue::Text(s)) => quiet_text_spec(s@),
        Some(SettingValue::Object(fields)) => {
            let enabled = match field_from(fields@, "enabled"@, 0) {
                Some(SettingScalar::Bool(b)) => b,
                _ => true,
            };
            let start = match field_from(fields@, "start"@, 0) {
                Some(SettingScalar::Text(t)) => t@,
                _ => "22:00"@,
            };
            let end = match field_from(fields@, "end"@, 0) {
                Some(SettingScalar::Text(t)) => t@,
                _ => "07:00"@,
            };
            Some((enabled, start, end))
        },
        _ => None,
    }
}

fn two_digit_chars(n: u64, out: &mut Vec<char>)
    requires
        n < 100,
    ensures
        final(out)@ == old(out)@ + two_digits(n as nat),
{
    let tens = crate::text::char_from_ascii(((n / 10) as u32) + 48);
    let ones = crate::text::char_from_ascii(((n % 10) as u32) + 48);
    out.push(tens);
    out.push(ones);
}

fn format_time(part: &Vec<char>) -> (r: Option<String>)
    ensures
        match time_text(part@) {
            Some(t) => r matches Some(x) && x@ == t,
            None => r is None,
        },
{
    let mut colon: Vec<char> = Vec::new();
    colon.push(':');
    proof {
        assert(colon@ == seq![':']);
    }
    if contains_char(part, ':') {
        let t = split_vec(part, &colon);
        if t.len() != 2 {
            return None;
        }
        match (parse_uint_vec(&t[0], 4294967295), parse_uint_vec(&t[1], 4294967295)) {
            (Some(h), Some(m)) => {
                if h < 24 && m < 60 {
                    let mut out: Vec<char> = Vec::new();
                    two_digit_chars(h, &mut out);
                    out.push(':');
                    two_digit_chars(m, &mut out);
                    Some(string_of_all(&out))
                } else {
                    None
                }
            },
            _ => None,
        }
    } else {
        match parse_uint_vec(part, 4294967295) {
            Some(h) => {
                if h < 24 {
                    let mut out: Vec<char> = Vec::new();
                    two_digit_chars(h, &mut out);
                    out.push(':');
                    out.push('0');
                    out.push('0');
                    proof {
                        reveal_strlit(":00");
                        assert(out@ == two_digits(h as nat) + ":00"@);
                    }
                    Some(string_of_all(&out))
                } else {
                    None
                }
            },
            None => None,
        }
    }
}

pub open spec fn quiet_view(q: Option<QuietHoursDto>) -> Option<(bool, Seq<char>, Seq<char>)> {
    match q {
        Some(x) => Some((x.enabled, x.start@, x.end@)),
        None => None,
    }
}

/// Reads the quiet hours of a stored value.
pub fn parse_quiet_hours(value: Option<&SettingValue>) -> (r: Option<QuietHoursDto>)
    ensures
        quiet_view(r) == quiet_hours_spec(
            match value {
                Some(v) => Some(*v),
                None => None,
            },
        ),
{
    match value {
        Some(SettingValue::Text(s)) => {
            let raw = trimmed(&chars_of(s.as_str()));
            if raw.len() == 0 {
                return None;
            }
            let mut dash: Vec<char> = Vec::new();
            dash.push('-');
            proof {
                assert(dash@ == seq!['-']);
            }
            let parts = split_vec(&raw, &dash);
            if parts.len() != 2 {
                return None;
            }
            let start = format_time(&trimmed(&parts[0]));
            let end = format_time(&trimmed(&parts[1]));
            match (start, end) {
                (Some(a), Some(b)) => Some(QuietHoursDto { enabled: true, start: a, end: b }),
                _ => None,
            }
        },
        Some(SettingValue::Object(fields)) => {
            proof {
                reveal_strlit("enabled");
                reveal_strlit("start");
                reveal_strlit("end");
            }
            let enabled = match scalar_field(fields, "enabled") {
                Some(i) => match &fields[i].1 {
                    SettingScalar::Bool(b) => *b,
                    _ => true,
                },
                None => true,
            };
            let start = match scalar_field(fields, "start") {
                Some(i) => match &fields[i].1 {
                    SettingScalar::Text(t) => t.clone(),
                    _ => String::from_str("22:00"),
                },
                None => String::from_str("22:00"),
            };
            let end = match scalar_field(fields, "end") {
                Some(i) => match &fields[i].1 {
                    SettingScalar::Text(t) => t.clone(),
                    _ => String::from_str("07:00"),
                },
                None => String::from_str("07:00"),
            };
            Some(QuietHoursDto { enabled, start, end })
        },
        _ => None,
    }
}

// ---------------------------------------------------------------- settings from entries
/// The observable content of the settings page.
pub struct SettingsView {
    pub notifications_paused: bool,
    pub quiet_hours: Option<(bool, Seq<char>, Seq<char>)>,
    pub cooldown_seconds: u32,
    pub default_channel_account_id: Option<Seq<char>>,
    pub reply_enabled: bool,
    pub delivery_receipt_enabled: bool,
    pub route_ttl_seconds: u32,
    pub auto_start: bool,
    pub start_hidden: bool,
    pub update_channel: UpdateChannelDto,
}

pub open spec fn settings_view(dto: SettingsDto) -> SettingsView {
    SettingsView {
        notifications_paused: dto.notifications_paused,
        quiet_hours: quiet_view(dto.quiet_hours),
        cooldown_seconds: dto.cooldown_seconds,
        default_channel_account_id: match dto.default_channel_account_id {
            Some(s) => Some(s@),
            None => None,
        },
        reply_enabled: dto.reply_enabled,
        delivery_receipt_enabled: dto.delivery_receipt_enabled,
        route_ttl_seconds: dto.route_ttl_seconds,
        auto_start: dto.auto_start,
        start_hidden: dto.start_hidden,
        update_channel: dto.update_channel,
    }
}

pub open spec fn bool_or_false(o: Option<bool>) -> bool {
    match o {
        Some(b) => b,
        None => false,
    }
}

/// The cooldown: seconds when stored, else minutes times sixty, else none.
pub open spec fn cooldown_spec(entries: Seq<SettingEntry>) -> u32 {
    match value_u64(lookup(entries, KEY_COOLDOWN_SECONDS@)) {
        Some(s) => s as u32,
        None => match value_u64(lookup(entries, KEY_COOLDOWN_MIN@)) {
            Some(m) => ((m as u32) * 60) as u32,
            None => 0,
        },
    }
}

/// Minutes that still fit in seconds: the conversion does not overflow.
pub open spec fn cooldown_fits(entries: Seq<SettingEntry>) -> bool {
    value_u64(lookup(entries, KEY_COOLDOWN_SECONDS@)) is None ==> match value_u64(
        lookup(entries, KEY_COOLDOWN_MIN@),
    ) {
        Some(m) => (m as u32) * 60 <= u32::MAX,
        None => true,
    }
}

pub open spec fn settings_from_entries(entries: Seq<SettingEntry>) -> SettingsView {
    SettingsView {
        notifications_paused: bool_or_false(value_bool(lookup(entries, KEY_NOTIFICATIONS_PAUSED@))),
        quiet_hours: quiet_hours_spec(lookup(entries, KEY_QUIET_HOURS@)),
        cooldown_seconds: cooldown_spec(entries),
        default_channel_account_id: match value_text(lookup(entries, KEY_DEFAULT_CHANNEL_ACCOUNT_ID@)) {
            Some(t) => if trim(t).len() > 0 {
                Some(trim(t))
            } else {
                None
            },
            None => None,
        },
        reply_enabled: bool_or_false(value_bool(lookup(entries, KEY_REPLY_ENABLED@))),
        delivery_receipt_enabled: bool_or_false(value_bool(lookup(entries, KEY_REPLY_CONFIRMATION@))),
        route_ttl_seconds: match value_u64(lookup(entries, KEY_REPLY_ROUTE_TTL_SECONDS@)) {
            Some(v) => v as u32,
            None => DEFAULT_ROUTE_TTL_SECONDS,
        },
        auto_start: bool_or_false(value_bool(lookup(entries, KEY_AUTO_START@))),
        start_hidden: bool_or_false(value_bool(lookup(entries, KEY_START_HIDDEN@))),
        update_channel: match value_text(lookup(entries, KEY_UPDATE_CHANNEL@)) {
            Some(t) => if t == "beta"@ {
                UpdateChannelDto::Beta
            } else {
                UpdateChannelDto::Stable
            },
            None => UpdateChannelDto::Stable,
        },
    }
}

/// The settings page from the stored entries; anything missing or of the wrong kind
/// takes its default.
pub fn entries_to_dto(entries: &Vec<SettingEntry>) -> (r: SettingsDto)
    requires
        cooldown_fits(entries@),
    ensures
        settings_view(r) == settings_from_entries(entries@),
{
    let notifications_paused = match entry_bool(entries, KEY_NOTIFICATIONS_PAUSED) {
        Some(b) => b,
        None => false,
    };
    let quiet_hours = match find_entry(entries, KEY_QUIET_HOURS) {
        Some(i) => parse_quiet_hours(Some(&entries[i].1)),
        None => parse_quiet_hours(None),
    };
    let cooldown_seconds = match entry_u64(entries, KEY_COOLDOWN_SECONDS) {
        Some(s) => s as u32,
        None => match entry_u64(entries, KEY_COOLDOWN_MIN) {
            Some(m) => (m as u32) * 60,
            None => 0,
        },
    };
    let default_channel_account_id = match entry_text(entries, KEY_DEFAULT_CHANNEL_ACCOUNT_ID) {
        Some(t) => {
            let trimmed_id = trim_str(t.as_str());
            if trimmed_id.as_str().is_empty() {
                None
            } else {
                Some(trimmed_id)
            }
        },
        None => None,
    };
    let reply_enabled = match entry_bool(entries, KEY_REPLY_ENABLED) {
        Some(b) => b,
        None => false,
    };
    let delivery_receipt_enabled = match entry_bool(entries, KEY_REPLY_CONFIRMATION) {
        Some(b) => b,
        None => false,
    };
    let route_ttl_seconds = match entry_u64(entries, KEY_REPLY_ROUTE_TTL_SECONDS) {
        Some(v) => v as u32,
        None => DEFAULT_ROUTE_TTL_SECONDS,
    };
    let auto_start = match entry_bool(entries, KEY_AUTO_START) {
        Some(b) => b,
        None => false,
    };
    let start_hidden = match entry_bool(entries, KEY_START_HIDDEN) {
        Some(b) => b,
        None => false,
    };
    let update_channel = match entry_text(entries, KEY_UPDATE_CHANNEL) {
        Some(t) => {
            if str_eq(t.as_str(), "beta") {
                UpdateChannelDto::Beta
            } else {
                UpdateChannelDto::Stable
            }
        },
        None => UpdateChannelDto::Stable,
    };
    SettingsDto {
        notifications_paused,
        quiet_hours,
        cooldown_seconds,
        default_channel_account_id,
        reply_enabled,
        delivery_receipt_enabled,
        route_ttl_seconds,
        auto_start,
        start_hidden,
        update_channel,
    }
}

// ---------------------------------------------------------------- entries from settings
/// The quiet hours as stored: `start-end` when enabled, else empty text.
pub open spec fn quiet_text(q: Option<(bool, Seq<char>, Seq<char>)>) -> Seq<char> {
    match q {
        Some(x) => if x.0 {
            x.1 + "-"@ + x.2
        } else {
            Seq::<char>::empty()
        },
        None => Seq::<char>::empty(),
    }
}

/// `u32::div_ceil(n, 60)`.
pub open spec fn minutes_up(n: u32) -> u64 {
    ((n as int + 59) / 60) as u64
}

pub open spec fn text_value(v: SettingValue) -> Option<Seq<char>> {
    match v {
        SettingValue::Text(s) => Some(s@),
        _ => None,
    }
}

/// What each stored entry holds after writing the settings page, by key.
pub open spec fn written_entry(view: SettingsView, key: Seq<char>, v: SettingValue) -> bool {
    if key == KEY_AUTO_START@ {
        v == SettingValue::Bool(view.auto_start)
    } else if key == KEY_COOLDOWN_MIN@ {
        v == (SettingValue::Number { as_u64: Some(minutes_up(view.cooldown_seconds)) })
    } else if key == KEY_COOLDOWN_SECONDS@ {
        v == (SettingValue::Number { as_u64: Some(view.cooldown_seconds as u64) })
    } else if key == KEY_DEFAULT_CHANNEL_ACCOUNT_ID@ {
        match view.default_channel_account_id {
            Some(id) => text_value(v) == Some(id),
            None => v == SettingValue::Null,
        }
    } else if key == KEY_QUIET_HOURS@ {
        text_value(v) == Some(quiet_text(view.quiet_hours))
    } else if key == KEY_NOTIFICATIONS_PAUSED@ {
        v == SettingValue::Bool(view.notifications_paused)
    } else if key == KEY_REPLY_CONFIRMATION@ {
        v == SettingValue::Bool(view.delivery_receipt_enabled)
    } else if key == KEY_REPLY_ENABLED@ {
        v == SettingValue::Bool(view.reply_enabled)
    } else if key == KEY_REPLY_ROUTE_TTL_SECONDS@ {
        v == (SettingValue::Number { as_u64: Some(view.route_ttl_seconds as u64) })
    } else if key == KEY_START_HIDDEN@ {
        v == SettingValue::Bool(view.start_hidden)
    } else if key == KEY_UPDATE_CHANNEL@ {
        text_value(v) == Some(
            match view.update_channel {
                UpdateChannelDto::Beta => "beta"@,
                UpdateChannelDto::Stable => "stable"@,
            },
        )
    } else {
        false
    }
}

/// The stored keys are pairwise different.
proof fn lemma_setting_keys_differ()
    ensures
        KEY_AUTO_START@.len() == 9,
        KEY_COOLDOWN_MIN@.len() == 24,
        KEY_COOLDOWN_SECONDS@.len() == 28,
        KEY_DEFAULT_CHANNEL_ACCOUNT_ID@.len() == 36,
        KEY_QUIET_HOURS@.len() == 23,
        KEY_NOTIFICATIONS_PAUSED@.len() == 19,
        KEY_REPLY_CONFIRMATION@.len() == 18,
        KEY_REPLY_ENABLED@.len() == 13,
        KEY_REPLY_ROUTE_TTL_SECONDS@.len() == 21,
        KEY_START_HIDDEN@.len() == 11,
        KEY_UPDATE_CHANNEL@.len() == 13,
        KEY_UPDATE_CHANNEL@ != KEY_REPLY_ENABLED@,
{
    reveal_strlit("autoStart");
    reveal_strlit("notification.cooldownMin");
    reveal_strlit("notification.cooldownSeconds");
    reveal_strlit("notification.defaultChannelAccountId");
    reveal_strlit("notification.quietHours");
    reveal_strlit("notificationsPaused");
    reveal_strlit("reply.confirmation");
    reveal_strlit("reply.enabled");
    reveal_strlit("reply.routeTtlSeconds");
    reveal_strlit("startHidden");
    reveal_strlit("updateChannel");
    assert(KEY_UPDATE_CHANNEL@[0] != KEY_REPLY_ENABLED@[0]);
}

/// The keys written, in the order of a sorted map.
pub open spec fn written_keys() -> Seq<Seq<char>> {
    seq![
        KEY_AUTO_START@,
        KEY_COOLDOWN_MIN@,
        KEY_COOLDOWN_SECONDS@,
        KEY_DEFAULT_CHANNEL_ACCOUNT_ID@,
        KEY_QUIET_HOURS@,
        KEY_NOTIFICATIONS_PAUSED@,
        KEY_REPLY_CONFIRMATION@,
        KEY_REPLY_ENABLED@,
        KEY_REPLY_ROUTE_TTL_SECONDS@,
        KEY_START_HIDDEN@,
        KEY_UPDATE_CHANNEL@,
    ]
}

/// The stored entries for the settings page, one per key, keys in sorted order.
pub fn dto_to_entries(dto: &SettingsDto) -> (r: Vec<SettingEntry>)
    ensures
        r@.len() == written_keys().len(),
        forall|i: int| 0 <= i < r@.len() ==> (#[trigger] r@[i]).0@ == written_keys()[i],
        forall|i: int| 0 <= i < r@.len() ==> written_entry(settings_view(*dto), written_keys()[i], #[trigger] r@[i].1),
        forall|i: int, j: int| 0 <= i < j < r@.len() ==> (#[trigger] r@[i]).0@ != (#[trigger] r@[j]).0@,
{
    proof {
        reveal_strlit("autoStart");
        reveal_strlit("notification.cooldownMin");
        reveal_strlit("notification.cooldownSeconds");
        reveal_strlit("notification.defaultChannelAccountId");
        reveal_strlit("notification.quietHours");
        reveal_strlit("notificationsPaused");
        reveal_strlit("reply.confirmation");
        reveal_strlit("reply.enabled");
        reveal_strlit("reply.routeTtlSeconds");
        reveal_strlit("startHidden");
        reveal_strlit("updateChannel");
    }
    let quiet = match &dto.quiet_hours {
        Some(q) => {
            if q.enabled {
                concat3(q.start.as_str(), "-", q.end.as_str())
            } else {
                String::new()
            }
        },
        None => String::new(),
    };
    let account = match &dto.default_channel_account_id {
        Some(id) => SettingValue::Text(id.clone()),
        None => SettingValue::Null,
    };
    let channel = match dto.update_channel {
        UpdateChannelDto::Beta => "beta",
        UpdateChannelDto::Stable => "stable",
    };
    let minutes: u64 = ((dto.cooldown_seconds as u64) + 59) / 60;
    let mut r: Vec<SettingEntry> = Vec::new();
    r.push((String::from_str(KEY_AUTO_START), SettingValue::Bool(dto.auto_start)));
    r.push((String::from_str(KEY_COOLDOWN_MIN), SettingValue::Number { as_u64: Some(minutes) }));
    r.push(
        (
            String::from_str(KEY_COOLDOWN_SECONDS),
            SettingValue::Number { as_u64: Some(dto.cooldown_seconds as u64) },
        ),
    );
    r.push((String::from_str(KEY_DEFAULT_CHANNEL_ACCOUNT_ID), account));
    r.push((String::from_str(KEY_QUIET_HOURS), SettingValue::Text(quiet)));
    r.push((String::from_str(KEY_NOTIFICATIONS_PAUSED), SettingValue::Bool(dto.notifications_paused)));
    r.push((String::from_str(KEY_REPLY_CONFIRMATION), SettingValue::Bool(dto.delivery_receipt_enabled)));
    r.push((String::from_str(KEY_REPLY_ENABLED), SettingValue::Bool(dto.reply_enabled)));
    r.push(
        (
            String::from_str(KEY_REPLY_ROUTE_TTL_SECONDS),
            SettingValue::Number { as_u64: Some(dto.route_ttl_seconds as u64) },
        ),
    );
    r.push((String::from_str(KEY_START_HIDDEN), SettingValue::Bool(dto.start_hidden)));
    r.push((String::from_str(KEY_UPDATE_CHANNEL), SettingValue::Text(String::from_str(channel))));
    proof {
        let view = settings_view(*dto);
        let keys = written_keys();
        assert(written_entry(view, keys[0], r@[0].1));
        lemma_setting_keys_differ();
        assert(written_entry(view, keys[1], r@[1].1));
        assert(written_entry(view, keys[2], r@[2].1));
        assert(written_entry(view, keys[3], r@[3].1));
        assert(written_entry(view, keys[4], r@[4].1));
        assert(written_entry(view, keys[5], r@[5].1));
        assert(written_entry(view, keys[6], r@[6].1));
        assert(written_entry(view, keys[7], r@[7].1));
        assert(written_entry(view, keys[8], r@[8].1));
        assert(written_entry(view, keys[9], r@[9].1));
        assert(written_entry(view, keys[10], r@[10].1));
        assert forall|i: int, j: int| 0 <= i < j < r@.len() implies (#[trigger] r@[i]).0@ != (#[trigger] r@[j]).0@ by {
            assert(r@[i].0@ == keys[i] && r@[j].0@ == keys[j]);
        }
    }
    r
}

// ---------------------------------------------------------------- checks before saving
pub open spec fn settings_error_spec(dto: SettingsDto) -> Option<(Seq<char>, Seq<char>)> {
    if dto.cooldown_seconds > 3600 {
        Some(("cooldown_seconds_out_of_range"@, "通知冷却时间必须在 0 到 3600 秒之间"@))
    } else if dto.route_ttl_seconds < 60 || dto.route_ttl_seconds > 604800 {
        Some(("route_ttl_out_of_range"@, "回复路由有效期必须在 60 到 604800 秒之间"@))
    } else {
        match dto.quiet_hours {
            Some(q) => if q.enabled && (trim(q.start@).len() == 0 || trim(q.end@).len() == 0) {
                Some(("quiet_hours_invalid"@, "勿扰时段的开始和结束时间不能为空"@))
            } else if q.enabled && q.start@ == q.end@ {
                Some(("quiet_hours_same"@, "勿扰时段的开始和结束时间不能相同"@))
            } else {
                None
            },
            None => None,
        }
    }
}

/// The settings page is saved only with a cooldown of at most an hour, a reply route
/// lifetime between a minute and a week, and enabled quiet hours with two different,
/// non-blank times.
pub fn validate_settings_dto(dto: &SettingsDto) -> (r: Result<(), CommandError>)
    ensures
        match settings_error_spec(*dto) {
            None => r is Ok,
            Some(e) => r matches Err(x) && x.code@ == e.0 && x.message@ == e.1 && !x.retryable
                && x.diagnostic_id is None,
        },
{
    if dto.cooldown_seconds > 3600 {
        return Err(CommandError::new("cooldown_seconds_out_of_range", "通知冷却时间必须在 0 到 3600 秒之间"));
    }
    if dto.route_ttl_seconds < 60 || dto.route_ttl_seconds > 7 * 24 * 3600 {
        return Err(CommandError::new("route_ttl_out_of_range", "回复路由有效期必须在 60 到 604800 秒之间"));
    }
    if let Some(q) = &dto.quiet_hours {
        if q.enabled {
            if trim_str(q.start.as_str()).as_str().is_empty() || trim_str(q.end.as_str()).as_str().is_empty() {
                return Err(CommandError::new("quiet_hours_invalid", "勿扰时段的开始和结束时间不能为空"));
            }
            if str_eq(q.start.as_str(), q.end.as_str()) {
                return Err(CommandError::new("quiet_hours_same", "勿扰时段的开始和结束时间不能相同"));
            }
        }
    }
    Ok(())
}

/// Whether a newly bound account becomes the default: a blank id is refused; an existing
/// non-blank default is kept (`None`); else the trimmed id is the new default.
pub fn default_account_decision(current: &Option<String>, account_id: &str) -> (r: Result<
    Option<String>,
    CommandError,
>)
    ensures
        trim(account_id@).len() == 0 ==> (r matches Err(e) && e.code@ == "default_channel_account_empty"@
            && e.message@ == "默认通知账号不能为空"@),
        trim(account_id@).len() > 0 ==> match current {
            Some(c) => if trim(c@).len() > 0 {
                r matches Ok(None)
            } else {
                r matches Ok(Some(n)) && n@ == trim(account_id@)
            },
            None => r matches Ok(Some(n)) && n@ == trim(account_id@),
        },
{
    let id = trim_str(account_id);
    if id.as_str().is_empty() {
        return Err(CommandError::new("default_channel_account_empty", "默认通知账号不能为空"));
    }
    if let Some(c) = current {
        if !trim_str(c.as_str()).as_str().is_empty() {
            return Ok(None);
        }
    }
    Ok(Some(id))
}

// ---------------------------------------------------------------- laws
/// `HH:MM` with hours below 24 and minutes below 60: the form the settings page writes.
pub open spec fn canonical_time(t: Seq<char>) -> bool {
    &&& t.len() == 5
    &&& is_digit(t[0]) && is_digit(t[1]) && t[2] == ':' && is_digit(t[3]) && is_digit(t[4])
    &&& digit_value(t[0]) * 10 + digit_value(t[1]) < 24
    &&& digit_value(t[3]) * 10 + digit_value(t[4]) < 60
}

/// Settings that survive a write and a read unchanged: quiet hours absent or enabled with
/// two `HH:MM` times, and a default account that is absent or already trimmed and not blank.
pub open spec fn settings_canonical(v: SettingsView) -> bool {
    &&& match v.quiet_hours {
        None => true,
        Some(q) => q.0 && canonical_time(q.1) && canonical_time(q.2),
    }
    &&& match v.default_channel_account_id {
        None => true,
        Some(id) => id.len() > 0 && trim(id) == id,
    }
}

proof fn lemma_two_digit_value(t: Seq<char>)
    requires
        t.len() == 2,
        is_digit(t[0]),
        is_digit(t[1]),
    ensures
        parse_uint(t, 4294967295) == Some(digit_value(t[0]) * 10 + digit_value(t[1])),
        digit_value(t[0]) * 10 + digit_value(t[1]) < 100 ==> two_digits(
            digit_value(t[0]) * 10 + digit_value(t[1]),
        ) == t,
{
    reveal_with_fuel(digits_value, 3);
    assert(t.drop_last().drop_last() =~= Seq::<char>::empty());
    assert(t.drop_last() =~= seq![t[0]]);
    assert(all_digits(t));
    let h = digit_value(t[0]) * 10 + digit_value(t[1]);
    assert(h / 10 == digit_value(t[0]));
    assert(h % 10 == digit_value(t[1]));
    assert(digit_char(digit_value(t[0])) == t[0]);
    assert(digit_char(digit_value(t[1])) == t[1]);
    assert(two_digits(h) =~= t);
}

proof fn lemma_canonical_time(t: Seq<char>)
    requires
        canonical_time(t),
    ensures
        time_text(t) == Some(t),
        trim(t) == t,
        !t.contains('-'),
{
    let a = t.subrange(0, 2);
    let b = t.subrange(3, 5);
    assert(t =~= a + seq![':'] + b);
    assert(!a.contains(':')) by {
        if a.contains(':') {
            let k = choose|k: int| 0 <= k < a.len() && a[k] == ':';
            assert(a[k] == t[k]);
        }
    }
    assert(!b.contains(':')) by {
        if b.contains(':') {
            let k = choose|k: int| 0 <= k < b.len() && b[k] == ':';
            assert(b[k] == t[k + 3]);
        }
    }
    lemma_split_pair(a, ':', b);
    assert(t[2] == ':');
    assert(t.contains(':'));
    lemma_two_digit_value(a);
    lemma_two_digit_value(b);
    lemma_trim_digit_edges(t);
    assert(!t.contains('-')) by {
        if t.contains('-') {
            let k = choose|k: int| 0 <= k < t.len() && t[k] == '-';
            assert(k == 0 || k == 1 || k == 2 || k == 3 || k == 4);
        }
    }
}

proof fn lemma_quiet_text_read_back(start: Seq<char>, end: Seq<char>)
    requires
        canonical_time(start),
        canonical_time(end),
    ensures
        quiet_text_spec(start + "-"@ + end) == Some((true, start, end)),
{
    reveal_strlit("-");
    lemma_canonical_time(start);
    lemma_canonical_time(end);
    let text = start + "-"@ + end;
    assert(text =~= start + seq!['-'] + end);
    lemma_trim_digit_edges(text);
    lemma_split_pair(start, '-', end);
}

proof fn lemma_lookup_written(entries: Seq<SettingEntry>)
    requires
        entries.len() == written_keys().len(),
        forall|i: int| 0 <= i < entries.len() ==> (#[trigger] entries[i]).0@ == written_keys()[i],
    ensures
        lookup(entries, KEY_AUTO_START@) == Some(entries[0].1),
        lookup(entries, KEY_COOLDOWN_MIN@) == Some(entries[1].1),
        lookup(entries, KEY_COOLDOWN_SECONDS@) == Some(entries[2].1),
        lookup(entries, KEY_DEFAULT_CHANNEL_ACCOUNT_ID@) == Some(entries[3].1),
        lookup(entries, KEY_QUIET_HOURS@) == Some(entries[4].1),
        lookup(entries, KEY_NOTIFICATIONS_PAUSED@) == Some(entries[5].1),
        lookup(entries, KEY_REPLY_CONFIRMATION@) == Some(entries[6].1),
        lookup(entries, KEY_REPLY_ENABLED@) == Some(entries[7].1),
        lookup(entries, KEY_REPLY_ROUTE_TTL_SECONDS@) == Some(entries[8].1),
        lookup(entries, KEY_START_HIDDEN@) == Some(entries[9].1),
        lookup(entries, KEY_UPDATE_CHANNEL@) == Some(entries[10].1),
{
    lemma_setting_keys_differ();
    reveal_with_fuel(lookup_from, 12);
    assert(entries[0].0@ == KEY_AUTO_START@);
    assert(entries[1].0@ == KEY_COOLDOWN_MIN@);
    assert(entries[2].0@ == KEY_COOLDOWN_SECONDS@);
    assert(entries[3].0@ == KEY_DEFAULT_CHANNEL_ACCOUNT_ID@);
    assert(entries[4].0@ == KEY_QUIET_HOURS@);
    assert(entries[5].0@ == KEY_NOTIFICATIONS_PAUSED@);
    assert(entries[6].0@ == KEY_REPLY_CONFIRMATION@);
    assert(entries[7].0@ == KEY_REPLY_ENABLED@);
    assert(entries[8].0@ == KEY_REPLY_ROUTE_TTL_SECONDS@);
    assert(entries[9].0@ == KEY_START_HIDDEN@);
    assert(entries[10].0@ == KEY_UPDATE_CHANNEL@);
}

/// What the settings page writes reads back unchanged, for settings in canonical form
/// (see `settings_canonical`); the entries are any that `dto_to_entries` may return.
pub proof fn lemma_settings_round_trip(view: SettingsView, entries: Seq<SettingEntry>)
    requires
        settings_canonical(view),
        entries.len() == written_keys().len(),
        forall|i: int| 0 <= i < entries.len() ==> (#[trigger] entries[i]).0@ == written_keys()[i],
        forall|i: int|
            0 <= i < entries.len() ==> written_entry(view, written_keys()[i], (#[trigger] entries[i]).1),
    ensures
        cooldown_fits(entries),
        settings_from_entries(entries) == view,
{
    lemma_setting_keys_differ();
    lemma_lookup_written(entries);
    reveal_strlit("beta");
    reveal_strlit("stable");
    let keys = written_keys();
    assert(written_entry(view, keys[0], entries[0].1));
    assert(written_entry(view, keys[2], entries[2].1));
    assert(written_entry(view, keys[3], entries[3].1));
    assert(written_entry(view, keys[4], entries[4].1));
    assert(written_entry(view, keys[5], entries[5].1));
    assert(written_entry(view, keys[6], entries[6].1));
    assert(written_entry(view, keys[7], entries[7].1));
    assert(written_entry(view, keys[8], entries[8].1));
    assert(written_entry(view, keys[9], entries[9].1));
    assert(written_entry(view, keys[10], entries[10].1));
    match view.quiet_hours {
        Some(q) => {
            lemma_quiet_text_read_back(q.1, q.2);
        },
        None => {
            assert(trim(Seq::<char>::empty()) =~= Seq::<char>::empty());
        },
    }
    match view.default_channel_account_id {
        Some(id) => {},
        None => {},
    }
    assert(value_text(Some(entries[10].1)) == text_value(entries[10].1));
    match view.update_channel {
        UpdateChannelDto::Beta => {},
        UpdateChannelDto::Stable => {
            assert("stable"@.len() == 6 && "beta"@.len() == 4);
            assert("stable"@ != "beta"@);
        },
    }
    let r = settings_from_entries(entries);
    assert(r.quiet_hours == view.quiet_hours);
    assert(r.default_channel_account_id == view.default_channel_account_id);
    assert(r.update_channel == view.update_channel);
    assert(r.cooldown_seconds == view.cooldown_seconds);
    assert(r.route_ttl_seconds == view.route_ttl_seconds);
}

// ---------------------------------------------------------------- the older settings file
/// The key of the paused flag in settings files written before the flag was renamed.
pub const LEGACY_PAUSED_KEY: &'static str = "paused";

/// A boolean member value, if it is one.
pub open spec fn bool_value(v: Option<JsonValue>) -> Option<bool> {
    match v {
        Some(JsonValue::Bool(b)) => Some(b),
        _ => None,
    }
}

/// The paused flag an older settings file gives: `notificationsPaused` when present (and
/// then only if it is a boolean), otherwise `paused`; nothing for a damaged file or one
/// that is not an object.
pub open spec fn legacy_paused_spec(doc: Result<JsonValue, Seq<char>>) -> Option<bool> {
    match doc {
        Ok(JsonValue::Object(members)) => {
            let m = member_entries(members@);
            match member_value(m, KEY_NOTIFICATIONS_PAUSED@) {
                Some(v) => bool_value(Some(v)),
                None => bool_value(member_value(m, LEGACY_PAUSED_KEY@)),
            }
        },
        _ => None,
    }
}

fn bool_member(members: &Vec<(String, JsonValue)>, i: usize) -> (r: Option<bool>)
    requires
        i < members.len(),
    ensures
        r == bool_value(Some(member_entries(members@)[i as int].1)),
{
    match &members[i].1 {
        JsonValue::Bool(b) => Some(*b),
        _ => None,
    }
}

/// The paused flag to adopt from the older settings file (`legacy_source`, when it could
/// be read) while the stored entries have none (`has_entry` false); the caller stores it.
pub fn legacy_pause_entry(has_entry: bool, legacy_source: Option<&str>) -> (r: Option<bool>)
    ensures
        r == (if has_entry || legacy_source is None {
            None
        } else {
            legacy_paused_spec(json_value(legacy_source->0@))
        }),
{
    if has_entry {
        return None;
    }
    let source = match legacy_source {
        Some(s) => s,
        None => return None,
    };
    match parse_json_value(source) {
        Ok(JsonValue::Object(members)) => match member_index(&members, KEY_NOTIFICATIONS_PAUSED) {
            Some(i) => bool_member(&members, i),
            None => match member_index(&members, LEGACY_PAUSED_KEY) {
                Some(i) => bool_member(&members, i),
                None => None,
            },
        },
        _ => None,
    }
}

} // verus!
