use agentnotify_desktop::bridge::dto::QuietHoursDto;
use agentnotify_desktop::production::targets::{
    QuietHoursWindow, TargetAccount, account_targets, agent_enabled, global_cooldown_seconds,
    global_quiet_hours, order_target_accounts, parse_hh_mm,
};

fn account(id: &str, enabled: bool) -> TargetAccount {
    TargetAccount { id: id.to_owned(), enabled }
}

#[test]
fn default_account_comes_first_then_by_id() {
    let accounts = vec![
        account("zeta", true),
        account("beta", true),
        account("off", false),
        account("alpha", true),
    ];
    assert_eq!(order_target_accounts(&accounts, &None), vec!["alpha", "beta", "zeta"]);
    assert_eq!(
        order_target_accounts(&accounts, &Some("zeta".to_owned())),
        vec!["zeta", "alpha", "beta"]
    );
    assert_eq!(order_target_accounts(&accounts, &Some("off".to_owned())), vec!["alpha", "beta", "zeta"]);
    assert!(order_target_accounts(&Vec::new(), &None).is_empty());
}

#[test]
fn quiet_hours_become_minutes_of_the_day() {
    assert_eq!(parse_hh_mm("23:59"), Some((23, 59)));
    assert_eq!(parse_hh_mm("24:00"), None);
    assert_eq!(parse_hh_mm("7"), None);
    assert_eq!(parse_hh_mm("+7:05"), Some((7, 5)));
    let q = Some(QuietHoursDto { enabled: true, start: "22:30".to_owned(), end: "07:00".to_owned() });
    assert_eq!(
        global_quiet_hours(&q),
        Some(QuietHoursWindow { start_minute: 1350, end_minute: 420, utc_offset_minutes: 480 })
    );
    let off = Some(QuietHoursDto { enabled: false, start: "22:30".to_owned(), end: "07:00".to_owned() });
    assert_eq!(global_quiet_hours(&off), None);
    assert_eq!(global_quiet_hours(&None), None);
}

#[test]
fn agents_and_accounts_get_targets_by_their_settings() {
    assert_eq!(global_cooldown_seconds(0), None);
    assert_eq!(global_cooldown_seconds(30), Some(30));
    assert!(agent_enabled(None));
    assert!(!agent_enabled(Some(false)));
    assert_eq!(account_targets("user", true), (true, true));
    assert_eq!(account_targets("user", false), (true, false));
    assert_eq!(account_targets("  ", true), (false, false));
}
