use bigbytesdb::set_statement::{
    check_query_result, check_value_count, set_target, setting_step, settings_changes, trim_quotes_string, ChangeSettings,
    SetTarget, SetType, SettingStep,
};
use bigbytesdb::ErrorCode;

#[test]
fn set_types_choose_their_target() {
    assert_eq!(set_target(SetType::SettingsGlobal), Ok(SetTarget::Settings { is_global: true }));
    assert_eq!(set_target(SetType::SettingsSession), Ok(SetTarget::Settings { is_global: false }));
    assert_eq!(set_target(SetType::Variable), Ok(SetTarget::Variables));
    assert_eq!(
        set_target(SetType::SettingsQuery),
        Err(ErrorCode::BadArguments("Query level setting can not be set".to_string()))
    );
}

#[test]
fn query_result_must_be_one_row_of_matching_width() {
    assert_eq!(check_query_result(1, 2, 2), Ok(()));
    assert_eq!(
        check_query_result(3, 2, 2),
        Err(ErrorCode::BadArguments(
            "Expect scalar result in set query result, but got 3 rows".to_string()
        ))
    );
    assert_eq!(
        check_query_result(1, 1, 2),
        Err(ErrorCode::BadArguments(
            "Expect 2 column in set query result, but got 1 columns".to_string()
        ))
    );
}

#[test]
fn value_count_must_match() {
    assert_eq!(check_value_count(2, 2), Ok(()));
    assert_eq!(
        check_value_count(2, 3),
        Err(ErrorCode::BadArguments("Expect 2 values in set statement, but got 3".to_string()))
    );
}

#[test]
fn quotes_are_trimmed_at_both_ends() {
    assert_eq!(trim_quotes_string("'Asia/Shanghai'"), "Asia/Shanghai");
    assert_eq!(trim_quotes_string("\"'UTC'\""), "UTC");
    assert_eq!(trim_quotes_string("a'b"), "a'b");
    assert_eq!(trim_quotes_string("''"), "");
    assert_eq!(trim_quotes_string(""), "");
}

#[test]
fn driver_settings_are_skipped() {
    assert_eq!(setting_step("SQL_MODE", "x", false), Ok(SettingStep::Skip));
    assert_eq!(setting_step("autocommit", "1", false), Ok(SettingStep::Skip));
}

#[test]
fn timezone_is_checked_and_unquoted() {
    assert_eq!(
        setting_step("timezone", "'Asia/Shanghai'", false),
        Ok(SettingStep::Change { value: "Asia/Shanghai".to_string() })
    );
    assert_eq!(setting_step("TimeZone", "UTC", false), Ok(SettingStep::Change { value: "UTC".to_string() }));
    assert_eq!(
        setting_step("timezone", "'Mars/Olympus'", false),
        Err(ErrorCode::InvalidTimezone("Invalid Timezone: 'Mars/Olympus'".to_string()))
    );
}

#[test]
fn network_policy_and_sandbox_tenant_steps() {
    assert_eq!(
        setting_step("network_policy", "p1", false),
        Ok(SettingStep::ChangeNetworkPolicy { value: "p1".to_string() })
    );
    match setting_step("sandbox_tenant", "t9", true).unwrap() {
        SettingStep::ChangeSandboxTenant { create: Some(t), value } => {
            assert_eq!(t.tenant_name(), "t9");
            assert_eq!(value, "t9");
        }
        other => panic!("unexpected {:?}", other),
    }
    assert_eq!(
        setting_step("sandbox_tenant", "t9", false),
        Ok(SettingStep::ChangeSandboxTenant { create: None, value: "t9".to_string() })
    );
    assert_eq!(
        setting_step("sandbox_tenant", "", true),
        Ok(SettingStep::ChangeSandboxTenant { create: None, value: String::new() })
    );
    assert_eq!(
        setting_step("max_threads", "8", false),
        Ok(SettingStep::Change { value: "8".to_string() })
    );
}

#[test]
fn changes_are_recorded_in_step() {
    let mut c = ChangeSettings::new();
    c.record("timezone", "'UTC'", true);
    c.record("max_threads", "8", false);
    assert_eq!(c.keys, vec!["timezone", "max_threads"]);
    assert_eq!(c.values, vec!["'UTC'", "8"]);
    assert_eq!(c.is_globals, vec![true, false]);
}

#[test]
fn reported_changes_leave_out_skipped_names() {
    let idents = vec!["sql_mode".to_string(), "timezone".to_string(), "max_threads".to_string()];
    let scalars = vec!["x".to_string(), "'UTC'".to_string(), "8".to_string()];
    let steps: Vec<SettingStep> = idents
        .iter()
        .zip(scalars.iter())
        .map(|(v, s)| setting_step(v, s, false).unwrap())
        .collect();
    let c = settings_changes(&idents, &scalars, &steps, true);
    assert_eq!(c.keys, vec!["timezone", "max_threads"]);
    assert_eq!(c.values, vec!["'UTC'", "8"]);
    assert_eq!(c.is_globals, vec![true, true]);
}
