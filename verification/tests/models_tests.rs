use bottle_zoa::models::{leave_reply, UserDetailsInfo, UserInfo};
use bottle_zoa::sms::{auth_code_key, check_auth_code, AuthCodeError, SmsRequest};

fn details(name: Option<&str>, annual: &str, rest: &str) -> UserDetailsInfo {
    UserDetailsInfo {
        f_mobile: "13286661539".to_string(),
        f_name: name.map(|n| n.to_string()),
        f_annual_leave_days: annual.to_string(),
        f_rest_days: rest.to_string(),
        f_datetime: "2020-12-01".to_string(),
        f_remark: None,
    }
}

#[test]
fn default_user_is_unregistered() {
    let u = UserInfo::default();
    assert_eq!(u.f_open_id, "");
    assert_eq!(u.f_mobile, "110");
    assert_eq!(u.f_state, 0);
    assert_eq!(u.f_remark.as_deref(), Some("无"));
}

#[test]
fn user_state_of_lookup() {
    assert_eq!(UserInfo::get_user_state(&None), 0);
    let u = UserInfo::default().with_state(2);
    assert_eq!(UserInfo::get_user_state(&Some(u)), 2);
}

#[test]
fn user_changes_touch_one_field() {
    let u = UserInfo::default().with_mobile("13286661539");
    assert_eq!(u.f_mobile, "13286661539");
    assert_eq!(u.f_state, 0);
    let u = u.with_auth_code("711874");
    assert_eq!(u.f_remark.as_deref(), Some("711874"));
    assert_eq!(u.f_mobile, "13286661539");
}

#[test]
fn default_details_are_dated_today() {
    let d = UserDetailsInfo::default().unwrap();
    assert_eq!(d.f_mobile, "");
    assert_eq!(d.f_name.as_deref(), Some(""));
    assert_eq!(d.f_annual_leave_days, "0");
    assert_eq!(d.f_rest_days, "0");
    assert_eq!(d.f_remark.as_deref(), Some(""));
    assert_eq!(d.f_datetime.len(), 10);
    assert_eq!(&d.f_datetime[4..5], "-");
    assert_eq!(&d.f_datetime[7..8], "-");
}

#[test]
fn default_details_carry_the_utc_date() {
    // 2020-12-01T23:30:00Z: the UTC date, not the Beijing one.
    let d = UserDetailsInfo::default_at(1606865400).unwrap();
    assert_eq!(d.f_datetime, "2020-12-01");
    assert_eq!(d.f_annual_leave_days, "0");
    assert!(UserDetailsInfo::default_at(i64::MAX).is_none());
}

#[test]
fn latest_details_is_first_listed() {
    assert!(UserDetailsInfo::get_lastest_user_details_by_mobile(None).is_none());
    assert!(UserDetailsInfo::get_lastest_user_details_by_mobile(Some(vec![])).is_none());
    let list = vec![details(Some("张三"), "5", "1.5"), details(Some("李四"), "2", "0")];
    let latest = UserDetailsInfo::get_lastest_user_details_by_mobile(Some(list)).unwrap();
    assert_eq!(latest.f_name.as_deref(), Some("张三"));
}

#[test]
fn leave_reply_names_the_employee() {
    let r = leave_reply(details(Some("张三"), "5", "1.5"), "13286661539".to_string());
    assert_eq!(r, "张三您好，您的年假剩余5天，调休剩余1.5天");
    let r = leave_reply(details(None, "0", "2"), "13286661539".to_string());
    assert_eq!(r, "13286661539您好，您的年假剩余0天，调休剩余2天");
}

#[test]
fn auth_code_verdicts() {
    assert_eq!(check_auth_code(None, "711874"), Err(AuthCodeError::Unavailable));
    assert_eq!(check_auth_code(Some(String::new()), "711874"), Err(AuthCodeError::NotFound));
    assert_eq!(check_auth_code(Some("711874".to_string()), "711874"), Ok(true));
    assert_eq!(check_auth_code(Some("711874".to_string()), "123456"), Err(AuthCodeError::Mismatch));
    assert_eq!(check_auth_code(Some(String::new()), ""), Err(AuthCodeError::NotFound));
}

#[test]
fn auth_code_key_names_the_mobile() {
    assert_eq!(
        auth_code_key("15927459238"),
        "verificationCode:backstage:verificationIdentity:15927459238"
    );
}

#[test]
fn sms_request_for_a_mobile() {
    let r = SmsRequest::new("15927459238".to_string());
    assert_eq!(r.phone, "15927459238");
    assert_eq!((r.platform, r.expiration, r.len, r.kind), (0, 300, 6, 1));
}
