use bottle_zoa::commands::{dispatch_command, is_valid_mobile, Action, Event, Notice, UserState};
use bottle_zoa::models::{UserDetailsInfo, UserInfo};

/// A stand-in for the user store, the SMS gateway, the code store and the
/// leave store.
struct World {
    user: Option<UserInfo>,
    write_ok: bool,
    stored_code: Option<String>,
    details: Option<UserDetailsInfo>,
    inserted: Vec<UserInfo>,
    saved: Vec<UserInfo>,
    texted: Vec<String>,
    fetched_keys: Vec<String>,
}

impl World {
    fn new(user: Option<UserInfo>) -> World {
        World {
            user,
            write_ok: true,
            stored_code: None,
            details: None,
            inserted: vec![],
            saved: vec![],
            texted: vec![],
            fetched_keys: vec![],
        }
    }

    /// Runs one command to its answer; returns the answer and the number of
    /// events handed to the dialog.
    fn run(&mut self, open_id: &str, command: &str) -> (String, usize) {
        let (mut dialog, mut action) = dispatch_command(open_id.to_string(), command.to_string());
        let mut steps = 0;
        loop {
            let event = match action {
                Action::Reply(text) => {
                    assert!(dialog.is_done());
                    return (text, steps);
                }
                Action::LoadUser(id) => {
                    assert_eq!(id, open_id);
                    Event::UserLoaded(self.user.clone())
                }
                Action::InsertUser(u) => {
                    if self.write_ok {
                        self.user = Some(u.clone());
                    }
                    self.inserted.push(u);
                    Event::Written(self.write_ok)
                }
                Action::SaveUser(u) => {
                    if self.write_ok {
                        self.user = Some(u.clone());
                    }
                    self.saved.push(u);
                    Event::Written(self.write_ok)
                }
                Action::SendCode(mobile) => {
                    self.texted.push(mobile);
                    Event::CodeSent
                }
                Action::FetchCode(key) => {
                    self.fetched_keys.push(key);
                    Event::CodeFetched(self.stored_code.clone())
                }
                Action::LoadLatestDetails(mobile) => {
                    assert_eq!(mobile, self.user.as_ref().unwrap().f_mobile);
                    Event::DetailsLoaded(self.details.clone())
                }
            };
            assert!(dialog.accepts(&event));
            let (d, a) = dialog.step(event);
            dialog = d;
            action = a;
            steps += 1;
            assert!(steps <= 8);
        }
    }
}

fn user(state: i32, mobile: &str) -> UserInfo {
    UserInfo { f_open_id: "oid".to_string(), f_mobile: mobile.to_string(), f_state: state, f_remark: None }
}

#[test]
fn state_codes() {
    assert_eq!(UserState::BeforeRegister.code(), 0);
    assert_eq!(UserState::RegisteringWaitForMobile.code(), 1);
    assert_eq!(UserState::RegisteringWaitForAuthCode.code(), 2);
    assert_eq!(UserState::CompleteRegister.code(), 3);
}

#[test]
fn mobile_numbers() {
    assert!(is_valid_mobile("13286661539"));
    assert!(is_valid_mobile("15927459238"));
    assert!(!is_valid_mobile("23286661539"));
    assert!(!is_valid_mobile("1328666153"));
    assert!(!is_valid_mobile("132866615390"));
    assert!(!is_valid_mobile("1328666153a"));
    assert!(!is_valid_mobile(""));
}

#[test]
fn unregistered_user_is_asked_to_register() {
    let mut w = World::new(None);
    let (reply, _) = w.run("oid", "hello");
    assert_eq!(reply, "您还没有注册，请回复[注册]两个字进行注册流程！");
    assert!(w.inserted.is_empty());
}

#[test]
fn register_command_starts_registration() {
    for command in ["注册", "register"] {
        let mut w = World::new(None);
        let (reply, steps) = w.run("oid", command);
        assert_eq!(reply, "开启注册流程, 请输入在公司登记的真实手机号，如:\n13286661539");
        assert_eq!(steps, 2);
        assert_eq!(w.inserted.len(), 1);
        let u = &w.inserted[0];
        assert_eq!(u.f_open_id, "oid");
        assert_eq!(u.f_state, 1);
        assert_eq!(u.f_mobile, "110");
        assert_eq!(u.f_remark.as_deref(), Some("无"));
    }
}

#[test]
fn failed_insert_is_a_server_error() {
    let mut w = World::new(None);
    w.write_ok = false;
    let (reply, _) = w.run("oid", "注册");
    assert_eq!(reply, Notice::ServerError.text());
    assert_eq!(reply, "服务器内部错误，请稍后重试");
}

#[test]
fn invalid_mobile_is_refused() {
    let mut w = World::new(Some(user(1, "110")));
    let (reply, _) = w.run("oid", "12345");
    assert_eq!(reply, "请输入正确的手机号");
    assert!(w.texted.is_empty() && w.saved.is_empty());
}

#[test]
fn valid_mobile_gets_a_code() {
    let mut w = World::new(Some(user(1, "110")));
    let (reply, steps) = w.run("oid", "13286661539");
    assert_eq!(reply, "您的验证码已发送，请回复验证码:");
    assert_eq!(steps, 6);
    assert_eq!(w.texted, vec!["13286661539".to_string()]);
    assert_eq!(w.saved.len(), 2);
    assert_eq!(w.saved[0].f_mobile, "13286661539");
    assert_eq!(w.saved[0].f_state, 1);
    assert_eq!(w.saved[1].f_state, 2);
    assert_eq!(w.user.as_ref().unwrap().f_state, 2);
}

#[test]
fn failed_saves_fall_back_to_waiting_for_mobile() {
    let mut w = World::new(Some(user(1, "110")));
    w.write_ok = false;
    let (reply, steps) = w.run("oid", "13286661539");
    assert_eq!(reply, "验证码发送失败，请重新回复手机号");
    assert_eq!(steps, 8);
    assert_eq!(w.saved.len(), 3);
    assert_eq!(w.saved[2].f_state, 1);
}

#[test]
fn accepted_code_completes_registration() {
    let mut w = World::new(Some(user(2, "13286661539")));
    w.stored_code = Some("711874".to_string());
    let (reply, _) = w.run("oid", "711874");
    assert_eq!(reply, "注册成功！");
    assert_eq!(w.fetched_keys, vec!["verificationCode:backstage:verificationIdentity:13286661539".to_string()]);
    assert_eq!(w.user.as_ref().unwrap().f_state, 3);
}

#[test]
fn rejected_code_returns_to_mobile() {
    for stored in [Some("711874".to_string()), Some(String::new()), None] {
        let mut w = World::new(Some(user(2, "13286661539")));
        w.stored_code = stored;
        let (reply, _) = w.run("oid", "000000");
        assert_eq!(reply, "验证码错误,回退到输入手机号状态，请重新回复手机号");
        assert_eq!(w.user.as_ref().unwrap().f_state, 1);
    }
}

#[test]
fn deleted_profile_while_checking_code() {
    let mut w = World::new(None);
    let (mut d, _) = dispatch_command("oid".to_string(), "711874".to_string());
    // The state is read as 2, then the user disappears.
    let (d2, a) = d.step(Event::UserLoaded(Some(user(2, "13286661539"))));
    d = d2;
    assert!(matches!(a, Action::LoadUser(_)));
    let (_, a) = d.step(Event::UserLoaded(w.user.take()));
    match a {
        Action::Reply(text) => assert_eq!(text, "您的信息被删除了，你需要重新注册, 输入[注册]两个字开始注册"),
        _ => panic!("expected an answer"),
    }
}

#[test]
fn registered_user_queries_leave() {
    let mut w = World::new(Some(user(3, "13286661539")));
    w.details = Some(UserDetailsInfo {
        f_mobile: "13286661539".to_string(),
        f_name: Some("张三".to_string()),
        f_annual_leave_days: "5".to_string(),
        f_rest_days: "1.5".to_string(),
        f_datetime: "2020-12-01".to_string(),
        f_remark: None,
    });
    for command in ["年假", "调休"] {
        let (reply, _) = w.run("oid", command);
        assert_eq!(reply, "张三您好，您的年假剩余5天，调休剩余1.5天");
    }
    assert!(w.saved.is_empty() && w.inserted.is_empty());
}

#[test]
fn registered_user_without_balance() {
    let mut w = World::new(Some(user(3, "13286661539")));
    let (reply, _) = w.run("oid", "年假");
    assert_eq!(reply, "未查询到您的假期,请联系管理员录入");
}

#[test]
fn registered_user_unknown_command() {
    let mut w = World::new(Some(user(3, "13286661539")));
    let (reply, _) = w.run("oid", "注册");
    assert_eq!(reply, "不识别的指令(更多指令开发中... ^_^)");
    assert!(w.saved.is_empty() && w.inserted.is_empty());
}

#[test]
fn unknown_state_is_reported() {
    let mut w = World::new(Some(user(7, "13286661539")));
    let (reply, _) = w.run("oid", "年假");
    assert_eq!(reply, "Oooooh! 您处于不合法的状态中");
}
