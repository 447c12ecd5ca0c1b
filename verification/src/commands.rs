//! The registration and query dialog: what the bot does, step by step, with one
//! command a user sends, given what the user and leave stores answer.
//!
//! A dialog starts with [`dispatch_command`] and then alternates: the caller
//! performs the [`Action`] it was given and hands back the matching [`Event`] to
//! [`Dialog::step`], until the action is a [`Action::Reply`].

use vstd::prelude::*;
use crate::models::{
    default_user, leave_reply, leave_reply_for, opt_view, UserDetailsInfo, UserDetailsInfoView,
    UserInfo, UserInfoView,
};
use crate::dialog_laws::law_step_progresses;
use crate::sms::{auth_code_key, auth_code_key_spec, auth_code_verdict, check_auth_code};

verus! {

/// Where a user's registration stands.
#[derive(PartialEq, Eq, Structural, Debug, Clone, Copy)]
pub enum UserState {
    /// Not registered.
    BeforeRegister,
    /// Registering; the bot waits for the mobile number.
    RegisteringWaitForMobile,
    /// Registering; a code was texted and the bot waits for it.
    RegisteringWaitForAuthCode,
    /// Registered.
    CompleteRegister,
}

impl UserState {
    /// The code under which the state is stored.
    pub open spec fn value(self) -> i32 {
        match self {
            UserState::BeforeRegister => 0,
            UserState::RegisteringWaitForMobile => 1,
            UserState::RegisteringWaitForAuthCode => 2,
            UserState::CompleteRegister => 3,
        }
    }

    /// The code under which the state is stored.
    pub fn code(self) -> (c: i32)
        ensures
            c == self.value(),
    {
        match self {
            UserState::BeforeRegister => 0,
            UserState::RegisteringWaitForMobile => 1,
            UserState::RegisteringWaitForAuthCode => 2,
            UserState::CompleteRegister => 3,
        }
    }
}

/// The fixed answers of the dialog.
#[derive(PartialEq, Eq, Structural, Debug, Clone, Copy)]
pub enum Notice {
    RegistrationStarted,
    ServerError,
    NotRegistered,
    CodeSent,
    CodeSendFailed,
    InvalidMobile,
    Registered,
    CodeRejected,
    ProfileDeleted,
    NoLeaveRecord,
    UnknownCommand,
    InvalidState,
}

/// The text of a fixed answer.
pub open spec fn notice_text(n: Notice) -> Seq<char> {
    match n {
        Notice::RegistrationStarted => "开启注册流程, 请输入在公司登记的真实手机号，如:\n13286661539"@,
        Notice::ServerError => "服务器内部错误，请稍后重试"@,
        Notice::NotRegistered => "您还没有注册，请回复[注册]两个字进行注册流程！"@,
        Notice::CodeSent => "您的验证码已发送，请回复验证码:"@,
        Notice::CodeSendFailed => "验证码发送失败，请重新回复手机号"@,
        Notice::InvalidMobile => "请输入正确的手机号"@,
        Notice::Registered => "注册成功！"@,
        Notice::CodeRejected => "验证码错误,回退到输入手机号状态，请重新回复手机号"@,
        Notice::ProfileDeleted => "您的信息被删除了，你需要重新注册, 输入[注册]两个字开始注册"@,
        Notice::NoLeaveRecord => "未查询到您的假期,请联系管理员录入"@,
        Notice::UnknownCommand => "不识别的指令(更多指令开发中... ^_^)"@,
        Notice::InvalidState => "Oooooh! 您处于不合法的状态中"@,
    }
}

impl Notice {
    /// The text of this answer.
    pub fn text(self) -> (s: String)
        ensures
            s@ == notice_text(self),
    {
        match self {
            Notice::RegistrationStarted => "开启注册流程, 请输入在公司登记的真实手机号，如:\n13286661539".to_owned(),
            Notice::ServerError => "服务器内部错误，请稍后重试".to_owned(),
            Notice::NotRegistered => "您还没有注册，请回复[注册]两个字进行注册流程！".to_owned(),
            Notice::CodeSent => "您的验证码已发送，请回复验证码:".to_owned(),
            Notice::CodeSendFailed => "验证码发送失败，请重新回复手机号".to_owned(),
            Notice::InvalidMobile => "请输入正确的手机号".to_owned(),
            Notice::Registered => "注册成功！".to_owned(),
            Notice::CodeRejected => "验证码错误,回退到输入手机号状态，请重新回复手机号".to_owned(),
            Notice::ProfileDeleted => "您的信息被删除了，你需要重新注册, 输入[注册]两个字开始注册".to_owned(),
            Notice::NoLeaveRecord => "未查询到您的假期,请联系管理员录入".to_owned(),
            Notice::UnknownCommand => "不识别的指令(更多指令开发中... ^_^)".to_owned(),
            Notice::InvalidState => "Oooooh! 您处于不合法的状态中".to_owned(),
        }
    }
}

/// The pattern a mobile number must match: `1` and ten more digits.
pub const MOBILE_PATTERN: &'static str = "^1\\d{10}$";

/// What `regex::Regex::new(pattern)` and then `is_match(text)` give: `None`
/// where the pattern does not compile.
pub uninterp spec fn regex_outcome(pattern: Seq<char>, text: Seq<char>) -> Option<bool>;

/// `text` is `1` followed by ten ASCII digits.
pub open spec fn ascii_mobile_shape(text: Seq<char>) -> bool {
    &&& text.len() == 11
    &&& text[0] == '1'
    &&& forall|i: int| 1 <= i < 11 ==> '0' <= #[trigger] text[i] <= '9'
}

/// Compiles `pattern` with `regex::Regex::new` and, where it compiles, asks
/// `Regex::is_match` whether `text` holds a match. The result is a function of
/// the two strings (named [`regex_outcome`]). Of the mobile pattern the regex
/// documentation gives that it compiles (`\d` is one Unicode decimal digit,
/// `^` and `$` the ends of the text), that a match is eleven characters long
/// and starts with `1`, and that `1` with ten ASCII digits matches; nothing
/// else about Unicode digits is stated. Both calls stand here because
/// `is_match` is asked of the compiled `Regex`, which is opaque here.
#[verifier::external_body]
fn regex_match(pattern: &str, text: &str) -> (r: Option<bool>)
    ensures
        r == regex_outcome(pattern@, text@),
        pattern@ == MOBILE_PATTERN@ ==> {
            &&& r is Some
            &&& r == Some(true) ==> text@.len() == 11 && text@[0] == '1'
            &&& ascii_mobile_shape(text@) ==> r == Some(true)
        },
{
    match regex::Regex::new(pattern) {
        Ok(re) => Some(re.is_match(text)),
        Err(_) => None,
    }
}

/// A mobile number the bot accepts.
pub open spec fn valid_mobile(text: Seq<char>) -> bool {
    regex_outcome(MOBILE_PATTERN@, text) == Some(true)
}

/// Whether `text` is a mobile number the bot accepts.
pub fn is_valid_mobile(text: &str) -> (r: bool)
    ensures
        r == valid_mobile(text@),
        r ==> text@.len() == 11 && text@[0] == '1',
        ascii_mobile_shape(text@) ==> r,
{
    match regex_match(MOBILE_PATTERN, text) {
        Some(found) => found,
        None => false,
    }
}

/// The command that starts registration.
pub open spec fn register_command(command: Seq<char>) -> bool {
    command == "register"@ || command == "注册"@
}

/// A command that asks for the leave balance.
pub open spec fn leave_command(command: Seq<char>) -> bool {
    command == "年假"@ || command == "调休"@
}

/// What follows once a registration state was written (or could not be).
#[derive(PartialEq, Eq, Structural, Debug, Clone, Copy)]
pub enum AfterState {
    /// The code was texted: confirm it if both the mobile number and the state
    /// were saved, else fall back to waiting for the mobile number.
    ConfirmCodeSent { mobile_saved: bool },
    /// Answer with a fixed notice.
    Answer(Notice),
}

/// Where a dialog stands, and the event it waits for.
pub enum Stage {
    /// Waits for the user record, to read the registration state.
    ReadingState,
    /// Waits for the result of inserting the new user.
    Registering,
    /// Waits until the code has been sent to the mobile number.
    SendingCode,
    /// Waits for the user record, to save the mobile number.
    LoadingForMobile,
    /// Waits for the result of saving the mobile number.
    SavingMobile,
    /// Waits for the user record, to save registration state `target`.
    LoadingForState { target: UserState, next: AfterState },
    /// Waits for the result of saving registration state `target`.
    SavingState { target: UserState, next: AfterState },
    /// Waits for the user record, to learn the mobile number the code went to.
    CheckingCode,
    /// Waits for the code kept for the user's mobile number.
    FetchingCode,
    /// Waits for the user record, to learn the user's mobile number.
    LoadingForDays,
    /// Waits for the latest leave balance of mobile number `mobile`.
    FetchingDays { mobile: String },
    /// Has answered.
    Done,
}

/// The mathematical value of a [`Stage`].
pub enum StageView {
    ReadingState,
    Registering,
    SendingCode,
    LoadingForMobile,
    SavingMobile,
    LoadingForState { target: UserState, next: AfterState },
    SavingState { target: UserState, next: AfterState },
    CheckingCode,
    FetchingCode,
    LoadingForDays,
    FetchingDays { mobile: Seq<char> },
    Done,
}

impl View for Stage {
    type V = StageView;

    open spec fn view(&self) -> StageView {
        match self {
            Stage::ReadingState => StageView::ReadingState,
            Stage::Registering => StageView::Registering,
            Stage::SendingCode => StageView::SendingCode,
            Stage::LoadingForMobile => StageView::LoadingForMobile,
            Stage::SavingMobile => StageView::SavingMobile,
            Stage::LoadingForState { target, next } => StageView::LoadingForState { target: *target, next: *next },
            Stage::SavingState { target, next } => StageView::SavingState { target: *target, next: *next },
            Stage::CheckingCode => StageView::CheckingCode,
            Stage::FetchingCode => StageView::FetchingCode,
            Stage::LoadingForDays => StageView::LoadingForDays,
            Stage::FetchingDays { mobile } => StageView::FetchingDays { mobile: mobile@ },
            Stage::Done => StageView::Done,
        }
    }
}

/// The handling of one command from one user.
pub struct Dialog {
    /// The user's open id.
    pub open_id: String,
    /// The command: a keyword, a mobile number or an auth code, by stage.
    pub command: String,
    /// The registration state read when the dialog began (0 until then).
    pub state_read: i32,
    /// Where the dialog stands.
    pub stage: Stage,
}

/// The mathematical value of a [`Dialog`].
pub struct DialogView {
    pub open_id: Seq<char>,
    pub command: Seq<char>,
    pub state_read: i32,
    pub stage: StageView,
}

impl View for Dialog {
    type V = DialogView;

    open spec fn view(&self) -> DialogView {
        DialogView {
            open_id: self.open_id@,
            command: self.command@,
            state_read: self.state_read,
            stage: self.stage@,
        }
    }
}

/// What the caller is asked to do next.
pub enum Action {
    /// Look up the user with this open id.
    LoadUser(String),
    /// Insert this new user.
    InsertUser(UserInfo),
    /// Save this user record over the stored one with the same open id.
    SaveUser(UserInfo),
    /// Text a verification code to this mobile number, without waiting.
    SendCode(String),
    /// Fetch the code kept under this key.
    FetchCode(String),
    /// Look up the latest leave balance of this mobile number.
    LoadLatestDetails(String),
    /// Answer the user with this text; the dialog is over.
    Reply(String),
}

/// The mathematical value of an [`Action`].
pub enum ActionView {
    LoadUser(Seq<char>),
    InsertUser(UserInfoView),
    SaveUser(UserInfoView),
    SendCode(Seq<char>),
    FetchCode(Seq<char>),
    LoadLatestDetails(Seq<char>),
    Reply(Seq<char>),
}

impl View for Action {
    type V = ActionView;

    open spec fn view(&self) -> ActionView {
        match self {
            Action::LoadUser(s) => ActionView::LoadUser(s@),
            Action::InsertUser(u) => ActionView::InsertUser(u@),
            Action::SaveUser(u) => ActionView::SaveUser(u@),
            Action::SendCode(s) => ActionView::SendCode(s@),
            Action::FetchCode(s) => ActionView::FetchCode(s@),
            Action::LoadLatestDetails(s) => ActionView::LoadLatestDetails(s@),
            Action::Reply(s) => ActionView::Reply(s@),
        }
    }
}

/// What the caller reports after performing an action.
pub enum Event {
    /// The looked-up user, `None` where none was found or the lookup failed.
    UserLoaded(Option<UserInfo>),
    /// Whether an insert or a save succeeded.
    Written(bool),
    /// The code has been handed to the SMS service.
    CodeSent,
    /// The kept code: `None` where the code store could not be reached, else
    /// the stored text, empty where none is kept.
    CodeFetched(Option<String>),
    /// The latest leave balance, `None` where there is none or the lookup failed.
    DetailsLoaded(Option<UserDetailsInfo>),
}

/// The mathematical value of an [`Event`].
pub enum EventView {
    UserLoaded(Option<UserInfoView>),
    Written(bool),
    CodeSent,
    CodeFetched(Option<Seq<char>>),
    DetailsLoaded(Option<UserDetailsInfoView>),
}

impl View for Event {
    type V = EventView;

    open spec fn view(&self) -> EventView {
        match self {
            Event::UserLoaded(u) => EventView::UserLoaded(match u {
                Some(user) => Some(user@),
                None => None,
            }),
            Event::Written(ok) => EventView::Written(*ok),
            Event::CodeSent => EventView::CodeSent,
            Event::CodeFetched(code) => EventView::CodeFetched(opt_view(*code)),
            Event::DetailsLoaded(d) => EventView::DetailsLoaded(match d {
                Some(details) => Some(details@),
                None => None,
            }),
        }
    }
}

/// The event a stage waits for.
pub open spec fn accepts(stage: StageView, event: EventView) -> bool {
    match stage {
        StageView::ReadingState | StageView::LoadingForMobile | StageView::LoadingForState { .. }
        | StageView::CheckingCode | StageView::LoadingForDays => event is UserLoaded,
        StageView::Registering | StageView::SavingMobile | StageView::SavingState { .. } => event is Written,
        StageView::SendingCode => event is CodeSent,
        StageView::FetchingCode => event is CodeFetched,
        StageView::FetchingDays { .. } => event is DetailsLoaded,
        StageView::Done => false,
    }
}

/// The registration states that a dialog which read state `read` may write.
pub open spec fn may_write(read: i32, written: i32) -> bool {
    ||| read == 0 && written == 1
    ||| read == 1 && (written == 1 || written == 2)
    ||| read == 2 && (written == 1 || written == 3)
}

/// The state updates a dialog may be waiting on: after texting a code, the
/// move to waiting for it and the fall back to waiting for the mobile number;
/// after a code check, completion or the same fall back.
pub open spec fn state_update_fits(read: i32, target: UserState, next: AfterState) -> bool {
    ||| read == 1 && target == UserState::RegisteringWaitForAuthCode && next is ConfirmCodeSent
    ||| read == 1 && target == UserState::RegisteringWaitForMobile && next == AfterState::Answer(Notice::CodeSendFailed)
    ||| read == 2 && target == UserState::CompleteRegister && next == AfterState::Answer(Notice::Registered)
    ||| read == 2 && target == UserState::RegisteringWaitForMobile && next == AfterState::Answer(Notice::CodeRejected)
}

impl DialogView {
    /// The stage agrees with the registration state read.
    pub open spec fn wf(self) -> bool {
        match self.stage {
            StageView::ReadingState => self.state_read == 0,
            StageView::Registering => self.state_read == 0,
            StageView::SendingCode | StageView::LoadingForMobile | StageView::SavingMobile => self.state_read == 1,
            StageView::LoadingForState { target, next } => state_update_fits(self.state_read, target, next),
            StageView::SavingState { target, next } => state_update_fits(self.state_read, target, next),
            StageView::CheckingCode | StageView::FetchingCode => self.state_read == 2,
            StageView::LoadingForDays | StageView::FetchingDays { .. } => self.state_read == 3,
            StageView::Done => true,
        }
    }

    /// The same dialog at another stage.
    pub open spec fn at(self, stage: StageView) -> DialogView {
        DialogView { stage, ..self }
    }
}

/// How far a stage is from the answer: every step lowers it, and only the
/// finished dialog has rank 0.
pub open spec fn rank(stage: StageView) -> nat {
    match stage {
        StageView::ReadingState => 8,
        StageView::SendingCode => 7,
        StageView::LoadingForMobile => 6,
        StageView::SavingMobile => 5,
        StageView::LoadingForState { next, .. } => if next is ConfirmCodeSent { 4 } else { 2 },
        StageView::SavingState { next, .. } => if next is ConfirmCodeSent { 3 } else { 1 },
        StageView::CheckingCode => 4,
        StageView::FetchingCode => 3,
        StageView::LoadingForDays => 2,
        StageView::FetchingDays { .. } => 1,
        StageView::Registering => 1,
        StageView::Done => 0,
    }
}

/// Moves to `stage` and asks the caller for `action`.
pub open spec fn goto(d: DialogView, stage: StageView, action: ActionView) -> (DialogView, ActionView) {
    (d.at(stage), action)
}

/// Ends the dialog with a fixed answer.
pub open spec fn answer(d: DialogView, n: Notice) -> (DialogView, ActionView) {
    (d.at(StageView::Done), ActionView::Reply(notice_text(n)))
}

/// The step once a registration state was written (`ok`) or could not be.
pub open spec fn after_state(d: DialogView, ok: bool, next: AfterState) -> (DialogView, ActionView) {
    match next {
        AfterState::ConfirmCodeSent { mobile_saved } => if ok && mobile_saved {
            answer(d, Notice::CodeSent)
        } else {
            goto(
                d,
                StageView::LoadingForState {
                    target: UserState::RegisteringWaitForMobile,
                    next: AfterState::Answer(Notice::CodeSendFailed),
                },
                ActionView::LoadUser(d.open_id),
            )
        },
        AfterState::Answer(n) => answer(d, n),
    }
}

/// The dialog's first step once the registration state `state` was read.
pub open spec fn on_state(d: DialogView, state: i32) -> (DialogView, ActionView) {
    let d = DialogView { state_read: state, ..d };
    if state == 0 {
        if register_command(d.command) {
            goto(
                d,
                StageView::Registering,
                ActionView::InsertUser(default_user().with_open_id(d.open_id).with_state(1)),
            )
        } else {
            answer(d, Notice::NotRegistered)
        }
    } else if state == 1 {
        if valid_mobile(d.command) {
            goto(d, StageView::SendingCode, ActionView::SendCode(d.command))
        } else {
            answer(d, Notice::InvalidMobile)
        }
    } else if state == 2 {
        goto(d, StageView::CheckingCode, ActionView::LoadUser(d.open_id))
    } else if state == 3 {
        if leave_command(d.command) {
            goto(d, StageView::LoadingForDays, ActionView::LoadUser(d.open_id))
        } else {
            answer(d, Notice::UnknownCommand)
        }
    } else {
        answer(d, Notice::InvalidState)
    }
}

/// One step of the dialog: the stage it moves to and the action it asks for,
/// given the event that the stage waits for.
pub open spec fn next_step(d: DialogView, event: EventView) -> (DialogView, ActionView) {
    match (d.stage, event) {
        (StageView::ReadingState, EventView::UserLoaded(user)) => on_state(d, match user {
            Some(u) => u.state,
            None => 0,
        }),
        (StageView::Registering, EventView::Written(ok)) => answer(
            d,
            if ok { Notice::RegistrationStarted } else { Notice::ServerError },
        ),
        (StageView::SendingCode, EventView::CodeSent) => goto(
            d,
            StageView::LoadingForMobile,
            ActionView::LoadUser(d.open_id),
        ),
        (StageView::LoadingForMobile, EventView::UserLoaded(user)) => match user {
            Some(u) => goto(d, StageView::SavingMobile, ActionView::SaveUser(u.with_mobile(d.command))),
            None => goto(
                d,
                StageView::LoadingForState {
                    target: UserState::RegisteringWaitForAuthCode,
                    next: AfterState::ConfirmCodeSent { mobile_saved: false },
                },
                ActionView::LoadUser(d.open_id),
            ),
        },
        (StageView::SavingMobile, EventView::Written(ok)) => goto(
            d,
            StageView::LoadingForState {
                target: UserState::RegisteringWaitForAuthCode,
                next: AfterState::ConfirmCodeSent { mobile_saved: ok },
            },
            ActionView::LoadUser(d.open_id),
        ),
        (StageView::LoadingForState { target, next }, EventView::UserLoaded(user)) => match user {
            Some(u) => goto(
                d,
                StageView::SavingState { target, next },
                ActionView::SaveUser(u.with_state(target.value())),
            ),
            None => after_state(d, false, next),
        },
        (StageView::SavingState { target, next }, EventView::Written(ok)) => after_state(d, ok, next),
        (StageView::CheckingCode, EventView::UserLoaded(user)) => match user {
            Some(u) => goto(d, StageView::FetchingCode, ActionView::FetchCode(auth_code_key_spec(u.mobile))),
            None => answer(d, Notice::ProfileDeleted),
        },
        (StageView::FetchingCode, EventView::CodeFetched(stored)) => if auth_code_verdict(stored, d.command) is Ok {
            goto(
                d,
                StageView::LoadingForState {
                    target: UserState::CompleteRegister,
                    next: AfterState::Answer(Notice::Registered),
                },
                ActionView::LoadUser(d.open_id),
            )
        } else {
            goto(
                d,
                StageView::LoadingForState {
                    target: UserState::RegisteringWaitForMobile,
                    next: AfterState::Answer(Notice::CodeRejected),
                },
                ActionView::LoadUser(d.open_id),
            )
        },
        (StageView::LoadingForDays, EventView::UserLoaded(user)) => match user {
            Some(u) => goto(d, StageView::FetchingDays { mobile: u.mobile }, ActionView::LoadLatestDetails(u.mobile)),
            None => answer(d, Notice::NoLeaveRecord),
        },
        (StageView::FetchingDays { mobile }, EventView::DetailsLoaded(details)) => match details {
            Some(dv) => (d.at(StageView::Done), ActionView::Reply(leave_reply_for(dv, mobile))),
            None => answer(d, Notice::NoLeaveRecord),
        },
        _ => (d, ActionView::Reply(Seq::empty())),
    }
}

/// Begins handling `command` from the user with open id `open_id`: the first
/// action looks the user up, to read the registration state.
pub fn dispatch_command(open_id: String, command: String) -> (r: (Dialog, Action))
    ensures
        r.0@ == (DialogView { open_id: open_id@, command: command@, state_read: 0, stage: StageView::ReadingState }),
        r.0@.wf(),
        r.1@ == ActionView::LoadUser(open_id@),
{
    let lookup = open_id.clone();
    (Dialog { open_id, command, state_read: 0, stage: Stage::ReadingState }, Action::LoadUser(lookup))
}

impl Dialog {
    /// Whether the dialog waits for `event`.
    pub fn accepts(&self, event: &Event) -> (r: bool)
        ensures
            r == accepts(self@.stage, event@),
    {
        match (&self.stage, event) {
            (Stage::ReadingState, Event::UserLoaded(_)) => true,
            (Stage::LoadingForMobile, Event::UserLoaded(_)) => true,
            (Stage::LoadingForState { .. }, Event::UserLoaded(_)) => true,
            (Stage::CheckingCode, Event::UserLoaded(_)) => true,
            (Stage::LoadingForDays, Event::UserLoaded(_)) => true,
            (Stage::Registering, Event::Written(_)) => true,
            (Stage::SavingMobile, Event::Written(_)) => true,
            (Stage::SavingState { .. }, Event::Written(_)) => true,
            (Stage::SendingCode, Event::CodeSent) => true,
            (Stage::FetchingCode, Event::CodeFetched(_)) => true,
            (Stage::FetchingDays { .. }, Event::DetailsLoaded(_)) => true,
            _ => false,
        }
    }

    /// Whether the dialog has answered.
    pub fn is_done(&self) -> (r: bool)
        ensures
            r == (self@.stage is Done),
    {
        match self.stage {
            Stage::Done => true,
            _ => false,
        }
    }

    /// Moves to `stage` and asks for `action`.
    fn goto(self, stage: Stage, action: Action) -> (r: (Dialog, Action))
        ensures
            r.0@ == self@.at(stage@),
            r.1@ == action@,
    {
        (Dialog { stage, ..self }, action)
    }

    /// Ends the dialog with a fixed answer.
    fn answer(self, n: Notice) -> (r: (Dialog, Action))
        ensures
            (r.0@, r.1@) == answer(self@, n),
    {
        self.goto(Stage::Done, Action::Reply(n.text()))
    }

    /// The step once a registration state was written (`ok`) or could not be.
    fn after_state(self, ok: bool, next: AfterState) -> (r: (Dialog, Action))
        ensures
            (r.0@, r.1@) == after_state(self@, ok, next),
    {
        match next {
            AfterState::ConfirmCodeSent { mobile_saved } => if ok && mobile_saved {
                self.answer(Notice::CodeSent)
            } else {
                let lookup = self.open_id.clone();
                self.goto(
                    Stage::LoadingForState {
                        target: UserState::RegisteringWaitForMobile,
                        next: AfterState::Answer(Notice::CodeSendFailed),
                    },
                    Action::LoadUser(lookup),
                )
            },
            AfterState::Answer(n) => self.answer(n),
        }
    }

    /// The first step once the registration state `state` was read.
    fn on_state(self, state: i32) -> (r: (Dialog, Action))
        ensures
            (r.0@, r.1@) == on_state(self@, state),
    {
        let d = Dialog { state_read: state, ..self };
        if state == 0 {
            if d.command == "register".to_owned() || d.command == "注册".to_owned() {
                let user = UserInfo::default().with_state(UserState::RegisteringWaitForMobile.code());
                let user = UserInfo { f_open_id: d.open_id.clone(), ..user };
                d.goto(Stage::Registering, Action::InsertUser(user))
            } else {
                d.answer(Notice::NotRegistered)
            }
        } else if state == 1 {
            if is_valid_mobile(d.command.as_str()) {
                let mobile = d.command.clone();
                d.goto(Stage::SendingCode, Action::SendCode(mobile))
            } else {
                d.answer(Notice::InvalidMobile)
            }
        } else if state == 2 {
            let lookup = d.open_id.clone();
            d.goto(Stage::CheckingCode, Action::LoadUser(lookup))
        } else if state == 3 {
            if d.command == "年假".to_owned() || d.command == "调休".to_owned() {
                let lookup = d.open_id.clone();
                d.goto(Stage::LoadingForDays, Action::LoadUser(lookup))
            } else {
                d.answer(Notice::UnknownCommand)
            }
        } else {
            d.answer(Notice::InvalidState)
        }
    }

    /// Takes the event the dialog waits for and gives the next stage and action.
    pub fn step(self, event: Event) -> (r: (Dialog, Action))
        requires
            self@.wf(),
            accepts(self@.stage, event@),
        ensures
            (r.0@, r.1@) == next_step(self@, event@),
            r.0@.wf(),
            rank(r.0@.stage) < rank(self@.stage),
            (r.0@.stage is Done) <==> (r.1 is Reply),
    {
        proof {
            law_step_progresses(self@, event@);
        }
        let Dialog { open_id, command, state_read, stage } = self;
        let d = Dialog { open_id, command, state_read, stage: Stage::Done };
        match stage {
            Stage::ReadingState => match event {
                Event::UserLoaded(user) => {
                    let state = UserInfo::get_user_state(&user);
                    d.on_state(state)
                },
                _ => d.goto(Stage::Done, Action::Reply(String::new())),
            },
            Stage::Registering => match event {
                Event::Written(ok) => d.answer(if ok { Notice::RegistrationStarted } else { Notice::ServerError }),
                _ => d.goto(Stage::Done, Action::Reply(String::new())),
            },
            Stage::SendingCode => {
                let lookup = d.open_id.clone();
                d.goto(Stage::LoadingForMobile, Action::LoadUser(lookup))
            },
            Stage::LoadingForMobile => match event {
                Event::UserLoaded(Some(u)) => {
                    let saved = u.with_mobile(d.command.as_str());
                    d.goto(Stage::SavingMobile, Action::SaveUser(saved))
                },
                _ => {
                    let lookup = d.open_id.clone();
                    d.goto(
                        Stage::LoadingForState {
                            target: UserState::RegisteringWaitForAuthCode,
                            next: AfterState::ConfirmCodeSent { mobile_saved: false },
                        },
                        Action::LoadUser(lookup),
                    )
                },
            },
            Stage::SavingMobile => match event {
                Event::Written(ok) => {
                    let lookup = d.open_id.clone();
                    d.goto(
                        Stage::LoadingForState {
                            target: UserState::RegisteringWaitForAuthCode,
                            next: AfterState::ConfirmCodeSent { mobile_saved: ok },
                        },
                        Action::LoadUser(lookup),
                    )
                },
                _ => d.goto(Stage::Done, Action::Reply(String::new())),
            },
            Stage::LoadingForState { target, next } => match event {
                Event::UserLoaded(Some(u)) => {
                    let saved = u.with_state(target.code());
                    d.goto(Stage::SavingState { target, next }, Action::SaveUser(saved))
                },
                _ => d.after_state(false, next),
            },
            Stage::SavingState { target, next } => match event {
                Event::Written(ok) => d.after_state(ok, next),
                _ => d.goto(Stage::Done, Action::Reply(String::new())),
            },
            Stage::CheckingCode => match event {
                Event::UserLoaded(Some(u)) => {
                    let key = auth_code_key(u.f_mobile.as_str());
                    d.goto(Stage::FetchingCode, Action::FetchCode(key))
                },
                _ => d.answer(Notice::ProfileDeleted),
            },
            Stage::FetchingCode => match event {
                Event::CodeFetched(stored) => {
                    let lookup = d.open_id.clone();
                    if check_auth_code(stored, d.command.as_str()).is_ok() {
                        d.goto(
                            Stage::LoadingForState {
                                target: UserState::CompleteRegister,
                                next: AfterState::Answer(Notice::Registered),
                            },
                            Action::LoadUser(lookup),
                        )
                    } else {
                        d.goto(
                            Stage::LoadingForState {
                                target: UserState::RegisteringWaitForMobile,
                                next: AfterState::Answer(Notice::CodeRejected),
                            },
                            Action::LoadUser(lookup),
                        )
                    }
                },
                _ => d.goto(Stage::Done, Action::Reply(String::new())),
            },
            Stage::LoadingForDays => match event {
                Event::UserLoaded(Some(u)) => {
                    let mobile = u.f_mobile;
                    let wanted = mobile.clone();
                    d.goto(Stage::FetchingDays { mobile }, Action::LoadLatestDetails(wanted))
                },
                _ => d.answer(Notice::NoLeaveRecord),
            },
            Stage::FetchingDays { mobile } => match event {
                Event::DetailsLoaded(Some(details)) => {
                    let text = leave_reply(details, mobile);
                    d.goto(Stage::Done, Action::Reply(text))
                },
                _ => d.answer(Notice::NoLeaveRecord),
            },
            Stage::Done => d.goto(Stage::Done, Action::Reply(String::new())),
        }
    }
}

} // verus!
