//! The records the bot keeps: registered users and their leave balances.

use vstd::prelude::*;
use crate::clock::{civil_from_days, unix_secs_now, utc_date_at};
use crate::text::{date_text, date_text_spec};

verus! {

/// A user of the official account and where their registration stands.
#[derive(Debug, Clone)]
pub struct UserInfo {
    /// The user's WeChat open id.
    pub f_open_id: String,
    /// The mobile number the user registered with.
    pub f_mobile: String,
    /// The registration state, by its code (see `UserState`).
    pub f_state: i32,
    /// A free remark; the registration flow may keep an auth code here.
    pub f_remark: Option<String>,
}

/// The mathematical value of a [`UserInfo`].
pub struct UserInfoView {
    pub open_id: Seq<char>,
    pub mobile: Seq<char>,
    pub state: i32,
    pub remark: Option<Seq<char>>,
}

/// The view of an optional string.
pub open spec fn opt_view(s: Option<String>) -> Option<Seq<char>> {
    match s {
        Some(t) => Some(t@),
        None => None,
    }
}

impl View for UserInfo {
    type V = UserInfoView;

    open spec fn view(&self) -> UserInfoView {
        UserInfoView {
            open_id: self.f_open_id@,
            mobile: self.f_mobile@,
            state: self.f_state,
            remark: opt_view(self.f_remark),
        }
    }
}

impl UserInfoView {
    /// The same user in another registration state.
    pub open spec fn with_state(self, state: i32) -> UserInfoView {
        UserInfoView { state, ..self }
    }

    /// The same user with another mobile number.
    pub open spec fn with_mobile(self, mobile: Seq<char>) -> UserInfoView {
        UserInfoView { mobile, ..self }
    }

    /// The same user under another open id.
    pub open spec fn with_open_id(self, open_id: Seq<char>) -> UserInfoView {
        UserInfoView { open_id, ..self }
    }

    /// The same user with an auth code kept as the remark.
    pub open spec fn with_remark(self, remark: Seq<char>) -> UserInfoView {
        UserInfoView { remark: Some(remark), ..self }
    }
}

/// The record a new user starts from.
pub open spec fn default_user() -> UserInfoView {
    UserInfoView { open_id: ""@, mobile: "110"@, state: 0, remark: Some("无"@) }
}

impl UserInfo {
    /// A new user: no open id yet, placeholder mobile `110`, state 0 and the
    /// remark `无`.
    pub fn default() -> (u: UserInfo)
        ensures
            u@ == default_user(),
    {
        UserInfo {
            f_open_id: "".to_owned(),
            f_mobile: "110".to_owned(),
            f_state: 0,
            f_remark: Some("无".to_owned()),
        }
    }

    /// The registration state of a looked-up user: the stored state, or 0 where
    /// no user was found.
    pub fn get_user_state(found: &Option<UserInfo>) -> (state: i32)
        ensures
            state == match found {
                Some(u) => u.f_state,
                None => 0,
            },
    {
        match found {
            Some(u) => u.f_state,
            None => 0,
        }
    }

    /// The same user in registration state `state`.
    pub fn with_state(self, state: i32) -> (u: UserInfo)
        ensures
            u@ == self@.with_state(state),
    {
        UserInfo { f_state: state, ..self }
    }

    /// The same user with mobile number `mobile`.
    pub fn with_mobile(self, mobile: &str) -> (u: UserInfo)
        ensures
            u@ == self@.with_mobile(mobile@),
    {
        UserInfo { f_mobile: mobile.to_owned(), ..self }
    }

    /// The same user with `auth_code` kept as the remark.
    pub fn with_auth_code(self, auth_code: &str) -> (u: UserInfo)
        ensures
            u@ == self@.with_remark(auth_code@),
    {
        UserInfo { f_remark: Some(auth_code.to_owned()), ..self }
    }
}

/// A user's leave balance as of one date. The two day counts are stored as
/// numbers and held here by their decimal text, which is all the bot shows.
#[derive(Debug, Clone)]
pub struct UserDetailsInfo {
    /// The mobile number the balance belongs to.
    pub f_mobile: String,
    /// The employee's name, where known.
    pub f_name: Option<String>,
    /// Remaining annual leave, in days.
    pub f_annual_leave_days: String,
    /// Remaining compensatory leave, in days.
    pub f_rest_days: String,
    /// The date of the balance, `YYYY-MM-DD`.
    pub f_datetime: String,
    /// A free remark.
    pub f_remark: Option<String>,
}

/// The mathematical value of a [`UserDetailsInfo`].
pub struct UserDetailsInfoView {
    pub mobile: Seq<char>,
    pub name: Option<Seq<char>>,
    pub annual_leave_days: Seq<char>,
    pub rest_days: Seq<char>,
    pub datetime: Seq<char>,
    pub remark: Option<Seq<char>>,
}

impl View for UserDetailsInfo {
    type V = UserDetailsInfoView;

    open spec fn view(&self) -> UserDetailsInfoView {
        UserDetailsInfoView {
            mobile: self.f_mobile@,
            name: opt_view(self.f_name),
            annual_leave_days: self.f_annual_leave_days@,
            rest_days: self.f_rest_days@,
            datetime: self.f_datetime@,
            remark: opt_view(self.f_remark),
        }
    }
}

impl UserDetailsInfo {
    /// An empty balance dated the UTC day of the instant `secs` seconds after
    /// the Unix epoch: no mobile, an empty name and remark, and zero days of each
    /// kind; `None` only where chrono cannot represent the instant, which it
    /// can for every instant from the epoch to the end of the year 9999.
    pub fn default_at(secs: i64) -> (d: Option<UserDetailsInfo>)
        ensures
            d matches Some(details) ==> details@ == default_details_on(secs),
            0 <= secs <= 253_402_300_799 ==> d is Some,
    {
        match utc_date_at(secs) {
            Some((year, month, day)) => Some(UserDetailsInfo {
                f_mobile: "".to_owned(),
                f_name: Some("".to_owned()),
                f_annual_leave_days: "0".to_owned(),
                f_rest_days: "0".to_owned(),
                f_datetime: date_text(year, month, day),
                f_remark: Some("".to_owned()),
            }),
            None => None,
        }
    }

    /// An empty balance dated today (UTC), as [`UserDetailsInfo::default_at`]
    /// gives it for the clock's reading; `None` where the clock reads a time
    /// before the epoch or one chrono cannot represent.
    pub fn default() -> (d: Option<UserDetailsInfo>)
        ensures
            d matches Some(details) ==> exists|secs: i64|
                secs >= 0 && #[trigger] default_details_on(secs) == details@,
    {
        match unix_secs_now() {
            Some(secs) => UserDetailsInfo::default_at(secs),
            None => None,
        }
    }

    /// The latest balance out of the balances listed for one mobile number,
    /// newest first: the first one, or `None` where the listing failed or is
    /// empty.
    pub fn get_lastest_user_details_by_mobile(listed: Option<Vec<UserDetailsInfo>>) -> (latest: Option<UserDetailsInfo>)
        ensures
            match listed {
                Some(list) => if list@.len() == 0 {
                    latest is None
                } else {
                    latest == Some(list@[0])
                },
                None => latest is None,
            },
    {
        match listed {
            Some(mut list) => if list.len() == 0 {
                None
            } else {
                Some(list.remove(0))
            },
            None => None,
        }
    }
}

/// The empty balance dated the UTC day of the instant `secs` seconds after the
/// Unix epoch.
pub open spec fn default_details_on(secs: i64) -> UserDetailsInfoView {
    let date = civil_from_days(secs as int / 86_400);
    UserDetailsInfoView {
        mobile: ""@,
        name: Some(""@),
        annual_leave_days: "0"@,
        rest_days: "0"@,
        datetime: date_text_spec(date.0, date.1 as nat, date.2 as nat),
        remark: Some(""@),
    }
}

/// The answer to a leave query: the employee's name (or, without one, the
/// mobile number) and the remaining days of both kinds.
pub open spec fn leave_reply_text(who: Seq<char>, annual: Seq<char>, rest: Seq<char>) -> Seq<char> {
    who + "您好，您的年假剩余"@ + annual + "天，调休剩余"@ + rest + "天"@
}

/// Who a balance is addressed to: its name, or else the given mobile number.
pub open spec fn addressee(details: UserDetailsInfoView, mobile: Seq<char>) -> Seq<char> {
    match details.name {
        Some(name) => name,
        None => mobile,
    }
}

/// The answer to a leave query about a balance, for the user with mobile
/// number `mobile`.
pub open spec fn leave_reply_for(details: UserDetailsInfoView, mobile: Seq<char>) -> Seq<char> {
    leave_reply_text(addressee(details, mobile), details.annual_leave_days, details.rest_days)
}

/// Words a leave balance for the user with mobile number `mobile`.
pub fn leave_reply(details: UserDetailsInfo, mobile: String) -> (r: String)
    ensures
        r@ == leave_reply_for(details@, mobile@),
{
    let who = match details.f_name {
        Some(name) => name,
        None => mobile,
    };
    let r = who.concat("您好，您的年假剩余");
    let r = r.concat(details.f_annual_leave_days.as_str());
    let r = r.concat("天，调休剩余");
    let r = r.concat(details.f_rest_days.as_str());
    r.concat("天")
}

/// The value rendered on the index page when the balances cannot be listed.
pub struct Noop {}

/// One row of an uploaded spreadsheet: name, mobile, annual leave, compensatory
/// leave, date and remark, each as its cell text.
pub struct ExcelRow(String, String, String, String, String, String);

} // verus!
