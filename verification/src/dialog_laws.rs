//! What every dialog keeps, whatever the stores answer.

use vstd::prelude::*;
use crate::commands::{
    accepts, leave_command, may_write, next_step, rank, register_command, valid_mobile, ActionView, DialogView, EventView, StageView,
    UserState,
};
use crate::models::{default_user, UserDetailsInfoView, UserInfoView};
use crate::sms::{auth_code_verdict, AuthCodeError};

verus! {

/// A step keeps the dialog well formed, keeps its open id and command, brings
/// it strictly closer to its answer, and ends it exactly when it answers.
pub proof fn law_step_progresses(d: DialogView, e: EventView)
    requires
        d.wf(),
        accepts(d.stage, e),
    ensures
        next_step(d, e).0.wf(),
        next_step(d, e).0.open_id == d.open_id,
        next_step(d, e).0.command == d.command,
        rank(next_step(d, e).0.stage) < rank(d.stage),
        (next_step(d, e).0.stage is Done) <==> (next_step(d, e).1 is Reply),
{
}

/// The dialog goes through the events given, each one the event it waits for.
pub open spec fn accepts_all(d: DialogView, events: Seq<EventView>) -> bool
    decreases events.len(),
{
    if events.len() == 0 {
        true
    } else {
        accepts(d.stage, events[0]) && accepts_all(next_step(d, events[0]).0, events.drop_first())
    }
}

/// A dialog takes no more events than its stage's rank: one that has just begun
/// answers after at most eight exchanges with the stores.
pub proof fn law_dialog_answers(d: DialogView, events: Seq<EventView>)
    requires
        d.wf(),
        accepts_all(d, events),
    ensures
        events.len() <= rank(d.stage),
        d.stage is ReadingState ==> events.len() <= 8,
    decreases events.len(),
{
    if events.len() > 0 {
        law_step_progresses(d, events[0]);
        law_dialog_answers(next_step(d, events[0]).0, events.drop_first());
    }
}

/// Every record a dialog writes follows the registration flow: a new user is
/// inserted only on the register command, as this open id in state 1; a saved
/// record is the record just loaded with either a state that the state read
/// may move to, or, while waiting for the mobile number, the command as its
/// mobile number.
pub proof fn law_writes_follow_registration(d: DialogView, e: EventView)
    requires
        d.wf(),
        accepts(d.stage, e),
    ensures
        next_step(d, e).1 matches ActionView::InsertUser(u) ==> {
            &&& d.stage is ReadingState
            &&& register_command(d.command)
            &&& u == default_user().with_open_id(d.open_id).with_state(1)
            &&& may_write(next_step(d, e).0.state_read, u.state)
        },
        next_step(d, e).1 matches ActionView::SaveUser(u) ==> (e matches EventView::UserLoaded(Some(loaded)) && {
            ||| exists|target: UserState| may_write(d.state_read, target.value()) && u == loaded.with_state(target.value())
            ||| d.state_read == 1 && u == loaded.with_mobile(d.command)
        }),
{
    if let ActionView::SaveUser(u) = next_step(d, e).1 {
        if let StageView::LoadingForState { target, next } = d.stage {
            assert(may_write(d.state_read, target.value()));
        }
    }
}

/// A registered user's records are never written: when the state read is 3,
/// no step inserts or saves a user.
pub proof fn law_registered_users_untouched(d: DialogView, e: EventView)
    requires
        d.wf(),
        accepts(d.stage, e),
        d.state_read == 3 || (d.stage is ReadingState && e is UserLoaded && e->UserLoaded_0 is Some
            && e->UserLoaded_0->0.state == 3),
    ensures
        !(next_step(d, e).1 is InsertUser),
        !(next_step(d, e).1 is SaveUser),
{
}

/// Registration completes only through an accepted code: the dialog heads for
/// state 3 only right after the code check, and only where the reply equals the
/// kept code; a rejected code heads back to waiting for the mobile number.
pub proof fn law_completion_needs_accepted_code(d: DialogView, e: EventView)
    requires
        d.wf(),
        accepts(d.stage, e),
    ensures
        (next_step(d, e).0.stage is LoadingForState
            && next_step(d, e).0.stage->LoadingForState_target == UserState::CompleteRegister)
            ==> (d.stage is FetchingCode && e is CodeFetched
                && auth_code_verdict(e->CodeFetched_0, d.command) == Ok::<bool, AuthCodeError>(true)),
        (d.stage is FetchingCode && e is CodeFetched && auth_code_verdict(e->CodeFetched_0, d.command) is Err)
            ==> (next_step(d, e).0.stage is LoadingForState
                && next_step(d, e).0.stage->LoadingForState_target == UserState::RegisteringWaitForMobile),
{
}

/// The dialog looks up no one but the sender: every lookup is of its own open
/// id, and a code is texted only to the command, in state 1, when the command
/// is a valid mobile number.
pub proof fn law_only_the_sender_is_served(d: DialogView, e: EventView)
    requires
        d.wf(),
        accepts(d.stage, e),
    ensures
        next_step(d, e).1 matches ActionView::LoadUser(id) ==> id == d.open_id,
        next_step(d, e).1 matches ActionView::SendCode(mobile) ==> {
            &&& mobile == d.command
            &&& valid_mobile(d.command)
            &&& next_step(d, e).0.state_read == 1
        },
{
}

/// What the stores hold for one dialog's sender: the user record under the
/// sender's open id, the code kept for the sender (as a fetch gives it) and the
/// sender's latest leave balance.
pub struct Stores {
    pub user: Option<UserInfoView>,
    pub code: Option<Seq<char>>,
    pub details: Option<UserDetailsInfoView>,
}

/// Performs an action on the stores of the user with open id `open_id`, each
/// write succeeding where the store allows it: an insert succeeds only where no
/// record of that open id exists; a save replaces the record of its open id,
/// where there is one. The code store and the leave store are only read.
pub open spec fn perform(w: Stores, open_id: Seq<char>, a: ActionView) -> (EventView, Stores) {
    match a {
        ActionView::LoadUser(id) => (EventView::UserLoaded(if id == open_id { w.user } else { None }), w),
        ActionView::InsertUser(u) => if w.user is None && u.open_id == open_id {
            (EventView::Written(true), Stores { user: Some(u), ..w })
        } else {
            (EventView::Written(false), w)
        },
        ActionView::SaveUser(u) => if w.user is Some && u.open_id == open_id {
            (EventView::Written(true), Stores { user: Some(u), ..w })
        } else {
            (EventView::Written(true), w)
        },
        ActionView::SendCode(_) => (EventView::CodeSent, w),
        ActionView::FetchCode(_) => (EventView::CodeFetched(w.code), w),
        ActionView::LoadLatestDetails(_) => (EventView::DetailsLoaded(w.details), w),
        ActionView::Reply(_) => (EventView::CodeSent, w),
    }
}

/// Runs a dialog against the stores for at most `fuel` actions: the dialog,
/// its last action and the stores after them.
pub open spec fn run(d: DialogView, a: ActionView, w: Stores, fuel: nat) -> (DialogView, ActionView, Stores)
    decreases fuel,
{
    if fuel == 0 || a is Reply {
        (d, a, w)
    } else {
        let (e, w2) = perform(w, d.open_id, a);
        if accepts(d.stage, e) {
            run(next_step(d, e).0, next_step(d, e).1, w2, (fuel - 1) as nat)
        } else {
            (d, a, w2)
        }
    }
}

/// Every record that a run inserts or saves carries the sender's open id, so no
/// other user's record is written.
pub open spec fn run_writes_only_sender(d: DialogView, a: ActionView, w: Stores, fuel: nat) -> bool
    decreases fuel,
{
    if fuel == 0 || a is Reply {
        true
    } else {
        &&& (a matches ActionView::InsertUser(u) ==> u.open_id == d.open_id)
        &&& (a matches ActionView::SaveUser(u) ==> u.open_id == d.open_id)
        &&& {
            let (e, w2) = perform(w, d.open_id, a);
            accepts(d.stage, e) ==> run_writes_only_sender(next_step(d, e).0, next_step(d, e).1, w2, (fuel - 1) as nat)
        }
    }
}

/// The sender's record after a whole dialog, given the record before it: no
/// record stays none or becomes a state-1 record of the sender; a record keeps
/// its open id and moves from state 0 nowhere, from 1 to 1 or 2, from 2 to 1 or
/// 3, and from any other state nowhere.
pub open spec fn registration_outcome(before: Option<UserInfoView>, after: Option<UserInfoView>, open_id: Seq<char>) -> bool {
    match before {
        None => after is None || (after matches Some(u) && u.state == 1 && u.open_id == open_id),
        Some(b) => after matches Some(u) && u.open_id == b.open_id && {
            if b.state == 1 {
                u.state == 1 || u.state == 2
            } else if b.state == 2 {
                u.state == 1 || u.state == 3
            } else {
                u.state == b.state
            }
        },
    }
}

/// The record in `w` is `u0`'s, in state `k`.
pub open spec fn holds_start(w: Stores, u0: Option<UserInfoView>, k: i32) -> bool {
    w.user == u0 && u0 is Some && u0->0.state == k
}

/// Where a dialog run against the stores stands: the pending action fits the
/// stage, and the record moved only as registration allows.
pub open spec fn run_inv(d: DialogView, a: ActionView, w: Stores, u0: Option<UserInfoView>) -> bool {
    &&& d.wf()
    &&& (u0 matches Some(x) ==> x.open_id == d.open_id)
    &&& (w.user matches Some(x) ==> x.open_id == d.open_id)
    &&& match d.stage {
        StageView::ReadingState => a == ActionView::LoadUser(d.open_id) && w.user == u0,
        StageView::Registering => a matches ActionView::InsertUser(u) && u.open_id == d.open_id && u.state == 1
            && w.user == u0 && (u0 is None || u0->0.state == 0),
        StageView::SendingCode => a is SendCode && holds_start(w, u0, 1),
        StageView::LoadingForMobile => a == ActionView::LoadUser(d.open_id) && holds_start(w, u0, 1),
        StageView::SavingMobile => a matches ActionView::SaveUser(u) && u.open_id == d.open_id && u.state == 1
            && holds_start(w, u0, 1),
        StageView::LoadingForState { target, next } => a == ActionView::LoadUser(d.open_id) && w.user is Some
            && (d.state_read == 1 ==> u0 is Some && u0->0.state == 1 && (w.user->0.state == 1 || w.user->0.state == 2))
            && (d.state_read == 2 ==> holds_start(w, u0, 2)),
        StageView::SavingState { target, next } => a matches ActionView::SaveUser(u) && u.open_id == d.open_id
            && u.state == target.value() && w.user is Some
            && (d.state_read == 1 ==> u0 is Some && u0->0.state == 1 && (w.user->0.state == 1 || w.user->0.state == 2))
            && (d.state_read == 2 ==> holds_start(w, u0, 2)),
        StageView::CheckingCode => a == ActionView::LoadUser(d.open_id) && holds_start(w, u0, 2),
        StageView::FetchingCode => a is FetchCode && holds_start(w, u0, 2),
        StageView::LoadingForDays => a == ActionView::LoadUser(d.open_id) && holds_start(w, u0, 3),
        StageView::FetchingDays { .. } => a is LoadLatestDetails && holds_start(w, u0, 3),
        StageView::Done => a is Reply && registration_outcome(u0, w.user, d.open_id),
    }
}

/// One action performed and one step taken keep [`run_inv`].
proof fn lemma_run_step(d: DialogView, a: ActionView, w: Stores, u0: Option<UserInfoView>)
    requires
        run_inv(d, a, w, u0),
        !(a is Reply),
    ensures
        accepts(d.stage, perform(w, d.open_id, a).0),
        run_inv(
            next_step(d, perform(w, d.open_id, a).0).0,
            next_step(d, perform(w, d.open_id, a).0).1,
            perform(w, d.open_id, a).1,
            u0,
        ),
        perform(w, d.open_id, a).1.code == w.code,
        perform(w, d.open_id, a).1.details == w.details,
{
    let e = perform(w, d.open_id, a).0;
    law_step_progresses(d, e);
}

/// A run with fuel enough for the stage's rank ends with an answer, and keeps
/// [`run_inv`]; the code and leave stores are never written.
proof fn lemma_run(d: DialogView, a: ActionView, w: Stores, u0: Option<UserInfoView>, fuel: nat)
    requires
        run_inv(d, a, w, u0),
        fuel >= rank(d.stage),
    ensures
        run(d, a, w, fuel).1 is Reply,
        run_inv(run(d, a, w, fuel).0, run(d, a, w, fuel).1, run(d, a, w, fuel).2, u0),
        run(d, a, w, fuel).2.code == w.code,
        run(d, a, w, fuel).2.details == w.details,
        run(d, a, w, fuel).0.open_id == d.open_id,
        run_writes_only_sender(d, a, w, fuel),
    decreases fuel,
{
    if fuel > 0 && !(a is Reply) {
        lemma_run_step(d, a, w, u0);
        let e = perform(w, d.open_id, a).0;
        law_step_progresses(d, e);
        lemma_run(next_step(d, e).0, next_step(d, e).1, perform(w, d.open_id, a).1, u0, (fuel - 1) as nat);
    }
}

/// Over a whole dialog, with every write succeeding where the stores allow it,
/// the dialog answers, the sender's registration moves only as
/// [`registration_outcome`] allows, every record written carries the sender's
/// open id (no other user's record is touched), and the code store and the leave store are
/// never written: a checked code is not consumed.
pub proof fn law_dialog_follows_registration(open_id: Seq<char>, command: Seq<char>, w: Stores)
    requires
        w.user matches Some(u) ==> u.open_id == open_id,
    ensures
        ({
            let (d, a, after) = run(
                DialogView { open_id, command, state_read: 0, stage: StageView::ReadingState },
                ActionView::LoadUser(open_id),
                w,
                8,
            );
            &&& a is Reply
            &&& d.stage is Done
            &&& registration_outcome(w.user, after.user, open_id)
            &&& after.code == w.code
            &&& after.details == w.details
        }),
        run_writes_only_sender(
            DialogView { open_id, command, state_read: 0, stage: StageView::ReadingState },
            ActionView::LoadUser(open_id),
            w,
            8,
        ),
{
    let d = DialogView { open_id, command, state_read: 0, stage: StageView::ReadingState };
    lemma_run(d, ActionView::LoadUser(open_id), w, w.user, 8);
}

/// The person a leave answer greets: the balance's name, or, where it has
/// none, the mobile number whose balance was looked up.
pub open spec fn greeted(details: UserDetailsInfoView, mobile: Seq<char>) -> Seq<char> {
    match details.name {
        Some(name) => name,
        None => mobile,
    }
}

/// A user who has not registered (no record, or a record in state 0) and sends
/// anything but the register command is told at once to register, and nothing
/// is looked up or written.
pub proof fn law_unregistered_users_are_told_to_register(d: DialogView, user: Option<UserInfoView>)
    requires
        d.wf(),
        d.stage is ReadingState,
        user is None || user->0.state == 0,
        !register_command(d.command),
    ensures
        next_step(d, EventView::UserLoaded(user)).0.stage is Done,
        next_step(d, EventView::UserLoaded(user)).1
            == ActionView::Reply("您还没有注册，请回复[注册]两个字进行注册流程！"@),
{
}

/// A registered user's leave query looks up the latest balance of the mobile
/// number of the user's own record, and answers with that balance: greeting its
/// name, or without one that mobile number, and giving its annual and
/// compensatory days; without a balance it says none was found.
pub proof fn law_leave_query_answers_from_the_balance(
    d: DialogView,
    user: UserInfoView,
    details: Option<UserDetailsInfoView>,
)
    requires
        d.wf(),
        d.stage is LoadingForDays,
    ensures
        next_step(d, EventView::UserLoaded(Some(user))).1 == ActionView::LoadLatestDetails(user.mobile),
        accepts(next_step(d, EventView::UserLoaded(Some(user))).0.stage, EventView::DetailsLoaded(details)),
        next_step(next_step(d, EventView::UserLoaded(Some(user))).0, EventView::DetailsLoaded(details)).1
            == ActionView::Reply(match details {
                Some(dv) => greeted(dv, user.mobile) + "您好，您的年假剩余"@ + dv.annual_leave_days
                    + "天，调休剩余"@ + dv.rest_days + "天"@,
                None => "未查询到您的假期,请联系管理员录入"@,
            }),
{
}

/// The run of a whole dialog from its start.
pub open spec fn run_from_start(open_id: Seq<char>, command: Seq<char>, w: Stores) -> (DialogView, ActionView, Stores) {
    run(
        DialogView { open_id, command, state_read: 0, stage: StageView::ReadingState },
        ActionView::LoadUser(open_id),
        w,
        8,
    )
}

/// Over a whole dialog: an unregistered sender who sends anything but the
/// register command is told to register, and the stores are left as they were.
pub proof fn law_unregistered_dialog(open_id: Seq<char>, command: Seq<char>, w: Stores)
    requires
        w.user is None || w.user->0.state == 0,
        !register_command(command),
    ensures
        run_from_start(open_id, command, w).1 == ActionView::Reply("您还没有注册，请回复[注册]两个字进行注册流程！"@),
        run_from_start(open_id, command, w).2 == w,
{
    let d0 = DialogView { open_id, command, state_read: 0, stage: StageView::ReadingState };
    let e0 = perform(w, open_id, ActionView::LoadUser(open_id)).0;
    law_unregistered_users_are_told_to_register(d0, w.user);
    assert(run(next_step(d0, e0).0, next_step(d0, e0).1, w, 7) == (next_step(d0, e0).0, next_step(d0, e0).1, w));
}

/// Over a whole dialog: a registered sender (state 3) asking for leave is
/// answered from the latest balance of the mobile number in the sender's own
/// record, greeting the balance's name or else that mobile number; without a
/// balance the answer says none was found. The stores are left as they were.
pub proof fn law_leave_dialog(open_id: Seq<char>, command: Seq<char>, w: Stores)
    requires
        w.user matches Some(u) && u.state == 3,
        leave_command(command),
    ensures
        run_from_start(open_id, command, w).1 == ActionView::Reply(match w.details {
            Some(dv) => greeted(dv, w.user->0.mobile) + "您好，您的年假剩余"@ + dv.annual_leave_days
                + "天，调休剩余"@ + dv.rest_days + "天"@,
            None => "未查询到您的假期,请联系管理员录入"@,
        }),
        run_from_start(open_id, command, w).2 == w,
{
    let u = w.user->0;
    let d0 = DialogView { open_id, command, state_read: 0, stage: StageView::ReadingState };
    let e0 = EventView::UserLoaded(Some(u));
    assert(perform(w, open_id, ActionView::LoadUser(open_id)).0 == e0);
    let (d1, a1) = next_step(d0, e0);
    assert(d1.stage is LoadingForDays && d1.wf());
    assert(a1 == ActionView::LoadUser(open_id));
    assert(perform(w, open_id, a1).0 == e0);
    law_leave_query_answers_from_the_balance(d1, u, w.details);
    let (d2, a2) = next_step(d1, e0);
    let e2 = EventView::DetailsLoaded(w.details);
    assert(perform(w, open_id, a2).0 == e2);
    let (d3, a3) = next_step(d2, e2);
    assert(a3 is Reply);
    assert(run(d3, a3, w, 5) == (d3, a3, w));
    assert(run(d2, a2, w, 6) == run(d3, a3, w, 5));
    assert(run(d1, a1, w, 7) == run(d2, a2, w, 6));
}

} // verus!
