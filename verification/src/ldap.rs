//! Trying out directory settings: testing a connection, and previewing what a full synchronisation
//! would do.
//!
//! As with saving, each step names one thing to do outside and [`advance_ldap`] takes what came of
//! it to the next. A demo instance never gets to connect anywhere.

use vstd::prelude::*;

use crate::response::{ApiResponse, ApiResponseView, StatusCode};
use crate::settings::{Settings, SettingsView};

verus! {

/// Which side wins where local data and the directory differ.
#[derive(Clone, Copy, Debug, PartialEq, Eq, Structural)]
pub enum Authority {
    LDAP,
    Defguard,
}

/// What a synchronisation would do with a user.
#[derive(Clone, Copy, Debug, PartialEq, Eq, Structural)]
pub enum LdapDryRunAction {
    Add,
    Remove,
}

/// A user that a synchronisation would touch.
#[derive(Debug, PartialEq, Eq)]
pub struct LdapDryRunUser {
    pub username: String,
    pub email: String,
    pub first_name: String,
    pub last_name: String,
    pub action: LdapDryRunAction,
}

/// The contents of an [`LdapDryRunUser`].
#[verifier::ext_equal]
pub struct LdapDryRunUserView {
    pub username: Seq<char>,
    pub email: Seq<char>,
    pub first_name: Seq<char>,
    pub last_name: Seq<char>,
    pub action: LdapDryRunAction,
}

impl View for LdapDryRunUser {
    type V = LdapDryRunUserView;

    open spec fn view(&self) -> LdapDryRunUserView {
        LdapDryRunUserView {
            username: self.username@,
            email: self.email@,
            first_name: self.first_name@,
            last_name: self.last_name@,
            action: self.action,
        }
    }
}

/// What a synchronisation would do on either side.
#[derive(Debug, PartialEq, Eq)]
pub struct LdapDryRunResult {
    pub defguard: Vec<LdapDryRunUser>,
    pub ldap: Vec<LdapDryRunUser>,
}

/// The contents of an [`LdapDryRunResult`].
#[verifier::ext_equal]
pub struct LdapDryRunResultView {
    pub defguard: Seq<LdapDryRunUserView>,
    pub ldap: Seq<LdapDryRunUserView>,
}

impl View for LdapDryRunResult {
    type V = LdapDryRunResultView;

    open spec fn view(&self) -> LdapDryRunResultView {
        LdapDryRunResultView {
            defguard: self.defguard@.map_values(|user: LdapDryRunUser| user@),
            ldap: self.ldap@.map_values(|user: LdapDryRunUser| user@),
        }
    }
}

/// The user with these four texts.
pub open spec fn dry_run_user(
    username: Seq<char>,
    email: Seq<char>,
    first_name: Seq<char>,
    last_name: Seq<char>,
    action: LdapDryRunAction,
) -> LdapDryRunUserView {
    LdapDryRunUserView { username, email, first_name, last_name, action }
}

fn new_dry_run_user(
    username: &str,
    email: &str,
    first_name: &str,
    last_name: &str,
    action: LdapDryRunAction,
) -> (user: LdapDryRunUser)
    ensures
        user@ == dry_run_user(username@, email@, first_name@, last_name@, action),
{
    LdapDryRunUser {
        username: username.to_owned(),
        email: email.to_owned(),
        first_name: first_name.to_owned(),
        last_name: last_name.to_owned(),
        action,
    }
}

/// The made-up preview that a demo instance shows.
pub open spec fn demo_preview() -> LdapDryRunResultView {
    LdapDryRunResultView {
        defguard: seq![
            dry_run_user(
                "j.smith"@,
                "j.smith@example.com"@,
                "John"@,
                "Smith"@,
                LdapDryRunAction::Add,
            ),
            dry_run_user(
                "a.johnson"@,
                "a.johnson@example.com"@,
                "Anna"@,
                "Johnson"@,
                LdapDryRunAction::Add,
            ),
            dry_run_user(
                "p.brown"@,
                "p.brown@example.com"@,
                "Peter"@,
                "Brown"@,
                LdapDryRunAction::Remove,
            ),
        ],
        ldap: seq![
            dry_run_user(
                "m.davis"@,
                "m.davis@example.com"@,
                "Maria"@,
                "Davis"@,
                LdapDryRunAction::Add,
            ),
            dry_run_user(
                "t.wilson"@,
                "t.wilson@example.com"@,
                "Thomas"@,
                "Wilson"@,
                LdapDryRunAction::Remove,
            ),
            dry_run_user(
                "k.miller"@,
                "k.miller@example.com"@,
                "Kate"@,
                "Miller"@,
                LdapDryRunAction::Remove,
            ),
        ],
    }
}

/// The made-up preview that a demo instance shows.
pub fn demo_ldap_dry_run_result() -> (result: LdapDryRunResult)
    ensures
        result@ == demo_preview(),
{
    let result = LdapDryRunResult {
        defguard: vec![
            new_dry_run_user(
                "j.smith",
                "j.smith@example.com",
                "John",
                "Smith",
                LdapDryRunAction::Add,
            ),
            new_dry_run_user(
                "a.johnson",
                "a.johnson@example.com",
                "Anna",
                "Johnson",
                LdapDryRunAction::Add,
            ),
            new_dry_run_user(
                "p.brown",
                "p.brown@example.com",
                "Peter",
                "Brown",
                LdapDryRunAction::Remove,
            ),
        ],
        ldap: vec![
            new_dry_run_user(
                "m.davis",
                "m.davis@example.com",
                "Maria",
                "Davis",
                LdapDryRunAction::Add,
            ),
            new_dry_run_user(
                "t.wilson",
                "t.wilson@example.com",
                "Thomas",
                "Wilson",
                LdapDryRunAction::Remove,
            ),
            new_dry_run_user(
                "k.miller",
                "k.miller@example.com",
                "Kate",
                "Miller",
                LdapDryRunAction::Remove,
            ),
        ],
    };
    assert(result@.defguard =~= demo_preview().defguard);
    assert(result@.ldap =~= demo_preview().ldap);
    result
}

/// One thing to do outside.
#[derive(Debug, PartialEq, Eq)]
pub enum LdapAction {
    /// Connect with the settings in force.
    Connect,
    /// Connect with these settings.
    ConnectWith(Settings),
    /// Over the connection just made, find out what a synchronisation would do.
    DryRun(Authority),
}

/// The contents of an [`LdapAction`].
pub enum LdapActionView {
    Connect,
    ConnectWith(SettingsView),
    DryRun(Authority),
}

impl View for LdapAction {
    type V = LdapActionView;

    open spec fn view(&self) -> LdapActionView {
        match self {
            LdapAction::Connect => LdapActionView::Connect,
            LdapAction::ConnectWith(settings) => LdapActionView::ConnectWith(settings@),
            LdapAction::DryRun(authority) => LdapActionView::DryRun(*authority),
        }
    }
}

/// What a trial waits for.
#[derive(Clone, Copy, Debug, PartialEq, Eq, Structural)]
pub enum LdapPhase {
    /// A connection, and that is all.
    Testing,
    /// A connection over which to preview a synchronisation.
    Connecting(Authority),
    /// The preview.
    Previewing,
}

/// What came of the thing that was done.
#[derive(Debug, PartialEq, Eq)]
pub enum LdapReply {
    /// Whether there is a connection.
    Connected(bool),
    /// The preview, if there is one.
    Previewed(Option<LdapDryRunResult>),
}

/// What a trial comes to next.
#[derive(Debug, PartialEq, Eq)]
pub enum LdapStep {
    /// Do this, and go on with what came of it.
    Perform(LdapPhase, LdapAction),
    /// The trial is over; this is the answer.
    Respond(ApiResponse<LdapDryRunResult>),
}

/// The contents of an [`LdapStep`].
pub enum LdapStepView {
    Perform(LdapPhase, LdapActionView),
    Respond(ApiResponseView<LdapDryRunResultView>),
}

impl View for LdapStep {
    type V = LdapStepView;

    open spec fn view(&self) -> LdapStepView {
        match self {
            LdapStep::Perform(phase, action) => LdapStepView::Perform(*phase, action@),
            LdapStep::Respond(response) => LdapStepView::Respond(response@),
        }
    }
}

/// The answer with this status and no document.
pub open spec fn bare_answer(status: StatusCode) -> LdapStepView {
    LdapStepView::Respond(ApiResponseView { json: None, status })
}

/// The answer that carries `result`.
pub open spec fn preview_answer(result: LdapDryRunResultView) -> LdapStepView {
    LdapStepView::Respond(ApiResponseView { json: Some(result), status: StatusCode::Success })
}

/// Which side wins under these settings.
pub open spec fn authority_under(settings: SettingsView) -> Authority {
    if settings.ldap_is_authoritative {
        Authority::LDAP
    } else {
        Authority::Defguard
    }
}

/// Starts to test the connection that the settings in force describe.
pub fn test_ldap_settings(is_demo_mode: bool) -> (step: LdapStep)
    ensures
        step@ == if is_demo_mode {
            bare_answer(StatusCode::Success)
        } else {
            LdapStepView::Perform(LdapPhase::Testing, LdapActionView::Connect)
        },
{
    if is_demo_mode {
        return LdapStep::Respond(ApiResponse::with_status(StatusCode::Success));
    }
    LdapStep::Perform(LdapPhase::Testing, LdapAction::Connect)
}

/// Starts to test the connection that `settings`, which are not saved yet, describe.
pub fn test_submitted_ldap_settings(settings: Settings, is_demo_mode: bool) -> (step: LdapStep)
    ensures
        step@ == if is_demo_mode {
            preview_answer(demo_preview())
        } else {
            LdapStepView::Perform(LdapPhase::Testing, LdapActionView::ConnectWith(settings@))
        },
{
    if is_demo_mode {
        return LdapStep::Respond(
            ApiResponse::json(demo_ldap_dry_run_result(), StatusCode::Success),
        );
    }
    LdapStep::Perform(LdapPhase::Testing, LdapAction::ConnectWith(settings))
}

/// Starts to preview what a full synchronisation would do under `settings`, which are not saved
/// yet.
pub fn ldap_dry_run(settings: Settings, is_demo_mode: bool) -> (step: LdapStep)
    ensures
        step@ == if is_demo_mode {
            preview_answer(demo_preview())
        } else {
            LdapStepView::Perform(
                LdapPhase::Connecting(authority_under(settings@)),
                LdapActionView::ConnectWith(settings@),
            )
        },
{
    if is_demo_mode {
        return LdapStep::Respond(
            ApiResponse::json(demo_ldap_dry_run_result(), StatusCode::Success),
        );
    }
    let authority = if settings.ldap_is_authoritative {
        Authority::LDAP
    } else {
        Authority::Defguard
    };
    LdapStep::Perform(LdapPhase::Connecting(authority), LdapAction::ConnectWith(settings))
}

/// Whether `reply` is the kind of reply that a trial in `phase` waits for.
pub open spec fn ldap_reply_fits(phase: LdapPhase, reply: LdapReply) -> bool {
    (phase is Previewing) == (reply is Previewed)
}

/// What a trial in `phase` comes to when `reply` comes in.
pub open spec fn next_ldap_step(phase: LdapPhase, reply: LdapReply) -> LdapStepView {
    match (reply, phase) {
        (LdapReply::Connected(false), _) | (LdapReply::Previewed(None), _) => bare_answer(
            StatusCode::BadRequest,
        ),
        (LdapReply::Connected(true), LdapPhase::Connecting(authority)) => LdapStepView::Perform(
            LdapPhase::Previewing,
            LdapActionView::DryRun(authority),
        ),
        (LdapReply::Connected(true), _) => bare_answer(StatusCode::Success),
        (LdapReply::Previewed(Some(result)), _) => preview_answer(result@),
    }
}

/// Takes a trial to its next step with the reply to the action of the step before.
pub fn advance_ldap(phase: LdapPhase, reply: LdapReply) -> (step: LdapStep)
    requires
        ldap_reply_fits(phase, reply),
    ensures
        step@ == next_ldap_step(phase, reply),
        reply matches LdapReply::Previewed(Some(result)) ==> step == LdapStep::Respond(
            (ApiResponse { json: Some(result), status: StatusCode::Success }),
        ),
{
    match reply {
        LdapReply::Connected(true) => match phase {
            LdapPhase::Connecting(authority) => LdapStep::Perform(
                LdapPhase::Previewing,
                LdapAction::DryRun(authority),
            ),
            _ => LdapStep::Respond(ApiResponse::with_status(StatusCode::Success)),
        },
        LdapReply::Connected(false) => LdapStep::Respond(
            ApiResponse::with_status(StatusCode::BadRequest),
        ),
        LdapReply::Previewed(Some(result)) => LdapStep::Respond(
            ApiResponse::json(result, StatusCode::Success),
        ),
        LdapReply::Previewed(None) => LdapStep::Respond(
            ApiResponse::with_status(StatusCode::BadRequest),
        ),
    }
}

/// Whether each of `replies` is one that the trial waits for at that point.
pub open spec fn trial_fits(step: LdapStepView, replies: Seq<LdapReply>) -> bool
    decreases replies.len(),
{
    replies.len() == 0 || match step {
        LdapStepView::Perform(phase, _) => ldap_reply_fits(phase, replies[0]) && trial_fits(
            next_ldap_step(phase, replies[0]),
            replies.drop_first(),
        ),
        LdapStepView::Respond(_) => false,
    }
}

/// What is done outside, in order, when these replies come in.
pub open spec fn trial_actions(step: LdapStepView, replies: Seq<LdapReply>) -> Seq<LdapActionView>
    decreases replies.len(),
{
    match step {
        LdapStepView::Perform(phase, action) => if replies.len() == 0 {
            seq![action]
        } else {
            seq![action] + trial_actions(next_ldap_step(phase, replies[0]), replies.drop_first())
        },
        LdapStepView::Respond(_) => Seq::empty(),
    }
}

/// A preview is strictly for looking: whatever comes of it, all it ever does outside is to connect
/// with the settings it was given and then to ask what a synchronisation under their authority
/// would do. A test of a connection does no more than connect.
pub proof fn trials_only_look(settings: SettingsView, replies: Seq<LdapReply>)
    ensures
        ({
            let start = LdapStepView::Perform(
                LdapPhase::Connecting(authority_under(settings)),
                LdapActionView::ConnectWith(settings),
            );
            trial_fits(start, replies) ==> trial_actions(start, replies).is_prefix_of(
                seq![
                    LdapActionView::ConnectWith(settings),
                    LdapActionView::DryRun(authority_under(settings)),
                ],
            )
        }),
        ({
            let start = LdapStepView::Perform(
                LdapPhase::Testing,
                LdapActionView::ConnectWith(settings),
            );
            trial_fits(start, replies) ==> trial_actions(start, replies) == seq![
                LdapActionView::ConnectWith(settings),
            ]
        }),
        ({
            let start = LdapStepView::Perform(LdapPhase::Testing, LdapActionView::Connect);
            trial_fits(start, replies) ==> trial_actions(start, replies) == seq![
                LdapActionView::Connect,
            ]
        }),
{
    reveal_with_fuel(trial_fits, 4);
    reveal_with_fuel(trial_actions, 4);
    let testing = LdapStepView::Perform(LdapPhase::Testing, LdapActionView::ConnectWith(settings));
    assert(trial_fits(testing, replies) ==> trial_actions(testing, replies) =~= seq![
        LdapActionView::ConnectWith(settings),
    ]);
    let current = LdapStepView::Perform(LdapPhase::Testing, LdapActionView::Connect);
    assert(trial_fits(current, replies) ==> trial_actions(current, replies) =~= seq![
        LdapActionView::Connect,
    ]);
}

} // verus!
