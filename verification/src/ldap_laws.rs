//! What trials of directory settings do from the request to the answer.

use vstd::prelude::*;

use crate::ldap::{
    advance_ldap, demo_ldap_dry_run_result, ldap_dry_run, test_ldap_settings,
    test_submitted_ldap_settings, Authority, LdapAction, LdapDryRunResult, LdapDryRunUser,
    LdapDryRunUserView, LdapPhase, LdapReply, LdapStep,
};
use crate::response::StatusCode;
use crate::settings::Settings;

verus! {

/// What a preview says of either side is what its contents say.
pub proof fn contents_of_previews(result: LdapDryRunResult)
    ensures
        result@.defguard.len() == result.defguard@.len(),
        result@.ldap.len() == result.ldap@.len(),
        forall|i: int|
            0 <= i < result.defguard@.len() ==> #[trigger] result@.defguard[i]
                == result.defguard@[i]@,
        forall|i: int|
            0 <= i < result.ldap@.len() ==> #[trigger] result@.ldap[i] == result.ldap@[i]@,
{
}

/// What a preview says of a user is what the contents of that user say.
pub proof fn contents_of_previewed_users(user: LdapDryRunUser)
    ensures
        user@.username == user.username@,
        user@.email == user.email@,
        user@.first_name == user.first_name@,
        user@.last_name == user.last_name@,
        user@.action == user.action,
{
}

/// Whether `next` is what comes of `step` when `reply` comes in.
pub open spec fn leads_to(step: LdapStep, reply: LdapReply, next: LdapStep) -> bool {
    step matches LdapStep::Perform(phase, _) ==> call_ensures(advance_ldap, (phase, reply), next)
}

/// Whether `step` asks for something and can go on with `reply`.
pub open spec fn waits_for(step: LdapStep, reply: LdapReply) -> bool {
    step matches LdapStep::Perform(phase, _) && call_requires(advance_ldap, (phase, reply))
}

/// Whether `step` is the answer with this status and without a document.
pub open spec fn answers_bare(step: LdapStep, status: StatusCode) -> bool {
    step matches LdapStep::Respond(response) && response.status == status && response.json is None
}

/// Testing the settings in force connects with them, and the answer tells whether that worked.
pub proof fn test_tells_of_the_connection(connected: bool, first: LdapStep, last: LdapStep)
    requires
        call_ensures(test_ldap_settings, (false,), first),
        leads_to(first, LdapReply::Connected(connected), last),
    ensures
        waits_for(first, LdapReply::Connected(connected)),
        first->Perform_1 is Connect,
        connected ==> answers_bare(last, StatusCode::Success),
        !connected ==> answers_bare(last, StatusCode::BadRequest),
{
}

/// Testing submitted settings connects with just these, and the answer tells whether that worked.
pub proof fn submitted_test_tells_of_the_connection(
    settings: Settings,
    connected: bool,
    first: LdapStep,
    last: LdapStep,
)
    requires
        call_ensures(test_submitted_ldap_settings, (settings, false), first),
        leads_to(first, LdapReply::Connected(connected), last),
    ensures
        waits_for(first, LdapReply::Connected(connected)),
        first->Perform_1 matches LdapAction::ConnectWith(used) && used@ == settings@,
        connected ==> answers_bare(last, StatusCode::Success),
        !connected ==> answers_bare(last, StatusCode::BadRequest),
{
}

/// A preview connects with the submitted settings and fails where that is not possible.
pub proof fn preview_needs_a_connection(settings: Settings, first: LdapStep, last: LdapStep)
    requires
        call_ensures(ldap_dry_run, (settings, false), first),
        leads_to(first, LdapReply::Connected(false), last),
    ensures
        waits_for(first, LdapReply::Connected(false)),
        first->Perform_1 matches LdapAction::ConnectWith(used) && used@ == settings@,
        answers_bare(last, StatusCode::BadRequest),
{
}

/// Once connected, a preview asks what a synchronisation would do in which the directory wins just
/// where the submitted settings say that it is authoritative. What is found is the answer, each
/// side on its own side and no user changed; where nothing could be found the preview fails.
pub proof fn preview_hands_on_what_was_found(
    settings: Settings,
    found: Option<LdapDryRunResult>,
    first: LdapStep,
    second: LdapStep,
    last: LdapStep,
)
    requires
        call_ensures(ldap_dry_run, (settings, false), first),
        leads_to(first, LdapReply::Connected(true), second),
        leads_to(second, LdapReply::Previewed(found), last),
    ensures
        waits_for(first, LdapReply::Connected(true)),
        first->Perform_1 matches LdapAction::ConnectWith(used) && used@ == settings@,
        waits_for(second, LdapReply::Previewed(found)),
        settings.ldap_is_authoritative ==> second->Perform_1 == LdapAction::DryRun(Authority::LDAP),
        !settings.ldap_is_authoritative ==> second->Perform_1 == LdapAction::DryRun(
            Authority::Defguard,
        ),
        found is None ==> answers_bare(last, StatusCode::BadRequest),
        found is Some ==> {
            &&& last is Respond
            &&& last->Respond_0.status is Success
            &&& last->Respond_0.json is Some
            &&& last->Respond_0.json->0.defguard == found->0.defguard
            &&& last->Respond_0.json->0.ldap == found->0.ldap
        },
{
}

/// In whatever way a trial has come to wait for a preview, the answer is what was found: the local
/// side of the result as the local side, and the directory's side as the directory's side.
pub proof fn preview_is_the_answer(result: LdapDryRunResult, step: LdapStep)
    requires
        call_ensures(
            advance_ldap,
            (LdapPhase::Previewing, LdapReply::Previewed(Some(result))),
            step,
        ),
    ensures
        step matches LdapStep::Respond(response) && {
            &&& response.status is Success
            &&& response.json is Some
            &&& response.json->0.defguard == result.defguard
            &&& response.json->0.ldap == result.ldap
            &&& response.json->0@.defguard == result@.defguard
            &&& response.json->0@.ldap == result@.ldap
        },
{
}

/// Whether this is the answer that carries what `demo_ldap_dry_run_result` makes up.
pub open spec fn answers_with_demo(step: LdapStep, made_up: LdapDryRunResult) -> bool {
    step matches LdapStep::Respond(response) && {
        &&& response.status is Success
        &&& response.json is Some
        &&& response.json->0@ == made_up@
    }
}

/// A demo instance connects nowhere. A test of the settings in force is said to have worked; a test
/// of submitted settings and a preview are answered with the made-up preview, whatever was
/// submitted.
pub proof fn demo_makes_up_its_answers(
    settings: Settings,
    made_up: LdapDryRunResult,
    tested: LdapStep,
    submitted: LdapStep,
    previewed: LdapStep,
)
    requires
        call_ensures(demo_ldap_dry_run_result, (), made_up),
        call_ensures(test_ldap_settings, (true,), tested),
        call_ensures(test_submitted_ldap_settings, (settings, true), submitted),
        call_ensures(ldap_dry_run, (settings, true), previewed),
    ensures
        answers_bare(tested, StatusCode::Success),
        answers_with_demo(submitted, made_up),
        answers_with_demo(previewed, made_up),
{
}

/// Whether a made-up user is this one, with a mail address that goes with the name.
pub open spec fn is_made_up(
    user: LdapDryRunUserView,
    username: Seq<char>,
    first_name: Seq<char>,
    last_name: Seq<char>,
) -> bool {
    &&& user.username == username
    &&& user.email == username + "@example.com"@
    &&& user.first_name == first_name
    &&& user.last_name == last_name
}

/// The made-up preview has three users on either side; locally two would be added and one removed,
/// in the directory one would be added and two removed.
pub proof fn made_up_preview(result: LdapDryRunResult)
    requires
        call_ensures(demo_ldap_dry_run_result, (), result),
    ensures
        result@.defguard.len() == 3,
        is_made_up(result@.defguard[0], "j.smith"@, "John"@, "Smith"@),
        is_made_up(result@.defguard[1], "a.johnson"@, "Anna"@, "Johnson"@),
        is_made_up(result@.defguard[2], "p.brown"@, "Peter"@, "Brown"@),
        result@.defguard[0].action is Add,
        result@.defguard[1].action is Add,
        result@.defguard[2].action is Remove,
        result@.ldap.len() == 3,
        is_made_up(result@.ldap[0], "m.davis"@, "Maria"@, "Davis"@),
        is_made_up(result@.ldap[1], "t.wilson"@, "Thomas"@, "Wilson"@),
        is_made_up(result@.ldap[2], "k.miller"@, "Kate"@, "Miller"@),
        result@.ldap[0].action is Add,
        result@.ldap[1].action is Remove,
        result@.ldap[2].action is Remove,
{
    reveal_strlit("@example.com");
    reveal_strlit("j.smith");
    reveal_strlit("j.smith@example.com");
    reveal_strlit("a.johnson");
    reveal_strlit("a.johnson@example.com");
    reveal_strlit("p.brown");
    reveal_strlit("p.brown@example.com");
    reveal_strlit("m.davis");
    reveal_strlit("m.davis@example.com");
    reveal_strlit("t.wilson");
    reveal_strlit("t.wilson@example.com");
    reveal_strlit("k.miller");
    reveal_strlit("k.miller@example.com");
    assert("j.smith@example.com"@ =~= "j.smith"@ + "@example.com"@);
    assert("a.johnson@example.com"@ =~= "a.johnson"@ + "@example.com"@);
    assert("p.brown@example.com"@ =~= "p.brown"@ + "@example.com"@);
    assert("m.davis@example.com"@ =~= "m.davis"@ + "@example.com"@);
    assert("t.wilson@example.com"@ =~= "t.wilson"@ + "@example.com"@);
    assert("k.miller@example.com"@ =~= "k.miller"@ + "@example.com"@);
}

} // verus!
