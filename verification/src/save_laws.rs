//! What holds of every save, whatever comes of the things done outside.

use vstd::prelude::*;

use crate::response::{ApiResponseView, WebErrorView};
use crate::save::{
    branding_flow, patch_flow, reply_fits, update_flow, ApiEventTypeView, Phase, PublicSettings,
    SaveActionView, SaveFlowView, SaveReply, SaveStepView, READ_ONLY_IN_DEMO,
};
use crate::settings::{SettingsPatchView, SettingsView, PASSWORD_PLACEHOLDER};

verus! {

/// Whether each of `replies` is one that the save waits for at that point.
pub open spec fn run_fits<E>(step: SaveStepView<E>, replies: Seq<SaveReply<E>>) -> bool
    decreases replies.len(),
{
    replies.len() == 0 || match step {
        SaveStepView::Perform(flow, _) => reply_fits(flow.phase, replies[0]) && run_fits(
            flow.next(replies[0]),
            replies.drop_first(),
        ),
        SaveStepView::Respond(_) => false,
    }
}

/// What is done outside, in order, when these replies come in.
pub open spec fn run_actions<E>(step: SaveStepView<E>, replies: Seq<SaveReply<E>>) -> Seq<
    SaveActionView,
>
    decreases replies.len(),
{
    match step {
        SaveStepView::Perform(flow, action) => if replies.len() == 0 {
            seq![action]
        } else {
            seq![action] + run_actions(flow.next(replies[0]), replies.drop_first())
        },
        SaveStepView::Respond(_) => Seq::empty(),
    }
}

/// Where the save stands after these replies.
pub open spec fn run_end<E>(step: SaveStepView<E>, replies: Seq<SaveReply<E>>) -> SaveStepView<E>
    decreases replies.len(),
{
    match step {
        SaveStepView::Perform(flow, _) => if replies.len() == 0 {
            step
        } else {
            run_end(flow.next(replies[0]), replies.drop_first())
        },
        SaveStepView::Respond(_) => step,
    }
}

/// The first step of a save.
pub open spec fn first_step<E>(flow: SaveFlowView) -> SaveStepView<E> {
    if flow.kind is DefaultBranding {
        flow.to_store()
    } else {
        SaveStepView::Perform(flow, SaveActionView::Validate(flow.after))
    }
}

/// Whether `flow` is a save that has just been started by one of the three requests.
pub open spec fn is_start(flow: SaveFlowView) -> bool {
    ||| exists|data: SettingsView, before: SettingsView, is_demo_mode: bool|
        flow == #[trigger] update_flow(data, before, is_demo_mode)
    ||| exists|current: SettingsView, patch: SettingsPatchView, is_demo_mode: bool|
        flow == #[trigger] patch_flow(current, patch, is_demo_mode)
    ||| exists|stored: SettingsView| flow == #[trigger] branding_flow(stored)
}

/// What a save stores, if it comes to storing.
pub open spec fn stored_by(flow: SaveFlowView) -> SettingsView {
    if flow.is_demo_mode {
        flow.after.without_bind_password()
    } else {
        flow.after
    }
}

/// The place of an action in the order of a save.
pub open spec fn rank(action: SaveActionView) -> int {
    match action {
        SaveActionView::Validate(_) => 0,
        SaveActionView::CompareLockedFields { .. } => 1,
        SaveActionView::Store(_) => 2,
        SaveActionView::UpdateCachedLicense(_) => 3,
        SaveActionView::CheckSmtp { .. } => 4,
        SaveActionView::LoadEnterpriseSettings => 5,
        SaveActionView::BroadcastPublicSettings(_) => 6,
        SaveActionView::EmitEvent(_) => 7,
    }
}

/// Whether `action` is one that the save started as `start` may ask for: about the settings that
/// the request gives, the settings that are stored, and no others.
pub open spec fn belongs_to(action: SaveActionView, start: SaveFlowView) -> bool {
    match action {
        SaveActionView::Validate(settings) => settings == start.after && !(
        start.kind is DefaultBranding),
        SaveActionView::CompareLockedFields { before, after } => before == start.before && after
            == start.after && start.is_demo_mode,
        SaveActionView::Store(settings) => settings == stored_by(start),
        SaveActionView::UpdateCachedLicense(license) => start.license == Some(license),
        SaveActionView::CheckSmtp { before, after } => before == start.before && after == stored_by(
            start,
        ) && !(start.kind is DefaultBranding),
        SaveActionView::LoadEnterpriseSettings => !(start.kind is DefaultBranding),
        SaveActionView::BroadcastPublicSettings(_) => !(start.kind is DefaultBranding),
        SaveActionView::EmitEvent(event) => event == (SaveFlowView {
            after: stored_by(start),
            ..start
        }).event(),
    }
}

spec fn phase_rank(phase: Phase) -> int {
    match phase {
        Phase::Validating => 0,
        Phase::CheckingLocks => 1,
        Phase::Storing => 2,
        Phase::UpdatingLicense => 3,
        Phase::CheckingSmtp => 4,
        Phase::LoadingEnterpriseSettings => 5,
        Phase::Broadcasting => 6,
        Phase::Emitting => 7,
    }
}

/// What holds of a save under way that was started as `start`.
spec fn on_course<E>(start: SaveFlowView, step: SaveStepView<E>) -> bool {
    match step {
        SaveStepView::Perform(flow, action) => {
            &&& flow.kind == start.kind
            &&& flow.is_demo_mode == start.is_demo_mode
            &&& flow.before == start.before
            &&& flow.license == start.license
            &&& flow.after == if phase_rank(flow.phase) < 2 {
                start.after
            } else {
                stored_by(start)
            }
            &&& rank(action) == phase_rank(flow.phase)
            &&& belongs_to(action, start)
            &&& flow.phase is CheckingLocks ==> flow.is_demo_mode
            &&& phase_rank(flow.phase) < 2 || 4 <= phase_rank(flow.phase) < 7 ==> !(
            flow.kind is DefaultBranding)
        },
        SaveStepView::Respond(_) => true,
    }
}

proof fn lemma_start_on_course<E>(start: SaveFlowView)
    requires
        is_start(start),
    ensures
        on_course(start, first_step::<E>(start)),
        start.kind is DefaultBranding ==> !start.is_demo_mode,
{
}

proof fn lemma_next_on_course<E>(
    start: SaveFlowView,
    flow: SaveFlowView,
    action: SaveActionView,
    reply: SaveReply<E>,
)
    requires
        on_course(start, SaveStepView::<E>::Perform(flow, action)),
        reply_fits(flow.phase, reply),
    ensures
        on_course(start, flow.next(reply)),
        flow.next(reply) matches SaveStepView::Perform(next, next_action) ==> rank(next_action)
            > rank(action),
{
}


proof fn lemma_run_on_course<E>(
    start: SaveFlowView,
    step: SaveStepView<E>,
    replies: Seq<SaveReply<E>>,
)
    requires
        on_course(start, step),
        run_fits(step, replies),
    ensures
        forall|i: int|
            0 <= i < run_actions(step, replies).len() ==> belongs_to(
                #[trigger] run_actions(step, replies)[i],
                start,
            ),
        forall|i: int, j: int|
            0 <= i < j < run_actions(step, replies).len() ==> rank(
                #[trigger] run_actions(step, replies)[i],
            ) < rank(#[trigger] run_actions(step, replies)[j]),
        step matches SaveStepView::Perform(_, action) ==> run_actions(step, replies)[0] == action,
        run_actions(step, replies).len() <= replies.len() + 1,
    decreases replies.len(),
{
    if let SaveStepView::Perform(flow, action) = step {
        if replies.len() > 0 {
            let next = flow.next(replies[0]);
            let rest = replies.drop_first();
            lemma_next_on_course(start, flow, action, replies[0]);
            lemma_run_on_course(start, next, rest);
            let later = run_actions(next, rest);
            assert forall|i: int, j: int|
                0 <= i < j < run_actions(step, replies).len() implies rank(
                #[trigger] run_actions(step, replies)[i],
            ) < rank(#[trigger] run_actions(step, replies)[j]) by {
                if i == 0 {
                    if j > 1 {
                        assert(rank(later[0]) < rank(later[j - 1]));
                    }
                } else {
                    assert(rank(later[i - 1]) < rank(later[j - 1]));
                }
            }
        }
    }
}

/// A save only ever asks for what its own request calls for: it validates the settings the request
/// gives, stores exactly those (without a directory password on a demo instance), caches no
/// license but the one the request says, and reports the settings before and the settings stored.
/// It asks for these things in a fixed order and for none of them twice.
pub proof fn save_does_what_was_asked<E>(flow: SaveFlowView, replies: Seq<SaveReply<E>>)
    requires
        is_start(flow),
        run_fits(first_step(flow), replies),
    ensures
        ({
            let actions = run_actions(first_step(flow), replies);
            &&& forall|i: int|
                0 <= i < actions.len() ==> belongs_to(#[trigger] actions[i], flow)
            &&& forall|i: int, j: int|
                0 <= i < j < actions.len() ==> rank(#[trigger] actions[i]) < rank(
                    #[trigger] actions[j],
                )
            &&& actions.len() <= 8
        }),
{
    lemma_start_on_course::<E>(flow);
    lemma_run_on_course(flow, first_step(flow), replies);
    let actions = run_actions(first_step(flow), replies);
    lemma_increasing_ranks(actions, actions.len() as int);
}

proof fn lemma_increasing_ranks(actions: Seq<SaveActionView>, n: int)
    requires
        0 <= n <= actions.len(),
        forall|i: int, j: int|
            0 <= i < j < actions.len() ==> rank(#[trigger] actions[i]) < rank(
                #[trigger] actions[j],
            ),
    ensures
        n > 0 ==> rank(actions[n - 1]) >= n - 1,
        n <= 8,
    decreases n,
{
    if n > 1 {
        lemma_increasing_ranks(actions, n - 1);
        assert(rank(actions[n - 2]) < rank(actions[n - 1]));
    }
}

/// On a demo instance a save that would change the license, or any other locked field, is refused:
/// nothing is stored, cached, sent or logged, and the answer says that the setting is read-only,
/// unless the settings were not even valid.
pub proof fn demo_refuses_locked_changes<E>(flow: SaveFlowView, replies: Seq<SaveReply<E>>)
    requires
        is_start(flow),
        !(flow.kind is DefaultBranding),
        flow.is_demo_mode,
        run_fits(first_step(flow), replies),
        flow.before.license != flow.after.license || (replies.len() > 1 && replies[1]
            == SaveReply::<E>::LockedFieldsDiffer(true)),
    ensures
        forall|i: int|
            0 <= i < run_actions(first_step(flow), replies).len() ==> rank(
                #[trigger] run_actions(first_step(flow), replies)[i],
            ) < 2,
        replies.len() >= 2 ==> run_end(first_step(flow), replies) is Respond,
        run_end(first_step(flow), replies) matches SaveStepView::Respond(answer) ==> match replies[0] {
            SaveReply::Validated(Err(error)) => answer == Err::<
                ApiResponseView<SettingsView>,
                WebErrorView<E>,
            >(WebErrorView::Outside(error)),
            _ => answer == Err::<ApiResponseView<SettingsView>, WebErrorView<E>>(
                WebErrorView::Forbidden(READ_ONLY_IN_DEMO@),
            ),
        },
{
    reveal_with_fuel(run_fits, 4);
    reveal_with_fuel(run_actions, 4);
    reveal_with_fuel(run_end, 4);
}


/// A patch that gives a license other than the current one is refused on a demo instance, whatever
/// else it holds: no run of it gets as far as storing.
pub proof fn demo_refuses_license_patch<E>(
    current: SettingsView,
    patch: SettingsPatchView,
    replies: Seq<SaveReply<E>>,
)
    requires
        patch.license is Some,
        patch.license != Some(current.license),
        run_fits(first_step(patch_flow(current, patch, true)), replies),
    ensures
        forall|i: int|
            0 <= i < run_actions(first_step(patch_flow(current, patch, true)), replies).len()
                ==> !(#[trigger] run_actions(first_step(patch_flow(current, patch, true)), replies)[i]
                is Store),
        replies.len() == 2 && (replies[0] matches SaveReply::Validated(Ok(_))) ==> run_end(
            first_step(patch_flow(current, patch, true)),
            replies,
        ) == SaveStepView::<E>::Respond(Err(WebErrorView::Forbidden(READ_ONLY_IN_DEMO@))),
{
    let flow = patch_flow(current, patch, true);
    assert(is_start(flow));
    demo_refuses_locked_changes(flow, replies);
    reveal_with_fuel(run_fits, 4);
    reveal_with_fuel(run_end, 4);
}

/// On a demo instance no directory password is ever stored or shown: what a patch or an update
/// gives is replaced by the placeholder, in what is stored, in what is logged and in what a later
/// request for the settings returns.
pub proof fn demo_keeps_no_bind_password<E>(flow: SaveFlowView, replies: Seq<SaveReply<E>>)
    requires
        is_start(flow),
        !(flow.kind is DefaultBranding),
        flow.is_demo_mode,
        run_fits(first_step(flow), replies),
    ensures
        forall|i: int|
            0 <= i < run_actions(first_step(flow), replies).len() ==> match (
            #[trigger] run_actions(first_step(flow), replies)[i]) {
                SaveActionView::Store(settings) => {
                    &&& settings.ldap_bind_password is Some <==> flow.after.ldap_bind_password is Some
                    &&& settings.ldap_bind_password is Some ==> settings.ldap_bind_password == Some(
                        PASSWORD_PLACEHOLDER@,
                    )
                    &&& settings.shown(true).ldap_bind_password == settings.ldap_bind_password
                },
                SaveActionView::EmitEvent(
                    ApiEventTypeView::SettingsUpdated { after, .. },
                ) => after.ldap_bind_password is Some ==> after.ldap_bind_password == Some(
                    PASSWORD_PLACEHOLDER@,
                ),
                SaveActionView::EmitEvent(
                    ApiEventTypeView::SettingsUpdatedPartial { after, .. },
                ) => after.ldap_bind_password is Some ==> after.ldap_bind_password == Some(
                    PASSWORD_PLACEHOLDER@,
                ),
                _ => true,
            },
{
    save_does_what_was_asked(flow, replies);
    let actions = run_actions(first_step(flow), replies);
    assert forall|i: int| 0 <= i < actions.len() implies belongs_to(#[trigger] actions[i], flow) by {}
}

/// A failure reported from outside ends the save with that error.
pub proof fn failure_ends_the_save<E>(flow: SaveFlowView, reply: SaveReply<E>, error: E)
    requires
        reply_fits(flow.phase, reply),
        reply == SaveReply::Validated(Err(error)) || reply == SaveReply::<E>::Stored(Err(error))
            || reply == SaveReply::<E>::LicenseUpdated(Err(error)) || reply == SaveReply::<
            E,
        >::EventEmitted(Err(error)),
    ensures
        flow.next(reply) == SaveStepView::<E>::Respond(Err(WebErrorView::Outside(error))),
{
}

/// Whether the store was asked for and reported as done before place `j`.
pub open spec fn stored_before<E>(
    actions: Seq<SaveActionView>,
    replies: Seq<SaveReply<E>>,
    j: int,
) -> bool {
    exists|i: int|
        {
            &&& 0 <= i < j
            &&& i < replies.len()
            &&& i < actions.len()
            &&& (#[trigger] actions[i]) is Store
            &&& replies[i] matches SaveReply::Stored(Ok(_))
        }
}

proof fn lemma_store_comes_first<E>(
    start: SaveFlowView,
    step: SaveStepView<E>,
    replies: Seq<SaveReply<E>>,
)
    requires
        on_course(start, step),
        run_fits(step, replies),
        step matches SaveStepView::Perform(flow, _) && phase_rank(flow.phase) <= 2,
    ensures
        forall|j: int|
            0 <= j < run_actions(step, replies).len() && rank(
                #[trigger] run_actions(step, replies)[j],
            ) > 2 ==> stored_before(run_actions(step, replies), replies, j),
        run_end(step, replies) matches SaveStepView::Respond(Ok(_)) ==> stored_before(
            run_actions(step, replies),
            replies,
            replies.len() as int,
        ),
    decreases replies.len(),
{
    if let SaveStepView::Perform(flow, action) = step {
        let actions = run_actions(step, replies);
        if replies.len() > 0 {
            let next = flow.next(replies[0]);
            let rest = replies.drop_first();
            let later = run_actions(next, rest);
            lemma_next_on_course(start, flow, action, replies[0]);
            if phase_rank(flow.phase) == 2 {
                if replies[0] matches SaveReply::Stored(Ok(_)) {
                    assert(actions[0] is Store);
                } else {
                    assert(next is Respond);
                }
            } else if next is Perform {
                lemma_store_comes_first(start, next, rest);
                assert forall|j: int|
                    0 <= j < actions.len() && rank(#[trigger] actions[j]) > 2 implies stored_before(
                    actions,
                    replies,
                    j,
                ) by {
                    assert(actions[j] == later[j - 1]);
                    let i = choose|i: int|
                        0 <= i < j - 1 && i < rest.len() && i < later.len() && (
                        #[trigger] later[i]) is Store && rest[i] matches SaveReply::Stored(Ok(_));
                    assert(actions[i + 1] == later[i]);
                    assert(replies[i + 1] == rest[i]);
                }
                if run_end(next, rest) matches SaveStepView::Respond(Ok(_)) {
                    let i = choose|i: int|
                        0 <= i < rest.len() && i < later.len() && (#[trigger] later[i]) is Store
                            && rest[i] matches SaveReply::Stored(Ok(_));
                    assert(actions[i + 1] == later[i]);
                    assert(replies[i + 1] == rest[i]);
                }
            }
        }
    }
}

/// Nothing is cached, sent or logged before the settings are safely stored, and a save that
/// answers well has stored them.
pub proof fn nothing_follows_but_a_store<E>(flow: SaveFlowView, replies: Seq<SaveReply<E>>)
    requires
        is_start(flow),
        run_fits(first_step(flow), replies),
    ensures
        forall|j: int|
            0 <= j < run_actions(first_step(flow), replies).len() && rank(
                #[trigger] run_actions(first_step(flow), replies)[j],
            ) > 2 ==> stored_before(run_actions(first_step(flow), replies), replies, j),
        run_end(first_step(flow), replies) matches SaveStepView::Respond(Ok(answer)) ==> {
            &&& stored_before(
                run_actions(first_step(flow), replies),
                replies,
                replies.len() as int,
            )
            &&& replies.last() matches SaveReply::EventEmitted(Ok(_))
            &&& answer == (SaveFlowView { after: stored_by(flow), ..flow }).response()
        },
{
    lemma_start_on_course::<E>(flow);
    lemma_store_comes_first(flow, first_step(flow), replies);
    lemma_good_answer(flow, first_step(flow), replies);
}

proof fn lemma_good_answer<E>(
    start: SaveFlowView,
    step: SaveStepView<E>,
    replies: Seq<SaveReply<E>>,
)
    requires
        on_course(start, step),
        step is Perform,
        run_fits(step, replies),
    ensures
        run_end(step, replies) matches SaveStepView::Respond(Ok(answer)) ==> {
            &&& replies.len() > 0
            &&& replies.last() matches SaveReply::EventEmitted(Ok(_))
            &&& answer == (SaveFlowView { after: stored_by(start), ..start }).response()
        },
    decreases replies.len(),
{
    if let SaveStepView::Perform(flow, action) = step {
        if replies.len() > 0 {
            let next = flow.next(replies[0]);
            lemma_next_on_course(start, flow, action, replies[0]);
            if next is Perform {
                lemma_good_answer(start, next, replies.drop_first());
                if replies.len() > 1 {
                    assert(replies.drop_first().last() == replies.last());
                }
            } else {
                assert(run_fits(next, replies.drop_first()));
                assert(run_end(next, replies.drop_first()) == next);
            }
        }
    }
}

/// Proxies are told what to show exactly when mail became possible or impossible and what to show
/// could be read; whether telling them worked changes nothing else.
pub proof fn proxies_hear_of_mail_changes<E>(
    flow: SaveFlowView,
    before: bool,
    after: bool,
    shown: Option<PublicSettings>,
    delivered: bool,
)
    requires
        flow.phase is CheckingSmtp,
    ensures
        ({
            let replies = seq![
                SaveReply::<E>::SmtpConfigured { before, after },
                SaveReply::EnterpriseSettings(shown),
                SaveReply::Broadcast { delivered },
            ];
            let checked = SaveStepView::<E>::Perform(
                flow,
                SaveActionView::CheckSmtp { before: flow.before, after: flow.after },
            );
            &&& before == after ==> flow.next(replies[0]) == flow.to_emit::<E>()
            &&& before != after && shown is None ==> run_end(checked, replies.take(2))
                == flow.to_emit::<E>()
            &&& before != after ==> (shown matches Some(public) ==> {
                &&& run_actions(checked, replies)[2] == SaveActionView::BroadcastPublicSettings(
                    public,
                )
                &&& run_end(checked, replies) == flow.to_emit::<E>()
            })
        }),
{
    reveal_with_fuel(run_actions, 4);
    reveal_with_fuel(run_end, 4);
    let replies = seq![
        SaveReply::<E>::SmtpConfigured { before, after },
        SaveReply::EnterpriseSettings(shown),
        SaveReply::Broadcast { delivered },
    ];
    let two = replies.take(2);
    assert(two.drop_first().drop_first().len() == 0);
    assert(two.drop_first()[0] == replies[1]);
    assert(replies.drop_first()[0] == replies[1]);
    assert(replies.drop_first().drop_first()[0] == replies[2]);
    assert(replies.drop_first().drop_first().drop_first().len() == 0);
}

/// Whether `reply` reports `error`.
pub open spec fn reports<E>(reply: SaveReply<E>, error: E) -> bool {
    match reply {
        SaveReply::Validated(Err(reported)) | SaveReply::Stored(Err(reported))
        | SaveReply::LicenseUpdated(Err(reported)) | SaveReply::EventEmitted(Err(reported)) =>
            reported == error,
        _ => false,
    }
}

proof fn lemma_bad_answer<E>(
    start: SaveFlowView,
    step: SaveStepView<E>,
    replies: Seq<SaveReply<E>>,
)
    requires
        on_course(start, step),
        step is Perform,
        run_fits(step, replies),
    ensures
        run_end(step, replies) matches SaveStepView::Respond(Err(error)) ==> {
            &&& replies.len() > 0
            &&& answer_has_a_reason(start, replies.last(), error)
        },
    decreases replies.len(),
{
    if let SaveStepView::Perform(flow, action) = step {
        if replies.len() > 0 {
            let next = flow.next(replies[0]);
            lemma_next_on_course(start, flow, action, replies[0]);
            if next is Perform {
                lemma_bad_answer(start, next, replies.drop_first());
                if replies.len() > 1 {
                    assert(replies.drop_first().last() == replies.last());
                }
            } else {
                assert(run_fits(next, replies.drop_first()));
                assert(run_end(next, replies.drop_first()) == next);
            }
        }
    }
}

/// Whether the last reply of a save accounts for the error it is answered with.
pub open spec fn answer_has_a_reason<E>(
    start: SaveFlowView,
    last: SaveReply<E>,
    error: WebErrorView<E>,
) -> bool {
    match error {
        WebErrorView::Outside(reported) => reports(last, reported),
        WebErrorView::Forbidden(message) => {
            &&& message == READ_ONLY_IN_DEMO@
            &&& start.is_demo_mode
            &&& last matches SaveReply::LockedFieldsDiffer(others)
                && start.after.locked_fields_differ(start.before, others)
        },
        WebErrorView::DbError(_) => false,
    }
}

/// A save fails only for a reason: an error reported from outside, which is the error it is
/// answered with, or a locked field on a demo instance.
pub proof fn failures_have_a_reason<E>(flow: SaveFlowView, replies: Seq<SaveReply<E>>)
    requires
        is_start(flow),
        run_fits(first_step(flow), replies),
    ensures
        run_end(first_step(flow), replies) matches SaveStepView::Respond(Err(error)) ==> {
            &&& replies.len() > 0
            &&& answer_has_a_reason(flow, replies.last(), error)
        },
{
    lemma_start_on_course::<E>(flow);
    lemma_bad_answer(flow, first_step(flow), replies);
}

/// What a save stores is what a later request for the settings shows: the settings that the request
/// gave, with logos filled in and, on a demo instance, without secrets.
pub proof fn saved_settings_are_read_back<E>(flow: SaveFlowView, replies: Seq<SaveReply<E>>)
    requires
        is_start(flow),
        run_fits(first_step(flow), replies),
    ensures
        forall|i: int|
            0 <= i < run_actions(first_step(flow), replies).len() ==> match (
            #[trigger] run_actions(first_step(flow), replies)[i]) {
                SaveActionView::Store(settings) => settings.shown(flow.is_demo_mode)
                    == if flow.is_demo_mode {
                    flow.after.without_bind_password().with_logos().redacted()
                } else {
                    flow.after.with_logos()
                },
                _ => true,
            },
{
    save_does_what_was_asked(flow, replies);
    let actions = run_actions(first_step(flow), replies);
    assert forall|i: int| 0 <= i < actions.len() implies belongs_to(#[trigger] actions[i], flow) by {}
}

/// The identity of the instance survives an update, whatever the update says, and every save of
/// which the request does not give another.
pub proof fn identity_survives<E>(flow: SaveFlowView, replies: Seq<SaveReply<E>>)
    requires
        run_fits(first_step(flow), replies),
        ({
            ||| exists|data: SettingsView, before: SettingsView, is_demo_mode: bool|
                flow == #[trigger] update_flow(data, before, is_demo_mode)
            ||| exists|current: SettingsView, patch: SettingsPatchView, is_demo_mode: bool|
                flow == #[trigger] patch_flow(current, patch, is_demo_mode) && patch.uuid is None
            ||| exists|stored: SettingsView| flow == #[trigger] branding_flow(stored)
        }),
    ensures
        forall|i: int|
            0 <= i < run_actions(first_step(flow), replies).len() ==> match (
            #[trigger] run_actions(first_step(flow), replies)[i]) {
                SaveActionView::Store(settings) => settings.uuid == flow.before.uuid,
                _ => true,
            },
{
    assert(is_start(flow));
    save_does_what_was_asked(flow, replies);
    let actions = run_actions(first_step(flow), replies);
    assert forall|i: int| 0 <= i < actions.len() implies belongs_to(#[trigger] actions[i], flow) by {}
}

/// No save on a demo instance changes the license, whatever comes of it.
pub proof fn demo_license_never_changes<E>(flow: SaveFlowView, replies: Seq<SaveReply<E>>)
    requires
        is_start(flow),
        flow.is_demo_mode || flow.kind is DefaultBranding,
        run_fits(first_step(flow), replies),
    ensures
        forall|i: int|
            0 <= i < run_actions(first_step(flow), replies).len() ==> match (
            #[trigger] run_actions(first_step(flow), replies)[i]) {
                SaveActionView::Store(settings) => settings.license == flow.before.license,
                _ => true,
            },
{
    save_does_what_was_asked(flow, replies);
    let actions = run_actions(first_step(flow), replies);
    assert forall|i: int| 0 <= i < actions.len() implies belongs_to(#[trigger] actions[i], flow) by {}
    if !(flow.kind is DefaultBranding) && flow.before.license != flow.after.license {
        demo_refuses_locked_changes(flow, replies);
        assert forall|i: int| 0 <= i < actions.len() implies !((#[trigger] actions[i]) is Store) by {
            assert(rank(actions[i]) < 2);
        }
    }
}

/// Whether these settings hold no directory password, but at most the placeholder.
pub open spec fn password_is_hidden(settings: SettingsView) -> bool {
    settings.ldap_bind_password is None || settings.ldap_bind_password == Some(PASSWORD_PLACEHOLDER@)
}

/// A demo instance that holds no directory password never comes to hold one: every kind of save
/// keeps it so.
pub proof fn demo_stays_without_password<E>(flow: SaveFlowView, replies: Seq<SaveReply<E>>)
    requires
        is_start(flow),
        flow.is_demo_mode || flow.kind is DefaultBranding,
        password_is_hidden(flow.before),
        run_fits(first_step(flow), replies),
    ensures
        forall|i: int|
            0 <= i < run_actions(first_step(flow), replies).len() ==> match (
            #[trigger] run_actions(first_step(flow), replies)[i]) {
                SaveActionView::Store(settings) => password_is_hidden(settings),
                _ => true,
            },
{
    save_does_what_was_asked(flow, replies);
    let actions = run_actions(first_step(flow), replies);
    assert forall|i: int| 0 <= i < actions.len() implies belongs_to(#[trigger] actions[i], flow) by {}
}

} // verus!
