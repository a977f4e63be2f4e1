//! What saves do from the request to the answer.

use vstd::prelude::*;

use crate::response::{ApiResponseView, StatusCode, WebError, WebErrorView};
use crate::save::{
    advance, branding_flow, patch_flow, patch_settings, reply_fits, set_default_branding,
    update_flow, update_settings, ApiEventType, ApiEventTypeView, Phase, PublicSettings, SaveAction,
    SaveActionView, SaveFlow, SaveFlowView, SaveKind, SaveReply, SaveStep, SaveStepView,
};
use crate::save_laws::{
    belongs_to, first_step, is_start, run_actions, run_fits, save_does_what_was_asked,
};
use crate::settings::{LdapSyncStatus, Settings, SettingsPatch, SettingsPatchView, SettingsView};
use crate::settings_laws::{branding_is_name_and_logos, lands, patched_settings_hold_the_patch};

verus! {

/// What an action asks for is what its contents say.
pub proof fn contents_of_actions(action: SaveAction)
    ensures
        match action {
            SaveAction::Validate(settings) => action@ == SaveActionView::Validate(settings@),
            SaveAction::CompareLockedFields { before, after } => action@
                == SaveActionView::CompareLockedFields { before: before@, after: after@ },
            SaveAction::Store(settings) => action@ == SaveActionView::Store(settings@),
            SaveAction::UpdateCachedLicense(license) => action@
                == SaveActionView::UpdateCachedLicense(license.deep_view()),
            SaveAction::CheckSmtp { before, after } => action@ == SaveActionView::CheckSmtp {
                before: before@,
                after: after@,
            },
            SaveAction::LoadEnterpriseSettings => action@ is LoadEnterpriseSettings,
            SaveAction::BroadcastPublicSettings(shown) => action@
                == SaveActionView::BroadcastPublicSettings(shown),
            SaveAction::EmitEvent(ApiEventType::SettingsUpdated { before, after }) => action@
                == SaveActionView::EmitEvent(
                ApiEventTypeView::SettingsUpdated { before: before@, after: after@ },
            ),
            SaveAction::EmitEvent(ApiEventType::SettingsUpdatedPartial { before, after }) => action@
                == SaveActionView::EmitEvent(
                ApiEventTypeView::SettingsUpdatedPartial { before: before@, after: after@ },
            ),
            SaveAction::EmitEvent(ApiEventType::SettingsDefaultBrandingRestored) => action@
                == SaveActionView::EmitEvent(ApiEventTypeView::SettingsDefaultBrandingRestored),
        },
{
}

/// Whether each of `steps` is what comes of the one before with the reply to it.
pub open spec fn leads_on<E>(steps: Seq<SaveStep<E>>, replies: Seq<SaveReply<E>>) -> bool {
    &&& steps.len() == replies.len() + 1
    &&& forall|i: int|
        0 <= i < replies.len() ==> match steps[i] {
            SaveStep::Perform(flow, _) => call_ensures(
                advance::<E>,
                (flow, #[trigger] replies[i]),
                steps[i + 1],
            ),
            SaveStep::Respond(_) => true,
        }
}

/// Whether `step` asks for `action` and can go on with `reply`.
pub open spec fn asks_for<E>(
    step: SaveStep<E>,
    action: SaveActionView,
    reply: SaveReply<E>,
) -> bool {
    &&& step is Perform
    &&& step->Perform_1@ == action
    &&& call_requires(advance::<E>, (step->Perform_0, reply))
}

/// Whether `step` answers well with `document`.
pub open spec fn answers_with<E>(step: SaveStep<E>, document: Option<SettingsView>) -> bool {
    step matches SaveStep::Respond(Ok(response)) && {
        &&& response.status is Success
        &&& response.json is Some <==> document is Some
        &&& response.json is Some ==> response.json->0@ == document->0
    }
}

/// Whether these are the steps of a save that does `actions`, one after the other, takes the reply
/// to each of them, and then answers well with `document`.
pub open spec fn does_and_answers<E>(
    steps: Seq<SaveStep<E>>,
    replies: Seq<SaveReply<E>>,
    actions: Seq<SaveActionView>,
    document: Option<SettingsView>,
) -> bool {
    &&& steps.len() == actions.len() + 1
    &&& forall|i: int|
        0 <= i < actions.len() ==> asks_for(steps[i], #[trigger] actions[i], replies[i])
    &&& answers_with(steps.last(), document)
}

/// The settings with the directory password, where there is one, replaced by the placeholder.
pub open spec fn with_password_hidden(settings: SettingsView) -> SettingsView {
    if settings.ldap_bind_password is Some {
        SettingsView { ldap_bind_password: Some("SECRET"@), ..settings }
    } else {
        settings
    }
}

/// The replies that concern the proxies, when mail could be sent before and can be sent after.
pub open spec fn replies_on_proxies<E>(
    mail_before: bool,
    mail_after: bool,
    shown: Option<PublicSettings>,
    delivered: bool,
) -> Seq<SaveReply<E>> {
    let asked = SaveReply::SmtpConfigured { before: mail_before, after: mail_after };
    if mail_before == mail_after {
        seq![asked]
    } else if shown is None {
        seq![asked, SaveReply::EnterpriseSettings(None)]
    } else {
        seq![asked, SaveReply::EnterpriseSettings(shown), SaveReply::Broadcast { delivered }]
    }
}

/// What is done about the proxies: they are told only where mail was toggled and what to show could
/// be read.
pub open spec fn actions_on_proxies(
    before: SettingsView,
    saved: SettingsView,
    mail_before: bool,
    mail_after: bool,
    shown: Option<PublicSettings>,
) -> Seq<SaveActionView> {
    let ask = SaveActionView::CheckSmtp { before, after: saved };
    if mail_before == mail_after {
        seq![ask]
    } else if shown is None {
        seq![ask, SaveActionView::LoadEnterpriseSettings]
    } else {
        seq![
            ask,
            SaveActionView::LoadEnterpriseSettings,
            SaveActionView::BroadcastPublicSettings(shown->0),
        ]
    }
}

/// Whether `step` comes to `end` by doing `actions` and getting `replies` to them.
#[verifier::opaque]
spec fn plays<E>(
    step: SaveStepView<E>,
    replies: Seq<SaveReply<E>>,
    actions: Seq<SaveActionView>,
    end: SaveStepView<E>,
) -> bool
    decreases replies.len(),
{
    if replies.len() == 0 {
        actions.len() == 0 && step == end
    } else {
        &&& step is Perform
        &&& actions.len() > 0
        &&& step->Perform_1 == actions[0]
        &&& reply_fits(step->Perform_0.phase, replies[0])
        &&& plays(
            step->Perform_0.next(replies[0]),
            replies.drop_first(),
            actions.drop_first(),
            end,
        )
    }
}

proof fn lemma_play_one<E>(flow: SaveFlowView, action: SaveActionView, reply: SaveReply<E>)
    requires
        reply_fits(flow.phase, reply),
    ensures
        plays(
            SaveStepView::<E>::Perform(flow, action),
            seq![reply],
            seq![action],
            flow.next(reply),
        ),
{
    reveal_with_fuel(plays, 2);
    assert(seq![reply].drop_first().len() == 0);
    assert(seq![action].drop_first().len() == 0);
}

proof fn lemma_play_on<E>(
    step: SaveStepView<E>,
    replies: Seq<SaveReply<E>>,
    actions: Seq<SaveActionView>,
    then: SaveStepView<E>,
    more_replies: Seq<SaveReply<E>>,
    more_actions: Seq<SaveActionView>,
    end: SaveStepView<E>,
)
    requires
        plays(step, replies, actions, then),
        plays(then, more_replies, more_actions, end),
    ensures
        plays(step, replies + more_replies, actions + more_actions, end),
    decreases replies.len(),
{
    reveal_with_fuel(plays, 2);
    if replies.len() == 0 {
        assert(replies + more_replies =~= more_replies);
        assert(actions + more_actions =~= more_actions);
    } else {
        let next = step->Perform_0.next(replies[0]);
        lemma_play_on(
            next,
            replies.drop_first(),
            actions.drop_first(),
            then,
            more_replies,
            more_actions,
            end,
        );
        assert((replies + more_replies).drop_first() =~= replies.drop_first() + more_replies);
        assert((actions + more_actions).drop_first() =~= actions.drop_first() + more_actions);
    }
}

proof fn lemma_one_step<E>(
    step: SaveStep<E>,
    action: SaveActionView,
    reply: SaveReply<E>,
    next: SaveStep<E>,
)
    requires
        step@ is Perform,
        step@->Perform_1 == action,
        reply_fits(step@->Perform_0.phase, reply),
        step matches SaveStep::Perform(flow, _) ==> call_ensures(
            advance::<E>,
            (flow, reply),
            next,
        ),
    ensures
        asks_for(step, action, reply),
        next@ == step@->Perform_0.next(reply),
{
}

proof fn lemma_played<E>(
    steps: Seq<SaveStep<E>>,
    replies: Seq<SaveReply<E>>,
    actions: Seq<SaveActionView>,
    end: SaveStepView<E>,
)
    requires
        leads_on(steps, replies),
        plays(steps[0]@, replies, actions, end),
    ensures
        actions.len() == replies.len(),
        forall|i: int|
            0 <= i < actions.len() ==> asks_for(steps[i], #[trigger] actions[i], replies[i]),
        steps.last()@ == end,
    decreases replies.len(),
{
    reveal_with_fuel(plays, 2);
    if replies.len() > 0 {
        let later_steps = steps.drop_first();
        let later_replies = replies.drop_first();
        let later_actions = actions.drop_first();
        let reply = replies[0];
        lemma_one_step(steps[0], actions[0], reply, steps[1]);
        assert(later_steps[0] == steps[1]);
        assert forall|i: int| 0 <= i < later_replies.len() implies match later_steps[i] {
            SaveStep::Perform(flow, _) => call_ensures(
                advance::<E>,
                (flow, #[trigger] later_replies[i]),
                later_steps[i + 1],
            ),
            SaveStep::Respond(_) => true,
        } by {
            assert(later_replies[i] == replies[i + 1]);
            assert(later_steps[i] == steps[i + 1]);
            assert(later_steps[i + 1] == steps[i + 2]);
        }
        lemma_played(later_steps, later_replies, later_actions, end);
        assert forall|i: int| 0 <= i < actions.len() implies asks_for(
            steps[i],
            #[trigger] actions[i],
            replies[i],
        ) by {
            if i > 0 {
                assert(later_actions[i - 1] == actions[i]);
                assert(later_replies[i - 1] == replies[i]);
                assert(later_steps[i - 1] == steps[i]);
            }
        }
        assert(later_steps.last() == steps.last());
    }
}

/// The way from the question about mail to the event, which is the same for updates and patches.
proof fn lemma_play_proxies<E>(
    flow: SaveFlowView,
    mail_before: bool,
    mail_after: bool,
    shown: Option<PublicSettings>,
    delivered: bool,
)
    requires
        flow.phase is CheckingSmtp,
    ensures
        plays(
            SaveStepView::<E>::Perform(
                flow,
                SaveActionView::CheckSmtp { before: flow.before, after: flow.after },
            ),
            replies_on_proxies::<E>(mail_before, mail_after, shown, delivered),
            actions_on_proxies(flow.before, flow.after, mail_before, mail_after, shown),
            SaveStepView::<E>::Perform(
                flow.in_phase(Phase::Emitting),
                SaveActionView::EmitEvent(flow.event()),
            ),
        ),
{
    let ask = SaveActionView::CheckSmtp { before: flow.before, after: flow.after };
    let asked = SaveReply::<E>::SmtpConfigured { before: mail_before, after: mail_after };
    let start = SaveStepView::<E>::Perform(flow, ask);
    lemma_play_one(flow, ask, asked);
    if mail_before != mail_after {
        let load = SaveActionView::LoadEnterpriseSettings;
        let loading = flow.in_phase(Phase::LoadingEnterpriseSettings);
        let loaded = SaveReply::<E>::EnterpriseSettings(shown);
        lemma_play_one(loading, load, loaded);
        lemma_play_on(
            start,
            seq![asked],
            seq![ask],
            flow.next(asked),
            seq![loaded],
            seq![load],
            loading.next(loaded),
        );
        if shown is None {
            assert(seq![asked] + seq![loaded] =~= replies_on_proxies::<E>(
                mail_before,
                mail_after,
                shown,
                delivered,
            ));
            assert(seq![ask] + seq![load] =~= actions_on_proxies(
                flow.before,
                flow.after,
                mail_before,
                mail_after,
                shown,
            ));
        } else {
            let tell = SaveActionView::BroadcastPublicSettings(shown->0);
            let telling = flow.in_phase(Phase::Broadcasting);
            let told = SaveReply::<E>::Broadcast { delivered };
            lemma_play_one(telling, tell, told);
            lemma_play_on(
                start,
                seq![asked] + seq![loaded],
                seq![ask] + seq![load],
                loading.next(loaded),
                seq![told],
                seq![tell],
                telling.next(told),
            );
            assert(seq![asked] + seq![loaded] + seq![told] =~= replies_on_proxies::<E>(
                mail_before,
                mail_after,
                shown,
                delivered,
            ));
            assert(seq![ask] + seq![load] + seq![tell] =~= actions_on_proxies(
                flow.before,
                flow.after,
                mail_before,
                mail_after,
                shown,
            ));
        }
    }
}

/// The replies to a save, other than a restored branding, that nothing stands against.
#[verifier::opaque]
pub open spec fn good_replies<E>(
    is_demo_mode: bool,
    caches_license: bool,
    mail_before: bool,
    mail_after: bool,
    shown: Option<PublicSettings>,
    delivered: bool,
) -> Seq<SaveReply<E>> {
    seq![SaveReply::<E>::Validated(Ok(()))] + (if is_demo_mode {
        seq![SaveReply::<E>::LockedFieldsDiffer(false)]
    } else {
        seq![]
    }) + seq![SaveReply::<E>::Stored(Ok(()))] + (if caches_license {
        seq![SaveReply::<E>::LicenseUpdated(Ok(()))]
    } else {
        seq![]
    }) + replies_on_proxies::<E>(mail_before, mail_after, shown, delivered) + seq![
        SaveReply::<E>::EventEmitted(Ok(())),
    ]
}

/// What such a save does when it turns `before` into `given`, of which `saved` is stored.
#[verifier::opaque]
pub open spec fn good_actions(
    before: SettingsView,
    given: SettingsView,
    saved: SettingsView,
    is_demo_mode: bool,
    license: Option<Option<Seq<char>>>,
    mail_before: bool,
    mail_after: bool,
    shown: Option<PublicSettings>,
    event: ApiEventTypeView,
) -> Seq<SaveActionView> {
    seq![SaveActionView::Validate(given)] + (if is_demo_mode {
        seq![SaveActionView::CompareLockedFields { before, after: given }]
    } else {
        seq![]
    }) + seq![SaveActionView::Store(saved)] + (if license is Some {
        seq![SaveActionView::UpdateCachedLicense(license->0)]
    } else {
        seq![]
    }) + actions_on_proxies(before, saved, mail_before, mail_after, shown) + seq![
        SaveActionView::EmitEvent(event),
    ]
}

/// The way from the request to the store.
proof fn lemma_play_to_store<E>(start: SaveFlowView, saved: SettingsView)
    requires
        start.phase is Validating,
        start.is_demo_mode ==> start.after.license == start.before.license,
        saved == if start.is_demo_mode {
            with_password_hidden(start.after)
        } else {
            start.after
        },
    ensures
        plays(
            SaveStepView::<E>::Perform(start, SaveActionView::Validate(start.after)),
            seq![SaveReply::<E>::Validated(Ok(()))] + (if start.is_demo_mode {
                seq![SaveReply::<E>::LockedFieldsDiffer(false)]
            } else {
                seq![]
            }),
            seq![SaveActionView::Validate(start.after)] + (if start.is_demo_mode {
                seq![
                    SaveActionView::CompareLockedFields {
                        before: start.before,
                        after: start.after,
                    },
                ]
            } else {
                seq![]
            }),
            SaveStepView::<E>::Perform(
                SaveFlowView { after: saved, phase: Phase::Storing, ..start },
                SaveActionView::Store(saved),
            ),
        ),
{
    let validate = SaveActionView::Validate(start.after);
    let valid = SaveReply::<E>::Validated(Ok(()));
    lemma_play_one(start, validate, valid);
    if start.is_demo_mode {
        let compare = SaveActionView::CompareLockedFields {
            before: start.before,
            after: start.after,
        };
        let same = SaveReply::<E>::LockedFieldsDiffer(false);
        let checking = start.in_phase(Phase::CheckingLocks);
        lemma_play_one(checking, compare, same);
        assert(start.after.without_bind_password() == saved);
        lemma_play_on(
            SaveStepView::<E>::Perform(start, validate),
            seq![valid],
            seq![validate],
            start.next(valid),
            seq![same],
            seq![compare],
            checking.next(same),
        );
    } else {
        assert(seq![valid] + Seq::<SaveReply<E>>::empty() =~= seq![valid]);
        assert(seq![validate] + Seq::<SaveActionView>::empty() =~= seq![validate]);
    }
}

/// The way from the store to the question about mail.
proof fn lemma_play_to_mail<E>(flow: SaveFlowView)
    requires
        flow.phase is Storing,
        !(flow.kind is DefaultBranding),
    ensures
        plays(
            SaveStepView::<E>::Perform(flow, SaveActionView::Store(flow.after)),
            seq![SaveReply::<E>::Stored(Ok(()))] + (if flow.license is Some {
                seq![SaveReply::<E>::LicenseUpdated(Ok(()))]
            } else {
                seq![]
            }),
            seq![SaveActionView::Store(flow.after)] + (if flow.license is Some {
                seq![SaveActionView::UpdateCachedLicense(flow.license->0)]
            } else {
                seq![]
            }),
            SaveStepView::<E>::Perform(
                flow.in_phase(Phase::CheckingSmtp),
                SaveActionView::CheckSmtp { before: flow.before, after: flow.after },
            ),
        ),
{
    let store = SaveActionView::Store(flow.after);
    let done = SaveReply::<E>::Stored(Ok(()));
    lemma_play_one(flow, store, done);
    if flow.license is Some {
        let cache = SaveActionView::UpdateCachedLicense(flow.license->0);
        let cached = SaveReply::<E>::LicenseUpdated(Ok(()));
        let caching = flow.in_phase(Phase::UpdatingLicense);
        lemma_play_one(caching, cache, cached);
        lemma_play_on(
            SaveStepView::<E>::Perform(flow, store),
            seq![done],
            seq![store],
            flow.next(done),
            seq![cached],
            seq![cache],
            caching.next(cached),
        );
    } else {
        assert(seq![done] + Seq::<SaveReply<E>>::empty() =~= seq![done]);
        assert(seq![store] + Seq::<SaveActionView>::empty() =~= seq![store]);
    }
}

/// The way of an update or a patch from the request to the answer.
proof fn lemma_play_all<E>(
    start: SaveFlowView,
    saved: SettingsView,
    mail_before: bool,
    mail_after: bool,
    shown: Option<PublicSettings>,
    delivered: bool,
)
    requires
        start.phase is Validating,
        !(start.kind is DefaultBranding),
        start.is_demo_mode ==> start.after.license == start.before.license,
        saved == if start.is_demo_mode {
            with_password_hidden(start.after)
        } else {
            start.after
        },
    ensures
        plays(
            SaveStepView::<E>::Perform(start, SaveActionView::Validate(start.after)),
            good_replies::<E>(
                start.is_demo_mode,
                start.license is Some,
                mail_before,
                mail_after,
                shown,
                delivered,
            ),
            good_actions(
                start.before,
                start.after,
                saved,
                start.is_demo_mode,
                start.license,
                mail_before,
                mail_after,
                shown,
                (SaveFlowView { after: saved, ..start }).event(),
            ),
            SaveStepView::<E>::Respond(
                Ok(ApiResponseView { json: None, status: StatusCode::Success }),
            ),
        ),
{
    reveal(good_replies);
    reveal(good_actions);
    let first = SaveStepView::<E>::Perform(start, SaveActionView::Validate(start.after));
    let storing = SaveFlowView { after: saved, phase: Phase::Storing, ..start };
    let asking = storing.in_phase(Phase::CheckingSmtp);
    let emitting = storing.in_phase(Phase::Emitting);
    let event = (SaveFlowView { after: saved, ..start }).event();
    let r1 = seq![SaveReply::<E>::Validated(Ok(()))] + (if start.is_demo_mode {
        seq![SaveReply::<E>::LockedFieldsDiffer(false)]
    } else {
        seq![]
    });
    let a1 = seq![SaveActionView::Validate(start.after)] + (if start.is_demo_mode {
        seq![SaveActionView::CompareLockedFields { before: start.before, after: start.after }]
    } else {
        seq![]
    });
    let r2 = seq![SaveReply::<E>::Stored(Ok(()))];
    let a2 = seq![SaveActionView::Store(saved)];
    let r3 = if start.license is Some {
        seq![SaveReply::<E>::LicenseUpdated(Ok(()))]
    } else {
        seq![]
    };
    let a3 = if start.license is Some {
        seq![SaveActionView::UpdateCachedLicense(start.license->0)]
    } else {
        seq![]
    };
    let r4 = replies_on_proxies::<E>(mail_before, mail_after, shown, delivered);
    let a4 = actions_on_proxies(start.before, saved, mail_before, mail_after, shown);
    let r5 = seq![SaveReply::<E>::EventEmitted(Ok(()))];
    let a5 = seq![SaveActionView::EmitEvent(event)];
    let s2 = SaveStepView::<E>::Perform(storing, SaveActionView::Store(saved));
    let s4 = SaveStepView::<E>::Perform(
        asking,
        SaveActionView::CheckSmtp { before: start.before, after: saved },
    );
    let s5 = SaveStepView::<E>::Perform(emitting, SaveActionView::EmitEvent(event));
    let end = SaveStepView::<E>::Respond(
        Ok(ApiResponseView { json: None, status: StatusCode::Success }),
    );
    lemma_play_to_store::<E>(start, saved);
    lemma_play_to_mail::<E>(storing);
    lemma_play_proxies::<E>(asking, mail_before, mail_after, shown, delivered);
    lemma_play_one(emitting, SaveActionView::EmitEvent(event), r5[0]);
    lemma_play_on(first, r1, a1, s2, r2 + r3, a2 + a3, s4);
    assert(r1 + (r2 + r3) =~= r1 + r2 + r3);
    assert(a1 + (a2 + a3) =~= a1 + a2 + a3);
    lemma_play_on(first, r1 + r2 + r3, a1 + a2 + a3, s4, r4, a4, s5);
    lemma_play_on(first, r1 + r2 + r3 + r4, a1 + a2 + a3 + a4, s5, r5, a5, end);
}

proof fn lemma_update_starts<E>(
    data: Settings,
    before: Settings,
    is_demo_mode: bool,
    step: SaveStep<E>,
)
    requires
        call_ensures(update_settings::<E>, (data, before, is_demo_mode), step),
    ensures
        ({
            let given = SettingsView { uuid: before@.uuid, ..data@ };
            step@ == SaveStepView::<E>::Perform(
                SaveFlowView {
                    kind: SaveKind::Update,
                    is_demo_mode,
                    before: before@,
                    after: given,
                    license: Some(data@.license),
                    phase: Phase::Validating,
                },
                SaveActionView::Validate(given),
            )
        }),
{
}

proof fn lemma_patch_starts<E>(
    current: Settings,
    patch: SettingsPatch,
    is_demo_mode: bool,
    step: SaveStep<E>,
)
    requires
        call_ensures(patch_settings::<E>, (current, patch, is_demo_mode), step),
    ensures
        ({
            let given = current@.after_patch(patch@);
            step@ == SaveStepView::<E>::Perform(
                SaveFlowView {
                    kind: SaveKind::Patch,
                    is_demo_mode,
                    before: current@,
                    after: given,
                    license: patch@.license,
                    phase: Phase::Validating,
                },
                SaveActionView::Validate(given),
            )
        }),
{
}

/// An update that nothing stands against validates what was submitted, with the identity of the
/// instance kept; on a demo instance has the locked fields compared; stores the same settings, on a
/// demo instance with the directory password hidden; caches the submitted license; tells the
/// proxies where mail was toggled; logs the settings before and those stored; and answers well
/// without a document.
pub proof fn update_from_request_to_answer<E>(
    data: Settings,
    before: Settings,
    is_demo_mode: bool,
    mail_before: bool,
    mail_after: bool,
    shown: Option<PublicSettings>,
    delivered: bool,
    steps: Seq<SaveStep<E>>,
)
    requires
        is_demo_mode ==> data@.license == before@.license,
        leads_on(
            steps,
            good_replies::<E>(is_demo_mode, true, mail_before, mail_after, shown, delivered),
        ),
        call_ensures(update_settings::<E>, (data, before, is_demo_mode), steps[0]),
    ensures
        ({
            let given = SettingsView { uuid: before@.uuid, ..data@ };
            let saved = if is_demo_mode {
                with_password_hidden(given)
            } else {
                given
            };
            does_and_answers(
                steps,
                good_replies::<E>(is_demo_mode, true, mail_before, mail_after, shown, delivered),
                good_actions(
                    before@,
                    given,
                    saved,
                    is_demo_mode,
                    Some(data@.license),
                    mail_before,
                    mail_after,
                    shown,
                    ApiEventTypeView::SettingsUpdated { before: before@, after: saved },
                ),
                None,
            )
        }),
{
    let given = SettingsView { uuid: before@.uuid, ..data@ };
    let saved = if is_demo_mode {
        with_password_hidden(given)
    } else {
        given
    };
    let start = SaveFlowView {
        kind: SaveKind::Update,
        is_demo_mode,
        before: before@,
        after: given,
        license: Some(data@.license),
        phase: Phase::Validating,
    };
    lemma_update_starts(data, before, is_demo_mode, steps[0]);
    lemma_play_all::<E>(start, saved, mail_before, mail_after, shown, delivered);
    let event = ApiEventTypeView::SettingsUpdated { before: before@, after: saved };
    assert((SaveFlowView { after: saved, ..start }).event() == event);
    lemma_played(
        steps,
        good_replies::<E>(is_demo_mode, true, mail_before, mail_after, shown, delivered),
        good_actions(
            before@,
            given,
            saved,
            is_demo_mode,
            Some(data@.license),
            mail_before,
            mail_after,
            shown,
            event,
        ),
        SaveStepView::<E>::Respond(
            Ok(ApiResponseView { json: None, status: StatusCode::Success }),
        ),
    );
    lemma_good_end(steps.last(), None);
}

/// A patch that nothing stands against does the same with the settings that it leads to, except
/// that a license is cached only where the patch holds one, and that the log is told of a partial
/// change. What the patch leads to is validated before anything else.
pub proof fn patch_from_request_to_answer<E>(
    current: Settings,
    patch: SettingsPatch,
    is_demo_mode: bool,
    mail_before: bool,
    mail_after: bool,
    shown: Option<PublicSettings>,
    delivered: bool,
    steps: Seq<SaveStep<E>>,
)
    requires
        is_demo_mode ==> patch@.license is None || patch@.license->0 == current@.license,
        leads_on(
            steps,
            good_replies::<E>(
                is_demo_mode,
                patch@.license is Some,
                mail_before,
                mail_after,
                shown,
                delivered,
            ),
        ),
        call_ensures(patch_settings::<E>, (current, patch, is_demo_mode), steps[0]),
    ensures
        ({
            let given = current@.after_patch(patch@);
            let saved = if is_demo_mode {
                with_password_hidden(given)
            } else {
                given
            };
            does_and_answers(
                steps,
                good_replies::<E>(
                    is_demo_mode,
                    patch@.license is Some,
                    mail_before,
                    mail_after,
                    shown,
                    delivered,
                ),
                good_actions(
                    current@,
                    given,
                    saved,
                    is_demo_mode,
                    patch@.license,
                    mail_before,
                    mail_after,
                    shown,
                    ApiEventTypeView::SettingsUpdatedPartial { before: current@, after: saved },
                ),
                None,
            )
        }),
{
    let given = current@.after_patch(patch@);
    let saved = if is_demo_mode {
        with_password_hidden(given)
    } else {
        given
    };
    let start = SaveFlowView {
        kind: SaveKind::Patch,
        is_demo_mode,
        before: current@,
        after: given,
        license: patch@.license,
        phase: Phase::Validating,
    };
    lemma_patch_starts(current, patch, is_demo_mode, steps[0]);
    patched_settings_hold_the_patch(current@, patch@);
    lemma_play_all::<E>(start, saved, mail_before, mail_after, shown, delivered);
    let event = ApiEventTypeView::SettingsUpdatedPartial { before: current@, after: saved };
    assert((SaveFlowView { after: saved, ..start }).event() == event);
    lemma_played(
        steps,
        good_replies::<E>(
            is_demo_mode,
            patch@.license is Some,
            mail_before,
            mail_after,
            shown,
            delivered,
        ),
        good_actions(
            current@,
            given,
            saved,
            is_demo_mode,
            patch@.license,
            mail_before,
            mail_after,
            shown,
            event,
        ),
        SaveStepView::<E>::Respond(
            Ok(ApiResponseView { json: None, status: StatusCode::Success }),
        ),
    );
    lemma_good_end(steps.last(), None);
}

proof fn lemma_play_branding<E>(flow: SaveFlowView)
    requires
        flow.kind is DefaultBranding,
        flow.license is None,
        flow.phase is Storing,
    ensures
        plays(
            SaveStepView::<E>::Perform(flow, SaveActionView::Store(flow.after)),
            seq![SaveReply::<E>::Stored(Ok(()))] + seq![SaveReply::<E>::EventEmitted(Ok(()))],
            seq![SaveActionView::Store(flow.after)] + seq![
                SaveActionView::EmitEvent(ApiEventTypeView::SettingsDefaultBrandingRestored),
            ],
            SaveStepView::<E>::Respond(
                Ok(ApiResponseView { json: Some(flow.after), status: StatusCode::Success }),
            ),
        ),
{
    let emitting = flow.in_phase(Phase::Emitting);
    let store = SaveActionView::Store(flow.after);
    let emit = SaveActionView::EmitEvent(ApiEventTypeView::SettingsDefaultBrandingRestored);
    let done = SaveReply::<E>::Stored(Ok(()));
    let emitted = SaveReply::<E>::EventEmitted(Ok(()));
    lemma_play_one(flow, store, done);
    lemma_play_one(emitting, emit, emitted);
    lemma_play_on(
        SaveStepView::<E>::Perform(flow, store),
        seq![done],
        seq![store],
        flow.next(done),
        seq![emitted],
        seq![emit],
        emitting.next(emitted),
    );
}

proof fn lemma_branding_starts<E>(stored: Settings, step: SaveStep<E>)
    requires
        call_ensures(set_default_branding::<E>, (Some(stored),), step),
    ensures
        step@ == SaveStepView::<E>::Perform(
            branding_flow(stored@),
            SaveActionView::Store(branding_flow(stored@).after),
        ),
{
}

proof fn lemma_good_end<E>(step: SaveStep<E>, document: Option<SettingsView>)
    requires
        step@ == SaveStepView::<E>::Respond(
            Ok(ApiResponseView { json: document, status: StatusCode::Success }),
        ),
    ensures
        answers_with(step, document),
{
}

/// Restoring the branding stores the settings with the default name and logos and everything else
/// as it was, logs that it was done, and answers well with what was stored. It validates nothing,
/// caches nothing and tells no proxy.
pub proof fn branding_from_request_to_answer<E>(stored: Settings, steps: Seq<SaveStep<E>>)
    requires
        leads_on(
            steps,
            seq![SaveReply::<E>::Stored(Ok(()))] + seq![SaveReply::<E>::EventEmitted(Ok(()))],
        ),
        call_ensures(set_default_branding::<E>, (Some(stored),), steps[0]),
    ensures
        ({
            let branded = SettingsView {
                instance_name: "Defguard"@,
                nav_logo_url: "/svg/defguard-nav-logo.svg"@,
                main_logo_url: "/svg/logo-defguard-white.svg"@,
                ..stored@
            };
            does_and_answers(
                steps,
                seq![SaveReply::<E>::Stored(Ok(()))] + seq![SaveReply::<E>::EventEmitted(Ok(()))],
                seq![SaveActionView::Store(branded)] + seq![
                    SaveActionView::EmitEvent(ApiEventTypeView::SettingsDefaultBrandingRestored),
                ],
                Some(branded),
            )
        }),
{
    let flow = branding_flow(stored@);
    branding_is_name_and_logos(stored@);
    lemma_branding_starts(stored, steps[0]);
    lemma_play_branding::<E>(flow);
    lemma_played(
        steps,
        seq![SaveReply::<E>::Stored(Ok(()))] + seq![SaveReply::<E>::EventEmitted(Ok(()))],
        seq![SaveActionView::Store(flow.after)] + seq![
            SaveActionView::EmitEvent(ApiEventTypeView::SettingsDefaultBrandingRestored),
        ],
        SaveStepView::<E>::Respond(
            Ok(ApiResponseView { json: Some(flow.after), status: StatusCode::Success }),
        ),
    );
    lemma_good_end(steps.last(), Some(flow.after));
}

/// Where no settings are stored, restoring the branding fails at once.
pub proof fn branding_needs_settings<E>(step: SaveStep<E>)
    requires
        call_ensures(set_default_branding::<E>, (None::<Settings>,), step),
    ensures
        step matches SaveStep::Respond(Err(WebError::DbError(message))) && message@
            == "Cannot restore settings"@,
{
}

/// Whatever a save has come to, a failure reported from outside is what it is answered with, and
/// nothing else is done.
pub proof fn failure_is_the_answer<E>(
    flow: SaveFlow,
    reply: SaveReply<E>,
    error: E,
    step: SaveStep<E>,
)
    requires
        call_ensures(advance::<E>, (flow, reply), step),
        reply == SaveReply::<E>::Validated(Err(error)) || reply == SaveReply::<E>::Stored(
            Err(error),
        ) || reply == SaveReply::<E>::LicenseUpdated(Err(error)) || reply == SaveReply::<
            E,
        >::EventEmitted(Err(error)),
    ensures
        step matches SaveStep::Respond(Err(WebError::Outside(answered))) && answered == error,
{
}

proof fn lemma_play_to_refusal<E>(
    start: SaveFlowView,
    others_differ: bool,
    steps: Seq<SaveStep<E>>,
)
    requires
        start.phase is Validating,
        start.is_demo_mode,
        others_differ || start.after.license != start.before.license,
        steps[0]@ == SaveStepView::<E>::Perform(start, SaveActionView::Validate(start.after)),
        leads_on(
            steps,
            seq![
                SaveReply::<E>::Validated(Ok(())),
                SaveReply::<E>::LockedFieldsDiffer(others_differ),
            ],
        ),
    ensures
        steps[0] is Perform && steps[0]->Perform_1@ is Validate,
        steps[1] is Perform && steps[1]->Perform_1@ is CompareLockedFields,
        steps[2]@ == SaveStepView::<E>::Respond(
            Err(WebErrorView::Forbidden("This setting is read-only in demo mode"@)),
        ),
{
    let valid = SaveReply::<E>::Validated(Ok(()));
    let compared = SaveReply::<E>::LockedFieldsDiffer(others_differ);
    let validate = SaveActionView::Validate(start.after);
    let compare = SaveActionView::CompareLockedFields { before: start.before, after: start.after };
    let checking = start.in_phase(Phase::CheckingLocks);
    lemma_play_one(start, validate, valid);
    lemma_play_one(checking, compare, compared);
    lemma_play_on(
        steps[0]@,
        seq![valid],
        seq![validate],
        start.next(valid),
        seq![compared],
        seq![compare],
        checking.next(compared),
    );
    assert(seq![valid] + seq![compared] =~= seq![valid, compared]);
    let actions = seq![validate] + seq![compare];
    lemma_played(steps, seq![valid, compared], actions, checking.next(compared));
    assert(actions[0] == validate && actions[1] == compare);
}

/// A valid update on a demo instance that gives another license, or changes another locked field,
/// is answered as forbidden once the locked fields were compared.
pub proof fn locked_update_is_forbidden<E>(
    data: Settings,
    before: Settings,
    others_differ: bool,
    steps: Seq<SaveStep<E>>,
)
    requires
        others_differ || data.license.deep_view() != before.license.deep_view(),
        leads_on(
            steps,
            seq![
                SaveReply::<E>::Validated(Ok(())),
                SaveReply::<E>::LockedFieldsDiffer(others_differ),
            ],
        ),
        call_ensures(update_settings::<E>, (data, before, true), steps[0]),
    ensures
        steps[0] is Perform && steps[0]->Perform_1@ is Validate,
        steps[1] is Perform && steps[1]->Perform_1@ is CompareLockedFields,
        steps[2] matches SaveStep::Respond(Err(WebError::Forbidden(message))) && message@
            == "This setting is read-only in demo mode"@,
{
    let start = update_flow(data@, before@, true);
    lemma_update_starts(data, before, true, steps[0]);
    lemma_play_to_refusal(start, others_differ, steps);
}

/// A valid patch on a demo instance that holds another license, or changes another locked field, is
/// answered as forbidden once the locked fields were compared.
pub proof fn locked_patch_is_forbidden<E>(
    current: Settings,
    patch: SettingsPatch,
    others_differ: bool,
    steps: Seq<SaveStep<E>>,
)
    requires
        others_differ || (patch.license is Some && patch.license->0.deep_view()
            != current.license.deep_view()),
        leads_on(
            steps,
            seq![
                SaveReply::<E>::Validated(Ok(())),
                SaveReply::<E>::LockedFieldsDiffer(others_differ),
            ],
        ),
        call_ensures(patch_settings::<E>, (current, patch, true), steps[0]),
    ensures
        steps[0] is Perform && steps[0]->Perform_1@ is Validate,
        steps[1] is Perform && steps[1]->Perform_1@ is CompareLockedFields,
        steps[2] matches SaveStep::Respond(Err(WebError::Forbidden(message))) && message@
            == "This setting is read-only in demo mode"@,
{
    patched_settings_hold_the_patch(current@, patch@);
    let start = patch_flow(current@, patch@, true);
    lemma_patch_starts(current, patch, true, steps[0]);
    lemma_play_to_refusal(start, others_differ, steps);
}

/// Whatever comes of an update, what it validates is what was submitted in every field but the
/// identity, which is the one before, and what it stores is the same but for a directory password
/// on a demo instance.
pub proof fn update_stores_what_was_submitted<E>(
    data: SettingsView,
    before: SettingsView,
    is_demo_mode: bool,
    replies: Seq<SaveReply<E>>,
)
    requires
        run_fits(first_step(update_flow(data, before, is_demo_mode)), replies),
    ensures
        update_flow(data, before, is_demo_mode).after == (SettingsView {
            uuid: before.uuid,
            ..data
        }),
        forall|i: int|
            0 <= i < run_actions(
                first_step(update_flow(data, before, is_demo_mode)),
                replies,
            ).len() ==> match (#[trigger] run_actions(
                first_step(update_flow(data, before, is_demo_mode)),
                replies,
            )[i]) {
                SaveActionView::Validate(settings) => settings == (SettingsView {
                    uuid: before.uuid,
                    ..data
                }),
                SaveActionView::Store(settings) => {
                    &&& settings == (SettingsView {
                        uuid: before.uuid,
                        ldap_bind_password: settings.ldap_bind_password,
                        ..data
                    })
                    &&& !is_demo_mode || data.ldap_bind_password is None
                        ==> settings.ldap_bind_password == data.ldap_bind_password
                    &&& is_demo_mode && data.ldap_bind_password is Some
                        ==> settings.ldap_bind_password == Some("SECRET"@)
                },
                SaveActionView::UpdateCachedLicense(license) => license == data.license,
                _ => true,
            },
{
    let flow = update_flow(data, before, is_demo_mode);
    assert(is_start(flow));
    save_does_what_was_asked(flow, replies);
    let actions = run_actions(first_step(flow), replies);
    assert forall|i: int| 0 <= i < actions.len() implies belongs_to(#[trigger] actions[i], flow) by {}
}

/// Whatever comes of a patch, every setting in what it validates and in what it stores is what the
/// patch says of it. The synchronisation status aside, which the patch may set back; and the
/// directory password, which a demo instance hides in what it stores.
pub proof fn patch_stores_what_it_holds<E>(
    current: SettingsView,
    patch: SettingsPatchView,
    is_demo_mode: bool,
    replies: Seq<SaveReply<E>>,
)
    requires
        run_fits(first_step(patch_flow(current, patch, is_demo_mode)), replies),
    ensures
        forall|i: int|
            0 <= i < run_actions(
                first_step(patch_flow(current, patch, is_demo_mode)),
                replies,
            ).len() ==> match (#[trigger] run_actions(
                first_step(patch_flow(current, patch, is_demo_mode)),
                replies,
            )[i]) {
                SaveActionView::Validate(settings) => {
                    &&& lands(patch.instance_name, current.instance_name, settings.instance_name)
                    &&& lands(patch.main_logo_url, current.main_logo_url, settings.main_logo_url)
                    &&& lands(patch.nav_logo_url, current.nav_logo_url, settings.nav_logo_url)
                    &&& lands(patch.uuid, current.uuid, settings.uuid)
                    &&& lands(patch.secret_key, current.secret_key, settings.secret_key)
                    &&& lands(patch.license, current.license, settings.license)
                    &&& lands(patch.smtp, current.smtp, settings.smtp)
                    &&& lands(patch.ldap_enabled, current.ldap_enabled, settings.ldap_enabled)
                    &&& lands(
                        patch.ldap_sync_enabled,
                        current.ldap_sync_enabled,
                        settings.ldap_sync_enabled,
                    )
                    &&& lands(
                        patch.ldap_is_authoritative,
                        current.ldap_is_authoritative,
                        settings.ldap_is_authoritative,
                    )
                    &&& lands(
                        patch.ldap_sync_groups,
                        current.ldap_sync_groups,
                        settings.ldap_sync_groups,
                    )
                    &&& lands(patch.ldap_url, current.ldap_url, settings.ldap_url)
                    &&& lands(
                        patch.ldap_bind_username,
                        current.ldap_bind_username,
                        settings.ldap_bind_username,
                    )
                    &&& lands(
                        patch.ldap_bind_password,
                        current.ldap_bind_password,
                        settings.ldap_bind_password,
                    )
                    &&& lands(
                        patch.ldap_username_attr,
                        current.ldap_username_attr,
                        settings.ldap_username_attr,
                    )
                    &&& lands(
                        patch.ldap_user_search_base,
                        current.ldap_user_search_base,
                        settings.ldap_user_search_base,
                    )
                    &&& lands(
                        patch.ldap_user_obj_class,
                        current.ldap_user_obj_class,
                        settings.ldap_user_obj_class,
                    )
                    &&& lands(
                        patch.ldap_member_attr,
                        current.ldap_member_attr,
                        settings.ldap_member_attr,
                    )
                    &&& lands(
                        patch.ldap_groupname_attr,
                        current.ldap_groupname_attr,
                        settings.ldap_groupname_attr,
                    )
                    &&& lands(
                        patch.ldap_group_obj_class,
                        current.ldap_group_obj_class,
                        settings.ldap_group_obj_class,
                    )
                    &&& lands(
                        patch.ldap_group_member_attr,
                        current.ldap_group_member_attr,
                        settings.ldap_group_member_attr,
                    )
                    &&& lands(
                        patch.ldap_group_search_base,
                        current.ldap_group_search_base,
                        settings.ldap_group_search_base,
                    )
                },
                SaveActionView::Store(settings) => {
                    &&& lands(patch.instance_name, current.instance_name, settings.instance_name)
                    &&& lands(patch.main_logo_url, current.main_logo_url, settings.main_logo_url)
                    &&& lands(patch.nav_logo_url, current.nav_logo_url, settings.nav_logo_url)
                    &&& lands(patch.uuid, current.uuid, settings.uuid)
                    &&& lands(patch.secret_key, current.secret_key, settings.secret_key)
                    &&& lands(patch.license, current.license, settings.license)
                    &&& lands(patch.smtp, current.smtp, settings.smtp)
                    &&& lands(patch.ldap_enabled, current.ldap_enabled, settings.ldap_enabled)
                    &&& lands(
                        patch.ldap_sync_enabled,
                        current.ldap_sync_enabled,
                        settings.ldap_sync_enabled,
                    )
                    &&& lands(
                        patch.ldap_is_authoritative,
                        current.ldap_is_authoritative,
                        settings.ldap_is_authoritative,
                    )
                    &&& lands(
                        patch.ldap_sync_groups,
                        current.ldap_sync_groups,
                        settings.ldap_sync_groups,
                    )
                    &&& lands(patch.ldap_url, current.ldap_url, settings.ldap_url)
                    &&& lands(
                        patch.ldap_bind_username,
                        current.ldap_bind_username,
                        settings.ldap_bind_username,
                    )
                    &&& lands(
                        patch.ldap_username_attr,
                        current.ldap_username_attr,
                        settings.ldap_username_attr,
                    )
                    &&& lands(
                        patch.ldap_user_search_base,
                        current.ldap_user_search_base,
                        settings.ldap_user_search_base,
                    )
                    &&& lands(
                        patch.ldap_user_obj_class,
                        current.ldap_user_obj_class,
                        settings.ldap_user_obj_class,
                    )
                    &&& lands(
                        patch.ldap_member_attr,
                        current.ldap_member_attr,
                        settings.ldap_member_attr,
                    )
                    &&& lands(
                        patch.ldap_groupname_attr,
                        current.ldap_groupname_attr,
                        settings.ldap_groupname_attr,
                    )
                    &&& lands(
                        patch.ldap_group_obj_class,
                        current.ldap_group_obj_class,
                        settings.ldap_group_obj_class,
                    )
                    &&& lands(
                        patch.ldap_group_member_attr,
                        current.ldap_group_member_attr,
                        settings.ldap_group_member_attr,
                    )
                    &&& lands(
                        patch.ldap_group_search_base,
                        current.ldap_group_search_base,
                        settings.ldap_group_search_base,
                    )
                    &&& !is_demo_mode ==> lands(
                        patch.ldap_bind_password,
                        current.ldap_bind_password,
                        settings.ldap_bind_password,
                    )
                    &&& is_demo_mode && settings.ldap_bind_password is Some
                        ==> settings.ldap_bind_password == Some("SECRET"@)
                    &&& patch.ldap_sync_status is Some ==> settings.ldap_sync_status
                        == patch.ldap_sync_status->0
                    &&& patch.ldap_sync_status is None ==> settings.ldap_sync_status
                        == current.ldap_sync_status || settings.ldap_sync_status
                        == LdapSyncStatus::OutOfSync
                },
                SaveActionView::UpdateCachedLicense(license) => patch.license == Some(license),
                _ => true,
            },
{
    let flow = patch_flow(current, patch, is_demo_mode);
    assert(is_start(flow));
    save_does_what_was_asked(flow, replies);
    patched_settings_hold_the_patch(current, patch);
    let actions = run_actions(first_step(flow), replies);
    assert forall|i: int| 0 <= i < actions.len() implies belongs_to(#[trigger] actions[i], flow) by {}
}

} // verus!
