//! The course of a delivery: what is sent, in what order, and how it ends,
//! for every way in which the transport may answer.
//!
//! The laws of this module are stated of the transition function of the
//! delivery, which is what the engine computes step by step.

use vstd::prelude::*;
use crate::delivery::{
    advance, begin, bundle_message, link_message, prompt_message, text_message, variant_message,
    DeliveryView, MessageView, Outcome, StageView, StepView,
};
use crate::plan::{ContinuationControlView, DeliveryPlanView};
use crate::response::ResponseView;

verus! {

/// How a delivery ended.
pub enum Ending {
    /// With this outcome.
    Finished(Outcome),
    /// With the failure of its last send.
    Failed,
}

/// The course of a delivery.
pub struct Course {
    /// The messages that were handed to the transport, in order.
    pub sent: Seq<MessageView>,
    /// How the delivery ended, where it has.
    pub ending: Option<Ending>,
}

/// The course that a delivery takes from `state`, where `step` is to be done
/// next and the transport answers the sends, in order, with `answers`: true
/// for a send that went through. The delivery has not ended where the
/// answers run out first.
pub open spec fn course(state: DeliveryView, step: StepView, answers: Seq<bool>) -> Course
    decreases answers.len(),
{
    match step {
        StepView::Done(outcome) => Course {
            sent: Seq::empty(),
            ending: Some(Ending::Finished(outcome)),
        },
        StepView::Failed => Course { sent: Seq::empty(), ending: Some(Ending::Failed) },
        StepView::Send(message) => if answers.len() == 0 {
            Course { sent: seq![message], ending: None }
        } else {
            let next = advance(state, answers[0]);
            let rest = course(next.0, next.1, answers.drop_first());
            Course { sent: seq![message] + rest.sent, ending: rest.ending }
        },
    }
}

/// The course of the delivery of `response` in answer to `reply_to`.
pub open spec fn course_of(
    response: ResponseView,
    reply_to: Option<i32>,
    answers: Seq<bool>,
) -> Course {
    let first = begin(response, reply_to);
    course(first.0, first.1, answers)
}

/// Whether one of `answers` is true.
pub open spec fn any_sent(answers: Seq<bool>) -> bool {
    exists|i: int| 0 <= i < answers.len() && #[trigger] answers[i]
}

/// The messages of the renditions from `from` on, in the order of the plan.
pub open spec fn variant_messages(state: DeliveryView, from: int) -> Seq<MessageView> {
    Seq::new(
        (state.extra_variants.len() - from) as nat,
        |j: int| variant_message(state.extra_variants[from + j], state.caption, state.reply_to),
    )
}

/// How many sends a delivery at `state` may still make after the one that
/// is on its way.
pub open spec fn sends_left(state: DeliveryView) -> nat {
    match state.stage {
        StageView::Bundle => state.extra_variants.len() + 1,
        StageView::Variant { index, .. } => (state.extra_variants.len() - index) as nat,
        _ => 0,
    }
}

/// No delivery goes on without end: from any state, no more messages are
/// sent than the renditions that are left, and one more.
pub proof fn lemma_sends_bounded(state: DeliveryView, message: MessageView, answers: Seq<bool>)
    requires
        state.well_formed(),
    ensures
        course(state, StepView::Send(message), answers).sent.len() <= 1 + sends_left(state),
    decreases answers.len(),
{
    if answers.len() > 0 {
        let next = advance(state, answers[0]);
        let rest = course(next.0, next.1, answers.drop_first());
        assert(course(state, StepView::Send(message), answers).sent == seq![message] + rest.sent);
        match next.1 {
            StepView::Send(following) => {
                lemma_sends_bounded(next.0, following, answers.drop_first());
                assert(sends_left(next.0) + 1 <= sends_left(state));
            },
            _ => {
                assert(rest.sent.len() == 0);
            },
        }
    }
}

/// A delivery sends at most two messages more than the plan has renditions.
pub proof fn lemma_delivery_bounded(
    response: ResponseView,
    reply_to: Option<i32>,
    answers: Seq<bool>,
)
    ensures
        course_of(response, reply_to, answers).sent.len() <= 2 + (match response {
            ResponseView::Deliver(DeliveryPlanView::MediaBundle { extra_variants, .. }) =>
                extra_variants.len(),
            _ => 0,
        }),
{
    let first = begin(response, reply_to);
    match first.1 {
        StepView::Send(message) => {
            lemma_sends_bounded(first.0, message, answers);
        },
        _ => {},
    }
}

/// Whether `message`, where it holds media, suppresses the notification and
/// answers `reply_to`.
pub open spec fn media_as_asked(message: MessageView, reply_to: Option<i32>) -> bool {
    message matches MessageView::MediaGroup { silent, reply_to: answered, .. } ==> silent
        && answered == reply_to
}

/// From any state, every media message that follows suppresses the
/// notification and answers the message that the delivery was begun for.
pub proof fn lemma_media_sends_from(state: DeliveryView, message: MessageView, answers: Seq<bool>)
    requires
        media_as_asked(message, state.reply_to),
    ensures
        forall|i: int|
            0 <= i < course(state, StepView::Send(message), answers).sent.len()
                ==> media_as_asked(
                #[trigger] course(state, StepView::Send(message), answers).sent[i],
                state.reply_to,
            ),
    decreases answers.len(),
{
    if answers.len() > 0 {
        let next = advance(state, answers[0]);
        let rest = course(next.0, next.1, answers.drop_first());
        let sent = course(state, StepView::Send(message), answers).sent;
        assert(sent == seq![message] + rest.sent);
        match next.1 {
            StepView::Send(following) => {
                lemma_media_sends_from(next.0, following, answers.drop_first());
                assert forall|i: int| 0 <= i < sent.len() implies media_as_asked(
                    #[trigger] sent[i],
                    state.reply_to,
                ) by {
                    if i > 0 {
                        assert(sent[i] == rest.sent[i - 1]);
                    }
                }
            },
            _ => {
                assert(rest.sent.len() == 0);
            },
        }
    }
}

/// Every media message of a delivery, the bundle and each rendition alike,
/// suppresses the notification and answers the message that the delivery
/// was begun for, where there is one.
pub proof fn lemma_media_sends(response: ResponseView, reply_to: Option<i32>, answers: Seq<bool>)
    ensures
        forall|i: int|
            0 <= i < course_of(response, reply_to, answers).sent.len() ==> media_as_asked(
                #[trigger] course_of(response, reply_to, answers).sent[i],
                reply_to,
            ),
{
    let first = begin(response, reply_to);
    match first.1 {
        StepView::Send(message) => {
            lemma_media_sends_from(first.0, message, answers);
        },
        _ => {},
    }
}

/// A text is sent once. Its failure is the result: there is no other tier for
/// text.
pub proof fn lemma_text_once(
    text: Seq<char>,
    control: Option<ContinuationControlView>,
    reply_to: Option<i32>,
    answers: Seq<bool>,
)
    requires
        answers.len() >= 1,
    ensures
        ({
            let plan = DeliveryPlanView::TextOnly { text, continuation_control: control };
            let c = course_of(ResponseView::Deliver(plan), reply_to, answers);
            &&& c.sent == seq![text_message(text, control, reply_to)]
            &&& c.ending == Some(
                if answers[0] {
                    Ending::Finished(Outcome::Delivered)
                } else {
                    Ending::Failed
                },
            )
        }),
{
    let plan = DeliveryPlanView::TextOnly { text, continuation_control: control };
    let first = begin(ResponseView::Deliver(plan), reply_to);
    let next = advance(first.0, answers[0]);
    let rest = course(next.0, next.1, answers.drop_first());
    assert(rest.sent == Seq::<MessageView>::empty());
    assert(seq![text_message(text, control, reply_to)] + rest.sent =~= seq![
        text_message(text, control, reply_to),
    ]);
}

/// After a bundle that went through, the only thing that may follow is the
/// prompt with the continuation control, and whether the prompt goes through
/// decides no more than the name of the outcome.
pub proof fn lemma_bundle_accepted(
    plan: DeliveryPlanView,
    reply_to: Option<i32>,
    answers: Seq<bool>,
)
    requires
        plan is MediaBundle,
        answers.len() >= 2,
        answers[0],
    ensures
        ({
            let c = course_of(ResponseView::Deliver(plan), reply_to, answers);
            let bundle = bundle_message(plan->items, reply_to);
            match plan.control() {
                Some(control) => {
                    &&& c.sent == seq![bundle, prompt_message(control)]
                    &&& c.ending == Some(
                        Ending::Finished(
                            if answers[1] {
                                Outcome::DeliveredWithContinuationPrompt
                            } else {
                                Outcome::Delivered
                            },
                        ),
                    )
                },
                None => {
                    &&& c.sent == seq![bundle]
                    &&& c.ending == Some(Ending::Finished(Outcome::Delivered))
                },
            }
        }),
{
    let first = begin(ResponseView::Deliver(plan), reply_to);
    let bundle = bundle_message(plan->items, reply_to);
    let second = advance(first.0, answers[0]);
    let rest = course(second.0, second.1, answers.drop_first());
    match plan.control() {
        Some(control) => {
            let third = advance(second.0, answers[1]);
            let last = course(third.0, third.1, answers.drop_first().drop_first());
            assert(answers.drop_first()[0] == answers[1]);
            assert(last.sent == Seq::<MessageView>::empty());
            assert(rest.sent =~= seq![prompt_message(control)]);
            assert(seq![bundle] + rest.sent =~= seq![bundle, prompt_message(control)]);
        },
        None => {
            assert(rest.sent == Seq::<MessageView>::empty());
            assert(seq![bundle] + rest.sent =~= seq![bundle]);
        },
    }
}

/// A refused bundle that allows no retry is the end: nothing else is sent,
/// and the failure is the result.
pub proof fn lemma_refused_without_retry(
    plan: DeliveryPlanView,
    reply_to: Option<i32>,
    answers: Seq<bool>,
)
    requires
        plan is MediaBundle,
        !plan->retry_allowed,
        answers.len() >= 1,
        !answers[0],
    ensures
        ({
            let c = course_of(ResponseView::Deliver(plan), reply_to, answers);
            &&& c.sent == seq![bundle_message(plan->items, reply_to)]
            &&& c.ending == Some(Ending::Failed)
        }),
{
    let first = begin(ResponseView::Deliver(plan), reply_to);
    let bundle = bundle_message(plan->items, reply_to);
    let second = advance(first.0, answers[0]);
    let rest = course(second.0, second.1, answers.drop_first());
    assert(rest.sent == Seq::<MessageView>::empty());
    assert(seq![bundle] + rest.sent =~= seq![bundle]);
}

/// The degraded tiers, from the rendition at `index` on: every rendition
/// that is left is sent, in the order of the plan; the last-resort text
/// follows exactly where none went through; and the delivery has failed
/// exactly where that text was refused too.
pub proof fn lemma_variants_course(
    state: DeliveryView,
    index: nat,
    delivered: bool,
    answers: Seq<bool>,
)
    requires
        state.stage == (StageView::Variant { index, delivered }),
        index < state.extra_variants.len(),
        answers.len() >= state.extra_variants.len() - index + 1,
    ensures
        ({
            let left = state.extra_variants.len() - index;
            let through = delivered || any_sent(answers.take(left));
            let message = variant_message(
                state.extra_variants[index as int],
                state.caption,
                state.reply_to,
            );
            let c = course(state, StepView::Send(message), answers);
            &&& c.sent == variant_messages(state, index as int) + (if through {
                Seq::empty()
            } else {
                seq![link_message(state.extra_variants[0], state.caption, state.reply_to)]
            })
            &&& c.ending == Some(
                Ending::Finished(
                    if through || answers[left] {
                        Outcome::DegradedDelivered
                    } else {
                        Outcome::DegradedFailed
                    },
                ),
            )
        }),
    decreases state.extra_variants.len() - index,
{
    let n = state.extra_variants.len();
    let left = n - index;
    let through = delivered || any_sent(answers.take(left));
    let message = variant_message(state.extra_variants[index as int], state.caption, state.reply_to);
    let link = link_message(state.extra_variants[0], state.caption, state.reply_to);
    let c = course(state, StepView::Send(message), answers);
    let next = advance(state, answers[0]);
    let rest = course(next.0, next.1, answers.drop_first());
    let tail = answers.drop_first();
    assert(c.sent == seq![message] + rest.sent);
    if index + 1 < n {
        lemma_variants_course(next.0, index + 1, delivered || answers[0], tail);
        let through_rest = delivered || answers[0] || any_sent(tail.take(left - 1));
        assert(through == through_rest) by {
            if any_sent(answers.take(left)) {
                let i = choose|i: int| 0 <= i < left && #[trigger] answers.take(left)[i];
                if i > 0 {
                    assert(tail.take(left - 1)[i - 1]);
                }
            }
            if answers[0] {
                assert(answers.take(left)[0]);
            }
            if any_sent(tail.take(left - 1)) {
                let i = choose|i: int| 0 <= i < left - 1 && #[trigger] tail.take(left - 1)[i];
                assert(answers.take(left)[i + 1]);
            }
        }
        assert(tail[left - 1] == answers[left]);
        assert(seq![message] + variant_messages(next.0, index as int + 1) =~= variant_messages(
            state,
            index as int,
        ));
        assert(c.sent =~= variant_messages(state, index as int) + (if through {
            Seq::empty()
        } else {
            seq![link]
        }));
    } else {
        assert(variant_messages(state, index as int) =~= seq![message]);
        assert(through == (delivered || answers[0])) by {
            if any_sent(answers.take(left)) {
                let i = choose|i: int| 0 <= i < left && #[trigger] answers.take(left)[i];
                assert(i == 0);
            }
            if answers[0] {
                assert(answers.take(left)[0]);
            }
        }
        if delivered || answers[0] {
            assert(rest.sent == Seq::<MessageView>::empty());
            assert(c.sent =~= seq![message]);
        } else {
            let last = advance(next.0, tail[0]);
            let end = course(last.0, last.1, tail.drop_first());
            assert(end.sent == Seq::<MessageView>::empty());
            assert(rest.sent =~= seq![link]);
            assert(tail[0] == answers[1]);
            assert(c.sent =~= seq![message] + seq![link]);
        }
    }
}

/// The ladder of a refused bundle that allows a retry.
///
/// With `n` renditions in the plan, the answers to the `n` sends that follow
/// the bundle decide: every rendition is sent as a video of its own, in the
/// order of the plan; where one of them went through, nothing else is sent
/// and the delivery is degraded but done; where none did, the text with the
/// link to the first rendition follows, and the delivery has failed exactly
/// where that text is refused. Without any rendition there is nothing to
/// fall back on, and the delivery has failed.
pub proof fn lemma_degraded_ladder(
    plan: DeliveryPlanView,
    reply_to: Option<i32>,
    answers: Seq<bool>,
)
    requires
        plan is MediaBundle,
        plan->retry_allowed,
        answers.len() >= plan->extra_variants.len() + 2,
        !answers[0],
    ensures
        ({
            let c = course_of(ResponseView::Deliver(plan), reply_to, answers);
            let n = plan->extra_variants.len() as int;
            let through = any_sent(answers.subrange(1, n + 1));
            let bundle = bundle_message(plan->items, reply_to);
            let renditions = Seq::new(
                n as nat,
                |k: int| variant_message(plan->extra_variants[k], plan->caption, reply_to),
            );
            let link = link_message(plan->extra_variants[0], plan->caption, reply_to);
            &&& c.sent == seq![bundle] + renditions + (if through || n == 0 {
                Seq::empty()
            } else {
                seq![link]
            })
            &&& c.ending == Some(
                Ending::Finished(
                    if through || (n > 0 && answers[n + 1]) {
                        Outcome::DegradedDelivered
                    } else {
                        Outcome::DegradedFailed
                    },
                ),
            )
        }),
{
    let first = begin(ResponseView::Deliver(plan), reply_to);
    let n = plan->extra_variants.len() as int;
    let bundle = bundle_message(plan->items, reply_to);
    let c = course(first.0, first.1, answers);
    let second = advance(first.0, answers[0]);
    let tail = answers.drop_first();
    let rest = course(second.0, second.1, tail);
    let renditions = Seq::new(
        n as nat,
        |k: int| variant_message(plan->extra_variants[k], plan->caption, reply_to),
    );
    assert(c.sent == seq![bundle] + rest.sent);
    if n == 0 {
        assert(rest.sent == Seq::<MessageView>::empty());
        assert(answers.subrange(1, 1).len() == 0);
        assert(c.sent =~= seq![bundle] + renditions + Seq::empty());
    } else {
        lemma_variants_course(second.0, 0, false, tail);
        assert(tail.take(n) =~= answers.subrange(1, n + 1));
        assert(tail[n] == answers[n + 1]);
        assert(variant_messages(second.0, 0) =~= renditions);
        assert(c.sent =~= seq![bundle] + renditions + (if any_sent(answers.subrange(1, n + 1)) {
            Seq::empty()
        } else {
            seq![link_message(plan->extra_variants[0], plan->caption, reply_to)]
        }));
    }
}

} // verus!
