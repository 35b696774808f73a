//! The delivery engine.
//!
//! A delivery decides what is sent and in what order; it never sends. It is
//! a state machine: it names the next message, the caller hands the message
//! to the transport and reports whether the send went through, and the
//! delivery names the next step from that. A refused bundle is followed, where
//! the plan allows it, by the degraded tiers: each rendition as a video of
//! its own, in the order of the plan, and at last a text with a link.

use vstd::prelude::*;
use vstd::string::StringExecFns;
use crate::plan::{
    ContinuationControl, ContinuationControlView, DeliveryPlan, DeliveryPlanView, DescriptorKind,
    MediaDescriptor, MediaDescriptorView,
};
use crate::post::{Variant, VariantView};
use crate::response::{Response, ResponseView};

verus! {

/// The text that goes with the continuation control after a bundle.
pub const CONTINUE_PROMPT: &'static str = "tap button to see next thread";

/// What the last-resort text begins with, before the link.
pub const LINK_PREFIX: &'static str = "🤖 failed to embed media so use link this time: ";

/// What stands between the link and the caption in the last-resort text.
pub const LINK_BREAK: &'static str = "\n\n";

/// The notice that the content service is throttled.
pub const BUSY_NOTICE: &'static str = "🧑‍💻👨‍💻⚠️ Server is busy! Please try a little later.";

/// The notice that there is no such post.
pub const NOT_FOUND_NOTICE: &'static str = "Tweet not found 🤷‍♂️";

/// How a delivery ended.
#[derive(Clone, Copy, Debug, PartialEq, Eq, Structural)]
pub enum Outcome {
    /// The content reached the user in its preferred form.
    Delivered,
    /// The bundle reached the user, and after it the prompt with the
    /// continuation control.
    DeliveredWithContinuationPrompt,
    /// The content reached the user only in a degraded form: as a single
    /// rendition, or as a link.
    DegradedDelivered,
    /// The bundle was refused, and so was every degraded form.
    DegradedFailed,
    /// Nothing of a post was to be sent: there was no post to deliver, and
    /// at most a notice went out in its place.
    Skipped,
}

/// A message for the transport.
#[derive(Clone, Debug, PartialEq, Eq)]
pub enum Message {
    Text {
        text: String,
        /// The interactive control to attach.
        control: Option<ContinuationControl>,
        /// Whether the text holds rich formatting.
        rich: bool,
        /// Whether the notification is suppressed.
        silent: bool,
        /// Whether the platform may show a preview of a link in the text.
        link_preview: bool,
        /// The message that this one answers.
        reply_to: Option<i32>,
    },
    MediaGroup {
        items: Vec<MediaDescriptor>,
        /// Whether the notification is suppressed.
        silent: bool,
        /// The message that this one answers.
        reply_to: Option<i32>,
    },
}

/// The view of a [`Message`].
pub enum MessageView {
    Text {
        text: Seq<char>,
        control: Option<ContinuationControlView>,
        rich: bool,
        silent: bool,
        link_preview: bool,
        reply_to: Option<i32>,
    },
    MediaGroup { items: Seq<MediaDescriptorView>, silent: bool, reply_to: Option<i32> },
}

impl View for Message {
    type V = MessageView;

    open spec fn view(&self) -> MessageView {
        match self {
            Message::Text { text, control, rich, silent, link_preview, reply_to } => MessageView::Text {
                text: text@,
                control: control.deep_view(),
                rich: *rich,
                silent: *silent,
                link_preview: *link_preview,
                reply_to: *reply_to,
            },
            Message::MediaGroup { items, silent, reply_to } => MessageView::MediaGroup {
                items: items.deep_view(),
                silent: *silent,
                reply_to: *reply_to,
            },
        }
    }
}

/// What the caller of a delivery does next.
#[derive(Clone, Debug, PartialEq, Eq)]
pub enum Step {
    /// Hand the message to the transport, then report how the send went.
    Send(Message),
    /// The delivery is over, with this outcome.
    Done(Outcome),
    /// The delivery is over: the failure of the last send is its result.
    Failed,
}

/// The view of a [`Step`].
pub enum StepView {
    Send(MessageView),
    Done(Outcome),
    Failed,
}

impl View for Step {
    type V = StepView;

    open spec fn view(&self) -> StepView {
        match self {
            Step::Send(message) => StepView::Send(message@),
            Step::Done(outcome) => StepView::Done(*outcome),
            Step::Failed => StepView::Failed,
        }
    }
}

/// Where a delivery stands: which send it waits to hear of, or how it ended.
#[derive(Clone, Copy, Debug, PartialEq, Eq, Structural)]
pub enum Stage {
    /// The text of a text-only plan is on its way.
    Text,
    /// A notice in place of the post is on its way.
    Notice,
    /// The bundle is on its way.
    Bundle,
    /// The prompt with the continuation control is on its way.
    Prompt,
    /// The rendition at `index` is on its way; `delivered` tells whether an
    /// earlier one went through.
    Variant { index: usize, delivered: bool },
    /// The last-resort text is on its way.
    Link,
    /// The delivery is over, with this outcome.
    Finished(Outcome),
    /// The delivery is over, with the failure of its last send.
    Failed,
}

/// The view of a [`Stage`]: the same, with the position as a number.
pub enum StageView {
    Text,
    Notice,
    Bundle,
    Prompt,
    Variant { index: nat, delivered: bool },
    Link,
    Finished(Outcome),
    Failed,
}

impl View for Stage {
    type V = StageView;

    open spec fn view(&self) -> StageView {
        match self {
            Stage::Text => StageView::Text,
            Stage::Notice => StageView::Notice,
            Stage::Bundle => StageView::Bundle,
            Stage::Prompt => StageView::Prompt,
            Stage::Variant { index, delivered } => StageView::Variant {
                index: *index as nat,
                delivered: *delivered,
            },
            Stage::Link => StageView::Link,
            Stage::Finished(outcome) => StageView::Finished(*outcome),
            Stage::Failed => StageView::Failed,
        }
    }
}

/// A delivery under way.
pub struct Delivery {
    stage: Stage,
    reply_to: Option<i32>,
    caption: String,
    extra_variants: Vec<Variant>,
    retry_allowed: bool,
    continuation_control: Option<ContinuationControl>,
}

/// The view of a [`Delivery`]: its stage, and what it keeps of the plan.
pub struct DeliveryView {
    pub stage: StageView,
    pub reply_to: Option<i32>,
    pub caption: Seq<char>,
    pub extra_variants: Seq<VariantView>,
    pub retry_allowed: bool,
    pub continuation_control: Option<ContinuationControlView>,
}

impl View for Delivery {
    type V = DeliveryView;

    closed spec fn view(&self) -> DeliveryView {
        DeliveryView {
            stage: self.stage@,
            reply_to: self.reply_to,
            caption: self.caption@,
            extra_variants: self.extra_variants.deep_view(),
            retry_allowed: self.retry_allowed,
            continuation_control: self.continuation_control.deep_view(),
        }
    }
}

impl DeliveryView {
    /// Whether the stage fits what is kept of the plan: a rendition that is
    /// on its way is one of the plan, and so is the one that the last-resort
    /// text links to.
    pub open spec fn well_formed(self) -> bool {
        match self.stage {
            StageView::Variant { index, .. } => index < self.extra_variants.len(),
            StageView::Link => self.extra_variants.len() > 0,
            _ => true,
        }
    }

    /// This delivery at another stage.
    pub open spec fn at(self, stage: StageView) -> DeliveryView {
        DeliveryView { stage, ..self }
    }
}

/// A delivery that keeps nothing of a plan.
pub open spec fn bare(stage: StageView, reply_to: Option<i32>) -> DeliveryView {
    DeliveryView {
        stage,
        reply_to,
        caption: Seq::empty(),
        extra_variants: Seq::empty(),
        retry_allowed: false,
        continuation_control: None,
    }
}

/// The message of a text-only plan: rich text without notification and
/// without a link preview, with the continuation control where there is one.
pub open spec fn text_message(
    text: Seq<char>,
    control: Option<ContinuationControlView>,
    reply_to: Option<i32>,
) -> MessageView {
    MessageView::Text { text, control, rich: true, silent: true, link_preview: false, reply_to }
}

/// The message of a bundle: all items as one group, without notification.
pub open spec fn bundle_message(
    items: Seq<MediaDescriptorView>,
    reply_to: Option<i32>,
) -> MessageView {
    MessageView::MediaGroup { items, silent: true, reply_to }
}

/// The prompt that carries the continuation control after a bundle. It
/// answers no message.
pub open spec fn prompt_message(control: ContinuationControlView) -> MessageView {
    MessageView::Text {
        text: CONTINUE_PROMPT@,
        control: Some(control),
        rich: true,
        silent: true,
        link_preview: false,
        reply_to: None,
    }
}

/// The message of one rendition: a single video with the caption, without
/// notification.
pub open spec fn variant_message(
    variant: VariantView,
    caption: Seq<char>,
    reply_to: Option<i32>,
) -> MessageView {
    MessageView::MediaGroup {
        items: seq![
            MediaDescriptorView {
                kind: DescriptorKind::Video,
                url: variant.url,
                caption: Some(caption),
            },
        ],
        silent: true,
        reply_to,
    }
}

/// The text of the last resort: the fixed prefix, the link, a blank line,
/// the caption.
pub open spec fn link_text(url: Seq<char>, caption: Seq<char>) -> Seq<char> {
    LINK_PREFIX@ + url + LINK_BREAK@ + caption
}

/// The last-resort message: the link to the first rendition and the caption,
/// as rich text that the platform may preview.
pub open spec fn link_message(
    first: VariantView,
    caption: Seq<char>,
    reply_to: Option<i32>,
) -> MessageView {
    MessageView::Text {
        text: link_text(first.url, caption),
        control: None,
        rich: true,
        silent: true,
        link_preview: true,
        reply_to,
    }
}

/// The notice that the content service is throttled. It answers no message.
pub open spec fn busy_message() -> MessageView {
    MessageView::Text {
        text: BUSY_NOTICE@,
        control: None,
        rich: false,
        silent: false,
        link_preview: false,
        reply_to: None,
    }
}

/// The notice that there is no such post.
pub open spec fn not_found_message(reply_to: Option<i32>) -> MessageView {
    MessageView::Text {
        text: NOT_FOUND_NOTICE@,
        control: None,
        rich: false,
        silent: true,
        link_preview: true,
        reply_to,
    }
}

/// How a delivery begins: its first state and its first step.
pub open spec fn begin(response: ResponseView, reply_to: Option<i32>) -> (DeliveryView, StepView) {
    match response {
        ResponseView::Deliver(DeliveryPlanView::TextOnly { text, continuation_control }) => (
            bare(StageView::Text, reply_to),
            StepView::Send(text_message(text, continuation_control, reply_to)),
        ),
        ResponseView::Deliver(
            DeliveryPlanView::MediaBundle {
                items,
                caption,
                extra_variants,
                retry_allowed,
                continuation_control,
            },
        ) => (
            DeliveryView {
                stage: StageView::Bundle,
                reply_to,
                caption,
                extra_variants,
                retry_allowed,
                continuation_control,
            },
            StepView::Send(bundle_message(items, reply_to)),
        ),
        ResponseView::NotFound => (
            bare(StageView::Notice, reply_to),
            StepView::Send(not_found_message(reply_to)),
        ),
        ResponseView::RateLimited => (
            bare(StageView::Notice, reply_to),
            StepView::Send(busy_message()),
        ),
        ResponseView::Unauthorized => (
            bare(StageView::Finished(Outcome::Skipped), reply_to),
            StepView::Done(Outcome::Skipped),
        ),
        ResponseView::Nothing => (
            bare(StageView::Finished(Outcome::Skipped), reply_to),
            StepView::Done(Outcome::Skipped),
        ),
    }
}

/// A delivery that ends with `outcome`.
pub open spec fn finish(state: DeliveryView, outcome: Outcome) -> (DeliveryView, StepView) {
    (state.at(StageView::Finished(outcome)), StepView::Done(outcome))
}

/// A delivery that ends with the failure of its last send.
pub open spec fn fail(state: DeliveryView) -> (DeliveryView, StepView) {
    (state.at(StageView::Failed), StepView::Failed)
}

/// A delivery that sends the rendition at `index` next.
pub open spec fn try_variant(state: DeliveryView, index: nat, delivered: bool) -> (
    DeliveryView,
    StepView,
) {
    (
        state.at(StageView::Variant { index, delivered }),
        StepView::Send(
            variant_message(state.extra_variants[index as int], state.caption, state.reply_to),
        ),
    )
}

/// How a delivery goes on when it hears that its last send went through
/// (`sent`) or was refused.
///
/// - A text or a notice ends the delivery either way; its failure is the
///   result.
/// - After the bundle went through, the prompt follows where there is a
///   continuation control. The prompt may fail: the content has arrived.
/// - A refused bundle ends the delivery with its failure unless a retry is
///   allowed. Then each rendition is sent, in the order of the plan,
///   whether or not an earlier one went through.
/// - Where no rendition went through, the last-resort text follows; where
///   there is no rendition at all, there is nothing to link to, and the
///   delivery has failed.
/// - A delivery that is over stays as it is.
pub open spec fn advance(state: DeliveryView, sent: bool) -> (DeliveryView, StepView) {
    match state.stage {
        StageView::Text => if sent {
            finish(state, Outcome::Delivered)
        } else {
            fail(state)
        },
        StageView::Notice => if sent {
            finish(state, Outcome::Skipped)
        } else {
            fail(state)
        },
        StageView::Bundle => if sent {
            match state.continuation_control {
                Some(control) => (state.at(StageView::Prompt), StepView::Send(prompt_message(control))),
                None => finish(state, Outcome::Delivered),
            }
        } else if !state.retry_allowed {
            fail(state)
        } else if state.extra_variants.len() == 0 {
            finish(state, Outcome::DegradedFailed)
        } else {
            try_variant(state, 0, false)
        },
        StageView::Prompt => if sent {
            finish(state, Outcome::DeliveredWithContinuationPrompt)
        } else {
            finish(state, Outcome::Delivered)
        },
        StageView::Variant { index, delivered } => if index + 1 < state.extra_variants.len() {
            try_variant(state, index + 1, delivered || sent)
        } else if delivered || sent {
            finish(state, Outcome::DegradedDelivered)
        } else {
            (
                state.at(StageView::Link),
                StepView::Send(
                    link_message(state.extra_variants[0], state.caption, state.reply_to),
                ),
            )
        },
        StageView::Link => if sent {
            finish(state, Outcome::DegradedDelivered)
        } else {
            finish(state, Outcome::DegradedFailed)
        },
        StageView::Finished(outcome) => (state, StepView::Done(outcome)),
        StageView::Failed => (state, StepView::Failed),
    }
}

impl Delivery {
    /// Every delivery is well formed: it is begun so, and each step keeps it
    /// so.
    #[verifier::type_invariant]
    spec fn fits(self) -> bool {
        self@.well_formed()
    }

    /// Begins the delivery of `response`, in answer to the message
    /// `reply_to` where there is one.
    pub fn start(response: Response, reply_to: Option<i32>) -> (r: (Delivery, Step))
        ensures
            (r.0@, r.1@) == begin(response@, reply_to),
    {
        match response {
            Response::Deliver(DeliveryPlan::TextOnly { text, continuation_control }) => (
                Delivery::bare(Stage::Text, reply_to),
                Step::Send(
                    Message::Text {
                        text,
                        control: continuation_control,
                        rich: true,
                        silent: true,
                        link_preview: false,
                        reply_to,
                    },
                ),
            ),
            Response::Deliver(
                DeliveryPlan::MediaBundle {
                    items,
                    caption,
                    extra_variants,
                    retry_allowed,
                    continuation_control,
                },
            ) => (
                Delivery {
                    stage: Stage::Bundle,
                    reply_to,
                    caption,
                    extra_variants,
                    retry_allowed,
                    continuation_control,
                },
                Step::Send(Message::MediaGroup { items, silent: true, reply_to }),
            ),
            Response::NotFound => (
                Delivery::bare(Stage::Notice, reply_to),
                Step::Send(
                    Message::Text {
                        text: String::from_str(NOT_FOUND_NOTICE),
                        control: None,
                        rich: false,
                        silent: true,
                        link_preview: true,
                        reply_to,
                    },
                ),
            ),
            Response::RateLimited => (
                Delivery::bare(Stage::Notice, reply_to),
                Step::Send(
                    Message::Text {
                        text: String::from_str(BUSY_NOTICE),
                        control: None,
                        rich: false,
                        silent: false,
                        link_preview: false,
                        reply_to: None,
                    },
                ),
            ),
            Response::Unauthorized => (
                Delivery::bare(Stage::Finished(Outcome::Skipped), reply_to),
                Step::Done(Outcome::Skipped),
            ),
            Response::Nothing => (
                Delivery::bare(Stage::Finished(Outcome::Skipped), reply_to),
                Step::Done(Outcome::Skipped),
            ),
        }
    }

    /// A delivery that keeps nothing of a plan.
    fn bare(stage: Stage, reply_to: Option<i32>) -> (delivery: Delivery)
        requires
            !(stage is Variant),
            !(stage is Link),
        ensures
            delivery@ == bare(stage@, reply_to),
    {
        let delivery = Delivery {
            stage,
            reply_to,
            caption: String::new(),
            extra_variants: Vec::new(),
            retry_allowed: false,
            continuation_control: None,
        };
        assert(delivery@.extra_variants =~= Seq::empty());
        delivery
    }

    /// Where the delivery stands.
    pub fn stage(&self) -> (stage: Stage)
        ensures
            stage@ == self@.stage,
    {
        self.stage
    }

    /// Goes on after the transport has answered the last send: `sent` tells
    /// whether it went through.
    pub fn next(self, sent: bool) -> (r: (Delivery, Step))
        ensures
            (r.0@, r.1@) == advance(self@, sent),
    {
        proof {
            use_type_invariant(&self);
            assert(self@.extra_variants.len() == self.extra_variants.len());
        }
        match self.stage {
            Stage::Text => if sent {
                self.finish(Outcome::Delivered)
            } else {
                self.fail()
            },
            Stage::Notice => if sent {
                self.finish(Outcome::Skipped)
            } else {
                self.fail()
            },
            Stage::Bundle => if sent {
                match &self.continuation_control {
                    Some(control) => {
                        let message = Message::Text {
                            text: String::from_str(CONTINUE_PROMPT),
                            control: Some(
                                ContinuationControl {
                                    label: control.label.clone(),
                                    token: control.token.clone(),
                                },
                            ),
                            rich: true,
                            silent: true,
                            link_preview: false,
                            reply_to: None,
                        };
                        (self.at(Stage::Prompt), Step::Send(message))
                    },
                    None => self.finish(Outcome::Delivered),
                }
            } else if !self.retry_allowed {
                self.fail()
            } else if self.extra_variants.len() == 0 {
                self.finish(Outcome::DegradedFailed)
            } else {
                self.try_variant(0, false)
            },
            Stage::Prompt => if sent {
                self.finish(Outcome::DeliveredWithContinuationPrompt)
            } else {
                self.finish(Outcome::Delivered)
            },
            Stage::Variant { index, delivered } => if index + 1 < self.extra_variants.len() {
                self.try_variant(index + 1, delivered || sent)
            } else if delivered || sent {
                self.finish(Outcome::DegradedDelivered)
            } else {
                let mut text = String::from_str(LINK_PREFIX);
                text.append(self.extra_variants[0].url.as_str());
                text.append(LINK_BREAK);
                text.append(self.caption.as_str());
                let message = Message::Text {
                    text,
                    control: None,
                    rich: true,
                    silent: true,
                    link_preview: true,
                    reply_to: self.reply_to,
                };
                (self.at(Stage::Link), Step::Send(message))
            },
            Stage::Link => if sent {
                self.finish(Outcome::DegradedDelivered)
            } else {
                self.finish(Outcome::DegradedFailed)
            },
            Stage::Finished(outcome) => (self, Step::Done(outcome)),
            Stage::Failed => (self, Step::Failed),
        }
    }

    /// This delivery at another stage.
    fn at(self, stage: Stage) -> (delivery: Delivery)
        requires
            self@.at(stage@).well_formed(),
        ensures
            delivery@ == self@.at(stage@),
    {
        Delivery {
            stage,
            reply_to: self.reply_to,
            caption: self.caption,
            extra_variants: self.extra_variants,
            retry_allowed: self.retry_allowed,
            continuation_control: self.continuation_control,
        }
    }

    /// Ends the delivery with `outcome`.
    fn finish(self, outcome: Outcome) -> (r: (Delivery, Step))
        ensures
            (r.0@, r.1@) == finish(self@, outcome),
    {
        (self.at(Stage::Finished(outcome)), Step::Done(outcome))
    }

    /// Ends the delivery with the failure of its last send.
    fn fail(self) -> (r: (Delivery, Step))
        ensures
            (r.0@, r.1@) == fail(self@),
    {
        (self.at(Stage::Failed), Step::Failed)
    }

    /// Sends the rendition at `index` next.
    fn try_variant(self, index: usize, delivered: bool) -> (r: (Delivery, Step))
        requires
            index < self@.extra_variants.len(),
        ensures
            (r.0@, r.1@) == try_variant(self@, index as nat, delivered),
    {
        let mut items: Vec<MediaDescriptor> = Vec::new();
        items.push(
            MediaDescriptor {
                kind: DescriptorKind::Video,
                url: self.extra_variants[index].url.clone(),
                caption: Some(self.caption.clone()),
            },
        );
        let message = Message::MediaGroup { items, silent: true, reply_to: self.reply_to };
        assert(message@ == variant_message(
            self@.extra_variants[index as int],
            self@.caption,
            self@.reply_to,
        )) by {
            assert(message@->MediaGroup_items =~= variant_message(
                self@.extra_variants[index as int],
                self@.caption,
                self@.reply_to,
            )->MediaGroup_items);
        }
        (self.at(Stage::Variant { index, delivered }), Step::Send(message))
    }
}

} // verus!
