//! The response classifier: from a fetched post to the plan of its delivery.
//!
//! A post without media is delivered as text. A post with media is delivered
//! as one bundle, with the caption on its first item, together with what the
//! delivery may fall back on when the bundle is refused.

use vstd::prelude::*;
use vstd::string::StringExecFns;
use crate::post::{duplicate_variants, MediaKind, Post, PostView, Variant, VariantView};
use crate::token::{decoded, encode, encoded, lemma_decode_encode, Intent, TokenDecodeFailure};

verus! {

/// The label of the control that continues a thread.
pub const CONTINUE_LABEL: &'static str = "Next tweet from thread";

/// How the messaging platform is to take an item of a bundle.
#[derive(Clone, Copy, Debug, PartialEq, Eq, Structural)]
pub enum DescriptorKind {
    Photo,
    Video,
}

/// One item of a bundle, as the messaging platform is to receive it.
#[derive(Clone, Debug, PartialEq, Eq)]
pub struct MediaDescriptor {
    pub kind: DescriptorKind,
    pub url: String,
    /// The caption, with rich formatting, where this item carries it.
    pub caption: Option<String>,
}

/// The view of a [`MediaDescriptor`].
pub struct MediaDescriptorView {
    pub kind: DescriptorKind,
    pub url: Seq<char>,
    pub caption: Option<Seq<char>>,
}

impl View for MediaDescriptor {
    type V = MediaDescriptorView;

    open spec fn view(&self) -> MediaDescriptorView {
        MediaDescriptorView {
            kind: self.kind,
            url: self.url@,
            caption: match self.caption {
                Some(caption) => Some(caption@),
                None => None,
            },
        }
    }
}

impl DeepView for MediaDescriptor {
    type V = MediaDescriptorView;

    open spec fn deep_view(&self) -> MediaDescriptorView {
        self@
    }
}

/// The interactive control that asks for the next post of a thread.
#[derive(Clone, Debug, PartialEq, Eq)]
pub struct ContinuationControl {
    /// What the control shows.
    pub label: String,
    /// The token that the control hands back when it is pressed.
    pub token: String,
}

/// The view of a [`ContinuationControl`].
pub struct ContinuationControlView {
    pub label: Seq<char>,
    pub token: Seq<char>,
}

impl View for ContinuationControl {
    type V = ContinuationControlView;

    open spec fn view(&self) -> ContinuationControlView {
        ContinuationControlView { label: self.label@, token: self.token@ }
    }
}

impl DeepView for ContinuationControl {
    type V = ContinuationControlView;

    open spec fn deep_view(&self) -> ContinuationControlView {
        self@
    }
}

/// The decided shape of the outbound message, before anything is sent.
#[derive(Clone, Debug, PartialEq, Eq)]
pub enum DeliveryPlan {
    /// Plain text.
    TextOnly { text: String, continuation_control: Option<ContinuationControl> },
    /// Media sent as one group.
    MediaBundle {
        /// The items of the group, in the order of the post.
        items: Vec<MediaDescriptor>,
        /// The caption of the post; the first item carries it.
        caption: String,
        /// The renditions to fall back on, in the order in which to try them.
        extra_variants: Vec<Variant>,
        /// Whether a refused bundle is followed by the degraded tiers.
        retry_allowed: bool,
        continuation_control: Option<ContinuationControl>,
    },
}

/// The view of a [`DeliveryPlan`].
pub enum DeliveryPlanView {
    TextOnly { text: Seq<char>, continuation_control: Option<ContinuationControlView> },
    MediaBundle {
        items: Seq<MediaDescriptorView>,
        caption: Seq<char>,
        extra_variants: Seq<VariantView>,
        retry_allowed: bool,
        continuation_control: Option<ContinuationControlView>,
    },
}

impl View for DeliveryPlan {
    type V = DeliveryPlanView;

    open spec fn view(&self) -> DeliveryPlanView {
        match self {
            DeliveryPlan::TextOnly { text, continuation_control } => DeliveryPlanView::TextOnly {
                text: text@,
                continuation_control: continuation_control.deep_view(),
            },
            DeliveryPlan::MediaBundle {
                items,
                caption,
                extra_variants,
                retry_allowed,
                continuation_control,
            } => DeliveryPlanView::MediaBundle {
                items: items.deep_view(),
                caption: caption@,
                extra_variants: extra_variants.deep_view(),
                retry_allowed: *retry_allowed,
                continuation_control: continuation_control.deep_view(),
            },
        }
    }
}

impl DeliveryPlanView {
    /// The continuation control of the plan, where it has one.
    pub open spec fn control(self) -> Option<ContinuationControlView> {
        match self {
            DeliveryPlanView::TextOnly { continuation_control, .. } => continuation_control,
            DeliveryPlanView::MediaBundle { continuation_control, .. } => continuation_control,
        }
    }

    /// What holds of every plan that was made from a well-formed post: at
    /// most one item of a bundle carries the caption, and that item is the
    /// first; a retry is allowed exactly where the bundle holds a video; and
    /// only a plan that allows a retry has renditions to fall back on.
    pub open spec fn well_formed(self) -> bool {
        match self {
            DeliveryPlanView::TextOnly { .. } => true,
            DeliveryPlanView::MediaBundle { items, extra_variants, retry_allowed, .. } => {
                &&& forall|i: int| 1 <= i < items.len() ==> (#[trigger] items[i]).caption is None
                &&& retry_allowed <==> exists|i: int|
                    0 <= i < items.len() && (#[trigger] items[i]).kind == DescriptorKind::Video
                &&& extra_variants.len() > 0 ==> retry_allowed
            },
        }
    }
}

/// The descriptor of the item at `i` of `post`: a photo stays a photo, a
/// video or animated image is sent as a video, and the first item carries the
/// caption.
pub open spec fn descriptor_of(post: PostView, i: int) -> MediaDescriptorView {
    MediaDescriptorView {
        kind: if post.media_items[i].kind.in_motion() {
            DescriptorKind::Video
        } else {
            DescriptorKind::Photo
        },
        url: post.media_items[i].url,
        caption: if i == 0 {
            Some(post.caption)
        } else {
            None
        },
    }
}

/// The intent of the control that continues the thread of `post`.
pub open spec fn continuation_intent(post: PostView) -> Intent {
    Intent::AdvanceThread {
        conversation_id: post.conversation_id,
        author_id: post.author_id,
        position: post.next_index as u8,
    }
}

/// The continuation control of `post`: there is one exactly where the thread
/// has a post at `next_index`, and its token asks for that post.
pub open spec fn continuation_of(post: PostView) -> Option<ContinuationControlView> {
    if post.has_next() {
        Some(
            ContinuationControlView {
                label: CONTINUE_LABEL@,
                token: encoded(continuation_intent(post)),
            },
        )
    } else {
        None
    }
}

/// The delivery plan of `post`.
pub open spec fn plan_of(post: PostView) -> DeliveryPlanView {
    if post.media_items.len() == 0 {
        DeliveryPlanView::TextOnly {
            text: post.caption,
            continuation_control: continuation_of(post),
        }
    } else {
        DeliveryPlanView::MediaBundle {
            items: Seq::new(post.media_items.len(), |i: int| descriptor_of(post, i)),
            caption: post.caption,
            extra_variants: post.extra_variants,
            retry_allowed: post.has_motion(),
            continuation_control: continuation_of(post),
        }
    }
}

/// A post without media is delivered as text: its caption.
pub proof fn lemma_no_media_is_text(post: PostView)
    requires
        post.media_items.len() == 0,
    ensures
        plan_of(post) is TextOnly,
        plan_of(post)->text == post.caption,
{
}

/// A post of photos alone never allows a retry, whatever renditions it
/// holds.
pub proof fn lemma_photos_never_retry(post: PostView)
    requires
        post.media_items.len() >= 1,
        forall|i: int|
            0 <= i < post.media_items.len() ==> (#[trigger] post.media_items[i]).kind
                == MediaKind::Photo,
    ensures
        plan_of(post) is MediaBundle,
        plan_of(post)->retry_allowed == false,
{
}

/// In the bundle of a post with a video or animated item, exactly one item
/// carries the caption, and it is the first in the order of the post.
pub proof fn lemma_caption_on_first_only(post: PostView)
    requires
        post.has_motion(),
    ensures
        plan_of(post) is MediaBundle,
        plan_of(post)->items.len() == post.media_items.len(),
        plan_of(post)->items.len() >= 1,
        forall|i: int|
            0 <= i < plan_of(post)->items.len() ==> ((#[trigger] plan_of(post)->items[i]).caption
                is Some <==> i == 0),
        plan_of(post)->items[0].caption == Some(post.caption),
{
}

/// A plan holds a continuation control exactly where the post belongs to a
/// thread of known length and the next position lies within it. Pressing the
/// control asks for exactly that position of that thread.
pub proof fn lemma_continuation(post: PostView)
    ensures
        plan_of(post).control() is Some <==> post.thread_length > 0 && post.next_index
            <= post.thread_length,
        plan_of(post).control() matches Some(control) ==> decoded(control.token) == Ok::<
            Intent,
            TokenDecodeFailure,
        >(
            Intent::AdvanceThread {
                conversation_id: post.conversation_id,
                author_id: post.author_id,
                position: post.next_index as u8,
            },
        ) && post.next_index <= u8::MAX,
{
    if post.has_next() {
        lemma_decode_encode(continuation_intent(post));
    }
}

/// The plan of a well-formed post is well formed; and whatever the post, a
/// retry is allowed exactly where the bundle holds a video.
pub proof fn lemma_plan_well_formed(post: PostView)
    ensures
        post.well_formed() ==> plan_of(post).well_formed(),
        plan_of(post) matches DeliveryPlanView::MediaBundle { items, retry_allowed, .. }
            ==> (retry_allowed <==> exists|i: int|
            0 <= i < items.len() && (#[trigger] items[i]).kind == DescriptorKind::Video),
{
    if post.media_items.len() > 0 {
        let items = plan_of(post)->items;
        if post.has_motion() {
            let i = choose|i: int|
                0 <= i < post.media_items.len() && (#[trigger] post.media_items[i]).kind.in_motion();
            assert(items[i].kind == DescriptorKind::Video);
        }
        if exists|i: int|
            0 <= i < items.len() && (#[trigger] items[i]).kind == DescriptorKind::Video {
            let i = choose|i: int|
                0 <= i < items.len() && (#[trigger] items[i]).kind == DescriptorKind::Video;
            assert(post.media_items[i].kind.in_motion());
        }
    }
}

/// The control that continues the thread of `post`, where the thread has a
/// post at `next_index`.
pub fn continuation_control(post: &Post) -> (control: Option<ContinuationControl>)
    ensures
        control.deep_view() == continuation_of(post@),
{
    if post.thread_length > 0 && post.next_index <= post.thread_length as u16 {
        let intent = Intent::AdvanceThread {
            conversation_id: post.conversation_id,
            author_id: post.author_id,
            position: post.next_index as u8,
        };
        Some(
            ContinuationControl {
                label: String::from_str(CONTINUE_LABEL),
                token: encode(&intent),
            },
        )
    } else {
        None
    }
}

/// Decides how `post` is delivered.
///
/// The items keep the order of the post; the first of them carries the
/// caption. The renditions to fall back on are those of the post, in its
/// order. Nothing of the post is changed.
pub fn classify(post: &Post) -> (plan: DeliveryPlan)
    ensures
        plan@ == plan_of(post@),
{
    let continuation_control = continuation_control(post);
    let mut caption_attached = false;
    let mut retry_allowed = false;
    let mut items: Vec<MediaDescriptor> = Vec::new();
    let n = post.media_items.len();
    let mut i: usize = 0;
    while i < n
        invariant
            i <= n,
            n == post.media_items.len(),
            items.len() == i,
            caption_attached == (i > 0),
            forall|j: int| 0 <= j < i ==> (#[trigger] items[j])@ == descriptor_of(post@, j),
            retry_allowed <==> exists|j: int|
                0 <= j < i && (#[trigger] post@.media_items[j]).kind.in_motion(),
        decreases n - i,
    {
        let item = &post.media_items[i];
        let caption = if !caption_attached {
            caption_attached = true;
            Some(post.caption.clone())
        } else {
            None
        };
        let kind = if item.kind.is_in_motion() {
            retry_allowed = true;
            DescriptorKind::Video
        } else {
            DescriptorKind::Photo
        };
        assert(post@.media_items[i as int] == item@);
        items.push(MediaDescriptor { kind, url: item.url.clone(), caption });
        i += 1;
    }
    if !caption_attached {
        return DeliveryPlan::TextOnly { text: post.caption.clone(), continuation_control };
    }
    let plan = DeliveryPlan::MediaBundle {
        items,
        caption: post.caption.clone(),
        extra_variants: duplicate_variants(&post.extra_variants),
        retry_allowed,
        continuation_control,
    };
    assert(plan@->items =~= plan_of(post@)->items);
    plan
}

} // verus!
