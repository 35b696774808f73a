//! The data model of a fetched post.
//!
//! A post is a snapshot: it is made afresh for each fetch and never changes
//! afterwards, but for `next_index`, which is set when a thread is advanced.
//! Each type has a view that holds its texts as sequences of characters;
//! contracts are stated over these views.

use vstd::prelude::*;
use crate::text::same_text;

verus! {

/// The name under which the content service lists a photo.
pub const PHOTO_NAME: &'static str = "photo";

/// The name under which the content service lists a video.
pub const VIDEO_NAME: &'static str = "video";

/// The name under which the content service lists an animated image.
pub const ANIMATED_NAME: &'static str = "animated_gif";

/// The kind of media that the content service lists under `name`, where it
/// is one that can be relayed.
pub open spec fn kind_named(name: Seq<char>) -> Option<MediaKind> {
    if name == PHOTO_NAME@ {
        Some(MediaKind::Photo)
    } else if name == VIDEO_NAME@ {
        Some(MediaKind::Video)
    } else if name == ANIMATED_NAME@ {
        Some(MediaKind::Animated)
    } else {
        None
    }
}

/// What kind of media an item is.
#[derive(Clone, Copy, Debug, PartialEq, Eq, Structural)]
pub enum MediaKind {
    Photo,
    Video,
    Animated,
}

impl MediaKind {
    /// The kind of media that the content service lists under `name`. Media
    /// of any other name is not relayed.
    pub fn named(name: &str) -> (kind: Option<MediaKind>)
        ensures
            kind == kind_named(name@),
    {
        if same_text(name, PHOTO_NAME) {
            Some(MediaKind::Photo)
        } else if same_text(name, VIDEO_NAME) {
            Some(MediaKind::Video)
        } else if same_text(name, ANIMATED_NAME) {
            Some(MediaKind::Animated)
        } else {
            None
        }
    }

    /// Whether media of this kind moves: a video or an animated image.
    pub open spec fn in_motion(self) -> bool {
        self != MediaKind::Photo
    }

    /// Whether media of this kind moves: a video or an animated image.
    pub fn is_in_motion(&self) -> (b: bool)
        ensures
            b == self.in_motion(),
    {
        match self {
            MediaKind::Photo => false,
            MediaKind::Video => true,
            MediaKind::Animated => true,
        }
    }
}

/// One media item of a post.
#[derive(Clone, Debug, PartialEq, Eq)]
pub struct MediaItem {
    pub kind: MediaKind,
    /// Where the item can be played or displayed.
    pub url: String,
    pub thumbnail_url: String,
}

/// The view of a [`MediaItem`].
pub struct MediaItemView {
    pub kind: MediaKind,
    pub url: Seq<char>,
    pub thumbnail_url: Seq<char>,
}

impl View for MediaItem {
    type V = MediaItemView;

    open spec fn view(&self) -> MediaItemView {
        MediaItemView { kind: self.kind, url: self.url@, thumbnail_url: self.thumbnail_url@ }
    }
}

impl DeepView for MediaItem {
    type V = MediaItemView;

    open spec fn deep_view(&self) -> MediaItemView {
        self@
    }
}

/// Another rendition of a video or animated item, in its own encoding.
#[derive(Clone, Debug, PartialEq, Eq)]
pub struct Variant {
    /// The bit rate, where it is known; renditions are ranked by it.
    pub bit_rate: Option<i32>,
    /// The MIME type.
    pub content_type: String,
    pub url: String,
}

/// The view of a [`Variant`].
pub struct VariantView {
    pub bit_rate: Option<i32>,
    pub content_type: Seq<char>,
    pub url: Seq<char>,
}

impl View for Variant {
    type V = VariantView;

    open spec fn view(&self) -> VariantView {
        VariantView {
            bit_rate: self.bit_rate,
            content_type: self.content_type@,
            url: self.url@,
        }
    }
}

impl DeepView for Variant {
    type V = VariantView;

    open spec fn deep_view(&self) -> VariantView {
        self@
    }
}

impl Variant {
    /// A copy of this rendition.
    pub fn duplicate(&self) -> (copy: Variant)
        ensures
            copy@ == self@,
    {
        Variant {
            bit_rate: self.bit_rate,
            content_type: self.content_type.clone(),
            url: self.url.clone(),
        }
    }
}

/// A copy of the renditions in `variants`, in the same order.
pub fn duplicate_variants(variants: &Vec<Variant>) -> (copy: Vec<Variant>)
    ensures
        copy.deep_view() == variants.deep_view(),
{
    let mut copy: Vec<Variant> = Vec::new();
    let n = variants.len();
    let mut i: usize = 0;
    while i < n
        invariant
            i <= n,
            n == variants.len(),
            copy.len() == i,
            forall|j: int| 0 <= j < i ==> copy[j]@ == variants[j]@,
        decreases n - i,
    {
        copy.push(variants[i].duplicate());
        i += 1;
    }
    assert(copy.deep_view() =~= variants.deep_view());
    copy
}

/// A fetched post.
#[derive(Clone, Debug, PartialEq, Eq)]
pub struct Post {
    pub id: u64,
    /// The text to display, already safe for rich formatting.
    pub caption: String,
    pub author_name: String,
    /// The media of the post, in the order of the post. May be empty.
    pub media_items: Vec<MediaItem>,
    /// Other renditions of the first video or animated item. They are tried in
    /// this order when the bundle cannot be delivered.
    pub extra_variants: Vec<Variant>,
    pub conversation_id: u64,
    pub author_id: u64,
    /// How many posts the thread is known to have; zero where the post
    /// belongs to no thread or the thread is unknown.
    pub thread_length: u8,
    /// The position, counted from one, of the post to fetch next when the
    /// thread is advanced.
    pub next_index: u16,
}

/// The view of a [`Post`].
pub struct PostView {
    pub id: u64,
    pub caption: Seq<char>,
    pub author_name: Seq<char>,
    pub media_items: Seq<MediaItemView>,
    pub extra_variants: Seq<VariantView>,
    pub conversation_id: u64,
    pub author_id: u64,
    pub thread_length: u8,
    pub next_index: u16,
}

impl View for Post {
    type V = PostView;

    open spec fn view(&self) -> PostView {
        PostView {
            id: self.id,
            caption: self.caption@,
            author_name: self.author_name@,
            media_items: self.media_items.deep_view(),
            extra_variants: self.extra_variants.deep_view(),
            conversation_id: self.conversation_id,
            author_id: self.author_id,
            thread_length: self.thread_length,
            next_index: self.next_index,
        }
    }
}

impl PostView {
    /// Whether one of the media items is a video or an animated image.
    pub open spec fn has_motion(self) -> bool {
        exists|i: int|
            0 <= i < self.media_items.len() && (#[trigger] self.media_items[i]).kind.in_motion()
    }

    /// Whether the thread has a post at `next_index`.
    pub open spec fn has_next(self) -> bool {
        self.thread_length > 0 && self.next_index <= self.thread_length
    }

    /// Whether the extra renditions belong to something: a post without a
    /// video or animated item has none.
    pub open spec fn well_formed(self) -> bool {
        self.extra_variants.len() > 0 ==> self.has_motion()
    }
}

impl Post {
    /// Sets the position of the post to fetch next, and nothing else.
    pub fn set_next_index(&mut self, next_index: u16)
        ensures
            final(self)@ == (PostView { next_index, ..old(self)@ }),
    {
        self.next_index = next_index;
    }
}

} // verus!
