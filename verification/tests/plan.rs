use twitter_video_dl::plan::{
    classify, continuation_control, ContinuationControl, DeliveryPlan, DescriptorKind,
    MediaDescriptor,
};
use twitter_video_dl::post::{MediaItem, MediaKind, Post, Variant};
use twitter_video_dl::token::{decode, Intent};

fn item(kind: MediaKind, url: &str) -> MediaItem {
    MediaItem { kind, url: url.to_string(), thumbnail_url: format!("{}.jpg", url) }
}

fn variant(bit_rate: Option<i32>, url: &str) -> Variant {
    Variant { bit_rate, content_type: "video/mp4".to_string(), url: url.to_string() }
}

fn post(media_items: Vec<MediaItem>, extra_variants: Vec<Variant>) -> Post {
    Post {
        id: 1001,
        caption: "<b>hello</b> world".to_string(),
        author_name: "someone".to_string(),
        media_items,
        extra_variants,
        conversation_id: 77,
        author_id: 5,
        thread_length: 0,
        next_index: 1,
    }
}

#[test]
fn empty_media_yields_text_only() {
    let plan = classify(&post(vec![], vec![]));
    assert_eq!(
        plan,
        DeliveryPlan::TextOnly { text: "<b>hello</b> world".to_string(), continuation_control: None }
    );
}

#[test]
fn empty_media_yields_text_only_whatever_the_variants() {
    let plan = classify(&post(vec![], vec![variant(Some(1), "https://v/1.mp4")]));
    assert!(matches!(plan, DeliveryPlan::TextOnly { .. }));
}

#[test]
fn photos_never_allow_retry() {
    let p = post(
        vec![item(MediaKind::Photo, "https://p/1"), item(MediaKind::Photo, "https://p/2")],
        vec![variant(Some(832000), "https://v/low.mp4"), variant(None, "https://v/high.mp4")],
    );
    match classify(&p) {
        DeliveryPlan::MediaBundle { retry_allowed, items, .. } => {
            assert!(!retry_allowed);
            assert_eq!(items.len(), 2);
            assert!(items.iter().all(|d| d.kind == DescriptorKind::Photo));
        }
        other => panic!("{:?}", other),
    }
}

#[test]
fn caption_goes_on_the_first_item_only() {
    let p = post(
        vec![
            item(MediaKind::Photo, "https://p/1"),
            item(MediaKind::Video, "https://v/2"),
            item(MediaKind::Animated, "https://g/3"),
            item(MediaKind::Photo, "https://p/4"),
        ],
        vec![],
    );
    match classify(&p) {
        DeliveryPlan::MediaBundle { items, caption, retry_allowed, .. } => {
            assert!(retry_allowed);
            assert_eq!(caption, "<b>hello</b> world");
            assert_eq!(
                items,
                vec![
                    MediaDescriptor {
                        kind: DescriptorKind::Photo,
                        url: "https://p/1".to_string(),
                        caption: Some("<b>hello</b> world".to_string()),
                    },
                    MediaDescriptor {
                        kind: DescriptorKind::Video,
                        url: "https://v/2".to_string(),
                        caption: None,
                    },
                    MediaDescriptor {
                        kind: DescriptorKind::Video,
                        url: "https://g/3".to_string(),
                        caption: None,
                    },
                    MediaDescriptor {
                        kind: DescriptorKind::Photo,
                        url: "https://p/4".to_string(),
                        caption: None,
                    },
                ]
            );
            assert_eq!(items.iter().filter(|d| d.caption.is_some()).count(), 1);
        }
        other => panic!("{:?}", other),
    }
}

#[test]
fn a_single_video_carries_the_caption_and_allows_retry() {
    let p = post(vec![item(MediaKind::Video, "https://v/1")], vec![]);
    match classify(&p) {
        DeliveryPlan::MediaBundle { items, retry_allowed, extra_variants, .. } => {
            assert!(retry_allowed);
            assert!(extra_variants.is_empty());
            assert_eq!(items.len(), 1);
            assert_eq!(items[0].caption.as_deref(), Some("<b>hello</b> world"));
        }
        other => panic!("{:?}", other),
    }
}

#[test]
fn an_animated_item_is_sent_as_video() {
    let p = post(vec![item(MediaKind::Animated, "https://g/1")], vec![]);
    match classify(&p) {
        DeliveryPlan::MediaBundle { items, retry_allowed, .. } => {
            assert!(retry_allowed);
            assert_eq!(items[0].kind, DescriptorKind::Video);
        }
        other => panic!("{:?}", other),
    }
}

#[test]
fn variants_are_copied_in_their_order() {
    let variants = vec![
        variant(Some(2176000), "https://v/high.mp4"),
        variant(None, "https://v/playlist.m3u8"),
        variant(Some(256000), "https://v/low.mp4"),
        variant(Some(832000), "https://v/mid.mp4"),
    ];
    let p = post(vec![item(MediaKind::Video, "https://v/high.mp4")], variants.clone());
    match classify(&p) {
        DeliveryPlan::MediaBundle { extra_variants, .. } => assert_eq!(extra_variants, variants),
        other => panic!("{:?}", other),
    }
    assert_eq!(variants[0].duplicate(), variants[0]);
}

#[test]
fn continuation_within_the_thread() {
    let mut p = post(vec![], vec![]);
    p.thread_length = 5;
    p.next_index = 3;
    let expected = ContinuationControl {
        label: "Next tweet from thread".to_string(),
        token: "2_77_5_3".to_string(),
    };
    assert_eq!(continuation_control(&p), Some(expected.clone()));
    assert_eq!(
        classify(&p),
        DeliveryPlan::TextOnly {
            text: "<b>hello</b> world".to_string(),
            continuation_control: Some(expected)
        }
    );
}

#[test]
fn no_continuation_past_the_thread() {
    let mut p = post(vec![item(MediaKind::Photo, "https://p/1")], vec![]);
    p.thread_length = 5;
    p.next_index = 6;
    assert_eq!(continuation_control(&p), None);
    match classify(&p) {
        DeliveryPlan::MediaBundle { continuation_control, .. } => {
            assert_eq!(continuation_control, None)
        }
        other => panic!("{:?}", other),
    }
}

#[test]
fn continuation_at_the_edges() {
    let mut p = post(vec![item(MediaKind::Video, "https://v/1")], vec![]);
    p.thread_length = 0;
    p.next_index = 0;
    assert_eq!(continuation_control(&p), None);
    p.thread_length = 5;
    p.next_index = 5;
    assert!(continuation_control(&p).is_some());
    p.thread_length = 255;
    p.next_index = 255;
    assert_eq!(continuation_control(&p).unwrap().token, "2_77_5_255");
    p.next_index = 256;
    assert_eq!(continuation_control(&p), None);
    p.thread_length = 1;
    p.next_index = 0;
    assert_eq!(continuation_control(&p).unwrap().token, "2_77_5_0");
}

#[test]
fn the_control_asks_for_the_next_position() {
    let mut p = post(vec![item(MediaKind::Video, "https://v/1")], vec![]);
    p.thread_length = 9;
    p.next_index = 4;
    match classify(&p) {
        DeliveryPlan::MediaBundle { continuation_control: Some(control), .. } => {
            assert_eq!(
                decode(&control.token),
                Ok(Intent::AdvanceThread { conversation_id: 77, author_id: 5, position: 4 })
            );
        }
        other => panic!("{:?}", other),
    }
}

#[test]
fn classify_leaves_the_post_alone() {
    let mut p = post(vec![item(MediaKind::Video, "https://v/1")], vec![variant(None, "https://v/2")]);
    p.thread_length = 3;
    p.next_index = 2;
    let before = p.clone();
    let first = classify(&p);
    let second = classify(&p);
    assert_eq!(p, before);
    assert_eq!(first, second);
}

#[test]
fn set_next_index_changes_nothing_else() {
    let mut p = post(vec![item(MediaKind::Photo, "https://p/1")], vec![]);
    let mut expected = p.clone();
    expected.next_index = 41;
    p.set_next_index(41);
    assert_eq!(p, expected);
}

#[test]
fn media_in_motion() {
    assert!(!MediaKind::Photo.is_in_motion());
    assert!(MediaKind::Video.is_in_motion());
    assert!(MediaKind::Animated.is_in_motion());
}

#[test]
fn media_kinds_by_name() {
    assert_eq!(MediaKind::named("photo"), Some(MediaKind::Photo));
    assert_eq!(MediaKind::named("video"), Some(MediaKind::Video));
    assert_eq!(MediaKind::named("animated_gif"), Some(MediaKind::Animated));
    assert_eq!(MediaKind::named(""), None);
    assert_eq!(MediaKind::named("Photo"), None);
    assert_eq!(MediaKind::named("photos"), None);
    assert_eq!(MediaKind::named("phot"), None);
    assert_eq!(MediaKind::named("gif"), None);
    assert_eq!(MediaKind::named(" video"), None);
}
