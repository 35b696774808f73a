use twitter_video_dl::delivery::{Delivery, Message, Outcome, Stage, Step};
use twitter_video_dl::plan::{ContinuationControl, DeliveryPlan, DescriptorKind, MediaDescriptor};
use twitter_video_dl::post::Variant;
use twitter_video_dl::response::Response;

/// Runs a delivery against a transport that answers the sends, in order, with `answers`.
fn drive(response: Response, reply_to: Option<i32>, answers: &[bool]) -> (Vec<Message>, Step) {
    let (mut delivery, mut step) = Delivery::start(response, reply_to);
    let mut sent = Vec::new();
    let mut answers = answers.iter();
    loop {
        match step {
            Step::Send(message) => {
                sent.push(message);
                let answer = *answers.next().expect("the delivery sent more than was scripted");
                let next = delivery.next(answer);
                delivery = next.0;
                step = next.1;
            }
            last => {
                assert_eq!(answers.next(), None, "the delivery ended before the script did");
                return (sent, last);
            }
        }
    }
}

fn rendition(url: &str) -> Variant {
    Variant { bit_rate: Some(1), content_type: "video/mp4".to_string(), url: url.to_string() }
}

fn control() -> ContinuationControl {
    ContinuationControl { label: "Next tweet from thread".to_string(), token: "2_7_3_2".to_string() }
}

fn bundle_items() -> Vec<MediaDescriptor> {
    vec![
        MediaDescriptor {
            kind: DescriptorKind::Video,
            url: "https://v/full.mp4".to_string(),
            caption: Some("the caption".to_string()),
        },
        MediaDescriptor { kind: DescriptorKind::Photo, url: "https://p/1".to_string(), caption: None },
    ]
}

fn bundle(
    extra_variants: Vec<Variant>,
    retry_allowed: bool,
    continuation_control: Option<ContinuationControl>,
) -> Response {
    Response::Deliver(DeliveryPlan::MediaBundle {
        items: bundle_items(),
        caption: "the caption".to_string(),
        extra_variants,
        retry_allowed,
        continuation_control,
    })
}

fn bundle_sent(reply_to: Option<i32>) -> Message {
    Message::MediaGroup { items: bundle_items(), silent: true, reply_to }
}

fn rendition_sent(url: &str, reply_to: Option<i32>) -> Message {
    Message::MediaGroup {
        items: vec![MediaDescriptor {
            kind: DescriptorKind::Video,
            url: url.to_string(),
            caption: Some("the caption".to_string()),
        }],
        silent: true,
        reply_to,
    }
}

fn link_sent(url: &str, reply_to: Option<i32>) -> Message {
    Message::Text {
        text: format!("🤖 failed to embed media so use link this time: {}\n\nthe caption", url),
        control: None,
        rich: true,
        silent: true,
        link_preview: true,
        reply_to,
    }
}

#[test]
fn degraded_delivery_tries_every_variant_in_order() {
    let response = bundle(vec![rendition("https://v/1"), rendition("https://v/2")], true, None);
    let (sent, step) = drive(response, Some(40), &[false, false, true]);
    assert_eq!(
        sent,
        vec![
            bundle_sent(Some(40)),
            rendition_sent("https://v/1", Some(40)),
            rendition_sent("https://v/2", Some(40)),
        ]
    );
    assert_eq!(step, Step::Done(Outcome::DegradedDelivered));
}

#[test]
fn an_early_variant_that_goes_through_counts() {
    let response = bundle(
        vec![rendition("https://v/1"), rendition("https://v/2"), rendition("https://v/3")],
        true,
        Some(control()),
    );
    let (sent, step) = drive(response, None, &[false, true, false, false]);
    assert_eq!(
        sent,
        vec![
            bundle_sent(None),
            rendition_sent("https://v/1", None),
            rendition_sent("https://v/2", None),
            rendition_sent("https://v/3", None),
        ]
    );
    assert_eq!(step, Step::Done(Outcome::DegradedDelivered));
}

#[test]
fn last_resort_link_after_the_only_variant_fails() {
    let response = bundle(vec![rendition("https://v/1")], true, None);
    let (sent, step) = drive(response, Some(9), &[false, false, true]);
    assert_eq!(
        sent,
        vec![
            bundle_sent(Some(9)),
            rendition_sent("https://v/1", Some(9)),
            link_sent("https://v/1", Some(9)),
        ]
    );
    match &sent[2] {
        Message::Text { text, .. } => assert!(text.contains("https://v/1")),
        other => panic!("{:?}", other),
    }
    assert_eq!(step, Step::Done(Outcome::DegradedDelivered));
}

#[test]
fn degraded_failed_only_if_the_link_fails_too() {
    let response = bundle(vec![rendition("https://v/1")], true, None);
    let (sent, step) = drive(response, Some(9), &[false, false, false]);
    assert_eq!(sent.len(), 3);
    assert_eq!(sent[2], link_sent("https://v/1", Some(9)));
    assert_eq!(step, Step::Done(Outcome::DegradedFailed));
}

#[test]
fn the_link_is_that_of_the_first_variant() {
    let response = bundle(
        vec![rendition("https://v/first"), rendition("https://v/second"), rendition("https://v/third")],
        true,
        None,
    );
    let (sent, step) = drive(response, None, &[false, false, false, false, true]);
    assert_eq!(sent.len(), 5);
    assert_eq!(
        sent[4],
        Message::Text {
            text: "🤖 failed to embed media so use link this time: https://v/first\n\nthe caption"
                .to_string(),
            control: None,
            rich: true,
            silent: true,
            link_preview: true,
            reply_to: None,
        }
    );
    assert_eq!(step, Step::Done(Outcome::DegradedDelivered));
}

#[test]
fn retry_without_variants_has_nothing_to_fall_back_on() {
    let (sent, step) = drive(bundle(vec![], true, None), None, &[false]);
    assert_eq!(sent, vec![bundle_sent(None)]);
    assert_eq!(step, Step::Done(Outcome::DegradedFailed));
}

#[test]
fn a_refused_bundle_of_photos_is_final() {
    let response = bundle(vec![rendition("https://v/1")], false, Some(control()));
    let (sent, step) = drive(response, Some(3), &[false]);
    assert_eq!(sent, vec![bundle_sent(Some(3))]);
    assert_eq!(step, Step::Failed);
}

#[test]
fn bundle_without_control_is_delivered() {
    let (sent, step) = drive(bundle(vec![rendition("https://v/1")], true, None), Some(3), &[true]);
    assert_eq!(sent, vec![bundle_sent(Some(3))]);
    assert_eq!(step, Step::Done(Outcome::Delivered));
}

#[test]
fn bundle_with_control_is_followed_by_the_prompt() {
    let (sent, step) = drive(bundle(vec![], true, Some(control())), Some(3), &[true, true]);
    assert_eq!(
        sent,
        vec![
            bundle_sent(Some(3)),
            Message::Text {
                text: "tap button to see next thread".to_string(),
                control: Some(control()),
                rich: true,
                silent: true,
                link_preview: false,
                reply_to: None,
            },
        ]
    );
    assert_eq!(step, Step::Done(Outcome::DeliveredWithContinuationPrompt));
}

#[test]
fn a_refused_prompt_is_dropped() {
    let (sent, step) = drive(bundle(vec![], false, Some(control())), None, &[true, false]);
    assert_eq!(sent.len(), 2);
    assert_eq!(step, Step::Done(Outcome::Delivered));
}

#[test]
fn text_is_sent_once_with_its_control() {
    let response = Response::Deliver(DeliveryPlan::TextOnly {
        text: "just text".to_string(),
        continuation_control: Some(control()),
    });
    let (sent, step) = drive(response.clone(), Some(12), &[true]);
    assert_eq!(
        sent,
        vec![Message::Text {
            text: "just text".to_string(),
            control: Some(control()),
            rich: true,
            silent: true,
            link_preview: false,
            reply_to: Some(12),
        }]
    );
    assert_eq!(step, Step::Done(Outcome::Delivered));
    let (sent, step) = drive(response, Some(12), &[false]);
    assert_eq!(sent.len(), 1);
    assert_eq!(step, Step::Failed);
}

#[test]
fn rate_limited_sends_the_busy_notice() {
    let (sent, step) = drive(Response::RateLimited, Some(5), &[true]);
    assert_eq!(
        sent,
        vec![Message::Text {
            text: "🧑‍💻👨‍💻⚠️ Server is busy! Please try a little later.".to_string(),
            control: None,
            rich: false,
            silent: false,
            link_preview: false,
            reply_to: None,
        }]
    );
    assert_eq!(step, Step::Done(Outcome::Skipped));
    let (_, step) = drive(Response::RateLimited, Some(5), &[false]);
    assert_eq!(step, Step::Failed);
}

#[test]
fn not_found_sends_a_neutral_notice() {
    let (sent, step) = drive(Response::NotFound, Some(5), &[true]);
    assert_eq!(
        sent,
        vec![Message::Text {
            text: "Tweet not found 🤷‍♂️".to_string(),
            control: None,
            rich: false,
            silent: true,
            link_preview: true,
            reply_to: Some(5),
        }]
    );
    assert_eq!(step, Step::Done(Outcome::Skipped));
    let (_, step) = drive(Response::NotFound, None, &[false]);
    assert_eq!(step, Step::Failed);
}

#[test]
fn unauthorized_and_nothing_are_skipped_in_silence() {
    let (sent, step) = drive(Response::Unauthorized, Some(5), &[]);
    assert!(sent.is_empty());
    assert_eq!(step, Step::Done(Outcome::Skipped));
    let (sent, step) = drive(Response::Nothing, None, &[]);
    assert!(sent.is_empty());
    assert_eq!(step, Step::Done(Outcome::Skipped));
}

#[test]
fn a_delivery_that_is_over_stays_over() {
    let (delivery, step) = Delivery::start(bundle(vec![], false, None), None);
    assert!(matches!(step, Step::Send(_)));
    assert_eq!(delivery.stage(), Stage::Bundle);
    let (delivery, step) = delivery.next(false);
    assert_eq!(step, Step::Failed);
    assert_eq!(delivery.stage(), Stage::Failed);
    let (delivery, step) = delivery.next(true);
    assert_eq!(step, Step::Failed);
    let (delivery, step) = delivery.next(false);
    assert_eq!(step, Step::Failed);
    assert_eq!(delivery.stage(), Stage::Failed);

    let (delivery, _) = Delivery::start(bundle(vec![], false, None), None);
    let (delivery, step) = delivery.next(true);
    assert_eq!(step, Step::Done(Outcome::Delivered));
    let (delivery, step) = delivery.next(false);
    assert_eq!(step, Step::Done(Outcome::Delivered));
    assert_eq!(delivery.stage(), Stage::Finished(Outcome::Delivered));
}

#[test]
fn stages_of_the_ladder() {
    let response = bundle(vec![rendition("https://v/1"), rendition("https://v/2")], true, None);
    let (delivery, _) = Delivery::start(response, None);
    let (delivery, _) = delivery.next(false);
    assert_eq!(delivery.stage(), Stage::Variant { index: 0, delivered: false });
    let (delivery, _) = delivery.next(false);
    assert_eq!(delivery.stage(), Stage::Variant { index: 1, delivered: false });
    let (delivery, _) = delivery.next(false);
    assert_eq!(delivery.stage(), Stage::Link);
    let (delivery, _) = delivery.next(false);
    assert_eq!(delivery.stage(), Stage::Finished(Outcome::DegradedFailed));
}

#[test]
fn sends_never_exceed_the_variants_and_two() {
    for n in 0..4usize {
        let variants: Vec<Variant> = (0..n).map(|k| rendition(&format!("https://v/{}", k))).collect();
        let answers = vec![false; n + 2];
        let response = bundle(variants, true, Some(control()));
        let (mut delivery, mut step) = Delivery::start(response, None);
        let mut sends = 0;
        let mut k = 0;
        while let Step::Send(_) = step {
            sends += 1;
            let next = delivery.next(answers[k]);
            delivery = next.0;
            step = next.1;
            k += 1;
        }
        assert!(sends <= n + 2);
        assert_eq!(step, Step::Done(Outcome::DegradedFailed));
    }
}
