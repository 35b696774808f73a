//! What a fetch leads to: the response that is handed to the delivery.

use vstd::prelude::*;
use crate::plan::{classify, plan_of, DeliveryPlan, DeliveryPlanView};
use crate::post::{Post, PostView};

verus! {

/// How the fetch of a post ended.
#[derive(Clone, Debug, PartialEq, Eq)]
pub enum FetchOutcome {
    /// The post was fetched.
    Found(Post),
    /// There is no such post.
    NotFound,
    /// The content service throttles its callers.
    RateLimited,
    /// The content service refuses the credentials or the request.
    Unauthorized,
}

/// The view of a [`FetchOutcome`].
pub enum FetchOutcomeView {
    Found(PostView),
    NotFound,
    RateLimited,
    Unauthorized,
}

impl View for FetchOutcome {
    type V = FetchOutcomeView;

    open spec fn view(&self) -> FetchOutcomeView {
        match self {
            FetchOutcome::Found(post) => FetchOutcomeView::Found(post@),
            FetchOutcome::NotFound => FetchOutcomeView::NotFound,
            FetchOutcome::RateLimited => FetchOutcomeView::RateLimited,
            FetchOutcome::Unauthorized => FetchOutcomeView::Unauthorized,
        }
    }
}

/// What is to reach the user for one reference to a post.
#[derive(Clone, Debug, PartialEq, Eq)]
pub enum Response {
    /// The post, by this plan.
    Deliver(DeliveryPlan),
    /// A neutral notice that the post was not found.
    NotFound,
    /// A notice to try again later.
    RateLimited,
    /// Nothing: the user is not told of credential or policy failures.
    Unauthorized,
    /// Nothing: the reference names no post.
    Nothing,
}

/// The view of a [`Response`].
pub enum ResponseView {
    Deliver(DeliveryPlanView),
    NotFound,
    RateLimited,
    Unauthorized,
    Nothing,
}

impl View for Response {
    type V = ResponseView;

    open spec fn view(&self) -> ResponseView {
        match self {
            Response::Deliver(plan) => ResponseView::Deliver(plan@),
            Response::NotFound => ResponseView::NotFound,
            Response::RateLimited => ResponseView::RateLimited,
            Response::Unauthorized => ResponseView::Unauthorized,
            Response::Nothing => ResponseView::Nothing,
        }
    }
}

/// The response to a fetch: a fetched post is classified, every other
/// outcome is passed on as it is.
pub open spec fn response_to(outcome: FetchOutcomeView) -> ResponseView {
    match outcome {
        FetchOutcomeView::Found(post) => ResponseView::Deliver(plan_of(post)),
        FetchOutcomeView::NotFound => ResponseView::NotFound,
        FetchOutcomeView::RateLimited => ResponseView::RateLimited,
        FetchOutcomeView::Unauthorized => ResponseView::Unauthorized,
    }
}

/// The fetch `outcome` with the next position of a fetched post set to
/// `next_index`.
pub open spec fn positioned(outcome: FetchOutcomeView, next_index: u16) -> FetchOutcomeView {
    match outcome {
        FetchOutcomeView::Found(post) => FetchOutcomeView::Found(PostView { next_index, ..post }),
        _ => outcome,
    }
}

/// Turns the outcome of a fetch into the response to deliver.
pub fn respond(outcome: FetchOutcome) -> (response: Response)
    ensures
        response@ == response_to(outcome@),
{
    match outcome {
        FetchOutcome::Found(post) => Response::Deliver(classify(&post)),
        FetchOutcome::NotFound => Response::NotFound,
        FetchOutcome::RateLimited => Response::RateLimited,
        FetchOutcome::Unauthorized => Response::Unauthorized,
    }
}

/// Turns the outcome of a fetch into the response to deliver, for a post that
/// stands in a thread just before the position `next_index`.
pub fn respond_at(outcome: FetchOutcome, next_index: u16) -> (response: Response)
    ensures
        response@ == response_to(positioned(outcome@, next_index)),
{
    match outcome {
        FetchOutcome::Found(post) => {
            let mut post = post;
            post.set_next_index(next_index);
            Response::Deliver(classify(&post))
        },
        FetchOutcome::NotFound => Response::NotFound,
        FetchOutcome::RateLimited => Response::RateLimited,
        FetchOutcome::Unauthorized => Response::Unauthorized,
    }
}

} // verus!
