//! Relay engine for social posts with media: classification of a fetched post
//! into a delivery plan, the delivery ladder with its degraded tiers, and the
//! codec of the interaction tokens that carry thread pagination.

pub mod controller;
pub mod course;
pub mod decimal;
pub mod delivery;
pub mod intake;
pub mod plan;
pub mod post;
pub mod response;
pub mod text;
pub mod token;
