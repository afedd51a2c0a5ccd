//! Typed client for a remote financial-data HTTP API: the client handle that
//! per-resource modules build their URLs from, and the decisions of the shared
//! request pipeline (how each outcome of a GET is classified).

mod client;
mod pipeline;

pub use client::Client;
pub use pipeline::{
    conforming_body_is_delivered, fetch_outcome, malformed_body_depends_on_mode,
    other_status_is_the_failure, reply_outcome, same_reply_same_outcome, transport_error_is_classified,
    BodyReport, BodyStage, Pipeline, Reply, BAD_REQUEST, INTERNAL_SERVER_ERROR, OK,
};
