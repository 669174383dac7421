//! The outside types a session is built on, and what is taken on trust of
//! them.
//!
//! A session feeds a `tokio::sync::mpsc` channel of `actix_http::ws::Message`
//! values. Nothing here looks inside those types: a session carries its
//! endpoint and hands it to the caller, who makes the push.

use std::sync::atomic::AtomicBool;
use std::sync::Arc;

use actix_http::ws::Message;
use tokio::sync::mpsc::error::SendError;
use tokio::sync::mpsc::Sender;
use vstd::prelude::*;

verus! {

/// `tokio::sync::mpsc::Sender`, the send endpoint of a bounded channel.
#[verifier::external_type_specification]
#[verifier::external_body]
#[verifier::reject_recursive_types(T)]
pub struct ExSender<T>(Sender<T>);

/// `tokio::sync::mpsc::error::SendError`, the error of `Sender::send`: the
/// receive endpoint is closed or dropped.
#[verifier::external_type_specification]
#[verifier::external_body]
#[verifier::reject_recursive_types(T)]
pub struct ExSendError<T>(SendError<T>);

/// `actix_http::ws::Message`, the item the channel carries.
#[verifier::external_type_specification]
#[verifier::external_body]
pub struct ExMessage(Message);

/// `Clone::clone` of `tokio::sync::mpsc::Sender`: one more endpoint. Nothing
/// is claimed of it.
pub assume_specification<T>[ <Sender<T> as Clone>::clone ](endpoint: &Sender<T>) -> (twin: Sender<
    T,
>)
;

/// `Arc::clone` on a session's flag: another pointer to the same allocation,
/// so the two point to one and the same flag.
#[verifier::external_body]
pub(crate) fn share(flag: &Arc<AtomicBool>) -> (shared: Arc<AtomicBool>)
    ensures
        shared == *flag,
{
    Arc::clone(flag)
}

} // verus!
