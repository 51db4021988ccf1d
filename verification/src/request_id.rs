//! The identifiers that number the requests: how they are issued, and how
//! the one that a request carries is read.

use crate::text::numeral;
use crate::text::decimal_string;
use crate::text::parse_u64;
use crate::text::parsed_u64;
use std::sync::atomic::AtomicU64;
use std::sync::atomic::Ordering;
use std::sync::Arc;
use vstd::prelude::*;

verus! {

/// Name of the header that carries the identifier of a request.
pub const REQUEST_ID_HEADER: &'static str = "x-request-id";

/// The identifier that a request carries in its header: the number that the
/// header's value stands for, and 0 where the header is missing or its value
/// is no numeral of 64 bits.
pub open spec fn request_id(header: Option<&str>) -> u64 {
    match header {
        Some(value) => match parsed_u64(value@) {
            Some(id) => id,
            None => 0,
        },
        None => 0,
    }
}

/// Reads the identifier of a request from the value of its header.
pub fn get_req_id(header: Option<&str>) -> (id: u64)
    ensures
        id == request_id(header),
{
    match header {
        Some(value) => match parse_u64(value) {
            Some(id) => id,
            None => 0,
        },
        None => 0,
    }
}

/// Issues the identifiers of requests from a counter that all its clones
/// share.
#[derive(Clone)]
pub struct MyMakeRequestId {
    counter: Arc<AtomicU64>,
}

impl Default for MyMakeRequestId {
    /// A source of identifiers whose counter stands at 0.
    fn default() -> MyMakeRequestId {
        MyMakeRequestId { counter: Arc::new(AtomicU64::new(0)) }
    }
}

impl MyMakeRequestId {
    /// The identifier for the next request: the count so far as a decimal
    /// numeral. The counter moves on by one, and starts again at 0 after the
    /// greatest number of 64 bits.
    pub fn make_request_id(&self) -> (id: String)
        ensures
            exists|count: u64| id@ == numeral(count),
    {
        let count = self.counter.fetch_add(1, Ordering::SeqCst);
        decimal_string(count)
    }
}

/// An identifier that was issued for the count `count` is read back as
/// `count`.
pub proof fn lemma_issued_id_is_read_back(count: u64, id: &str)
    requires
        id@ == numeral(count),
    ensures
        request_id(Some(id)) == count,
{
    crate::text::lemma_decimal_round_trip(count);
}

} // verus!
