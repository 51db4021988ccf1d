//! A subscription request and the record kept of a subscriber.

use crate::error::AppError;
use crate::validator::valid_name;
use crate::validator::validate_name;
use surrealdb::sql::Datetime;
use surrealdb::sql::Id;
use surrealdb::sql::Thing;
use vstd::prelude::*;

verus! {

/// Name of the table that holds the subscribers.
pub const SUBSCRIBER_TABLE: &'static str = "subscriber";

/// The identifier of a record of the store: a table and a key in it.
#[verifier::external_type_specification]
#[verifier::external_body]
pub struct ExThing(Thing);

/// A point in time as the store records it.
#[verifier::external_type_specification]
#[verifier::external_body]
pub struct ExDatetime(Datetime);

/// A subscription request as it was submitted, unchecked.
#[derive(Debug, Clone)]
pub struct FormData {
    pub email: String,
    pub name: String,
}

/// The record of one subscriber.
#[derive(Debug)]
pub struct Subscriber {
    /// Identity of the record, given at creation.
    pub id: Thing,
    pub email: String,
    pub username: String,
    /// When the record was created.
    pub subscribed_at: Datetime,
}

/// `Clone::clone` of `surrealdb::sql::Thing`, which the crate derives: the
/// copy is the same identifier.
pub assume_specification[ <Thing as Clone>::clone ](this: &Thing) -> (copy: Thing)
    ensures
        copy == *this,
;

/// `Clone::clone` of `surrealdb::sql::Datetime`, which the crate derives: the
/// copy is the same point in time.
pub assume_specification[ <Datetime as Clone>::clone ](this: &Datetime) -> (copy: Datetime)
    ensures
        copy == *this,
;

impl Clone for Subscriber {
    fn clone(&self) -> (copy: Subscriber)
        ensures
            copy == *self,
    {
        Subscriber {
            id: self.id.clone(),
            email: self.email.clone(),
            username: self.username.clone(),
            subscribed_at: self.subscribed_at.clone(),
        }
    }
}

/// Makes the identifier of a new record of `table`, its key a UUID that
/// `surrealdb::sql::Id::uuid` draws. Nothing is claimed of the identifier:
/// it differs from call to call.
#[verifier::external_body]
fn fresh_id(table: &str) -> Thing {
    Thing { tb: table.to_owned(), id: Id::uuid() }
}

/// Reads the clock with `chrono::Utc::now`, as a value of
/// `surrealdb::sql::Datetime`. Nothing is claimed of the time read.
#[verifier::external_body]
fn now() -> Datetime {
    Datetime(chrono::Utc::now())
}

impl Subscriber {
    /// The record of the subscriber that `value` asks for, under the identity
    /// `id` and created at `subscribed_at`. The name is not judged here.
    pub fn new(value: FormData, id: Thing, subscribed_at: Datetime) -> (made: Subscriber)
        ensures
            made == (Subscriber { id, email: value.email, username: value.name, subscribed_at }),
    {
        Subscriber { id, email: value.email, username: value.name, subscribed_at }
    }

    /// The record of a new subscriber as `value` asks for it, with a fresh
    /// identity and the current time; `InvalidName` if the name breaks a rule
    /// for names.
    pub fn try_from(value: FormData) -> (made: Result<Subscriber, AppError>)
        ensures
            match made {
                Ok(subscriber) => valid_name(value.name@) && subscriber.email == value.email
                    && subscriber.username == value.name,
                Err(e) => !valid_name(value.name@) && e == AppError::InvalidName,
            },
    {
        if validate_name(value.name.as_str()) {
            Ok(Subscriber::new(value, fresh_id(SUBSCRIBER_TABLE), now()))
        } else {
            Err(AppError::InvalidName)
        }
    }
}

} // verus!
