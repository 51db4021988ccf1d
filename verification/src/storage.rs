//! The conversation with the store that keeps the subscribers: what it is
//! sent, and what each of its answers means. The calls themselves are made
//! by the caller.

use crate::error::classify_insert_failure;
use crate::error::AppError;
use crate::error::EMAIL_INDEX;
use crate::models::subscriber::FormData;
use crate::models::subscriber::Subscriber;
use crate::text::mentions;
use crate::text::occurs_at;
use crate::validator::valid_name;
use surrealdb::sql::Thing;
use vstd::prelude::*;
use vstd::string::StringExecFns;

verus! {

/// Namespace of the store that the service works in.
pub const NAMESPACE: &'static str = "zero2prod";

/// Database of that namespace that the service works in.
pub const DATABASE: &'static str = "newsletter";

/// The statement that selects the subscribers with one email address, which
/// its parameter stands for.
pub const LOOKUP_STATEMENT: &'static str = "SELECT * FROM subscriber WHERE email == $email;";

/// The name of the parameter of `LOOKUP_STATEMENT`.
pub const LOOKUP_PARAMETER: &'static str = "email";

/// The number of statements that define the schema.
pub const SCHEMA_LENGTH: usize = 5;

/// A failure that the store or its driver reports.
#[verifier::external_type_specification]
#[verifier::external_body]
pub struct ExStoreError(surrealdb::Error);

/// The description of `failure` that `surrealdb::Error` gives through
/// `Display`. Nothing is claimed of the text.
#[verifier::external_body]
fn describe(failure: &surrealdb::Error) -> String {
    failure.to_string()
}

/// The statements that define the schema, in the order in which they are
/// applied: the table, its three fields, and the index that keeps email
/// addresses unique.
pub open spec fn schema() -> Seq<Seq<char>> {
    seq![
        "DEFINE TABLE subscriber SCHEMAFULL;"@,
        "DEFINE FIELD username ON TABLE subscriber TYPE string;"@,
        "DEFINE FIELD email ON TABLE subscriber TYPE string ASSERT string::is::email($value);"@,
        "DEFINE FIELD subscribed_at ON TABLE subscriber TYPE datetime;"@,
        "DEFINE INDEX userEmailIndex ON TABLE subscriber COLUMNS email UNIQUE;"@,
    ]
}

/// The index by whose name a second subscription with one email address is
/// told apart is the one that the last statement of the schema defines.
pub proof fn lemma_schema_defines_email_index()
    ensures
        mentions(schema()[SCHEMA_LENGTH - 1], EMAIL_INDEX@),
{
    reveal_strlit("DEFINE INDEX userEmailIndex ON TABLE subscriber COLUMNS email UNIQUE;");
    reveal_strlit("userEmailIndex");
    let statement = schema()[SCHEMA_LENGTH - 1];
    assert(statement.subrange(13, 27) =~= EMAIL_INDEX@);
    assert(occurs_at(statement, EMAIL_INDEX@, 13));
}

/// What the store is asked when a subscriber is looked up: a statement with
/// one parameter, and the email address that the parameter stands for. The
/// address is handed over as a value, never as part of the statement's
/// text, so that every address is looked up as it is.
#[derive(Debug, Clone)]
pub struct Lookup {
    /// The statement to run.
    pub statement: &'static str,
    /// The name of the statement's parameter.
    pub parameter: &'static str,
    /// The email address to bind the parameter to.
    pub email: String,
}

/// What the answer to an insert means: the stored record, or the kind of
/// failure. An answer without a record is a failure of the store.
pub open spec fn insert_outcome(reply: Result<Option<Subscriber>, String>) -> Result<
    Subscriber,
    AppError,
> {
    match reply {
        Ok(Some(stored)) => Ok(stored),
        Ok(None) => Err(AppError::DatabaseError),
        Err(description) => Err(crate::error::insert_failure(description@)),
    }
}

/// What the rows that a lookup found mean: the first of them, or
/// `UserNotFound` where there is none.
pub open spec fn lookup_outcome(rows: Seq<Subscriber>) -> Result<Subscriber, AppError> {
    if rows.len() == 0 {
        Err(AppError::UserNotFound)
    } else {
        Ok(rows[0])
    }
}

/// The progress of applying the schema to the store.
#[derive(Debug, Clone, Copy)]
pub struct SchemaInitializer {
    applied: usize,
}

/// The store with its schema in place: the only value through which
/// subscribers are added, looked up and deleted.
#[derive(Debug, Clone, Copy)]
pub struct Storage {
    schema: SchemaInitializer,
}

impl SchemaInitializer {
    #[verifier::type_invariant]
    spec fn within_schema(self) -> bool {
        self.applied <= SCHEMA_LENGTH
    }

    /// The number of statements of the schema that the store has applied.
    pub closed spec fn applied(self) -> nat {
        self.applied as nat
    }

    /// Whether the whole schema is in place.
    pub open spec fn complete(self) -> bool {
        self.applied() == SCHEMA_LENGTH
    }

    /// The statement to apply next, or `None` once the schema is in place.
    pub fn next_statement(&self) -> (next: Option<&'static str>)
        ensures
            self.complete() <==> next is None,
            next matches Some(statement) ==> statement@ == schema()[self.applied() as int],
    {
        proof {
            use_type_invariant(self);
        }
        if self.applied == 0 {
            Some("DEFINE TABLE subscriber SCHEMAFULL;")
        } else if self.applied == 1 {
            Some("DEFINE FIELD username ON TABLE subscriber TYPE string;")
        } else if self.applied == 2 {
            Some(
                "DEFINE FIELD email ON TABLE subscriber TYPE string ASSERT string::is::email($value);",
            )
        } else if self.applied == 3 {
            Some("DEFINE FIELD subscribed_at ON TABLE subscriber TYPE datetime;")
        } else if self.applied == 4 {
            Some("DEFINE INDEX userEmailIndex ON TABLE subscriber COLUMNS email UNIQUE;")
        } else {
            None
        }
    }

    /// Takes note of how the store answered the statement that
    /// `next_statement` gave. After a success the statement counts as
    /// applied; a failure ends the initialisation.
    pub fn statement_applied(self, outcome: Result<(), surrealdb::Error>) -> (next: Result<
        SchemaInitializer,
        AppError,
    >)
        ensures
            match outcome {
                Ok(_) => next matches Ok(after) && after.applied() == if self.complete() {
                    self.applied()
                } else {
                    self.applied() + 1
                },
                Err(_) => next matches Err(AppError::Custom(_)),
            },
    {
        match outcome {
            Ok(_) => Ok(self.advance()),
            Err(failure) => Err(AppError::Custom(describe(&failure))),
        }
    }

    /// The initialiser after one more statement was applied; the same once
    /// the schema is in place.
    pub fn advance(self) -> (after: SchemaInitializer)
        ensures
            after.applied() == if self.complete() {
                self.applied()
            } else {
                self.applied() + 1
            },
    {
        proof {
            use_type_invariant(self);
        }
        if self.applied < SCHEMA_LENGTH {
            SchemaInitializer { applied: self.applied + 1 }
        } else {
            self
        }
    }

    /// The store, once the whole schema is in place; `None` before that.
    pub fn finish(self) -> (store: Option<Storage>)
        ensures
            store is Some <==> self.complete(),
    {
        if self.applied == SCHEMA_LENGTH {
            Some(Storage { schema: self })
        } else {
            None
        }
    }
}

impl Storage {
    #[verifier::type_invariant]
    spec fn schema_in_place(self) -> bool {
        self.schema.complete()
    }

    /// The initialisation that this store stands on: it is complete.
    pub fn initializer(&self) -> (done: SchemaInitializer)
        ensures
            done.complete(),
    {
        proof {
            use_type_invariant(self);
        }
        self.schema
    }

    /// Begins the initialisation of the store: no statement of the schema
    /// has been applied yet.
    pub fn init() -> (start: SchemaInitializer)
        ensures
            start.applied() == 0,
    {
        SchemaInitializer { applied: 0 }
    }

    /// The record to insert for the subscriber that `input` asks for, with a
    /// fresh identity and the current time; `InvalidName`, and nothing to
    /// insert, if the name breaks a rule for names.
    pub fn add_subscriber(&self, input: FormData) -> (record: Result<Subscriber, AppError>)
        ensures
            match record {
                Ok(subscriber) => valid_name(input.name@) && subscriber.email == input.email
                    && subscriber.username == input.name,
                Err(e) => !valid_name(input.name@) && e == AppError::InvalidName,
            },
    {
        Subscriber::try_from(input)
    }

    /// What the store's answer to an insert means, the failure given by its
    /// description.
    pub fn inserted(&self, reply: Result<Option<Subscriber>, String>) -> (outcome: Result<
        Subscriber,
        AppError,
    >)
        ensures
            outcome == insert_outcome(reply),
    {
        match reply {
            Ok(Some(stored)) => Ok(stored),
            Ok(None) => Err(AppError::DatabaseError),
            Err(description) => Err(classify_insert_failure(description.as_str())),
        }
    }

    /// What the store's answer to an insert means: the stored record;
    /// `EmailAlreadyExists` where the store reports that the email index
    /// refused the record; `DatabaseError` for any other failure, and for an
    /// answer without a record.
    pub fn subscriber_added(&self, reply: Result<Option<Subscriber>, surrealdb::Error>) -> (outcome:
        Result<Subscriber, AppError>)
        ensures
            match reply {
                Ok(Some(stored)) => outcome == Ok::<Subscriber, AppError>(stored),
                Ok(None) => outcome == Err::<Subscriber, AppError>(AppError::DatabaseError),
                Err(_) => outcome == Err::<Subscriber, AppError>(AppError::EmailAlreadyExists)
                    || outcome == Err::<Subscriber, AppError>(AppError::DatabaseError),
            },
    {
        match reply {
            Ok(stored) => self.inserted(Ok(stored)),
            Err(failure) => self.inserted(Err(describe(&failure))),
        }
    }

    /// What to ask the store in order to look up the subscriber with the
    /// email address `email`.
    pub fn get_subscriber_by_email(&self, email: &str) -> (lookup: Lookup)
        ensures
            lookup.statement@ == LOOKUP_STATEMENT@,
            lookup.parameter@ == LOOKUP_PARAMETER@,
            lookup.email@ == email@,
    {
        Lookup {
            statement: LOOKUP_STATEMENT,
            parameter: LOOKUP_PARAMETER,
            email: String::from_str(email),
        }
    }

    /// What the store's answer to a lookup means: the first row found;
    /// `UserNotFound` where no row matched; `DatabaseError` where the store
    /// failed.
    pub fn subscriber_found(&self, reply: Result<Vec<Subscriber>, surrealdb::Error>) -> (outcome:
        Result<Subscriber, AppError>)
        ensures
            match reply {
                Ok(rows) => outcome == lookup_outcome(rows@),
                Err(_) => outcome == Err::<Subscriber, AppError>(AppError::DatabaseError),
            },
    {
        match reply {
            Ok(rows) => {
                if rows.len() == 0 {
                    Err(AppError::UserNotFound)
                } else {
                    Ok(rows[0].clone())
                }
            },
            Err(_) => Err(AppError::DatabaseError),
        }
    }

    /// The identity of the record to delete for `subscriber`.
    pub fn delete_subscriber(&self, subscriber: Subscriber) -> (id: Thing)
        ensures
            id == subscriber.id,
    {
        subscriber.id
    }

    /// What the store's answer to a delete means: success whether or not a
    /// record was there, `DatabaseError` where the store failed.
    pub fn subscriber_deleted(&self, reply: Result<Option<Subscriber>, surrealdb::Error>) -> (outcome:
        Result<(), AppError>)
        ensures
            outcome == match reply {
                Ok(_) => Ok::<(), AppError>(()),
                Err(_) => Err::<(), AppError>(AppError::DatabaseError),
            },
    {
        match reply {
            Ok(_) => Ok(()),
            Err(_) => Err(AppError::DatabaseError),
        }
    }
}

} // verus!
