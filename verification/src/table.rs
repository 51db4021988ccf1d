//! A model of the subscriber table: the records that the store holds and
//! the answers that it gives once the schema is in place, and what follows
//! from them for a caller who adds, looks up and deletes subscribers. The
//! store itself is reached by the caller; what is proved here holds of a
//! store that behaves as the model says.

use crate::error::AppError;
use crate::error::EMAIL_INDEX;
use crate::models::subscriber::Subscriber;
use crate::storage::insert_outcome;
use crate::storage::lookup_outcome;
use crate::text::mentions;
use surrealdb::sql::Thing;
use vstd::prelude::*;

verus! {

/// The records of the subscriber table, each under its identity.
pub struct Table {
    pub rows: Map<Thing, Subscriber>,
}

impl Table {
    /// The table without a record.
    pub open spec fn empty() -> Table {
        Table { rows: Map::empty() }
    }

    /// `record` is a record of the table.
    pub open spec fn holds(self, record: Subscriber) -> bool {
        self.rows.dom().contains(record.id) && self.rows[record.id] == record
    }

    /// Some record of the table has the email address `email`.
    pub open spec fn holds_email(self, email: Seq<char>) -> bool {
        exists|id: Thing| #[trigger] self.rows.dom().contains(id) && self.rows[id].email@ == email
    }

    /// Every record stands under its own identity, and no two records share
    /// an email address.
    pub open spec fn well_formed(self) -> bool {
        &&& forall|id: Thing| #[trigger] self.rows.dom().contains(id) ==> self.rows[id].id == id
        &&& forall|a: Thing, b: Thing|
            #![trigger self.rows.dom().contains(a), self.rows.dom().contains(b)]
            self.rows.dom().contains(a) && self.rows.dom().contains(b) && self.rows[a].email@
                == self.rows[b].email@ ==> a == b
    }

    /// The store, at work, is asked to create `record`, answers `reply` and
    /// then holds `after`. An identity that is taken is refused. An email
    /// address that is taken is refused by the email index, and the
    /// description of the failure names that index. Any other record is
    /// stored and handed back, unless the store turns it down for another
    /// reason, such as an email address that is none. A refusal leaves the
    /// table as it was.
    pub open spec fn create(
        self,
        record: Subscriber,
        reply: Result<Option<Subscriber>, String>,
        after: Table,
    ) -> bool {
        if self.rows.dom().contains(record.id) {
            reply is Err && after == self
        } else if self.holds_email(record.email@) {
            &&& reply matches Err(description)
            &&& mentions(description@, EMAIL_INDEX@)
            &&& after == self
        } else {
            ||| reply == Ok::<Option<Subscriber>, String>(Some(record)) && after.rows
                == self.rows.insert(record.id, record)
            ||| reply is Err && after == self
        }
    }

    /// The store is asked for the records with the email address `email`
    /// and answers `rows`: each such record of the table once, and nothing
    /// else.
    pub open spec fn select(self, email: Seq<char>, rows: Seq<Subscriber>) -> bool {
        &&& rows.no_duplicates()
        &&& forall|row: Subscriber| #[trigger]
            rows.contains(row) <==> self.holds(row) && row.email@ == email
    }

    /// The table after the store was asked to delete the record with the
    /// identity `id`: without that record, and as it was if there was none.
    pub open spec fn delete(self, id: Thing) -> Table {
        Table { rows: self.rows.remove(id) }
    }

    /// The empty table is well formed.
    pub proof fn lemma_empty_well_formed()
        ensures
            Table::empty().well_formed(),
    {
    }

    /// Creating a record keeps the table well formed: the email index lets
    /// no second record with an email address in.
    pub proof fn lemma_create_keeps_well_formed(
        self,
        record: Subscriber,
        reply: Result<Option<Subscriber>, String>,
        after: Table,
    )
        requires
            self.well_formed(),
            self.create(record, reply, after),
        ensures
            after.well_formed(),
    {
        if after != self {
            assert(after.rows == self.rows.insert(record.id, record));
            assert forall|a: Thing, b: Thing|
                #![trigger after.rows.dom().contains(a), after.rows.dom().contains(b)]
                after.rows.dom().contains(a) && after.rows.dom().contains(b) && after.rows[a].email@
                    == after.rows[b].email@ implies a == b by {
                if a != b {
                    if a == record.id {
                        assert(self.rows.dom().contains(b));
                    } else if b == record.id {
                        assert(self.rows.dom().contains(a));
                    }
                }
            }
        }
    }

    /// Deleting a record keeps the table well formed.
    pub proof fn lemma_delete_keeps_well_formed(self, id: Thing)
        requires
            self.well_formed(),
        ensures
            self.delete(id).well_formed(),
    {
    }

    /// An email address is subscribed at most once: where the table holds
    /// an email address, adding a subscriber with that address under an
    /// identity of its own fails with `EmailAlreadyExists`, and the table
    /// stays as it was.
    pub proof fn lemma_taken_email_is_refused(
        self,
        record: Subscriber,
        reply: Result<Option<Subscriber>, String>,
        after: Table,
    )
        requires
            self.holds_email(record.email@),
            !self.rows.dom().contains(record.id),
            self.create(record, reply, after),
        ensures
            insert_outcome(reply) == Err::<Subscriber, AppError>(AppError::EmailAlreadyExists),
            after == self,
    {
    }

    /// Of two additions with one email address, whichever comes first, the
    /// later one fails with `EmailAlreadyExists` once the earlier one has
    /// succeeded.
    pub proof fn lemma_second_addition_is_refused(
        self,
        first: Subscriber,
        first_reply: Result<Option<Subscriber>, String>,
        between: Table,
        second: Subscriber,
        second_reply: Result<Option<Subscriber>, String>,
        after: Table,
    )
        requires
            first.email@ == second.email@,
            first.id != second.id,
            !self.rows.dom().contains(second.id),
            self.create(first, first_reply, between),
            between.create(second, second_reply, after),
            insert_outcome(first_reply) is Ok,
        ensures
            insert_outcome(second_reply) == Err::<Subscriber, AppError>(
                AppError::EmailAlreadyExists,
            ),
            after == between,
    {
        assert(between.rows == self.rows.insert(first.id, first));
        assert(between.rows.dom().contains(first.id));
        assert(between.holds_email(second.email@));
        between.lemma_taken_email_is_refused(second, second_reply, after);
    }

    /// Looking up an email address that no record of the table has fails
    /// with `UserNotFound`.
    pub proof fn lemma_unknown_email_is_not_found(self, email: Seq<char>, rows: Seq<Subscriber>)
        requires
            !self.holds_email(email),
            self.select(email, rows),
        ensures
            lookup_outcome(rows) == Err::<Subscriber, AppError>(AppError::UserNotFound),
    {
        if rows.len() > 0 {
            assert(rows.contains(rows[0]));
            assert(self.rows.dom().contains(rows[0].id));
        }
    }

    /// Where the table holds `record` and no other record with its email
    /// address, looking up that address gives `record`.
    pub proof fn lemma_held_record_is_found(self, record: Subscriber, rows: Seq<Subscriber>)
        requires
            self.well_formed(),
            self.holds(record),
            self.select(record.email@, rows),
        ensures
            lookup_outcome(rows) == Ok::<Subscriber, AppError>(record),
    {
        assert(rows.contains(record));
        assert(rows.contains(rows[0]));
        assert(self.rows.dom().contains(rows[0].id));
    }

    /// A subscriber that was added is found by its email address, with the
    /// record that the addition returned.
    pub proof fn lemma_added_subscriber_is_found(
        self,
        record: Subscriber,
        reply: Result<Option<Subscriber>, String>,
        after: Table,
        rows: Seq<Subscriber>,
    )
        requires
            self.well_formed(),
            self.create(record, reply, after),
            insert_outcome(reply) is Ok,
            after.select(record.email@, rows),
        ensures
            insert_outcome(reply) == Ok::<Subscriber, AppError>(record),
            lookup_outcome(rows) == Ok::<Subscriber, AppError>(record),
    {
        self.lemma_create_keeps_well_formed(record, reply, after);
        assert(after.rows == self.rows.insert(record.id, record));
        assert(after.holds(record));
        after.lemma_held_record_is_found(record, rows);
    }

    /// After a subscriber was deleted, looking up its email address fails
    /// with `UserNotFound`, provided that no other record of the table had
    /// that address.
    pub proof fn lemma_deleted_subscriber_is_not_found(
        self,
        subscriber: Subscriber,
        rows: Seq<Subscriber>,
    )
        requires
            forall|id: Thing| #[trigger]
                self.rows.dom().contains(id) && self.rows[id].email@ == subscriber.email@ ==> id
                    == subscriber.id,
            self.delete(subscriber.id).select(subscriber.email@, rows),
        ensures
            lookup_outcome(rows) == Err::<Subscriber, AppError>(AppError::UserNotFound),
    {
        let after = self.delete(subscriber.id);
        assert(!after.holds_email(subscriber.email@)) by {
            if after.holds_email(subscriber.email@) {
                let id = choose|id: Thing| #[trigger]
                    after.rows.dom().contains(id) && after.rows[id].email@ == subscriber.email@;
                assert(self.rows.dom().contains(id));
            }
        }
        after.lemma_unknown_email_is_not_found(subscriber.email@, rows);
    }
}

} // verus!
