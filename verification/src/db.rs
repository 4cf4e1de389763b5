//! The persistent store: a SQLite table of timer records, reached through
//! rusqlite.
//!
//! The table's contents are modelled as a sequence of [`TimerModel`] values
//! in storage order, left abstract by [`conn_rows`]. Each trusted wrapper
//! states, over that model, what its single SQL statement does to the table;
//! everything else in this module is verified against those contracts. The
//! model presumes the access discipline of the single-threaded dispatcher:
//! one process, one connection, so the table changes only through this
//! store's own statements.

use vstd::prelude::*;
use crate::errors::TimerError;
use crate::timer::{Timer, TimerModel};

verus! {

#[verifier::external_type_specification]
#[verifier::external_body]
pub struct ExConnection(rusqlite::Connection);

/// The rows of the timers table behind a connection, in storage order.
/// Left abstract: the wrappers below state how each statement changes it.
pub uninterp spec fn conn_rows(c: rusqlite::Connection) -> Seq<TimerModel>;

/// A row after `UPDATE ... SET duration, running WHERE id`: touched exactly
/// when its id matches.
pub open spec fn updated_model(m: TimerModel, id: int, duration_s: int, running: bool) -> TimerModel {
    if m.id == id {
        TimerModel { duration_s, running, ..m }
    } else {
        m
    }
}

/// The whole table after `UPDATE ... SET duration, running WHERE id`.
pub open spec fn rows_updated(rows: Seq<TimerModel>, id: int, duration_s: int, running: bool) -> Seq<TimerModel> {
    Seq::new(rows.len(), |i: int| updated_model(rows[i], id, duration_s, running))
}

/// A row after `UPDATE ... SET name, description WHERE id`.
pub open spec fn edited_model(m: TimerModel, id: int, name: Seq<char>, description: Seq<char>) -> TimerModel {
    if m.id == id {
        TimerModel { name, description, ..m }
    } else {
        m
    }
}

/// The whole table after `UPDATE ... SET name, description WHERE id`.
pub open spec fn rows_edited(rows: Seq<TimerModel>, id: int, name: Seq<char>, description: Seq<char>) -> Seq<TimerModel> {
    Seq::new(rows.len(), |i: int| edited_model(rows[i], id, name, description))
}

/// How many rows carry the given id.
pub open spec fn count_id(rows: Seq<TimerModel>, id: int) -> nat
    decreases rows.len(),
{
    if rows.len() == 0 {
        0
    } else {
        count_id(rows.drop_last(), id) + if rows.last().id == id { 1nat } else { 0nat }
    }
}

/// The table after `DELETE FROM timers WHERE id`: every row with the id is
/// gone, the rest keep their order.
pub open spec fn rows_without(rows: Seq<TimerModel>, id: int) -> Seq<TimerModel>
    decreases rows.len(),
{
    if rows.len() == 0 {
        rows
    } else if rows.last().id == id {
        rows_without(rows.drop_last(), id)
    } else {
        rows_without(rows.drop_last(), id).push(rows.last())
    }
}

/// The table after persisting the duration and running flag of each record
/// in `ts`, in order.
pub open spec fn apply_updates(rows: Seq<TimerModel>, ts: Seq<Timer>) -> Seq<TimerModel>
    decreases ts.len(),
{
    if ts.len() == 0 {
        rows
    } else {
        rows_updated(
            apply_updates(rows, ts.drop_last()),
            ts.last().id as int,
            ts.last().duration_s as int,
            ts.last().running,
        )
    }
}

/// After persisting some prefix of the records in `ts`, in order: what an
/// interrupted bulk update leaves behind.
pub open spec fn partially_updated(pre: Seq<TimerModel>, post: Seq<TimerModel>, ts: Seq<Timer>) -> bool {
    exists|k: int| 0 <= k <= ts.len() && post == apply_updates(pre, #[trigger] ts.take(k))
}

/// The durable store of timer records: one SQLite database file.
#[derive(Debug)]
pub struct Db {
    pub conn: rusqlite::Connection,
}

impl Db {
    /// The table's contents, in storage order.
    pub open spec fn rows(self) -> Seq<TimerModel> {
        conn_rows(self.conn)
    }

    /// Open or create the database at `path` and make sure the timers table
    /// exists. Relies on rusqlite's `Connection::open` and
    /// `Connection::execute`; a storage failure at initialization is fatal
    /// and aborts, before any interactive state exists.
    #[verifier::external_body]
    pub fn new(path: &str) -> Db {
        let conn = rusqlite::Connection::open(path).expect("Unable to init db");
        conn.execute(
            "CREATE TABLE IF NOT EXISTS timers (id INTEGER PRIMARY KEY AUTOINCREMENT, name TEXT NOT NULL, description TEXT NOT NULL, start_time DATETIME NOT NULL, duration INTEGER NOT NULL, running BOOLEAN NOT NULL)",
            (),
        ).expect("Unable to init db");
        Db { conn }
    }

    /// Persist a fresh record. Relies on rusqlite's `Connection::execute`
    /// (a single INSERT, atomic: on failure the table is unchanged) and
    /// `last_insert_rowid` (the rowid this connection's INSERT assigned,
    /// always positive, and — under AUTOINCREMENT — larger than every rowid
    /// before it, so the new row stands at the end of the id order that
    /// `get_timers_from_db` reads back). The start instant travels as
    /// RFC 3339 text and is parsed back below.
    #[verifier::external_body]
    pub fn add_timer_to_db(&mut self, timer: &mut Timer) -> (r: Result<(), TimerError>)
        requires
            old(timer).wf(),
        ensures
            match r {
                Ok(()) => {
                    &&& *final(timer) == (Timer { id: final(timer).id, ..*old(timer) })
                    &&& final(timer).id >= 1
                    &&& conn_rows(final(self).conn) == conn_rows(old(self).conn).push(final(timer).model())
                },
                Err(e) => {
                    &&& e == TimerError::StorageError
                    &&& *final(timer) == *old(timer)
                    &&& final(self).rows() == old(self).rows()
                },
            },
    {
        let start = chrono::DateTime::from_timestamp(timer.start_time_s, 0).unwrap().to_rfc3339();
        let res = self.conn.execute(
            "INSERT INTO timers (name, description, start_time, duration, running) VALUES (?1, ?2, ?3, ?4, ?5)",
            (&timer.name, &timer.description, &start, timer.duration_s, timer.running),
        );
        match res {
            Ok(_) => { timer.id = self.conn.last_insert_rowid(); Ok(()) }
            Err(_) => Err(TimerError::StorageError),
        }
    }

    /// Read every persisted record, in storage order. Relies on rusqlite's
    /// `Connection::prepare` and `Statement::query_map`, on SQLite's
    /// AUTOINCREMENT assigning strictly increasing rowids — so that ORDER BY
    /// id is insertion order, the order of the model sequence — and on
    /// chrono's RFC 3339 parsing being the inverse of the rendering used by
    /// `add_timer_to_db`; rows this store did not write may abort here, as
    /// may a start instant outside the representable range.
    #[verifier::external_body]
    pub fn get_timers_from_db(&self) -> (r: Result<Vec<Timer>, TimerError>)
        ensures
            match r {
                Ok(v) => {
                    &&& v@.len() == self.rows().len()
                    &&& forall|i: int| 0 <= i < v@.len() ==> v@[i].model() == self.rows()[i]
                },
                Err(e) => e == TimerError::StorageError,
            },
    {
        let sql = "SELECT id, name, description, start_time, duration, running FROM timers ORDER BY id";
        let mut stmt = match self.conn.prepare(sql) {
            Ok(s) => s,
            Err(_) => return Err(TimerError::StorageError),
        };
        let rows = stmt.query_map((), |row| {
            let ts: String = row.get(3)?;
            let start_time_s = chrono::DateTime::parse_from_rfc3339(&ts).unwrap().timestamp();
            Ok(Timer { id: row.get(0)?, name: row.get(1)?, description: row.get(2)?, start_time_s, duration_s: row.get(4)?, running: row.get(5)? })
        });
        match rows.and_then(|it| it.collect::<Result<Vec<Timer>, rusqlite::Error>>()) {
            Ok(v) => Ok(v),
            Err(_) => Err(TimerError::StorageError),
        }
    }

    /// Relies on rusqlite's `Connection::execute` (a single UPDATE of the
    /// duration and running columns, atomic): every row whose id matches
    /// takes the given values, and the count of matching rows comes back.
    #[verifier::external_body]
    fn update_row(&mut self, id: i64, duration_s: i64, running: bool) -> (r: Result<usize, TimerError>)
        ensures
            match r {
                Ok(n) => {
                    &&& final(self).rows() == rows_updated(old(self).rows(), id as int, duration_s as int, running)
                    &&& n == count_id(old(self).rows(), id as int)
                },
                Err(e) => {
                    &&& e == TimerError::StorageError
                    &&& final(self).rows() == old(self).rows()
                },
            },
    {
        match self.conn.execute(
            "UPDATE timers SET duration = ?1, running = ?2 WHERE id = ?3",
            (duration_s, running, id),
        ) {
            Ok(n) => Ok(n),
            Err(_) => Err(TimerError::StorageError),
        }
    }

    /// Relies on rusqlite's `Connection::execute` (a single UPDATE of the
    /// name and description columns, atomic), as `update_row` does.
    #[verifier::external_body]
    fn edit_row(&mut self, id: i64, name: &str, description: &str) -> (r: Result<usize, TimerError>)
        ensures
            match r {
                Ok(n) => {
                    &&& final(self).rows() == rows_edited(old(self).rows(), id as int, name@, description@)
                    &&& n == count_id(old(self).rows(), id as int)
                },
                Err(e) => {
                    &&& e == TimerError::StorageError
                    &&& final(self).rows() == old(self).rows()
                },
            },
    {
        match self.conn.execute(
            "UPDATE timers SET name = ?1, description = ?2 WHERE id = ?3",
            (name, description, id),
        ) {
            Ok(n) => Ok(n),
            Err(_) => Err(TimerError::StorageError),
        }
    }

    /// Relies on rusqlite's `Connection::execute` (a single DELETE, atomic):
    /// every row whose id matches is removed, the rest keep their order, and
    /// the count of removed rows comes back.
    #[verifier::external_body]
    fn delete_row(&mut self, id: i64) -> (r: Result<usize, TimerError>)
        ensures
            match r {
                Ok(n) => {
                    &&& final(self).rows() == rows_without(old(self).rows(), id as int)
                    &&& n == count_id(old(self).rows(), id as int)
                },
                Err(e) => {
                    &&& e == TimerError::StorageError
                    &&& final(self).rows() == old(self).rows()
                },
            },
    {
        match self.conn.execute("DELETE FROM timers WHERE id = ?1", (id,)) {
            Ok(n) => Ok(n),
            Err(_) => Err(TimerError::StorageError),
        }
    }

    /// Relies on rusqlite's `Connection::query_row` (SELECT COUNT(*)): the
    /// number of rows in the table.
    #[verifier::external_body]
    fn count_rows(&self) -> (r: Result<usize, TimerError>)
        ensures
            match r {
                Ok(n) => n == self.rows().len(),
                Err(e) => e == TimerError::StorageError,
            },
    {
        let n: Result<i64, rusqlite::Error> =
            self.conn.query_row("SELECT COUNT(*) FROM timers", (), |row| row.get(0));
        match n {
            Ok(c) => Ok(c as usize),
            Err(_) => Err(TimerError::StorageError),
        }
    }

    /// How many records are persisted.
    pub fn count(&self) -> (r: Result<usize, TimerError>)
        ensures
            match r {
                Ok(n) => n == self.rows().len(),
                Err(e) => e == TimerError::StorageError,
            },
    {
        self.count_rows()
    }

    /// Persist the duration and running flag of every given record, in
    /// order. On an error the records before the failing one have been
    /// persisted; the next tick's write serves as the retry.
    pub fn update_timers_in_db(&mut self, timers: &Vec<Timer>) -> (r: Result<(), TimerError>)
        ensures
            match r {
                Ok(()) => final(self).rows() == apply_updates(old(self).rows(), timers@),
                Err(e) => {
                    &&& e == TimerError::StorageError
                    &&& partially_updated(old(self).rows(), final(self).rows(), timers@)
                },
            },
    {
        let ghost rows0 = self.rows();
        let mut i: usize = 0;
        while i < timers.len()
            invariant
                0 <= i <= timers@.len(),
                rows0 == old(self).rows(),
                self.rows() == apply_updates(rows0, timers@.take(i as int)),
            decreases timers@.len() - i,
        {
            let t = &timers[i];
            let res = self.update_row(t.id, t.duration_s, t.running);
            proof {
                assert(timers@.take(i + 1).drop_last() =~= timers@.take(i as int));
                assert(timers@.take(i + 1).last() == timers@[i as int]);
            }
            match res {
                Ok(_) => {}
                Err(e) => {
                    proof {
                        assert(rows0 == old(self).rows());
                        assert(exists|k: int|
                            0 <= k <= timers@.len() && self.rows() == apply_updates(
                                old(self).rows(),
                                #[trigger] timers@.take(k),
                            )) by {
                            assert(self.rows() == apply_updates(old(self).rows(), timers@.take(i as int)));
                        }
                    }
                    return Err(e);
                }
            }
            i = i + 1;
        }
        proof {
            assert(timers@.take(timers@.len() as int) =~= timers@);
        }
        Ok(())
    }

    /// Persist new name and description for the record with this `timer`'s
    /// id. `NotFoundError` exactly when no row carries that id.
    pub fn edit_timer(&mut self, timer: &Timer, name: &str, description: &str) -> (r: Result<(), TimerError>)
        ensures
            match r {
                Ok(()) => {
                    &&& final(self).rows() == rows_edited(old(self).rows(), timer.id as int, name@, description@)
                    &&& count_id(old(self).rows(), timer.id as int) > 0
                },
                Err(TimerError::NotFoundError) => {
                    &&& count_id(old(self).rows(), timer.id as int) == 0
                    &&& final(self).rows() == old(self).rows()
                },
                Err(TimerError::StorageError) => final(self).rows() == old(self).rows(),
                Err(TimerError::ValidationError) => false,
            },
    {
        let ghost rows0 = self.rows();
        match self.edit_row(timer.id, name, description) {
            Ok(n) => {
                if n == 0 {
                    proof {
                        lemma_edit_no_match(rows0, timer.id as int, name@, description@);
                    }
                    Err(TimerError::NotFoundError)
                } else {
                    Ok(())
                }
            }
            Err(e) => Err(e),
        }
    }

    /// Remove the record with this id from the table. `NotFoundError`
    /// exactly when no row carries the id.
    pub fn delete_timer(&mut self, id: i64) -> (r: Result<(), TimerError>)
        ensures
            match r {
                Ok(()) => {
                    &&& final(self).rows() == rows_without(old(self).rows(), id as int)
                    &&& count_id(old(self).rows(), id as int) > 0
                    &&& count_id(final(self).rows(), id as int) == 0
                },
                Err(TimerError::NotFoundError) => {
                    &&& count_id(old(self).rows(), id as int) == 0
                    &&& final(self).rows() == old(self).rows()
                },
                Err(TimerError::StorageError) => final(self).rows() == old(self).rows(),
                Err(TimerError::ValidationError) => false,
            },
    {
        let ghost rows0 = self.rows();
        match self.delete_row(id) {
            Ok(n) => {
                proof {
                    lemma_delete_removes_id(rows0, id as int);
                }
                if n == 0 {
                    proof {
                        lemma_delete_no_match(rows0, id as int);
                    }
                    Err(TimerError::NotFoundError)
                } else {
                    Ok(())
                }
            }
            Err(e) => Err(e),
        }
    }
}

/// An UPDATE whose id matches no row leaves the table unchanged.
proof fn lemma_edit_no_match(rows: Seq<TimerModel>, id: int, name: Seq<char>, description: Seq<char>)
    requires
        count_id(rows, id) == 0,
    ensures
        rows_edited(rows, id, name, description) == rows,
    decreases rows.len(),
{
    assert forall|i: int| 0 <= i < rows.len() implies rows_edited(rows, id, name, description)[i]
        == rows[i] by {
        if rows[i].id == id {
            lemma_count_id_at(rows, id, i);
        }
    }
    assert(rows_edited(rows, id, name, description) =~= rows);
}

/// A row that carries the id contributes to the count.
proof fn lemma_count_id_at(rows: Seq<TimerModel>, id: int, i: int)
    requires
        0 <= i < rows.len(),
        rows[i].id == id,
    ensures
        count_id(rows, id) >= 1,
    decreases rows.len(),
{
    if i == rows.len() - 1 {
    } else {
        lemma_count_id_at(rows.drop_last(), id, i);
    }
}

/// A DELETE whose id matches no row leaves the table unchanged.
proof fn lemma_delete_no_match(rows: Seq<TimerModel>, id: int)
    requires
        count_id(rows, id) == 0,
    ensures
        rows_without(rows, id) == rows,
    decreases rows.len(),
{
    if rows.len() > 0 {
        lemma_delete_no_match(rows.drop_last(), id);
        assert(rows_without(rows, id) =~= rows);
    }
}

/// After a DELETE, no row carries the deleted id.
pub proof fn lemma_delete_removes_id(rows: Seq<TimerModel>, id: int)
    ensures
        count_id(rows_without(rows, id), id) == 0,
        forall|i: int| 0 <= i < rows_without(rows, id).len() ==>
            #[trigger] rows_without(rows, id)[i].id != id,
    decreases rows.len(),
{
    if rows.len() > 0 {
        lemma_delete_removes_id(rows.drop_last(), id);
        if rows.last().id != id {
            let sub = rows_without(rows.drop_last(), id);
            lemma_count_push(sub, rows.last(), id);
        }
    }
}

/// Appending a row that does not carry the id keeps the count.
proof fn lemma_count_push(rows: Seq<TimerModel>, m: TimerModel, id: int)
    requires
        m.id != id,
    ensures
        count_id(rows.push(m), id) == count_id(rows, id),
{
    assert(rows.push(m).drop_last() =~= rows);
}

/// Round trip through the store: a record read back from the row that
/// persisting `t` wrote agrees with `t` in every field except the assigned
/// id.
pub proof fn lemma_store_roundtrip(t: Timer, u: Timer)
    requires
        u.model() == (TimerModel { id: u.model().id, ..t.model() }),
    ensures
        u.name@ == t.name@,
        u.description@ == t.description@,
        u.start_time_s == t.start_time_s,
        u.duration_s == t.duration_s,
        u.running == t.running,
{
}

} // verus!
