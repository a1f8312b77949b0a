//! What the tables share: the reasons a table turns a request down, what a
//! table asks of the records it keeps, and what deleting rows by handle
//! and by expiry leaves of a table.

use crate::lists::{
    distinct, lemma_contains_push, lemma_filter_agrees, lemma_filter_drops_one,
    lemma_filter_keeps_all, lemma_filter_refine, lemma_position, lemma_position_is, position,
    texts,
};
use vstd::prelude::*;

verus! {

/// Why a table turned a request down.
#[derive(Clone, Copy, Debug, PartialEq, Eq, Structural)]
pub enum StoreError {
    /// A row with this key exists already.
    Conflict,
    /// No row has this key.
    NotFound,
    /// The table has no row number left to give.
    Full,
}

/// What a table asks of the records it keeps: each is known by a handle,
/// has its file at a path, and has a time at which it expires, where 0
/// stands for never.
pub trait Kept: Sized {
    spec fn handle(self) -> Seq<char>;

    spec fn location(self) -> Seq<char>;

    spec fn expiry(self) -> u64;
}

/// The handles of a table, row by row.
pub open spec fn handles<R: Kept>(rows: Seq<R>) -> Seq<Seq<char>> {
    rows.map_values(|row: R| row.handle())
}

/// The storage paths of a table, row by row.
pub open spec fn paths<R: Kept>(rows: Seq<R>) -> Seq<Seq<char>> {
    rows.map_values(|row: R| row.location())
}

/// The row with a handle, if the table holds one.
pub open spec fn find_by_handle<R: Kept>(rows: Seq<R>, uuid: Seq<char>) -> Option<R> {
    let at = position(handles(rows), uuid);
    if at < rows.len() {
        Some(rows[at])
    } else {
        None
    }
}

/// A record's time has run out: it expires at all, and did so before `now`.
pub open spec fn is_expired<R: Kept>(row: R, now: u64) -> bool {
    row.expiry() != 0 && row.expiry() < now
}

/// The test "has expired by `now`".
pub open spec fn expired_by<R: Kept>(now: u64) -> spec_fn(R) -> bool {
    |row: R| is_expired(row, now)
}

/// The test "has not expired by `now`".
pub open spec fn unexpired_by<R: Kept>(now: u64) -> spec_fn(R) -> bool {
    |row: R| !is_expired(row, now)
}

/// The test "has another handle than `uuid`".
pub open spec fn other_than<R: Kept>(uuid: Seq<char>) -> spec_fn(R) -> bool {
    |row: R| row.handle() != uuid
}

/// The test "has none of the handles `uuids`".
pub open spec fn not_among<R: Kept>(uuids: Seq<Seq<char>>) -> spec_fn(R) -> bool {
    |row: R| !uuids.contains(row.handle())
}

/// Deleting the rows with some handles and then the row with one more is
/// deleting the rows with all of them.
pub proof fn lemma_delete_next<R: Kept>(rows: Seq<R>, done: Seq<Seq<char>>, uuid: Seq<char>)
    ensures
        rows.filter(not_among(done)).filter(other_than(uuid)) == rows.filter(
            not_among(done.push(uuid)),
        ),
{
    assert forall|i: int| 0 <= i < rows.len() implies not_among::<R>(done.push(uuid))(
        #[trigger] rows[i],
    ) == (not_among::<R>(done)(rows[i]) && other_than::<R>(uuid)(rows[i])) by {
        lemma_contains_push(done, uuid, rows[i].handle());
    }
    lemma_filter_refine(rows, not_among(done), other_than(uuid), not_among(done.push(uuid)));
}

/// Deleting no row changes nothing.
pub proof fn lemma_delete_none<R: Kept>(rows: Seq<R>)
    ensures
        rows.filter(not_among(Seq::<Seq<char>>::empty())) == rows,
{
    lemma_filter_keeps_all(rows, not_among(Seq::<Seq<char>>::empty()));
}

/// In a table without a repeated handle, deleting the rows that have the
/// handle of an expired row leaves exactly the rows that have not expired.
pub proof fn lemma_delete_expired<R: Kept>(rows: Seq<R>, now: u64)
    requires
        distinct(handles(rows)),
    ensures
        rows.filter(not_among(handles(rows.filter(expired_by(now))))) == rows.filter(
            unexpired_by(now),
        ),
{
    let expired = rows.filter(expired_by(now));
    let gone = handles(expired);
    assert forall|i: int| 0 <= i < rows.len() implies not_among::<R>(gone)(#[trigger] rows[i])
        == unexpired_by::<R>(now)(rows[i]) by {
        if is_expired(rows[i], now) {
            rows.lemma_filter_contains(expired_by(now), i);
            let j = choose|j: int| 0 <= j < expired.len() && expired[j] == rows[i];
            assert(gone[j] == rows[i].handle());
        }
        if gone.contains(rows[i].handle()) {
            let j = choose|j: int| 0 <= j < gone.len() && gone[j] == rows[i].handle();
            rows.lemma_filter_pred(expired_by(now), j);
            assert(expired.contains(expired[j]));
            rows.lemma_filter_contains_rev(expired_by(now), expired[j]);
            let k = choose|k: int| 0 <= k < rows.len() && rows[k] == expired[j];
            assert(handles(rows)[k] == handles(rows)[i]);
        }
    }
    lemma_filter_agrees(rows, not_among(gone), unexpired_by(now));
}

/// A stored row: what it says is a record that a table keeps, and it
/// hands out what a table needs of that record.
pub trait Stored: Sized {
    type Record: Kept;

    spec fn record(&self) -> Self::Record;

    fn has_handle(&self, uuid: &String) -> (has: bool)
        ensures
            has == (self.record().handle() == uuid@),
    ;

    fn handle(&self) -> (text: &str)
        ensures
            text@ == self.record().handle(),
    ;

    fn location(&self) -> (text: &str)
        ensures
            text@ == self.record().location(),
    ;

    fn expiry(&self) -> (at: u64)
        ensures
            at == self.record().expiry(),
    ;

    fn copy(&self) -> (copy: Self)
        ensures
            copy.record() == self.record(),
    ;
}

/// The records that a list of rows stands for.
pub open spec fn records_of<I: Stored>(items: Seq<I>) -> Seq<I::Record> {
    items.map_values(|item: I| item.record())
}

/// The position of the first row with a handle, or the number of rows.
pub fn index_of<I: Stored>(rows: &Vec<I>, uuid: &str) -> (at: usize)
    ensures
        at == position(handles(records_of(rows@)), uuid@),
        at <= rows@.len(),
{
    let key = uuid.to_owned();
    let mut at: usize = 0;
    while at < rows.len() && !rows[at].has_handle(&key)
        invariant
            at <= rows@.len(),
            key@ == uuid@,
            forall|j: int| 0 <= j < at ==> handles(records_of(rows@))[j] != uuid@,
        decreases rows@.len() - at,
    {
        at = at + 1;
    }
    proof {
        lemma_position_is(handles(records_of(rows@)), uuid@, at as int);
    }
    at
}

/// Adds a row at the end of a table in which no handle repeats. A row
/// whose handle is taken is turned down and changes nothing.
pub fn insert<I: Stored>(rows: &mut Vec<I>, item: I) -> (added: Result<(), StoreError>)
    requires
        distinct(handles(records_of(old(rows)@))),
    ensures
        distinct(handles(records_of(final(rows)@))),
        added == if handles(records_of(old(rows)@)).contains(item.record().handle()) {
            Err::<(), StoreError>(StoreError::Conflict)
        } else {
            Ok::<(), StoreError>(())
        },
        records_of(final(rows)@) == if handles(records_of(old(rows)@)).contains(
            item.record().handle(),
        ) {
            records_of(old(rows)@)
        } else {
            records_of(old(rows)@).push(item.record())
        },
{
    let at = index_of(rows, item.handle());
    let ghost before = records_of(rows@);
    proof {
        lemma_position(handles(before), item.record().handle());
    }
    if at < rows.len() {
        return Err(StoreError::Conflict);
    }
    let ghost appended = item.record();
    rows.push(item);
    proof {
        assert(records_of(rows@) == before.push(appended));
        assert(handles(records_of(rows@)) == handles(before).push(appended.handle()));
    }
    Ok(())
}

/// Puts a row in the place of another with the same handle. No other row
/// changes, and no handle repeats afterwards if none did before.
pub fn put<I: Stored>(rows: &mut Vec<I>, at: usize, item: I)
    requires
        at < old(rows)@.len(),
        item.record().handle() == old(rows)@[at as int].record().handle(),
    ensures
        records_of(final(rows)@) == records_of(old(rows)@).update(at as int, item.record()),
        handles(records_of(final(rows)@)) == handles(records_of(old(rows)@)),
{
    let ghost before = records_of(rows@);
    let ghost written = item.record();
    rows.set(at, item);
    proof {
        assert(records_of(rows@) == before.update(at as int, written));
        assert(handles(records_of(rows@)) == handles(before));
    }
}

/// A copy of the row with a handle, if there is one.
pub fn find<I: Stored>(rows: &Vec<I>, uuid: &str) -> (found: Option<I>)
    ensures
        found is Some == find_by_handle(records_of(rows@), uuid@) is Some,
        found is Some ==> found->0.record() == find_by_handle(records_of(rows@), uuid@)->0,
{
    let at = index_of(rows, uuid);
    if at < rows.len() {
        Some(rows[at].copy())
    } else {
        None
    }
}

/// Copies of the rows whose time has run out by `now`, oldest first. A row
/// that expires at 0 never does.
pub fn expired<I: Stored>(rows: &Vec<I>, now: u64) -> (found: Vec<I>)
    ensures
        records_of(found@) == records_of(rows@).filter(expired_by(now)),
{
    let mut found: Vec<I> = Vec::new();
    let mut at: usize = 0;
    let ghost all = records_of(rows@);
    proof {
        reveal(Seq::filter);
        assert(all.take(0) == Seq::<I::Record>::empty());
        assert(records_of(found@) == Seq::<I::Record>::empty());
    }
    while at < rows.len()
        invariant
            at <= rows@.len(),
            all == records_of(rows@),
            records_of(found@) == all.take(at as int).filter(expired_by(now)),
        decreases rows@.len() - at,
    {
        let row = &rows[at];
        proof {
            reveal(Seq::filter);
            assert(all.take(at + 1).drop_last() == all.take(at as int));
            assert(all.take(at + 1).last() == row.record());
        }
        let expires_at = row.expiry();
        if expires_at != 0 && expires_at < now {
            let ghost before = records_of(found@);
            found.push(row.copy());
            proof {
                assert(records_of(found@) == before.push(row.record()));
            }
        }
        at = at + 1;
    }
    proof {
        assert(all.take(at as int) == all);
    }
    found
}

/// Deletes the row with a handle from a table in which no handle repeats.
/// Without such a row nothing changes: deleting twice is deleting once.
pub fn remove<I: Stored>(rows: &mut Vec<I>, uuid: &str)
    requires
        distinct(handles(records_of(old(rows)@))),
    ensures
        distinct(handles(records_of(final(rows)@))),
        records_of(final(rows)@) == records_of(old(rows)@).filter(other_than(uuid@)),
{
    let at = index_of(rows, uuid);
    let ghost before = records_of(rows@);
    proof {
        lemma_position(handles(before), uuid@);
    }
    if at < rows.len() {
        rows.remove(at);
        proof {
            let after = records_of(rows@);
            assert(after == before.remove(at as int));
            assert forall|i: int| 0 <= i < before.len() && i != at implies other_than::<
                I::Record,
            >(uuid@)(#[trigger] before[i]) by {
                assert(handles(before)[i] != handles(before)[at as int]);
            }
            lemma_filter_drops_one(before, other_than(uuid@), at as int);
            assert forall|i: int, j: int| 0 <= i < j < after.len() implies handles(after)[i]
                != handles(after)[j] by {
                let from = |k: int| if k < at { k } else { k + 1 };
                assert(handles(after)[i] == handles(before)[from(i)]);
                assert(handles(after)[j] == handles(before)[from(j)]);
            }
        }
    } else {
        proof {
            assert forall|i: int| 0 <= i < before.len() implies other_than::<I::Record>(uuid@)(
                #[trigger] before[i],
            ) by {
                assert(handles(before)[i] != uuid@);
            }
            lemma_filter_keeps_all(before, other_than(uuid@));
        }
    }
}

/// The storage path of every row, oldest first.
pub fn locations<I: Stored>(rows: &Vec<I>) -> (found: Vec<String>)
    ensures
        texts(found@) == paths(records_of(rows@)),
{
    let mut found: Vec<String> = Vec::new();
    let mut at: usize = 0;
    let ghost all = paths(records_of(rows@));
    while at < rows.len()
        invariant
            at <= rows@.len(),
            all == paths(records_of(rows@)),
            texts(found@) == all.take(at as int),
        decreases rows@.len() - at,
    {
        let ghost before = texts(found@);
        found.push(rows[at].location().to_owned());
        proof {
            assert(texts(found@) == before.push(all[at as int]));
            assert(all.take(at + 1) == all.take(at as int).push(all[at as int]));
        }
        at = at + 1;
    }
    proof {
        assert(all.take(at as int) == all);
    }
    found
}

/// Deletes the rows that have expired by `now`, one by one, from a table
/// in which no handle repeats, and says where their files are, oldest row
/// first. A row that expires at 0 never has.
pub fn remove_expired<I: Stored>(rows: &mut Vec<I>, now: u64) -> (artifacts: Vec<String>)
    requires
        distinct(handles(records_of(old(rows)@))),
    ensures
        distinct(handles(records_of(final(rows)@))),
        records_of(final(rows)@) == records_of(old(rows)@).filter(unexpired_by(now)),
        texts(artifacts@) == paths(records_of(old(rows)@).filter(expired_by(now))),
{
    let gone_rows = expired(rows, now);
    let mut artifacts: Vec<String> = Vec::new();
    let ghost all = records_of(rows@);
    let ghost lost = records_of(gone_rows@);
    let ghost gone = handles(lost);
    let mut at: usize = 0;
    proof {
        lemma_delete_none(all);
        assert(gone.take(0) == Seq::<Seq<char>>::empty());
    }
    while at < gone_rows.len()
        invariant
            distinct(handles(records_of(rows@))),
            lost == records_of(gone_rows@),
            gone == handles(lost),
            at <= gone_rows@.len(),
            records_of(rows@) == all.filter(not_among(gone.take(at as int))),
            texts(artifacts@) == paths(lost).take(at as int),
        decreases gone_rows@.len() - at,
    {
        let uuid = gone_rows[at].handle();
        remove(rows, uuid);
        let ghost before = texts(artifacts@);
        artifacts.push(gone_rows[at].location().to_owned());
        proof {
            assert(gone.take(at as int).push(uuid@) == gone.take(at + 1));
            lemma_delete_next(all, gone.take(at as int), uuid@);
            assert(texts(artifacts@) == before.push(paths(lost)[at as int]));
            assert(paths(lost).take(at + 1) == paths(lost).take(at as int).push(
                paths(lost)[at as int],
            ));
        }
        at = at + 1;
    }
    proof {
        assert(gone.take(at as int) == gone);
        assert(paths(lost).take(at as int) == paths(lost));
        lemma_delete_expired(all, now);
    }
    artifacts
}

} // verus!
