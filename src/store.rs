use vstd::prelude::*;
use crate::ingest::{accepted, prepare, stamped, valid_url, InsertOutcome, SubmitError};
use crate::record::{LinkRecord, NewRecord, Submission};
use crate::time::Timestamp;

verus! {

/// No two rows share a link.
pub open spec fn links_unique(rows: Seq<LinkRecord>) -> bool {
    forall|i: int, j: int|
        0 <= i < rows.len() && 0 <= j < rows.len() && rows[i].link@ == rows[j].link@ ==> i == j
}

/// No two rows share an id.
pub open spec fn ids_unique(rows: Seq<LinkRecord>) -> bool {
    forall|i: int, j: int| 0 <= i < rows.len() && 0 <= j < rows.len() && rows[i].id == rows[j].id ==> i == j
}

/// Some row holds `link`.
pub open spec fn holds_link(rows: Seq<LinkRecord>, link: Seq<char>) -> bool {
    exists|i: int| 0 <= i < rows.len() && rows[i].link@ == link
}

/// Exactly one row holds `link`.
pub open spec fn holds_link_once(rows: Seq<LinkRecord>, link: Seq<char>) -> bool {
    holds_link(rows, link) && forall|i: int, j: int|
        0 <= i < rows.len() && 0 <= j < rows.len() && rows[i].link@ == link && rows[j].link@ == link
            ==> i == j
}

/// The table's invariant: links are unique, ids rise strictly in the order of
/// insertion and lie below the next id to give, and every instant is valid.
pub open spec fn table_wf(rows: Seq<LinkRecord>, next_id: int) -> bool {
    &&& links_unique(rows)
    &&& 1 <= next_id <= i64::MAX
    &&& forall|i: int| 0 <= i < rows.len() ==> 1 <= #[trigger] rows[i].id < next_id
    &&& forall|i: int| 0 <= i < rows.len() ==> #[trigger] rows[i].pub_date.wf()
    &&& forall|i: int, j: int| 0 <= i < j < rows.len() ==> rows[i].id < rows[j].id
}

/// The row that a checked record becomes under `id`.
pub open spec fn row_of(id: int, rec: NewRecord) -> LinkRecord {
    LinkRecord { id: id as i64, title: rec.title, link: rec.link, pub_date: rec.pub_date }
}

/// What the store answers to inserting `rec`: a conflict where its link is
/// held, a failure where ids are spent, else the next id.
pub open spec fn insert_outcome(rows: Seq<LinkRecord>, next_id: int, rec: NewRecord) -> InsertOutcome {
    if holds_link(rows, rec.link@) {
        InsertOutcome::UniqueViolation
    } else if next_id >= i64::MAX {
        InsertOutcome::Failed
    } else {
        InsertOutcome::Inserted(next_id as i64)
    }
}

/// The result of submitting `sub` to a table, given whether its link is a URL.
pub open spec fn submit_result(
    rows: Seq<LinkRecord>,
    next_id: int,
    sub: Submission,
    url_ok: bool,
) -> Result<i64, SubmitError> {
    if !accepted(sub, url_ok) {
        Err(SubmitError::Validation)
    } else if holds_link(rows, sub.link@) {
        Err(SubmitError::DuplicateLink)
    } else if next_id >= i64::MAX {
        Err(SubmitError::InternalStore)
    } else {
        Ok(next_id as i64)
    }
}

/// The row that a successful submission appends.
pub open spec fn submitted_row(id: int, sub: Submission, now: Timestamp) -> LinkRecord {
    LinkRecord {
        id: id as i64,
        title: sub.title,
        link: sub.link,
        pub_date: stamped(sub.pub_date, now),
    }
}

/// The rows after submitting `sub`: one more on success, the same otherwise.
pub open spec fn submit_rows(
    rows: Seq<LinkRecord>,
    next_id: int,
    sub: Submission,
    url_ok: bool,
    now: Timestamp,
) -> Seq<LinkRecord> {
    if submit_result(rows, next_id, sub, url_ok) is Ok {
        rows.push(submitted_row(next_id, sub, now))
    } else {
        rows
    }
}

/// The next id after submitting `sub`.
pub open spec fn submit_next_id(rows: Seq<LinkRecord>, next_id: int, sub: Submission, url_ok: bool) -> int {
    if submit_result(rows, next_id, sub, url_ok) is Ok {
        next_id + 1
    } else {
        next_id
    }
}

/// An append-only table of links, unique by link, each with an id that the
/// table gives in rising order and never gives again.
#[derive(Debug)]
pub struct LinkStore {
    rows: Vec<LinkRecord>,
    next_id: i64,
}

impl LinkStore {
    /// The rows, in the order in which they were inserted.
    pub closed spec fn rows(&self) -> Seq<LinkRecord> {
        self.rows@
    }

    /// The id that the next insert gets.
    pub closed spec fn next_id(&self) -> int {
        self.next_id as int
    }

    pub open spec fn wf(&self) -> bool {
        table_wf(self.rows(), self.next_id())
    }

    /// An empty table whose first id is 1.
    pub fn new() -> (r: LinkStore)
        ensures
            r.wf(),
            r.rows() == Seq::<LinkRecord>::empty(),
            r.next_id() == 1,
    {
        LinkStore { rows: Vec::new(), next_id: 1 }
    }

    /// The rows, in the order in which they were inserted.
    pub fn records(&self) -> (r: &Vec<LinkRecord>)
        ensures
            r@ == self.rows(),
    {
        &self.rows
    }

    /// The number of rows.
    pub fn len(&self) -> (r: usize)
        ensures
            r == self.rows().len(),
    {
        self.rows.len()
    }

    /// Whether a row holds `link`.
    pub fn contains_link(&self, link: &String) -> (r: bool)
        ensures
            r == holds_link(self.rows(), link@),
    {
        let mut i: usize = 0;
        while i < self.rows.len()
            invariant
                0 <= i <= self.rows@.len(),
                forall|k: int| 0 <= k < i ==> self.rows@[k].link@ != link@,
            decreases self.rows@.len() - i,
        {
            if self.rows[i].link == *link {
                return true;
            }
            i = i + 1;
        }
        false
    }

    /// Inserts `rec` as one atomic write: a row under the next id, unless its
    /// link is already held or ids are spent, in which case nothing changes.
    pub fn insert(&mut self, rec: NewRecord) -> (r: InsertOutcome)
        requires
            old(self).wf(),
            rec.pub_date.wf(),
        ensures
            final(self).wf(),
            r == insert_outcome(old(self).rows(), old(self).next_id(), rec),
            r is Inserted ==> final(self).rows() == old(self).rows().push(
                row_of(old(self).next_id(), rec),
            ) && final(self).next_id() == old(self).next_id() + 1,
            !(r is Inserted) ==> final(self).rows() == old(self).rows() && final(self).next_id()
                == old(self).next_id(),
    {
        if self.contains_link(&rec.link) {
            return InsertOutcome::UniqueViolation;
        }
        if self.next_id == i64::MAX {
            return InsertOutcome::Failed;
        }
        let id = self.next_id;
        let ghost before = self.rows@;
        let ghost rec_link = rec.link@;
        self.rows.push(LinkRecord { id, title: rec.title, link: rec.link, pub_date: rec.pub_date });
        self.next_id = id + 1;
        assert(links_unique(self.rows@)) by {
            assert forall|i: int, j: int|
                0 <= i < self.rows@.len() && 0 <= j < self.rows@.len() && self.rows@[i].link@
                    == self.rows@[j].link@ implies i == j by {
                if i < before.len() && j == before.len() {
                    assert(before[i].link@ == rec_link);
                } else if j < before.len() && i == before.len() {
                    assert(before[j].link@ == rec_link);
                }
            }
        }
        InsertOutcome::Inserted(id)
    }
}

/// Submits `sub` at the instant `now`: validates it, then inserts it. Returns
/// the new id; `Validation` where the link is no URL or the given instant is
/// invalid, `DuplicateLink` where the link is held, `InternalStore` where ids
/// are spent. Exactly one row is appended on success, none on failure.
pub fn submit(store: &mut LinkStore, sub: Submission, now: Timestamp) -> (r: Result<i64, SubmitError>)
    requires
        old(store).wf(),
        now.wf(),
    ensures
        final(store).wf(),
        r == submit_result(old(store).rows(), old(store).next_id(), sub, valid_url(sub.link@)),
        final(store).rows() == submit_rows(
            old(store).rows(),
            old(store).next_id(),
            sub,
            valid_url(sub.link@),
            now,
        ),
        final(store).next_id() == submit_next_id(
            old(store).rows(),
            old(store).next_id(),
            sub,
            valid_url(sub.link@),
        ),
{
    let ghost sub0 = sub;
    let rec = match prepare(sub, now) {
        Ok(rec) => rec,
        Err(e) => return Err(e),
    };
    let outcome = store.insert(rec);
    let r = crate::ingest::classify_insert(outcome);
    proof {
        if r is Ok {
            assert(row_of(old(store).next_id(), rec) == submitted_row(old(store).next_id(), sub0, now));
        }
    }
    r
}

/// Submits `sub` stamped with the current time, read at this call. Where the
/// clock reads no valid instant, fails with `InternalStore` and changes
/// nothing; else behaves as `submit` at some valid instant.
pub fn submit_now(store: &mut LinkStore, sub: Submission) -> (r: Result<i64, SubmitError>)
    requires
        old(store).wf(),
    ensures
        final(store).wf(),
        (r == Err::<i64, SubmitError>(SubmitError::InternalStore) && *final(store) == *old(store))
            || exists|now: Timestamp|
            now.wf() && r == submit_result(
                old(store).rows(),
                old(store).next_id(),
                sub,
                valid_url(sub.link@),
            ) && final(store).rows() == submit_rows(
                old(store).rows(),
                old(store).next_id(),
                sub,
                valid_url(sub.link@),
                now,
            ) && final(store).next_id() == submit_next_id(
                old(store).rows(),
                old(store).next_id(),
                sub,
                valid_url(sub.link@),
            ),
{
    match crate::time::now_utc() {
        Some(now) => submit(store, sub, now),
        None => Err(SubmitError::InternalStore),
    }
}

/// Submitting one new, valid link twice, in either role and at any instants:
/// the first submission succeeds with the next id, the second fails with
/// `DuplicateLink` and changes nothing, and the table ends with exactly one row
/// holding the link.
pub proof fn lemma_duplicate_submission(
    rows: Seq<LinkRecord>,
    next_id: int,
    first: Submission,
    second: Submission,
    now1: Timestamp,
    now2: Timestamp,
)
    requires
        table_wf(rows, next_id),
        next_id < i64::MAX,
        !holds_link(rows, first.link@),
        accepted(first, valid_url(first.link@)),
        second.link@ == first.link@,
        accepted(second, valid_url(second.link@)),
    ensures
        ({
            let rows1 = submit_rows(rows, next_id, first, valid_url(first.link@), now1);
            let next1 = submit_next_id(rows, next_id, first, valid_url(first.link@));
            let rows2 = submit_rows(rows1, next1, second, valid_url(second.link@), now2);
            &&& submit_result(rows, next_id, first, valid_url(first.link@)) == Ok::<
                i64,
                SubmitError,
            >(next_id as i64)
            &&& submit_result(rows1, next1, second, valid_url(second.link@)) == Err::<
                i64,
                SubmitError,
            >(SubmitError::DuplicateLink)
            &&& rows2 == rows1
            &&& holds_link_once(rows2, first.link@)
        }),
{
    let rows1 = submit_rows(rows, next_id, first, valid_url(first.link@), now1);
    let n = rows.len();
    assert(rows1[n as int] == submitted_row(next_id, first, now1));
    assert(holds_link(rows1, first.link@));
    assert forall|i: int, j: int|
        0 <= i < rows1.len() && 0 <= j < rows1.len() && rows1[i].link@ == first.link@
            && rows1[j].link@ == first.link@ implies i == j by {
        if i < n {
            assert(rows[i] == rows1[i]);
        }
        if j < n {
            assert(rows[j] == rows1[j]);
        }
    }
}

} // verus!
