use vstd::prelude::*;
use crate::record::LinkRecord;
use crate::store::ids_unique;

verus! {

/// The most records that a feed lists.
pub const FEED_SIZE: usize = 50;

/// Each record is newer than every one after it.
pub open spec fn newest_first(s: Seq<LinkRecord>) -> bool {
    forall|i: int, j: int| 0 <= i < j < s.len() ==> #[trigger] s[i].is_newer(#[trigger] s[j])
}

/// Each record of `s` is one of the first `n` of `records`.
pub open spec fn drawn_from(s: Seq<LinkRecord>, records: Seq<LinkRecord>, n: int) -> bool {
    forall|p: int| 0 <= p < s.len() ==> exists|j: int| 0 <= j < n && #[trigger] s[p] == records[j]
}

/// Each of the first `n` of `records` is in `s`, or `s` is full and each of
/// its records is newer.
pub open spec fn covers(s: Seq<LinkRecord>, records: Seq<LinkRecord>, n: int) -> bool {
    forall|k: int|
        0 <= k < n ==> s.contains(#[trigger] records[k]) || (s.len() == FEED_SIZE
            && s[FEED_SIZE - 1].is_newer(records[k]))
}

/// `s` lists the most recent records of `records`, newest first: as many as
/// there are, up to `FEED_SIZE`, and none left out that is newer than one
/// listed.
pub open spec fn is_recent(records: Seq<LinkRecord>, s: Seq<LinkRecord>) -> bool {
    &&& s.len() == if records.len() < FEED_SIZE { records.len() as int } else { FEED_SIZE as int }
    &&& newest_first(s)
    &&& drawn_from(s, records, records.len() as int)
    &&& covers(s, records, records.len() as int)
}

proof fn lemma_insert_step(
    records: Seq<LinkRecord>,
    i: int,
    r: Seq<LinkRecord>,
    pos: int,
    nr: Seq<LinkRecord>,
)
    requires
        ids_unique(records),
        0 <= i < records.len(),
        r.len() == if i < FEED_SIZE { i } else { FEED_SIZE as int },
        newest_first(r),
        drawn_from(r, records, i),
        covers(r, records, i),
        0 <= pos <= r.len(),
        forall|q: int| 0 <= q < pos ==> r[q].is_newer(records[i]),
        pos < r.len() ==> !r[pos].is_newer(records[i]),
        nr == (if pos == FEED_SIZE {
            r
        } else if r.len() < FEED_SIZE {
            r.insert(pos, records[i])
        } else {
            r.insert(pos, records[i]).subrange(0, FEED_SIZE as int)
        }),
    ensures
        nr.len() == if i + 1 < FEED_SIZE { i + 1 } else { FEED_SIZE as int },
        newest_first(nr),
        drawn_from(nr, records, i + 1),
        covers(nr, records, i + 1),
{
    let x = records[i];
    assert forall|q: int| pos <= q < r.len() implies x.is_newer(r[q]) by {
        let j = choose|j: int| 0 <= j < i && r[pos] == records[j];
        assert(records[j].id != records[i].id);
        if q > pos {
            assert(r[pos].is_newer(r[q]));
        }
    }
    if pos == FEED_SIZE {
        assert forall|k: int| 0 <= k < i + 1 implies nr.contains(#[trigger] records[k]) || (
        nr.len() == FEED_SIZE && nr[FEED_SIZE - 1].is_newer(records[k])) by {
            if k == i {
                assert(r[FEED_SIZE - 1].is_newer(x));
            }
        }
        return;
    }
    let m = r.insert(pos, x);
    r.insert_ensures(pos, x);
    assert forall|a: int, b: int| 0 <= a < b < m.len() implies #[trigger] m[a].is_newer(
        #[trigger] m[b],
    ) by {
        if b < pos {
            assert(r[a].is_newer(r[b]));
        } else if b == pos {
            assert(r[a].is_newer(x));
        } else if a == pos {
            assert(x.is_newer(r[b - 1]));
        } else if a < pos {
            assert(r[a].is_newer(x));
            assert(x.is_newer(r[b - 1]));
        } else {
            assert(r[a - 1].is_newer(r[b - 1]));
        }
    }
    assert forall|p: int| 0 <= p < m.len() implies exists|j: int|
        0 <= j < i + 1 && #[trigger] m[p] == records[j] by {
        if p < pos {
            assert(m[p] == r[p]);
            let j = choose|j: int| 0 <= j < i && r[p] == records[j];
            assert(m[p] == records[j]);
        } else if p == pos {
            assert(m[p] == records[i]);
        } else {
            assert(m[p] == r[p - 1]);
            let j = choose|j: int| 0 <= j < i && r[p - 1] == records[j];
            assert(m[p] == records[j]);
        }
    }
    assert forall|k: int| 0 <= k < i + 1 implies m.contains(#[trigger] records[k]) || (r.len()
        == FEED_SIZE && m[FEED_SIZE as int].is_newer(records[k])) by {
        if k == i {
            assert(m[pos] == x);
        } else if r.contains(records[k]) {
            let p = choose|p: int| 0 <= p < r.len() && r[p] == records[k];
            if p < pos {
                assert(m[p] == records[k]);
            } else {
                assert(m[p + 1] == records[k]);
            }
        } else {
            assert(m[FEED_SIZE as int] == r[FEED_SIZE - 1]);
            assert(m[FEED_SIZE - 1].is_newer(m[FEED_SIZE as int]));
        }
    }
    if r.len() < FEED_SIZE {
        assert(nr == m);
    } else {
        assert forall|a: int, b: int| 0 <= a < b < nr.len() implies #[trigger] nr[a].is_newer(
            #[trigger] nr[b],
        ) by {
            assert(m[a].is_newer(m[b]));
        }
        assert forall|p: int| 0 <= p < nr.len() implies exists|j: int|
            0 <= j < i + 1 && #[trigger] nr[p] == records[j] by {
            assert(nr[p] == m[p]);
        }
        assert forall|k: int| 0 <= k < i + 1 implies nr.contains(#[trigger] records[k]) || (
        nr.len() == FEED_SIZE && nr[FEED_SIZE - 1].is_newer(records[k])) by {
            assert(nr[FEED_SIZE - 1] == m[FEED_SIZE - 1]);
            assert(m[FEED_SIZE - 1].is_newer(m[FEED_SIZE as int]));
            if m.contains(records[k]) {
                let p = choose|p: int| 0 <= p < m.len() && m[p] == records[k];
                if p < FEED_SIZE {
                    assert(nr[p] == records[k]);
                }
            }
        }
    }
}

/// The most recent records of `records`, newest first: at most `FEED_SIZE`,
/// ordered by publication instant and, for equal instants, by id.
pub fn recent(records: &Vec<LinkRecord>) -> (r: Vec<LinkRecord>)
    requires
        ids_unique(records@),
    ensures
        is_recent(records@, r@),
{
    let mut r: Vec<LinkRecord> = Vec::new();
    let mut i: usize = 0;
    while i < records.len()
        invariant
            ids_unique(records@),
            0 <= i <= records@.len(),
            r@.len() == if i < FEED_SIZE { i as int } else { FEED_SIZE as int },
            newest_first(r@),
            drawn_from(r@, records@, i as int),
            covers(r@, records@, i as int),
        decreases records@.len() - i,
    {
        let x = &records[i];
        let mut pos: usize = 0;
        while pos < r.len() && r[pos].newer(x)
            invariant
                0 <= pos <= r@.len(),
                forall|q: int| 0 <= q < pos ==> r@[q].is_newer(*x),
            decreases r@.len() - pos,
        {
            pos = pos + 1;
        }
        let ghost before = r@;
        if pos < FEED_SIZE {
            r.insert(pos, x.duplicate());
            if r.len() > FEED_SIZE {
                r.pop();
            }
        }
        proof {
            lemma_insert_step(records@, i as int, before, pos as int, r@);
        }
        i = i + 1;
    }
    r
}

/// The feed is capped: it lists at most `FEED_SIZE` records, exactly
/// `FEED_SIZE` where there are at least as many, and each record left out is
/// older than each one listed.
pub proof fn lemma_cap(records: Seq<LinkRecord>, s: Seq<LinkRecord>)
    requires
        is_recent(records, s),
    ensures
        s.len() <= FEED_SIZE,
        records.len() >= FEED_SIZE ==> s.len() == FEED_SIZE,
        forall|k: int, i: int|
            0 <= k < records.len() && !s.contains(records[k]) && 0 <= i < s.len() ==> #[trigger] s[i].is_newer(
                #[trigger] records[k],
            ),
{
    assert forall|k: int, i: int|
        0 <= k < records.len() && !s.contains(records[k]) && 0 <= i < s.len() implies #[trigger] s[i].is_newer(
        #[trigger] records[k],
    ) by {
        assert(s[FEED_SIZE - 1].is_newer(records[k]));
        if i < FEED_SIZE - 1 {
            assert(s[i].is_newer(s[FEED_SIZE - 1]));
        }
    }
}

/// Three records published at increasing instants are listed in the reverse
/// order: the newest first.
pub proof fn lemma_newest_first(records: Seq<LinkRecord>, s: Seq<LinkRecord>)
    requires
        records.len() == 3,
        records[1].pub_date.is_after(records[0].pub_date),
        records[2].pub_date.is_after(records[1].pub_date),
        is_recent(records, s),
    ensures
        s == seq![records[2], records[1], records[0]],
{
    assert(s.len() == 3);
    assert(s.contains(records[0]));
    assert(s.contains(records[1]));
    assert(s.contains(records[2]));
    let j0 = choose|j: int| 0 <= j < 3 && s[0] == records[j];
    let j1 = choose|j: int| 0 <= j < 3 && s[1] == records[j];
    let j2 = choose|j: int| 0 <= j < 3 && s[2] == records[j];
    assert(s[0].is_newer(s[1]));
    assert(s[1].is_newer(s[2]));
    assert(s[0].is_newer(s[2]));
    assert(s =~= seq![records[2], records[1], records[0]]);
}

} // verus!
