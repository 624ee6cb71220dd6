//! The age filter: which indices have outlived the retention window.
use crate::date::{deserialize, now, millis_of_text, DateError, Timestamp};
use vstd::prelude::*;

verus! {

/// Number of milliseconds in one day.
pub const MILLIS_PER_DAY: i64 = 86400000;

/// One index as the catalog lists it.
#[derive(Debug)]
pub struct IndexRecord {
    pub name: String,
    pub creation_time: Timestamp,
}

/// One row of the catalog listing before its creation date is read: the
/// creation date as millisecond text, and the index name.
#[derive(Debug)]
pub struct CatRow {
    pub creation_date: String,
    pub index: String,
}

/// Whole days from `then` to `now`, truncated toward zero (a negative span
/// counts negative days).
pub open spec fn elapsed_days(now: int, then: int) -> int {
    let d = now - then;
    if d >= 0 {
        d / (MILLIS_PER_DAY as int)
    } else {
        -((-d) / (MILLIS_PER_DAY as int))
    }
}

/// An index created at `created` is outdated at `now` when strictly more
/// than `keep_days` whole days have gone by.
pub open spec fn outdated(created: Timestamp, keep_days: u32, now: Timestamp) -> bool {
    elapsed_days(now.millis as int, created.millis as int) > keep_days as int
}

/// The records that are outdated, in listing order.
pub open spec fn outdated_records(
    indices: Seq<IndexRecord>,
    keep_days: u32,
    now: Timestamp,
) -> Seq<IndexRecord> {
    indices.filter(|r: IndexRecord| outdated(r.creation_time, keep_days, now))
}

/// The names of the outdated records, in listing order.
pub open spec fn outdated_names(
    indices: Seq<IndexRecord>,
    keep_days: u32,
    now: Timestamp,
) -> Seq<Seq<char>> {
    outdated_records(indices, keep_days, now).map_values(|r: IndexRecord| r.name@)
}

/// Whole days from `then` to `now`, truncated toward zero.
pub fn days_between(now: Timestamp, then: Timestamp) -> (r: i64)
    ensures
        r == elapsed_days(now.millis as int, then.millis as int),
{
    let d: i128 = now.millis as i128 - then.millis as i128;
    if d >= 0 {
        (d / (MILLIS_PER_DAY as i128)) as i64
    } else {
        -((-d) / (MILLIS_PER_DAY as i128)) as i64
    }
}

/// Whether an index created at `created` is past the retention window.
pub fn is_outdated(created: Timestamp, keep_days: u32, now: Timestamp) -> (r: bool)
    ensures
        r == outdated(created, keep_days, now),
{
    days_between(now, created) > keep_days as i64
}

/// The names of the indices older than `keep_days` whole days at `now`, in
/// the order in which they are listed.
pub fn select_outdated(indices: &Vec<IndexRecord>, keep_days: u32, now: Timestamp) -> (r: Vec<
    String,
>)
    ensures
        r@.map_values(|s: String| s@) == outdated_names(indices@, keep_days, now),
{
    let mut out: Vec<String> = Vec::new();
    let mut i: usize = 0;
    while i < indices.len()
        invariant
            i <= indices@.len(),
            out@.map_values(|s: String| s@) == outdated_names(indices@.take(i as int), keep_days, now),
        decreases indices@.len() - i,
    {
        let rec = &indices[i];
        let keep = is_outdated(rec.creation_time, keep_days, now);
        proof {
            let p = indices@.take(i as int);
            let q = indices@.take(i + 1);
            assert(q.drop_last() =~= p);
            assert(q.last() == *rec);
            reveal(Seq::filter);
            assert(q.filter(|r: IndexRecord| outdated(r.creation_time, keep_days, now)) == {
                let f = p.filter(|r: IndexRecord| outdated(r.creation_time, keep_days, now));
                if keep { f.push(*rec) } else { f }
            });
        }
        if keep {
            let name = rec.name.clone();
            out.push(name);
            proof {
                let p = indices@.take(i as int);
                assert(out@.map_values(|s: String| s@) =~= outdated_names(p, keep_days, now).push(
                    rec.name@,
                ));
            }
        }
        i = i + 1;
    }
    assert(indices@.take(indices@.len() as int) =~= indices@);
    out
}

/// Reads every row of a catalog listing into an [`IndexRecord`], in order.
/// Fails on the first row whose creation date is not a millisecond count.
pub fn parse_listing(rows: &Vec<CatRow>) -> (r: Result<Vec<IndexRecord>, DateError>)
    ensures
        r is Ok <==> forall|i: int|
            0 <= i < rows@.len() ==> (#[trigger] millis_of_text(rows@[i].creation_date@)) is Some,
        r matches Ok(v) ==> v@.len() == rows@.len() && forall|i: int|
            0 <= i < rows@.len() ==> (#[trigger] v@[i]).name@ == rows@[i].index@ && Some(
                v@[i].creation_time.millis,
            ) == millis_of_text(rows@[i].creation_date@),
        r matches Err(e) ==> exists|i: int|
            0 <= i < rows@.len() && (#[trigger] millis_of_text(rows@[i].creation_date@)) is None
                && e.text@ == rows@[i].creation_date@,
{
    let mut out: Vec<IndexRecord> = Vec::new();
    let mut i: usize = 0;
    while i < rows.len()
        invariant
            i <= rows@.len(),
            out@.len() == i,
            forall|j: int| 0 <= j < i ==> (#[trigger] millis_of_text(rows@[j].creation_date@)) is Some,
            forall|j: int|
                0 <= j < i ==> (#[trigger] out@[j]).name@ == rows@[j].index@ && Some(
                    out@[j].creation_time.millis,
                ) == millis_of_text(rows@[j].creation_date@),
        decreases rows@.len() - i,
    {
        let row = &rows[i];
        match deserialize(row.creation_date.as_str()) {
            Ok(t) => {
                out.push(IndexRecord { name: row.index.clone(), creation_time: t });
            },
            Err(e) => {
                return Err(e);
            },
        }
        i = i + 1;
    }
    Ok(out)
}

/// The names of the listed indices that are outdated now, by the system
/// clock, in listing order.
pub fn get_outdated_indices(indices: &Vec<IndexRecord>, keep_days: u32) -> (r: Vec<String>)
    ensures
        exists|t: Timestamp|
            t.millis >= 0 && r@.map_values(|s: String| s@) == outdated_names(
                indices@,
                keep_days,
                t,
            ),
{
    let t = now();
    select_outdated(indices, keep_days, t)
}

/// The retention boundary is exclusive: a listed index more than `keep_days`
/// whole days old is selected, and one exactly `keep_days` days old is kept.
pub proof fn lemma_retention_boundary(
    indices: Seq<IndexRecord>,
    keep_days: u32,
    now: Timestamp,
    i: int,
)
    requires
        0 <= i < indices.len(),
    ensures
        elapsed_days(now.millis as int, indices[i].creation_time.millis as int) > keep_days
            ==> outdated_records(indices, keep_days, now).contains(indices[i]),
        elapsed_days(now.millis as int, indices[i].creation_time.millis as int) == keep_days
            ==> !outdated_records(indices, keep_days, now).contains(indices[i]),
{
    let pred = |r: IndexRecord| outdated(r.creation_time, keep_days, now);
    broadcast use vstd::seq_lib::group_filter_ensures;

    assert(indices.filter(pred).len() <= indices.len());
}

proof fn lemma_filter_all_kept(s: Seq<IndexRecord>, pred: spec_fn(IndexRecord) -> bool)
    requires
        forall|i: int| 0 <= i < s.len() ==> pred(#[trigger] s[i]),
    ensures
        s.filter(pred) == s,
    decreases s.len(),
{
    reveal(Seq::filter);
    if s.len() > 0 {
        lemma_filter_all_kept(s.drop_last(), pred);
        assert(s.drop_last().push(s.last()) =~= s);
    }
}

/// Filtering a second time changes nothing: the indices the age filter keeps
/// are all outdated, so running it again on them selects the same ones.
pub proof fn lemma_age_filter_idempotent(indices: Seq<IndexRecord>, keep_days: u32, now: Timestamp)
    ensures
        outdated_records(outdated_records(indices, keep_days, now), keep_days, now)
            == outdated_records(indices, keep_days, now),
        outdated_names(outdated_records(indices, keep_days, now), keep_days, now)
            == outdated_names(indices, keep_days, now),
{
    let pred = |r: IndexRecord| outdated(r.creation_time, keep_days, now);
    broadcast use vstd::seq_lib::group_filter_ensures;

    assert(indices.filter(pred).len() <= indices.len());
    lemma_filter_all_kept(indices.filter(pred), pred);
}

} // verus!
