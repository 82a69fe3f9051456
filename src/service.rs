use vstd::prelude::*;
use crate::audited::{Audited, is_live, live_filter, live_lookup};
use crate::entity::BaseEntity;

verus! {

/// What a read by identifier returns, given the row that storage handed
/// back: a soft-deleted row reads as absent.
pub fn live_row<T: Audited>(row: Option<T>) -> (r: Option<T>)
    ensures
        r == live_lookup(row),
{
    match row {
        Some(x) => {
            if x.base_entity().is_deleted() {
                None
            } else {
                Some(x)
            }
        },
        None => None,
    }
}

/// What a listing returns, given the rows that storage handed back: the
/// rows that are not soft-deleted, in their order.
pub fn live_rows<T: Audited>(rows: Vec<T>) -> (r: Vec<T>)
    ensures
        r@ == live_filter(rows@),
{
    let ghost all = rows@;
    let mut rest = rows;
    let mut out: Vec<T> = Vec::new();
    let n = rest.len();
    let mut i: usize = 0;
    while i < n
        invariant
            0 <= i <= n,
            n == all.len(),
            rest@ == all.subrange(i as int, n as int),
            out@ == live_filter(all.subrange(0, i as int)),
        decreases n - i,
    {
        let x = rest.remove(0);
        let ghost next = all.subrange(0, i as int + 1);
        proof {
            reveal(Seq::filter);
            assert(next.len() > 0);
            assert(next.drop_last() =~= all.subrange(0, i as int));
            assert(next.last() == x);
            assert(live_filter(next) == (if is_live(x) {
                live_filter(all.subrange(0, i as int)).push(x)
            } else {
                live_filter(all.subrange(0, i as int))
            }));
        }
        if !x.base_entity().is_deleted() {
            out.push(x);
        }
        i = i + 1;
        proof {
            assert(rest@ =~= all.subrange(i as int, n as int));
        }
    }
    assert(all.subrange(0, n as int) =~= all);
    out
}

/// The row that a soft delete writes back, given the row that storage
/// handed back: a missing or already soft-deleted row gives nothing to
/// write; a live one gets the deleter and the deletion time stamped.
pub fn soft_delete_row<T: Audited>(row: Option<T>, deleted_by: i64, now: i64) -> (r: Option<T>)
    ensures
        live_lookup(row) is None ==> r is None,
        live_lookup(row) matches Some(x) ==> r == Some(
            x.with_audit(x.audit().soft_deleted(deleted_by, now)),
        ),
{
    match live_row(row) {
        Some(x) => {
            let mut x = x;
            let mut b = *x.base_entity();
            b.delete(deleted_by, now);
            x.set_base_entity(b);
            Some(x)
        },
        None => None,
    }
}

/// A freshly created record reads back unchanged, at version one and with
/// no deletion stamp.
pub proof fn lemma_created_reads_back<T: Audited>(x: T, by: i64, now: i64)
    requires
        x.audit() == BaseEntity::created(by, now),
    ensures
        live_lookup(Some(x)) == Some(x),
        x.audit().version == 1,
        x.audit().deleted_by is None,
        x.audit().deleted_date is None,
{
}

/// An update raises the version by exactly one, stamps the modifier and
/// the modification time, and leaves the creation and deletion fields as
/// they were.
pub proof fn lemma_update_stamps(b: BaseEntity, by: i64, now: i64)
    requires
        b.version < i64::MAX,
    ensures
        b.updated(by, now).version == b.version + 1,
        b.updated(by, now).last_modified_by == by,
        b.updated(by, now).last_modified_date == now,
        b.updated(by, now).created_by == b.created_by,
        b.updated(by, now).created_date == b.created_date,
        b.updated(by, now).deleted_by == b.deleted_by,
        b.updated(by, now).deleted_date == b.deleted_date,
{
}

/// A soft delete stamps the deleter and the deletion time together, keeps
/// the version and the modifier, and keeps the envelope well formed.
pub proof fn lemma_soft_delete_stamps(b: BaseEntity, by: i64, now: i64)
    requires
        b.wf(),
    ensures
        b.soft_deleted(by, now).wf(),
        b.soft_deleted(by, now).deleted_by == Some(by),
        b.soft_deleted(by, now).deleted_date == Some(now),
        b.soft_deleted(by, now).version == b.version,
        b.soft_deleted(by, now).last_modified_by == b.last_modified_by,
        b.soft_deleted(by, now).last_modified_date == b.last_modified_date,
{
}

/// Once soft-deleted, a record is neither read back by identifier nor
/// listed, whatever rows storage holds.
pub proof fn lemma_soft_deleted_is_hidden<T: Audited>(x: T, by: i64, now: i64, rows: Seq<T>)
    ensures
        live_lookup(Some(x.with_audit(x.audit().soft_deleted(by, now)))) is None,
        !live_filter(rows).contains(x.with_audit(x.audit().soft_deleted(by, now))),
{
    let y = x.with_audit(x.audit().soft_deleted(by, now));
    x.lemma_with_audit(x.audit().soft_deleted(by, now));
    assert(!is_live(y));
    let pred = |t: T| is_live(t);
    if live_filter(rows).contains(y) {
        let i = choose|i: int| 0 <= i < rows.filter(pred).len() && rows.filter(pred)[i] == y;
        rows.lemma_filter_pred(pred, i);
    }
}

} // verus!
