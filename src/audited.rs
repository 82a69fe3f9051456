use vstd::prelude::*;
use crate::entity::BaseEntity;

verus! {

/// A record that carries the audit envelope.
pub trait Audited: Sized {
    /// The record's audit envelope.
    spec fn audit(&self) -> BaseEntity;

    /// The record's identifier, absent before it is stored.
    spec fn key(&self) -> Option<i64>;

    /// The same record with its envelope replaced by `b`.
    spec fn with_audit(&self, b: BaseEntity) -> Self;

    proof fn lemma_with_audit(&self, b: BaseEntity)
        ensures
            self.with_audit(b).audit() == b,
            self.with_audit(b).key() == self.key(),
    ;

    fn base_entity(&self) -> (r: &BaseEntity)
        ensures
            *r == self.audit(),
    ;

    fn set_base_entity(&mut self, b: BaseEntity)
        ensures
            *final(self) == old(self).with_audit(b),
    ;
}

/// Whether a record is visible to reads: it has not been soft-deleted.
pub open spec fn is_live<T: Audited>(x: T) -> bool {
    !x.audit().deleted()
}

/// The rows of `rows` that reads return, in their order.
pub open spec fn live_filter<T: Audited>(rows: Seq<T>) -> Seq<T> {
    rows.filter(|x: T| is_live(x))
}

/// What a read by identifier returns for the row that storage handed back.
pub open spec fn live_lookup<T: Audited>(row: Option<T>) -> Option<T> {
    match row {
        Some(x) => if is_live(x) {
            Some(x)
        } else {
            None
        },
        None => None,
    }
}

} // verus!
