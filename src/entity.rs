use vstd::prelude::*;

verus! {

/// The audit fields shared by every audited record. Timestamps are Unix
/// milliseconds.
#[derive(Clone, Copy, Debug, PartialEq, Eq, Structural)]
pub struct BaseEntity {
    pub version: i64,
    pub created_by: i64,
    pub created_date: i64,
    pub last_modified_by: i64,
    pub last_modified_date: i64,
    pub deleted_by: Option<i64>,
    pub deleted_date: Option<i64>,
}

impl BaseEntity {
    /// The version starts at one and the two deletion fields are either both
    /// present or both absent.
    pub open spec fn wf(&self) -> bool {
        &&& self.version >= 1
        &&& self.deleted_by.is_some() == self.deleted_date.is_some()
    }

    pub open spec fn deleted(&self) -> bool {
        self.deleted_by.is_some() && self.deleted_date.is_some()
    }

    /// The envelope of a record created by `by` at `now`.
    pub open spec fn created(by: i64, now: i64) -> BaseEntity {
        BaseEntity {
            version: 1,
            created_by: by,
            created_date: now,
            last_modified_by: by,
            last_modified_date: now,
            deleted_by: None,
            deleted_date: None,
        }
    }

    /// The envelope after an update by `by` at `now`.
    pub open spec fn updated(self, by: i64, now: i64) -> BaseEntity {
        BaseEntity {
            version: (self.version + 1) as i64,
            last_modified_by: by,
            last_modified_date: now,
            ..self
        }
    }

    /// The envelope after a soft delete by `by` at `now`.
    pub open spec fn soft_deleted(self, by: i64, now: i64) -> BaseEntity {
        BaseEntity { deleted_by: Some(by), deleted_date: Some(now), ..self }
    }

    pub fn new(created_by: i64, now: i64) -> (r: BaseEntity)
        ensures
            r == BaseEntity::created(created_by, now),
            r.wf(),
            !r.deleted(),
    {
        BaseEntity {
            version: 1,
            created_by,
            created_date: now,
            last_modified_by: created_by,
            last_modified_date: now,
            deleted_by: None,
            deleted_date: None,
        }
    }

    /// Bumps the version by one and stamps the modifier; the creation and
    /// deletion fields stay as they were.
    pub fn update(&mut self, last_modified_by: i64, now: i64)
        requires
            old(self).version < i64::MAX,
        ensures
            *final(self) == old(self).updated(last_modified_by, now),
            old(self).wf() ==> final(self).wf(),
    {
        self.version = self.version + 1;
        self.last_modified_by = last_modified_by;
        self.last_modified_date = now;
    }

    /// Stamps the deleter and the deletion time together; the version and the
    /// modifier fields stay as they were.
    pub fn delete(&mut self, deleted_by: i64, now: i64)
        ensures
            *final(self) == old(self).soft_deleted(deleted_by, now),
            old(self).wf() ==> final(self).wf(),
            final(self).deleted(),
    {
        self.deleted_by = Some(deleted_by);
        self.deleted_date = Some(now);
    }

    pub fn is_deleted(&self) -> (r: bool)
        ensures
            r == self.deleted(),
    {
        self.deleted_by.is_some() && self.deleted_date.is_some()
    }
}

} // verus!
