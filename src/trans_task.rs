use vstd::prelude::*;
use crate::audited::{Audited, live_lookup};
use crate::service::live_row;
use crate::entity::BaseEntity;
use crate::user::User;

verus! {

/// A table registered for transfer from a data source.
#[derive(Clone, Debug)]
pub struct TransTask {
    pub trans_task_id: Option<i64>,
    pub data_source_id: i64,
    pub table_name: String,
    pub table_comment: String,
    pub remark: String,
    pub row_count: u16,
    pub last_trans_time: i64,
    pub base_entity: BaseEntity,
}

#[derive(Clone, Debug)]
pub struct TransTaskCreateBo {
    pub data_source_id: Option<i64>,
    pub table_name: String,
    pub table_comment: String,
    pub remark: String,
}

#[derive(Clone, Debug)]
pub struct TransTaskUpdateBo {
    pub trans_task_id: Option<i64>,
    pub data_source_id: Option<i64>,
    pub table_name: String,
    pub table_comment: String,
    pub remark: String,
}

#[derive(Clone, Debug)]
pub struct TransTaskListVo {
    pub trans_task_id: i64,
    pub data_source_id: i64,
    pub table_name: String,
    pub table_comment: String,
    pub remark: String,
    pub row_count: u16,
    pub last_trans_time: i64,
    pub base_entity: BaseEntity,
}

#[derive(Clone, Debug)]
pub struct TransTaskDetailVo {
    pub trans_task_id: i64,
    pub data_source_id: i64,
    pub table_name: String,
    pub table_comment: String,
    pub remark: String,
    pub row_count: u16,
    pub last_trans_time: i64,
    pub base_entity: BaseEntity,
}

impl TransTask {
    /// A new task from `bo`, created by `user` at `now`, with no rows
    /// transferred yet.
    pub fn from_create_bo(bo: TransTaskCreateBo, user: &User, now: i64) -> (r: TransTask)
        requires
            bo.data_source_id is Some,
        ensures
            r.trans_task_id is None,
            Some(r.data_source_id) == bo.data_source_id,
            r.table_name == bo.table_name,
            r.table_comment == bo.table_comment,
            r.remark == bo.remark,
            r.row_count == 0,
            r.last_trans_time == now,
            r.base_entity == BaseEntity::created(user.acting_id(), now),
    {
        TransTask {
            trans_task_id: None,
            data_source_id: bo.data_source_id.unwrap(),
            table_name: bo.table_name,
            table_comment: bo.table_comment,
            remark: bo.remark,
            row_count: 0,
            last_trans_time: now,
            base_entity: BaseEntity::new(user.get_user_id(), now),
        }
    }

    /// The record after `bo` is applied by `by` at `now`.
    pub open spec fn updated_with(self, bo: TransTaskUpdateBo, by: i64, now: i64) -> TransTask {
        TransTask {
            trans_task_id: bo.trans_task_id,
            data_source_id: bo.data_source_id.unwrap(),
            table_name: bo.table_name,
            table_comment: bo.table_comment,
            remark: bo.remark,
            base_entity: self.base_entity.updated(by, now),
            ..self
        }
    }

    /// Overwrites the editable fields from `bo` and records the update by
    /// `user` at `now`; the transfer statistics are kept.
    pub fn from_update_bo(&mut self, bo: TransTaskUpdateBo, user: &User, now: i64)
        requires
            bo.data_source_id is Some,
            old(self).base_entity.version < i64::MAX,
        ensures
            *final(self) == old(self).updated_with(bo, user.acting_id(), now),
    {
        self.trans_task_id = bo.trans_task_id;
        self.data_source_id = bo.data_source_id.unwrap();
        self.table_name = bo.table_name;
        self.table_comment = bo.table_comment;
        self.remark = bo.remark;
        self.base_entity.update(user.get_user_id(), now);
    }

    /// The row that an update writes back, given the row that storage handed
    /// back: nothing for a missing or soft-deleted row, or one whose version
    /// cannot be raised; otherwise the row with `bo` applied by `user` at
    /// `now`.
    pub fn apply_update(row: Option<TransTask>, bo: TransTaskUpdateBo, user: &User, now: i64) -> (r: Option<TransTask>)
        requires
            bo.data_source_id is Some,
        ensures
            live_lookup(row) is None ==> r is None,
            live_lookup(row) is Some && row->Some_0.base_entity.version == i64::MAX ==> r is None,
            live_lookup(row) is Some && row->Some_0.base_entity.version < i64::MAX ==> r == Some(
                row->Some_0.updated_with(bo, user.acting_id(), now),
            ),
    {
        match live_row(row) {
            Some(x) => {
                if x.base_entity.version == i64::MAX {
                    return None;
                }
                let mut x = x;
                x.from_update_bo(bo, user, now);
                Some(x)
            },
            None => None,
        }
    }

    pub fn to_list_vo(&self) -> (r: TransTaskListVo)
        requires
            self.trans_task_id is Some,
        ensures
            Some(r.trans_task_id) == self.trans_task_id,
            r.data_source_id == self.data_source_id,
            r.table_name@ == self.table_name@,
            r.table_comment@ == self.table_comment@,
            r.remark@ == self.remark@,
            r.row_count == self.row_count,
            r.last_trans_time == self.last_trans_time,
            r.base_entity == self.base_entity,
    {
        TransTaskListVo {
            trans_task_id: self.trans_task_id.unwrap(),
            data_source_id: self.data_source_id,
            table_name: self.table_name.clone(),
            table_comment: self.table_comment.clone(),
            remark: self.remark.clone(),
            row_count: self.row_count,
            last_trans_time: self.last_trans_time,
            base_entity: self.base_entity,
        }
    }

    pub fn to_detail_vo(&self) -> (r: TransTaskDetailVo)
        requires
            self.trans_task_id is Some,
        ensures
            Some(r.trans_task_id) == self.trans_task_id,
            r.data_source_id == self.data_source_id,
            r.table_name@ == self.table_name@,
            r.table_comment@ == self.table_comment@,
            r.remark@ == self.remark@,
            r.row_count == self.row_count,
            r.last_trans_time == self.last_trans_time,
            r.base_entity == self.base_entity,
    {
        TransTaskDetailVo {
            trans_task_id: self.trans_task_id.unwrap(),
            data_source_id: self.data_source_id,
            table_name: self.table_name.clone(),
            table_comment: self.table_comment.clone(),
            remark: self.remark.clone(),
            row_count: self.row_count,
            last_trans_time: self.last_trans_time,
            base_entity: self.base_entity,
        }
    }
}

impl Audited for TransTask {
    open spec fn audit(&self) -> BaseEntity {
        self.base_entity
    }

    open spec fn key(&self) -> Option<i64> {
        self.trans_task_id
    }

    open spec fn with_audit(&self, b: BaseEntity) -> TransTask {
        TransTask { base_entity: b, ..*self }
    }

    proof fn lemma_with_audit(&self, b: BaseEntity) {
    }

    fn base_entity(&self) -> (r: &BaseEntity) {
        &self.base_entity
    }

    fn set_base_entity(&mut self, b: BaseEntity) {
        self.base_entity = b;
    }
}

} // verus!
