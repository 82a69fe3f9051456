use vstd::prelude::*;
use crate::audited::{Audited, live_lookup};
use crate::service::live_row;
use crate::entity::BaseEntity;
use crate::user::User;

verus! {

#[derive(Clone, Debug)]
pub struct Pet {
    pub pet_id: Option<i64>,
    pub name: String,
    pub birth_date: Option<String>,
    pub pet_type_id: Option<i64>,
    pub owner_id: Option<i64>,
    pub base_entity: BaseEntity,
}

#[derive(Clone, Debug)]
pub struct PetCreateBo {
    pub name: String,
    pub birth_date: Option<String>,
    pub pet_type_id: Option<i64>,
    pub owner_id: Option<i64>,
}

#[derive(Clone, Debug)]
pub struct PetUpdateBo {
    pub pet_id: Option<i64>,
    pub name: String,
    pub birth_date: Option<String>,
    pub pet_type_id: Option<i64>,
    pub owner_id: Option<i64>,
}

#[derive(Clone, Debug)]
pub struct PetListVo {
    pub pet_id: i64,
    pub name: String,
    pub birth_date: Option<String>,
    pub pet_type_id: Option<i64>,
    pub owner_id: Option<i64>,
    pub base_entity: BaseEntity,
}

impl Pet {
    /// A new pet from `bo`, created by `user` at `now`.
    pub fn from_create_bo(bo: PetCreateBo, user: &User, now: i64) -> (r: Pet)
        ensures
            r.pet_id is None,
            r.name == bo.name,
            r.birth_date == bo.birth_date,
            r.pet_type_id == bo.pet_type_id,
            r.owner_id == bo.owner_id,
            r.base_entity == BaseEntity::created(user.acting_id(), now),
    {
        Pet {
            pet_id: None,
            name: bo.name,
            birth_date: bo.birth_date,
            pet_type_id: bo.pet_type_id,
            owner_id: bo.owner_id,
            base_entity: BaseEntity::new(user.get_user_id(), now),
        }
    }

    /// The record after `bo` is applied by `by` at `now`.
    pub open spec fn updated_with(self, bo: PetUpdateBo, by: i64, now: i64) -> Pet {
        Pet {
            pet_id: bo.pet_id,
            name: bo.name,
            birth_date: bo.birth_date,
            pet_type_id: bo.pet_type_id,
            owner_id: bo.owner_id,
            base_entity: self.base_entity.updated(by, now),
            ..self
        }
    }

    /// Overwrites the fields from `bo` and records the update by `user` at
    /// `now`.
    pub fn from_update_bo(&mut self, bo: PetUpdateBo, user: &User, now: i64)
        requires
            old(self).base_entity.version < i64::MAX,
        ensures
            *final(self) == old(self).updated_with(bo, user.acting_id(), now),
    {
        self.pet_id = bo.pet_id;
        self.name = bo.name;
        self.birth_date = bo.birth_date;
        self.pet_type_id = bo.pet_type_id;
        self.owner_id = bo.owner_id;
        self.base_entity.update(user.get_user_id(), now);
    }

    /// The row that an update writes back, given the row that storage handed
    /// back: nothing for a missing or soft-deleted row, or one whose version
    /// cannot be raised; otherwise the row with `bo` applied by `user` at
    /// `now`.
    pub fn apply_update(row: Option<Pet>, bo: PetUpdateBo, user: &User, now: i64) -> (r: Option<Pet>)
        ensures
            live_lookup(row) is None ==> r is None,
            live_lookup(row) is Some && row->Some_0.base_entity.version == i64::MAX ==> r is None,
            live_lookup(row) is Some && row->Some_0.base_entity.version < i64::MAX ==> r == Some(
                row->Some_0.updated_with(bo, user.acting_id(), now),
            ),
    {
        match live_row(row) {
            Some(x) => {
                if x.base_entity.version == i64::MAX {
                    return None;
                }
                let mut x = x;
                x.from_update_bo(bo, user, now);
                Some(x)
            },
            None => None,
        }
    }

    pub fn to_list_vo(&self) -> (r: PetListVo)
        requires
            self.pet_id is Some,
        ensures
            Some(r.pet_id) == self.pet_id,
            r.name@ == self.name@,
            r.birth_date.is_some() == self.birth_date.is_some(),
            r.birth_date matches Some(d) ==> d@ == self.birth_date.unwrap()@,
            r.pet_type_id == self.pet_type_id,
            r.owner_id == self.owner_id,
            r.base_entity == self.base_entity,
    {
        PetListVo {
            pet_id: self.pet_id.unwrap(),
            name: self.name.clone(),
            birth_date: match &self.birth_date {
                Some(d) => Some(d.clone()),
                None => None,
            },
            pet_type_id: self.pet_type_id,
            owner_id: self.owner_id,
            base_entity: self.base_entity,
        }
    }
}

impl Audited for Pet {
    open spec fn audit(&self) -> BaseEntity {
        self.base_entity
    }

    open spec fn key(&self) -> Option<i64> {
        self.pet_id
    }

    open spec fn with_audit(&self, b: BaseEntity) -> Pet {
        Pet { base_entity: b, ..*self }
    }

    proof fn lemma_with_audit(&self, b: BaseEntity) {
    }

    fn base_entity(&self) -> (r: &BaseEntity) {
        &self.base_entity
    }

    fn set_base_entity(&mut self, b: BaseEntity) {
        self.base_entity = b;
    }
}

} // verus!
