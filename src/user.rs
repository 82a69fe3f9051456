use vstd::prelude::*;
use vstd::utf8::encode_utf8;
use crate::audited::{Audited, live_lookup};
use crate::service::live_row;
use crate::crypto_util::{bcrypt_check, bcrypt_hash};
use crate::entity::BaseEntity;

verus! {

/// The work factor of password hashes; bcrypt's default.
pub const PASSWORD_HASH_COST: u32 = 12;

#[derive(Clone, Debug)]
pub struct User {
    pub user_id: Option<i64>,
    pub username: String,
    pub password: String,
    pub first_name: String,
    pub last_name: String,
    pub email: Option<String>,
    pub active: String,
    pub base_entity: BaseEntity,
}

#[derive(Clone, Debug)]
pub struct UserCreateBo {
    pub username: String,
    pub password: String,
    pub first_name: String,
    pub last_name: String,
    pub email: Option<String>,
    pub active: String,
}

#[derive(Clone, Debug)]
pub struct UserUpdateBo {
    pub user_id: Option<i64>,
    pub username: String,
    pub first_name: String,
    pub last_name: String,
    pub email: Option<String>,
    pub active: String,
}

#[derive(Clone, Debug)]
pub struct UserListVo {
    pub user_id: i64,
    pub username: String,
    pub first_name: String,
    pub last_name: String,
    pub email: Option<String>,
    pub active: String,
    pub base_entity: BaseEntity,
}

impl User {
    /// The identifier stamped into audit fields: the user's id, or zero.
    pub open spec fn acting_id(&self) -> i64 {
        match self.user_id {
            Some(id) => id,
            None => 0,
        }
    }

    /// A new user from `bo`, created by `user` at `now`, whose stored
    /// password is `password_hash`.
    pub fn from_hashed_bo(bo: UserCreateBo, password_hash: String, user: &User, now: i64) -> (r: User)
        ensures
            r.user_id is None,
            r.username == bo.username,
            r.password == password_hash,
            r.first_name == bo.first_name,
            r.last_name == bo.last_name,
            r.email == bo.email,
            r.active == bo.active,
            r.base_entity == BaseEntity::created(user.acting_id(), now),
    {
        User {
            user_id: None,
            username: bo.username,
            password: password_hash,
            first_name: bo.first_name,
            last_name: bo.last_name,
            email: bo.email,
            active: bo.active,
            base_entity: BaseEntity::new(user.get_user_id(), now),
        }
    }

    /// A new user from `bo`, created by `user` at `now`; the password is
    /// stored as a bcrypt hash of a random salt. Whatever hash came back, the
    /// record is the one `from_hashed_bo` builds from it; the call fails only
    /// if hashing fails.
    pub fn from_create_bo(bo: UserCreateBo, user: &User, now: i64) -> (r: Result<User, String>)
        ensures
            r matches Ok(u) ==> {
                &&& u.user_id is None
                &&& u.username == bo.username
                &&& bcrypt_check(encode_utf8(bo.password@), u.password@) == Some(true)
                &&& u.first_name == bo.first_name
                &&& u.last_name == bo.last_name
                &&& u.email == bo.email
                &&& u.active == bo.active
                &&& u.base_entity == BaseEntity::created(user.acting_id(), now)
            },
    {
        match bcrypt_hash(bo.password.as_str(), PASSWORD_HASH_COST) {
            Ok(h) => Ok(Self::from_hashed_bo(bo, h, user, now)),
            Err(e) => Err(e),
        }
    }

    /// The record after `bo` is applied by `by` at `now`.
    pub open spec fn updated_with(self, bo: UserUpdateBo, by: i64, now: i64) -> User {
        User {
            user_id: bo.user_id,
            username: bo.username,
            first_name: bo.first_name,
            last_name: bo.last_name,
            email: bo.email,
            active: bo.active,
            base_entity: self.base_entity.updated(by, now),
            ..self
        }
    }

    /// Overwrites the editable fields from `bo` and records the update by
    /// `user` at `now`; the password and the creation fields are kept.
    pub fn from_update_bo(&mut self, bo: UserUpdateBo, user: &User, now: i64)
        requires
            old(self).base_entity.version < i64::MAX,
        ensures
            *final(self) == old(self).updated_with(bo, user.acting_id(), now),
    {
        self.user_id = bo.user_id;
        self.username = bo.username;
        self.first_name = bo.first_name;
        self.last_name = bo.last_name;
        self.email = bo.email;
        self.active = bo.active;
        self.base_entity.update(user.get_user_id(), now);
    }

    /// The row that an update writes back, given the row that storage handed
    /// back: nothing for a missing or soft-deleted row, or one whose version
    /// cannot be raised; otherwise the row with `bo` applied by `user` at
    /// `now`.
    pub fn apply_update(row: Option<User>, bo: UserUpdateBo, user: &User, now: i64) -> (r: Option<User>)
        ensures
            live_lookup(row) is None ==> r is None,
            live_lookup(row) is Some && row->Some_0.base_entity.version == i64::MAX ==> r is None,
            live_lookup(row) is Some && row->Some_0.base_entity.version < i64::MAX ==> r == Some(
                row->Some_0.updated_with(bo, user.acting_id(), now),
            ),
    {
        match live_row(row) {
            Some(x) => {
                if x.base_entity.version == i64::MAX {
                    return None;
                }
                let mut x = x;
                x.from_update_bo(bo, user, now);
                Some(x)
            },
            None => None,
        }
    }

    pub fn to_list_vo(&self) -> (r: UserListVo)
        requires
            self.user_id is Some,
        ensures
            Some(r.user_id) == self.user_id,
            r.username@ == self.username@,
            r.first_name@ == self.first_name@,
            r.last_name@ == self.last_name@,
            r.email.is_some() == self.email.is_some(),
            r.email matches Some(e) ==> e@ == self.email.unwrap()@,
            r.active@ == self.active@,
            r.base_entity == self.base_entity,
    {
        UserListVo {
            user_id: self.user_id.unwrap(),
            username: self.username.clone(),
            first_name: self.first_name.clone(),
            last_name: self.last_name.clone(),
            email: match &self.email {
                Some(e) => Some(e.clone()),
                None => None,
            },
            active: self.active.clone(),
            base_entity: self.base_entity,
        }
    }

    pub fn get_user_id(&self) -> (r: i64)
        ensures
            r == self.acting_id(),
    {
        match self.user_id {
            Some(id) => id,
            None => 0,
        }
    }
}

impl Audited for User {
    open spec fn audit(&self) -> BaseEntity {
        self.base_entity
    }

    open spec fn key(&self) -> Option<i64> {
        self.user_id
    }

    open spec fn with_audit(&self, b: BaseEntity) -> User {
        User { base_entity: b, ..*self }
    }

    proof fn lemma_with_audit(&self, b: BaseEntity) {
    }

    fn base_entity(&self) -> (r: &BaseEntity) {
        &self.base_entity
    }

    fn set_base_entity(&mut self, b: BaseEntity) {
        self.base_entity = b;
    }
}

} // verus!
