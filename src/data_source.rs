use vstd::prelude::*;
use vstd::string::StringExecFns;
use vstd::utf8::encode_utf8;
use crate::audited::{Audited, live_lookup};
use crate::auth::has_prefix;
use crate::crypto_util::{KEY_SIZE, PLAINTEXT_MAX, decrypt_password, encrypt_password, opened_text};
use crate::entity::BaseEntity;
use crate::service::live_row;
use crate::user::User;

verus! {

/// A registered external database; its password is stored encrypted.
#[derive(Clone, Debug)]
pub struct DataSource {
    pub data_source_id: Option<i64>,
    pub code: String,
    pub name: String,
    pub remark: String,
    pub db_type: String,
    pub db_host: String,
    pub db_port: u16,
    pub db_name: String,
    pub db_username: String,
    pub db_password: String,
    pub base_entity: BaseEntity,
}

#[derive(Clone, Debug)]
pub struct DataSourceCreateBo {
    pub code: String,
    pub name: String,
    pub remark: String,
    pub db_type: String,
    pub db_host: String,
    pub db_port: u16,
    pub db_name: String,
    pub db_username: String,
    pub db_password: String,
}

#[derive(Clone, Debug)]
pub struct DataSourceUpdateBo {
    pub data_source_id: Option<i64>,
    pub code: String,
    pub name: String,
    pub remark: String,
    pub db_type: String,
    pub db_host: String,
    pub db_port: u16,
    pub db_name: String,
    pub db_username: String,
    pub db_password: String,
}

#[derive(Clone, Debug)]
pub struct DataSourceListVo {
    pub data_source_id: i64,
    pub code: String,
    pub name: String,
    pub remark: String,
    pub db_type: String,
    pub db_name: String,
    pub base_entity: BaseEntity,
}

#[derive(Clone, Debug)]
pub struct DataSourceDetailVo {
    pub data_source_id: i64,
    pub code: String,
    pub name: String,
    pub remark: String,
    pub db_type: String,
    pub db_host: String,
    pub db_port: u16,
    pub db_name: String,
    pub db_username: String,
    pub db_password: String,
    pub base_entity: BaseEntity,
}

/// Where and as whom a connection probe connects; the password is in clear.
#[derive(Clone, Debug)]
pub struct ProbeTarget {
    pub db_host: String,
    pub db_port: u16,
    pub db_username: String,
    pub db_password: String,
    pub db_name: String,
}

pub open spec fn not_found_text() -> Seq<char> {
    "Data source not found"@
}

pub open spec fn undecryptable_prefix() -> Seq<char> {
    "密码解密失败: "@
}

pub open spec fn pool_created_text() -> Seq<char> {
    "Connection pool created successfully"@
}

pub open spec fn pool_failed_text() -> Seq<char> {
    "Connection pool creation failed"@
}

impl DataSource {
    /// A new data source from `bo`, created by `user` at `now`, with its
    /// password encrypted under `key`; the call fails only if encryption
    /// fails.
    pub fn from_create_bo(bo: DataSourceCreateBo, user: &User, key: &[u8], now: i64) -> (r: Result<
        DataSource,
        String,
    >)
        requires
            key@.len() == KEY_SIZE,
        ensures
            encode_utf8(bo.db_password@).len() <= PLAINTEXT_MAX ==> r is Ok,
            r matches Ok(d) ==> {
                &&& d.data_source_id is None
                &&& d.code == bo.code
                &&& d.name == bo.name
                &&& d.remark == bo.remark
                &&& d.db_type == bo.db_type
                &&& d.db_host == bo.db_host
                &&& d.db_port == bo.db_port
                &&& d.db_name == bo.db_name
                &&& d.db_username == bo.db_username
                &&& opened_text(key@, d.db_password@) == Some(bo.db_password@)
                &&& d.db_password@ != bo.db_password@
                &&& d.base_entity == BaseEntity::created(user.acting_id(), now)
            },
    {
        let encrypted = match encrypt_password(key, bo.db_password.as_str()) {
            Ok(p) => p,
            Err(e) => {
                return Err(String::from_str("Failed to encrypt password: ").concat(e.as_str()));
            },
        };
        Ok(DataSource {
            data_source_id: None,
            code: bo.code,
            name: bo.name,
            remark: bo.remark,
            db_type: bo.db_type,
            db_host: bo.db_host,
            db_port: bo.db_port,
            db_name: bo.db_name,
            db_username: bo.db_username,
            db_password: encrypted,
            base_entity: BaseEntity::new(user.get_user_id(), now),
        })
    }

    /// The record after `bo` is applied by `by` at `now`, with `password` as
    /// the stored password.
    pub open spec fn updated_with(self, bo: DataSourceUpdateBo, by: i64, now: i64, password: String) -> DataSource {
        DataSource {
            data_source_id: bo.data_source_id,
            code: bo.code,
            name: bo.name,
            remark: bo.remark,
            db_type: bo.db_type,
            db_host: bo.db_host,
            db_port: bo.db_port,
            db_name: bo.db_name,
            db_username: bo.db_username,
            db_password: password,
            base_entity: self.base_entity.updated(by, now),
        }
    }

    /// Overwrites the fields from `bo`, with the new password encrypted under
    /// `key`, and records the update by `user` at `now`. Where encryption
    /// fails the record is left as it was.
    pub fn from_update_bo(&mut self, bo: DataSourceUpdateBo, user: &User, key: &[u8], now: i64) -> (r:
        Result<(), String>)
        requires
            key@.len() == KEY_SIZE,
            old(self).base_entity.version < i64::MAX,
        ensures
            encode_utf8(bo.db_password@).len() <= PLAINTEXT_MAX ==> r is Ok,
            r is Err ==> *final(self) == *old(self),
            r is Ok ==> *final(self) == old(self).updated_with(
                bo,
                user.acting_id(),
                now,
                final(self).db_password,
            ),
            r is Ok ==> opened_text(key@, final(self).db_password@) == Some(bo.db_password@),
            r is Ok ==> final(self).db_password@ != bo.db_password@,
    {
        let encrypted = match encrypt_password(key, bo.db_password.as_str()) {
            Ok(p) => p,
            Err(e) => {
                return Err(String::from_str("Failed to encrypt password: ").concat(e.as_str()));
            },
        };
        self.data_source_id = bo.data_source_id;
        self.code = bo.code;
        self.name = bo.name;
        self.remark = bo.remark;
        self.db_type = bo.db_type;
        self.db_host = bo.db_host;
        self.db_port = bo.db_port;
        self.db_name = bo.db_name;
        self.db_username = bo.db_username;
        self.db_password = encrypted;
        self.base_entity.update(user.get_user_id(), now);
        Ok(())
    }

    /// The row that an update writes back, given the row that storage handed
    /// back: nothing for a missing or soft-deleted row, for one whose version
    /// cannot be raised, or where encryption fails; otherwise the row with
    /// `bo` applied by `user` at `now` and the new password encrypted under
    /// `key`.
    pub fn apply_update(row: Option<DataSource>, bo: DataSourceUpdateBo, user: &User, key: &[u8], now: i64) -> (r: Option<DataSource>)
        requires
            key@.len() == KEY_SIZE,
        ensures
            live_lookup(row) is None ==> r is None,
            live_lookup(row) is Some && row->Some_0.base_entity.version == i64::MAX ==> r is None,
            live_lookup(row) is Some && row->Some_0.base_entity.version < i64::MAX && encode_utf8(
                bo.db_password@,
            ).len() <= PLAINTEXT_MAX ==> r is Some,
            r matches Some(d) ==> live_lookup(row) is Some && d == row->Some_0.updated_with(
                bo,
                user.acting_id(),
                now,
                d.db_password,
            ) && opened_text(key@, d.db_password@) == Some(bo.db_password@) && d.db_password@
                != bo.db_password@,
    {
        match live_row(row) {
            Some(x) => {
                if x.base_entity.version == i64::MAX {
                    return None;
                }
                let mut x = x;
                match x.from_update_bo(bo, user, key, now) {
                    Ok(()) => Some(x),
                    Err(_) => None,
                }
            },
            None => None,
        }
    }

    pub fn to_list_vo(&self) -> (r: DataSourceListVo)
        requires
            self.data_source_id is Some,
        ensures
            Some(r.data_source_id) == self.data_source_id,
            r.code@ == self.code@,
            r.name@ == self.name@,
            r.remark@ == self.remark@,
            r.db_type@ == self.db_type@,
            r.db_name@ == self.db_name@,
            r.base_entity == self.base_entity,
    {
        DataSourceListVo {
            data_source_id: self.data_source_id.unwrap(),
            code: self.code.clone(),
            name: self.name.clone(),
            remark: self.remark.clone(),
            db_type: self.db_type.clone(),
            db_name: self.db_name.clone(),
            base_entity: self.base_entity,
        }
    }

    /// The full view of the record, with the password decrypted under `key`;
    /// fails exactly when the stored password does not open under `key`.
    pub fn to_detail_vo(&self, key: &[u8]) -> (r: Result<DataSourceDetailVo, String>)
        requires
            self.data_source_id is Some,
            key@.len() == KEY_SIZE,
        ensures
            r is Ok <==> opened_text(key@, self.db_password@) is Some,
            r matches Ok(v) ==> {
                &&& Some(v.data_source_id) == self.data_source_id
                &&& v.code@ == self.code@
                &&& v.name@ == self.name@
                &&& v.remark@ == self.remark@
                &&& v.db_type@ == self.db_type@
                &&& v.db_host@ == self.db_host@
                &&& v.db_port == self.db_port
                &&& v.db_name@ == self.db_name@
                &&& v.db_username@ == self.db_username@
                &&& opened_text(key@, self.db_password@) == Some(v.db_password@)
                &&& v.base_entity == self.base_entity
            },
    {
        let decrypted = match decrypt_password(key, self.db_password.as_str()) {
            Ok(p) => p,
            Err(e) => {
                return Err(String::from_str("Failed to decrypt password: ").concat(e.as_str()));
            },
        };
        Ok(DataSourceDetailVo {
            data_source_id: self.data_source_id.unwrap(),
            code: self.code.clone(),
            name: self.name.clone(),
            remark: self.remark.clone(),
            db_type: self.db_type.clone(),
            db_host: self.db_host.clone(),
            db_port: self.db_port,
            db_name: self.db_name.clone(),
            db_username: self.db_username.clone(),
            db_password: decrypted,
            base_entity: self.base_entity,
        })
    }

    /// Where a connection probe for the stored row `row` connects, with the
    /// password decrypted once under `key`. A missing or soft-deleted row,
    /// and a password that does not open, end the probe with a message.
    pub fn probe_target(row: Option<DataSource>, key: &[u8]) -> (r: Result<ProbeTarget, String>)
        requires
            key@.len() == KEY_SIZE,
        ensures
            live_lookup(row) is None ==> (r matches Err(m) && m@ == not_found_text()),
            live_lookup(row) is Some && opened_text(key@, row->Some_0.db_password@) is None ==> (
            r matches Err(m) && has_prefix(m@, undecryptable_prefix())),
            live_lookup(row) is Some && opened_text(key@, row->Some_0.db_password@) is Some ==> (
            r matches Ok(t) && {
                let d = row->Some_0;
                &&& t.db_host@ == d.db_host@
                &&& t.db_port == d.db_port
                &&& t.db_username@ == d.db_username@
                &&& t.db_name@ == d.db_name@
                &&& opened_text(key@, d.db_password@) == Some(t.db_password@)
            }),
    {
        let d = match live_row(row) {
            Some(d) => d,
            None => {
                return Err(String::from_str("Data source not found"));
            },
        };
        let password = match decrypt_password(key, d.db_password.as_str()) {
            Ok(p) => p,
            Err(e) => {
                let m = String::from_str("密码解密失败: ").concat(e.as_str());
                assert(("密码解密失败: "@ + e@).subrange(0, "密码解密失败: "@.len() as int)
                    =~= "密码解密失败: "@);
                return Err(m);
            },
        };
        Ok(ProbeTarget {
            db_host: d.db_host.clone(),
            db_port: d.db_port,
            db_username: d.db_username.clone(),
            db_password: password,
            db_name: d.db_name.clone(),
        })
    }

    /// The outcome and message reported for a probe whose connection pool
    /// was, or was not, created.
    pub fn probe_report(pool_created: bool) -> (r: (bool, String))
        ensures
            r.0 == pool_created,
            pool_created ==> r.1@ == pool_created_text(),
            !pool_created ==> r.1@ == pool_failed_text(),
    {
        if pool_created {
            (true, String::from_str("Connection pool created successfully"))
        } else {
            (false, String::from_str("Connection pool creation failed"))
        }
    }
}

impl Audited for DataSource {
    open spec fn audit(&self) -> BaseEntity {
        self.base_entity
    }

    open spec fn key(&self) -> Option<i64> {
        self.data_source_id
    }

    open spec fn with_audit(&self, b: BaseEntity) -> DataSource {
        DataSource { base_entity: b, ..*self }
    }

    proof fn lemma_with_audit(&self, b: BaseEntity) {
    }

    fn base_entity(&self) -> (r: &BaseEntity) {
        &self.base_entity
    }

    fn set_base_entity(&mut self, b: BaseEntity) {
        self.base_entity = b;
    }
}

} // verus!
