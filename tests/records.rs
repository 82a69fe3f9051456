use rust_admin::data_source::{DataSource, DataSourceCreateBo, DataSourceUpdateBo};
use rust_admin::entity::BaseEntity;
use rust_admin::pet::{Pet, PetCreateBo, PetUpdateBo};
use rust_admin::pet_type::{PetType, PetTypeCreateBo, PetTypeUpdateBo};
use rust_admin::service::{live_row, live_rows, soft_delete_row};
use rust_admin::trans_task::{TransTask, TransTaskCreateBo, TransTaskUpdateBo};
use rust_admin::user::{User, UserCreateBo, UserUpdateBo};

const KEY: &[u8] = b"784c22b8761cdd04773ddf6dec11f8f6";

fn actor(id: Option<i64>) -> User {
    User {
        user_id: id,
        username: "admin".to_string(),
        password: "x".to_string(),
        first_name: "A".to_string(),
        last_name: "B".to_string(),
        email: Some("a@b.c".to_string()),
        active: "1".to_string(),
        base_entity: BaseEntity::new(0, 0),
    }
}

fn pet(id: i64, name: &str) -> Pet {
    let mut p = Pet::from_create_bo(
        PetCreateBo { name: name.to_string(), birth_date: None, pet_type_id: Some(2), owner_id: Some(3) },
        &actor(Some(1)),
        100,
    );
    p.pet_id = Some(id);
    p
}

#[test]
fn created_pet_reads_back_at_version_one() {
    let p = live_row(Some(pet(1, "rex"))).unwrap();
    assert_eq!(p.base_entity.version, 1);
    assert_eq!(p.base_entity.created_by, 1);
    assert_eq!(p.base_entity.deleted_by, None);
    assert_eq!(p.base_entity.deleted_date, None);
    assert_eq!(p.name, "rex");
}

#[test]
fn acting_user_without_id_stamps_zero() {
    let p = Pet::from_create_bo(
        PetCreateBo { name: "rex".to_string(), birth_date: None, pet_type_id: None, owner_id: None },
        &actor(None),
        5,
    );
    assert_eq!(p.base_entity.created_by, 0);
    assert_eq!(actor(None).get_user_id(), 0);
    assert_eq!(actor(Some(4)).get_user_id(), 4);
}

#[test]
fn pet_update_applies_fields_and_bumps_version() {
    let bo = PetUpdateBo {
        pet_id: Some(1),
        name: "max".to_string(),
        birth_date: Some("2020-01-01".to_string()),
        pet_type_id: Some(9),
        owner_id: None,
    };
    let p = Pet::apply_update(Some(pet(1, "rex")), bo, &actor(Some(6)), 200).unwrap();
    assert_eq!(p.name, "max");
    assert_eq!(p.birth_date.as_deref(), Some("2020-01-01"));
    assert_eq!(p.pet_type_id, Some(9));
    assert_eq!(p.owner_id, None);
    assert_eq!(p.base_entity.version, 2);
    assert_eq!(p.base_entity.last_modified_by, 6);
    assert_eq!(p.base_entity.last_modified_date, 200);
    assert_eq!(p.base_entity.created_by, 1);
    assert_eq!(p.base_entity.created_date, 100);
}

#[test]
fn update_of_missing_or_deleted_row_writes_nothing() {
    let bo = || PetUpdateBo { pet_id: Some(1), name: "m".to_string(), birth_date: None, pet_type_id: None, owner_id: None };
    assert!(Pet::apply_update(None, bo(), &actor(Some(1)), 1).is_none());
    let gone = soft_delete_row(Some(pet(1, "rex")), 1, 50).unwrap();
    assert!(Pet::apply_update(Some(gone), bo(), &actor(Some(1)), 1).is_none());
    let mut maxed = pet(1, "rex");
    maxed.base_entity.version = i64::MAX;
    assert!(Pet::apply_update(Some(maxed), bo(), &actor(Some(1)), 1).is_none());
}

#[test]
fn soft_delete_hides_the_row() {
    let deleted = soft_delete_row(Some(pet(1, "rex")), 4, 300).unwrap();
    assert_eq!(deleted.base_entity.deleted_by, Some(4));
    assert_eq!(deleted.base_entity.deleted_date, Some(300));
    assert_eq!(deleted.base_entity.version, 1);
    assert!(live_row(Some(deleted.clone())).is_none());
    let listed = live_rows(vec![pet(2, "a"), deleted.clone(), pet(3, "b")]);
    assert_eq!(listed.iter().map(|p| p.pet_id).collect::<Vec<_>>(), vec![Some(2), Some(3)]);
    // a soft-deleted row cannot be deleted again
    assert!(soft_delete_row(Some(deleted), 5, 400).is_none());
    assert!(soft_delete_row::<Pet>(None, 5, 400).is_none());
}

#[test]
fn listing_keeps_order_and_handles_empty() {
    assert!(live_rows::<Pet>(vec![]).is_empty());
    let listed = live_rows(vec![pet(3, "c"), pet(1, "a"), pet(2, "b")]);
    assert_eq!(listed.iter().map(|p| p.name.as_str()).collect::<Vec<_>>(), vec!["c", "a", "b"]);
}

#[test]
fn pet_list_view() {
    let v = pet(7, "rex").to_list_vo();
    assert_eq!((v.pet_id, v.name.as_str(), v.pet_type_id, v.owner_id), (7, "rex", Some(2), Some(3)));
    assert_eq!(v.base_entity.version, 1);
}

#[test]
fn pet_type_lifecycle() {
    let mut t = PetType::from_create_bo(PetTypeCreateBo { color: "red".to_string() });
    assert_eq!(t.pet_type_id, None);
    assert_eq!(t.color, "red");
    t.from_update_bo(PetTypeUpdateBo { pet_type_id: Some(4), color: "blue".to_string() });
    assert_eq!((t.pet_type_id, t.color.as_str()), (Some(4), "blue"));
    let v = t.to_list_vo();
    assert_eq!((v.pet_type_id, v.color.as_str()), (4, "blue"));
    let u = PetType::apply_update(Some(t), PetTypeUpdateBo { pet_type_id: Some(4), color: "green".to_string() }).unwrap();
    assert_eq!(u.color, "green");
    assert!(PetType::apply_update(None, PetTypeUpdateBo { pet_type_id: Some(4), color: "g".to_string() }).is_none());
}

#[test]
fn user_creation_hashes_password() {
    let bo = UserCreateBo {
        username: "carol".to_string(),
        password: "hunter2".to_string(),
        first_name: "C".to_string(),
        last_name: "D".to_string(),
        email: None,
        active: "1".to_string(),
    };
    let u = User::from_create_bo(bo, &actor(Some(1)), 10).unwrap();
    assert_ne!(u.password, "hunter2");
    assert!(bcrypt::verify("hunter2", &u.password).unwrap());
    assert_eq!(u.username, "carol");
    assert_eq!(u.base_entity.version, 1);
    assert_eq!(u.base_entity.created_by, 1);
}

#[test]
fn user_update_keeps_password() {
    let mut u = actor(Some(2));
    let bo = UserUpdateBo {
        user_id: Some(2),
        username: "new".to_string(),
        first_name: "N".to_string(),
        last_name: "M".to_string(),
        email: None,
        active: "0".to_string(),
    };
    u.from_update_bo(bo, &actor(Some(9)), 50);
    assert_eq!(u.username, "new");
    assert_eq!(u.password, "x");
    assert_eq!(u.email, None);
    assert_eq!(u.base_entity.version, 2);
    assert_eq!(u.base_entity.last_modified_by, 9);
    let v = u.to_list_vo();
    assert_eq!((v.user_id, v.username.as_str(), v.active.as_str()), (2, "new", "0"));
}

fn ds_bo(password: &str) -> DataSourceCreateBo {
    DataSourceCreateBo {
        code: "c1".to_string(),
        name: "main".to_string(),
        remark: "".to_string(),
        db_type: "mysql".to_string(),
        db_host: "db.local".to_string(),
        db_port: 3306,
        db_name: "shop".to_string(),
        db_username: "root".to_string(),
        db_password: password.to_string(),
    }
}

#[test]
fn data_source_password_is_stored_encrypted() {
    let mut d = DataSource::from_create_bo(ds_bo("secret123"), &actor(Some(1)), KEY, 10).unwrap();
    assert_ne!(d.db_password, "secret123");
    assert_eq!(d.base_entity.version, 1);
    d.data_source_id = Some(11);
    let t = DataSource::probe_target(Some(d.clone()), KEY).unwrap();
    assert_eq!(t.db_password, "secret123");
    assert_eq!((t.db_host.as_str(), t.db_port, t.db_username.as_str(), t.db_name.as_str()), ("db.local", 3306, "root", "shop"));
    let detail = d.to_detail_vo(KEY).unwrap();
    assert_eq!(detail.db_password, "secret123");
    assert_eq!(detail.data_source_id, 11);
    let list = d.to_list_vo();
    assert_eq!((list.data_source_id, list.code.as_str(), list.db_name.as_str()), (11, "c1", "shop"));
}

#[test]
fn probe_of_missing_or_deleted_source_reports_not_found() {
    assert_eq!(DataSource::probe_target(None, KEY).unwrap_err(), "Data source not found");
    let d = DataSource::from_create_bo(ds_bo("pw"), &actor(Some(1)), KEY, 10).unwrap();
    let gone = soft_delete_row(Some(d), 1, 20).unwrap();
    assert_eq!(DataSource::probe_target(Some(gone), KEY).unwrap_err(), "Data source not found");
}

#[test]
fn probe_with_undecryptable_password_fails() {
    let mut d = DataSource::from_create_bo(ds_bo("pw"), &actor(Some(1)), KEY, 10).unwrap();
    d.db_password = "secret123".to_string();
    let err = DataSource::probe_target(Some(d.clone()), KEY).unwrap_err();
    assert!(err.starts_with("密码解密失败: "), "{err}");
    d.data_source_id = Some(1);
    assert!(d.to_detail_vo(KEY).is_err());
}

#[test]
fn probe_report_messages() {
    assert_eq!(DataSource::probe_report(true), (true, "Connection pool created successfully".to_string()));
    assert_eq!(DataSource::probe_report(false), (false, "Connection pool creation failed".to_string()));
}

#[test]
fn data_source_update_reencrypts() {
    let mut d = DataSource::from_create_bo(ds_bo("old"), &actor(Some(1)), KEY, 10).unwrap();
    d.data_source_id = Some(3);
    let bo = DataSourceUpdateBo {
        data_source_id: Some(3),
        code: "c2".to_string(),
        name: "n2".to_string(),
        remark: "r".to_string(),
        db_type: "mysql".to_string(),
        db_host: "h2".to_string(),
        db_port: 3307,
        db_name: "d2".to_string(),
        db_username: "u2".to_string(),
        db_password: "new-secret".to_string(),
    };
    let u = DataSource::apply_update(Some(d), bo, &actor(Some(5)), KEY, 30).unwrap();
    assert_eq!((u.code.as_str(), u.db_port, u.base_entity.version, u.base_entity.last_modified_by), ("c2", 3307, 2, 5));
    assert_ne!(u.db_password, "new-secret");
    assert_eq!(u.to_detail_vo(KEY).unwrap().db_password, "new-secret");
}

#[test]
fn trans_task_lifecycle() {
    let bo = TransTaskCreateBo {
        data_source_id: Some(4),
        table_name: "orders".to_string(),
        table_comment: "all orders".to_string(),
        remark: "".to_string(),
    };
    let mut t = TransTask::from_create_bo(bo, &actor(Some(1)), 77);
    assert_eq!((t.data_source_id, t.row_count, t.last_trans_time), (4, 0, 77));
    assert_eq!(t.base_entity.version, 1);
    t.trans_task_id = Some(12);
    let up = TransTaskUpdateBo {
        trans_task_id: Some(12),
        data_source_id: Some(5),
        table_name: "items".to_string(),
        table_comment: "c".to_string(),
        remark: "r".to_string(),
    };
    let t = TransTask::apply_update(Some(t), up, &actor(Some(2)), 90).unwrap();
    assert_eq!((t.data_source_id, t.table_name.as_str(), t.last_trans_time), (5, "items", 77));
    assert_eq!(t.base_entity.version, 2);
    let v = t.to_list_vo();
    assert_eq!((v.trans_task_id, v.table_name.as_str()), (12, "items"));
    let d = t.to_detail_vo();
    assert_eq!((d.trans_task_id, d.data_source_id, d.row_count), (12, 5, 0));
}

#[test]
fn user_from_hashed_bo_keeps_the_given_hash() {
    let bo = UserCreateBo {
        username: "dave".to_string(),
        password: "plain".to_string(),
        first_name: "D".to_string(),
        last_name: "E".to_string(),
        email: Some("d@e.f".to_string()),
        active: "1".to_string(),
    };
    let u = User::from_hashed_bo(bo, "$2b$04$hash".to_string(), &actor(Some(3)), 44);
    assert_eq!(u.password, "$2b$04$hash");
    assert_eq!(u.user_id, None);
    assert_eq!(u.email.as_deref(), Some("d@e.f"));
    assert_eq!((u.base_entity.version, u.base_entity.created_by, u.base_entity.created_date), (1, 3, 44));
}
