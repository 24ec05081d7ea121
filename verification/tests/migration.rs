use firewall_companion::db::{ApiInfo, Database, StoreError};
use firewall_companion::migration::{
    initialize_tables, migrate_data, schema_version, ProfileTable, SchemaVersion, StoreImage,
    StoredRow,
};

fn row(id: i64, name: &str, is_default: bool, password_hash: &str) -> StoredRow {
    StoredRow {
        profile: ApiInfo {
            id,
            profile_name: name.to_string(),
            api_key: format!("key-{}", id),
            api_secret: format!("secret-{}", id),
            api_url: "https://10.0.0.1".to_string(),
            port: 8443,
            is_default,
        },
        password_hash: password_hash.to_string(),
    }
}

fn legacy(rows: Vec<StoredRow>) -> StoreImage {
    StoreImage {
        first_run: Some(true),
        password_hash: None,
        api_info: Some(ProfileTable {
            has_profile_name: false,
            has_is_default: false,
            has_password_hash: true,
            rows,
        }),
    }
}

fn legacy_single() -> StoreImage {
    legacy(vec![row(1, "", false, "$argon2id$embedded")])
}

fn current(rows: Vec<StoredRow>) -> StoreImage {
    StoreImage {
        first_run: None,
        password_hash: Some("$argon2id$stored".to_string()),
        api_info: Some(ProfileTable {
            has_profile_name: true,
            has_is_default: true,
            has_password_hash: false,
            rows,
        }),
    }
}

#[test]
fn layouts_are_told_apart_by_their_columns() {
    let absent = StoreImage { first_run: None, password_hash: None, api_info: None };
    assert_eq!(schema_version(&absent), SchemaVersion::Absent);
    assert_eq!(schema_version(&legacy_single()), SchemaVersion::LegacySingleProfile);
    assert_eq!(schema_version(&current(vec![])), SchemaVersion::Current);
    for (name, default, hash) in [
        (false, true, false),
        (true, false, false),
        (true, true, true),
        (false, false, false),
    ] {
        let mut image = current(vec![]);
        let table = image.api_info.as_mut().unwrap();
        table.has_profile_name = name;
        table.has_is_default = default;
        table.has_password_hash = hash;
        assert_eq!(schema_version(&image), SchemaVersion::LegacySingleProfile);
    }
}

#[test]
fn an_absent_store_becomes_an_empty_current_one() {
    let absent = StoreImage { first_run: None, password_hash: None, api_info: None };
    let ready = initialize_tables(absent);
    assert_eq!(schema_version(&ready), SchemaVersion::Current);
    assert_eq!(ready.api_info.as_ref().unwrap().rows, vec![]);
    let absent = StoreImage { first_run: None, password_hash: None, api_info: None };
    let migrated = migrate_data(absent);
    assert_eq!(migrated, ready);
    let db = Database::new(migrated).unwrap();
    assert_eq!(db.is_first_run(), Ok(true));
    assert_eq!(db.list_api_profiles(), Ok(vec![]));
}

#[test]
fn initialize_keeps_a_table_that_is_there() {
    assert_eq!(initialize_tables(legacy_single()), legacy_single());
    let image = current(vec![row(3, "A", true, "")]);
    assert_eq!(initialize_tables(image), current(vec![row(3, "A", true, "")]));
}

#[test]
fn migration_moves_the_embedded_pin_hash_and_flags_the_profile() {
    let migrated = migrate_data(legacy_single());
    assert_eq!(schema_version(&migrated), SchemaVersion::Current);
    assert_eq!(migrated.password_hash, Some("$argon2id$embedded".to_string()));
    assert_eq!(migrated.first_run, Some(true));
    let table = migrated.api_info.unwrap();
    assert!(!table.has_password_hash);
    assert_eq!(table.rows, vec![row(1, "Default", true, "")]);
}

#[test]
fn an_opened_legacy_store_keeps_pin_hash_and_credentials() {
    let db = Database::new(legacy_single()).unwrap();
    assert_eq!(db.password_hash(), Some("$argon2id$embedded".to_string()));
    assert_eq!(db.is_first_run(), Ok(false));
    let profile = db.get_api_info(None).unwrap().unwrap();
    assert_eq!(profile, row(1, "Default", true, "").profile);
    assert_eq!(db.get_api_info(Some("Default")).unwrap().unwrap().api_key, "key-1");
}

#[test]
fn the_embedded_pin_hash_is_kept_whatever_the_identifier() {
    let migrated = migrate_data(legacy(vec![row(7, "", false, "$argon2id$seven")]));
    assert_eq!(migrated.password_hash, Some("$argon2id$seven".to_string()));
    assert_eq!(migrated.api_info.unwrap().rows, vec![row(7, "Default", true, "")]);
}

#[test]
fn migrating_twice_is_migrating_once() {
    let images = [
        legacy_single(),
        legacy(vec![]),
        legacy(vec![row(5, "", false, "x"), row(2, "", false, "y")]),
        current(vec![row(1, "A", false, "left over"), row(2, "B", true, "")]),
        StoreImage { first_run: Some(false), password_hash: None, api_info: None },
    ];
    for image in images {
        let once = migrate_data(image);
        let copy = StoreImage {
            first_run: once.first_run,
            password_hash: once.password_hash.clone(),
            api_info: once.api_info.as_ref().map(|table| ProfileTable {
                has_profile_name: table.has_profile_name,
                has_is_default: table.has_is_default,
                has_password_hash: table.has_password_hash,
                rows: table
                    .rows
                    .iter()
                    .map(|r| StoredRow {
                        profile: r.profile.clone(),
                        password_hash: r.password_hash.clone(),
                    })
                    .collect(),
            }),
        };
        let twice = migrate_data(copy);
        assert_eq!(schema_version(&once), SchemaVersion::Current);
        assert_eq!(twice, once);
    }
}

#[test]
fn a_current_store_is_left_as_it_is() {
    let image = current(vec![row(1, "A", false, "left over"), row(2, "B", true, "")]);
    let migrated = migrate_data(image);
    assert_eq!(migrated, current(vec![row(1, "A", false, "left over"), row(2, "B", true, "")]));
}

#[test]
fn the_lowest_identifier_is_promoted_and_gives_the_pin_hash() {
    let migrated = migrate_data(legacy(vec![
        row(5, "", false, "five"),
        row(2, "", false, "two"),
        row(9, "", false, "nine"),
    ]));
    assert_eq!(migrated.password_hash, Some("two".to_string()));
    assert_eq!(
        migrated.api_info.unwrap().rows,
        vec![row(5, "Default", false, ""), row(2, "Default", true, ""), row(9, "Default", false, "")]
    );
}

#[test]
fn a_legacy_store_without_rows_keeps_the_stored_pin_hash() {
    let mut image = legacy(vec![]);
    image.password_hash = Some("kept".to_string());
    let migrated = migrate_data(image);
    assert_eq!(migrated.password_hash, Some("kept".to_string()));
    assert_eq!(schema_version(&migrated), SchemaVersion::Current);
}

#[test]
fn an_embedded_pin_hash_replaces_the_stored_one() {
    let mut image = legacy_single();
    image.password_hash = Some("older".to_string());
    assert_eq!(migrate_data(image).password_hash, Some("$argon2id$embedded".to_string()));
}

#[test]
fn steps_are_taken_column_by_column() {
    let mut image = current(vec![row(1, "A", false, "h1"), row(2, "B", false, "h2")]);
    image.api_info.as_mut().unwrap().has_is_default = false;
    let migrated = migrate_data(image);
    assert_eq!(migrated.password_hash, Some("$argon2id$stored".to_string()));
    assert_eq!(
        migrated.api_info.unwrap().rows,
        vec![row(1, "A", true, "h1"), row(2, "B", false, "h2")]
    );
    let mut image = current(vec![row(1, "A", false, "h1"), row(2, "B", true, "h2")]);
    image.api_info.as_mut().unwrap().has_password_hash = true;
    let migrated = migrate_data(image);
    assert_eq!(migrated.password_hash, Some("h1".to_string()));
    assert_eq!(
        migrated.api_info.unwrap().rows,
        vec![row(1, "A", false, ""), row(2, "B", true, "")]
    );
}

#[test]
fn a_store_with_two_profiles_of_one_name_does_not_open() {
    let image = legacy(vec![row(1, "", false, "a"), row(2, "", false, "b")]);
    assert_eq!(Database::new(image).err(), Some(StoreError::MigrationError));
    let image = current(vec![row(1, "A", true, ""), row(2, "A", false, "")]);
    assert_eq!(Database::new(image).err(), Some(StoreError::MigrationError));
}

#[test]
fn a_store_whose_rows_are_out_of_order_does_not_open() {
    let image = current(vec![row(2, "A", true, ""), row(1, "B", false, "")]);
    assert_eq!(Database::new(image).err(), Some(StoreError::MigrationError));
    let image = current(vec![row(1, "A", true, ""), row(1, "B", false, "")]);
    assert_eq!(Database::new(image).err(), Some(StoreError::MigrationError));
}

#[test]
fn a_current_store_opens_with_what_it_holds() {
    let image = current(vec![row(-4, "B", false, ""), row(3, "A", true, "")]);
    let db = Database::new(image).unwrap();
    assert_eq!(db.password_hash(), Some("$argon2id$stored".to_string()));
    assert_eq!(db.first_run(), None);
    assert_eq!(
        db.list_api_profiles(),
        Ok(vec![row(3, "A", true, "").profile, row(-4, "B", false, "").profile])
    );
}
