use firewall_companion::appliance::build_api_url;
use firewall_companion::db::{ApiInfo, Database, StoreError};
use firewall_companion::migration::{ProfileTable, StoreImage, StoredRow};

fn fresh() -> Database {
    Database::new(StoreImage { first_run: None, password_hash: None, api_info: None }).unwrap()
}

fn profile(name: &str, is_default: bool) -> ApiInfo {
    ApiInfo {
        id: 0,
        profile_name: name.to_string(),
        api_key: format!("key-{}", name),
        api_secret: format!("secret-{}", name),
        api_url: "https://192.168.1.1".to_string(),
        port: 443,
        is_default,
    }
}

fn defaults(db: &Database) -> Vec<String> {
    db.list_api_profiles()
        .unwrap()
        .into_iter()
        .filter(|p| p.is_default)
        .map(|p| p.profile_name)
        .collect()
}

#[test]
fn default_profile_is_empty_before_any_save() {
    let db = fresh();
    assert_eq!(db.get_api_info(None), Ok(None));
    assert_eq!(db.get_default_api_info(), Ok(None));
    assert_eq!(db.list_api_profiles(), Ok(vec![]));
}

#[test]
fn first_saved_profile_becomes_default() {
    let mut db = fresh();
    assert_eq!(db.save_api_info(&profile("A", false)), Ok(()));
    let found = db.get_api_info(None).unwrap().unwrap();
    assert_eq!(found.profile_name, "A");
    assert!(found.is_default);
    assert_eq!(found.id, 1);
    assert_eq!(found.api_key, "key-A");
    assert_eq!(found.api_secret, "secret-A");
    assert_eq!(found.port, 443);
}

#[test]
fn saves_with_distinct_names_keep_one_default() {
    let mut db = fresh();
    for name in ["delta", "alpha", "charlie", "bravo"] {
        db.save_api_info(&profile(name, false)).unwrap();
        assert_eq!(defaults(&db), vec!["delta".to_string()]);
    }
}

#[test]
fn a_saved_profile_that_asks_to_be_default_is_the_only_one() {
    let mut db = fresh();
    db.save_api_info(&profile("A", true)).unwrap();
    assert_eq!(defaults(&db), vec!["A".to_string()]);
    db.save_api_info(&profile("B", true)).unwrap();
    assert_eq!(defaults(&db), vec!["B".to_string()]);
    assert_eq!(db.get_api_info(None).unwrap().unwrap().profile_name, "B");
    db.save_api_info(&profile("C", false)).unwrap();
    assert_eq!(defaults(&db), vec!["B".to_string()]);
    db.save_api_info(&profile("A", true)).unwrap();
    assert_eq!(defaults(&db), vec!["A".to_string()]);
    assert_eq!(db.list_api_profiles().unwrap().len(), 3);
}

#[test]
fn saving_the_default_again_without_the_flag_promotes_the_lowest_identifier() {
    let mut db = fresh();
    db.save_api_info(&profile("A", false)).unwrap();
    db.save_api_info(&profile("B", false)).unwrap();
    db.save_api_info(&profile("A", false)).unwrap();
    assert_eq!(defaults(&db), vec!["B".to_string()]);
    assert_eq!(db.get_api_info(None).unwrap().unwrap().id, 2);
    let mut single = fresh();
    single.save_api_info(&profile("only", false)).unwrap();
    single.save_api_info(&profile("only", false)).unwrap();
    assert_eq!(defaults(&single), vec!["only".to_string()]);
    assert_eq!(single.get_api_info(None).unwrap().unwrap().id, 2);
}

#[test]
fn save_replaces_by_name_under_a_fresh_identifier() {
    let mut db = fresh();
    db.save_api_info(&profile("A", true)).unwrap();
    db.save_api_info(&profile("B", false)).unwrap();
    let mut again = profile("A", false);
    again.id = 77;
    again.api_key = "rotated".to_string();
    db.save_api_info(&again).unwrap();
    let listed = db.list_api_profiles().unwrap();
    assert_eq!(listed.len(), 2);
    assert_eq!(listed[0].profile_name, "A");
    assert_eq!(listed[0].id, 3);
    assert_eq!(listed[0].api_key, "rotated");
    assert!(!listed[0].is_default);
    assert_eq!(listed[1].profile_name, "B");
    assert_eq!(listed[1].id, 2);
    assert!(listed[1].is_default);
}

#[test]
fn save_fails_with_conflict_when_identifiers_are_used_up() {
    let mut last = profile("last", true);
    last.id = i64::MAX;
    let image = StoreImage {
        first_run: None,
        password_hash: None,
        api_info: Some(ProfileTable {
            has_profile_name: true,
            has_is_default: true,
            has_password_hash: false,
            rows: vec![StoredRow { profile: last, password_hash: String::new() }],
        }),
    };
    let mut db = Database::new(image).unwrap();
    assert_eq!(db.save_api_info(&profile("next", false)), Err(StoreError::Conflict));
    assert_eq!(db.list_api_profiles().unwrap().len(), 1);
}

#[test]
fn list_is_ordered_by_name() {
    let mut db = fresh();
    for name in ["delta", "alpha", "charlie", "bravo", "Zulu", "alpha2", "é"] {
        db.save_api_info(&profile(name, false)).unwrap();
    }
    let names: Vec<String> =
        db.list_api_profiles().unwrap().into_iter().map(|p| p.profile_name).collect();
    assert_eq!(names, vec!["Zulu", "alpha", "alpha2", "bravo", "charlie", "delta", "é"]);
}

#[test]
fn get_by_name_finds_the_named_profile_only() {
    let mut db = fresh();
    db.save_api_info(&profile("A", false)).unwrap();
    db.save_api_info(&profile("B", false)).unwrap();
    assert_eq!(db.get_api_info(Some("B")).unwrap().unwrap().api_key, "key-B");
    assert_eq!(db.get_api_info(Some("C")), Ok(None));
}

#[test]
fn set_default_flips_the_flag_across_all_rows() {
    let mut db = fresh();
    db.save_api_info(&profile("A", false)).unwrap();
    db.save_api_info(&profile("B", false)).unwrap();
    db.save_api_info(&profile("C", true)).unwrap();
    assert_eq!(db.set_default_profile("B"), Ok(()));
    assert_eq!(defaults(&db), vec!["B".to_string()]);
}

#[test]
fn set_default_of_an_unknown_name_changes_nothing() {
    let mut db = fresh();
    db.save_api_info(&profile("A", false)).unwrap();
    db.save_api_info(&profile("B", false)).unwrap();
    assert_eq!(db.set_default_profile("nobody"), Err(StoreError::NotFound));
    assert_eq!(defaults(&db), vec!["A".to_string()]);
}

#[test]
fn deleting_the_default_promotes_the_lowest_identifier() {
    let mut db = fresh();
    db.save_api_info(&profile("zeta", false)).unwrap();
    db.save_api_info(&profile("beta", false)).unwrap();
    db.save_api_info(&profile("alpha", false)).unwrap();
    db.set_default_profile("alpha").unwrap();
    assert_eq!(db.delete_api_profile("alpha"), Ok(()));
    assert_eq!(defaults(&db), vec!["zeta".to_string()]);
    assert_eq!(db.delete_api_profile("zeta"), Ok(()));
    assert_eq!(defaults(&db), vec!["beta".to_string()]);
    assert_eq!(db.get_api_info(None).unwrap().unwrap().id, 2);
}

#[test]
fn deleting_another_profile_keeps_the_default() {
    let mut db = fresh();
    db.save_api_info(&profile("A", false)).unwrap();
    db.save_api_info(&profile("B", false)).unwrap();
    assert_eq!(db.delete_api_profile("B"), Ok(()));
    assert_eq!(defaults(&db), vec!["A".to_string()]);
}

#[test]
fn opening_settles_the_flags_of_what_is_found() {
    let row = |id: i64, name: &str, is_default: bool| {
        let mut p = profile(name, is_default);
        p.id = id;
        StoredRow { profile: p, password_hash: String::new() }
    };
    let image = |rows: Vec<StoredRow>| StoreImage {
        first_run: None,
        password_hash: None,
        api_info: Some(ProfileTable {
            has_profile_name: true,
            has_is_default: true,
            has_password_hash: false,
            rows,
        }),
    };
    let several = image(vec![row(1, "A", false), row(2, "B", true), row(3, "C", true)]);
    let mut db = Database::new(several).unwrap();
    assert_eq!(defaults(&db), vec!["B".to_string()]);
    assert_eq!(db.delete_api_profile("B"), Ok(()));
    assert_eq!(defaults(&db), vec!["A".to_string()]);
    let none = image(vec![row(4, "B", false), row(9, "A", false)]);
    assert_eq!(defaults(&Database::new(none).unwrap()), vec!["B".to_string()]);
}

#[test]
fn deleting_the_last_profile_leaves_nothing() {
    let mut db = fresh();
    db.save_api_info(&profile("only", false)).unwrap();
    assert_eq!(db.delete_api_profile("only"), Ok(()));
    assert_eq!(db.list_api_profiles(), Ok(vec![]));
    assert_eq!(db.get_api_info(None), Ok(None));
}

#[test]
fn deleting_an_unknown_profile_is_not_found() {
    let mut db = fresh();
    db.save_api_info(&profile("A", false)).unwrap();
    assert_eq!(db.delete_api_profile("B"), Err(StoreError::NotFound));
    assert_eq!(db.list_api_profiles().unwrap().len(), 1);
}

#[test]
fn ensure_default_finds_nothing_to_mend() {
    let mut db = fresh();
    assert_eq!(db.ensure_default_profile(), Ok(()));
    assert_eq!(db.list_api_profiles(), Ok(vec![]));
    db.save_api_info(&profile("A", false)).unwrap();
    db.save_api_info(&profile("B", false)).unwrap();
    db.save_api_info(&profile("A", false)).unwrap();
    assert_eq!(defaults(&db), vec!["B".to_string()]);
    assert_eq!(db.ensure_default_profile(), Ok(()));
    assert_eq!(defaults(&db), vec!["B".to_string()]);
    db.set_default_profile("A").unwrap();
    assert_eq!(db.ensure_default_profile(), Ok(()));
    assert_eq!(defaults(&db), vec!["A".to_string()]);
}

#[test]
fn first_run_flag_is_set_once_and_stays() {
    let mut db = fresh();
    assert_eq!(db.is_first_run(), Ok(true));
    assert_eq!(db.set_has_run(), Ok(()));
    assert_eq!(db.is_first_run(), Ok(false));
    assert_eq!(db.set_has_run(), Ok(()));
    assert_eq!(db.is_first_run(), Ok(false));
    assert_eq!(db.first_run(), Some(true));
}

#[test]
fn api_url_joins_base_port_and_endpoint() {
    let mut p = profile("A", false);
    assert_eq!(
        build_api_url(&p, "/api/core/firmware/status"),
        "https://192.168.1.1:443/api/core/firmware/status"
    );
    p.port = 0;
    assert_eq!(build_api_url(&p, ""), "https://192.168.1.1:0");
    p.port = 65535;
    p.api_url = "http://fw.lan".to_string();
    assert_eq!(build_api_url(&p, "/x"), "http://fw.lan:65535/x");
    p.port = 8080;
    assert_eq!(build_api_url(&p, "/x"), "http://fw.lan:8080/x");
}
