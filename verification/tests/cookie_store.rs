use vsm_core::cookies::{CookieJarStore, CookieRecord};

#[test]
fn load_with_no_prior_record_leaves_active_jar_empty() {
    let mut store = CookieJarStore::new();
    store.set_active("stale=1".to_string());
    let had_record = store.load("usr_new");
    assert!(!had_record);
    assert_eq!(store.active().data, "");
}

#[test]
fn save_then_load_restores_the_active_material() {
    let mut store = CookieJarStore::new();
    store.set_active("auth=abc; twoFactorAuth=xyz".to_string());
    store.save("usr_a");
    store.set_active("auth=other".to_string());
    store.save("usr_b");
    let had_record = store.load("usr_a");
    assert!(had_record);
    assert_eq!(store.active().data, "auth=abc; twoFactorAuth=xyz");
    assert!(store.load("usr_b"));
    assert_eq!(store.active().data, "auth=other");
}

#[test]
fn save_is_an_idempotent_overwrite() {
    let mut store = CookieJarStore::new();
    store.set_active("auth=abc".to_string());
    store.save("usr_a");
    store.save("usr_a");
    assert_eq!(store.records().len(), 1);
    store.set_active("auth=new".to_string());
    store.save("usr_a");
    assert_eq!(store.records().len(), 1);
    assert!(store.load("usr_a"));
    assert_eq!(store.active().data, "auth=new");
}

#[test]
fn clear_empties_active_jar_and_keeps_records() {
    let mut store = CookieJarStore::new();
    store.set_active("auth=abc".to_string());
    store.save("usr_a");
    store.clear();
    assert_eq!(store.active().data, "");
    assert!(store.has_record("usr_a"));
    assert!(store.load("usr_a"));
    assert_eq!(store.active().data, "auth=abc");
}

#[test]
fn records_report_installed_accounts() {
    let mut store = CookieJarStore::new();
    assert!(store.records().is_empty());
    store.insert_record("usr_a", CookieRecord::from_material("jar-a".to_string()));
    store.insert_record("usr_b", CookieRecord::from_material("jar-b".to_string()));
    let records = store.records();
    assert_eq!(records.len(), 2);
    assert_eq!(records[0].0, "usr_a");
    assert_eq!(records[0].1.data, "jar-a");
    assert_eq!(records[1].0, "usr_b");
    assert_eq!(records[1].1.data, "jar-b");
    assert!(store.has_record("usr_b"));
    assert!(!store.has_record("usr_c"));
}

#[test]
fn record_duplicate_copies_material() {
    let record = CookieRecord::from_material("jar".to_string());
    let copy = record.duplicate();
    assert_eq!(copy.data, record.data);
    let empty = CookieRecord::empty();
    assert_eq!(empty.data, "");
}
