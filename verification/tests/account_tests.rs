use std::collections::BTreeMap;
use twitninf_updater::accounts::{
    add_account, forget_account_inner, get_saved_password, list_accounts, password_key,
    remove_account, save_account, KeyringChange, ACCOUNT_LIST, KEYRING_SERVICE,
};

type Store = BTreeMap<String, String>;

fn read(store: &Store, key: &str) -> Result<Option<String>, String> {
    Ok(store.get(key).cloned())
}

fn apply(store: &mut Store, changes: Vec<KeyringChange>) {
    for change in changes {
        match change {
            KeyringChange::Store { key, value } => {
                store.insert(key, value);
            }
            KeyringChange::Delete { key } => {
                store.remove(&key);
            }
        }
    }
}

fn accounts(store: &Store) -> Vec<String> {
    list_accounts(read(store, ACCOUNT_LIST))
}

fn password(store: &Store, apple_id: &str) -> Option<String> {
    get_saved_password(read(store, &password_key(apple_id)))
}

fn save(store: &mut Store, apple_id: &str, password: &str) {
    let changes = save_account(read(store, ACCOUNT_LIST), apple_id, password);
    apply(store, changes);
}

fn forget(store: &mut Store, apple_id: &str) {
    let changes = forget_account_inner(read(store, ACCOUNT_LIST), apple_id);
    apply(store, changes);
}

#[test]
fn entries_have_their_names() {
    assert_eq!(KEYRING_SERVICE, "twitninf-updater");
    assert_eq!(ACCOUNT_LIST, "account_list");
    assert_eq!(password_key("a@b.c"), "password/a@b.c");
    assert_eq!(password_key(""), "password/");
    assert_ne!(password_key("a"), password_key("b"));
}

#[test]
fn the_account_list_is_json() {
    let list = list_accounts(Ok(Some(r#" ["a@b.c", "é\"x"] "#.to_string())));
    assert_eq!(list, vec!["a@b.c".to_string(), "é\"x".to_string()]);
}

#[test]
fn an_unreadable_list_is_empty() {
    assert!(list_accounts(Ok(None)).is_empty());
    assert!(list_accounts(Err("refused".to_string())).is_empty());
    assert!(list_accounts(Ok(Some(String::new()))).is_empty());
    assert!(list_accounts(Ok(Some("{}".to_string()))).is_empty());
    assert!(list_accounts(Ok(Some("[1]".to_string()))).is_empty());
    assert!(list_accounts(Ok(Some("[\"a\"] x".to_string()))).is_empty());
}

#[test]
fn an_empty_password_counts_as_missing() {
    assert_eq!(get_saved_password(Ok(Some(String::new()))), None);
    assert_eq!(get_saved_password(Ok(None)), None);
    assert_eq!(get_saved_password(Err("refused".to_string())), None);
    assert_eq!(get_saved_password(Ok(Some(" ".to_string()))), Some(" ".to_string()));
}

#[test]
fn saving_stores_the_list_and_the_password() {
    let changes = save_account(Ok(None), "a@b.c", "secret");
    assert_eq!(changes.len(), 2);
    assert!(matches!(
        &changes[0],
        KeyringChange::Store { key, value } if key == "account_list" && value == "[\"a@b.c\"]"
    ));
    assert!(matches!(
        &changes[1],
        KeyringChange::Store { key, value } if key == "password/a@b.c" && value == "secret"
    ));
}

#[test]
fn forgetting_stores_the_list_and_deletes_the_password() {
    let changes = forget_account_inner(Ok(Some("[\"a\",\"b\",\"a\"]".to_string())), "a");
    assert_eq!(changes.len(), 2);
    assert!(matches!(
        &changes[0],
        KeyringChange::Store { key, value } if key == "account_list" && value == "[\"b\"]"
    ));
    assert!(matches!(&changes[1], KeyringChange::Delete { key } if key == "password/a"));
}

#[test]
fn a_saved_account_is_read_back() {
    let mut store = Store::new();
    save(&mut store, "one@x.fr", "p1");
    save(&mut store, "deux \"é\\\n@x.fr", "p2");
    assert_eq!(accounts(&store), vec!["one@x.fr".to_string(), "deux \"é\\\n@x.fr".to_string()]);
    assert_eq!(password(&store, "one@x.fr"), Some("p1".to_string()));
    assert_eq!(password(&store, "deux \"é\\\n@x.fr"), Some("p2".to_string()));
    assert_eq!(password(&store, "other"), None);
}

#[test]
fn saving_again_changes_the_password_only() {
    let mut store = Store::new();
    save(&mut store, "a", "old");
    save(&mut store, "b", "pb");
    save(&mut store, "a", "new");
    assert_eq!(accounts(&store), vec!["a".to_string(), "b".to_string()]);
    assert_eq!(password(&store, "a"), Some("new".to_string()));
    assert_eq!(password(&store, "b"), Some("pb".to_string()));
}

#[test]
fn forgetting_undoes_saving() {
    let mut store = Store::new();
    save(&mut store, "a", "pa");
    let before = store.clone();
    save(&mut store, "b", "pb");
    forget(&mut store, "b");
    assert_eq!(store, before);
}

#[test]
fn forgetting_leaves_the_others_alone() {
    let mut store = Store::new();
    save(&mut store, "a", "pa");
    save(&mut store, "b", "pb");
    save(&mut store, "c", "pc");
    forget(&mut store, "b");
    assert_eq!(accounts(&store), vec!["a".to_string(), "c".to_string()]);
    assert_eq!(password(&store, "a"), Some("pa".to_string()));
    assert_eq!(password(&store, "b"), None);
    assert_eq!(password(&store, "c"), Some("pc".to_string()));
    forget(&mut store, "never there");
    assert_eq!(accounts(&store), vec!["a".to_string(), "c".to_string()]);
}

#[test]
fn accounts_are_added_once_and_removed_wholly() {
    let list = |l: &[&str]| -> Vec<String> { l.iter().map(|s| s.to_string()).collect() };
    assert_eq!(add_account(list(&[]), "a"), list(&["a"]));
    assert_eq!(add_account(list(&["b", "a", "c"]), "a"), list(&["b", "a", "c"]));
    assert_eq!(add_account(list(&["b"]), "B"), list(&["b", "B"]));
    assert_eq!(remove_account(&list(&["a", "b", "a"]), "a"), list(&["b"]));
    assert_eq!(remove_account(&list(&["b"]), "a"), list(&["b"]));
    assert_eq!(remove_account(&list(&[]), "a"), list(&[]));
}
