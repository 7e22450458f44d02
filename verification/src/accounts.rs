//! The Apple accounts remembered in the credential store of Windows.
//!
//! The entry `account_list` holds the known account names as a JSON list; the password
//! of each account stands in an entry of its own, `password/` and the account name.

use crate::text::{join, opt_string, strings};
use vstd::prelude::*;

verus! {

/// The service under which the credential store keeps the entries.
pub const KEYRING_SERVICE: &'static str = "twitninf-updater";

pub const ACCOUNT_LIST: &'static str = "account_list";

pub const PASSWORD_PREFIX: &'static str = "password/";

/// The error of `serde_json`.
#[verifier::external_type_specification]
#[verifier::external_body]
pub struct ExJsonError(serde_json::Error);

/// The list of strings that `serde_json::from_str` reads in a text, if it reads one.
pub uninterp spec fn json_strings(text: Seq<char>) -> Option<Seq<Seq<char>>>;

/// The text that `serde_json::to_string` writes for a list of strings.
pub uninterp spec fn json_text(list: Seq<Seq<char>>) -> Seq<char>;

/// `serde_json::from_str` for a list of strings: the result is named.
#[verifier::external_body]
fn read_json(text: &str) -> (r: Result<Vec<String>, serde_json::Error>)
    ensures
        match r {
            Ok(list) => json_strings(text@) == Some(strings(list@)),
            Err(_) => json_strings(text@) is None,
        },
{
    serde_json::from_str::<Vec<String>>(text)
}

/// `serde_json::to_string` for a list of strings: the result is named. Neither a list
/// nor a string refuses to be written, and writing into memory does not fail. What is
/// written reads back as the same list.
#[verifier::external_body]
fn write_json(list: &Vec<String>) -> (r: Result<String, serde_json::Error>)
    ensures
        r is Ok,
        r->Ok_0@ == json_text(strings(list@)),
        json_strings(r->Ok_0@) == Some(strings(list@)),
{
    serde_json::to_string(list)
}

/// A change to make in the credential store.
#[derive(Debug)]
pub enum KeyringChange {
    Store { key: String, value: String },
    Delete { key: String },
}

pub enum KeyringChangeView {
    Store { key: Seq<char>, value: Seq<char> },
    Delete { key: Seq<char> },
}

impl View for KeyringChange {
    type V = KeyringChangeView;

    open spec fn view(&self) -> KeyringChangeView {
        match self {
            KeyringChange::Store { key, value } => KeyringChangeView::Store {
                key: key@,
                value: value@,
            },
            KeyringChange::Delete { key } => KeyringChangeView::Delete { key: key@ },
        }
    }
}

pub open spec fn changes(list: Seq<KeyringChange>) -> Seq<KeyringChangeView> {
    list.map_values(|c: KeyringChange| c@)
}

/// The entry that an attempt to read the credential store brought back: a store that
/// cannot be read counts as one without the entry.
pub open spec fn entry_read(read: Result<Option<String>, String>) -> Option<Seq<char>> {
    match read {
        Ok(entry) => opt_string(entry),
        Err(_) => None,
    }
}

/// The accounts in the entry `account_list`: none where there is no such entry, or none
/// that can be read.
pub open spec fn accounts_in(entry: Option<Seq<char>>) -> Seq<Seq<char>> {
    match entry {
        Some(text) => match json_strings(text) {
            Some(list) => list,
            None => Seq::empty(),
        },
        None => Seq::empty(),
    }
}

/// The password in an entry: an empty one counts as missing.
pub open spec fn password_in(entry: Option<Seq<char>>) -> Option<Seq<char>> {
    match entry {
        Some(p) => if p.len() > 0 {
            Some(p)
        } else {
            None
        },
        None => None,
    }
}

pub open spec fn password_entry(apple_id: Seq<char>) -> Seq<char> {
    PASSWORD_PREFIX@ + apple_id
}

/// The list with an account in it: at the end if it was not there.
pub open spec fn with_account(accounts: Seq<Seq<char>>, apple_id: Seq<char>) -> Seq<Seq<char>> {
    if accounts.contains(apple_id) {
        accounts
    } else {
        accounts.push(apple_id)
    }
}

/// The list without an account.
pub open spec fn without_account(accounts: Seq<Seq<char>>, apple_id: Seq<char>) -> Seq<Seq<char>> {
    accounts.filter(|a: Seq<char>| a != apple_id)
}

/// What is stored to remember an account.
pub open spec fn saving(
    accounts: Seq<Seq<char>>,
    apple_id: Seq<char>,
    password: Seq<char>,
) -> Seq<KeyringChangeView> {
    seq![
        KeyringChangeView::Store {
            key: ACCOUNT_LIST@,
            value: json_text(with_account(accounts, apple_id)),
        },
        KeyringChangeView::Store { key: password_entry(apple_id), value: password },
    ]
}

/// What is stored and deleted to forget an account.
pub open spec fn forgetting(
    accounts: Seq<Seq<char>>,
    apple_id: Seq<char>,
) -> Seq<KeyringChangeView> {
    seq![
        KeyringChangeView::Store {
            key: ACCOUNT_LIST@,
            value: json_text(without_account(accounts, apple_id)),
        },
        KeyringChangeView::Delete { key: password_entry(apple_id) },
    ]
}

/// The credential store: what stands in each entry.
pub type Store = Map<Seq<char>, Seq<char>>;

/// What an attempt to read an entry brings back from a store.
pub open spec fn lookup(store: Store, key: Seq<char>) -> Option<Seq<char>> {
    if store.dom().contains(key) {
        Some(store[key])
    } else {
        None
    }
}

/// The store after one change.
pub open spec fn changed(store: Store, change: KeyringChangeView) -> Store {
    match change {
        KeyringChangeView::Store { key, value } => store.insert(key, value),
        KeyringChangeView::Delete { key } => store.remove(key),
    }
}

/// The store after a list of changes, made one after the other.
pub open spec fn applied(store: Store, list: Seq<KeyringChangeView>) -> Store
    decreases list.len(),
{
    if list.len() == 0 {
        store
    } else {
        changed(applied(store, list.drop_last()), list.last())
    }
}

/// The known accounts of a store.
pub open spec fn store_accounts(store: Store) -> Seq<Seq<char>> {
    accounts_in(lookup(store, ACCOUNT_LIST@))
}

/// The remembered password of an account of a store.
pub open spec fn store_password(store: Store, apple_id: Seq<char>) -> Option<Seq<char>> {
    password_in(lookup(store, password_entry(apple_id)))
}

/// `after` differs from `before` in the account list and the password of one account
/// at most.
pub open spec fn only_about(before: Store, after: Store, apple_id: Seq<char>) -> bool {
    forall|key: Seq<char>|
        key != ACCOUNT_LIST@ && key != password_entry(apple_id) ==> #[trigger] lookup(after, key)
            == lookup(before, key)
}

/// `after` is `before` with an account remembered.
pub open spec fn remembers(
    before: Store,
    after: Store,
    accounts: Seq<Seq<char>>,
    apple_id: Seq<char>,
    password: Seq<char>,
) -> bool {
    &&& store_accounts(after) == with_account(accounts, apple_id)
    &&& store_password(after, apple_id) == password_in(Some(password))
    &&& only_about(before, after, apple_id)
}

/// `after` is `before` with an account forgotten.
pub open spec fn forgets(
    before: Store,
    after: Store,
    accounts: Seq<Seq<char>>,
    apple_id: Seq<char>,
) -> bool {
    &&& store_accounts(after) == without_account(accounts, apple_id)
    &&& store_password(after, apple_id) is None
    &&& only_about(before, after, apple_id)
}

/// The name of the entry with the password of an account.
pub fn password_key(apple_id: &str) -> (r: String)
    ensures
        r@ == password_entry(apple_id@),
{
    let r: String = join(PASSWORD_PREFIX, apple_id, "");
    proof {
        reveal_strlit("");
        assert(r@ =~= password_entry(apple_id@));
    }
    r
}

/// The known accounts, from the entry `account_list` as it was read.
pub fn list_accounts(read: Result<Option<String>, String>) -> (r: Vec<String>)
    ensures
        strings(r@) == accounts_in(entry_read(read)),
{
    let none: Vec<String> = Vec::new();
    assert(strings(none@) =~= Seq::empty());
    match read {
        Ok(Some(text)) => match read_json(text.as_str()) {
            Ok(list) => list,
            Err(_) => none,
        },
        _ => none,
    }
}

/// The remembered password of an account, from its entry as it was read.
pub fn get_saved_password(read: Result<Option<String>, String>) -> (r: Option<String>)
    ensures
        opt_string(r) == password_in(entry_read(read)),
{
    match read {
        Ok(Some(password)) => if password.as_str().is_empty() {
            None
        } else {
            Some(password)
        },
        _ => None,
    }
}

/// The list with an account in it.
pub fn add_account(accounts: Vec<String>, apple_id: &str) -> (r: Vec<String>)
    ensures
        strings(r@) == with_account(strings(accounts@), apple_id@),
{
    let mut accounts: Vec<String> = accounts;
    let ghost known = strings(accounts@);
    let wanted: String = apple_id.to_string();
    let mut found: bool = false;
    for i in 0..accounts.len()
        invariant
            known == strings(accounts@),
            wanted@ == apple_id@,
            found == known.take(i as int).contains(apple_id@),
    {
        assert(known.take(i + 1) =~= known.take(i as int).push(accounts@[i as int]@));
        proof {
            lemma_push_contains(known.take(i as int), accounts@[i as int]@, apple_id@);
        }
        if accounts[i] == wanted {
            found = true;
        }
    }
    assert(known.take(known.len() as int) =~= known);
    if !found {
        accounts.push(wanted);
    }
    assert(strings(accounts@) =~= with_account(known, apple_id@));
    accounts
}

/// The list without an account.
pub fn remove_account(accounts: &Vec<String>, apple_id: &str) -> (r: Vec<String>)
    ensures
        strings(r@) == without_account(strings(accounts@), apple_id@),
{
    let ghost known = strings(accounts@);
    let forgotten: String = apple_id.to_string();
    let mut kept: Vec<String> = Vec::new();
    proof {
        assert(known.take(0) =~= Seq::empty());
        assert(without_account(known.take(0), apple_id@) =~= Seq::empty()) by {
            reveal(Seq::filter);
        }
        assert(strings(kept@) =~= Seq::empty());
    }
    for i in 0..accounts.len()
        invariant
            known == strings(accounts@),
            forgotten@ == apple_id@,
            strings(kept@) == without_account(known.take(i as int), apple_id@),
    {
        proof {
            lemma_without_last(known.take(i as int), known[i as int], apple_id@);
            assert(known.take(i + 1) =~= known.take(i as int).push(known[i as int]));
        }
        let ghost before = kept@;
        if accounts[i] != forgotten {
            kept.push(accounts[i].clone());
            assert(strings(kept@) =~= strings(before).push(known[i as int]));
        }
    }
    assert(known.take(known.len() as int) =~= known);
    kept
}

/// The changes that remember an account, given the entry `account_list` as it was read.
pub fn save_account(
    read: Result<Option<String>, String>,
    apple_id: &str,
    password: &str,
) -> (r: Vec<KeyringChange>)
    ensures
        changes(r@) == saving(accounts_in(entry_read(read)), apple_id@, password@),
        forall|store: Store|
            remembers(
                store,
                #[trigger] applied(store, changes(r@)),
                accounts_in(entry_read(read)),
                apple_id@,
                password@,
            ),
{
    let ghost known = accounts_in(entry_read(read));
    let accounts: Vec<String> = add_account(list_accounts(read), apple_id);
    let mut r: Vec<KeyringChange> = Vec::new();
    if let Ok(json) = write_json(&accounts) {
        r.push(KeyringChange::Store { key: ACCOUNT_LIST.to_string(), value: json });
    }
    r.push(
        KeyringChange::Store { key: password_key(apple_id), value: password.to_string() },
    );
    assert(changes(r@) =~= saving(known, apple_id@, password@));
    assert forall|store: Store|
        remembers(store, #[trigger] applied(store, changes(r@)), known, apple_id@, password@) by {
        lemma_two_changes(store, changes(r@));
        lemma_entries_apart(apple_id@);
    }
    r
}

/// The changes that forget an account, given the entry `account_list` as it was read.
pub fn forget_account_inner(read: Result<Option<String>, String>, apple_id: &str) -> (r: Vec<
    KeyringChange,
>)
    ensures
        changes(r@) == forgetting(accounts_in(entry_read(read)), apple_id@),
        forall|store: Store|
            forgets(
                store,
                #[trigger] applied(store, changes(r@)),
                accounts_in(entry_read(read)),
                apple_id@,
            ),
{
    let ghost known = accounts_in(entry_read(read));
    let kept: Vec<String> = remove_account(&list_accounts(read), apple_id);
    let mut r: Vec<KeyringChange> = Vec::new();
    if let Ok(json) = write_json(&kept) {
        r.push(KeyringChange::Store { key: ACCOUNT_LIST.to_string(), value: json });
    }
    r.push(KeyringChange::Delete { key: password_key(apple_id) });
    assert(changes(r@) =~= forgetting(known, apple_id@));
    assert forall|store: Store|
        forgets(store, #[trigger] applied(store, changes(r@)), known, apple_id@) by {
        lemma_two_changes(store, changes(r@));
        lemma_entries_apart(apple_id@);
    }
    r
}

proof fn lemma_without_last(accounts: Seq<Seq<char>>, last: Seq<char>, apple_id: Seq<char>)
    ensures
        without_account(accounts.push(last), apple_id) == (if last == apple_id {
            without_account(accounts, apple_id)
        } else {
            without_account(accounts, apple_id).push(last)
        }),
{
    reveal(Seq::filter);
    assert(accounts.push(last).drop_last() =~= accounts);
}

proof fn lemma_two_changes(store: Store, list: Seq<KeyringChangeView>)
    requires
        list.len() == 2,
    ensures
        applied(store, list) == changed(changed(store, list[0]), list[1]),
{
    let first = list.drop_last();
    assert(first.drop_last() =~= Seq::empty());
    assert(applied(store, first.drop_last()) == store);
    assert(applied(store, first) == changed(store, list[0]));
}

proof fn lemma_entries_apart(apple_id: Seq<char>)
    ensures
        password_entry(apple_id) != ACCOUNT_LIST@,
{
    reveal_strlit("account_list");
    reveal_strlit("password/");
    assert(password_entry(apple_id)[0] == 'p');
    assert(ACCOUNT_LIST@[0] == 'a');
}

/// Each account has a password entry of its own.
pub proof fn law_password_entries_are_apart(a: Seq<char>, b: Seq<char>)
    ensures
        password_entry(a) == password_entry(b) <==> a == b,
        password_entry(a) != ACCOUNT_LIST@,
{
    lemma_entries_apart(a);
    if password_entry(a) == password_entry(b) {
        let n = PASSWORD_PREFIX@.len() as int;
        assert(password_entry(a).skip(n) =~= a);
        assert(password_entry(b).skip(n) =~= b);
    }
}

/// Remembering or forgetting one account leaves the password of every other account as
/// it was.
pub proof fn law_other_passwords_stay(
    before: Store,
    after: Store,
    apple_id: Seq<char>,
    other: Seq<char>,
)
    requires
        only_about(before, after, apple_id),
        other != apple_id,
    ensures
        store_password(after, other) == store_password(before, other),
{
    law_password_entries_are_apart(other, apple_id);
}

/// A remembered account is in the list, once if every account was there once, and the
/// accounts that were there keep their places; remembering it again changes nothing.
pub proof fn law_remembered_account_is_listed(accounts: Seq<Seq<char>>, apple_id: Seq<char>)
    ensures
        with_account(accounts, apple_id).contains(apple_id),
        accounts.is_prefix_of(with_account(accounts, apple_id)),
        forall|other: Seq<char>|
            other != apple_id ==> (#[trigger] with_account(accounts, apple_id).contains(other)
                <==> accounts.contains(other)),
        accounts.no_duplicates() ==> with_account(accounts, apple_id).no_duplicates(),
        with_account(with_account(accounts, apple_id), apple_id) == with_account(
            accounts,
            apple_id,
        ),
{
    let after = with_account(accounts, apple_id);
    if !accounts.contains(apple_id) {
        assert(after.last() == apple_id);
        assert forall|other: Seq<char>| other != apple_id implies (#[trigger] after.contains(other)
            <==> accounts.contains(other)) by {
            if accounts.contains(other) {
                let k = choose|k: int| 0 <= k < accounts.len() && accounts[k] == other;
                assert(after[k] == other);
            }
            if after.contains(other) {
                let k = choose|k: int| 0 <= k < after.len() && after[k] == other;
                assert(accounts[k] == other);
            }
        }
    }
}

/// A forgotten account is out of the list, and the others stay.
pub proof fn law_forgotten_account_is_gone(accounts: Seq<Seq<char>>, apple_id: Seq<char>)
    ensures
        !without_account(accounts, apple_id).contains(apple_id),
        forall|other: Seq<char>|
            other != apple_id ==> (#[trigger] without_account(accounts, apple_id).contains(other)
                <==> accounts.contains(other)),
    decreases accounts.len(),
{
    let after = without_account(accounts, apple_id);
    if accounts.len() == 0 {
        reveal(Seq::filter);
    } else {
        let front = accounts.drop_last();
        let last = accounts.last();
        assert(front.push(last) =~= accounts);
        law_forgotten_account_is_gone(front, apple_id);
        lemma_without_last(front, last, apple_id);
        let shorter = without_account(front, apple_id);
        assert forall|other: Seq<char>| after.contains(other) <==> (shorter.contains(other) || (
        last != apple_id && other == last)) by {
            if last != apple_id {
                lemma_push_contains(shorter, last, other);
            }
        }
        assert forall|other: Seq<char>| accounts.contains(other) <==> (front.contains(other)
            || other == last) by {
            lemma_push_contains(front, last, other);
        }
    }
}

proof fn lemma_push_contains(s: Seq<Seq<char>>, last: Seq<char>, other: Seq<char>)
    ensures
        s.push(last).contains(other) <==> (s.contains(other) || other == last),
{
    if s.contains(other) {
        let k = choose|k: int| 0 <= k < s.len() && s[k] == other;
        assert(s.push(last)[k] == other);
    }
    if other == last {
        assert(s.push(last)[s.len() as int] == other);
    }
    if s.push(last).contains(other) {
        let k = choose|k: int| 0 <= k < s.push(last).len() && s.push(last)[k] == other;
        if k < s.len() {
            assert(s[k] == other);
        }
    }
}

/// Forgetting an account that was not known before it was remembered gives back the
/// list as it was.
pub proof fn law_forgetting_undoes_remembering(accounts: Seq<Seq<char>>, apple_id: Seq<char>)
    requires
        !accounts.contains(apple_id),
    ensures
        without_account(with_account(accounts, apple_id), apple_id) == accounts,
{
    lemma_without_last(accounts, apple_id, apple_id);
    lemma_nothing_to_forget(accounts, apple_id);
}

proof fn lemma_nothing_to_forget(accounts: Seq<Seq<char>>, apple_id: Seq<char>)
    requires
        !accounts.contains(apple_id),
    ensures
        without_account(accounts, apple_id) == accounts,
    decreases accounts.len(),
{
    if accounts.len() == 0 {
        reveal(Seq::filter);
        assert(without_account(accounts, apple_id) =~= accounts);
    } else {
        let front = accounts.drop_last();
        assert(front.push(accounts.last()) =~= accounts);
        assert forall|k: int| 0 <= k < front.len() implies #[trigger] front[k] != apple_id by {
            assert(accounts.contains(accounts[k]));
        }
        assert(accounts.contains(accounts.last()));
        lemma_nothing_to_forget(front, apple_id);
        lemma_without_last(front, accounts.last(), apple_id);
    }
}

/// What is read from the credential store counts as it stands there: a list that can be read
/// is the list of accounts, a password that is not empty is the password, and whatever else
/// comes back counts as nothing.
pub proof fn law_entries_count_as_they_stand(entry: String, list: Seq<Seq<char>>, error: String)
    ensures
        entry_read(Ok(Some(entry))) == Some(entry@),
        entry_read(Ok(None)) is None,
        entry_read(Err(error)) is None,
        json_strings(entry@) == Some(list) ==> accounts_in(Some(entry@)) == list,
        json_strings(entry@) is None ==> accounts_in(Some(entry@)).len() == 0,
        accounts_in(None).len() == 0,
        entry@.len() > 0 ==> password_in(Some(entry@)) == Some(entry@),
        entry@.len() == 0 ==> password_in(Some(entry@)) is None,
        password_in(None) is None,
        password_entry(entry@) == "password/"@ + entry@,
{
}

/// An account that is known leaves the list as it is; another one is added at its end.
pub proof fn law_an_account_is_added_at_the_end(accounts: Seq<Seq<char>>, apple_id: Seq<char>)
    ensures
        accounts.contains(apple_id) ==> with_account(accounts, apple_id) == accounts,
        !accounts.contains(apple_id) ==> with_account(accounts, apple_id) == accounts + seq![
            apple_id,
        ],
{
}

/// Forgetting goes through the list account by account and leaves out the forgotten one,
/// wherever it stands, and no other.
pub proof fn law_forgetting_goes_account_by_account(
    accounts: Seq<Seq<char>>,
    next: Seq<char>,
    apple_id: Seq<char>,
)
    ensures
        without_account(Seq::empty(), apple_id) == Seq::<Seq<char>>::empty(),
        next == apple_id ==> without_account(accounts.push(next), apple_id) == without_account(
            accounts,
            apple_id,
        ),
        next != apple_id ==> without_account(accounts.push(next), apple_id) == without_account(
            accounts,
            apple_id,
        ).push(next),
{
    lemma_without_last(accounts, next, apple_id);
    reveal(Seq::filter);
    assert(without_account(Seq::empty(), apple_id) =~= Seq::<Seq<char>>::empty());
}

/// What remembering and forgetting write: the whole list under its name, and the very
/// password under the name of its account, or nothing there any more. No other entry changes.
pub proof fn law_what_is_written_to_the_store(
    store: Store,
    accounts: Seq<Seq<char>>,
    apple_id: Seq<char>,
    password: Seq<char>,
)
    ensures
        applied(store, saving(accounts, apple_id, password)) == store.insert(
            "account_list"@,
            json_text(with_account(accounts, apple_id)),
        ).insert("password/"@ + apple_id, password),
        applied(store, forgetting(accounts, apple_id)) == store.insert(
            "account_list"@,
            json_text(without_account(accounts, apple_id)),
        ).remove("password/"@ + apple_id),
        forall|key: Seq<char>| #[trigger]
            lookup(store, key) == (if store.dom().contains(key) { Some(store[key]) } else { None }),
        store_accounts(store) == accounts_in(lookup(store, "account_list"@)),
        store_password(store, apple_id) == password_in(lookup(store, "password/"@ + apple_id)),
{
    lemma_two_changes(store, saving(accounts, apple_id, password));
    lemma_two_changes(store, forgetting(accounts, apple_id));
}

/// Changes are seen with all that they hold.
pub proof fn law_changes_are_seen_whole(key: String, value: String, list: Seq<KeyringChange>)
    ensures
        (KeyringChange::Store { key, value })@ == (KeyringChangeView::Store {
            key: key@,
            value: value@,
        }),
        (KeyringChange::Delete { key })@ == (KeyringChangeView::Delete { key: key@ }),
        changes(list).len() == list.len(),
        forall|i: int| 0 <= i < list.len() ==> #[trigger] changes(list)[i] == list[i]@,
{
}

} // verus!
