//! API keys: the registry of known keys and the decision on each request's key.
use vstd::prelude::*;

use std::collections::hash_map::RandomState;

verus! {

#[verifier::external_type_specification]
#[verifier::external_body]
#[verifier::reject_recursive_types(K)]
#[verifier::reject_recursive_types(V)]
#[verifier::reject_recursive_types(S)]
pub struct ExDashMap<K, V, S>(dashmap::DashMap<K, V, S>);

/// A concurrent map from API keys to client ids.
pub type KeyMap = dashmap::DashMap<String, u128, RandomState>;

/// The entries of a concurrent map from API keys to client ids.
pub uninterp spec fn key_entries(m: KeyMap) -> Map<Seq<char>, u128>;

/// An empty map, by `DashMap::new`. Claimed: it has no entries.
#[verifier::external_body]
fn new_key_map() -> (r: KeyMap)
    ensures
        key_entries(r).dom().is_empty(),
{
    dashmap::DashMap::new()
}

/// Adds or replaces an entry, by `DashMap::insert`. Claimed: the key now maps
/// to the value and every other entry is unchanged.
#[verifier::external_body]
fn insert_key(m: &mut KeyMap, key: String, client_id: u128)
    ensures
        key_entries(*final(m)) == key_entries(*old(m)).insert(key@, client_id),
{
    m.insert(key, client_id);
}

/// Looks a key up, by `DashMap::get` and copying the value out. Claimed: the
/// result is the entry's value, or nothing when the key has no entry.
#[verifier::external_body]
fn lookup_key(m: &KeyMap, key: &str) -> (r: Option<u128>)
    ensures
        r == (if key_entries(*m).contains_key(key@) {
            Some(key_entries(*m)[key@])
        } else {
            None
        }),
{
    match m.get(key) {
        Some(entry) => Some(*entry.value()),
        None => None,
    }
}

/// The API keys known to the service, each naming a client. Its view maps
/// each key's text to the client id.
pub struct ApiKeys {
    keys: KeyMap,
}

impl View for ApiKeys {
    type V = Map<Seq<char>, u128>;

    closed spec fn view(&self) -> Map<Seq<char>, u128> {
        key_entries(self.keys)
    }
}

/// The registry built from `(key, client id)` rows in order: a later row
/// replaces an earlier one with the same key.
pub open spec fn keys_of_rows(rows: Seq<(String, u128)>) -> Map<Seq<char>, u128>
    decreases rows.len(),
{
    if rows.len() == 0 {
        Map::empty()
    } else {
        keys_of_rows(rows.drop_last()).insert(rows.last().0@, rows.last().1)
    }
}

impl ApiKeys {
    /// A registry with no key.
    pub fn new() -> (r: ApiKeys)
        ensures
            r@ == Map::<Seq<char>, u128>::empty(),
    {
        ApiKeys { keys: new_key_map() }
    }

    /// Registers `key` for `client_id`, replacing any client it named before.
    pub fn insert(&mut self, key: String, client_id: u128)
        ensures
            final(self)@ == old(self)@.insert(key@, client_id),
    {
        insert_key(&mut self.keys, key, client_id);
    }

    /// The registry of the stored `(key, client id)` rows.
    pub fn from_rows(rows: Vec<(String, u128)>) -> (r: ApiKeys)
        ensures
            r@ == keys_of_rows(rows@),
    {
        let mut keys = ApiKeys::new();
        let ghost all = rows@;
        let n = rows.len();
        let mut i: usize = 0;
        while i < n
            invariant
                n == all.len(),
                all == rows@,
                i <= n,
                keys@ == keys_of_rows(all.take(i as int)),
            decreases n - i,
        {
            let key = rows[i].0.clone();
            let client_id = rows[i].1;
            keys.insert(key, client_id);
            proof {
                assert(all.take(i + 1).drop_last() =~= all.take(i as int));
            }
            i = i + 1;
        }
        assert(all.take(n as int) =~= all);
        keys
    }

    /// The client `key` names, if any.
    pub fn client_for(&self, key: &str) -> (r: Option<u128>)
        ensures
            r == (if self@.contains_key(key@) {
                Some(self@[key@])
            } else {
                None
            }),
    {
        lookup_key(&self.keys, key)
    }
}

/// The client a request was authorized for.
#[derive(Debug, Clone, Copy, PartialEq, Eq, Structural)]
pub struct AuthorizedClient {
    pub client_id: u128,
}

/// Why a request's key was refused; both are answered with HTTP 401.
#[derive(Debug, Clone, Copy, PartialEq, Eq, Structural)]
pub enum AuthRejection {
    /// The request carries no readable `X-API-Key` header.
    MissingKey,
    /// The key names no client.
    InvalidKey,
}

impl AuthRejection {
    pub open spec fn spec_message(self) -> Seq<char> {
        match self {
            AuthRejection::MissingKey => "missing X-API-Key header"@,
            AuthRejection::InvalidKey => "invalid API key"@,
        }
    }

    /// The text of the 401 answer.
    pub fn message(&self) -> (r: &'static str)
        ensures
            r@ == self.spec_message(),
    {
        match self {
            AuthRejection::MissingKey => "missing X-API-Key header",
            AuthRejection::InvalidKey => "invalid API key",
        }
    }
}

/// Decides on a request's `X-API-Key` header: refused when it is missing or
/// names no client, else authorized for the client it names.
pub fn authorize(header: Option<&str>, keys: &ApiKeys) -> (r: Result<AuthorizedClient, AuthRejection>)
    ensures
        header is None ==> r == Err::<AuthorizedClient, AuthRejection>(AuthRejection::MissingKey),
        header matches Some(k) ==> r == (if keys@.contains_key(k@) {
            Ok::<AuthorizedClient, AuthRejection>(AuthorizedClient { client_id: keys@[k@] })
        } else {
            Err::<AuthorizedClient, AuthRejection>(AuthRejection::InvalidKey)
        }),
{
    match header {
        None => Err(AuthRejection::MissingKey),
        Some(k) => match keys.client_for(k) {
            Some(client_id) => Ok(AuthorizedClient { client_id }),
            None => Err(AuthRejection::InvalidKey),
        },
    }
}

} // verus!
