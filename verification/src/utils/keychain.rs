//! Storage of API keys, one for each service type and provider.
//!
//! `KeychainPort` is what a store of keys offers. `MockKeychain` keeps the
//! keys in memory, in a hash map; a store in the operating system's keychain
//! is provided by the program that uses this library.

use vstd::hash_map::StringHashMap;
use vstd::prelude::*;
use vstd::string::StringExecFns;
use crate::error::{AppError, Result};

verus! {

/// The name under which the keys of this application are kept.
pub const SERVICE_NAME: &'static str = "com.srprasanna.meet-scribe";

/// The account under which the key of a provider of a service type is kept:
/// the service type, an underscore, the provider.
pub open spec fn account_of(service_type: Seq<char>, provider: Seq<char>) -> Seq<char> {
    service_type + "_"@ + provider
}

/// The account under which the key of a provider of a service type is kept.
pub fn account_name(service_type: &str, provider: &str) -> (account: String)
    ensures
        account@ == account_of(service_type@, provider@),
{
    service_type.to_owned().concat("_").concat(provider)
}

/// A store of API keys.
pub trait KeychainPort {
    /// Keeps `api_key` as the key of the provider, in place of an earlier one.
    fn save_api_key(&mut self, service_type: &str, provider: &str, api_key: &str) -> Result<()>;

    /// The key of the provider, or an error where none is kept.
    fn get_api_key(&self, service_type: &str, provider: &str) -> Result<String>;

    /// Removes the key of the provider.
    fn delete_api_key(&mut self, service_type: &str, provider: &str) -> Result<()>;

    /// Tells whether a key of the provider is kept.
    fn has_api_key(&self, service_type: &str, provider: &str) -> bool;
}

/// The store in the operating system's keychain. The value itself holds
/// nothing: the keys lie with the operating system.
pub struct KeychainManager;

impl KeychainManager {
    /// A handle on the operating system's keychain.
    pub fn new() -> (m: KeychainManager)
        ensures
            m == KeychainManager,
    {
        KeychainManager
    }
}

impl Default for KeychainManager {
    fn default() -> (m: KeychainManager)
        ensures
            m == KeychainManager,
    {
        KeychainManager::new()
    }
}

/// A store that keeps the keys in memory, in a hash map by account.
pub struct MockKeychain {
    storage: StringHashMap<String>,
}

impl MockKeychain {
    /// The keys kept, by account.
    pub closed spec fn view(&self) -> Map<Seq<char>, Seq<char>> {
        self.storage@.map_values(|key: String| key@)
    }

    /// An empty store.
    pub fn new() -> (m: MockKeychain)
        ensures
            m@ == Map::<Seq<char>, Seq<char>>::empty(),
    {
        let m = MockKeychain { storage: StringHashMap::new() };
        assert(m@ =~= Map::<Seq<char>, Seq<char>>::empty());
        m
    }
}

impl Default for MockKeychain {
    fn default() -> (m: MockKeychain)
        ensures
            m@ == Map::<Seq<char>, Seq<char>>::empty(),
    {
        MockKeychain::new()
    }
}

impl KeychainPort for MockKeychain {
    /// Keeps `api_key` under the account of the provider.
    fn save_api_key(&mut self, service_type: &str, provider: &str, api_key: &str) -> (r: Result<()>)
        ensures
            r is Ok,
            final(self)@ == old(self)@.insert(account_of(service_type@, provider@), api_key@),
    {
        let account = account_name(service_type, provider);
        self.storage.insert(account, api_key.to_owned());
        assert(self@ =~= old(self)@.insert(account_of(service_type@, provider@), api_key@));
        Ok(())
    }

    /// The key kept under the account of the provider.
    fn get_api_key(&self, service_type: &str, provider: &str) -> (r: Result<String>)
        ensures
            match r {
                Ok(key) => self@.contains_key(account_of(service_type@, provider@)) && key@
                    == self@[account_of(service_type@, provider@)],
                Err(e) => !self@.contains_key(account_of(service_type@, provider@)) && (
                e matches AppError::KeychainError(words) && words@ == "API key not found for "@
                    + account_of(service_type@, provider@)),
            },
    {
        let account = account_name(service_type, provider);
        match self.storage.get(account.as_str()) {
            Some(key) => Ok(key.clone()),
            None => Err(
                AppError::KeychainError("API key not found for ".to_owned().concat(account.as_str())),
            ),
        }
    }

    /// Removes the key kept under the account of the provider, if there is
    /// one.
    fn delete_api_key(&mut self, service_type: &str, provider: &str) -> (r: Result<()>)
        ensures
            r is Ok,
            final(self)@ == old(self)@.remove(account_of(service_type@, provider@)),
    {
        let account = account_name(service_type, provider);
        self.storage.remove(account.as_str());
        assert(self@ =~= old(self)@.remove(account_of(service_type@, provider@)));
        Ok(())
    }

    /// Tells whether a key is kept under the account of the provider.
    fn has_api_key(&self, service_type: &str, provider: &str) -> (b: bool)
        ensures
            b == self@.contains_key(account_of(service_type@, provider@)),
    {
        let account = account_name(service_type, provider);
        self.storage.contains_key(account.as_str())
    }
}

} // verus!
