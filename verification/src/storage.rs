//! Key/value storage behind an interface, so that the same code runs on a
//! file system, in a browser, or against a double in memory.
use std::sync::Arc;
use vstd::prelude::*;

verus! {

/// A place where bytes are kept under string keys.
///
/// Nothing is fixed about what a backend does: it may fail, and what it holds
/// may change between two calls. Each operation comes with a relation that
/// says which results the backend may give for which arguments. A backend
/// that promises nothing leaves the relations as they are.
pub trait PlatformStorage: Send + Sync {
    /// Whether `save` may give `result` for this key and data.
    open spec fn save_result(&self, key: Seq<char>, data: Seq<u8>, result: Result<(), String>) -> bool {
        true
    }

    /// Whether `load` may give `result` for this key.
    open spec fn load_result(&self, key: Seq<char>, result: Result<Vec<u8>, String>) -> bool {
        true
    }

    /// Whether `delete` may give `result` for this key.
    open spec fn delete_result(&self, key: Seq<char>, result: Result<(), String>) -> bool {
        true
    }

    /// Whether `key_exists` may give `result` for this key.
    open spec fn key_exists_result(&self, key: Seq<char>, result: bool) -> bool {
        true
    }

    /// Stores `data` under `key`.
    fn save(&self, key: &str, data: &[u8]) -> (result: Result<(), String>)
        ensures
            self.save_result(key@, data@, result),
    ;

    /// The bytes stored under `key`.
    fn load(&self, key: &str) -> (result: Result<Vec<u8>, String>)
        ensures
            self.load_result(key@, result),
    ;

    /// Removes what is stored under `key`.
    fn delete(&self, key: &str) -> (result: Result<(), String>)
        ensures
            self.delete_result(key@, result),
    ;

    /// Whether anything is stored under `key`.
    fn key_exists(&self, key: &str) -> (result: bool)
        ensures
            self.key_exists_result(key@, result),
    ;
}

/// A shared handle to a storage backend. Every operation is the backend's.
pub struct StorageProvider<S: PlatformStorage> {
    inner: Arc<S>,
}

impl<S: PlatformStorage> Clone for StorageProvider<S> {
    /// Another handle to the same backend.
    fn clone(&self) -> (other: Self)
        ensures
            other.backend() == self.backend(),
    {
        StorageProvider { inner: self.inner.clone() }
    }
}

impl<S: PlatformStorage> StorageProvider<S> {
    /// The backend behind the handle.
    pub closed spec fn backend(&self) -> S {
        *self.inner
    }

    /// A handle to the given backend.
    pub fn new(storage: S) -> (provider: Self)
        ensures
            provider.backend() == storage,
    {
        StorageProvider { inner: Arc::new(storage) }
    }

    /// Stores `data` under `key` in the backend, and hands on its result.
    pub fn save(&self, key: &str, data: &[u8]) -> (result: Result<(), String>)
        ensures
            self.backend().save_result(key@, data@, result),
    {
        self.inner.save(key, data)
    }

    /// Loads the bytes under `key` from the backend, and hands on its result.
    pub fn load(&self, key: &str) -> (result: Result<Vec<u8>, String>)
        ensures
            self.backend().load_result(key@, result),
    {
        self.inner.load(key)
    }

    /// Removes `key` from the backend, and hands on its result.
    pub fn delete(&self, key: &str) -> (result: Result<(), String>)
        ensures
            self.backend().delete_result(key@, result),
    {
        self.inner.delete(key)
    }

    /// Asks the backend whether `key` is present, and hands on its answer.
    pub fn key_exists(&self, key: &str) -> (result: bool)
        ensures
            self.backend().key_exists_result(key@, result),
    {
        self.inner.key_exists(key)
    }
}

} // verus!
