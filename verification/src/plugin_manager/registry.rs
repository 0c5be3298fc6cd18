//! The registry as an application shares it: one store of what modules
//! declared, behind a reader-writer lock, handed round by handle.
//!
//! Every operation takes the lock for as long as it runs. What it then does
//! to the store is what the same operation of [`RegistryInner`] does. Other
//! threads may change the store between two calls, so a contract here
//! speaks of the store as it stood while the call had the lock: of the
//! state that a guard of this registry's lock stands for. A lock that is
//! poisoned, because a thread panicked while it held the lock, is reported
//! as an error; it is never passed on as a panic.

use crate::plugin_manager::error::{PluginManagerError, PluginManagerErrorView};
use crate::plugin_manager::store::{
    lookup_node,
    lookup_type,
    node_views,
    registration_notice,
    type_views,
    well_formed,
    Notice,
    RegistryInner,
    RegistryView,
};
use crate::proto::{NodeDefinition, TypeDefinition};
use std::sync::{Arc, RwLock, RwLockReadGuard, RwLockWriteGuard};
use vstd::prelude::*;
use vstd::string::StringExecFns;

verus! {

/// `std::sync::RwLock`, which lets many readers or one writer at a time
/// reach the value that it guards.
#[verifier::external_type_specification]
#[verifier::external_body]
#[verifier::reject_recursive_types(T)]
pub struct ExRwLock<T: ?Sized>(RwLock<T>);

/// `std::sync::RwLockReadGuard`, which gives back a read lock when it is
/// dropped.
#[verifier::external_type_specification]
#[verifier::external_body]
#[verifier::reject_recursive_types(T)]
pub struct ExRwLockReadGuard<'a, T: ?Sized>(RwLockReadGuard<'a, T>);

/// `std::sync::RwLockWriteGuard`, which gives back a write lock when it is
/// dropped.
#[verifier::external_type_specification]
#[verifier::external_body]
#[verifier::reject_recursive_types(T)]
pub struct ExRwLockWriteGuard<'a, T: ?Sized + 'a>(RwLockWriteGuard<'a, T>);

/// The lock that granted a read guard.
pub uninterp spec fn read_guard_lock(guard: RwLockReadGuard<'_, RegistryInner>) -> RwLock<
    RegistryInner,
>;

/// The lock that granted a write guard.
pub uninterp spec fn write_guard_lock(guard: RwLockWriteGuard<'_, RegistryInner>) -> RwLock<
    RegistryInner,
>;

/// What the store behind a read guard holds. No writer is let in while the
/// guard lives, so the guard stands for one state of the store.
pub uninterp spec fn read_guard_store(guard: RwLockReadGuard<'_, RegistryInner>) -> RegistryView;

/// Makes a lock around a store with `std::sync::RwLock::new`. Nothing is
/// claimed of the lock.
#[verifier::external_body]
fn new_lock(store: RegistryInner) -> (lock: RwLock<RegistryInner>) {
    RwLock::new(store)
}

/// Takes the lock for reading with `std::sync::RwLock::read`, which waits
/// while a writer holds the lock. Where the lock is poisoned, what comes
/// back is the text of the `PoisonError`. The contract claims that a guard
/// that is granted is a guard of the lock that was asked; it claims nothing
/// of whether one is granted.
#[verifier::external_body]
fn acquire_read<'a>(lock: &'a Arc<RwLock<RegistryInner>>) -> (outcome: Result<
    RwLockReadGuard<'a, RegistryInner>,
    String,
>)
    ensures
        outcome matches Ok(guard) ==> read_guard_lock(guard) == **lock,
{
    lock.read().map_err(|poisoned| poisoned.to_string())
}

/// Takes the lock for writing with `std::sync::RwLock::write`, which waits
/// while anyone else holds the lock. Where the lock is poisoned, what comes
/// back is the text of the `PoisonError`. The contract claims that a guard
/// that is granted is a guard of the lock that was asked; it claims nothing
/// of whether one is granted.
#[verifier::external_body]
fn acquire_write<'a>(lock: &'a Arc<RwLock<RegistryInner>>) -> (outcome: Result<
    RwLockWriteGuard<'a, RegistryInner>,
    String,
>)
    ensures
        outcome matches Ok(guard) ==> write_guard_lock(guard) == **lock,
{
    lock.write().map_err(|poisoned| poisoned.to_string())
}

/// Reaches the store that a read guard guards, through the guard's
/// `Deref`. The contract claims that what is reached holds what the guard
/// stands for.
#[verifier::external_body]
fn guarded<'a, 'b>(guard: &'a RwLockReadGuard<'b, RegistryInner>) -> (store: &'a RegistryInner)
    ensures
        store@ == read_guard_store(*guard),
{
    &**guard
}

/// Reaches the store that a write guard guards, through the guard's
/// `DerefMut`. Nothing is claimed of what the store holds, before or
/// after.
#[verifier::external_body]
fn guarded_mut<'a, 'b>(guard: &'a mut RwLockWriteGuard<'b, RegistryInner>) -> (store:
    &'a mut RegistryInner) {
    &mut **guard
}

/// The error for a lock that is poisoned. `access` is `read` or `write`,
/// and `cause` is what the lock says of the poisoning.
pub open spec fn lock_error(access: Seq<char>, cause: Seq<char>) -> PluginManagerErrorView {
    PluginManagerErrorView::LockError {
        message: "Failed to acquire registry "@ + access + " lock: "@ + cause,
    }
}

/// Whether `failure` is the error for a poisoned lock that was to be taken
/// for `access`.
pub open spec fn is_lock_error(failure: PluginManagerErrorView, access: Seq<char>) -> bool {
    exists|cause: Seq<char>| failure == #[trigger] lock_error(access, cause)
}

/// Whether `held` is what the store behind `lock` held at a moment at which
/// a reader had the lock: the state that some read guard of that lock
/// stands for.
pub open spec fn read_under(lock: RwLock<RegistryInner>, held: RegistryView) -> bool {
    exists|guard: RwLockReadGuard<RegistryInner>|
        read_guard_lock(guard) == lock && #[trigger] read_guard_store(guard) == held
}

/// Turns the outcome of taking the lock into this library's result: what
/// was granted, or the lock error for `access` with what the lock says of
/// its poisoning.
pub fn lock_outcome<G>(access: &str, outcome: Result<G, String>) -> (result: Result<
    G,
    PluginManagerError,
>)
    ensures
        match outcome {
            Ok(guard) => result matches Ok(granted) && granted == guard,
            Err(cause) => result matches Err(failure) && failure@ == lock_error(access@, cause@),
        },
{
    match outcome {
        Ok(guard) => Ok(guard),
        Err(cause) => Err(
            PluginManagerError::LockError {
                message: String::from_str("Failed to acquire registry ").concat(access).concat(
                    " lock: ",
                ).concat(cause.as_str()),
            },
        ),
    }
}

/// A handle to the shared registry. Copies of a handle reach the same
/// store.
#[derive(Clone)]
pub struct Registry {
    inner: Arc<RwLock<RegistryInner>>,
}

impl Default for Registry {
    /// A handle to a new registry, which holds nothing.
    fn default() -> (registry: Self) {
        Registry { inner: Arc::new(new_lock(RegistryInner::default())) }
    }
}

impl Registry {
    /// The lock that guards the store of this registry.
    pub closed spec fn lock(&self) -> RwLock<RegistryInner> {
        *self.inner
    }

    /// Takes the lock for reading. While the guard lives, readers are let
    /// in and writers wait; a thread that holds a guard must let it go
    /// before it takes the lock again. Fails only where the lock is
    /// poisoned.
    pub fn read_lock<'a>(&'a self) -> (result: Result<
        RwLockReadGuard<'a, RegistryInner>,
        PluginManagerError,
    >)
        ensures
            match result {
                Ok(guard) => read_guard_lock(guard) == self.lock(),
                Err(failure) => is_lock_error(failure@, "read"@),
            },
    {
        lock_outcome("read", acquire_read(&self.inner))
    }

    /// Takes the lock for writing. While the guard lives, everyone else
    /// waits; a thread that holds a guard must let it go before it takes
    /// the lock again. Fails only where the lock is poisoned.
    pub fn write_lock<'a>(&'a self) -> (result: Result<
        RwLockWriteGuard<'a, RegistryInner>,
        PluginManagerError,
    >)
        ensures
            match result {
                Ok(guard) => write_guard_lock(guard) == self.lock(),
                Err(failure) => is_lock_error(failure@, "write"@),
            },
    {
        lock_outcome("write", acquire_write(&self.inner))
    }

    /// Registers a node under its identifier, in place of the node that was
    /// registered under it before, if there was one. The notice announces
    /// this node, as an addition or as a replacement.
    pub fn register_node(&self, node: NodeDefinition) -> (result: Result<
        Notice,
        PluginManagerError,
    >)
        ensures
            match result {
                Ok(notice) => exists|replaced: Option<Seq<char>>|
                    notice@ == #[trigger] registration_notice(
                        "node"@,
                        replaced,
                        node@.id,
                        node@.name,
                        node@.version,
                    ),
                Err(failure) => is_lock_error(failure@, "write"@),
            },
    {
        let mut guard = match self.write_lock() {
            Ok(guard) => guard,
            Err(failure) => {
                return Err(failure);
            },
        };
        let store = guarded_mut(&mut guard);
        Ok(store.register_node(node))
    }

    /// Registers a type under its identifier, in place of the type that was
    /// registered under it before, if there was one. The notice announces
    /// this type, as an addition or as a replacement.
    pub fn register_type(&self, type_def: TypeDefinition) -> (result: Result<
        Notice,
        PluginManagerError,
    >)
        ensures
            match result {
                Ok(notice) => exists|replaced: Option<Seq<char>>|
                    notice@ == #[trigger] registration_notice(
                        "type"@,
                        replaced,
                        type_def@.id,
                        type_def@.name,
                        type_def@.version,
                    ),
                Err(failure) => is_lock_error(failure@, "write"@),
            },
    {
        let mut guard = match self.write_lock() {
            Ok(guard) => guard,
            Err(failure) => {
                return Err(failure);
            },
        };
        let store = guarded_mut(&mut guard);
        Ok(store.register_type(type_def))
    }

    /// A copy of the node registered under `id`, or `None` if there is
    /// none; a missing node is no error. The answer is that of the store as
    /// it stood while this call had the lock.
    pub fn get_node(&self, id: &str) -> (result: Result<Option<NodeDefinition>, PluginManagerError>)
        ensures
            match result {
                Ok(found) => exists|held: RegistryView| #[trigger]
                    read_under(self.lock(), held) && well_formed(held) && (match found {
                        Some(node) => lookup_node(held.nodes, id@) == Some(node@),
                        None => lookup_node(held.nodes, id@) is None,
                    }),
                Err(failure) => is_lock_error(failure@, "read"@),
            },
    {
        let guard = match self.read_lock() {
            Ok(guard) => guard,
            Err(failure) => {
                return Err(failure);
            },
        };
        let store = guarded(&guard);
        let found = store.get_node(id);
        assert(read_under(self.lock(), store@));
        Ok(found)
    }

    /// A copy of the type registered under `id`, or `None` if there is
    /// none; a missing type is no error. The answer is that of the store as
    /// it stood while this call had the lock.
    pub fn get_type(&self, id: &str) -> (result: Result<Option<TypeDefinition>, PluginManagerError>)
        ensures
            match result {
                Ok(found) => exists|held: RegistryView| #[trigger]
                    read_under(self.lock(), held) && well_formed(held) && (match found {
                        Some(definition) => lookup_type(held.types, id@) == Some(definition@),
                        None => lookup_type(held.types, id@) is None,
                    }),
                Err(failure) => is_lock_error(failure@, "read"@),
            },
    {
        let guard = match self.read_lock() {
            Ok(guard) => guard,
            Err(failure) => {
                return Err(failure);
            },
        };
        let store = guarded(&guard);
        let found = store.get_type(id);
        assert(read_under(self.lock(), store@));
        Ok(found)
    }

    /// Copies of all registered nodes, each identifier once: the store as
    /// it stood while this call had the lock.
    pub fn list_nodes(&self) -> (result: Result<Vec<NodeDefinition>, PluginManagerError>)
        ensures
            match result {
                Ok(nodes) => exists|held: RegistryView| #[trigger]
                    read_under(self.lock(), held) && well_formed(held) && node_views(nodes@)
                        == held.nodes,
                Err(failure) => is_lock_error(failure@, "read"@),
            },
    {
        let guard = match self.read_lock() {
            Ok(guard) => guard,
            Err(failure) => {
                return Err(failure);
            },
        };
        let store = guarded(&guard);
        let nodes = store.list_nodes();
        assert(read_under(self.lock(), store@));
        Ok(nodes)
    }

    /// Copies of all registered types, each identifier once: the store as
    /// it stood while this call had the lock.
    pub fn list_types(&self) -> (result: Result<Vec<TypeDefinition>, PluginManagerError>)
        ensures
            match result {
                Ok(types) => exists|held: RegistryView| #[trigger]
                    read_under(self.lock(), held) && well_formed(held) && type_views(types@)
                        == held.types,
                Err(failure) => is_lock_error(failure@, "read"@),
            },
    {
        let guard = match self.read_lock() {
            Ok(guard) => guard,
            Err(failure) => {
                return Err(failure);
            },
        };
        let store = guarded(&guard);
        let types = store.list_types();
        assert(read_under(self.lock(), store@));
        Ok(types)
    }
}

} // verus!
