//! The shutdown target and the non-owning reference the bridge keeps to it.
//!
//! The target is the shard manager that a `serenity::Client` shares behind
//! `Arc<Mutex<_>>`. All of these types belong to other crates; this module
//! makes them known to the verifier, as opaque values, and specifies the three
//! operations the bridge needs on them.
use std::sync::Arc;
use std::sync::Weak;
use vstd::prelude::*;

verus! {

/// `serenity::client::bridge::gateway::ShardManager`, as an opaque value.
#[verifier::external_type_specification]
#[verifier::external_body]
pub struct ExShardManager(serenity::client::bridge::gateway::ShardManager);

/// `serenity::Client`, as an opaque value.
#[verifier::external_type_specification]
#[verifier::external_body]
pub struct ExClient(serenity::Client);

/// `tokio::sync::Mutex`, as an opaque value.
#[verifier::external_type_specification]
#[verifier::external_body]
#[verifier::reject_recursive_types(T)]
pub struct ExMutex<T: ?Sized>(tokio::sync::Mutex<T>);

/// `tokio::sync::MutexGuard`, as an opaque value: the lock is held for as
/// long as the guard lives.
#[verifier::external_type_specification]
#[verifier::external_body]
#[verifier::reject_recursive_types(T)]
pub struct ExMutexGuard<'a, T: ?Sized>(tokio::sync::MutexGuard<'a, T>);

/// `tokio::runtime::Handle`, as an opaque value.
#[verifier::external_type_specification]
#[verifier::external_body]
pub struct ExHandle(tokio::runtime::Handle);

/// A non-owning reference to a shard manager: it observes the manager and
/// never keeps it alive.
///
/// It holds a `std::sync::Weak`, which the verifier cannot take as a declared
/// type, so the whole struct is opaque to it.
#[verifier::external_body]
pub struct WeakShardManager {
    inner: Weak<tokio::sync::Mutex<serenity::client::bridge::gateway::ShardManager>>,
}

/// The shard manager that a weak reference was taken from. A weak reference
/// refers to one allocation for as long as it exists, whether or not that
/// allocation is still alive.
pub uninterp spec fn referent(weak: WeakShardManager) -> tokio::sync::Mutex<
    serenity::client::bridge::gateway::ShardManager,
>;

/// `Arc::downgrade`: a new weak reference to the allocation that `target`
/// points to. The strong count of `target` is left as it is.
#[verifier::external_body]
pub(crate) fn downgrade(
    target: &Arc<tokio::sync::Mutex<serenity::client::bridge::gateway::ShardManager>>,
) -> (weak: WeakShardManager)
    ensures
        referent(weak) == **target,
{
    WeakShardManager { inner: Arc::downgrade(target) }
}

/// `Weak::upgrade`: a strong reference to the referent if it has not been
/// dropped yet, `None` if it has. Which of the two comes back depends on the
/// other owners of the referent; a strong reference that does come back is to
/// the referent and to nothing else.
#[verifier::external_body]
pub(crate) fn upgrade(weak: &WeakShardManager) -> (strong: Option<
    Arc<tokio::sync::Mutex<serenity::client::bridge::gateway::ShardManager>>,
>)
    ensures
        strong matches Some(target) ==> *target == referent(*weak),
{
    weak.inner.upgrade()
}

/// The shard manager of a client: what its field `shard_manager` points to.
pub uninterp spec fn client_target(client: serenity::Client) -> tokio::sync::Mutex<
    serenity::client::bridge::gateway::ShardManager,
>;

/// The field `shard_manager` of a `serenity::Client`: the shared state that
/// the client's shards are run from.
#[verifier::external_body]
pub(crate) fn shard_manager(client: &serenity::Client) -> (target: &Arc<
    tokio::sync::Mutex<serenity::client::bridge::gateway::ShardManager>,
>)
    ensures
        **target == client_target(*client),
{
    &client.shard_manager
}

} // verus!
