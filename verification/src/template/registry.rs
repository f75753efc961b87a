//! The shared store of variables and functions.
//!
//! Both maps are concurrent: every handle on a context reads and writes the
//! same storage, also from other threads. What a lookup answers therefore
//! depends on more than its arguments, and nothing is stated of it.

use std::sync::Arc;

use dashmap::DashMap;
use vstd::prelude::*;

use crate::template::function::FuncResult;

verus! {

/// The concurrent map of the `dashmap` crate. Nothing of what it holds is
/// visible here.
#[verifier::external_type_specification]
#[verifier::external_body]
#[verifier::reject_recursive_types(K)]
#[verifier::reject_recursive_types(V)]
#[verifier::reject_recursive_types(S)]
pub struct ExDashMap<K, V, S>(DashMap<K, V, S>);

/// A function that templates can call: it takes the values of its
/// arguments, in order, and gives the text to put in its place.
pub trait Function: Send + Sync {
    /// Calls the function with `args`.
    fn call(&self, args: &[String]) -> FuncResult;
}

impl<F: Fn(&[String]) -> FuncResult + Send + Sync> Function for F {
    fn call(&self, args: &[String]) -> (result: FuncResult)
        ensures
            call_requires(*self, (args,)) ==> call_ensures(*self, (args,), result),
    {
        invoke(self, args)
    }
}

/// The variables of a context, by name.
pub type Variables = DashMap<String, String>;

/// The functions of a context, by name.
pub type Functions = DashMap<String, Arc<dyn Function>>;

/// Calls `function` with `args`, through `Fn::call` of std, and hands back
/// what the call returned. The function is the user's: of the result only
/// that is known which the function itself ensures, and only for arguments
/// that it takes.
#[verifier::external_body]
fn invoke<F: Fn(&[String]) -> FuncResult>(function: &F, args: &[String]) -> (result: FuncResult)
    ensures
        call_requires(*function, (args,)) ==> call_ensures(*function, (args,), result),
{
    function(args)
}

/// A new, empty map, from `DashMap::new`.
#[verifier::external_body]
pub(crate) fn empty_map<V>() -> DashMap<String, V> {
    DashMap::new()
}

/// Another handle on the storage behind `handle`, from `Arc::clone` of std.
/// The two handles stand for the same map.
#[verifier::external_body]
pub(crate) fn share<T>(handle: &Arc<T>) -> (copy: Arc<T>)
    ensures
        copy == *handle,
{
    Arc::clone(handle)
}

/// Binds `name` to `function` with `DashMap::insert`, which replaces an
/// earlier binding of the name.
#[verifier::external_body]
pub(crate) fn store_function<F: Fn(&[String]) -> FuncResult + Send + Sync + 'static>(
    map: &Functions,
    name: String,
    function: F,
) {
    map.insert(name, Arc::new(function));
}

/// Binds `name` to `value` with `DashMap::insert`, which replaces an earlier
/// binding of the name.
#[verifier::external_body]
pub(crate) fn store<V>(map: &DashMap<String, V>, name: String, value: V) {
    map.insert(name, value);
}

/// A copy of what `name` is bound to at the time of the call, from
/// `DashMap::get`.
#[verifier::external_body]
pub(crate) fn lookup<V: Clone>(map: &DashMap<String, V>, name: &str) -> Option<V> {
    map.get(name).map(|entry| entry.value().clone())
}

/// Whether `name` is bound at the time of the call, from
/// `DashMap::contains_key`.
#[verifier::external_body]
pub(crate) fn holds<V>(map: &DashMap<String, V>, name: &str) -> bool {
    map.contains_key(name)
}

/// Removes the binding of `name`, if there is one, with `DashMap::remove`.
#[verifier::external_body]
pub(crate) fn discard<V>(map: &DashMap<String, V>, name: &str) {
    map.remove(name);
}

/// Removes all bindings with `DashMap::clear`.
#[verifier::external_body]
pub(crate) fn discard_all<V>(map: &DashMap<String, V>) {
    map.clear();
}

} // verus!
