//! A read-only, reference-counted value registered once and looked up by type per request.
use std::rc::Rc;

use vstd::prelude::*;

verus! {

/// A thread-local shared value: cloning shares the same allocation.
pub struct LocalData<T: ?Sized>(Rc<T>);

impl<T> LocalData<T> {
    /// Constructs a new `LocalData` holding `item`.
    pub fn new(item: T) -> (r: LocalData<T>)
        ensures
            *r.value() == item,
    {
        LocalData(Rc::new(item))
    }
}

impl<T: ?Sized> LocalData<T> {
    /// The value that this handle shares.
    pub closed spec fn value(&self) -> &T {
        &*self.0
    }

    /// A second handle to the same shared value.
    pub fn share(&self) -> (r: LocalData<T>)
        ensures
            r.value() == self.value(),
    {
        LocalData(Rc::clone(&self.0))
    }

    /// A reference to the shared value.
    pub fn get(&self) -> (r: &T)
        ensures
            r == self.value(),
    {
        &*self.0
    }
}

impl<T: ?Sized> Clone for LocalData<T> {
    fn clone(&self) -> (r: LocalData<T>)
        ensures
            r.value() == self.value(),
    {
        self.share()
    }
}

impl<T: ?Sized> From<Rc<T>> for LocalData<T> {
    fn from(rc: Rc<T>) -> (r: LocalData<T>)
        ensures
            r.value() == &*rc,
    {
        LocalData(rc)
    }
}

impl<T: ?Sized> vstd::std_specs::convert::FromSpecImpl<Rc<T>> for LocalData<T> {
    open spec fn obeys_from_spec() -> bool {
        true
    }

    closed spec fn from_spec(rc: Rc<T>) -> LocalData<T> {
        LocalData(rc)
    }
}

impl<T: ?Sized> std::ops::Deref for LocalData<T> {
    type Target = T;

    fn deref(&self) -> (r: &T)
        ensures
            r == self.value(),
    {
        self.get()
    }
}

/// Why a lookup of shared data failed: no value of the requested type was registered.
#[derive(Debug, Clone, Copy, PartialEq, Eq, Structural)]
pub enum DataError {
    NotConfigured,
}

impl DataError {
    /// The message sent to the client with the server-side failure response.
    pub fn message(&self) -> (r: &'static str)
        ensures
            r@ == data_error_message(),
    {
        "Requested application data is not configured correctly. View/enable debug logs for more details."
    }
}

/// The client-visible text of a configuration error.
pub open spec fn data_error_message() -> Seq<char> {
    "Requested application data is not configured correctly. View/enable debug logs for more details."@
}

/// Decides a per-request lookup: the registered handle, shared anew, when one was found;
/// a configuration error when none was.
pub fn resolve_local_data<T: ?Sized>(found: Option<&LocalData<T>>) -> (r: Result<LocalData<T>, DataError>)
    ensures
        found is None <==> r is Err,
        r is Err ==> r->Err_0 == DataError::NotConfigured,
        found is Some ==> r is Ok && r->Ok_0.value() == found->Some_0.value(),
{
    match found {
        Some(st) => Ok(st.share()),
        None => Err(DataError::NotConfigured),
    }
}

} // verus!
