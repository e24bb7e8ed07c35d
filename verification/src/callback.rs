//! Listeners called with the data of changes to a state
//!
//! A listener is any closure taking no argument, the data, or the data and the change stamp of a change. The
//! listener traits abstract over these forms, so that each can be called with both the data and the change stamp.

use vstd::prelude::*;

use crate::change_stamp::WnfChangeStamp;

verus! {

/// A listener called with the data and change stamp of a change to a state, returning a `Return`
///
/// The type parameter `Args` tells which arguments a closure implementing this trait takes.
pub trait WnfCallback<T, Args, Return> {
    /// Whether the listener can be called with the given data and change stamp
    spec fn accepts(&self, data: T, change_stamp: WnfChangeStamp) -> bool;

    /// Whether the listener can return `r` when called with the given data and change stamp
    spec fn may_return(&self, data: T, change_stamp: WnfChangeStamp, r: Return) -> bool;

    /// Calls the listener with the data and change stamp of a change
    fn call(&mut self, data: T, change_stamp: WnfChangeStamp) -> (r: Return)
        requires
            old(self).accepts(data, change_stamp),
        ensures
            old(self).may_return(data, change_stamp, r),
    ;
}

impl<F, T, Return> WnfCallback<T, (), Return> for F where F: FnMut() -> Return {
    open spec fn accepts(&self, data: T, change_stamp: WnfChangeStamp) -> bool {
        call_requires(*self, ())
    }

    open spec fn may_return(&self, data: T, change_stamp: WnfChangeStamp, r: Return) -> bool {
        call_ensures(*self, (), r)
    }

    fn call(&mut self, data: T, change_stamp: WnfChangeStamp) -> (r: Return) {
        self()
    }
}

impl<F, T, Return> WnfCallback<T, (T,), Return> for F where F: FnMut(T) -> Return {
    open spec fn accepts(&self, data: T, change_stamp: WnfChangeStamp) -> bool {
        call_requires(*self, (data,))
    }

    open spec fn may_return(&self, data: T, change_stamp: WnfChangeStamp, r: Return) -> bool {
        call_ensures(*self, (data,), r)
    }

    fn call(&mut self, data: T, change_stamp: WnfChangeStamp) -> (r: Return) {
        self(data)
    }
}

impl<F, T, Return> WnfCallback<T, (T, WnfChangeStamp), Return> for F where
    F: FnMut(T, WnfChangeStamp) -> Return,
 {
    open spec fn accepts(&self, data: T, change_stamp: WnfChangeStamp) -> bool {
        call_requires(*self, (data, change_stamp))
    }

    open spec fn may_return(&self, data: T, change_stamp: WnfChangeStamp, r: Return) -> bool {
        call_ensures(*self, (data, change_stamp), r)
    }

    fn call(&mut self, data: T, change_stamp: WnfChangeStamp) -> (r: Return) {
        self(data, change_stamp)
    }
}

/// A listener called with the data, if they could be read, and the change stamp of a change to a state
///
/// The type parameter `Args` tells which arguments a closure implementing this trait takes.
pub trait WnfStateChangeListener<T, Args> {
    /// Whether the listener can be called with the given data and change stamp
    spec fn accepts(&self, data: Option<T>, change_stamp: WnfChangeStamp) -> bool;

    /// Whether a call of the listener with the given data and change stamp can finish: what holds once the listener
    /// has been called with them
    spec fn may_finish(&self, data: Option<T>, change_stamp: WnfChangeStamp) -> bool;

    /// Calls the listener with the data and change stamp of a change
    fn call(&mut self, data: Option<T>, change_stamp: WnfChangeStamp)
        requires
            old(self).accepts(data, change_stamp),
        ensures
            old(self).may_finish(data, change_stamp),
    ;
}

impl<F, T> WnfStateChangeListener<T, (Option<T>, WnfChangeStamp)> for F where F: FnMut(Option<T>, WnfChangeStamp) {
    open spec fn accepts(&self, data: Option<T>, change_stamp: WnfChangeStamp) -> bool {
        call_requires(*self, (data, change_stamp))
    }

    open spec fn may_finish(&self, data: Option<T>, change_stamp: WnfChangeStamp) -> bool {
        call_ensures(*self, (data, change_stamp), ())
    }

    fn call(&mut self, data: Option<T>, change_stamp: WnfChangeStamp) {
        self(data, change_stamp)
    }
}

impl<F, T> WnfStateChangeListener<T, (Option<T>,)> for F where F: FnMut(Option<T>) {
    open spec fn accepts(&self, data: Option<T>, change_stamp: WnfChangeStamp) -> bool {
        call_requires(*self, (data,))
    }

    open spec fn may_finish(&self, data: Option<T>, change_stamp: WnfChangeStamp) -> bool {
        call_ensures(*self, (data,), ())
    }

    fn call(&mut self, data: Option<T>, change_stamp: WnfChangeStamp) {
        self(data)
    }
}

impl<F, T> WnfStateChangeListener<T, ()> for F where F: FnMut() {
    open spec fn accepts(&self, data: Option<T>, change_stamp: WnfChangeStamp) -> bool {
        call_requires(*self, ())
    }

    open spec fn may_finish(&self, data: Option<T>, change_stamp: WnfChangeStamp) -> bool {
        call_ensures(*self, (), ())
    }

    fn call(&mut self, data: Option<T>, change_stamp: WnfChangeStamp) {
        self()
    }
}

} // verus!
