//! Handles of subscriptions to changes of state data
//!
//! A subscription consists of an id handed out by the Windows native API and a context that the notifications of the
//! subscription are delivered to. The context has to stay alive for as long as the subscription is active, so a
//! handle only releases it once unsubscribing has succeeded.

use vstd::prelude::*;

use crate::bytes::CheckedBitPattern;
use crate::callback::WnfStateChangeListener;
use crate::change_stamp::WnfChangeStamp;
use crate::error::WnfUnsubscribeError;
use crate::raw_state::{boxed_notified, notify_boxed, notify_slice, notify_value, slice_notified, value_notified};

verus! {

/// The context and id of an active subscription
#[derive(Debug)]
struct SubscriptionInner<C> {
    context: Box<C>,
    subscription: u64,
}

/// A handle to a subscription to changes of state data
#[derive(Debug)]
pub struct WnfSubscriptionHandle<C> {
    inner: Option<SubscriptionInner<C>>,
}

impl<C> View for WnfSubscriptionHandle<C> {
    type V = Option<(C, u64)>;

    /// The context and id of the subscription while it is active
    closed spec fn view(&self) -> Option<(C, u64)> {
        match self.inner {
            Some(inner) => Some((*inner.context, inner.subscription)),
            None => None,
        }
    }
}

impl<C> WnfSubscriptionHandle<C> {
    /// Creates a handle to the active subscription with the given context and id
    pub fn new(context: Box<C>, subscription: u64) -> (r: Self)
        ensures
            r@ == Some((*context, subscription)),
    {
        WnfSubscriptionHandle { inner: Some(SubscriptionInner { context, subscription }) }
    }

    /// Returns the id of the subscription while it is active
    pub fn subscription(&self) -> (r: Option<u64>)
        ensures
            r == match self@ {
                Some((_, id)) => Some(id),
                None => None,
            },
    {
        match &self.inner {
            Some(inner) => Some(inner.subscription),
            None => None,
        }
    }

    /// Gives up the handle without unsubscribing
    ///
    /// The subscription stays active, so its context is handed out for the caller to keep alive.
    pub fn forget(self) -> (r: Option<Box<C>>)
        ensures
            match self@ {
                Some((context, _)) => r matches Some(b) && *b == context,
                None => r is None,
            },
    {
        match self.inner {
            Some(inner) => Some(inner.context),
            None => None,
        }
    }

    /// Finishes unsubscribing, given the `NTSTATUS` code of unsubscribing the active subscription
    ///
    /// If the subscription is no longer active, there is nothing to unsubscribe and this succeeds whatever the code.
    /// If unsubscribing failed, the handle is handed back unchanged together with the error, so the context stays
    /// alive.
    pub fn unsubscribe(self, status: i32) -> (r: Result<(), (WnfUnsubscribeError, Self)>)
        ensures
            self@ is None ==> r is Ok,
            self@ is Some && status >= 0 ==> r is Ok,
            self@ is Some && status < 0 ==> (r matches Err((e, h)) && e == WnfUnsubscribeError::Windows(status)
                && h@ == self@),
    {
        match self.inner {
            None => Ok(()),
            Some(inner) => {
                if status >= 0 {
                    Ok(())
                } else {
                    Err((WnfUnsubscribeError::Windows(status), WnfSubscriptionHandle { inner: Some(inner) }))
                }
            },
        }
    }
}

/// The listener of a subscription, until it is silenced
///
/// Notifications of changes are delivered to the listener while it is active. A silenced listener is gone: no
/// notification reaches it anymore. A subscription whose unsubscribing failed is silenced, since the Windows native
/// API may still deliver notifications to it.
#[derive(Debug)]
pub struct ListenerSlot<F> {
    listener: Option<F>,
}

impl<F> View for ListenerSlot<F> {
    type V = Option<F>;

    /// The listener, while it is active
    closed spec fn view(&self) -> Option<F> {
        self.listener
    }
}

impl<F> ListenerSlot<F> {
    /// Creates a slot holding the given active listener
    pub fn new(listener: F) -> (r: Self)
        ensures
            r@ == Some(listener),
    {
        ListenerSlot { listener: Some(listener) }
    }

    /// Returns whether the listener is still active
    pub fn is_active(&self) -> (r: bool)
        ensures
            r == self@ is Some,
    {
        self.listener.is_some()
    }

    /// Silences the listener: it is dropped and no notification reaches it anymore
    pub fn silence(&mut self)
        ensures
            final(self)@ is None,
    {
        self.listener = None;
    }

    /// Delivers a notification of a change to the data as a `T`
    ///
    /// An active listener is called once, with the data read from the delivered bytes (`None` if they cannot be read
    /// as a `T`) and the change stamp, and stays active. A silenced listener is not called.
    pub fn deliver_value<T: CheckedBitPattern, A>(&mut self, bytes: &[u8], change_stamp: WnfChangeStamp) where
        F: WnfStateChangeListener<T, A>,

        requires
            old(self)@ matches Some(l) ==> forall|d: Option<T>|
                value_notified(bytes@, d) ==> #[trigger] l.accepts(d, change_stamp),
        ensures
            old(self)@ is None ==> final(self)@ is None,
            old(self)@ matches Some(l) ==> final(self)@ is Some && exists|d: Option<T>|
                value_notified(bytes@, d) && #[trigger] l.may_finish(d, change_stamp),
    {
        match &mut self.listener {
            Some(listener) => notify_value(listener, bytes, change_stamp),
            None => {},
        }
    }

    /// Delivers a notification of a change to the data as a boxed `T`
    ///
    /// An active listener is called once, with the boxed data read from the delivered bytes (`None` if they cannot be
    /// read as a `T`) and the change stamp, and stays active. A silenced listener is not called.
    pub fn deliver_boxed<T: CheckedBitPattern, A>(&mut self, bytes: &[u8], change_stamp: WnfChangeStamp) where
        F: WnfStateChangeListener<Box<T>, A>,

        requires
            old(self)@ matches Some(l) ==> forall|d: Option<Box<T>>|
                boxed_notified(bytes@, d) ==> #[trigger] l.accepts(d, change_stamp),
        ensures
            old(self)@ is None ==> final(self)@ is None,
            old(self)@ matches Some(l) ==> final(self)@ is Some && exists|d: Option<Box<T>>|
                boxed_notified(bytes@, d) && #[trigger] l.may_finish(d, change_stamp),
    {
        match &mut self.listener {
            Some(listener) => notify_boxed(listener, bytes, change_stamp),
            None => {},
        }
    }

    /// Delivers a notification of a change to the data as a slice of `T`
    ///
    /// An active listener is called once, with the elements read from the delivered bytes (`None` if they cannot be
    /// read as a slice of `T`) and the change stamp, and stays active. A silenced listener is not called.
    pub fn deliver_slice<T: CheckedBitPattern, A>(&mut self, bytes: &[u8], change_stamp: WnfChangeStamp) where
        F: WnfStateChangeListener<Vec<T>, A>,

        requires
            old(self)@ matches Some(l) ==> forall|d: Option<Vec<T>>|
                slice_notified(bytes@, d) ==> #[trigger] l.accepts(d, change_stamp),
        ensures
            old(self)@ is None ==> final(self)@ is None,
            old(self)@ matches Some(l) ==> final(self)@ is Some && exists|d: Option<Vec<T>>|
                slice_notified(bytes@, d) && #[trigger] l.may_finish(d, change_stamp),
    {
        match &mut self.listener {
            Some(listener) => notify_slice(listener, bytes, change_stamp),
            None => {},
        }
    }
}

} // verus!
