//! Predicates on state data and waiting until they hold
//!
//! Waiting until a predicate holds on the data of a state first checks the current data. If the predicate does not
//! hold, the waiter subscribes to changes after the change stamp of those data and checks the data of every change,
//! until the predicate holds or reading the data fails.

use vstd::prelude::*;

use crate::data::ChangeStamp;
use crate::subscribe::SeenChangeStamp;

verus! {

/// A stage at which a predicate is evaluated
#[derive(Clone, Copy, Debug, PartialEq, Eq, Structural, Hash)]
pub enum PredicateStage {
    /// The predicate is evaluated on the current data, before subscribing to changes
    Initial,
    /// The predicate is evaluated on the data of a change
    Changed,
}

/// A predicate on state data
///
/// Every closure taking a reference to the data and returning a `bool` is a predicate, which does not depend on the
/// stage.
pub trait Predicate<T> {
    /// Whether the predicate can be evaluated on the given data at the given stage
    closed spec fn accepts(&self, data: T, stage: PredicateStage) -> bool {
        true
    }

    /// Whether the predicate can evaluate to `r` on the given data at the given stage
    closed spec fn may_give(&self, data: T, stage: PredicateStage, r: bool) -> bool {
        true
    }

    /// Evaluates the predicate on the given data at the given stage
    fn check(&mut self, data: &T, stage: PredicateStage) -> (r: bool)
        requires
            old(self).accepts(*data, stage),
        ensures
            old(self).may_give(*data, stage, r),
    ;
}

impl<T, F> Predicate<T> for F where F: FnMut(&T) -> bool {
    open spec fn accepts(&self, data: T, stage: PredicateStage) -> bool {
        call_requires(*self, (&data,))
    }

    open spec fn may_give(&self, data: T, stage: PredicateStage, r: bool) -> bool {
        call_ensures(*self, (&data,), r)
    }

    fn check(&mut self, data: &T, stage: PredicateStage) -> (r: bool) {
        self(data)
    }
}

/// A predicate that does not hold initially but holds on every change, whatever the data
#[derive(Clone, Copy, Debug, PartialEq, Eq, Structural, Hash)]
pub struct ChangedPredicate;

impl<T> Predicate<T> for ChangedPredicate {
    open spec fn accepts(&self, data: T, stage: PredicateStage) -> bool {
        true
    }

    open spec fn may_give(&self, data: T, stage: PredicateStage, r: bool) -> bool {
        r == (stage == PredicateStage::Changed)
    }

    fn check(&mut self, data: &T, stage: PredicateStage) -> (r: bool) {
        match stage {
            PredicateStage::Initial => false,
            PredicateStage::Changed => true,
        }
    }
}

/// Waiting for a change: the predicate that holds on changes never holds on the current data, and always holds on the
/// data of a change
pub proof fn lemma_changed_predicate<D>(predicate: ChangedPredicate, data: D, holds: bool)
    ensures
        <ChangedPredicate as Predicate<D>>::may_give(&predicate, data, PredicateStage::Initial, holds) <==> !holds,
        <ChangedPredicate as Predicate<D>>::may_give(&predicate, data, PredicateStage::Changed, holds) <==> holds,
{
}

/// How waiting goes on after checking the current data
pub enum WaitStart<D> {
    /// The predicate holds on the current data: waiting is finished with them
    Ready(D),
    /// The predicate does not hold: subscribe to changes after the given change stamp
    Subscribe(SeenChangeStamp),
}

/// How waiting goes on after a change
pub enum WaitChange<D, E> {
    /// The predicate does not hold on the data of the change: wait for the next change
    KeepWaiting,
    /// Waiting is finished: with the data of the change, on which the predicate holds, or with the error reading them
    Ready(Result<D, E>),
}

/// Starts waiting until a predicate holds, given the current data and their change stamp
///
/// Waiting is finished with the current data if the predicate holds on them; otherwise it goes on by subscribing to
/// the changes after their change stamp.
pub fn wait_initial<D, P: Predicate<D>>(predicate: &mut P, data: D, change_stamp: ChangeStamp) -> (r: WaitStart<D>)
    requires
        old(predicate).accepts(data, PredicateStage::Initial),
    ensures
        exists|holds: bool|
            #[trigger] old(predicate).may_give(data, PredicateStage::Initial, holds) && if holds {
                r == WaitStart::Ready(data)
            } else {
                r == WaitStart::<D>::Subscribe(SeenChangeStamp::Value(change_stamp))
            },
{
    let holds = predicate.check(&data, PredicateStage::Initial);
    if holds {
        WaitStart::Ready(data)
    } else {
        WaitStart::Subscribe(SeenChangeStamp::Value(change_stamp))
    }
}

/// Goes on waiting until a predicate holds, given the result of reading the data of a change
///
/// Waiting is finished with the error if reading failed, and with the data if the predicate holds on them;
/// otherwise it goes on with the next change.
pub fn wait_changed<D, E, P: Predicate<D>>(predicate: &mut P, result: Result<D, E>) -> (r: WaitChange<D, E>)
    requires
        result matches Ok(data) ==> old(predicate).accepts(data, PredicateStage::Changed),
    ensures
        result is Err ==> r == WaitChange::Ready(result),
        result matches Ok(data) ==> exists|holds: bool|
            #[trigger] old(predicate).may_give(data, PredicateStage::Changed, holds) && if holds {
                r == WaitChange::Ready(result)
            } else {
                r is KeepWaiting
            },
{
    match result {
        Err(e) => WaitChange::Ready(Err(e)),
        Ok(data) => {
            let holds = predicate.check(&data, PredicateStage::Changed);
            if holds {
                WaitChange::Ready(Ok(data))
            } else {
                WaitChange::KeepWaiting
            }
        },
    }
}

} // verus!
