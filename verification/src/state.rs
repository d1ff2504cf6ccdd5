//! A cell that holds the latest committed value and reports only real changes.

use vstd::prelude::*;
use vstd::std_specs::cmp::PartialEqSpec;

verus! {

/// Whether `==` on `T` decides plain equality of values.
pub open spec fn eq_is_identity<T: PartialEq>() -> bool {
    &&& T::obeys_eq_spec()
    &&& forall|a: T, b: T| #[trigger] a.eq_spec(&b) <==> a == b
}

/// What a cell that holds `committed` hands on when `offer` is offered to it.
pub open spec fn forwarded<T>(committed: T, offer: T) -> Option<T> {
    if offer == committed {
        None
    } else {
        Some(offer)
    }
}

/// The value that a cell holds after `offers` were offered in turn to a cell
/// that held `initial`.
pub open spec fn committed_after<T>(initial: T, offers: Seq<T>) -> T {
    if offers.len() == 0 {
        initial
    } else {
        offers.last()
    }
}

/// The values handed on, in order, while `offers` were offered in turn to a
/// cell that held `initial`.
pub open spec fn propagated<T>(initial: T, offers: Seq<T>) -> Seq<T>
    decreases offers.len(),
{
    if offers.len() == 0 {
        Seq::empty()
    } else {
        let earlier = offers.drop_last();
        match forwarded(committed_after(initial, earlier), offers.last()) {
            Some(value) => propagated(initial, earlier).push(value),
            None => propagated(initial, earlier),
        }
    }
}

/// The latest committed value of one data source.
///
/// The value changes only through [`StateSnapshot::update`] and
/// [`StateSnapshot::update_with`], which hand a value on exactly when it
/// differs from the one committed before.
#[derive(Debug)]
pub struct StateSnapshot<T> {
    current: T,
}

impl<T: Copy + PartialEq> StateSnapshot<T> {
    /// The committed value.
    pub closed spec fn value(&self) -> T {
        self.current
    }

    /// A cell that holds `initial`.
    pub fn new(initial: T) -> (cell: Self)
        ensures
            cell.value() == initial,
    {
        StateSnapshot { current: initial }
    }

    /// The committed value.
    pub fn get(&self) -> (value: T)
        ensures
            value == self.value(),
    {
        self.current
    }

    /// Offers `offer` as the next value. One equal to the committed value
    /// changes nothing and yields `None`; any other is committed and handed
    /// back, to be forwarded to the sink.
    pub fn update(&mut self, offer: T) -> (forward: Option<T>)
        requires
            eq_is_identity::<T>(),
        ensures
            final(self).value() == offer,
            forward == forwarded(old(self).value(), offer),
    {
        if offer == self.current {
            None
        } else {
            self.current = offer;
            Some(offer)
        }
    }

    /// Computes the next value from the committed one and offers it as
    /// [`StateSnapshot::update`] does. Where `updater` fails, the cell keeps its
    /// value and the failure is returned.
    pub fn update_with<E, F: FnOnce(&T) -> Result<T, E>>(&mut self, updater: F) -> (outcome: Result<
        Option<T>,
        E,
    >)
        requires
            eq_is_identity::<T>(),
            updater.requires((&old(self).value(),)),
        ensures
            match outcome {
                Ok(forward) => {
                    &&& updater.ensures((&old(self).value(),), Ok(final(self).value()))
                    &&& forward == forwarded(old(self).value(), final(self).value())
                },
                Err(failure) => {
                    &&& updater.ensures((&old(self).value(),), Err(failure))
                    &&& final(self).value() == old(self).value()
                },
            },
    {
        match updater(&self.current) {
            Ok(offer) => Ok(self.update(offer)),
            Err(failure) => Err(failure),
        }
    }
}

/// Offering one more value hands it on exactly when it differs from the value
/// committed just before.
pub proof fn lemma_propagated_step<T>(initial: T, offers: Seq<T>, offer: T)
    ensures
        committed_after(initial, offers.push(offer)) == offer,
        propagated(initial, offers.push(offer)) == if offer == committed_after(initial, offers) {
            propagated(initial, offers)
        } else {
            propagated(initial, offers).push(offer)
        },
{
    assert(offers.push(offer).drop_last() =~= offers);
}

/// The last value handed on is the committed one; while none was handed on,
/// the cell still holds its first value.
pub proof fn lemma_propagated_last<T>(initial: T, offers: Seq<T>)
    ensures
        committed_after(initial, offers) == if propagated(initial, offers).len() == 0 {
            initial
        } else {
            propagated(initial, offers).last()
        },
    decreases offers.len(),
{
    if offers.len() > 0 {
        lemma_propagated_last(initial, offers.drop_last());
    }
}

/// Whatever is offered, no value is handed on twice in a row, and the first
/// one handed on differs from the cell's first value.
pub proof fn lemma_propagated_values_differ<T>(initial: T, offers: Seq<T>)
    ensures
        propagated(initial, offers).len() > 0 ==> propagated(initial, offers)[0] != initial,
        forall|i: int|
            0 <= i && i + 1 < propagated(initial, offers).len() ==> propagated(initial, offers)[i]
                != #[trigger] propagated(initial, offers)[i + 1],
    decreases offers.len(),
{
    if offers.len() > 0 {
        let earlier = offers.drop_last();
        lemma_propagated_values_differ(initial, earlier);
        lemma_propagated_last(initial, earlier);
    }
}

} // verus!
