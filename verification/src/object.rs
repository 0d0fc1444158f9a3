//! Arrays of arbitrary objects, collected from optional items.

use vstd::prelude::*;
use vstd::pervasive::unreached;

verus! {

/// An array of objects with an optional validity marker. Without a marker
/// every element is present; with one, an element is present where the
/// marker says so, and the value stored under a null is the type's default.
#[derive(Debug)]
pub struct ObjectArray<T> {
    values: Vec<T>,
    validity: Option<Vec<bool>>,
}

impl<T> View for ObjectArray<T> {
    type V = Seq<Option<T>>;

    closed spec fn view(&self) -> Seq<Option<T>> {
        Seq::new(
            self.values@.len(),
            |i: int|
                if self.validity is None || self.validity->0@[i] {
                    Some(self.values@[i])
                } else {
                    None
                },
        )
    }
}

/// Whether an array holds a clone of every present item and a null for
/// every absent one, in order.
pub open spec fn collected<T: Clone>(array: Seq<Option<T>>, items: Seq<Option<&T>>) -> bool {
    &&& array.len() == items.len()
    &&& forall|i: int|
        0 <= i < items.len() ==> match #[trigger] items[i] {
            Some(item) => array[i] is Some && cloned(*item, array[i]->0),
            None => array[i] is None,
        }
}

impl<T> ObjectArray<T> {
    #[verifier::type_invariant]
    spec fn marker_fits(self) -> bool {
        self.validity is Some ==> self.validity->0@.len() == self.values@.len()
    }

    /// Whether the array carries a validity marker.
    pub closed spec fn has_validity(&self) -> bool {
        self.validity is Some
    }

    /// Number of elements, nulls included.
    pub fn len(&self) -> (n: usize)
        ensures
            n == self@.len(),
    {
        self.values.len()
    }

    /// Whether the array carries a validity marker.
    pub fn is_nullable(&self) -> (nullable: bool)
        ensures
            nullable == self.has_validity(),
    {
        self.validity.is_some()
    }

    /// The element at `index`; `None` for a null.
    pub fn get(&self, index: usize) -> (item: Option<&T>)
        requires
            index < self@.len(),
        ensures
            match self@[index as int] {
                Some(value) => item == Some(&value),
                None => item is None,
            },
    {
        proof {
            use_type_invariant(self);
        }
        let present: bool = match &self.validity {
            Some(marker) => marker[index],
            None => true,
        };
        if present {
            Some(&self.values[index])
        } else {
            None
        }
    }
}

impl<T: Clone + Default> ObjectArray<T> {
    /// Collects optional items into an array: a clone of each present item,
    /// and a null, over the type's default, for each absent one. The array
    /// carries a validity marker only where some item is absent.
    pub fn arr_from_iter(items: Vec<Option<&T>>) -> (array: Self)
        ensures
            collected(array@, items@),
            array.has_validity() <==> exists|i: int| 0 <= i < items@.len() && items@[i] is None,
    {
        let mut values: Vec<T> = Vec::with_capacity(items.len());
        let mut marker: Vec<bool> = Vec::with_capacity(items.len());
        let mut nulls: bool = false;
        let mut i: usize = 0;
        while i < items.len()
            invariant
                i <= items@.len(),
                values@.len() == i,
                marker@.len() == i,
                nulls <==> exists|j: int| 0 <= j < i && items@[j] is None,
                forall|j: int|
                    0 <= j < i ==> match #[trigger] items@[j] {
                        Some(item) => marker@[j] && cloned(*item, values@[j]),
                        None => !marker@[j],
                    },
            decreases items@.len() - i,
        {
            match items[i] {
                Some(item) => {
                    values.push(item.clone());
                    marker.push(true);
                },
                None => {
                    values.push(T::default());
                    marker.push(false);
                    nulls = true;
                },
            }
            i += 1;
        }
        let validity: Option<Vec<bool>> = if nulls {
            Some(marker)
        } else {
            None
        };
        let array = ObjectArray { values, validity };
        proof {
            assert forall|k: int| 0 <= k < items@.len() implies match #[trigger] items@[k] {
                Some(item) => array@[k] is Some && cloned(*item, array@[k]->0),
                None => array@[k] is None,
            } by {
                if !nulls && items@[k] is None {
                    assert(exists|j: int| 0 <= j < items@.len() && items@[j] is None);
                }
            }
        }
        array
    }

    /// Collects items that may have failed. The first failure, in order, is
    /// returned as it is and nothing is collected; without a failure the
    /// array is the one that `arr_from_iter` builds from the items.
    pub fn try_arr_from_iter<E>(items: Vec<Result<Option<&T>, E>>) -> (result: Result<Self, E>)
        ensures
            match result {
                Ok(array) => {
                    &&& forall|i: int| 0 <= i < items@.len() ==> items@[i] is Ok
                    &&& collected(array@, items@.map_values(|item: Result<Option<&T>, E>| item->Ok_0))
                    &&& array.has_validity() <==> exists|i: int|
                        0 <= i < items@.len() && items@[i] == Ok::<Option<&T>, E>(None)
                },
                Err(error) => exists|i: int|
                    0 <= i < items@.len() && items@[i] == Err::<Option<&T>, E>(error) && forall|
                        j: int,
                    | 0 <= j < i ==> items@[j] is Ok,
            },
    {
        let ghost given = items@;
        let mut pending = items;
        let mut plain: Vec<Option<&T>> = Vec::with_capacity(pending.len());
        let mut i: usize = 0;
        while i < pending.len()
            invariant
                items@ == given,
                pending@ == given,
                i <= given.len(),
                plain@.len() == i,
                forall|j: int| 0 <= j < i ==> given[j] == Ok::<Option<&T>, E>(#[trigger] plain@[j]),
            decreases given.len() - i,
        {
            match &pending[i] {
                Ok(item) => {
                    plain.push(*item);
                },
                Err(_) => {
                    match pending.remove(i) {
                        Err(error) => {
                            proof {
                                assert(items@[i as int] == Err::<Option<&T>, E>(error));
                                assert forall|j: int| 0 <= j < i implies given[j] is Ok by {
                                    assert(given[j] == Ok::<Option<&T>, E>(plain@[j]));
                                }
                            }
                            return Err(error);
                        },
                        Ok(_) => unreached(),
                    }
                },
            }
            i += 1;
        }
        let array = Self::arr_from_iter(plain);
        proof {
            assert forall|j: int| 0 <= j < given.len() implies given[j] is Ok by {
                assert(given[j] == Ok::<Option<&T>, E>(plain@[j]));
            }
            let unwrapped = given.map_values(|item: Result<Option<&T>, E>| item->Ok_0);
            assert(unwrapped =~= plain@) by {
                assert forall|j: int| 0 <= j < given.len() implies unwrapped[j] == plain@[j] by {
                    assert(given[j] == Ok::<Option<&T>, E>(plain@[j]));
                }
            }
            if array.has_validity() {
                let k = choose|k: int| 0 <= k < plain@.len() && plain@[k] is None;
                assert(given[k] == Ok::<Option<&T>, E>(plain@[k]));
            }
            if exists|k: int| 0 <= k < given.len() && given[k] == Ok::<Option<&T>, E>(None) {
                let k = choose|k: int| 0 <= k < given.len() && given[k] == Ok::<Option<&T>, E>(None);
                assert(given[k] == Ok::<Option<&T>, E>(plain@[k]));
                assert(plain@[k] is None);
            }
        }
        Ok(array)
    }
}

} // verus!
