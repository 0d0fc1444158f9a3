//! Nullable arrays: a value buffer with a parallel validity marker, and the
//! element-wise mappers that build one array from another.

use vstd::prelude::*;

verus! {

/// A fixed-length sequence of optional values.
///
/// The values live in one buffer and the presence markers in another of the
/// same length. What the value buffer holds at an absent position carries no
/// meaning: the view of the array, a sequence of options, leaves it out.
#[derive(Debug)]
pub struct NullableArray<V> {
    values: Vec<V>,
    validity: Vec<bool>,
}

impl<V> View for NullableArray<V> {
    type V = Seq<Option<V>>;

    closed spec fn view(&self) -> Seq<Option<V>> {
        Seq::new(
            self.validity@.len(),
            |i: int|
                if self.validity@[i] {
                    Some(self.values@[i])
                } else {
                    None
                },
        )
    }
}

impl<V> NullableArray<V> {
    #[verifier::type_invariant]
    spec fn buffers_agree(self) -> bool {
        self.values@.len() == self.validity@.len()
    }
}

impl<V: Copy> NullableArray<V> {
    /// The array without elements.
    pub fn new() -> (array: Self)
        ensures
            array@ == Seq::<Option<V>>::empty(),
    {
        let array = NullableArray { values: Vec::new(), validity: Vec::new() };
        assert(array@ =~= Seq::<Option<V>>::empty());
        array
    }

    /// Builds an array from its two buffers, or `None` where their lengths
    /// differ. The value at a position marked absent is dropped from the view.
    pub fn from_parts(values: Vec<V>, validity: Vec<bool>) -> (array: Option<Self>)
        ensures
            array is Some <==> values@.len() == validity@.len(),
            array is Some ==> array->0@ == Seq::new(
                validity@.len(),
                |i: int|
                    if validity@[i] {
                        Some(values@[i])
                    } else {
                        None
                    },
            ),
    {
        if values.len() == validity.len() {
            Some(NullableArray { values, validity })
        } else {
            None
        }
    }

    /// Builds an array from optional items; `fill` is stored in the value
    /// buffer wherever an item is absent.
    pub fn from_options(items: &Vec<Option<V>>, fill: V) -> (array: Self)
        ensures
            array@ == items@,
    {
        let mut values: Vec<V> = Vec::new();
        let mut validity: Vec<bool> = Vec::new();
        let mut i: usize = 0;
        while i < items.len()
            invariant
                i <= items@.len(),
                values@.len() == i,
                validity@.len() == i,
                forall|j: int|
                    0 <= j < i ==> #[trigger] items@[j] == if validity@[j] {
                        Some(values@[j])
                    } else {
                        None
                    },
            decreases items@.len() - i,
        {
            match items[i] {
                Some(value) => {
                    values.push(value);
                    validity.push(true);
                },
                None => {
                    values.push(fill);
                    validity.push(false);
                },
            }
            i += 1;
        }
        let array = NullableArray { values, validity };
        assert(array@ =~= items@);
        array
    }

    /// Number of elements, absent ones included.
    pub fn len(&self) -> (n: usize)
        ensures
            n == self@.len(),
    {
        self.validity.len()
    }

    /// Whether the element at `index` is present.
    pub fn is_valid(&self, index: usize) -> (present: bool)
        requires
            index < self@.len(),
        ensures
            present == (self@[index as int] is Some),
    {
        self.validity[index]
    }

    /// The element at `index`.
    pub fn get(&self, index: usize) -> (item: Option<V>)
        requires
            index < self@.len(),
        ensures
            item == self@[index as int],
    {
        proof {
            use_type_invariant(self);
        }
        if self.validity[index] {
            Some(self.values[index])
        } else {
            None
        }
    }

    /// The elements as a vector of options.
    pub fn to_options(&self) -> (items: Vec<Option<V>>)
        ensures
            items@ == self@,
    {
        let mut items: Vec<Option<V>> = Vec::new();
        let mut i: usize = 0;
        while i < self.len()
            invariant
                i <= self@.len(),
                items@ == self@.subrange(0, i as int),
            decreases self@.len() - i,
        {
            items.push(self.get(i));
            assert(self@.subrange(0, i + 1) =~= self@.subrange(0, i as int).push(self@[i as int]));
            i += 1;
        }
        assert(self@.subrange(0, self@.len() as int) =~= self@);
        items
    }
}

/// The elements of a 32-bit array as integers.
pub open spec fn integers32(items: Seq<Option<i32>>) -> Seq<Option<int>> {
    Seq::new(
        items.len(),
        |i: int|
            match items[i] {
                Some(v) => Some(v as int),
                None => None,
            },
    )
}

/// The elements of a 64-bit array as integers.
pub open spec fn integers64(items: Seq<Option<i64>>) -> Seq<Option<int>> {
    Seq::new(
        items.len(),
        |i: int|
            match items[i] {
                Some(v) => Some(v as int),
                None => None,
            },
    )
}

/// Applies `op` to every present element of `input`.
///
/// The result has the length and the presence markers of the input. `op` is
/// called once for each present element, in order, and never for an absent
/// one; `fill` takes the place of a value there.
pub fn unary<S: Copy, O: Copy, F: Fn(S) -> O>(input: &NullableArray<S>, op: F, fill: O) -> (output:
    NullableArray<O>)
    requires
        forall|i: int| 0 <= i < input@.len() && input@[i] is Some ==> op.requires((input@[i]->0,)),
    ensures
        output@.len() == input@.len(),
        forall|i: int|
            0 <= i < input@.len() ==> match #[trigger] input@[i] {
                Some(x) => output@[i] is Some && op.ensures((x,), output@[i]->0),
                None => output@[i] is None,
            },
{
    let mut values: Vec<O> = Vec::new();
    let mut validity: Vec<bool> = Vec::new();
    let mut i: usize = 0;
    while i < input.len()
        invariant
            i <= input@.len(),
            forall|j: int|
                0 <= j < input@.len() && input@[j] is Some ==> op.requires((input@[j]->0,)),
            values@.len() == i,
            validity@.len() == i,
            forall|j: int|
                0 <= j < i ==> match #[trigger] input@[j] {
                    Some(x) => validity@[j] && op.ensures((x,), values@[j]),
                    None => !validity@[j],
                },
        decreases input@.len() - i,
    {
        match input.get(i) {
            Some(x) => {
                values.push(op(x));
                validity.push(true);
            },
            None => {
                values.push(fill);
                validity.push(false);
            },
        }
        i += 1;
    }
    NullableArray { values, validity }
}

/// Applies a fallible `op` to the present elements of `input`, in order, and
/// stops at the first that it refuses.
///
/// `Some` holds an array with the length and presence markers of the input;
/// `None` means that `op` returned `None` for a present element. `op` is
/// never called for an absent element.
pub fn try_unary<S: Copy, O: Copy, F: Fn(S) -> Option<O>>(
    input: &NullableArray<S>,
    op: F,
    fill: O,
) -> (output: Option<NullableArray<O>>)
    requires
        forall|i: int| 0 <= i < input@.len() && input@[i] is Some ==> op.requires((input@[i]->0,)),
    ensures
        match output {
            Some(array) => {
                &&& array@.len() == input@.len()
                &&& forall|i: int|
                    0 <= i < input@.len() ==> match #[trigger] input@[i] {
                        Some(x) => array@[i] is Some && op.ensures((x,), array@[i]),
                        None => array@[i] is None,
                    }
            },
            None => exists|i: int|
                0 <= i < input@.len() && #[trigger] input@[i] is Some && op.ensures(
                    (input@[i]->0,),
                    None,
                ),
        },
{
    let mut values: Vec<O> = Vec::new();
    let mut validity: Vec<bool> = Vec::new();
    let mut i: usize = 0;
    while i < input.len()
        invariant
            i <= input@.len(),
            forall|j: int|
                0 <= j < input@.len() && input@[j] is Some ==> op.requires((input@[j]->0,)),
            values@.len() == i,
            validity@.len() == i,
            forall|j: int|
                0 <= j < i ==> match #[trigger] input@[j] {
                    Some(x) => validity@[j] && op.ensures((x,), Some(values@[j])),
                    None => !validity@[j],
                },
        decreases input@.len() - i,
    {
        match input.get(i) {
            Some(x) => {
                match op(x) {
                    Some(y) => {
                        values.push(y);
                        validity.push(true);
                    },
                    None => {
                        return None;
                    },
                }
            },
            None => {
                values.push(fill);
                validity.push(false);
            },
        }
        i += 1;
    }
    Some(NullableArray { values, validity })
}

} // verus!
