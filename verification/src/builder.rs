//! Growable builders for string and binary columns: append values and nulls,
//! then finish into a chunked array.

use vstd::prelude::*;

verus! {

/// What a column's values are.
#[derive(Clone, Copy, Debug, PartialEq, Eq, Structural)]
pub enum DataType {
    String,
    Binary,
}

/// A column's name and the type of its values.
#[derive(Clone, Debug)]
pub struct Field {
    pub name: String,
    pub dtype: DataType,
}

/// An owned value that a view column can hold.
pub trait ViewType: Sized {
    /// The column type that holds values of this type.
    spec fn column_type() -> DataType;

    /// The column type that holds values of this type.
    fn data_type() -> (dtype: DataType)
        ensures
            dtype == Self::column_type(),
    ;
}

impl ViewType for String {
    open spec fn column_type() -> DataType {
        DataType::String
    }

    fn data_type() -> (dtype: DataType) {
        DataType::String
    }
}

impl ViewType for Vec<u8> {
    open spec fn column_type() -> DataType {
        DataType::Binary
    }

    fn data_type() -> (dtype: DataType) {
        DataType::Binary
    }
}

/// How many elements of a sequence are absent.
pub open spec fn count_absent<T>(items: Seq<Option<T>>) -> nat
    decreases items.len(),
{
    if items.len() == 0 {
        0
    } else {
        count_absent(items.drop_last()) + if items.last() is None {
            1nat
        } else {
            0nat
        }
    }
}

/// A finished column: a field and its elements in one chunk, with the
/// element count and the count of absent elements computed from the chunk.
#[derive(Debug)]
pub struct ChunkedArray<T> {
    field: Field,
    chunk: Vec<Option<T>>,
    length: usize,
    null_count: usize,
}

pub type StringChunked = ChunkedArray<String>;

pub type BinaryChunked = ChunkedArray<Vec<u8>>;

impl<T> View for ChunkedArray<T> {
    type V = Seq<Option<T>>;

    closed spec fn view(&self) -> Seq<Option<T>> {
        self.chunk@
    }
}

impl<T> ChunkedArray<T> {
    #[verifier::type_invariant]
    spec fn counts_agree(self) -> bool {
        self.length == self.chunk@.len() && self.null_count == count_absent(self.chunk@)
    }

    /// The field that the column was built for.
    pub closed spec fn spec_field(&self) -> Field {
        self.field
    }

    /// Wraps one chunk under a field and counts its elements and its nulls.
    pub fn new_with_compute_len(field: Field, chunk: Vec<Option<T>>) -> (array: Self)
        ensures
            array@ == chunk@,
            array.spec_field() == field,
    {
        let length: usize = chunk.len();
        let mut null_count: usize = 0;
        let mut i: usize = 0;
        while i < length
            invariant
                length == chunk@.len(),
                i <= length,
                null_count == count_absent(chunk@.subrange(0, i as int)),
                null_count <= i,
            decreases length - i,
        {
            assert(chunk@.subrange(0, i + 1).drop_last() =~= chunk@.subrange(0, i as int));
            if chunk[i].is_none() {
                null_count += 1;
            }
            i += 1;
        }
        assert(chunk@.subrange(0, length as int) =~= chunk@);
        ChunkedArray { field, chunk, length, null_count }
    }

    /// Number of elements, nulls included.
    pub fn len(&self) -> (n: usize)
        ensures
            n == self@.len(),
    {
        proof {
            use_type_invariant(self);
        }
        self.length
    }

    /// Number of null elements.
    pub fn null_count(&self) -> (n: usize)
        ensures
            n == count_absent(self@),
    {
        proof {
            use_type_invariant(self);
        }
        self.null_count
    }

    /// The column's name.
    pub fn name(&self) -> (name: &String)
        ensures
            *name == self.spec_field().name,
    {
        &self.field.name
    }

    /// The type of the column's values.
    pub fn dtype(&self) -> (dtype: DataType)
        ensures
            dtype == self.spec_field().dtype,
    {
        self.field.dtype
    }

    /// The element at `index`; `None` for a null.
    pub fn get(&self, index: usize) -> (item: Option<&T>)
        requires
            index < self@.len(),
        ensures
            match self@[index as int] {
                Some(value) => item == Some(&value),
                None => item is None,
            },
    {
        self.chunk[index].as_ref()
    }
}

/// Collects the elements of a string or binary column one by one.
#[derive(Clone, Debug)]
pub struct BinViewChunkedBuilder<T: ViewType> {
    chunk_builder: Vec<Option<T>>,
    field: Field,
}

pub type StringChunkedBuilder = BinViewChunkedBuilder<String>;

pub type BinaryChunkedBuilder = BinViewChunkedBuilder<Vec<u8>>;

impl<T: ViewType> View for BinViewChunkedBuilder<T> {
    type V = Seq<Option<T>>;

    closed spec fn view(&self) -> Seq<Option<T>> {
        self.chunk_builder@
    }
}

impl<T: ViewType> BinViewChunkedBuilder<T> {
    /// The field that the finished column will carry.
    pub closed spec fn spec_field(&self) -> Field {
        self.field
    }

    /// Create a new builder for a column called `name`, with room for
    /// `capacity` elements.
    pub fn new(name: String, capacity: usize) -> (builder: Self)
        ensures
            builder@ == Seq::<Option<T>>::empty(),
            builder.spec_field() == (Field { name, dtype: T::column_type() }),
    {
        BinViewChunkedBuilder {
            chunk_builder: Vec::with_capacity(capacity),
            field: Field { name, dtype: T::data_type() },
        }
    }

    /// Appends a value into the builder.
    pub fn append_value(&mut self, v: T)
        ensures
            final(self)@ == old(self)@.push(Some(v)),
            final(self).spec_field() == old(self).spec_field(),
    {
        self.chunk_builder.push(Some(v));
    }

    /// Appends a null slot into the builder.
    pub fn append_null(&mut self)
        ensures
            final(self)@ == old(self)@.push(None),
            final(self).spec_field() == old(self).spec_field(),
    {
        self.chunk_builder.push(None);
    }

    /// Appends a value where there is one, and a null slot otherwise.
    pub fn append_option(&mut self, opt: Option<T>)
        ensures
            final(self)@ == old(self)@.push(opt),
            final(self).spec_field() == old(self).spec_field(),
    {
        self.chunk_builder.push(opt);
    }
}

impl StringChunkedBuilder {
    /// Closes the builder into a string column that holds what was appended,
    /// in order.
    pub fn finish(self) -> (column: StringChunked)
        ensures
            column@ == self@,
            column.spec_field() == self.spec_field(),
    {
        ChunkedArray::new_with_compute_len(self.field, self.chunk_builder)
    }
}

impl BinaryChunkedBuilder {
    /// Closes the builder into a binary column that holds what was appended,
    /// in order.
    pub fn finish(self) -> (column: BinaryChunked)
        ensures
            column@ == self@,
            column.spec_field() == self.spec_field(),
    {
        ChunkedArray::new_with_compute_len(self.field, self.chunk_builder)
    }
}

} // verus!
