//! Metadata of a columnar HDF5 file in the vaex layout.

use vstd::prelude::*;
use vstd::string::*;

verus! {

/// One member of the columns group, as read from the file: its name, the
/// shape of its data and the type of its data.
#[derive(Debug)]
pub struct ColumnMember<D> {
    pub name: String,
    pub dimensions: Vec<usize>,
    pub data_type: D,
}

/// What a vaex file says of its table: the columns in file order, the row
/// count, and for every column its data type and its path within the file.
/// The two tables are keyed by column name and kept in file order; where a
/// name occurs twice, the later entry is the one that counts.
#[derive(Debug)]
pub struct Hdf5Metadata<D> {
    pub file_path: String,
    pub n_rows: usize,
    pub columns: Vec<String>,
    pub col_datatypes: Vec<(String, D)>,
    pub col_path: Vec<(String, String)>,
}

/// The path of a member within the file: the group's name, a slash and the
/// member's name.
pub open spec fn member_path(group: Seq<char>, name: Seq<char>) -> Seq<char> {
    group + "/"@ + name
}

/// The index of the entry that counts for a name: the last one that
/// carries it.
pub open spec fn is_entry_for<V>(entries: Seq<(String, V)>, name: Seq<char>, index: int) -> bool {
    &&& 0 <= index < entries.len()
    &&& entries[index].0@ == name
    &&& forall|later: int| index < later < entries.len() ==> entries[later].0@ != name
}

/// Looks a name up in a table kept in file order.
fn entry_for<'a, V>(entries: &'a Vec<(String, V)>, name: &String) -> (value: Option<&'a V>)
    ensures
        match value {
            Some(found) => exists|index: int|
                is_entry_for(entries@, name@, index) && *found == entries@[index].1,
            None => forall|index: int| 0 <= index < entries@.len() ==> entries@[index].0@ != name@,
        },
{
    let mut i: usize = entries.len();
    while i > 0
        invariant
            i <= entries@.len(),
            forall|later: int| i <= later < entries@.len() ==> entries@[later].0@ != name@,
        decreases i,
    {
        i -= 1;
        if entries[i].0 == *name {
            assert(is_entry_for(entries@, name@, i as int));
            return Some(&entries[i].1);
        }
    }
    None
}

impl<D> Hdf5Metadata<D> {
    /// Whether the metadata is what the members of the columns group of a
    /// file come to: one column for each member, in order, with the
    /// member's data type and its path under the group; and as the row count
    /// the first dimension of the last member, or zero without members.
    pub open spec fn describes(
        self,
        filename: Seq<char>,
        group: Seq<char>,
        members: Seq<ColumnMember<D>>,
    ) -> bool {
        &&& self.file_path@ == filename
        &&& self.n_rows == if members.len() == 0 {
            0
        } else {
            members.last().dimensions@[0]
        }
        &&& self.columns@.len() == members.len()
        &&& self.col_datatypes@.len() == members.len()
        &&& self.col_path@.len() == members.len()
        &&& forall|i: int|
            0 <= i < members.len() ==> {
                &&& self.columns@[i]@ == (#[trigger] members[i]).name@
                &&& self.col_datatypes@[i].0@ == members[i].name@
                &&& self.col_datatypes@[i].1 == members[i].data_type
                &&& self.col_path@[i].0@ == members[i].name@
                &&& self.col_path@[i].1@ == member_path(group, members[i].name@)
            }
    }

    /// Assembles the metadata of a file from the members of its columns
    /// group. Every member has at least one dimension.
    pub fn from_members(filename: &str, group: &str, members: Vec<ColumnMember<D>>) -> (metadata:
        Self)
        requires
            forall|i: int| 0 <= i < members@.len() ==> members@[i].dimensions@.len() > 0,
        ensures
            metadata.describes(filename@, group@, members@),
    {
        let mut n_rows: usize = 0;
        let mut columns: Vec<String> = Vec::new();
        let mut col_datatypes: Vec<(String, D)> = Vec::new();
        let mut col_path: Vec<(String, String)> = Vec::new();
        for member in it: members
            invariant
                forall|i: int| 0 <= i < it.seq().len() ==> it.seq()[i].dimensions@.len() > 0,
                columns@.len() == it.index(),
                col_datatypes@.len() == it.index(),
                col_path@.len() == it.index(),
                n_rows == if it.index() == 0 {
                    0
                } else {
                    it.seq()[it.index() - 1].dimensions@[0]
                },
                forall|i: int|
                    0 <= i < it.index() ==> {
                        &&& columns@[i]@ == (#[trigger] it.seq()[i]).name@
                        &&& col_datatypes@[i].0@ == it.seq()[i].name@
                        &&& col_datatypes@[i].1 == it.seq()[i].data_type
                        &&& col_path@[i].0@ == it.seq()[i].name@
                        &&& col_path@[i].1@ == member_path(group@, it.seq()[i].name@)
                    },
        {
            let ColumnMember { name, dimensions, data_type } = member;
            n_rows = dimensions[0];
            let path: String = group.to_owned().concat("/").concat(name.as_str());
            columns.push(name.clone());
            col_path.push((name.clone(), path));
            col_datatypes.push((name, data_type));
        }
        Hdf5Metadata { file_path: filename.to_owned(), n_rows, columns, col_datatypes, col_path }
    }

    /// The data type of a column; `None` where the file has no column of
    /// that name.
    pub fn datatype_of(&self, column: &String) -> (data_type: Option<&D>)
        ensures
            match data_type {
                Some(found) => exists|index: int|
                    is_entry_for(self.col_datatypes@, column@, index) && *found
                        == self.col_datatypes@[index].1,
                None => forall|index: int|
                    0 <= index < self.col_datatypes@.len() ==> self.col_datatypes@[index].0@
                        != column@,
            },
    {
        entry_for(&self.col_datatypes, column)
    }

    /// The path of a column within the file; `None` where the file has no
    /// column of that name.
    pub fn path_of(&self, column: &String) -> (path: Option<&String>)
        ensures
            match path {
                Some(found) => exists|index: int|
                    is_entry_for(self.col_path@, column@, index) && *found
                        == self.col_path@[index].1,
                None => forall|index: int|
                    0 <= index < self.col_path@.len() ==> self.col_path@[index].0@ != column@,
            },
    {
        entry_for(&self.col_path, column)
    }
}

} // verus!
