use temporal_kernels::metadata::{ColumnMember, Hdf5Metadata};
use temporal_kernels::object::ObjectArray;

#[derive(Clone, Debug, Default, PartialEq)]
struct Tag {
    id: u32,
    label: String,
}

fn tag(id: u32, label: &str) -> Tag {
    Tag { id, label: label.to_string() }
}

#[test]
fn object_array_clones_present_items() {
    let a = tag(1, "a");
    let b = tag(2, "b");
    let array = ObjectArray::arr_from_iter(vec![Some(&a), None, Some(&b)]);
    assert_eq!(array.len(), 3);
    assert!(array.is_nullable());
    assert_eq!(array.get(0), Some(&a));
    assert_eq!(array.get(1), None);
    assert_eq!(array.get(2), Some(&b));
}

#[test]
fn object_array_without_nulls_has_no_marker() {
    let a = tag(1, "a");
    let array = ObjectArray::arr_from_iter(vec![Some(&a), Some(&a)]);
    assert!(!array.is_nullable());
    assert_eq!(array.get(1), Some(&a));
    let empty: ObjectArray<Tag> = ObjectArray::arr_from_iter(vec![]);
    assert_eq!(empty.len(), 0);
    assert!(!empty.is_nullable());
}

#[test]
fn object_array_of_nulls_only() {
    let array: ObjectArray<Tag> = ObjectArray::arr_from_iter(vec![None, None]);
    assert_eq!(array.len(), 2);
    assert!(array.is_nullable());
    assert_eq!(array.get(0), None);
    assert_eq!(array.get(1), None);
}

#[test]
fn try_collect_returns_the_first_failure() {
    let a = tag(1, "a");
    let items: Vec<Result<Option<&Tag>, String>> = vec![
        Ok(Some(&a)),
        Err("first".to_string()),
        Ok(None),
        Err("second".to_string()),
    ];
    assert_eq!(ObjectArray::try_arr_from_iter(items).unwrap_err(), "first");
    let items: Vec<Result<Option<&Tag>, u8>> = vec![Err(7)];
    assert_eq!(ObjectArray::try_arr_from_iter(items).unwrap_err(), 7);
}

#[test]
fn try_collect_without_failure_collects_all() {
    let a = tag(1, "a");
    let b = tag(2, "b");
    let items: Vec<Result<Option<&Tag>, String>> = vec![Ok(None), Ok(Some(&a)), Ok(Some(&b))];
    let array = ObjectArray::try_arr_from_iter(items).unwrap();
    assert_eq!(array.len(), 3);
    assert!(array.is_nullable());
    assert_eq!(array.get(0), None);
    assert_eq!(array.get(1), Some(&a));
    assert_eq!(array.get(2), Some(&b));
    let items: Vec<Result<Option<&Tag>, String>> = vec![Ok(Some(&a))];
    let array = ObjectArray::try_arr_from_iter(items).unwrap();
    assert!(!array.is_nullable());
    let items: Vec<Result<Option<&Tag>, String>> = vec![];
    assert_eq!(ObjectArray::try_arr_from_iter(items).unwrap().len(), 0);
}

fn member(name: &str, dimensions: Vec<usize>, data_type: &str) -> ColumnMember<String> {
    ColumnMember { name: name.to_string(), dimensions, data_type: data_type.to_string() }
}

#[test]
fn vaex_metadata_lists_columns_in_order() {
    let members = vec![
        member("x", vec![100], "float64"),
        member("y", vec![100], "int32"),
        member("name", vec![100, 8], "string"),
    ];
    let metadata = Hdf5Metadata::from_members("data.hdf5", "/table/columns", members);
    assert_eq!(metadata.file_path, "data.hdf5");
    assert_eq!(metadata.n_rows, 100);
    assert_eq!(metadata.columns, vec!["x", "y", "name"]);
    assert_eq!(metadata.datatype_of(&"y".to_string()), Some(&"int32".to_string()));
    assert_eq!(metadata.datatype_of(&"name".to_string()), Some(&"string".to_string()));
    assert_eq!(metadata.datatype_of(&"z".to_string()), None);
    assert_eq!(metadata.path_of(&"x".to_string()), Some(&"/table/columns/x".to_string()));
    assert_eq!(metadata.path_of(&"name".to_string()), Some(&"/table/columns/name".to_string()));
    assert_eq!(metadata.path_of(&"".to_string()), None);
    assert_eq!(metadata.col_path.len(), 3);
    assert_eq!(metadata.col_datatypes.len(), 3);
}

#[test]
fn vaex_metadata_takes_rows_from_the_last_column() {
    let members = vec![member("a", vec![5], "i"), member("b", vec![7, 2], "i")];
    let metadata = Hdf5Metadata::from_members("f", "g", members);
    assert_eq!(metadata.n_rows, 7);
    let metadata: Hdf5Metadata<String> = Hdf5Metadata::from_members("f", "g", vec![]);
    assert_eq!(metadata.n_rows, 0);
    assert!(metadata.columns.is_empty());
    assert_eq!(metadata.path_of(&"a".to_string()), None);
}

#[test]
fn later_entry_counts_for_a_repeated_name() {
    let members = vec![member("a", vec![1], "first"), member("a", vec![2], "second")];
    let metadata = Hdf5Metadata::from_members("f", "", members);
    assert_eq!(metadata.columns, vec!["a", "a"]);
    assert_eq!(metadata.datatype_of(&"a".to_string()), Some(&"second".to_string()));
    assert_eq!(metadata.path_of(&"a".to_string()), Some(&"/a".to_string()));
}
