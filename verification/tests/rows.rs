use ggrs_plot_operator::rows::RowIndexMap;

#[test]
fn page_rows_are_kept_and_renumbered() {
    let map = RowIndexMap::new(vec![12, 13, 14]);
    assert_eq!(map.get(12), Some(0));
    assert_eq!(map.get(14), Some(2));
    assert_eq!(map.get(3), None);
    let ri = vec![Some(3), Some(13), None, Some(12), Some(14), Some(13)];
    let rows = map.filter_rows(&ri);
    assert_eq!(rows.positions, vec![1, 3, 4, 5]);
    assert_eq!(rows.row_indices, vec![1, 0, 2, 1]);
}

#[test]
fn an_index_listed_twice_counts_at_its_last_position() {
    let map = RowIndexMap::new(vec![5, 6, 5]);
    assert_eq!(map.get(5), Some(2));
    assert_eq!(map.get(6), Some(1));
}

#[test]
fn empty_page_keeps_nothing() {
    let map = RowIndexMap::new(vec![]);
    let rows = map.filter_rows(&vec![Some(0), None]);
    assert!(rows.positions.is_empty());
    assert!(rows.row_indices.is_empty());
}

use ggrs_plot_operator::rows::{rows_in_facet, FacetKey};

#[test]
fn rows_of_a_facet_cell() {
    let keys = vec![
        FacetKey { ci: Some(0), ri: Some(0) },
        FacetKey { ci: Some(1), ri: Some(0) },
        FacetKey { ci: None, ri: Some(1) },
        FacetKey { ci: Some(1), ri: Some(1) },
    ];
    assert_eq!(rows_in_facet(&keys, Some(1), None), vec![1, 3]);
    assert_eq!(rows_in_facet(&keys, None, Some(1)), vec![2, 3]);
    assert_eq!(rows_in_facet(&keys, Some(1), Some(0)), vec![1]);
    assert_eq!(rows_in_facet(&keys, None, None), vec![0, 1, 2, 3]);
    assert!(rows_in_facet(&keys, Some(5), None).is_empty());
}
