use design_patterns::iterator::BinaryTree;
use design_patterns::iterator::Matrix;
use design_patterns::iterator::NumberSequence;
use design_patterns::iterator::chain_iterators;
use design_patterns::iterator::filter_iterator;
use design_patterns::iterator::group_consecutive;

#[test]
fn test_number_sequence_iterators() {
    let mut seq = NumberSequence::new();
    seq.add(1);
    seq.add(2);
    seq.add(3);
    seq.add(4);

    let mut forward = Vec::new();
    let mut it = seq.iter();
    while let Some(v) = it.next() {
        forward.push(v);
    }
    assert_eq!(forward, vec![1, 2, 3, 4]);

    let mut reverse = Vec::new();
    let mut it = seq.iter_reverse();
    while let Some(v) = it.next() {
        reverse.push(v);
    }
    assert_eq!(reverse, vec![4, 3, 2, 1]);

    let mut even = Vec::new();
    let mut it = seq.iter_even();
    while let Some(v) = it.next() {
        even.push(v);
    }
    assert_eq!(even, vec![2, 4]);

    let mut range = Vec::new();
    let mut it = seq.iter_range(1, 3);
    while let Some(v) = it.next() {
        range.push(v);
    }
    assert_eq!(range, vec![2, 3]);
}

#[test]
fn test_binary_tree_iterators() {
    let mut tree = BinaryTree::new();
    tree.insert(5);
    tree.insert(3);
    tree.insert(7);
    tree.insert(1);
    tree.insert(9);

    let mut in_order = Vec::new();
    let mut it = tree.in_order_iter();
    while let Some(v) = it.next() {
        in_order.push(v);
    }
    assert_eq!(in_order, vec![1, 3, 5, 7, 9]);

    let mut pre_order = Vec::new();
    let mut it = tree.pre_order_iter();
    while let Some(v) = it.next() {
        pre_order.push(v);
    }
    assert_eq!(pre_order, vec![5, 3, 1, 7, 9]);
}

#[test]
fn test_matrix_iterators() {
    let mut matrix = Matrix::new(3, 3);
    for i in 0..3 {
        for j in 0..3 {
            matrix.set(i, j, (i * 3 + j) as i64).unwrap();
        }
    }

    let mut row = Vec::new();
    let mut row_iter = matrix.row_iter(1).unwrap();
    while let Some(v) = row_iter.next() {
        row.push(v);
    }
    assert_eq!(row, vec![3, 4, 5]);

    let mut col = Vec::new();
    let mut col_iter = matrix.col_iter(1).unwrap();
    while let Some(v) = col_iter.next() {
        col.push(v);
    }
    assert_eq!(col, vec![1, 4, 7]);
}

#[test]
fn test_filtering_iterator() {
    let numbers = vec![1, 2, 3, 4, 5, 6];
    let mut filtered = filter_iterator(numbers, |x| x % 2 == 0);
    let mut result = Vec::new();
    while let Some(v) = filtered.next() {
        result.push(v);
    }
    assert_eq!(result, vec![2, 4, 6]);
}

#[test]
fn test_grouping_iterator() {
    let data = vec![1, 1, 2, 2, 2, 3, 1, 1];
    let mut grouped = group_consecutive(data);
    let mut result = Vec::new();
    while let Some(g) = grouped.next() {
        result.push(g);
    }
    assert_eq!(result, vec![vec![1, 1], vec![2, 2, 2], vec![3], vec![1, 1]]);
}

#[test]
fn test_post_order_and_duplicates() {
    let mut tree = BinaryTree::new();
    tree.insert(5);
    tree.insert(3);
    tree.insert(7);
    tree.insert(3);

    let mut in_order = Vec::new();
    let mut it = tree.in_order_iter();
    while let Some(v) = it.next() {
        in_order.push(v);
    }
    assert_eq!(in_order, vec![3, 3, 5, 7]);

    let mut post_order = Vec::new();
    let mut it = tree.post_order_iter();
    while let Some(v) = it.next() {
        post_order.push(v);
    }
    assert_eq!(post_order, vec![3, 3, 7, 5]);
}

#[test]
fn test_matrix_edges() {
    let mut matrix = Matrix::new(2, 3);
    assert!(matrix.set(2, 0, 5).is_err());
    assert_eq!(matrix.set(5, 5, 1).unwrap_err(), "Index out of bounds");
    assert!(matrix.row_iter(2).is_none());
    assert!(matrix.col_iter(3).is_none());
    matrix.set(0, 0, 10).unwrap();
    matrix.set(1, 1, 20).unwrap();
    assert_eq!(matrix.get(0, 0), Some(10));
    assert_eq!(matrix.get(2, 0), None);
    let mut diag = Vec::new();
    let mut it = matrix.diagonal_iter();
    while let Some(v) = it.next() {
        diag.push(v);
    }
    assert_eq!(diag, vec![10, 20]);
    let mut triples = Vec::new();
    let mut it = matrix.all_elements_iter();
    while let Some(t) = it.next() {
        triples.push(t);
    }
    assert_eq!(triples.len(), 6);
    assert_eq!(triples[0], (0, 0, 10));
    assert_eq!(triples[4], (1, 1, 20));
}

#[test]
fn test_chained_iterators() {
    let mut a = NumberSequence::new();
    a.add(1);
    a.add(2);
    let mut b = NumberSequence::new();
    b.add(3);
    let mut chained = chain_iterators(a.iter(), b.iter());
    let mut out = Vec::new();
    while let Some(v) = chained.next() {
        out.push(v);
    }
    assert_eq!(out, vec![1, 2, 3]);
}

#[test]
fn test_even_iterator_with_negatives() {
    let mut seq = NumberSequence::new();
    seq.add(-3);
    seq.add(-2);
    seq.add(0);
    seq.add(7);
    let mut even = Vec::new();
    let mut it = seq.iter_even();
    while let Some(v) = it.next() {
        even.push(v);
    }
    assert_eq!(even, vec![-2, 0]);
}
