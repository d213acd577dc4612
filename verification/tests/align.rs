use polars_candle::candle_ext::align::{dimension, partition, realign, OutputColumn};
use polars_candle::candle_ext::error::EncodeError;

fn column(entries: &[Option<&'static str>]) -> Vec<Option<&'static str>> {
    entries.to_vec()
}

fn expect_column<T>(r: Result<OutputColumn<T>, EncodeError>) -> OutputColumn<T> {
    match r {
        Ok(out) => out,
        Err(e) => panic!("alignment failed: {:?}", e),
    }
}

fn expect_error<T>(r: Result<OutputColumn<T>, EncodeError>) -> EncodeError {
    match r {
        Ok(_) => panic!("alignment succeeded"),
        Err(e) => e,
    }
}

#[test]
fn partition_keeps_present_entries_in_order() {
    let input = column(&[Some("hello"), None, Some("world")]);
    let index = partition(&input);
    assert_eq!(index.positions(), &vec![0usize, 2]);
    assert_eq!(index.batch(), vec!["hello", "world"]);
    assert_eq!(index.len(), 2);
    assert_eq!(index.column_len(), 3);
    assert!(!index.is_empty());
}

#[test]
fn partition_of_empty_column() {
    let input: Vec<Option<&str>> = Vec::new();
    let index = partition(&input);
    assert!(index.is_empty());
    assert_eq!(index.len(), 0);
    assert_eq!(index.column_len(), 0);
    assert!(index.positions().is_empty());
    assert!(index.batch().is_empty());
}

#[test]
fn partition_of_all_absent_column() {
    let input = column(&[None, None, None]);
    let index = partition(&input);
    assert!(index.is_empty());
    assert_eq!(index.column_len(), 3);
    assert!(index.batch().is_empty());
}

#[test]
fn partition_of_all_present_column() {
    let input = column(&[Some("a"), Some("b"), Some("c")]);
    let index = partition(&input);
    assert_eq!(index.positions(), &vec![0usize, 1, 2]);
    assert_eq!(index.batch(), vec!["a", "b", "c"]);
}

#[test]
fn partition_does_not_change_the_column() {
    let input = column(&[None, Some("x"), None]);
    let before = input.clone();
    let _ = partition(&input);
    assert_eq!(input, before);
}

#[test]
fn partition_keeps_equal_texts_apart() {
    let input = column(&[Some("same"), None, Some("same")]);
    let index = partition(&input);
    assert_eq!(index.positions(), &vec![0usize, 2]);
    assert_eq!(index.batch(), vec!["same", "same"]);
}

#[test]
fn realign_hello_null_world() {
    let input = column(&[Some("hello"), None, Some("world")]);
    let index = partition(&input);
    let rows = vec![vec![1.0f32, 2.0], vec![3.0, 4.0]];
    let out = expect_column(realign(&index, rows));
    assert_eq!(out.values, vec![Some(vec![1.0f32, 2.0]), None, Some(vec![3.0, 4.0])]);
    assert_eq!(out.width, Some(2));
}

#[test]
fn realign_all_absent() {
    let input = column(&[None, None]);
    let index = partition(&input);
    let rows: Vec<Vec<f32>> = Vec::new();
    let out = expect_column(realign(&index, rows));
    assert_eq!(out.values, vec![None, None]);
    assert_eq!(out.width, None);
}

#[test]
fn realign_empty_column() {
    let input: Vec<Option<&str>> = Vec::new();
    let index = partition(&input);
    let rows: Vec<Vec<f32>> = Vec::new();
    let out = expect_column(realign(&index, rows));
    assert!(out.values.is_empty());
    assert_eq!(out.width, None);
}

#[test]
fn realign_pairs_by_rank_not_by_value() {
    let input = column(&[None, Some("b"), Some("a"), None, Some("b")]);
    let index = partition(&input);
    let rows = vec![vec![10u32], vec![20], vec![30]];
    let out = expect_column(realign(&index, rows));
    assert_eq!(out.values, vec![None, Some(vec![10u32]), Some(vec![20]), None, Some(vec![30])]);
    assert_eq!(out.width, Some(1));
}

#[test]
fn realign_position_preservation() {
    let input = column(&[None, Some("a"), None, None, Some("b"), Some("c"), None]);
    let index = partition(&input);
    let rows = vec![vec![1i64, 1], vec![2, 2], vec![3, 3]];
    let out = expect_column(realign(&index, rows));
    assert_eq!(out.values.len(), input.len());
    for i in 0..input.len() {
        assert_eq!(out.values[i].is_none(), input[i].is_none());
    }
}

#[test]
fn realign_keeps_rows_as_they_are() {
    let input = column(&[Some("a"), None, Some("b")]);
    let index = partition(&input);
    let rows = vec![vec![0.1f64, -0.25, 1e300], vec![f64::MIN_POSITIVE, 0.0, -0.0]];
    let expected = rows.clone();
    let out = expect_column(realign(&index, rows));
    let positions = index.positions().clone();
    for k in 0..positions.len() {
        let got = out.values[positions[k]].as_ref().unwrap();
        assert_eq!(got.len(), expected[k].len());
        for c in 0..got.len() {
            assert_eq!(got[c].to_bits(), expected[k][c].to_bits());
        }
    }
}

#[test]
fn realign_ignores_where_absent_entries_are() {
    let dense = column(&[Some("a"), Some("b")]);
    let sparse = column(&[None, Some("a"), None, None, Some("b"), None]);
    let dense_index = partition(&dense);
    let sparse_index = partition(&sparse);
    assert_eq!(dense_index.batch(), sparse_index.batch());
    let rows = vec![vec![1.5f32, 2.5], vec![3.5, 4.5]];
    let dense_out = expect_column(realign(&dense_index, rows.clone()));
    let sparse_out = expect_column(realign(&sparse_index, rows));
    assert_eq!(dense_out.values[0], sparse_out.values[1]);
    assert_eq!(dense_out.values[1], sparse_out.values[4]);
    assert_eq!(sparse_out.values[0], None);
    assert_eq!(sparse_out.values[2], None);
    assert_eq!(sparse_out.values[3], None);
    assert_eq!(sparse_out.values[5], None);
}

#[test]
fn realign_width_is_the_rows_width() {
    let input = column(&[Some("a"), None]);
    let index = partition(&input);
    let out = expect_column(realign(&index, vec![vec![0u8; 384]]));
    assert_eq!(out.width, Some(384));
    assert_eq!(out.values[0].as_ref().unwrap().len(), 384);
    assert_eq!(out.values[1], None);
}

#[test]
fn realign_rows_of_width_zero() {
    let input = column(&[Some("a"), Some("b")]);
    let index = partition(&input);
    let rows: Vec<Vec<f32>> = vec![vec![], vec![]];
    let out = expect_column(realign(&index, rows));
    assert_eq!(out.values, vec![Some(vec![]), Some(vec![])]);
    assert_eq!(out.width, Some(0));
}

#[test]
fn realign_too_many_rows_is_a_mismatch() {
    let input = column(&[Some("hello"), None, Some("world")]);
    let index = partition(&input);
    let rows = vec![vec![1.0f32, 2.0], vec![3.0, 4.0], vec![5.0, 6.0]];
    assert_eq!(expect_error(realign(&index, rows)), EncodeError::AlignmentMismatch);
}

#[test]
fn realign_too_few_rows_is_a_mismatch() {
    let input = column(&[Some("hello"), None, Some("world")]);
    let index = partition(&input);
    let rows = vec![vec![1.0f32, 2.0]];
    assert_eq!(expect_error(realign(&index, rows)), EncodeError::AlignmentMismatch);
}

#[test]
fn realign_rows_for_nothing_is_a_mismatch() {
    let input = column(&[None, None]);
    let index = partition(&input);
    let rows = vec![vec![1.0f32, 2.0]];
    assert_eq!(expect_error(realign(&index, rows)), EncodeError::AlignmentMismatch);
}

#[test]
fn realign_ragged_rows_are_a_shape_error() {
    let input = column(&[Some("a"), Some("b"), Some("c")]);
    let index = partition(&input);
    let rows = vec![vec![1.0f32, 2.0], vec![3.0, 4.0], vec![5.0]];
    assert_eq!(expect_error(realign(&index, rows)), EncodeError::ShapeError);
}

#[test]
fn realign_shape_comes_before_mismatch() {
    let input = column(&[Some("a")]);
    let index = partition(&input);
    let rows = vec![vec![1.0f32, 2.0], vec![3.0]];
    assert_eq!(expect_error(realign(&index, rows)), EncodeError::ShapeError);
    let input = column(&[None, None]);
    let index = partition(&input);
    let rows = vec![vec![1.0f32], vec![]];
    assert_eq!(expect_error(realign(&index, rows)), EncodeError::ShapeError);
}

#[test]
fn dimension_of_a_matrix() {
    assert_eq!(dimension(&vec![vec![1u8, 2, 3], vec![4, 5, 6]]), Ok(Some(3)));
    assert_eq!(dimension(&vec![vec![7u8]]), Ok(Some(1)));
}

#[test]
fn dimension_of_no_rows_is_unresolved() {
    let rows: Vec<Vec<u8>> = Vec::new();
    assert_eq!(dimension(&rows), Ok(None));
}

#[test]
fn dimension_of_ragged_rows() {
    assert_eq!(dimension(&vec![vec![1u8, 2], vec![3]]), Err(EncodeError::ShapeError));
    assert_eq!(dimension(&vec![vec![], vec![3u8]]), Err(EncodeError::ShapeError));
}

#[test]
fn errors_fall_into_two_families() {
    assert!(EncodeError::ShapeError.is_internal());
    assert!(EncodeError::AlignmentMismatch.is_internal());
    assert!(!EncodeError::ModelFailure("out of memory".to_string()).is_internal());
}

#[test]
fn error_messages() {
    assert_eq!(
        EncodeError::ModelFailure("Inference error: boom".to_string()).message(),
        "Encoding failed with error:\nInference error: boom"
    );
    assert_eq!(
        EncodeError::ShapeError.message(),
        "Getting embeddings dimensions failed: the model's answer is not a matrix"
    );
    assert_eq!(
        EncodeError::AlignmentMismatch.message(),
        "Aligning embeddings failed: the model's answer has another number of rows than texts were sent"
    );
}
