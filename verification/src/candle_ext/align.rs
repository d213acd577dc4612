//! Splitting a column into its present entries and putting rows back in place.

use crate::candle_ext::error::EncodeError;
use vstd::prelude::*;

verus! {

/// The positions of the present entries of `column`, ascending.
pub open spec fn present_positions<S>(column: Seq<Option<S>>) -> Seq<int>
    decreases column.len(),
{
    if column.len() == 0 {
        Seq::empty()
    } else if column.last() is Some {
        present_positions(column.drop_last()).push(column.len() - 1)
    } else {
        present_positions(column.drop_last())
    }
}

/// The present entries of `column`, in column order.
pub open spec fn present_values<S>(column: Seq<Option<S>>) -> Seq<S>
    decreases column.len(),
{
    if column.len() == 0 {
        Seq::empty()
    } else {
        match column.last() {
            Some(value) => present_values(column.drop_last()).push(value),
            None => present_values(column.drop_last()),
        }
    }
}

/// What a `PresenceIndex` stands for.
pub struct PresenceView<S> {
    /// Where the present entries were, ascending.
    pub positions: Seq<int>,
    /// The present entries, in the same order.
    pub values: Seq<S>,
    /// The length of the column they were taken from.
    pub column_len: nat,
}

/// The present entries of a column together with where they were.
pub struct PresenceIndex<S> {
    positions: Vec<usize>,
    values: Vec<S>,
    column_len: usize,
}

impl<S> View for PresenceIndex<S> {
    type V = PresenceView<S>;

    closed spec fn view(&self) -> PresenceView<S> {
        PresenceView {
            positions: self.positions@.map_values(|p: usize| p as int),
            values: self.values@,
            column_len: self.column_len as nat,
        }
    }
}

impl<S> PresenceView<S> {
    /// Whether this is what `column` holds: its present entries, and where
    /// they are.
    pub open spec fn indexes(self, column: Seq<Option<S>>) -> bool {
        &&& self.positions == present_positions(column)
        &&& self.values == present_values(column)
        &&& self.column_len == column.len()
    }
}

impl<S> PresenceIndex<S> {
    #[verifier::type_invariant]
    spec fn well_formed(self) -> bool {
        &&& self.positions@.len() == self.values@.len()
        &&& forall|k: int| 0 <= k < self.positions@.len() ==> self.positions@[k] < self.column_len
        &&& forall|j: int, k: int|
            0 <= j < k < self.positions@.len() ==> self.positions@[j] < self.positions@[k]
    }

    /// The number of present entries.
    pub fn len(&self) -> (n: usize)
        ensures
            n == self@.positions.len(),
            n == self@.values.len(),
            n <= self@.column_len,
    {
        proof {
            use_type_invariant(self);
            lemma_ascending_fits(self.positions@, self.column_len);
        }
        self.positions.len()
    }

    /// Whether the column had no present entry.
    pub fn is_empty(&self) -> (b: bool)
        ensures
            b == (self@.positions.len() == 0),
            b == (self@.values.len() == 0),
    {
        proof {
            use_type_invariant(self);
        }
        self.positions.len() == 0
    }

    /// The length of the column that was indexed.
    pub fn column_len(&self) -> (n: usize)
        ensures
            n == self@.column_len,
    {
        self.column_len
    }

    /// The positions of the present entries, ascending.
    pub fn positions(&self) -> (positions: &Vec<usize>)
        ensures
            positions@.map_values(|p: usize| p as int) == self@.positions,
    {
        &self.positions
    }

    /// The present entries in column order: the batch that is to be encoded.
    pub fn batch(&self) -> (batch: Vec<S>) where S: Copy
        ensures
            batch@ == self@.values,
    {
        let mut batch: Vec<S> = Vec::new();
        let mut k: usize = 0;
        while k < self.values.len()
            invariant
                0 <= k <= self.values@.len(),
                batch@ == self.values@.take(k as int),
            decreases self.values@.len() - k,
        {
            batch.push(self.values[k]);
            k += 1;
        }
        proof {
            assert(self.values@.take(k as int) == self.values@);
        }
        batch
    }
}

/// Strictly ascending numbers below `bound` are at most `bound` many.
proof fn lemma_ascending_fits(positions: Seq<usize>, bound: usize)
    requires
        forall|k: int| 0 <= k < positions.len() ==> positions[k] < bound,
        forall|j: int, k: int| 0 <= j < k < positions.len() ==> positions[j] < positions[k],
    ensures
        positions.len() <= bound,
    decreases positions.len(),
{
    if positions.len() > 0 {
        let rest = positions.drop_last();
        let last = positions.last();
        assert forall|k: int| 0 <= k < rest.len() implies rest[k] < last by {
            assert(rest[k] == positions[k]);
        }
        lemma_ascending_fits(rest, last);
    }
}

/// Walks `column` once and collects its present entries with their positions.
pub fn partition<S: Copy>(column: &Vec<Option<S>>) -> (index: PresenceIndex<S>)
    ensures
        index@.positions == present_positions(column@),
        index@.values == present_values(column@),
        index@.column_len == column@.len(),
{
    let mut positions: Vec<usize> = Vec::new();
    let mut values: Vec<S> = Vec::new();
    let mut i: usize = 0;
    while i < column.len()
        invariant
            0 <= i <= column@.len(),
            positions@.map_values(|p: usize| p as int) == present_positions(column@.take(i as int)),
            values@ == present_values(column@.take(i as int)),
            positions@.len() == values@.len(),
            forall|k: int| 0 <= k < positions@.len() ==> positions@[k] < i,
            forall|j: int, k: int| 0 <= j < k < positions@.len() ==> positions@[j] < positions@[k],
        decreases column@.len() - i,
    {
        proof {
            assert(column@.take(i + 1).drop_last() == column@.take(i as int));
            assert(column@.take(i + 1).last() == column@[i as int]);
        }
        match column[i] {
            Some(value) => {
                positions.push(i);
                values.push(value);
            },
            None => {},
        }
        i += 1;
    }
    proof {
        assert(column@.take(i as int) == column@);
    }
    PresenceIndex { positions, values, column_len: column.len() }
}

/// The output of an alignment: at each position of `positions` the row with
/// the same rank, and nothing anywhere else.
pub open spec fn aligned<R>(column_len: nat, positions: Seq<int>, rows: Seq<R>) -> Seq<Option<R>> {
    Seq::new(
        column_len,
        |i: int|
            if positions.contains(i) {
                Some(rows[positions.index_of(i)])
            } else {
                None
            },
    )
}

/// Whether all rows have one width.
pub open spec fn is_rectangular<T>(rows: Seq<Vec<T>>) -> bool {
    forall|i: int, j: int|
        0 <= i < rows.len() && 0 <= j < rows.len() ==> rows[i]@.len() == rows[j]@.len()
}

/// The width of a matrix given by its rows. With no row there is no width to
/// read: it stays unresolved.
pub open spec fn matrix_width<T>(rows: Seq<Vec<T>>) -> Option<usize> {
    if rows.len() == 0 {
        None
    } else {
        Some(rows[0].len())
    }
}

/// A column of optional vectors of one width.
pub struct OutputColumn<T> {
    /// One slot for each entry of the input column.
    pub values: Vec<Option<Vec<T>>>,
    /// The width of every present vector. `None` where no vector is present:
    /// the width is learned from the model's answer, and the model is not
    /// asked when there is nothing to encode.
    pub width: Option<usize>,
}

impl<T> OutputColumn<T> {
    /// Every present vector has the column's width.
    pub open spec fn is_fixed_width(self) -> bool {
        forall|i: int|
            0 <= i < self.values@.len() ==> (#[trigger] self.values@[i] matches Some(v)
                ==> self.width == Some(v.len()))
    }
}

/// Reads the width of a matrix given by its rows, and refuses rows of
/// different widths.
pub fn dimension<T>(rows: &Vec<Vec<T>>) -> (r: Result<Option<usize>, EncodeError>)
    ensures
        match r {
            Ok(width) => is_rectangular(rows@) && width == matrix_width(rows@),
            Err(e) => e == EncodeError::ShapeError && !is_rectangular(rows@),
        },
{
    let mut width: Option<usize> = None;
    let mut i: usize = 0;
    while i < rows.len()
        invariant
            0 <= i <= rows@.len(),
            width == matrix_width(rows@.take(i as int)),
            forall|a: int| 0 <= a < i ==> #[trigger] rows@[a]@.len() == rows@[0]@.len(),
        decreases rows@.len() - i,
    {
        match width {
            None => {
                width = Some(rows[i].len());
            },
            Some(w) => {
                if rows[i].len() != w {
                    return Err(EncodeError::ShapeError);
                }
            },
        }
        i += 1;
    }
    proof {
        assert(rows@.take(i as int) == rows@);
    }
    Ok(width)
}

/// Puts each row at the position that its text came from and leaves every
/// other slot absent.
///
/// The rows are paired with the positions by rank: the first row goes to the
/// first present position, and so on. Rows that differ in width are refused
/// first, as a `ShapeError`; then a matrix with another number of rows than
/// there are present positions, as an `AlignmentMismatch`. No row is cut,
/// padded or copied: the vectors in the output are the rows that were handed
/// in.
pub fn realign<S, T>(index: &PresenceIndex<S>, rows: Vec<Vec<T>>) -> (r: Result<
    OutputColumn<T>,
    EncodeError,
>)
    ensures
        match r {
            Ok(out) => {
                &&& rows@.len() == index@.positions.len()
                &&& is_rectangular(rows@)
                &&& out.values@ == aligned(index@.column_len, index@.positions, rows@)
                &&& out.width == matrix_width(rows@)
                &&& out.is_fixed_width()
            },
            Err(EncodeError::ShapeError) => !is_rectangular(rows@),
            Err(EncodeError::AlignmentMismatch) => is_rectangular(rows@) && rows@.len()
                != index@.positions.len(),
            Err(EncodeError::ModelFailure(_)) => false,
        },
{
    proof {
        use_type_invariant(index);
    }
    let width = match dimension(&rows) {
        Ok(width) => width,
        Err(e) => {
            return Err(e);
        },
    };
    if rows.len() != index.positions.len() {
        return Err(EncodeError::AlignmentMismatch);
    }
    let ghost all_rows = rows@;
    let ghost positions = index@.positions;
    let mut values: Vec<Option<Vec<T>>> = Vec::new();
    while values.len() < index.column_len
        invariant
            values@.len() <= index.column_len,
            forall|i: int| 0 <= i < values@.len() ==> values@[i] is None,
        decreases index.column_len - values@.len(),
    {
        values.push(None);
    }
    let mut rows = rows;
    let mut k: usize = rows.len();
    while k > 0
        invariant
            0 <= k <= all_rows.len(),
            rows@ == all_rows.take(k as int),
            all_rows.len() == index.positions@.len(),
            positions == index.positions@.map_values(|p: usize| p as int),
            values@.len() == index.column_len,
            forall|j: int| 0 <= j < index.positions@.len() ==> index.positions@[j] < index.column_len,
            forall|a: int, b: int|
                0 <= a < b < index.positions@.len() ==> index.positions@[a] < index.positions@[b],
            forall|j: int|
                k <= j < all_rows.len() ==> values@[#[trigger] positions[j]] == Some(all_rows[j]),
            forall|i: int|
                0 <= i < values@.len() && values@[i] is Some ==> positions.contains(i),
        decreases k,
    {
        k -= 1;
        let row = rows.pop().unwrap();
        let p = index.positions[k];
        values.set(p, Some(row));
        proof {
            assert(positions[k as int] == p);
            assert(rows@ == all_rows.take(k as int));
            assert forall|j: int| k <= j < all_rows.len() implies values@[#[trigger] positions[j]]
                == Some(all_rows[j]) by {
                if j > k {
                    assert(index.positions@[k as int] < index.positions@[j]);
                }
            }
        }
    }
    proof {
        let target = aligned(index@.column_len, positions, all_rows);
        assert forall|i: int| 0 <= i < values@.len() implies values@[i] == target[i] by {
            if positions.contains(i) {
                let j = positions.index_of(i);
                assert(positions[j] == i);
            }
        }
        assert(values@ =~= target);
    }
    let out = OutputColumn { values, width };
    proof {
        assert forall|i: int| 0 <= i < out.values@.len() implies (#[trigger] out.values@[i] matches Some(
            v,
        ) ==> out.width == Some(v.len())) by {
            if positions.contains(i) {
                let j = positions.index_of(i);
                assert(positions[j] == i);
                assert(all_rows[j]@.len() == all_rows[0]@.len());
            }
        }
    }
    Ok(out)
}

/// The positions that `present_positions` lists are exactly the positions of
/// the present entries of the column, each once and in ascending order, and
/// `present_values` lists the entries found there.
pub proof fn lemma_present_positions<S>(column: Seq<Option<S>>)
    ensures
        present_positions(column).len() == present_values(column).len(),
        present_positions(column).len() <= column.len(),
        forall|k: int|
            0 <= k < present_positions(column).len() ==> {
                let p = #[trigger] present_positions(column)[k];
                0 <= p < column.len() && column[p] == Some(present_values(column)[k])
            },
        forall|j: int, k: int|
            0 <= j < k < present_positions(column).len() ==> present_positions(column)[j]
                < present_positions(column)[k],
        forall|i: int|
            0 <= i < column.len() && column[i] is Some ==> present_positions(column).contains(i),
    decreases column.len(),
{
    if column.len() > 0 {
        let rest = column.drop_last();
        lemma_present_positions(rest);
        let positions = present_positions(column);
        let before = present_positions(rest);
        assert forall|i: int| 0 <= i < column.len() && column[i] is Some implies positions.contains(
            i,
        ) by {
            if i < rest.len() {
                assert(rest[i] == column[i]);
                assert(before.contains(i));
                let k = before.index_of(i);
                assert(before[k] == i);
                assert(positions[k] == i);
            } else {
                assert(positions[positions.len() - 1] == i);
            }
        }
        assert forall|k: int| 0 <= k < positions.len() implies {
            let p = #[trigger] positions[k];
            0 <= p < column.len() && column[p] == Some(present_values(column)[k])
        } by {
            if k < before.len() {
                assert(positions[k] == before[k]);
                assert(rest[before[k]] == column[before[k]]);
            }
        }
    }
}

/// Position preservation: a slot of the aligned output is absent exactly
/// where the entry of the input column is absent, whatever the rows are.
pub proof fn lemma_position_preservation<S, R>(column: Seq<Option<S>>, rows: Seq<R>)
    ensures
        aligned(column.len(), present_positions(column), rows).len() == column.len(),
        forall|i: int|
            0 <= i < column.len() ==> (#[trigger] aligned(
                column.len(),
                present_positions(column),
                rows,
            )[i] is None <==> column[i] is None),
{
    lemma_present_positions(column);
    let positions = present_positions(column);
    assert forall|i: int| 0 <= i < column.len() implies (#[trigger] aligned(
        column.len(),
        positions,
        rows,
    )[i] is None <==> column[i] is None) by {
        if positions.contains(i) {
            let k = positions.index_of(i);
            assert(positions[k] == i);
        }
    }
}

/// Row fidelity: the present entry of rank `k` gets row `k`, as it was
/// handed in.
pub proof fn lemma_row_fidelity<S, R>(column: Seq<Option<S>>, rows: Seq<R>, k: int)
    requires
        0 <= k < present_positions(column).len(),
    ensures
        0 <= present_positions(column)[k] < column.len(),
        aligned(column.len(), present_positions(column), rows)[present_positions(column)[k]]
            == Some(rows[k]),
{
    lemma_present_positions(column);
    let positions = present_positions(column);
    let p = positions[k];
    assert(positions.contains(p));
    let j = positions.index_of(p);
    assert(positions[j] == p);
    if j < k {
        assert(positions[j] < positions[k]);
    } else if k < j {
        assert(positions[k] < positions[j]);
    }
}

/// Absent entries do not matter: two columns with the same present entries
/// in the same order send the same batch to the model, and each of their
/// present entries gets the same row, wherever absent entries were put
/// between them.
pub proof fn lemma_absent_entries_do_not_matter<S, R>(
    first: Seq<Option<S>>,
    second: Seq<Option<S>>,
    rows: Seq<R>,
)
    requires
        present_values(first) == present_values(second),
    ensures
        present_positions(first).len() == present_positions(second).len(),
        forall|k: int|
            #![trigger present_positions(first)[k]]
            #![trigger present_positions(second)[k]]
            0 <= k < present_positions(first).len() ==> aligned(
                first.len(),
                present_positions(first),
                rows,
            )[present_positions(first)[k]] == aligned(
                second.len(),
                present_positions(second),
                rows,
            )[present_positions(second)[k]],
{
    lemma_present_positions(first);
    lemma_present_positions(second);
    assert forall|k: int|
        #![trigger present_positions(first)[k]]
        #![trigger present_positions(second)[k]]
        0 <= k < present_positions(first).len() implies aligned(
        first.len(),
        present_positions(first),
        rows,
    )[present_positions(first)[k]] == aligned(
        second.len(),
        present_positions(second),
        rows,
    )[present_positions(second)[k]] by {
        lemma_row_fidelity(first, rows, k);
        lemma_row_fidelity(second, rows, k);
    }
}

/// A column without a present entry has nothing to encode, and its aligned
/// output is absent everywhere.
pub proof fn lemma_nothing_present<S, R>(column: Seq<Option<S>>, rows: Seq<R>)
    requires
        forall|i: int| 0 <= i < column.len() ==> column[i] is None,
    ensures
        present_positions(column).len() == 0,
        present_values(column).len() == 0,
        aligned(column.len(), present_positions(column), rows) == Seq::new(
            column.len(),
            |i: int| None::<R>,
        ),
{
    lemma_present_positions(column);
    let positions = present_positions(column);
    if positions.len() > 0 {
        let p = positions[0];
        assert(column[p] is Some);
    }
    assert(aligned(column.len(), positions, rows) =~= Seq::new(column.len(), |i: int| None::<R>));
}

} // verus!
