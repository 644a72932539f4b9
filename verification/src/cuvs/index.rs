//! The vectors of a GPU index on the host side.

use crate::types::{Dimensions, PrimaryId};
use std::collections::HashMap;
use vstd::prelude::*;

verus! {

broadcast use vstd::std_specs::hash::group_hash_axioms;

/// Replaces the part of `values` that begins at `start` by `part`.
pub open spec fn overwrite<T>(values: Seq<T>, start: int, part: Seq<T>) -> Seq<T> {
    values.take(start) + part + values.skip(start + part.len())
}

/// Rows as mathematics sees them: the identifiers in row order, and all values
/// one row after another.
#[verifier::ext_equal]
pub struct RowsView<T> {
    pub dimensions: nat,
    pub ids: Seq<PrimaryId>,
    pub values: Seq<T>,
}

impl<T> RowsView<T> {
    /// Whether every row is exactly as wide as the index has dimensions.
    pub open spec fn aligned(self) -> bool {
        self.values.len() == self.ids.len() * self.dimensions
    }

    /// The place of the first value of row `row`.
    pub open spec fn start(self, row: int) -> int {
        row * self.dimensions
    }

    /// The row that belongs to `primary_id`.
    pub open spec fn row_of(self, primary_id: PrimaryId) -> int {
        self.ids.index_of(primary_id)
    }

    /// Whether a vector of `len` values can be stored for `primary_id`: a new
    /// row takes any, an existing row takes one of its own width.
    pub open spec fn accepts(self, primary_id: PrimaryId, len: nat) -> bool {
        self.ids.contains(primary_id) ==> {
            &&& len == self.dimensions
            &&& self.start(self.row_of(primary_id)) + len <= self.values.len()
        }
    }

    /// The rows after `embedding` was stored for `primary_id`.
    pub open spec fn upsert(self, primary_id: PrimaryId, embedding: Seq<T>) -> Self {
        if self.ids.contains(primary_id) {
            RowsView {
                values: overwrite(self.values, self.start(self.row_of(primary_id)), embedding),
                ..self
            }
        } else {
            RowsView {
                ids: self.ids.push(primary_id),
                values: self.values + embedding,
                ..self
            }
        }
    }

    /// The rows after `primary_id` was taken out: the last row moves into the
    /// gap.
    pub open spec fn remove(self, primary_id: PrimaryId) -> Self {
        if self.ids.contains(primary_id) {
            let row = self.row_of(primary_id);
            let last = self.ids.len() - 1;
            RowsView {
                ids: self.ids.update(row, self.ids.last()).drop_last(),
                values: overwrite(
                    self.values,
                    self.start(row),
                    self.values.skip(self.start(last)),
                ).take(self.start(last)),
                ..self
            }
        } else {
            self
        }
    }

    /// The values of row `row`.
    pub open spec fn row(self, row: int) -> Seq<T> {
        self.values.subrange(self.start(row), self.start(row) + self.dimensions)
    }

    /// Which vector is stored for which identifier.
    pub open spec fn vectors(self) -> Map<PrimaryId, Seq<T>> {
        Map::new(
            |primary_id: PrimaryId| self.ids.contains(primary_id),
            |primary_id: PrimaryId| self.row(self.row_of(primary_id)),
        )
    }

    /// What every reachable arrangement of rows satisfies as long as each
    /// stored vector had as many values as the index has dimensions.
    pub open spec fn valid(self) -> bool {
        &&& self.dimensions > 0
        &&& self.ids.no_duplicates()
        &&& self.aligned()
    }
}

/// Vectors in row-major order, at most one per identifier.
#[derive(Debug)]
pub struct Rows<T> {
    dimensions: usize,
    values: Vec<T>,
    ids: Vec<PrimaryId>,
    positions: HashMap<u64, usize>,
}

impl<T> View for Rows<T> {
    type V = RowsView<T>;

    closed spec fn view(&self) -> RowsView<T> {
        RowsView { dimensions: self.dimensions as nat, ids: self.ids@, values: self.values@ }
    }
}

impl<T> Rows<T> {
    /// Whether the positions name the row of each identifier and nothing else.
    pub closed spec fn wf(&self) -> bool {
        &&& self.dimensions > 0
        &&& forall|i: int|
            0 <= i < self.ids@.len() ==> {
                &&& self.positions@.contains_key(#[trigger] self.ids@[i].0)
                &&& self.positions@[self.ids@[i].0] == i
            }
        &&& forall|k: u64| #[trigger]
            self.positions@.contains_key(k) ==> {
                &&& self.positions@[k] < self.ids@.len()
                &&& self.ids@[self.positions@[k] as int].0 == k
            }
    }

    /// Consistent positions leave no identifier in two rows.
    pub proof fn lemma_ids_are_distinct(&self)
        requires
            self.wf(),
        ensures
            self@.dimensions > 0,
            self@.ids.no_duplicates(),
    {
        assert forall|i: int, j: int|
            0 <= i < self.ids@.len() && 0 <= j < self.ids@.len() && i != j implies self.ids@[i]
            != self.ids@[j] by {
            assert(self.positions@[self.ids@[i].0] == i);
            assert(self.positions@[self.ids@[j].0] == j);
        }
    }

    /// The positions know exactly the identifiers that have a row.
    proof fn lemma_position(&self, primary_id: PrimaryId)
        requires
            self.wf(),
        ensures
            self.positions@.contains_key(primary_id.0) <==> self@.ids.contains(primary_id),
            self.positions@.contains_key(primary_id.0) ==> self@.row_of(primary_id)
                == self.positions@[primary_id.0],
    {
        if self.positions@.contains_key(primary_id.0) {
            let p = self.positions@[primary_id.0] as int;
            assert(self.ids@[p] == primary_id);
            let q = self@.row_of(primary_id);
            assert(self.ids@[q] == primary_id);
            assert(self.positions@[self.ids@[q].0] == q);
        }
        if self@.ids.contains(primary_id) {
            let q = self@.ids.index_of(primary_id);
            assert(self.positions@.contains_key(self.ids@[q].0));
        }
    }

    /// No rows yet, for vectors of the given width.
    pub fn new(dimensions: Dimensions) -> (rows: Self)
        ensures
            rows.wf(),
            rows@ == (RowsView::<T> {
                dimensions: dimensions.value() as nat,
                ids: Seq::empty(),
                values: Seq::empty(),
            }),
    {
        Rows {
            dimensions: dimensions.get(),
            values: Vec::new(),
            ids: Vec::new(),
            positions: HashMap::new(),
        }
    }

    /// The identifiers, in row order.
    pub fn ids(&self) -> (ids: &Vec<PrimaryId>)
        ensures
            ids@ == self@.ids,
    {
        &self.ids
    }

    /// All values, one row after another.
    pub fn values(&self) -> (values: &Vec<T>)
        ensures
            values@ == self@.values,
    {
        &self.values
    }

    /// How many values a row holds.
    pub fn dimensions(&self) -> (dimensions: usize)
        ensures
            dimensions == self@.dimensions,
    {
        self.dimensions
    }

    /// Whether a vector of `len` values can be stored for `primary_id`.
    pub fn accepts(&self, primary_id: PrimaryId, len: usize) -> (accepted: bool)
        requires
            self.wf(),
        ensures
            accepted == self@.accepts(primary_id, len as nat),
            accepted <==> (self@.ids.contains(primary_id) ==> len == self@.dimensions
                && self@.ids.index_of(primary_id) * self@.dimensions + len
                <= self@.values.len()),
    {
        proof {
            self.lemma_position(primary_id);
        }
        match self.positions.get(&primary_id.0) {
            Some(position) => match position.checked_mul(self.dimensions) {
                Some(start) => {
                    len == self.dimensions && start <= self.values.len() && len
                        <= self.values.len() - start
                },
                None => {
                    assert(self.values.len() <= usize::MAX);
                    false
                },
            },
            None => true,
        }
    }

    /// Whether every row is exactly as wide as the index has dimensions.
    pub fn is_aligned(&self) -> (aligned: bool)
        ensures
            aligned == self@.aligned(),
            aligned <==> self@.values.len() == self@.ids.len() * self@.dimensions,
    {
        match self.ids.len().checked_mul(self.dimensions) {
            Some(len) => self.values.len() == len,
            None => {
                assert(self.values.len() <= usize::MAX);
                false
            },
        }
    }
}

impl<T: Copy> Rows<T> {
    /// Stores a vector: over the row of `primary_id` where there is one, else
    /// in a new row at the end.
    pub fn upsert(&mut self, primary_id: PrimaryId, embedding: &[T])
        requires
            old(self).wf(),
            old(self)@.accepts(primary_id, embedding@.len()),
        ensures
            final(self).wf(),
            final(self)@ == old(self)@.upsert(primary_id, embedding@),
            final(self)@.dimensions == old(self)@.dimensions,
            !old(self)@.ids.contains(primary_id) ==> {
                &&& final(self)@.ids == old(self)@.ids.push(primary_id)
                &&& final(self)@.values == old(self)@.values + embedding@
            },
            old(self)@.ids.contains(primary_id) ==> {
                let start = old(self)@.ids.index_of(primary_id) * old(self)@.dimensions;
                &&& final(self)@.ids == old(self)@.ids
                &&& final(self)@.values.len() == old(self)@.values.len()
                &&& final(self)@.values.subrange(start, start + embedding@.len()) == embedding@
                &&& forall|k: int|
                    0 <= k < old(self)@.values.len() && !(start <= k < start + embedding@.len())
                        ==> #[trigger] final(self)@.values[k] == old(self)@.values[k]
            },
            old(self)@.values.len() == old(self)@.ids.len() * old(self)@.dimensions
                && embedding@.len() == old(self)@.dimensions ==> {
                &&& final(self)@.values.len() == final(self)@.ids.len() * final(self)@.dimensions
                &&& final(self)@.vectors() == old(self)@.vectors().insert(primary_id, embedding@)
            },
    {
        proof {
            self.lemma_position(primary_id);
            self.lemma_ids_are_distinct();
            let rows = self@;
            if rows.values.len() == rows.ids.len() * rows.dimensions && embedding@.len()
                == rows.dimensions {
                law_upsert_stores_the_vector(rows, primary_id, embedding@);
            }
            if rows.ids.contains(primary_id) {
                let start = rows.start(rows.row_of(primary_id));
                assert(start >= 0) by (nonlinear_arith)
                    requires
                        start == rows.row_of(primary_id) * rows.dimensions,
                        rows.row_of(primary_id) >= 0,
                ;
                assert(overwrite(rows.values, start, embedding@).subrange(
                    start,
                    start + embedding@.len(),
                ) =~= embedding@);
            }
        }
        let len: usize = embedding.len();
        match self.positions.get(&primary_id.0) {
            Some(position) => {
                let row: usize = *position;
                proof {
                    let r = row as int;
                    let d = self.dimensions as int;
                    assert(r * d >= 0) by (nonlinear_arith)
                        requires
                            r >= 0,
                            d >= 0,
                    ;
                    assert(self.values.len() <= usize::MAX);
                }
                let start: usize = row * self.dimensions;
                let mut j: usize = 0;
                while j < len
                    invariant
                        j <= len,
                        len == embedding@.len(),
                        start + len <= old(self).values.len(),
                        start == old(self)@.start(old(self)@.row_of(primary_id)),
                        self.dimensions == old(self).dimensions,
                        self.ids == old(self).ids,
                        self.positions == old(self).positions,
                        self.values@ == overwrite(
                            old(self).values@,
                            start as int,
                            embedding@.take(j as int),
                        ),
                    decreases len - j,
                {
                    self.values.set(start + j, embedding[j]);
                    j = j + 1;
                    assert(self.values@ =~= overwrite(
                        old(self).values@,
                        start as int,
                        embedding@.take(j as int),
                    ));
                }
                assert(embedding@.take(len as int) =~= embedding@);
            },
            None => {
                self.positions.insert(primary_id.0, self.ids.len());
                self.ids.push(primary_id);
                let ghost ids = self.ids@;
                let ghost positions = self.positions@;
                let mut j: usize = 0;
                while j < len
                    invariant
                        j <= len,
                        len == embedding@.len(),
                        self.dimensions == old(self).dimensions,
                        self.ids@ == ids,
                        self.positions@ == positions,
                        self.values@ == old(self).values@ + embedding@.take(j as int),
                    decreases len - j,
                {
                    self.values.push(embedding[j]);
                    j = j + 1;
                    assert(self.values@ =~= old(self).values@ + embedding@.take(j as int));
                }
                assert(embedding@.take(len as int) =~= embedding@);
            },
        }
    }

    /// Takes the row of `primary_id` out, and says whether there was one. The
    /// last row moves into the gap.
    pub fn remove(&mut self, primary_id: PrimaryId) -> (removed: bool)
        requires
            old(self).wf(),
            old(self)@.aligned(),
        ensures
            final(self).wf(),
            final(self)@.aligned(),
            final(self)@ == old(self)@.remove(primary_id),
            removed == old(self)@.ids.contains(primary_id),
            final(self)@.dimensions == old(self)@.dimensions,
            final(self)@.values.len() == final(self)@.ids.len() * final(self)@.dimensions,
            final(self)@.vectors() == old(self)@.vectors().remove(primary_id),
            final(self)@.ids.len() == old(self)@.ids.len() - if removed {
                1int
            } else {
                0int
            },
    {
        proof {
            self.lemma_position(primary_id);
            self.lemma_ids_are_distinct();
            law_remove_forgets_the_vector(self@, primary_id);
        }
        match self.positions.remove(&primary_id.0) {
            None => false,
            Some(row) => {
                let last: usize = self.ids.len() - 1;
                let ghost d = self.dimensions as int;
                let ghost n = self.ids@.len() as int;
                proof {
                    lemma_row_bounds(row as int, n, d);
                    lemma_row_bounds(last as int, n, d);
                    assert(self.values.len() == n * d);
                }
                let start: usize = row * self.dimensions;
                let from: usize = last * self.dimensions;
                let ghost moved = self.values@.skip(from as int);
                let mut j: usize = 0;
                while j < self.dimensions
                    invariant
                        j <= self.dimensions,
                        d == self.dimensions,
                        self.dimensions == old(self).dimensions,
                        self.ids == old(self).ids,
                        start + d <= old(self).values.len(),
                        from + d == old(self).values.len(),
                        start == from || start + d <= from,
                        moved == old(self).values@.skip(from as int),
                        self.positions@ == old(self).positions@.remove(primary_id.0),
                        self.values@ == overwrite(
                            old(self).values@,
                            start as int,
                            moved.take(j as int),
                        ),
                    decreases self.dimensions - j,
                {
                    let value: T = self.values[from + j];
                    assert(value == moved[j as int]);
                    self.values.set(start + j, value);
                    j = j + 1;
                    assert(self.values@ =~= overwrite(
                        old(self).values@,
                        start as int,
                        moved.take(j as int),
                    ));
                }
                assert(moved.take(d) =~= moved);
                self.values.truncate(from);
                let moved_id: PrimaryId = self.ids[last];
                let _ = self.ids.swap_remove(row);
                if row != last {
                    self.positions.insert(moved_id.0, row);
                }
                true
            },
        }
    }
}

/// A row of `n` rows of `d` values lies within the `n * d` values, and two
/// different rows do not overlap.
proof fn lemma_row_bounds(row: int, n: int, d: int)
    requires
        0 <= row < n,
        d > 0,
    ensures
        0 <= row * d,
        row * d + d <= n * d,
        row < n - 1 ==> row * d + d <= (n - 1) * d,
        (n - 1) * d + d == n * d,
{
    assert(0 <= row * d && row * d + d <= n * d && (row < n - 1 ==> row * d + d <= (n - 1) * d)
        && (n - 1) * d + d == n * d) by (nonlinear_arith)
        requires
            0 <= row < n,
            d > 0,
    ;
}

/// In distinct identifiers the row of the identifier in row `row` is `row`.
proof fn lemma_row_of<T>(rows: RowsView<T>, row: int)
    requires
        rows.ids.no_duplicates(),
        0 <= row < rows.ids.len(),
    ensures
        rows.row_of(rows.ids[row]) == row,
{
    assert(rows.ids.contains(rows.ids[row]));
}

/// Storing a vector of the right width changes what is stored for its
/// identifier, and for no other.
pub proof fn law_upsert_stores_the_vector<T>(
    rows: RowsView<T>,
    primary_id: PrimaryId,
    embedding: Seq<T>,
)
    requires
        rows.dimensions > 0,
        rows.ids.no_duplicates(),
        rows.values.len() == rows.ids.len() * rows.dimensions,
        embedding.len() == rows.dimensions,
    ensures
        rows.accepts(primary_id, embedding.len()),
        rows.upsert(primary_id, embedding).valid(),
        rows.upsert(primary_id, embedding).vectors() == rows.vectors().insert(
            primary_id,
            embedding,
        ),
{
    let after = rows.upsert(primary_id, embedding);
    let d = rows.dimensions as int;
    let n = rows.ids.len() as int;
    if rows.ids.contains(primary_id) {
        let row = rows.row_of(primary_id);
        lemma_row_bounds(row, n, d);
        assert(after.row(row) =~= embedding);
        assert forall|other: PrimaryId|
            rows.ids.contains(other) && other != primary_id implies #[trigger] after.row(
            after.row_of(other),
        ) == rows.row(rows.row_of(other)) by {
            let at = rows.row_of(other);
            assert(at != row);
            lemma_row_bounds(at, n, d);
            lemma_rows_apart(at, row, d);
            assert(after.row(at) =~= rows.row(at));
        }
        assert(after.vectors() =~= rows.vectors().insert(primary_id, embedding));
    } else {
        assert(after.ids.no_duplicates());
        assert((n + 1) * d == n * d + d) by (nonlinear_arith);
        assert(after.ids[n] == primary_id);
        lemma_row_of(after, n);
        assert(after.row(n) =~= embedding);
        assert forall|other: PrimaryId| #[trigger] after.ids.contains(other) implies other
            == primary_id || rows.ids.contains(other) by {
            let at = after.row_of(other);
            if at < n {
                assert(rows.ids[at] == other);
            }
        }
        assert forall|other: PrimaryId| #[trigger] rows.ids.contains(other) implies after.ids.contains(
            other,
        ) && after.row(after.row_of(other)) == rows.row(rows.row_of(other)) by {
            let at = rows.row_of(other);
            assert(after.ids[at] == other);
            lemma_row_of(after, at);
            lemma_row_bounds(at, n, d);
            assert(after.row(at) =~= rows.row(at));
        }
        assert(after.vectors() =~= rows.vectors().insert(primary_id, embedding));
    }
}

/// Two different rows of `d` values do not overlap.
proof fn lemma_rows_apart(a: int, b: int, d: int)
    requires
        a != b,
        d > 0,
    ensures
        a < b ==> a * d + d <= b * d,
        b < a ==> b * d + d <= a * d,
{
    assert((a < b ==> a * d + d <= b * d) && (b < a ==> b * d + d <= a * d)) by (nonlinear_arith)
        requires
            d > 0,
    ;
}

/// Taking an identifier out forgets its vector, and no other.
pub proof fn law_remove_forgets_the_vector<T>(rows: RowsView<T>, primary_id: PrimaryId)
    requires
        rows.dimensions > 0,
        rows.ids.no_duplicates(),
        rows.values.len() == rows.ids.len() * rows.dimensions,
    ensures
        rows.remove(primary_id).valid(),
        rows.remove(primary_id).vectors() == rows.vectors().remove(primary_id),
{
    let after = rows.remove(primary_id);
    let d = rows.dimensions as int;
    let n = rows.ids.len() as int;
    if rows.ids.contains(primary_id) {
        let row = rows.row_of(primary_id);
        let last = n - 1;
        lemma_row_bounds(row, n, d);
        lemma_row_bounds(last, n, d);
        assert forall|other: PrimaryId| #[trigger] after.ids.contains(other) implies other
            != primary_id && rows.ids.contains(other) by {
            let at = after.row_of(other);
            if at == row {
                assert(rows.ids[last] == other);
            } else {
                assert(rows.ids[at] == other);
            }
        }
        assert forall|other: PrimaryId| #[trigger]
            rows.ids.contains(other) && other != primary_id implies after.ids.contains(other)
            && after.row(after.row_of(other)) == rows.row(rows.row_of(other)) by {
            let at = rows.row_of(other);
            lemma_row_bounds(at, n, d);
            lemma_row_of(rows, at);
            if at == last {
                assert(after.ids[row] == other);
                lemma_row_of(after, row);
                lemma_row_bounds(row, last, d);
                assert(after.row(row) =~= rows.row(last));
            } else {
                assert(after.ids[at] == other);
                lemma_row_of(after, at);
                lemma_row_bounds(at, last, d);
                lemma_rows_apart(at, row, d);
                assert(after.row(at) =~= rows.row(at));
            }
        }
        assert(after.vectors() =~= rows.vectors().remove(primary_id));
    } else {
        assert(after.vectors() =~= rows.vectors().remove(primary_id));
    }
}

/// What is stored for the identifier of a row are the values of that row, and
/// nothing is stored for an identifier that has no row.
pub proof fn law_a_row_holds_the_vector_of_its_identifier<T>(
    rows: RowsView<T>,
    row: int,
    column: int,
    other: PrimaryId,
)
    requires
        rows.dimensions > 0,
        rows.ids.no_duplicates(),
        rows.values.len() == rows.ids.len() * rows.dimensions,
        0 <= row < rows.ids.len(),
        0 <= column < rows.dimensions,
    ensures
        rows.vectors().contains_key(rows.ids[row]),
        rows.vectors()[rows.ids[row]].len() == rows.dimensions,
        rows.vectors()[rows.ids[row]][column] == rows.values[row * rows.dimensions + column],
        rows.vectors().contains_key(other) <==> exists|i: int|
            0 <= i < rows.ids.len() && #[trigger] rows.ids[i] == other,
{
    lemma_row_of(rows, row);
    lemma_row_bounds(row, rows.ids.len() as int, rows.dimensions as int);
    assert(rows.ids.contains(rows.ids[row]));
}

/// There is one row for each identifier that has a vector.
pub proof fn law_one_row_per_vector<T>(rows: RowsView<T>)
    requires
        rows.ids.no_duplicates(),
    ensures
        rows.vectors().dom().finite(),
        rows.vectors().dom().len() == rows.ids.len(),
{
    rows.ids.unique_seq_to_set();
    assert(rows.vectors().dom() =~= rows.ids.to_set());
}

/// Storing again for the same identifier leaves the last vector only, in the
/// row of the first.
pub proof fn law_last_upsert_wins<T>(
    rows: RowsView<T>,
    primary_id: PrimaryId,
    first: Seq<T>,
    second: Seq<T>,
)
    requires
        rows.dimensions > 0,
        rows.ids.no_duplicates(),
        rows.values.len() == rows.ids.len() * rows.dimensions,
        first.len() == rows.dimensions,
        second.len() == rows.dimensions,
    ensures
        rows.upsert(primary_id, first).upsert(primary_id, second) == rows.upsert(
            primary_id,
            second,
        ),
{
    let d = rows.dimensions as int;
    let n = rows.ids.len() as int;
    let once = rows.upsert(primary_id, first);
    if rows.ids.contains(primary_id) {
        lemma_row_bounds(rows.row_of(primary_id), n, d);
        assert(once.upsert(primary_id, second).values =~= rows.upsert(primary_id, second).values);
    } else {
        law_upsert_stores_the_vector(rows, primary_id, first);
        assert(once.ids[n] == primary_id);
        lemma_row_of(once, n);
        assert(n * d >= 0) by (nonlinear_arith)
            requires
                n >= 0,
                d > 0,
        ;
        assert(once.upsert(primary_id, second).values =~= rows.upsert(primary_id, second).values);
    }
}

/// A GPU index as mathematics sees it.
#[verifier::ext_equal]
pub struct IndexView<T, P> {
    /// The vectors written so far.
    pub rows: RowsView<T>,
    /// What is held for the writes that no successful build has taken in yet,
    /// oldest first.
    pub waiting: Seq<P>,
    /// The number of vectors in the last successful build.
    pub built: nat,
}

impl<T, P> IndexView<T, P> {
    /// The index after a vector was written.
    pub open spec fn add(self, primary_id: PrimaryId, embedding: Seq<T>, in_progress: P) -> Self {
        IndexView {
            rows: self.rows.upsert(primary_id, embedding),
            waiting: self.waiting.push(in_progress),
            ..self
        }
    }

    /// The index after a vector was taken out.
    pub open spec fn remove(self, primary_id: PrimaryId, in_progress: P) -> Self {
        IndexView {
            rows: self.rows.remove(primary_id),
            waiting: self.waiting.push(in_progress),
            ..self
        }
    }

    /// The index after a successful build: it covers every row, and holds
    /// nothing back.
    pub open spec fn built_now(self) -> Self {
        IndexView { waiting: Seq::empty(), built: self.rows.ids.len(), ..self }
    }
}

/// A GPU index on the host side: the vectors, and a token for every write that
/// waits for a build. Dropping the token tells the writer that its write is in
/// the index.
#[derive(Debug)]
pub struct CuvsIndex<T, P> {
    rows: Rows<T>,
    waiting: Vec<P>,
    built: usize,
}

impl<T, P> View for CuvsIndex<T, P> {
    type V = IndexView<T, P>;

    closed spec fn view(&self) -> IndexView<T, P> {
        IndexView { rows: self.rows@, waiting: self.waiting@, built: self.built as nat }
    }
}

impl<T, P> CuvsIndex<T, P> {
    /// Whether the rows are in order.
    pub closed spec fn wf(&self) -> bool {
        self.rows.wf()
    }

    /// No identifier of an index is in two rows.
    pub proof fn lemma_ids_are_distinct(&self)
        requires
            self.wf(),
        ensures
            self@.rows.dimensions > 0,
            self@.rows.ids.no_duplicates(),
    {
        self.rows.lemma_ids_are_distinct();
    }

    /// An empty index for vectors of the given width, not built yet.
    pub fn new(dimensions: Dimensions) -> (index: Self)
        ensures
            index.wf(),
            index@.rows == (RowsView::<T> {
                dimensions: dimensions.value() as nat,
                ids: Seq::empty(),
                values: Seq::empty(),
            }),
            index@.waiting == Seq::<P>::empty(),
            index@.built == 0,
    {
        CuvsIndex { rows: Rows::new(dimensions), waiting: Vec::new(), built: 0 }
    }

    /// The vectors, as a build takes them.
    pub fn rows(&self) -> (rows: &Rows<T>)
        requires
            self.wf(),
        ensures
            rows.wf(),
            rows@ == self@.rows,
    {
        &self.rows
    }

    /// The number of writes that no successful build has taken in yet.
    pub fn pending(&self) -> (pending: usize)
        ensures
            pending == self@.waiting.len(),
    {
        self.waiting.len()
    }

    /// The number of vectors in the last successful build.
    pub fn count(&self) -> (count: usize)
        ensures
            count == self@.built,
    {
        self.built
    }

    /// Takes in how a build over the current rows ended. A success covers every
    /// write so far and gives the tokens out; a failure changes nothing.
    pub fn build<E>(&mut self, outcome: Result<(), E>) -> (released: Result<Vec<P>, E>)
        requires
            old(self).wf(),
        ensures
            final(self).wf(),
            match outcome {
                Ok(_) => {
                    &&& released matches Ok(tokens) && tokens@ == old(self)@.waiting
                    &&& final(self)@ == old(self)@.built_now()
                    &&& final(self)@.rows == old(self)@.rows
                    &&& final(self)@.waiting.len() == 0
                    &&& final(self)@.built == old(self)@.rows.ids.len()
                },
                Err(err) => {
                    &&& released == Err::<Vec<P>, E>(err)
                    &&& final(self)@ == old(self)@
                },
            },
    {
        match outcome {
            Ok(_) => {
                let mut tokens: Vec<P> = Vec::new();
                tokens.append(&mut self.waiting);
                self.built = self.rows.ids().len();
                assert(tokens@ =~= old(self)@.waiting);
                Ok(tokens)
            },
            Err(err) => Err(err),
        }
    }
}

impl<T: Copy, P> CuvsIndex<T, P> {
    /// Writes a vector and keeps the token until a build has taken it in.
    pub fn add(&mut self, primary_id: PrimaryId, embedding: &[T], in_progress: P)
        requires
            old(self).wf(),
            old(self)@.rows.accepts(primary_id, embedding@.len()),
        ensures
            final(self).wf(),
            final(self)@ == old(self)@.add(primary_id, embedding@, in_progress),
            final(self)@.built == old(self)@.built,
            final(self)@.waiting == old(self)@.waiting.push(in_progress),
            !old(self)@.rows.ids.contains(primary_id) ==> {
                &&& final(self)@.rows.ids == old(self)@.rows.ids.push(primary_id)
                &&& final(self)@.rows.values == old(self)@.rows.values + embedding@
            },
            old(self)@.rows.ids.contains(primary_id) ==> final(self)@.rows.ids
                == old(self)@.rows.ids,
            old(self)@.rows.values.len() == old(self)@.rows.ids.len() * old(self)@.rows.dimensions
                && embedding@.len() == old(self)@.rows.dimensions ==> {
                &&& final(self)@.rows.values.len() == final(self)@.rows.ids.len()
                    * final(self)@.rows.dimensions
                &&& final(self)@.rows.vectors() == old(self)@.rows.vectors().insert(
                    primary_id,
                    embedding@,
                )
            },
    {
        self.rows.upsert(primary_id, embedding);
        self.waiting.push(in_progress);
    }

    /// Takes a vector out and keeps the token until a build went without it.
    pub fn remove(&mut self, primary_id: PrimaryId, in_progress: P)
        requires
            old(self).wf(),
            old(self)@.rows.aligned(),
        ensures
            final(self).wf(),
            final(self)@.rows.aligned(),
            final(self)@ == old(self)@.remove(primary_id, in_progress),
            final(self)@.built == old(self)@.built,
            final(self)@.waiting == old(self)@.waiting.push(in_progress),
            final(self)@.rows.values.len() == final(self)@.rows.ids.len()
                * final(self)@.rows.dimensions,
            final(self)@.rows.vectors() == old(self)@.rows.vectors().remove(primary_id),
    {
        let _ = self.rows.remove(primary_id);
        self.waiting.push(in_progress);
    }
}

/// After a successful build the count is the number of vectors stored, whatever
/// was written before.
pub proof fn law_count_reflects_the_built_index<T, P>(index: IndexView<T, P>)
    requires
        index.rows.ids.no_duplicates(),
    ensures
        index.built_now().built == index.rows.vectors().dom().len(),
        index.built_now().waiting.len() == 0,
        index.built_now().rows == index.rows,
{
    law_one_row_per_vector(index.rows);
}

/// A write is not counted before a build, is pending until then, and is in the
/// next successful one: that build has the vector, and counts it once.
pub proof fn law_write_reaches_the_next_build<T, P>(
    index: IndexView<T, P>,
    primary_id: PrimaryId,
    embedding: Seq<T>,
    in_progress: P,
)
    requires
        index.rows.dimensions > 0,
        index.rows.ids.no_duplicates(),
        index.rows.values.len() == index.rows.ids.len() * index.rows.dimensions,
        embedding.len() == index.rows.dimensions,
    ensures
        index.add(primary_id, embedding, in_progress).built == index.built,
        index.add(primary_id, embedding, in_progress).waiting == index.waiting.push(in_progress),
        index.add(primary_id, embedding, in_progress).rows.vectors() == index.rows.vectors().insert(
            primary_id,
            embedding,
        ),
        index.add(primary_id, embedding, in_progress).built_now().rows.vectors()
            == index.rows.vectors().insert(primary_id, embedding),
        index.add(primary_id, embedding, in_progress).built_now().built
            == index.rows.vectors().insert(primary_id, embedding).dom().len(),
{
    law_upsert_stores_the_vector(index.rows, primary_id, embedding);
    law_one_row_per_vector(index.rows.upsert(primary_id, embedding));
}

/// Taking out a stored vector lowers the count of the next build by one, and
/// that build does not have the vector; taking out an unknown one leaves the
/// count as it is.
pub proof fn law_removing_a_row_lowers_the_count<T, P>(
    index: IndexView<T, P>,
    primary_id: PrimaryId,
    in_progress: P,
)
    requires
        index.rows.dimensions > 0,
        index.rows.ids.no_duplicates(),
        index.rows.values.len() == index.rows.ids.len() * index.rows.dimensions,
    ensures
        index.remove(primary_id, in_progress).built == index.built,
        index.remove(primary_id, in_progress).waiting == index.waiting.push(in_progress),
        index.remove(primary_id, in_progress).rows.vectors() == index.rows.vectors().remove(
            primary_id,
        ),
        index.remove(primary_id, in_progress).built_now().built == index.built_now().built - (
        if index.rows.vectors().contains_key(primary_id) {
            1int
        } else {
            0int
        }),
        !index.remove(primary_id, in_progress).built_now().rows.vectors().contains_key(
            primary_id,
        ),
{
    law_remove_forgets_the_vector(index.rows, primary_id);
}

/// What can happen to an index.
pub enum IndexEvent<T, P> {
    Add { primary_id: PrimaryId, embedding: Seq<T>, in_progress: P },
    Remove { primary_id: PrimaryId, in_progress: P },
    BuildSucceeded,
    BuildFailed,
}

impl<T, P> IndexView<T, P> {
    /// The index after an event.
    pub open spec fn after(self, event: IndexEvent<T, P>) -> Self {
        match event {
            IndexEvent::Add { primary_id, embedding, in_progress } => self.add(
                primary_id,
                embedding,
                in_progress,
            ),
            IndexEvent::Remove { primary_id, in_progress } => self.remove(primary_id, in_progress),
            IndexEvent::BuildSucceeded => self.built_now(),
            IndexEvent::BuildFailed => self,
        }
    }

    /// The index after a run of events.
    pub open spec fn after_all(self, events: Seq<IndexEvent<T, P>>) -> Self
        decreases events.len(),
    {
        if events.len() == 0 {
            self
        } else {
            self.after_all(events.drop_last()).after(events.last())
        }
    }

    /// The tokens that a run of events gives out, in order.
    pub open spec fn released(self, events: Seq<IndexEvent<T, P>>) -> Seq<P>
        decreases events.len(),
    {
        if events.len() == 0 {
            Seq::empty()
        } else if events.last() is BuildSucceeded {
            self.released(events.drop_last()) + self.after_all(events.drop_last()).waiting
        } else {
            self.released(events.drop_last())
        }
    }
}

/// Whether every vector that a run of events writes has `dimensions` values.
pub open spec fn well_sized<T, P>(events: Seq<IndexEvent<T, P>>, dimensions: nat) -> bool {
    forall|i: int|
        0 <= i < events.len() ==> ((#[trigger] events[i]) matches IndexEvent::Add {
            embedding,
            ..
        } ==> embedding.len() == dimensions)
}

/// Which vector a run of events leaves stored for which identifier: the last one
/// written for it that was not taken out since.
pub open spec fn written<T, P>(
    vectors: Map<PrimaryId, Seq<T>>,
    events: Seq<IndexEvent<T, P>>,
) -> Map<PrimaryId, Seq<T>>
    decreases events.len(),
{
    if events.len() == 0 {
        vectors
    } else {
        match events.last() {
            IndexEvent::Add { primary_id, embedding, .. } => written(
                vectors,
                events.drop_last(),
            ).insert(primary_id, embedding),
            IndexEvent::Remove { primary_id, .. } => written(vectors, events.drop_last()).remove(
                primary_id,
            ),
            _ => written(vectors, events.drop_last()),
        }
    }
}

/// Whatever happens to an index, its rows stay in order and hold exactly what
/// was written and not taken out; builds do not change that.
pub proof fn law_rows_hold_what_was_written<T, P>(
    index: IndexView<T, P>,
    events: Seq<IndexEvent<T, P>>,
)
    requires
        index.rows.dimensions > 0,
        index.rows.ids.no_duplicates(),
        index.rows.values.len() == index.rows.ids.len() * index.rows.dimensions,
        well_sized(events, index.rows.dimensions),
    ensures
        index.after_all(events).rows.valid(),
        index.after_all(events).rows.dimensions == index.rows.dimensions,
        index.after_all(events).rows.vectors() == written(index.rows.vectors(), events),
    decreases events.len(),
{
    if events.len() > 0 {
        let before = events.drop_last();
        assert(well_sized(before, index.rows.dimensions)) by {
            assert forall|i: int| 0 <= i < before.len() implies ((
            #[trigger] before[i]) matches IndexEvent::Add { embedding, .. } ==> embedding.len()
                == index.rows.dimensions) by {
                assert(before[i] == events[i]);
            }
        }
        law_rows_hold_what_was_written(index, before);
        let rows = index.after_all(before).rows;
        assert(events.last() == events[events.len() - 1]);
        match events.last() {
            IndexEvent::Add { primary_id, embedding, .. } => {
                law_upsert_stores_the_vector(rows, primary_id, embedding);
            },
            IndexEvent::Remove { primary_id, .. } => {
                law_remove_forgets_the_vector(rows, primary_id);
            },
            _ => {},
        }
    }
}

/// The tokens that a run of events hands in, in order.
pub open spec fn handed_in<T, P>(events: Seq<IndexEvent<T, P>>) -> Seq<P>
    decreases events.len(),
{
    if events.len() == 0 {
        Seq::empty()
    } else {
        match events.last() {
            IndexEvent::Add { in_progress, .. } => handed_in(events.drop_last()).push(in_progress),
            IndexEvent::Remove { in_progress, .. } => handed_in(events.drop_last()).push(
                in_progress,
            ),
            _ => handed_in(events.drop_last()),
        }
    }
}

/// Whatever happens to an index, no token is lost and none is given out twice:
/// those given out, then those still waiting, are those handed in, in the same
/// order.
pub proof fn law_every_token_is_released_once<T, P>(
    index: IndexView<T, P>,
    events: Seq<IndexEvent<T, P>>,
)
    requires
        index.waiting.len() == 0,
    ensures
        index.released(events) + index.after_all(events).waiting == handed_in(events),
    decreases events.len(),
{
    if events.len() == 0 {
        assert(index.released(events) + index.after_all(events).waiting =~= handed_in(events));
    } else {
        law_every_token_is_released_once(index, events.drop_last());
        assert(index.released(events) + index.after_all(events).waiting =~= handed_in(events));
    }
}

} // verus!
