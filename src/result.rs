//! The result of a successful query: rows as maps from column name to value.

use vstd::prelude::*;

use crate::connection::QueryStatus;
use crate::notices::Notice;
use crate::text::same_text;
use crate::value::{Value, ValueView};

verus! {

/// The position of the first entry with key `k`, or -1 where there is none.
pub open spec fn key_index(s: Seq<(Seq<char>, ValueView)>, k: Seq<char>) -> int
    decreases s.len(),
{
    if s.len() == 0 {
        -1
    } else {
        let i = key_index(s.drop_last(), k);
        if i >= 0 {
            i
        } else if s.last().0 == k {
            s.len() - 1
        } else {
            -1
        }
    }
}

/// `s` with key `k` set to `v`: the entry for `k` is replaced in place, or a
/// new one is appended.
pub open spec fn upsert(s: Seq<(Seq<char>, ValueView)>, k: Seq<char>, v: ValueView) -> Seq<
    (Seq<char>, ValueView),
> {
    let i = key_index(s, k);
    if i >= 0 {
        s.update(i, (k, v))
    } else {
        s.push((k, v))
    }
}

/// The entries of a row whose columns are `names` and whose values are
/// `cells`: each column in turn sets its value, so that of two columns with
/// one name the later value stays, at the place of the earlier.
pub open spec fn row_entries(names: Seq<Seq<char>>, cells: Seq<ValueView>) -> Seq<
    (Seq<char>, ValueView),
>
    decreases names.len(),
{
    if names.len() == 0 || cells.len() == 0 {
        seq![]
    } else {
        upsert(row_entries(names.drop_last(), cells.drop_last()), names.last(), cells.last())
    }
}

/// The value of a cell as read from the server: its text, or `Null`.
pub open spec fn cell_value(c: Option<String>) -> ValueView {
    match c {
        Some(t) => ValueView::Text(t@),
        None => ValueView::Null,
    }
}

/// The values of a row of cells.
pub open spec fn cell_values(cells: Seq<Option<String>>) -> Seq<ValueView> {
    cells.map_values(|c: Option<String>| cell_value(c))
}

/// The name of a column as reported: its name, or "(unknown)" where the server
/// gave none.
pub open spec fn column_label(n: Option<String>) -> Seq<char> {
    match n {
        Some(t) => t@,
        None => "(unknown)"@,
    }
}

/// The labels of columns read as `names`.
pub open spec fn column_labels(names: Seq<Option<String>>) -> Seq<Seq<char>> {
    names.map_values(|n: Option<String>| column_label(n))
}

proof fn lemma_key_index_bounds(s: Seq<(Seq<char>, ValueView)>, k: Seq<char>)
    ensures
        -1 <= key_index(s, k) < s.len(),
        key_index(s, k) >= 0 ==> s[key_index(s, k)].0 == k,
        key_index(s, k) >= 0 ==> forall|j: int| 0 <= j < key_index(s, k) ==> s[j].0 != k,
        key_index(s, k) == -1 ==> forall|j: int| 0 <= j < s.len() ==> s[j].0 != k,
    decreases s.len(),
{
    if s.len() > 0 {
        let p = s.drop_last();
        lemma_key_index_bounds(p, k);
        assert(forall|j: int| 0 <= j < p.len() ==> p[j] == s[j]);
    }
}

/// Every key of a row is the name of one of its columns.
pub proof fn lemma_row_keys_are_columns(names: Seq<Seq<char>>, cells: Seq<ValueView>)
    ensures
        forall|j: int|
            0 <= j < row_entries(names, cells).len() ==> names.contains(
                #[trigger] row_entries(names, cells)[j].0,
            ),
    decreases names.len(),
{
    if names.len() > 0 && cells.len() > 0 {
        let prev = row_entries(names.drop_last(), cells.drop_last());
        lemma_row_keys_are_columns(names.drop_last(), cells.drop_last());
        lemma_key_index_bounds(prev, names.last());
        let cur = row_entries(names, cells);
        assert forall|j: int| 0 <= j < cur.len() implies names.contains(#[trigger] cur[j].0) by {
            if j < prev.len() && cur[j].0 == prev[j].0 {
                assert(names.drop_last().contains(prev[j].0));
                let w = choose|w: int|
                    0 <= w < names.drop_last().len() && names.drop_last()[w] == prev[j].0;
                assert(names[w] == prev[j].0);
            } else {
                assert(names[names.len() - 1] == cur[j].0);
            }
        }
    }
}

/// No key occurs twice in `s`.
pub open spec fn unique_keys(s: Seq<(Seq<char>, ValueView)>) -> bool {
    forall|i: int, j: int| 0 <= i < j < s.len() ==> s[i].0 != s[j].0
}

/// A row holds each column name once.
pub proof fn lemma_row_keys_unique(names: Seq<Seq<char>>, cells: Seq<ValueView>)
    ensures
        unique_keys(row_entries(names, cells)),
    decreases names.len(),
{
    if names.len() > 0 && cells.len() > 0 {
        let prev = row_entries(names.drop_last(), cells.drop_last());
        lemma_row_keys_unique(names.drop_last(), cells.drop_last());
        lemma_key_index_bounds(prev, names.last());
        let cur = row_entries(names, cells);
        assert forall|i: int, j: int| 0 <= i < j < cur.len() implies cur[i].0 != cur[j].0 by {
            if key_index(prev, names.last()) < 0 && j == prev.len() {
                assert(prev[i].0 != names.last());
            }
        }
    }
}

/// A row of a result: its values by column name, in column order, each name
/// once.
#[derive(Debug)]
pub struct Row {
    entries: Vec<(String, Value)>,
}

impl View for Row {
    type V = Seq<(Seq<char>, ValueView)>;

    closed spec fn view(&self) -> Seq<(Seq<char>, ValueView)> {
        self.entries@.map_values(|e: (String, Value)| (e.0@, e.1@))
    }
}

impl Row {
    fn find(&self, column: &str) -> (r: Option<usize>)
        ensures
            match r {
                Some(i) => key_index(self@, column@) == i && i < self.entries@.len(),
                None => key_index(self@, column@) == -1,
            },
    {
        proof {
            lemma_key_index_bounds(self@, column@);
        }
        let mut i: usize = 0;
        while i < self.entries.len()
            invariant
                i <= self.entries@.len(),
                self@.len() == self.entries@.len(),
                forall|j: int| 0 <= j < i ==> self@[j].0 != column@,
            decreases self.entries@.len() - i,
        {
            if same_text(self.entries[i].0.as_str(), column) {
                proof {
                    lemma_key_index_bounds(self@, column@);
                    let m = key_index(self@, column@);
                    assert(self@[i as int].0 == column@);
                    if m < i {
                        assert(self@[m].0 != column@);
                    }
                }
                return Some(i);
            }
            i = i + 1;
        }
        None
    }

    /// The value under column `column`, if the row has that column.
    pub fn get(&self, column: &str) -> (r: Option<&Value>)
        ensures
            key_index(self@, column@) >= 0 ==> r is Some && r.unwrap()@ == self@[key_index(
                self@,
                column@,
            )].1,
            key_index(self@, column@) < 0 ==> r is None,
    {
        match self.find(column) {
            Some(i) => Some(&self.entries[i].1),
            None => None,
        }
    }

    /// The number of columns that the row holds.
    pub fn len(&self) -> (r: usize)
        ensures
            r == self@.len(),
    {
        self.entries.len()
    }

    /// Sets column `column` to `value`: in place where the row has it, else
    /// at the end.
    fn insert(&mut self, column: String, value: Value)
        ensures
            final(self)@ == upsert(old(self)@, column@, value@),
    {
        let ghost k = column@;
        let ghost v = value@;
        match self.find(column.as_str()) {
            Some(i) => {
                self.entries.set(i, (column, value));
                assert(final(self)@ =~= old(self)@.update(i as int, (k, v)));
            },
            None => {
                self.entries.push((column, value));
                assert(final(self)@ =~= old(self)@.push((k, v)));
            },
        }
    }

    /// The row whose columns are `names` and whose values are `cells`, in
    /// the same order; of two columns with one name the later value stays.
    pub fn from_cells(names: &Vec<String>, cells: &Vec<Option<String>>) -> (r: Row)
        requires
            cells@.len() == names@.len(),
        ensures
            r@ == row_entries(names@.map_values(|n: String| n@), cell_values(cells@)),
    {
        let ghost ns = names@.map_values(|n: String| n@);
        let ghost cs = cell_values(cells@);
        let mut row = Row { entries: Vec::new() };
        assert(row@ =~= row_entries(ns.subrange(0, 0), cs.subrange(0, 0)));
        let mut j: usize = 0;
        while j < names.len()
            invariant
                j <= names@.len(),
                cells@.len() == names@.len(),
                ns == names@.map_values(|n: String| n@),
                cs == cell_values(cells@),
                row@ == row_entries(ns.subrange(0, j as int), cs.subrange(0, j as int)),
            decreases names@.len() - j,
        {
            let value = match &cells[j] {
                Some(t) => Value::String(t.clone()),
                None => Value::Null,
            };
            assert(value@ == cs[j as int]);
            row.insert(names[j].clone(), value);
            proof {
                let n1 = ns.subrange(0, j + 1);
                let c1 = cs.subrange(0, j + 1);
                assert(n1.drop_last() =~= ns.subrange(0, j as int));
                assert(c1.drop_last() =~= cs.subrange(0, j as int));
            }
            j = j + 1;
        }
        assert(ns.subrange(0, j as int) =~= ns);
        assert(cs.subrange(0, j as int) =~= cs);
        row
    }
}

/// The full result of a successful query.
#[derive(Debug)]
pub struct QueryResult {
    /// The rows, each a map from column name to value.
    pub rows: Vec<Row>,
    /// The names of the columns, in the server's order.
    pub column_names: Vec<String>,
    /// The notices that the server emitted during the call.
    pub notices: Vec<Notice>,
    /// The number of rows.
    pub row_count: i32,
    /// The number of columns.
    pub col_count: i32,
    /// The number of notices.
    pub notice_count: usize,
    /// The completion status.
    pub status: QueryStatus,
    /// The wall-clock time of the call, in milliseconds.
    pub elapsed_time_ms: u64,
}

/// The names of a result's columns.
pub open spec fn column_names_of(r: &QueryResult) -> Seq<Seq<char>> {
    r.column_names@.map_values(|n: String| n@)
}

/// `r` is the result made of a success `status`, the column names and cells
/// read, the notices drained and the elapsed time.
pub open spec fn is_result_of(
    r: &QueryResult,
    status: QueryStatus,
    names: Seq<Option<String>>,
    cells: Seq<Vec<Option<String>>>,
    notices: Seq<Notice>,
    elapsed_ms: u64,
) -> bool {
    &&& r.status == status
    &&& column_names_of(r) == column_labels(names)
    &&& r.col_count == names.len()
    &&& status is RowsAvailable ==> r.row_count == cells.len() && r.rows@.len() == cells.len()
        && forall|i: int|
        0 <= i < cells.len() ==> (#[trigger] r.rows@[i])@ == row_entries(
            column_labels(names),
            cell_values(cells[i]@),
        )
    &&& status is CommandCompleted ==> r.row_count == 0 && r.rows@.len() == 0
    &&& r.notices@ == notices
    &&& r.notice_count == notices.len()
    &&& r.elapsed_time_ms == elapsed_ms
}

/// Every key of every row of `r` is one of its column names, and no row holds
/// a key twice.
pub open spec fn row_keys_are_columns(r: &QueryResult) -> bool {
    &&& forall|i: int, j: int|
        0 <= i < r.rows@.len() && 0 <= j < r.rows@[i]@.len() ==> column_names_of(r).contains(
            #[trigger] r.rows@[i]@[j].0,
        )
    &&& forall|i: int| 0 <= i < r.rows@.len() ==> unique_keys(#[trigger] r.rows@[i]@)
}

fn labels_of(names: &Vec<Option<String>>) -> (r: Vec<String>)
    ensures
        r@.map_values(|n: String| n@) == column_labels(names@),
{
    let mut r: Vec<String> = Vec::new();
    let mut i: usize = 0;
    while i < names.len()
        invariant
            i <= names@.len(),
            r@.len() == i,
            forall|k: int| 0 <= k < i ==> (#[trigger] r@[k])@ == column_label(names@[k]),
        decreases names@.len() - i,
    {
        let label = match &names[i] {
            Some(t) => t.clone(),
            None => String::from_str("(unknown)"),
        };
        assert(label@ == column_label(names@[i as int]));
        r.push(label);
        i = i + 1;
    }
    assert(r@.map_values(|n: String| n@) =~= column_labels(names@));
    r
}

/// The result of a call whose status is a success. `names` are the column
/// names as read (`None` where the server gave none), `cells[i][j]` the value
/// of row `i` in column `j` (`None` for a null), `notices` what the server
/// emitted during the call, and `elapsed_ms` the call's time. Rows are kept
/// only where the status says rows are available.
pub fn success_result(
    status: QueryStatus,
    names: &Vec<Option<String>>,
    cells: &Vec<Vec<Option<String>>>,
    notices: Vec<Notice>,
    elapsed_ms: u64,
) -> (r: QueryResult)
    requires
        !(status is Other),
        names@.len() <= i32::MAX,
        cells@.len() <= i32::MAX,
        status is RowsAvailable ==> forall|i: int|
            0 <= i < cells@.len() ==> #[trigger] cells@[i]@.len() == names@.len(),
    ensures
        is_result_of(&r, status, names@, cells@, notices@, elapsed_ms),
        r.col_count as int == r.column_names@.len(),
        row_keys_are_columns(&r),
{
    let column_names = labels_of(names);
    let ghost labels = column_labels(names@);
    assert(column_names@.len() == column_names@.map_values(|n: String| n@).len());
    let mut rows: Vec<Row> = Vec::new();
    if status == QueryStatus::RowsAvailable {
        let mut i: usize = 0;
        while i < cells.len()
            invariant
                i <= cells@.len(),
                status is RowsAvailable,
                forall|k: int| 0 <= k < cells@.len() ==> #[trigger] cells@[k]@.len() == names@.len(),
                column_names@.len() == names@.len(),
                column_names@.map_values(|n: String| n@) == labels,
                rows@.len() == i,
                forall|k: int|
                    0 <= k < i ==> (#[trigger] rows@[k])@ == row_entries(
                        labels,
                        cell_values(cells@[k]@),
                    ),
            decreases cells@.len() - i,
        {
            let row = Row::from_cells(&column_names, &cells[i]);
            rows.push(row);
            i = i + 1;
        }
    }
    let row_count: i32 = rows.len() as i32;
    let notice_count = notices.len();
    proof {
        assert forall|i: int, j: int|
            0 <= i < rows@.len() && 0 <= j < rows@[i]@.len() implies labels.contains(
            #[trigger] rows@[i]@[j].0,
        ) by {
            lemma_row_keys_are_columns(labels, cell_values(cells@[i]@));
        }
        assert forall|i: int| 0 <= i < rows@.len() implies unique_keys(#[trigger] rows@[i]@) by {
            lemma_row_keys_unique(labels, cell_values(cells@[i]@));
        }
    }
    QueryResult {
        rows,
        column_names,
        notices,
        row_count,
        col_count: names.len() as i32,
        notice_count,
        status,
        elapsed_time_ms: elapsed_ms,
    }
}

} // verus!
