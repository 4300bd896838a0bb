//! Statements and their forward-only result cursors. The backend work (running
//! a query, fetching the next document) happens outside; each call here takes
//! what the backend answered and moves the cursor's state accordingly.
use vstd::prelude::*;
use vstd::string::*;
use crate::diag::SqlState;
use crate::types::{
    describes, is_tables_shape, sql_tables_metadata, tables_column_names, BsonKind, MongoColMetadata, TypeMode,
};
use crate::conn_string::opt_view;
use crate::wide::WideChar;

verus! {

/// A backend value, as the driver reads it.
#[derive(Debug)]
pub enum Value {
    Null,
    Boolean(bool),
    Int32(i32),
    Int64(i64),
    String(Vec<WideChar>),
    /// A value of another kind, with the text the backend renders it as.
    Other(BsonKind, Vec<WideChar>),
}

/// One named field of a result document.
#[derive(Debug)]
pub struct Field {
    pub name: String,
    pub value: Value,
}

/// One result document: its fields in the order the backend gave them.
#[derive(Debug)]
pub struct Row {
    pub fields: Vec<Field>,
}

/// The text `TABLE`, the type a table listing reports for collections.
pub open spec fn table_type_text() -> Seq<WideChar> {
    seq![84u16, 65, 66, 76, 69]
}

/// The row of a table listing for table `table` of catalog `catalog`: no
/// schema, type `TABLE`, empty remarks.
pub fn tables_row(catalog: Vec<WideChar>, table: Vec<WideChar>) -> (r: Row)
    ensures
        r.fields@.len() == 5,
        forall|i: int| 0 <= i < 5 ==> (#[trigger] r.fields@[i]).name@ == tables_column_names()[i],
        r.fields@[0].value matches Value::String(c) && c@ == catalog@,
        r.fields@[1].value is Null,
        r.fields@[2].value matches Value::String(t) && t@ == table@,
        r.fields@[3].value matches Value::String(t) && t@ == table_type_text(),
        r.fields@[4].value matches Value::String(t) && t@.len() == 0,
{
    let ghost c = catalog@;
    let ghost t = table@;
    let mut fields: Vec<Field> = Vec::new();
    fields.push(Field { name: String::from_str("TABLE_CAT"), value: Value::String(catalog) });
    fields.push(Field { name: String::from_str("TABLE_SCHEM"), value: Value::Null });
    fields.push(Field { name: String::from_str("TABLE_NAME"), value: Value::String(table) });
    let mut kind: Vec<WideChar> = Vec::new();
    kind.push(84);
    kind.push(65);
    kind.push(66);
    kind.push(76);
    kind.push(69);
    assert(kind@ =~= table_type_text());
    fields.push(Field { name: String::from_str("TABLE_TYPE"), value: Value::String(kind) });
    fields.push(Field { name: String::from_str("REMARKS"), value: Value::String(Vec::new()) });
    let r = Row { fields };
    assert(r.fields@[0].name@ == tables_column_names()[0]);
    r
}

/// The name, table and kind of one column of a query's result shape.
#[derive(Debug)]
pub struct ColumnSpec {
    pub table: String,
    pub name: String,
    pub kind: BsonKind,
}

/// A failure the backend reported.
#[derive(Debug)]
pub enum BackendError {
    /// The operation did not finish within its timeout.
    TimedOut,
    /// Any other failure, with the backend's message.
    Failed(String),
}

/// Why a statement call failed.
#[derive(Debug)]
pub enum StatementError {
    /// Value retrieval with no current row.
    FunctionSequence,
    /// A column index outside `1..=column_count`.
    InvalidColumn,
    /// The backend did not answer within the timeout.
    Timeout,
    /// The backend failed, with its message.
    Backend(String),
}

/// The statement error a backend failure becomes.
pub open spec fn backend_error_becomes(b: BackendError, e: StatementError) -> bool {
    match b {
        BackendError::TimedOut => e is Timeout,
        BackendError::Failed(m) => e matches StatementError::Backend(n) && n@ == m@,
    }
}

fn from_backend(b: BackendError) -> (r: StatementError)
    ensures
        backend_error_becomes(b, r),
{
    match b {
        BackendError::TimedOut => StatementError::Timeout,
        BackendError::Failed(m) => StatementError::Backend(m),
    }
}

impl StatementError {
    /// The condition reported for this error.
    pub fn sql_state(&self) -> (r: SqlState)
        ensures
            r == statement_error_state(*self),
    {
        match self {
            StatementError::FunctionSequence => SqlState::FunctionSequenceError,
            StatementError::InvalidColumn => SqlState::InvalidDescriptorIndex,
            StatementError::Timeout => SqlState::TimeoutExpired,
            StatementError::Backend(_) => SqlState::GeneralError,
        }
    }
}

/// The condition reported for each statement error.
pub open spec fn statement_error_state(e: StatementError) -> SqlState {
    match e {
        StatementError::FunctionSequence => SqlState::FunctionSequenceError,
        StatementError::InvalidColumn => SqlState::InvalidDescriptorIndex,
        StatementError::Timeout => SqlState::TimeoutExpired,
        StatementError::Backend(_) => SqlState::GeneralError,
    }
}

/// Whether `row` has no field named `name`.
pub open spec fn no_field(row: Row, name: Seq<char>) -> bool {
    forall|i: int| 0 <= i < row.fields@.len() ==> (#[trigger] row.fields@[i]).name@ != name
}

/// Whether field `i` is the first of `row` named `name`.
pub open spec fn first_field(row: Row, name: Seq<char>, i: int) -> bool {
    &&& 0 <= i < row.fields@.len()
    &&& row.fields@[i].name@ == name
    &&& forall|j: int| 0 <= j < i ==> (#[trigger] row.fields@[j]).name@ != name
}

/// At most one field is the first named `name`.
pub proof fn lemma_first_field_unique(row: Row, name: Seq<char>, i: int, j: int)
    requires
        first_field(row, name, i),
        first_field(row, name, j),
    ensures
        i == j,
{
    if i < j {
        assert(row.fields@[i].name@ != name);
    } else if j < i {
        assert(row.fields@[j].name@ != name);
    }
}

/// The open cursor of an executed statement: the metadata of its result
/// shape, the current row, and whether the rows have run out.
#[derive(Debug)]
pub struct MongoQuery {
    resultset_metadata: Vec<MongoColMetadata>,
    current: Option<Row>,
    exhausted: bool,
}

impl MongoQuery {
    /// The metadata of the result's columns, in order.
    pub closed spec fn metadata(&self) -> Seq<MongoColMetadata> {
        self.resultset_metadata@
    }

    /// The row values are read from, once an advance has produced one.
    pub closed spec fn row(&self) -> Option<Row> {
        self.current
    }

    /// Whether an advance has reported that no rows remain.
    pub closed spec fn is_exhausted(&self) -> bool {
        self.exhausted
    }

    /// Whether this is the cursor a query opens on the result shape `cols`,
    /// reported in `mode`: no current row yet, one nullable column per entry.
    pub open spec fn opened_on(&self, cols: Seq<ColumnSpec>, mode: TypeMode) -> bool {
        &&& self.row() is None
        &&& !self.is_exhausted()
        &&& self.metadata().len() == cols.len()
        &&& forall|i: int| 0 <= i < cols.len() ==> describes(
            #[trigger] self.metadata()[i],
            cols[i].table@,
            cols[i].name@,
            cols[i].kind,
            true,
            mode,
        )
    }

    /// Whether this is the cursor a table listing opens.
    pub open spec fn opened_on_tables(&self) -> bool {
        self.row() is None && !self.is_exhausted() && is_tables_shape(self.metadata())
    }

    /// The value column `col` holds in the current row: that of the first
    /// field named as the column, if any.
    pub open spec fn cell(&self, col: int) -> Option<Value> {
        let row = self.row().unwrap();
        let name = self.metadata()[col - 1].col_name@;
        if exists|i: int| first_field(row, name, i) {
            Some(row.fields@[choose|i: int| first_field(row, name, i)].value)
        } else {
            None
        }
    }

    /// Opens the cursor of a query, given the result shape the backend
    /// reported, or fails as the backend did.
    pub fn execute(opened: Result<Vec<ColumnSpec>, BackendError>, mode: TypeMode) -> (r: Result<MongoQuery, StatementError>)
        ensures
            match opened {
                Ok(cols) => r matches Ok(q) && q.opened_on(cols@, mode),
                Err(b) => r matches Err(e) && backend_error_becomes(b, e),
            },
    {
        match opened {
            Ok(cols) => {
                let mut md: Vec<MongoColMetadata> = Vec::new();
                let mut i: usize = 0;
                while i < cols.len()
                    invariant
                        i <= cols@.len(),
                        md@.len() == i,
                        forall|j: int| 0 <= j < i ==> describes(
                            #[trigger] md@[j],
                            cols@[j].table@,
                            cols@[j].name@,
                            cols@[j].kind,
                            true,
                            mode,
                        ),
                    decreases cols@.len() - i,
                {
                    let c = &cols[i];
                    md.push(MongoColMetadata::new(c.table.as_str(), c.name.as_str(), c.kind, true, mode));
                    i = i + 1;
                }
                Ok(MongoQuery { resultset_metadata: md, current: None, exhausted: false })
            },
            Err(b) => Err(from_backend(b)),
        }
    }

    /// Opens the cursor of a table listing, whose shape is fixed, or fails as
    /// the backend did.
    pub fn tables(opened: Result<(), BackendError>) -> (r: Result<MongoQuery, StatementError>)
        ensures
            match opened {
                Ok(_) => r matches Ok(q) && q.opened_on_tables(),
                Err(b) => r matches Err(e) && backend_error_becomes(b, e),
            },
    {
        match opened {
            Ok(_) => Ok(MongoQuery { resultset_metadata: sql_tables_metadata(), current: None, exhausted: false }),
            Err(b) => Err(from_backend(b)),
        }
    }

    /// The text column `col` is retrieved as in the current row: `None` where
    /// the row has no such field or the value is null.
    pub open spec fn cell_text(&self, col: int) -> Option<Seq<WideChar>> {
        match self.cell(col) {
            Some(v) => value_text(v),
            None => None,
        }
    }

    /// Reads column `col_index` of the current row as text, with the errors
    /// of `get_value`.
    pub fn get_text(&self, col_index: u16) -> (r: Result<Option<Vec<WideChar>>, StatementError>)
        ensures
            self.row() is None ==> (r matches Err(e) && e is FunctionSequence),
            self.row() is Some && !(1 <= col_index <= self.metadata().len()) ==> (r matches Err(e) && e is InvalidColumn),
            self.row() is Some && 1 <= col_index <= self.metadata().len() ==> match r {
                Ok(t) => opt_view(t) == self.cell_text(col_index as int),
                Err(_) => false,
            },
    {
        match self.get_value(col_index) {
            Err(e) => Err(e),
            Ok(None) => {
                proof {
                    let row = self.row().unwrap();
                    let name = self.metadata()[col_index - 1].col_name@;
                    if exists|i: int| first_field(row, name, i) {
                        let i = choose|i: int| first_field(row, name, i);
                        assert(row.fields@[i].name@ == name);
                    }
                }
                Ok(None)
            },
            Ok(Some(v)) => {
                proof {
                    let row = self.row().unwrap();
                    let name = self.metadata()[col_index - 1].col_name@;
                    let i = choose|i: int| first_field(row, name, i) && *v == row.fields@[i].value;
                    let j = choose|j: int| first_field(row, name, j);
                    lemma_first_field_unique(row, name, i, j);
                }
                Ok(v.to_wide())
            },
        }
    }

    /// Whether the backend is still to be asked for a next row.
    pub fn needs_fetch(&self) -> (r: bool)
        ensures
            r == !self.is_exhausted(),
    {
        !self.exhausted
    }

    /// Moves to the row the backend fetched: `Some` row makes it current and
    /// returns true; `None` means no rows remain, and returns false from then
    /// on. A backend failure leaves the cursor as it was. The metadata never
    /// changes.
    pub fn next(&mut self, fetched: Result<Option<Row>, BackendError>) -> (r: Result<bool, StatementError>)
        ensures
            final(self).metadata() == old(self).metadata(),
            old(self).is_exhausted() ==> r == Ok::<bool, StatementError>(false) && final(self).row() is None
                && final(self).is_exhausted(),
            !old(self).is_exhausted() ==> match fetched {
                Ok(Some(row)) => r == Ok::<bool, StatementError>(true) && final(self).row() == Some(row)
                    && !final(self).is_exhausted(),
                Ok(None) => r == Ok::<bool, StatementError>(false) && final(self).row() is None
                    && final(self).is_exhausted(),
                Err(b) => r matches Err(e) && backend_error_becomes(b, e) && final(self).row() == old(self).row()
                    && final(self).is_exhausted() == old(self).is_exhausted(),
            },
    {
        if self.exhausted {
            self.current = None;
            return Ok(false);
        }
        match fetched {
            Ok(Some(row)) => {
                self.current = Some(row);
                Ok(true)
            },
            Ok(None) => {
                self.current = None;
                self.exhausted = true;
                Ok(false)
            },
            Err(b) => Err(from_backend(b)),
        }
    }

    /// The number of columns of the result shape.
    pub fn get_col_count(&self) -> (r: usize)
        ensures
            r == self.metadata().len(),
    {
        self.resultset_metadata.len()
    }

    /// The metadata of column `col_index`, counting from 1.
    pub fn get_col_attribute(&self, col_index: usize) -> (r: Result<&MongoColMetadata, StatementError>)
        ensures
            1 <= col_index <= self.metadata().len() ==> (r matches Ok(m) && *m == self.metadata()[col_index - 1]),
            !(1 <= col_index <= self.metadata().len()) ==> (r matches Err(e) && e is InvalidColumn),
    {
        if col_index >= 1 && col_index <= self.resultset_metadata.len() {
            Ok(&self.resultset_metadata[col_index - 1])
        } else {
            Err(StatementError::InvalidColumn)
        }
    }

    /// The value of column `col_index`, counting from 1, in the current row:
    /// the first field named as the column, or `None` where the row has no
    /// such field. Fails with a sequencing error while there is no current
    /// row, then with an invalid-column error outside `1..=column_count`.
    pub fn get_value(&self, col_index: u16) -> (r: Result<Option<&Value>, StatementError>)
        ensures
            self.row() is None ==> (r matches Err(e) && e is FunctionSequence),
            self.row() is Some && !(1 <= col_index <= self.metadata().len()) ==> (r matches Err(e) && e is InvalidColumn),
            self.row() is Some && 1 <= col_index <= self.metadata().len() ==> {
                let row = self.row().unwrap();
                let name = self.metadata()[col_index - 1].col_name@;
                match r {
                    Ok(Some(v)) => exists|i: int| first_field(row, name, i) && *v == row.fields@[i].value,
                    Ok(None) => no_field(row, name),
                    Err(_) => false,
                }
            },
    {
        let row = match &self.current {
            Some(row) => row,
            None => return Err(StatementError::FunctionSequence),
        };
        let n = col_index as usize;
        if n < 1 || n > self.resultset_metadata.len() {
            return Err(StatementError::InvalidColumn);
        }
        let name = &self.resultset_metadata[n - 1].col_name;
        let mut i: usize = 0;
        while i < row.fields.len()
            invariant
                i <= row.fields@.len(),
                self.current == Some(*row),
                1 <= n <= self.resultset_metadata@.len(),
                n == col_index,
                *name == self.resultset_metadata@[n - 1].col_name,
                forall|j: int| 0 <= j < i ==> (#[trigger] row.fields@[j]).name@ != name@,
            decreases row.fields@.len() - i,
        {
            if row.fields[i].name == *name {
                let v = &row.fields[i].value;
                assert(first_field(*row, self.metadata()[col_index - 1].col_name@, i as int)
                    && *v == row.fields@[i as int].value);
                assert(exists|k: int| first_field(self.row().unwrap(), self.metadata()[col_index - 1].col_name@, k)
                    && *v == self.row().unwrap().fields@[k].value);
                return Ok(Some(v));
            }
            i = i + 1;
        }
        Ok(None)
    }
}

/// The statement kinds, each with the cursor of its result.
#[derive(Debug)]
pub enum MongoStatement {
    /// A free-form query.
    Query(MongoQuery),
    /// A table listing, of fixed shape.
    Tables(MongoQuery),
}

impl MongoStatement {
    /// The cursor of the statement's result.
    pub open spec fn spec_cursor(&self) -> MongoQuery {
        match self {
            MongoStatement::Query(q) => *q,
            MongoStatement::Tables(q) => *q,
        }
    }

    /// The cursor of the statement's result.
    pub fn cursor(&self) -> (r: &MongoQuery)
        ensures
            *r == self.spec_cursor(),
    {
        match self {
            MongoStatement::Query(q) => q,
            MongoStatement::Tables(q) => q,
        }
    }

    /// Advances the cursor of the statement's result, as `MongoQuery::next`
    /// does, keeping the statement's kind.
    pub fn next(&mut self, fetched: Result<Option<Row>, BackendError>) -> (r: Result<bool, StatementError>)
        ensures
            (*old(self) is Query) == (*final(self) is Query),
            final(self).spec_cursor().metadata() == old(self).spec_cursor().metadata(),
            old(self).spec_cursor().is_exhausted() ==> r == Ok::<bool, StatementError>(false)
                && final(self).spec_cursor().row() is None && final(self).spec_cursor().is_exhausted(),
            !old(self).spec_cursor().is_exhausted() ==> match fetched {
                Ok(Some(row)) => r == Ok::<bool, StatementError>(true) && final(self).spec_cursor().row() == Some(row)
                    && !final(self).spec_cursor().is_exhausted(),
                Ok(None) => r == Ok::<bool, StatementError>(false) && final(self).spec_cursor().row() is None
                    && final(self).spec_cursor().is_exhausted(),
                Err(b) => (r matches Err(e) && backend_error_becomes(b, e))
                    && final(self).spec_cursor().row() == old(self).spec_cursor().row()
                    && final(self).spec_cursor().is_exhausted() == old(self).spec_cursor().is_exhausted(),
            },
    {
        match self {
            MongoStatement::Query(q) => q.next(fetched),
            MongoStatement::Tables(q) => q.next(fetched),
        }
    }
}

/// The decimal digits of `n`, as wide text.
pub open spec fn digits(n: nat) -> Seq<WideChar>
    decreases n,
{
    if n < 10 {
        seq![(48 + n) as WideChar]
    } else {
        digits(n / 10).push((48 + n % 10) as WideChar)
    }
}

/// An integer in decimal, with a leading `-` when negative.
pub open spec fn int_text(i: int) -> Seq<WideChar> {
    if i < 0 {
        seq![45u16] + digits((-i) as nat)
    } else {
        digits(i as nat)
    }
}

/// The text a value is retrieved as, or `None` for the null value.
pub open spec fn value_text(v: Value) -> Option<Seq<WideChar>> {
    match v {
        Value::Null => None,
        Value::Boolean(b) => Some(if b { seq![49u16] } else { seq![48u16] }),
        Value::Int32(i) => Some(int_text(i as int)),
        Value::Int64(i) => Some(int_text(i as int)),
        Value::String(s) => Some(s@),
        Value::Other(_, s) => Some(s@),
    }
}

fn push_digits(out: &mut Vec<WideChar>, n: u64)
    ensures
        final(out)@ == old(out)@ + digits(n as nat),
    decreases n,
{
    if n >= 10 {
        push_digits(out, n / 10);
    }
    out.push((48 + n % 10) as WideChar);
    proof {
        if n >= 10 {
            assert(final(out)@ =~= old(out)@ + digits(n as nat));
        } else {
            assert(final(out)@ =~= old(out)@ + digits(n as nat));
        }
    }
}

fn push_int(out: &mut Vec<WideChar>, i: i64)
    ensures
        final(out)@ == old(out)@ + int_text(i as int),
{
    if i < 0 {
        out.push(45);
        let m: u64 = ((-(i + 1)) as u64) + 1;
        push_digits(out, m);
        assert(final(out)@ =~= old(out)@ + int_text(i as int));
    } else {
        push_digits(out, i as u64);
    }
}

impl Value {
    /// The text this value is retrieved as, or `None` for the null value.
    pub fn to_wide(&self) -> (r: Option<Vec<WideChar>>)
        ensures
            match r {
                Some(t) => value_text(*self) == Some(t@),
                None => value_text(*self) is None,
            },
    {
        match self {
            Value::Null => None,
            Value::Boolean(b) => {
                let mut t: Vec<WideChar> = Vec::new();
                t.push(if *b { 49 } else { 48 });
                assert(t@ =~= value_text(*self).unwrap());
                Some(t)
            },
            Value::Int32(i) => {
                let mut t: Vec<WideChar> = Vec::new();
                push_int(&mut t, *i as i64);
                assert(t@ =~= value_text(*self).unwrap());
                Some(t)
            },
            Value::Int64(i) => {
                let mut t: Vec<WideChar> = Vec::new();
                push_int(&mut t, *i);
                assert(t@ =~= value_text(*self).unwrap());
                Some(t)
            },
            Value::String(s) => Some(vstd::slice::slice_to_vec(s.as_slice())),
            Value::Other(_, s) => Some(vstd::slice::slice_to_vec(s.as_slice())),
        }
    }
}

} // verus!
