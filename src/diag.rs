//! Per-handle diagnostic records and the outcome codes of protocol calls.
use vstd::prelude::*;

verus! {

/// The conditions this driver reports, each with its five-character SQLSTATE.
#[derive(Clone, Copy, Debug, PartialEq, Eq, Structural)]
pub enum SqlState {
    GeneralError,
    NotImplemented,
    TimeoutExpired,
    InvalidAttrValue,
    NoDsnOrDriver,
    RightTruncated,
    OptionChanged,
    UnableToConnect,
    ConnectionNotOpen,
    ConnectionInUse,
    FunctionSequenceError,
    InvalidDescriptorIndex,
}

/// The SQLSTATE text of each condition.
pub open spec fn sqlstate_text(s: SqlState) -> Seq<char> {
    match s {
        SqlState::GeneralError => "HY000"@,
        SqlState::NotImplemented => "HYC00"@,
        SqlState::TimeoutExpired => "HYT00"@,
        SqlState::InvalidAttrValue => "HY024"@,
        SqlState::NoDsnOrDriver => "IM007"@,
        SqlState::RightTruncated => "01004"@,
        SqlState::OptionChanged => "01S02"@,
        SqlState::UnableToConnect => "08001"@,
        SqlState::ConnectionNotOpen => "08003"@,
        SqlState::ConnectionInUse => "08002"@,
        SqlState::FunctionSequenceError => "HY010"@,
        SqlState::InvalidDescriptorIndex => "07009"@,
    }
}

impl SqlState {
    /// Whether the condition is a warning that accompanies a successful call.
    pub open spec fn spec_is_warning(self) -> bool {
        self == SqlState::RightTruncated || self == SqlState::OptionChanged
    }

    /// The SQLSTATE text of the condition.
    pub fn code(&self) -> (r: &'static str)
        ensures
            r@ == sqlstate_text(*self),
            r@.len() == 5,
    {
        proof {
            reveal_strlit("HY000");
            reveal_strlit("HYC00");
            reveal_strlit("HYT00");
            reveal_strlit("HY024");
            reveal_strlit("IM007");
            reveal_strlit("01004");
            reveal_strlit("01S02");
            reveal_strlit("08001");
            reveal_strlit("08003");
            reveal_strlit("08002");
            reveal_strlit("HY010");
            reveal_strlit("07009");
        }
        match self {
            SqlState::GeneralError => "HY000",
            SqlState::NotImplemented => "HYC00",
            SqlState::TimeoutExpired => "HYT00",
            SqlState::InvalidAttrValue => "HY024",
            SqlState::NoDsnOrDriver => "IM007",
            SqlState::RightTruncated => "01004",
            SqlState::OptionChanged => "01S02",
            SqlState::UnableToConnect => "08001",
            SqlState::ConnectionNotOpen => "08003",
            SqlState::ConnectionInUse => "08002",
            SqlState::FunctionSequenceError => "HY010",
            SqlState::InvalidDescriptorIndex => "07009",
        }
    }

    /// Whether the condition is a warning that accompanies a successful call.
    pub fn is_warning(&self) -> (r: bool)
        ensures
            r == self.spec_is_warning(),
    {
        match self {
            SqlState::RightTruncated | SqlState::OptionChanged => true,
            _ => false,
        }
    }
}

/// The outcome code of a protocol call.
#[derive(Clone, Copy, Debug, PartialEq, Eq, Structural)]
pub enum SqlReturn {
    Success,
    SuccessWithInfo,
    Error,
    InvalidHandle,
    NoData,
}

/// One diagnostic record: a condition, its message and the native error code.
#[derive(Debug)]
pub struct DiagRecord {
    pub state: SqlState,
    pub message: String,
    pub native_error: i32,
}

impl DiagRecord {
    /// A record with no native error code.
    pub fn new(state: SqlState, message: String) -> (r: DiagRecord)
        ensures
            r.state == state,
            r.message@ == message@,
            r.native_error == 0,
    {
        DiagRecord { state, message, native_error: 0 }
    }
}

/// The ordered diagnostic records of one handle, numbered from 1.
#[derive(Debug)]
pub struct Diagnostics {
    records: Vec<DiagRecord>,
}

impl View for Diagnostics {
    type V = Seq<DiagRecord>;

    closed spec fn view(&self) -> Seq<DiagRecord> {
        self.records@
    }
}

impl Diagnostics {
    /// An empty stack.
    pub fn new() -> (r: Diagnostics)
        ensures
            r@ == Seq::<DiagRecord>::empty(),
    {
        Diagnostics { records: Vec::new() }
    }

    /// Removes every record.
    pub fn clear(&mut self)
        ensures
            final(self)@ == Seq::<DiagRecord>::empty(),
    {
        self.records = Vec::new();
    }

    /// Appends a record after the existing ones.
    pub fn push(&mut self, record: DiagRecord)
        ensures
            final(self)@ == old(self)@.push(record),
    {
        self.records.push(record);
    }

    /// The number of records.
    pub fn len(&self) -> (r: usize)
        ensures
            r == self@.len(),
    {
        self.records.len()
    }

    /// Record number `n`, counting from 1; `None` past the last one.
    /// Reading never removes a record.
    pub fn get(&self, n: usize) -> (r: Option<&DiagRecord>)
        ensures
            1 <= n <= self@.len() ==> r == Some(&self@[n - 1]),
            !(1 <= n <= self@.len()) ==> r is None,
    {
        if n >= 1 && n <= self.records.len() {
            Some(&self.records[n - 1])
        } else {
            None
        }
    }
}

} // verus!
