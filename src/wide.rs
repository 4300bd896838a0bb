//! Wide-character marshalling: text moves across the call boundary as UTF-16
//! code units written into caller buffers of a declared capacity.
use vstd::prelude::*;

verus! {

/// One UTF-16 code unit of the protocol's wide-character text.
pub type WideChar = u16;

/// Signed length type of the protocol's indicator values.
pub type Len = isize;

/// Indicates `NULL` values.
pub const SQL_NULL_DATA: Len = -1;

/// Indicates that the size of a value is not known.
pub const SQL_NO_TOTAL: Len = -4;

/// Indicates that a parameter's data is sent at execution time.
pub const SQL_DATA_AT_EXEC: Len = -2;

/// Offset below which lengths of data-at-execution parameters are encoded.
pub const SQL_LEN_DATA_AT_EXEC_OFFSET: Len = -100;

/// The indicator that announces `length` units of data sent at execution time.
pub open spec fn data_at_exec_indicator(length: int) -> int {
    -length + SQL_LEN_DATA_AT_EXEC_OFFSET
}

/// Encodes `length` as a data-at-execution indicator.
pub fn len_data_at_exec(length: Len) -> (r: Len)
    requires
        length > isize::MIN,
        data_at_exec_indicator(length as int) >= isize::MIN,
    ensures
        r as int == data_at_exec_indicator(length as int),
{
    -length + SQL_LEN_DATA_AT_EXEC_OFFSET
}

/// Whether `value` plus its terminator fails to fit in `capacity` units.
pub open spec fn truncates(value: Seq<WideChar>, capacity: nat) -> bool {
    value.len() >= capacity
}

/// The units written for `value` into a buffer of `capacity` units: the whole
/// value and a terminator when both fit, otherwise the first `capacity - 1`
/// units and a terminator, and nothing at all into a zero-capacity buffer.
pub open spec fn marshalled(value: Seq<WideChar>, capacity: nat) -> Seq<WideChar> {
    if capacity == 0 {
        Seq::empty()
    } else if truncates(value, capacity) {
        value.take(capacity - 1).push(0)
    } else {
        value.push(0)
    }
}

/// What writing a value into a caller buffer produced.
pub struct Marshalled {
    /// The units written into the buffer, terminator included.
    pub written: Vec<WideChar>,
    /// The full length of the value, in units, without its terminator.
    pub full_len: usize,
    /// Whether the value was cut short.
    pub truncated: bool,
}

/// Writes `value` into a buffer of `capacity` units.
pub fn write_to_buffer(value: &[WideChar], capacity: usize) -> (r: Marshalled)
    ensures
        r.written@ == marshalled(value@, capacity as nat),
        r.full_len == value@.len(),
        r.truncated == truncates(value@, capacity as nat),
        r.written@.len() <= capacity,
{
    let truncated = value.len() >= capacity;
    let mut written: Vec<WideChar> = Vec::new();
    if capacity > 0 {
        let n: usize = if truncated { capacity - 1 } else { value.len() };
        let mut i: usize = 0;
        while i < n
            invariant
                n <= value@.len(),
                i <= n,
                written@ == value@.take(i as int),
            decreases n - i,
        {
            written.push(value[i]);
            i = i + 1;
            assert(written@ =~= value@.take(i as int));
        }
        written.push(0);
        assert(value@.take(value@.len() as int) =~= value@);
    }
    Marshalled { written, full_len: value.len(), truncated }
}

/// Writing into a buffer of nonzero capacity yields a terminated prefix of
/// the value, as long as the buffer allows; when the value and terminator
/// fit, the whole value comes back.
pub proof fn lemma_marshalled_prefix(value: Seq<WideChar>, capacity: nat)
    requires
        capacity > 0,
    ensures
        marshalled(value, capacity).len() == if truncates(value, capacity) { capacity } else { value.len() + 1 },
        marshalled(value, capacity).last() == 0,
        marshalled(value, capacity).drop_last() == value.take(
            if truncates(value, capacity) { capacity - 1 } else { value.len() as int },
        ),
        !truncates(value, capacity) ==> marshalled(value, capacity).drop_last() == value,
{
    let m = marshalled(value, capacity);
    if truncates(value, capacity) {
        assert(m.drop_last() =~= value.take(capacity - 1));
    } else {
        assert(m.drop_last() =~= value);
        assert(value.take(value.len() as int) =~= value);
    }
}

} // verus!
