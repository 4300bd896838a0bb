//! Connection strings: `Key=Value` pairs separated by `;`, in wide text, with
//! keys matched without regard to ASCII case. A value that opens with `{`
//! runs to the matching `}` and may hold `;` and `=`.
use vstd::prelude::*;
use vstd::slice::slice_to_vec;
use crate::wide::WideChar;

verus! {

pub const SEMICOLON: WideChar = 59;
pub const EQUALS: WideChar = 61;
pub const OPEN_BRACE: WideChar = 123;
pub const CLOSE_BRACE: WideChar = 125;

/// A text unit or character code with ASCII lower case folded to upper case.
pub open spec fn fold_case(c: u32) -> u32 {
    if 97 <= c <= 122 { (c - 32) as u32 } else { c }
}

fn fold_case_exec(c: u32) -> (r: u32)
    ensures
        r == fold_case(c),
{
    if 97 <= c && c <= 122 { c - 32 } else { c }
}

/// Whether the wide text `w` spells `k`, ignoring ASCII case.
pub open spec fn key_matches(w: Seq<WideChar>, k: Seq<char>) -> bool {
    &&& w.len() == k.len()
    &&& forall|i: int| 0 <= i < w.len() ==> fold_case(#[trigger] w[i] as u32) == fold_case(k[i] as u32)
}

/// Whether the wide text `w` spells `k`, ignoring ASCII case.
pub fn matches_key(w: &[WideChar], k: &str) -> (r: bool)
    ensures
        r == key_matches(w@, k@),
{
    let n = k.unicode_len();
    if w.len() != n {
        return false;
    }
    let mut i: usize = 0;
    while i < n
        invariant
            n == k@.len(),
            w@.len() == n,
            i <= n,
            forall|j: int| 0 <= j < i ==> fold_case(#[trigger] w@[j] as u32) == fold_case(k@[j] as u32),
        decreases n - i,
    {
        let c = k.get_char(i);
        if fold_case_exec(w[i] as u32) != fold_case_exec(c as u32) {
            return false;
        }
        i = i + 1;
    }
    true
}

/// One `Key=Value` pair, in wide text, as written.
#[derive(Debug)]
pub struct Attribute {
    pub key: Vec<WideChar>,
    pub value: Vec<WideChar>,
}

/// The pairs of a connection string, in the order written.
#[derive(Debug)]
pub struct ConnAttributes {
    pub pairs: Vec<Attribute>,
}

/// The pairs as sequences of units.
pub open spec fn pairs_view(pairs: Seq<Attribute>) -> Seq<(Seq<WideChar>, Seq<WideChar>)> {
    pairs.map_values(|a: Attribute| (a.key@, a.value@))
}

impl View for ConnAttributes {
    type V = Seq<(Seq<WideChar>, Seq<WideChar>)>;

    open spec fn view(&self) -> Seq<(Seq<WideChar>, Seq<WideChar>)> {
        pairs_view(self.pairs@)
    }
}

/// Where the scanner stands within the text.
#[derive(Clone, Copy, Debug, PartialEq, Eq, Structural)]
pub enum Phase {
    /// Reading a key.
    Key,
    /// Reading a value.
    Value,
    /// Reading a value inside braces.
    Braced,
    /// A key ended without `=`, or `=` came with no key.
    Malformed,
}

/// The scanner's state after a prefix of the text: the pairs completed so
/// far, the key and value being read, and the phase.
pub struct Scan {
    pub pairs: Seq<(Seq<WideChar>, Seq<WideChar>)>,
    pub key: Seq<WideChar>,
    pub value: Seq<WideChar>,
    pub phase: Phase,
}

pub open spec fn scan_start() -> Scan {
    Scan { pairs: Seq::empty(), key: Seq::empty(), value: Seq::empty(), phase: Phase::Key }
}

/// The scanner's state after reading `c` in state `st`.
pub open spec fn scan_step(st: Scan, c: WideChar) -> Scan {
    match st.phase {
        Phase::Malformed => st,
        Phase::Key => if c == SEMICOLON {
            if st.key.len() == 0 { st } else { Scan { phase: Phase::Malformed, ..st } }
        } else if c == EQUALS {
            if st.key.len() == 0 {
                Scan { phase: Phase::Malformed, ..st }
            } else {
                Scan { value: Seq::empty(), phase: Phase::Value, ..st }
            }
        } else {
            Scan { key: st.key.push(c), ..st }
        },
        Phase::Value => if c == SEMICOLON {
            Scan {
                pairs: st.pairs.push((st.key, st.value)),
                key: Seq::empty(),
                value: Seq::empty(),
                phase: Phase::Key,
            }
        } else if c == OPEN_BRACE && st.value.len() == 0 {
            Scan { value: st.value.push(c), phase: Phase::Braced, ..st }
        } else {
            Scan { value: st.value.push(c), ..st }
        },
        Phase::Braced => if c == CLOSE_BRACE {
            Scan { value: st.value.push(c), phase: Phase::Value, ..st }
        } else {
            Scan { value: st.value.push(c), ..st }
        },
    }
}

/// The scanner's state after reading all of `s`.
pub open spec fn scan(s: Seq<WideChar>) -> Scan
    decreases s.len(),
{
    if s.len() == 0 {
        scan_start()
    } else {
        scan_step(scan(s.drop_last()), s.last())
    }
}

/// The pairs of connection string `s`, or `None` where it is malformed: a
/// key without `=`, `=` without a key, or a brace left open.
pub open spec fn parse_spec(s: Seq<WideChar>) -> Option<Seq<(Seq<WideChar>, Seq<WideChar>)>> {
    let st = scan(s);
    match st.phase {
        Phase::Key => if st.key.len() == 0 { Some(st.pairs) } else { None },
        Phase::Value => Some(st.pairs.push((st.key, st.value))),
        _ => None,
    }
}

impl ConnAttributes {
    /// No pairs.
    pub fn empty() -> (r: ConnAttributes)
        ensures
            r@ == Seq::<(Seq<WideChar>, Seq<WideChar>)>::empty(),
    {
        let r = ConnAttributes { pairs: Vec::new() };
        assert(r@ =~= Seq::<(Seq<WideChar>, Seq<WideChar>)>::empty());
        r
    }

    /// Appends a pair.
    pub fn push(&mut self, key: Vec<WideChar>, value: Vec<WideChar>)
        ensures
            final(self)@ == old(self)@.push((key@, value@)),
    {
        self.pairs.push(Attribute { key, value });
        assert(final(self)@ =~= old(self)@.push((key@, value@)));
    }

    /// Splits a connection string into its pairs.
    pub fn parse(s: &[WideChar]) -> (r: Option<ConnAttributes>)
        ensures
            r matches Some(a) ==> parse_spec(s@) == Some(a@),
            r is None ==> parse_spec(s@) is None,
    {
        let mut pairs = ConnAttributes::empty();
        let mut key: Vec<WideChar> = Vec::new();
        let mut value: Vec<WideChar> = Vec::new();
        let mut phase = Phase::Key;
        let mut i: usize = 0;
        while i < s.len()
            invariant
                i <= s@.len(),
                scan(s@.take(i as int)) == (Scan { pairs: pairs@, key: key@, value: value@, phase }),
            decreases s@.len() - i,
        {
            let c = s[i];
            proof {
                assert(s@.take(i + 1).drop_last() =~= s@.take(i as int));
            }
            match phase {
                Phase::Malformed => {},
                Phase::Key => {
                    if c == SEMICOLON {
                        if key.len() != 0 {
                            phase = Phase::Malformed;
                        }
                    } else if c == EQUALS {
                        if key.len() == 0 {
                            phase = Phase::Malformed;
                        } else {
                            value = Vec::new();
                            phase = Phase::Value;
                        }
                    } else {
                        key.push(c);
                    }
                },
                Phase::Value => {
                    if c == SEMICOLON {
                        let mut k: Vec<WideChar> = Vec::new();
                        let mut v: Vec<WideChar> = Vec::new();
                        std::mem::swap(&mut k, &mut key);
                        std::mem::swap(&mut v, &mut value);
                        pairs.push(k, v);
                        phase = Phase::Key;
                    } else if c == OPEN_BRACE && value.len() == 0 {
                        value.push(c);
                        phase = Phase::Braced;
                    } else {
                        value.push(c);
                    }
                },
                Phase::Braced => {
                    value.push(c);
                    if c == CLOSE_BRACE {
                        phase = Phase::Value;
                    }
                },
            }
            i = i + 1;
            proof {
                assert(key@ =~= scan(s@.take(i as int)).key);
                assert(value@ =~= scan(s@.take(i as int)).value);
            }
        }
        proof {
            assert(s@.take(s@.len() as int) =~= s@);
        }
        match phase {
            Phase::Key => if key.len() == 0 { Some(pairs) } else { None },
            Phase::Value => {
                pairs.push(key, value);
                Some(pairs)
            },
            _ => None,
        }
    }
}

/// The value of the last pair whose key spells `k`, ignoring ASCII case.
pub open spec fn lookup(pairs: Seq<(Seq<WideChar>, Seq<WideChar>)>, k: Seq<char>) -> Option<Seq<WideChar>>
    decreases pairs.len(),
{
    if pairs.len() == 0 {
        None
    } else if key_matches(pairs.last().0, k) {
        Some(pairs.last().1)
    } else {
        lookup(pairs.drop_last(), k)
    }
}

/// The value under `k1`, or failing that under `k2`.
pub open spec fn lookup_either(pairs: Seq<(Seq<WideChar>, Seq<WideChar>)>, k1: Seq<char>, k2: Seq<char>) -> Option<Seq<WideChar>> {
    match lookup(pairs, k1) {
        Some(v) => Some(v),
        None => lookup(pairs, k2),
    }
}

/// An optional wide text as an optional sequence of units.
pub open spec fn opt_view(o: Option<Vec<WideChar>>) -> Option<Seq<WideChar>> {
    match o {
        Some(v) => Some(v@),
        None => None,
    }
}

/// The text of one pair: its key, `=`, its value.
pub open spec fn pair_text(p: (Seq<WideChar>, Seq<WideChar>)) -> Seq<WideChar> {
    p.0 + seq![EQUALS] + p.1
}

/// The pairs written as a connection string, separated by `;`.
pub open spec fn join(pairs: Seq<(Seq<WideChar>, Seq<WideChar>)>) -> Seq<WideChar>
    decreases pairs.len(),
{
    if pairs.len() == 0 {
        Seq::empty()
    } else if pairs.len() == 1 {
        pair_text(pairs[0])
    } else {
        join(pairs.drop_last()) + seq![SEMICOLON] + pair_text(pairs.last())
    }
}

/// Appends the units of `s` to `out`.
pub fn append_units(out: &mut Vec<WideChar>, s: &[WideChar])
    ensures
        final(out)@ == old(out)@ + s@,
{
    let mut i: usize = 0;
    while i < s.len()
        invariant
            i <= s@.len(),
            out@ == old(out)@ + s@.take(i as int),
        decreases s@.len() - i,
    {
        out.push(s[i]);
        i = i + 1;
        assert(out@ =~= old(out)@ + s@.take(i as int));
    }
    assert(s@.take(s@.len() as int) =~= s@);
}

impl ConnAttributes {
    /// The value of the last pair whose key spells `k`, ignoring ASCII case.
    pub fn get(&self, k: &str) -> (r: Option<&Vec<WideChar>>)
        ensures
            match r {
                Some(v) => lookup(self@, k@) == Some(v@),
                None => lookup(self@, k@) is None,
            },
    {
        let mut i: usize = self.pairs.len();
        assert(self@.take(i as int) =~= self@);
        while i > 0
            invariant
                i <= self@.len(),
                lookup(self@, k@) == lookup(self@.take(i as int), k@),
            decreases i,
        {
            proof {
                assert(self@.take(i as int).drop_last() =~= self@.take(i - 1));
            }
            if matches_key(self.pairs[i - 1].key.as_slice(), k) {
                return Some(&self.pairs[i - 1].value);
            }
            i = i - 1;
        }
        None
    }

    /// An owned copy of the value under `k`.
    pub fn get_owned(&self, k: &str) -> (r: Option<Vec<WideChar>>)
        ensures
            opt_view(r) == lookup(self@, k@),
    {
        match self.get(k) {
            Some(v) => Some(slice_to_vec(v.as_slice())),
            None => None,
        }
    }

    /// The value under `k1`, or failing that under `k2`.
    pub fn get_either(&self, k1: &str, k2: &str) -> (r: Option<Vec<WideChar>>)
        ensures
            opt_view(r) == lookup_either(self@, k1@, k2@),
    {
        match self.get_owned(k1) {
            Some(v) => Some(v),
            None => self.get_owned(k2),
        }
    }

    /// The pairs written back as a connection string.
    pub fn to_wide(&self) -> (r: Vec<WideChar>)
        ensures
            r@ == join(self@),
    {
        let mut out: Vec<WideChar> = Vec::new();
        let mut i: usize = 0;
        while i < self.pairs.len()
            invariant
                i <= self@.len(),
                out@ == join(self@.take(i as int)),
            decreases self@.len() - i,
        {
            if i > 0 {
                out.push(SEMICOLON);
            }
            append_units(&mut out, self.pairs[i].key.as_slice());
            out.push(EQUALS);
            append_units(&mut out, self.pairs[i].value.as_slice());
            proof {
                let t = self@.take(i + 1);
                assert(t.drop_last() =~= self@.take(i as int));
                assert(t.last() == self@[i as int]);
                if i == 0 {
                    assert(out@ =~= pair_text(t[0]));
                } else {
                    assert(out@ =~= join(t.drop_last()) + seq![SEMICOLON] + pair_text(t.last()));
                }
            }
            i = i + 1;
        }
        assert(self@.take(self@.len() as int) =~= self@);
        out
    }
}

} // verus!
