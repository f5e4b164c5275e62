//! Plain values carried in RPC arguments and replies: the JSON leaves that the
//! daemon protocol uses, keyed by field name.
use vstd::prelude::*;

verus! {

/// A JSON value as the daemon protocol uses it. A number with a fractional
/// part is carried in hundredths.
#[derive(Debug)]
pub enum WireValue {
    Null,
    Bool(bool),
    Int(i64),
    Centi(i64),
    Text(String),
    TextList(Vec<String>),
    IntList(Vec<i64>),
}

/// What a `WireValue` holds, with strings as character sequences.
pub enum WireSpec {
    Null,
    Bool(bool),
    Int(i64),
    Centi(i64),
    Text(Seq<char>),
    TextList(Seq<Seq<char>>),
    IntList(Seq<i64>),
}

impl View for WireValue {
    type V = WireSpec;

    open spec fn view(&self) -> WireSpec {
        match self {
            WireValue::Null => WireSpec::Null,
            WireValue::Bool(b) => WireSpec::Bool(*b),
            WireValue::Int(n) => WireSpec::Int(*n),
            WireValue::Centi(n) => WireSpec::Centi(*n),
            WireValue::Text(s) => WireSpec::Text(s@),
            WireValue::TextList(v) => WireSpec::TextList(crate::rpc::strings_view(v@)),
            WireValue::IntList(v) => WireSpec::IntList(v@),
        }
    }
}

/// One named member of an argument or reply object.
#[derive(Debug)]
pub struct WireEntry {
    pub key: String,
    pub value: WireValue,
}

impl View for WireEntry {
    type V = (Seq<char>, WireSpec);

    open spec fn view(&self) -> (Seq<char>, WireSpec) {
        (self.key@, self.value@)
    }
}

pub open spec fn entries_view(es: Seq<WireEntry>) -> Seq<(Seq<char>, WireSpec)> {
    es.map_values(|e: WireEntry| e@)
}

/// The value of the first member named `a` or `b`.
pub open spec fn lookup(es: Seq<(Seq<char>, WireSpec)>, a: Seq<char>, b: Seq<char>) -> Option<
    WireSpec,
>
    decreases es.len(),
{
    if es.len() == 0 {
        None
    } else if es[0].0 == a || es[0].0 == b {
        Some(es[0].1)
    } else {
        lookup(es.drop_first(), a, b)
    }
}

pub open spec fn bool_of(v: Option<WireSpec>) -> Option<bool> {
    match v {
        Some(WireSpec::Bool(b)) => Some(b),
        _ => None,
    }
}

pub open spec fn int_of(v: Option<WireSpec>) -> Option<i64> {
    match v {
        Some(WireSpec::Int(n)) => Some(n),
        _ => None,
    }
}

pub open spec fn text_of(v: Option<WireSpec>) -> Option<Seq<char>> {
    match v {
        Some(WireSpec::Text(s)) => Some(s),
        _ => None,
    }
}

/// A number in hundredths: an integer is scaled, a fraction is taken as it is.
pub open spec fn centi_of(v: Option<WireSpec>) -> Option<i64> {
    match v {
        Some(WireSpec::Int(n)) => if -92233720368547758 <= n <= 92233720368547758 {
            Some((n * 100) as i64)
        } else {
            None
        },
        Some(WireSpec::Centi(n)) => Some(n),
        _ => None,
    }
}

/// The first member named `a` or `b`.
pub fn find_value<'a>(es: &'a Vec<WireEntry>, a: &str, b: &str) -> (r: Option<&'a WireValue>)
    ensures
        match r {
            Some(v) => lookup(entries_view(es@), a@, b@) == Some(v@),
            None => lookup(entries_view(es@), a@, b@) is None,
        },
{
    let mut i: usize = 0;
    assert(entries_view(es@).subrange(0, es@.len() as int) =~= entries_view(es@));
    while i < es.len()
        invariant
            i <= es@.len(),
            lookup(entries_view(es@), a@, b@) == lookup(
                entries_view(es@).subrange(i as int, es@.len() as int),
                a@,
                b@,
            ),
        decreases es@.len() - i,
    {
        let ghost rest = entries_view(es@).subrange(i as int, es@.len() as int);
        assert(rest[0] == es@[i as int]@);
        if crate::text::str_eq(es[i].key.as_str(), a) || crate::text::str_eq(es[i].key.as_str(), b) {
            return Some(&es[i].value);
        }
        assert(rest.drop_first() =~= entries_view(es@).subrange(i + 1, es@.len() as int));
        i = i + 1;
    }
    assert(entries_view(es@).subrange(i as int, es@.len() as int).len() == 0);
    None
}

pub fn find_bool(es: &Vec<WireEntry>, a: &str, b: &str) -> (r: Option<bool>)
    ensures
        r == bool_of(lookup(entries_view(es@), a@, b@)),
{
    match find_value(es, a, b) {
        Some(WireValue::Bool(v)) => Some(*v),
        _ => None,
    }
}

pub fn find_int(es: &Vec<WireEntry>, a: &str, b: &str) -> (r: Option<i64>)
    ensures
        r == int_of(lookup(entries_view(es@), a@, b@)),
{
    match find_value(es, a, b) {
        Some(WireValue::Int(v)) => Some(*v),
        _ => None,
    }
}

pub fn find_text(es: &Vec<WireEntry>, a: &str, b: &str) -> (r: Option<String>)
    ensures
        match r {
            Some(s) => text_of(lookup(entries_view(es@), a@, b@)) == Some(s@),
            None => text_of(lookup(entries_view(es@), a@, b@)) is None,
        },
{
    match find_value(es, a, b) {
        Some(WireValue::Text(v)) => Some(v.clone()),
        _ => None,
    }
}

pub fn find_centi(es: &Vec<WireEntry>, a: &str, b: &str) -> (r: Option<i64>)
    ensures
        r == centi_of(lookup(entries_view(es@), a@, b@)),
{
    match find_value(es, a, b) {
        Some(WireValue::Int(v)) => {
            if -92233720368547758 <= *v && *v <= 92233720368547758 {
                Some(*v * 100)
            } else {
                None
            }
        },
        Some(WireValue::Centi(v)) => Some(*v),
        _ => None,
    }
}

/// A member named by a string literal.
pub fn entry(key: &str, value: WireValue) -> (r: WireEntry)
    ensures
        r.key@ == key@,
        r.value == value,
{
    WireEntry { key: String::from_str(key), value }
}

} // verus!
