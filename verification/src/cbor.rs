//! A CBOR data item as the library holds it: the values an inbound request
//! carries and the details a denial reports.
use vstd::prelude::*;

verus! {

/// A CBOR data item. Floats are carried by their IEEE-754 bit pattern; maps
/// keep their entries in the order they were given.
#[derive(Debug)]
pub enum CborValue {
    Null,
    Bool(bool),
    Integer(i128),
    Float(u64),
    Bytes(Vec<u8>),
    Text(String),
    Array(Vec<CborValue>),
    Mapping(Vec<(CborValue, CborValue)>),
    Tag(u64, Box<CborValue>),
}

/// The mathematical form of a `CborValue`: texts as character sequences.
pub enum CborView {
    Null,
    Bool(bool),
    Integer(int),
    Float(u64),
    Bytes(Seq<u8>),
    Text(Seq<char>),
    Array(Seq<CborView>),
    Mapping(Seq<(CborView, CborView)>),
    Tag(u64, Box<CborView>),
}

/// The view of a CBOR value.
pub open spec fn cbor_view(v: CborValue) -> CborView
    decreases v,
{
    match v {
        CborValue::Null => CborView::Null,
        CborValue::Bool(b) => CborView::Bool(b),
        CborValue::Integer(n) => CborView::Integer(n as int),
        CborValue::Float(bits) => CborView::Float(bits),
        CborValue::Bytes(b) => CborView::Bytes(b@),
        CborValue::Text(s) => CborView::Text(s@),
        CborValue::Array(items) => CborView::Array(
            Seq::new(
                items@.len(),
                |i: int|
                    if 0 <= i < items@.len() {
                        cbor_view(items@[i])
                    } else {
                        CborView::Null
                    },
            ),
        ),
        CborValue::Mapping(entries) => CborView::Mapping(
            Seq::new(
                entries@.len(),
                |i: int|
                    if 0 <= i < entries@.len() {
                        (cbor_view(entries@[i].0), cbor_view(entries@[i].1))
                    } else {
                        (CborView::Null, CborView::Null)
                    },
            ),
        ),
        CborValue::Tag(t, b) => CborView::Tag(t, Box::new(cbor_view(*b))),
    }
}

impl View for CborValue {
    type V = CborView;

    open spec fn view(&self) -> CborView {
        cbor_view(*self)
    }
}

/// The view of a text-keyed table of CBOR values, entry by entry.
pub open spec fn table_view(entries: Seq<(String, CborValue)>) -> Seq<(Seq<char>, CborView)> {
    Seq::new(entries.len(), |i: int| (entries[i].0@, cbor_view(entries[i].1)))
}

/// The value of the first entry of `entries` whose key is `key`.
pub open spec fn entry_for(entries: Seq<(String, CborValue)>, key: Seq<char>) -> Option<CborValue>
    decreases entries.len(),
{
    if entries.len() == 0 {
        None
    } else {
        match entry_for(entries.drop_last(), key) {
            Some(v) => Some(v),
            None => if entries.last().0@ == key {
                Some(entries.last().1)
            } else {
                None
            },
        }
    }
}

/// Entries found before position `n` decide the lookup over any longer prefix.
pub proof fn lemma_entry_for_prefix(entries: Seq<(String, CborValue)>, key: Seq<char>, n: int)
    requires
        0 <= n < entries.len(),
    ensures
        entry_for(entries.take(n + 1), key) == match entry_for(entries.take(n), key) {
            Some(v) => Some(v),
            None => if entries[n].0@ == key {
                Some(entries[n].1)
            } else {
                None
            },
        },
{
    assert(entries.take(n + 1).drop_last() =~= entries.take(n));
}

} // verus!
