//! A mathematical model of a PDF document as `lopdf` holds it: its objects by identifier,
//! its trailer, the highest object number given out, and what the writer reads besides.
//! Dictionaries are kept as ordered entry lists, since they are written in that order.

use vstd::prelude::*;

verus! {

/// A PDF object.
pub enum PdfValue {
    Null,
    Boolean(bool),
    Integer(i64),
    /// A real number, by the bit pattern of its single-precision value.
    Real(u32),
    Name(Seq<u8>),
    /// A string and whether it is written in hexadecimal.
    String(Seq<u8>, bool),
    Array(Seq<PdfValue>),
    /// The entries of a dictionary, in order.
    Dictionary(Seq<(Seq<u8>, PdfValue)>),
    /// The entries of a stream's dictionary, and its content.
    Stream(Seq<(Seq<u8>, PdfValue)>, Seq<u8>),
    Reference((u32, u16)),
}

/// A document: its PDF version, the binary marker written after the header, the highest
/// object number given out, its objects, its trailer, and whether its cross-reference
/// data is written as a stream.
pub struct DocumentModel {
    pub version: Seq<char>,
    pub binary_mark: Seq<u8>,
    pub max_id: u32,
    pub objects: Map<(u32, u16), PdfValue>,
    pub trailer: Seq<(Seq<u8>, PdfValue)>,
    pub xref_stream: bool,
}

/// Whether `i` is the first position of `key` in `entries`.
pub open spec fn first_position(entries: Seq<(Seq<u8>, PdfValue)>, key: Seq<u8>, i: int) -> bool {
    &&& 0 <= i < entries.len()
    &&& entries[i].0 == key
    &&& forall|j: int| 0 <= j < i ==> entries[j].0 != key
}

/// The value of `key` in `entries`, if present.
pub open spec fn dict_get(entries: Seq<(Seq<u8>, PdfValue)>, key: Seq<u8>) -> Option<PdfValue> {
    if exists|i: int| first_position(entries, key, i) {
        Some(entries[choose|i: int| first_position(entries, key, i)].1)
    } else {
        None
    }
}

/// `entries` with `key` set to `value`: replaced where the key is, appended otherwise.
pub open spec fn dict_put(entries: Seq<(Seq<u8>, PdfValue)>, key: Seq<u8>, value: PdfValue) -> Seq<
    (Seq<u8>, PdfValue),
> {
    if exists|i: int| first_position(entries, key, i) {
        entries.update(choose|i: int| first_position(entries, key, i), (key, value))
    } else {
        entries.push((key, value))
    }
}

/// The entries of a dictionary value (none for another kind of value).
pub open spec fn entries_of(v: PdfValue) -> Seq<(Seq<u8>, PdfValue)> {
    match v {
        PdfValue::Dictionary(e) => e,
        _ => Seq::empty(),
    }
}

proof fn lemma_first_position_unique(e: Seq<(Seq<u8>, PdfValue)>, key: Seq<u8>, i: int, j: int)
    requires
        first_position(e, key, i),
        first_position(e, key, j),
    ensures
        i == j,
{
}

proof fn lemma_first_exists(e: Seq<(Seq<u8>, PdfValue)>, key: Seq<u8>, j: int)
    requires
        0 <= j < e.len(),
        e[j].0 == key,
    ensures
        exists|i: int| first_position(e, key, i),
    decreases j,
{
    if exists|k: int| 0 <= k < j && e[k].0 == key {
        let k = choose|k: int| 0 <= k < j && e[k].0 == key;
        lemma_first_exists(e, key, k);
    } else {
        assert(first_position(e, key, j));
    }
}

/// Reading a key just set gives the value set.
pub proof fn lemma_get_put(e: Seq<(Seq<u8>, PdfValue)>, key: Seq<u8>, value: PdfValue)
    ensures
        dict_get(dict_put(e, key, value), key) == Some(value),
{
    let f = dict_put(e, key, value);
    if exists|i: int| first_position(e, key, i) {
        let i = choose|i: int| first_position(e, key, i);
        assert(first_position(f, key, i));
        let k = choose|k: int| first_position(f, key, k);
        lemma_first_position_unique(f, key, i, k);
    } else {
        let i = e.len() as int;
        assert forall|j: int| 0 <= j < i implies f[j].0 != key by {
            if e[j].0 == key {
                lemma_first_exists(e, key, j);
            }
        }
        assert(first_position(f, key, i));
        let k = choose|k: int| first_position(f, key, k);
        lemma_first_position_unique(f, key, i, k);
    }
}

/// Setting a key twice keeps the second value only.
pub proof fn lemma_put_put(e: Seq<(Seq<u8>, PdfValue)>, key: Seq<u8>, v1: PdfValue, v2: PdfValue)
    ensures
        dict_put(dict_put(e, key, v1), key, v2) == dict_put(e, key, v2),
{
    let f = dict_put(e, key, v1);
    if exists|i: int| first_position(e, key, i) {
        let i = choose|i: int| first_position(e, key, i);
        assert(first_position(f, key, i));
        let k = choose|k: int| first_position(f, key, k);
        lemma_first_position_unique(f, key, i, k);
        assert(dict_put(f, key, v2) =~= dict_put(e, key, v2));
    } else {
        let i = e.len() as int;
        assert forall|j: int| 0 <= j < i implies f[j].0 != key by {
            if e[j].0 == key {
                lemma_first_exists(e, key, j);
            }
        }
        assert(first_position(f, key, i));
        let k = choose|k: int| first_position(f, key, k);
        lemma_first_position_unique(f, key, i, k);
        assert(dict_put(f, key, v2) =~= dict_put(e, key, v2));
    }
}

} // verus!
