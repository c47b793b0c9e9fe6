//! CBOR data items, as the protocol's tokens and messages use them, through
//! the `ciborium` crate: building items, reading them, and their bytes.

use vstd::prelude::*;

verus! {

#[verifier::external_type_specification]
#[verifier::external_body]
pub struct ExCiboriumValue(ciborium::Value);

/// The mathematical form of a CBOR data item.
pub enum CborTerm {
    /// An integer (major types 0 and 1).
    Integer(int),
    /// A byte string.
    Bytes(Seq<u8>),
    /// A text string.
    Text(Seq<char>),
    /// A boolean.
    Bool(bool),
    /// An array of items.
    Array(Seq<CborTerm>),
    /// A map: its key/value entries in order.
    Entries(Seq<(CborTerm, CborTerm)>),
    /// A float, a null or a tagged item (the protocol writes none and reads
    /// none of them).
    Other,
}

/// The item that a `ciborium::Value` holds.
pub uninterp spec fn cbor_model(v: ciborium::Value) -> CborTerm;

/// The bytes that `ciborium::into_writer` writes for an item.
pub uninterp spec fn cbor_encoding(t: CborTerm) -> Seq<u8>;

/// What `ciborium::from_reader` reads from bytes: an item, or the text of
/// its error (among them the refusal of an item nested deeper than 256
/// levels).
pub uninterp spec fn cbor_decoding(b: Seq<u8>) -> core::result::Result<CborTerm, Seq<char>>;

/// A successful read of the item `t`.
pub open spec fn read_as(t: CborTerm) -> core::result::Result<CborTerm, Seq<char>> {
    Ok(t)
}

/// The models of a list of values.
pub open spec fn cbor_models(vs: Seq<ciborium::Value>) -> Seq<CborTerm> {
    Seq::new(vs.len(), |i: int| cbor_model(vs[i]))
}

/// The models of a list of key/value pairs.
pub open spec fn cbor_pair_models(ps: Seq<(ciborium::Value, ciborium::Value)>) -> Seq<
    (CborTerm, CborTerm),
> {
    Seq::new(ps.len(), |i: int| (cbor_model(ps[i].0), cbor_model(ps[i].1)))
}

/// The range of a CBOR integer: -2^64 to 2^64 - 1.
pub open spec fn cbor_int_range(i: int) -> bool {
    -0x1_0000_0000_0000_0000 <= i < 0x1_0000_0000_0000_0000
}

/// An item that `into_writer` writes without error: every integer in range
/// and no float, null or tag anywhere.
pub open spec fn serializable(t: CborTerm) -> bool
    decreases t, 1nat,
{
    match t {
        CborTerm::Integer(i) => cbor_int_range(i),
        CborTerm::Bytes(_) => true,
        CborTerm::Text(_) => true,
        CborTerm::Bool(_) => true,
        CborTerm::Array(items) => all_serializable(items),
        CborTerm::Entries(ps) => all_pairs_serializable(ps),
        CborTerm::Other => false,
    }
}

pub open spec fn all_serializable(ts: Seq<CborTerm>) -> bool
    decreases ts, 0nat,
{
    ts.len() == 0 || (all_serializable(ts.drop_last()) && serializable(ts.last()))
}

pub open spec fn all_pairs_serializable(ps: Seq<(CborTerm, CborTerm)>) -> bool
    decreases ps, 0nat,
{
    ps.len() == 0 || (all_pairs_serializable(ps.drop_last()) && serializable(ps.last().0)
        && serializable(ps.last().1))
}

/// How deeply arrays and maps nest in an item: 0 for a scalar, one more
/// than its deepest element for an array or a map.
pub open spec fn cbor_depth(t: CborTerm) -> nat
    decreases t, 1nat,
{
    match t {
        CborTerm::Array(items) => 1 + items_depth(items),
        CborTerm::Entries(ps) => 1 + pairs_depth(ps),
        _ => 0,
    }
}

/// The greatest depth of the items of a list (0 for none).
pub open spec fn items_depth(ts: Seq<CborTerm>) -> nat
    decreases ts, 0nat,
{
    if ts.len() == 0 {
        0
    } else {
        let a = items_depth(ts.drop_last());
        let b = cbor_depth(ts.last());
        if a >= b { a } else { b }
    }
}

/// The greatest depth of the keys and values of a list of entries (0 for
/// none).
pub open spec fn pairs_depth(ps: Seq<(CborTerm, CborTerm)>) -> nat
    decreases ps, 0nat,
{
    if ps.len() == 0 {
        0
    } else {
        let a = pairs_depth(ps.drop_last());
        let k = cbor_depth(ps.last().0);
        let v = cbor_depth(ps.last().1);
        let m = if k >= v { k } else { v };
        if a >= m { a } else { m }
    }
}

/// The deepest nesting of arrays and maps that `from_reader` reads: it
/// refuses an item nested deeper than 256 levels.
pub open spec fn cbor_max_depth() -> nat {
    256
}

/// An item that `into_writer` writes and `from_reader` reads back: it is
/// serializable and nested no deeper than the reader's limit.
pub open spec fn writable(t: CborTerm) -> bool {
    serializable(t) && cbor_depth(t) <= cbor_max_depth()
}

/// A bound on the length of an item's encoding (RFC 8949, section 3): the
/// head of each item takes at most nine bytes, followed by the bytes of a
/// byte string, the UTF-8 bytes of a text (at most four per character), or
/// the items of an array or a map.
pub open spec fn cbor_size(t: CborTerm) -> nat
    decreases t, 1nat,
{
    match t {
        CborTerm::Bytes(b) => 9 + b.len(),
        CborTerm::Text(s) => 9 + 4 * s.len(),
        CborTerm::Array(items) => 9 + items_size(items),
        CborTerm::Entries(ps) => 9 + pairs_size(ps),
        _ => 9,
    }
}

/// The sum of the size bounds of a list of items.
pub open spec fn items_size(ts: Seq<CborTerm>) -> nat
    decreases ts, 0nat,
{
    if ts.len() == 0 {
        0
    } else {
        items_size(ts.drop_last()) + cbor_size(ts.last())
    }
}

/// The sum of the size bounds of the keys and values of a list of entries.
pub open spec fn pairs_size(ps: Seq<(CborTerm, CborTerm)>) -> nat
    decreases ps, 0nat,
{
    if ps.len() == 0 {
        0
    } else {
        pairs_size(ps.drop_last()) + cbor_size(ps.last().0) + cbor_size(ps.last().1)
    }
}

/// Entries whose key and value bounds add up to at most `b` each have a
/// bound of at most `b` per entry.
pub proof fn lemma_pairs_size_bound(ps: Seq<(CborTerm, CborTerm)>, b: nat)
    requires
        forall|i: int| 0 <= i < ps.len() ==> cbor_size(#[trigger] ps[i].0) + cbor_size(ps[i].1) <= b,
    ensures
        pairs_size(ps) <= ps.len() * b,
    decreases ps.len(),
{
    if ps.len() > 0 {
        let init = ps.drop_last();
        assert forall|i: int| 0 <= i < init.len() implies cbor_size(#[trigger] init[i].0) + cbor_size(
            init[i].1,
        ) <= b by {
            assert(init[i] == ps[i]);
        }
        lemma_pairs_size_bound(init, b);
        assert(cbor_size(ps[ps.len() - 1].0) + cbor_size(ps[ps.len() - 1].1) <= b);
        assert((init.len() + 1) * b == init.len() * b + b) by (nonlinear_arith);
    }
}

/// What a reader of an item sees of it: its kind and its contents.
pub enum CborRef<'a> {
    Integer(i128),
    Bytes(&'a Vec<u8>),
    Text(&'a String),
    Bool(bool),
    Array(&'a Vec<ciborium::Value>),
    Entries(&'a Vec<(ciborium::Value, ciborium::Value)>),
    Other,
}

/// Calls the `ciborium::Value::Integer` constructor with `Integer::from(i64)`.
/// Trusted: the item is that integer.
#[verifier::external_body]
pub(crate) fn cbor_int(i: i64) -> (r: ciborium::Value)
    ensures
        cbor_model(r) == CborTerm::Integer(i as int),
{
    ciborium::Value::Integer(i.into())
}

/// Calls the `ciborium::Value::Integer` constructor with `Integer::from(u64)`.
/// Trusted: the item is that integer.
#[verifier::external_body]
pub(crate) fn cbor_uint(i: u64) -> (r: ciborium::Value)
    ensures
        cbor_model(r) == CborTerm::Integer(i as int),
{
    ciborium::Value::Integer(i.into())
}

/// Calls the `ciborium::Value::Bytes` constructor.
/// Trusted: the item is that byte string.
#[verifier::external_body]
pub(crate) fn cbor_bytes(b: Vec<u8>) -> (r: ciborium::Value)
    ensures
        cbor_model(r) == CborTerm::Bytes(b@),
{
    ciborium::Value::Bytes(b)
}

/// Calls the `ciborium::Value::Text` constructor.
/// Trusted: the item is that text string.
#[verifier::external_body]
pub(crate) fn cbor_text(s: String) -> (r: ciborium::Value)
    ensures
        cbor_model(r) == CborTerm::Text(s@),
{
    ciborium::Value::Text(s)
}

/// Calls the `ciborium::Value::Bool` constructor.
/// Trusted: the item is that boolean.
#[verifier::external_body]
pub(crate) fn cbor_bool(b: bool) -> (r: ciborium::Value)
    ensures
        cbor_model(r) == CborTerm::Bool(b),
{
    ciborium::Value::Bool(b)
}

/// Calls the `ciborium::Value::Array` constructor.
/// Trusted: the item is the array of those items, in order.
#[verifier::external_body]
pub(crate) fn cbor_array(items: Vec<ciborium::Value>) -> (r: ciborium::Value)
    ensures
        cbor_model(r) == CborTerm::Array(cbor_models(items@)),
{
    ciborium::Value::Array(items)
}

/// Calls the `ciborium::Value::Map` constructor.
/// Trusted: the item is the map with those entries, in order.
#[verifier::external_body]
pub(crate) fn cbor_entries(entries: Vec<(ciborium::Value, ciborium::Value)>) -> (r:
    ciborium::Value)
    ensures
        cbor_model(r) == CborTerm::Entries(cbor_pair_models(entries@)),
{
    ciborium::Value::Map(entries)
}

/// Tells the variants of `ciborium::Value` apart (with `i128::from` for an
/// `Integer`). Trusted: what it gives is the kind and the contents of the
/// item; `Other` for a float, a null or a tag. A `ciborium` integer lies
/// between -2^64 and 2^64 - 1 (its `TryFrom<i128>` refuses any other).
#[verifier::external_body]
pub(crate) fn cbor_read_item(v: &ciborium::Value) -> (r: CborRef<'_>)
    ensures
        match r {
            CborRef::Integer(i) => cbor_model(*v) == CborTerm::Integer(i as int) && cbor_int_range(
                i as int,
            ),
            CborRef::Bytes(b) => cbor_model(*v) == CborTerm::Bytes(b@),
            CborRef::Text(s) => cbor_model(*v) == CborTerm::Text(s@),
            CborRef::Bool(b) => cbor_model(*v) == CborTerm::Bool(b),
            CborRef::Array(items) => cbor_model(*v) == CborTerm::Array(cbor_models(items@)),
            CborRef::Entries(es) => cbor_model(*v) == CborTerm::Entries(cbor_pair_models(es@)),
            CborRef::Other => cbor_model(*v) == CborTerm::Other,
        },
{
    match v {
        ciborium::Value::Integer(i) => CborRef::Integer(i128::from(*i)),
        ciborium::Value::Bytes(b) => CborRef::Bytes(b),
        ciborium::Value::Text(s) => CborRef::Text(s),
        ciborium::Value::Bool(b) => CborRef::Bool(*b),
        ciborium::Value::Array(a) => CborRef::Array(a),
        ciborium::Value::Map(m) => CborRef::Entries(m),
        _ => CborRef::Other,
    }
}

/// Calls `ciborium::into_writer` on a new `Vec<u8>`, `Err` holding the text
/// of its error. Trusted: it succeeds (writing into a `Vec<u8>` does not
/// fail, and the serializer fails only on a tag, which `writable` leaves
/// out); the bytes written are the encoding of the item, and `from_reader`
/// reads the same item back from them, the item being nested no deeper
/// than the 256 levels that `from_reader` allows; CBOR heads take at most
/// nine bytes, so their length is at most `cbor_size` of the item.
#[verifier::external_body]
pub(crate) fn cbor_write(v: &ciborium::Value) -> (r: core::result::Result<Vec<u8>, String>)
    requires
        writable(cbor_model(*v)),
    ensures
        r is Ok,
        r matches Ok(b) ==> b@ == cbor_encoding(cbor_model(*v)) && cbor_decoding(b@) == read_as(
            cbor_model(*v),
        ) && b@.len() <= cbor_size(cbor_model(*v)),
{
    let mut buffer: Vec<u8> = Vec::new();
    ciborium::into_writer(v, &mut buffer).map(|_| buffer).map_err(|e| e.to_string())
}

/// Calls `ciborium::from_reader` on the bytes, `Err` holding the text of its
/// error. Trusted: the outcome is what the bytes decode to.
#[verifier::external_body]
pub(crate) fn cbor_read(b: &[u8]) -> (r: core::result::Result<ciborium::Value, String>)
    ensures
        match r {
            Ok(v) => cbor_decoding(b@) == read_as(cbor_model(v)),
            Err(m) => cbor_decoding(b@) == Err::<CborTerm, Seq<char>>(m@),
        },
{
    ciborium::from_reader(b).map_err(|e| e.to_string())
}

/// The value of the first entry whose key is the integer `key`.
pub open spec fn find_entry(es: Seq<(CborTerm, CborTerm)>, key: int) -> Option<CborTerm>
    decreases es.len(),
{
    if es.len() == 0 {
        None
    } else if es[0].0 == CborTerm::Integer(key) {
        Some(es[0].1)
    } else {
        find_entry(es.subrange(1, es.len() as int), key)
    }
}

/// The entry at `j` is the first with the integer key `key`.
pub proof fn lemma_find_entry_at(es: Seq<(CborTerm, CborTerm)>, key: int, j: int)
    requires
        0 <= j < es.len(),
        es[j].0 == CborTerm::Integer(key),
        forall|k: int| 0 <= k < j ==> es[k].0 != CborTerm::Integer(key),
    ensures
        find_entry(es, key) == Some(es[j].1),
    decreases j,
{
    if j > 0 {
        let rest = es.subrange(1, es.len() as int);
        assert(es[0].0 != CborTerm::Integer(key));
        assert forall|k: int| 0 <= k < j - 1 implies rest[k].0 != CborTerm::Integer(key) by {
            assert(rest[k] == es[k + 1]);
        }
        lemma_find_entry_at(rest, key, j - 1);
    }
}

/// No entry has the integer key `key`.
pub proof fn lemma_find_entry_absent(es: Seq<(CborTerm, CborTerm)>, key: int)
    requires
        forall|k: int| 0 <= k < es.len() ==> es[k].0 != CborTerm::Integer(key),
    ensures
        find_entry(es, key) is None,
    decreases es.len(),
{
    if es.len() > 0 {
        let rest = es.subrange(1, es.len() as int);
        assert(es[0].0 != CborTerm::Integer(key));
        assert forall|k: int| 0 <= k < rest.len() implies rest[k].0 != CborTerm::Integer(key) by {
            assert(rest[k] == es[k + 1]);
        }
        lemma_find_entry_absent(rest, key);
    }
}

/// The value of the first entry of a map whose key is the integer `key`.
pub(crate) fn find_int_key(entries: &Vec<(ciborium::Value, ciborium::Value)>, key: i64) -> (r:
    Option<&ciborium::Value>)
    ensures
        match find_entry(cbor_pair_models(entries@), key as int) {
            Some(t) => r matches Some(v) && cbor_model(*v) == t,
            None => r is None,
        },
{
    let ghost ps = cbor_pair_models(entries@);
    let mut i: usize = 0;
    assert(ps.subrange(0, ps.len() as int) =~= ps);
    while i < entries.len()
        invariant
            i <= entries@.len(),
            ps == cbor_pair_models(entries@),
            find_entry(ps, key as int) == find_entry(ps.subrange(i as int, ps.len() as int), key as int),
        decreases entries@.len() - i,
    {
        let ghost rest = ps.subrange(i as int, ps.len() as int);
        assert(rest[0] == ps[i as int]);
        assert(rest.subrange(1, rest.len() as int) =~= ps.subrange(i + 1, ps.len() as int));
        match cbor_read_item(&entries[i].0) {
            CborRef::Integer(k) => {
                if k == key as i128 {
                    return Some(&entries[i].1);
                }
            },
            _ => {},
        }
        i = i + 1;
    }
    None
}

/// Items that are each serializable and nested at most `d` deep make a
/// serializable list nested at most `d` deep.
pub proof fn lemma_all_writable(ts: Seq<CborTerm>, d: nat)
    requires
        forall|i: int| 0 <= i < ts.len() ==> serializable(#[trigger] ts[i]) && cbor_depth(ts[i]) <= d,
    ensures
        all_serializable(ts),
        items_depth(ts) <= d,
    decreases ts.len(),
{
    if ts.len() > 0 {
        let init = ts.drop_last();
        assert forall|i: int| 0 <= i < init.len() implies serializable(#[trigger] init[i])
            && cbor_depth(init[i]) <= d by {
            assert(init[i] == ts[i]);
        }
        lemma_all_writable(init, d);
        assert(serializable(ts[ts.len() - 1]));
    }
}

/// Entries whose keys and values are each serializable and nested at most
/// `d` deep make a serializable list nested at most `d` deep.
pub proof fn lemma_all_pairs_writable(ps: Seq<(CborTerm, CborTerm)>, d: nat)
    requires
        forall|i: int| 0 <= i < ps.len() ==> serializable(#[trigger] ps[i].0) && serializable(ps[i].1)
            && cbor_depth(ps[i].0) <= d && cbor_depth(ps[i].1) <= d,
    ensures
        all_pairs_serializable(ps),
        pairs_depth(ps) <= d,
    decreases ps.len(),
{
    if ps.len() > 0 {
        let init = ps.drop_last();
        assert forall|i: int| 0 <= i < init.len() implies serializable(#[trigger] init[i].0)
            && serializable(init[i].1) && cbor_depth(init[i].0) <= d && cbor_depth(init[i].1) <= d by {
            assert(init[i] == ps[i]);
        }
        lemma_all_pairs_writable(init, d);
        assert(serializable(ps[ps.len() - 1].0));
        assert(serializable(ps[ps.len() - 1].1));
    }
}

} // verus!
