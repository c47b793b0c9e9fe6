//! The `key=value; key=value` syntax of the protocol's DNS TXT records:
//! parsing into fields, formatting fields, and the laws that tie them.

use vstd::prelude::*;
use crate::error::{Error, Result};
use crate::text::{
    concat2, decimal, find_char, find_char_exec, is_digit, is_ws, join_with, lemma_decimal_digits,
    lemma_find_char_bounds, lemma_find_char_first, lemma_find_char_none, ltrim, split_on, trim,
    trim_str,
};

verus! {

/// A parsed field: key and value, both trimmed.
pub type Field = (Seq<char>, Seq<char>);

/// The field that a trimmed, non-empty part denotes: the text before the
/// first '=' and the text after it, each trimmed; `None` without an '='.
pub open spec fn field_of(t: Seq<char>) -> Option<Field> {
    let e = find_char(t, '=');
    if e < 0 || e >= t.len() {
        None
    } else {
        Some((trim(t.subrange(0, e)), trim(t.subrange(e + 1, t.len() as int))))
    }
}

/// The fields of a list of ';'-separated parts, in order; blank parts are
/// skipped, and the first part (trimmed) without '=' makes the whole list
/// invalid.
pub open spec fn fields_of_parts(parts: Seq<Seq<char>>) -> core::result::Result<Seq<Field>, Seq<char>>
    decreases parts.len(),
{
    if parts.len() == 0 {
        Ok(Seq::empty())
    } else {
        match fields_of_parts(parts.drop_last()) {
            Err(bad) => Err(bad),
            Ok(acc) => {
                let t = trim(parts.last());
                if t.len() == 0 {
                    Ok(acc)
                } else {
                    match field_of(t) {
                        None => Err(t),
                        Some(f) => Ok(acc.push(f)),
                    }
                }
            },
        }
    }
}

/// The fields of a TXT record value.
pub open spec fn txt_fields(txt: Seq<char>) -> core::result::Result<Seq<Field>, Seq<char>> {
    fields_of_parts(split_on(txt, ';'))
}

/// The value of the last field with key `k` (a later field overrides an
/// earlier one with the same key).
pub open spec fn field_get(fs: Seq<Field>, k: Seq<char>) -> Option<Seq<char>>
    decreases fs.len(),
{
    if fs.len() == 0 {
        None
    } else if fs.last().0 == k {
        Some(fs.last().1)
    } else {
        field_get(fs.drop_last(), k)
    }
}

/// The text of one field: `key=value`.
pub open spec fn entry_text(f: Field) -> Seq<char> {
    f.0 + "="@ + f.1
}

/// The text of a list of fields, joined with "; ".
pub open spec fn entries_text(es: Seq<Field>) -> Seq<char>
    decreases es.len(),
{
    if es.len() == 0 {
        Seq::empty()
    } else if es.len() == 1 {
        entry_text(es[0])
    } else {
        entries_text(es.drop_last()) + "; "@ + entry_text(es.last())
    }
}

/// No whitespace at either end.
pub open spec fn trimmed(s: Seq<char>) -> bool {
    s.len() == 0 || (!is_ws(s[0]) && !is_ws(s[s.len() - 1]))
}

pub open spec fn has_no(s: Seq<char>, c: char) -> bool {
    forall|i: int| 0 <= i < s.len() ==> s[i] != c
}

/// A key that the field syntax carries unchanged.
pub open spec fn clean_key(k: Seq<char>) -> bool {
    k.len() > 0 && trimmed(k) && has_no(k, '=') && has_no(k, ';')
}

/// A value that the field syntax carries unchanged.
pub open spec fn clean_value(v: Seq<char>) -> bool {
    trimmed(v) && has_no(v, ';')
}

/// Parsed fields of a TXT record value, in order of appearance.
#[derive(Debug, Clone)]
pub struct TxtFields {
    pub entries: Vec<(String, String)>,
}

impl View for TxtFields {
    type V = Seq<Field>;

    open spec fn view(&self) -> Seq<Field> {
        Seq::new(self.entries.len() as nat, |i: int| (self.entries[i].0@, self.entries[i].1@))
    }
}

impl TxtFields {
    /// The value of the field `key` (the last one, where the key repeats).
    pub fn get(&self, key: &str) -> (r: Option<&String>)
        ensures
            match field_get(self@, key@) {
                Some(v) => r matches Some(s) && s@ == v,
                None => r is None,
            },
    {
        let mut i = self.entries.len();
        assert(self@.subrange(0, i as int) =~= self@);
        while i > 0
            invariant
                i <= self.entries.len(),
                field_get(self@, key@) == field_get(self@.subrange(0, i as int), key@),
            decreases i,
        {
            let ghost pre = self@.subrange(0, i as int);
            assert(pre.drop_last() =~= self@.subrange(0, i - 1));
            if crate::text::str_eq(self.entries[i - 1].0.as_str(), key) {
                return Some(&self.entries[i - 1].1);
            }
            i = i - 1;
        }
        None
    }

    /// Number of fields.
    pub fn len(&self) -> (r: usize)
        ensures
            r == self@.len(),
    {
        self.entries.len()
    }
}

proof fn lemma_fields_err_extends(a: Seq<Seq<char>>, b: Seq<Seq<char>>)
    requires
        fields_of_parts(a) is Err,
    ensures
        fields_of_parts(a + b) == fields_of_parts(a),
    decreases b.len(),
{
    if b.len() > 0 {
        lemma_fields_err_extends(a, b.drop_last());
        assert((a + b).drop_last() =~= a + b.drop_last());
    }
}

/// Parse semicolon-separated `key=value` fields of a DNS TXT record value.
pub fn parse_txt_fields(txt: &str) -> (r: Result<TxtFields>)
    ensures
        match txt_fields(txt@) {
            Ok(fs) => r matches Ok(f) && f@ == fs,
            Err(bad) => r matches Err(Error::InvalidIdentityRecord(m)) && m@ == "Invalid field: "@
                + bad,
        },
{
    let mut fields = TxtFields { entries: Vec::new() };
    let mut rest: &str = txt;
    let ghost mut done: Seq<Seq<char>> = Seq::empty();
    assert(split_on(txt@, ';') =~= done + split_on(rest@, ';'));
    assert(fields@ =~= Seq::<Field>::empty());
    loop
        invariant
            split_on(txt@, ';') == done + split_on(rest@, ';'),
            fields_of_parts(done) == Ok::<Seq<Field>, Seq<char>>(fields@),
        decreases rest@.len(),
    {
        let n = rest.unicode_len();
        let pos = find_char_exec(rest, ';');
        let ghost rest_before = rest@;
        let (piece, next) = match pos {
            Some(i) => (rest.substring_char(0, i), Some(rest.substring_char(i + 1, n))),
            None => (rest, None),
        };
        proof {
            lemma_find_char_bounds(rest@, ';');
            match next {
                Some(nx) => {
                    assert(split_on(rest@, ';') == seq![piece@] + split_on(nx@, ';'));
                },
                None => {
                    assert(split_on(rest@, ';') == seq![piece@]);
                },
            }
        }
        let ghost done_next = done.push(piece@);
        assert(done_next.drop_last() =~= done);
        assert(done_next.last() == piece@);
        let t = trim_str(piece);
        let tn = t.as_str().unicode_len();
        if tn != 0 {
            match find_char_exec(t.as_str(), '=') {
                None => {
                    proof {
                        assert(fields_of_parts(done_next) == Err::<Seq<Field>, Seq<char>>(t@));
                        match next {
                            Some(nx) => {
                                lemma_fields_err_extends(done_next, split_on(nx@, ';'));
                                assert(split_on(txt@, ';') =~= done_next + split_on(nx@, ';'));
                            },
                            None => {
                                assert(split_on(txt@, ';') =~= done_next);
                            },
                        }
                    }
                    return Err(Error::InvalidIdentityRecord(concat2("Invalid field: ", t.as_str())));
                },
                Some(e) => {
                    let k = trim_str(t.as_str().substring_char(0, e));
                    let v = trim_str(t.as_str().substring_char(e + 1, tn));
                    let ghost old_view = fields@;
                    fields.entries.push((k, v));
                    assert(fields@ =~= old_view.push((k@, v@)));
                },
            }
        }
        proof {
            done = done_next;
        }
        match next {
            Some(nx) => {
                assert(split_on(txt@, ';') =~= done + split_on(nx@, ';'));
                rest = nx;
            },
            None => {
                assert(split_on(txt@, ';') =~= done);
                return Ok(fields);
            },
        }
    }
}

// ---- laws of the field syntax ----

proof fn lemma_find_char_append(a: Seq<char>, b: Seq<char>, c: char)
    requires
        has_no(a, c),
    ensures
        find_char(a + seq![c] + b, c) == a.len(),
{
    let s = a + seq![c] + b;
    assert(s[a.len() as int] == c);
    assert forall|k: int| 0 <= k < a.len() implies s[k] != c by {
        assert(s[k] == a[k]);
    }
    lemma_find_char_first(s, c, a.len() as int);
}

/// Splitting `a + c + b` on `c` splits `a` and `b` separately.
pub proof fn lemma_split_append(a: Seq<char>, b: Seq<char>, c: char)
    ensures
        split_on(a + seq![c] + b, c) == split_on(a, c) + split_on(b, c),
    decreases a.len(),
{
    let s = a + seq![c] + b;
    lemma_find_char_bounds(a, c);
    let i = find_char(a, c);
    if i < 0 {
        lemma_find_char_append(a, b, c);
        assert(s.subrange(0, a.len() as int) =~= a);
        assert(s.subrange(a.len() as int + 1, s.len() as int) =~= b);
        assert(split_on(a, c) == seq![a]);
    } else {
        assert forall|k: int| 0 <= k < i implies s[k] != c by {
            assert(s[k] == a[k]);
        }
        lemma_find_char_first(s, c, i);
        let a2 = a.subrange(i + 1, a.len() as int);
        assert(s.subrange(0, i) =~= a.subrange(0, i));
        assert(s.subrange(i + 1, s.len() as int) =~= a2 + seq![c] + b);
        lemma_split_append(a2, b, c);
        assert(split_on(a, c) == seq![a.subrange(0, i)] + split_on(a2, c));
        assert(split_on(s, c) =~= split_on(a, c) + split_on(b, c));
    }
}

/// A text without `c` splits into itself alone.
pub proof fn lemma_split_none(a: Seq<char>, c: char)
    requires
        has_no(a, c),
    ensures
        split_on(a, c) == seq![a],
{
    lemma_find_char_none(a, c);
}

/// A list joined with `c` (where no item holds `c`) splits back into the list.
pub proof fn lemma_split_join(ids: Seq<Seq<char>>, c: char)
    requires
        ids.len() >= 1,
        forall|i: int| 0 <= i < ids.len() ==> has_no(#[trigger] ids[i], c),
    ensures
        split_on(join_with(ids, seq![c]), c) == ids,
    decreases ids.len(),
{
    if ids.len() == 1 {
        lemma_split_none(ids[0], c);
        assert(split_on(join_with(ids, seq![c]), c) =~= ids);
    } else {
        let init = ids.drop_last();
        lemma_split_join(init, c);
        assert(has_no(ids.last(), c));
        lemma_split_append(join_with(init, seq![c]), ids.last(), c);
        lemma_split_none(ids.last(), c);
        assert(split_on(join_with(ids, seq![c]), c) =~= ids);
    }
}

pub proof fn lemma_trim_trimmed(s: Seq<char>)
    requires
        trimmed(s),
    ensures
        trim(s) == s,
{
}

proof fn lemma_trim_space_prefix(s: Seq<char>)
    requires
        s.len() > 0,
        trimmed(s),
    ensures
        trim(seq![' '] + s) == s,
{
    let t = seq![' '] + s;
    assert(is_ws(' '));
    assert(t.subrange(1, t.len() as int) =~= s);
    assert(ltrim(t) == ltrim(s));
}

proof fn lemma_entry_text(f: Field)
    requires
        clean_key(f.0),
        clean_value(f.1),
    ensures
        has_no(entry_text(f), ';'),
        entry_text(f).len() > 0,
        trimmed(entry_text(f)),
        field_of(entry_text(f)) == Some(f),
{
    reveal_strlit("=");
    let t = entry_text(f);
    let k = f.0;
    let v = f.1;
    assert(t =~= k + seq!['='] + v);
    assert forall|i: int| 0 <= i < t.len() implies t[i] != ';' by {
        if i < k.len() {
            assert(t[i] == k[i]);
        } else if i > k.len() {
            assert(t[i] == v[i - k.len() - 1]);
        }
    }
    assert(t[0] == k[0]);
    if v.len() > 0 {
        assert(t[t.len() - 1] == v[v.len() - 1]);
    } else {
        assert(t[t.len() - 1] == '=');
    }
    lemma_find_char_append(k, v, '=');
    assert(t.subrange(0, k.len() as int) =~= k);
    assert(t.subrange(k.len() as int + 1, t.len() as int) =~= v);
    lemma_trim_trimmed(k);
    lemma_trim_trimmed(v);
}

/// Fields with clean keys and values parse back from their text.
pub proof fn lemma_entries_roundtrip(es: Seq<Field>)
    requires
        es.len() >= 1,
        forall|i: int| 0 <= i < es.len() ==> clean_key(#[trigger] es[i].0) && clean_value(es[i].1),
    ensures
        txt_fields(entries_text(es)) == Ok::<Seq<Field>, Seq<char>>(es),
    decreases es.len(),
{
    let e = es.last();
    assert(clean_key(es[es.len() - 1].0));
    lemma_entry_text(e);
    if es.len() == 1 {
        let t = entry_text(es[0]);
        lemma_split_none(t, ';');
        lemma_trim_trimmed(t);
        let parts = seq![t];
        assert(parts.drop_last() =~= Seq::<Seq<char>>::empty());
        assert(fields_of_parts(parts.drop_last()) == Ok::<Seq<Field>, Seq<char>>(Seq::<Field>::empty()));
        assert(parts.last() == t);
        assert(trim(t) == t);
        assert(field_of(t) == Some(e));
        assert(fields_of_parts(parts) == Ok::<Seq<Field>, Seq<char>>(Seq::<Field>::empty().push(e)));
        assert(Seq::<Field>::empty().push(e) =~= es);
    } else {
        let init = es.drop_last();
        assert forall|i: int| 0 <= i < init.len() implies clean_key(#[trigger] init[i].0)
            && clean_value(init[i].1) by {
            assert(init[i] == es[i]);
        }
        lemma_entries_roundtrip(init);
        reveal_strlit("; ");
        let b = seq![' '] + entry_text(e);
        assert(entries_text(es) =~= entries_text(init) + seq![';'] + b);
        assert(has_no(b, ';')) by {
            assert forall|i: int| 0 <= i < b.len() implies b[i] != ';' by {
                if i > 0 {
                    assert(b[i] == entry_text(e)[i - 1]);
                }
            }
        }
        lemma_split_append(entries_text(init), b, ';');
        lemma_split_none(b, ';');
        let parts = split_on(entries_text(es), ';');
        assert(parts == split_on(entries_text(init), ';') + seq![b]);
        assert(parts.drop_last() =~= split_on(entries_text(init), ';'));
        assert(parts.last() == b);
        lemma_trim_space_prefix(entry_text(e));
        assert(init.push(e) =~= es);
    }
}

/// With distinct keys, looking a key up gives the value of its field.
pub proof fn lemma_field_get_at(es: Seq<Field>, i: int)
    requires
        0 <= i < es.len(),
        forall|a: int, b: int| 0 <= a < b < es.len() ==> es[a].0 != es[b].0,
    ensures
        field_get(es, es[i].0) == Some(es[i].1),
    decreases es.len(),
{
    if i < es.len() - 1 {
        let init = es.drop_last();
        assert(es.last().0 != es[i].0);
        assert(init[i] == es[i]);
        lemma_field_get_at(init, i);
    }
}

/// A key that no field holds looks up to nothing.
pub proof fn lemma_field_get_absent(es: Seq<Field>, k: Seq<char>)
    requires
        forall|a: int| 0 <= a < es.len() ==> es[a].0 != k,
    ensures
        field_get(es, k) is None,
    decreases es.len(),
{
    if es.len() > 0 {
        let init = es.drop_last();
        assert(es.last().0 != k);
        assert forall|a: int| 0 <= a < init.len() implies init[a].0 != k by {
            assert(init[a] == es[a]);
        }
        lemma_field_get_absent(init, k);
    }
}

/// A decimal number is a clean value.
pub proof fn lemma_decimal_clean(n: nat)
    ensures
        clean_value(decimal(n)),
        decimal(n).len() > 0,
{
    lemma_decimal_digits(n);
    let d = decimal(n);
    assert(is_digit(d[0]));
    assert(is_digit(d[d.len() - 1]));
    assert forall|i: int| 0 <= i < d.len() implies d[i] != ';' by {
        assert(is_digit(d[i]));
    }
}

// ---- formatting ----

/// Appends the field `key=value` to `out`, after "; " unless it is the first.
pub(crate) fn push_entry(out: &mut String, key: &str, value: &str, Ghost(es): Ghost<Seq<Field>>)
    requires
        old(out)@ == entries_text(es),
    ensures
        final(out)@ == entries_text(es.push((key@, value@))),
{
    let ghost ne = es.push((key@, value@));
    assert(ne.drop_last() =~= es);
    proof {
        lemma_entries_text_nonempty(es);
    }
    if !out.as_str().is_empty() {
        out.append("; ");
    }
    out.append(key);
    out.append("=");
    out.append(value);
    proof {
        if es.len() == 0 {
            assert(ne.len() == 1);
        }
        assert(out@ =~= entries_text(ne));
    }
}

proof fn lemma_entries_text_nonempty(es: Seq<Field>)
    ensures
        es.len() > 0 <==> entries_text(es).len() > 0,
    decreases es.len(),
{
    reveal_strlit("=");
    reveal_strlit("; ");
    if es.len() > 1 {
        lemma_entries_text_nonempty(es.drop_last());
    }
}

} // verus!
