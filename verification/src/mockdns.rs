//! The record store of a mock DNS server for local testing, and how it
//! answers a query. The server itself (sockets, the DNS wire format) stands
//! outside the library; it asks this store what to answer.

use vstd::prelude::*;
use crate::records::{identity_fields, revocation_fields, IdentityRecord, IdentityView, RevocationRecord, RevocationView};
use crate::text::{concat2, ends_with, str_eq};
use crate::txt::entries_text;

verus! {

/// A record the mock server holds.
#[derive(Debug, Clone)]
pub enum DnsRecord {
    Identity(IdentityRecord),
    Revocation(RevocationRecord),
}

/// What a record holds.
pub enum DnsRecordView {
    Identity(IdentityView),
    Revocation(RevocationView),
}

impl View for DnsRecord {
    type V = DnsRecordView;

    open spec fn view(&self) -> DnsRecordView {
        match self {
            DnsRecord::Identity(r) => DnsRecordView::Identity(r@),
            DnsRecord::Revocation(r) => DnsRecordView::Revocation(r@),
        }
    }
}

/// The TXT data that answers a record.
pub open spec fn record_txt(v: DnsRecordView) -> Seq<char> {
    match v {
        DnsRecordView::Identity(i) => entries_text(identity_fields(i)),
        DnsRecordView::Revocation(r) => entries_text(revocation_fields(r)),
    }
}

impl DnsRecord {
    /// The TXT data of the record.
    pub fn txt_data(&self) -> (r: String)
        ensures
            r@ == record_txt(self@),
    {
        match self {
            DnsRecord::Identity(r) => r.to_txt_record(),
            DnsRecord::Revocation(r) => r.to_txt_record(),
        }
    }
}

/// The records of `name` in `s`, in the order they were added.
pub open spec fn records_named(s: Seq<(Seq<char>, DnsRecordView)>, name: Seq<char>) -> Seq<DnsRecordView>
    decreases s.len(),
{
    if s.len() == 0 {
        Seq::empty()
    } else {
        let before = records_named(s.drop_last(), name);
        if s.last().0 == name {
            before.push(s.last().1)
        } else {
            before
        }
    }
}

proof fn lemma_records_named_push(s: Seq<(Seq<char>, DnsRecordView)>, e: (Seq<char>, DnsRecordView), name: Seq<char>)
    ensures
        records_named(s.push(e), name) == if e.0 == name {
            records_named(s, name).push(e.1)
        } else {
            records_named(s, name)
        },
{
    assert(s.push(e).drop_last() =~= s);
}

/// The name of the identity record of a domain.
pub open spec fn identity_key(domain: Seq<char>) -> Seq<char> {
    "_locd."@ + domain
}

/// The name of the revocation record of a domain.
pub open spec fn revocation_key(domain: Seq<char>) -> Seq<char> {
    "_locd-revoke."@ + domain
}

/// The records under a name of a store's view, none where there are none.
pub open spec fn records_under(m: Map<Seq<char>, Seq<DnsRecordView>>, name: Seq<char>) -> Seq<DnsRecordView> {
    if m.contains_key(name) {
        m[name]
    } else {
        Seq::empty()
    }
}

/// The records of a mock DNS server, by name.
pub struct DnsRecordStore {
    /// Each name that has records, once.
    names: Vec<String>,
    /// Each record with its name, in the order they were added.
    records: Vec<(String, DnsRecord)>,
}

/// The views of named records.
pub open spec fn named_views(v: Seq<(String, DnsRecord)>) -> Seq<(Seq<char>, DnsRecordView)> {
    Seq::new(v.len(), |i: int| (v[i].0@, v[i].1@))
}

impl View for DnsRecordStore {
    type V = Map<Seq<char>, Seq<DnsRecordView>>;

    /// Each name leads to its records, in the order they were added.
    closed spec fn view(&self) -> Map<Seq<char>, Seq<DnsRecordView>> {
        Map::new(
            |n: Seq<char>| self.names.deep_view().contains(n),
            |n: Seq<char>| records_named(named_views(self.records@), n),
        )
    }
}

/// What the server answers a query.
#[derive(Debug)]
pub enum DnsAnswer {
    /// The query is not for TXT records.
    NotImplemented,
    /// The TXT data of the records of the name.
    Records(Vec<String>),
    /// No record has the name.
    NotFound,
}

/// The name a query asks for, without the trailing dot of a fully
/// qualified name.
pub open spec fn query_key(name: Seq<char>) -> Seq<char> {
    if name.len() > 0 && name.last() == '.' {
        name.drop_last()
    } else {
        name
    }
}

impl DnsRecordStore {
    #[verifier::type_invariant]
    spec fn inv(&self) -> bool {
        &&& self.names.deep_view().no_duplicates()
        &&& forall|i: int|
            0 <= i < self.records@.len() ==> self.names.deep_view().contains(
                (#[trigger] self.records@[i]).0@,
            )
    }

    /// An empty store.
    pub fn new() -> (s: DnsRecordStore)
        ensures
            s@ == Map::<Seq<char>, Seq<DnsRecordView>>::empty(),
    {
        let s = DnsRecordStore { names: Vec::new(), records: Vec::new() };
        assert(s.names.deep_view() =~= Seq::<Seq<char>>::empty());
        assert(s@ =~= Map::<Seq<char>, Seq<DnsRecordView>>::empty());
        s
    }

    /// Whether `name` is among the names.
    fn has_name(&self, name: &str) -> (r: bool)
        ensures
            r == self.names.deep_view().contains(name@),
    {
        let mut i: usize = 0;
        while i < self.names.len()
            invariant
                i <= self.names@.len(),
                forall|k: int| 0 <= k < i ==> self.names@[k]@ != name@,
            decreases self.names@.len() - i,
        {
            if str_eq(self.names[i].as_str(), name) {
                assert(self.names.deep_view()[i as int] == name@);
                return true;
            }
            i = i + 1;
        }
        proof {
            if self.names.deep_view().contains(name@) {
                let k = choose|k: int| 0 <= k < self.names.deep_view().len() && self.names.deep_view()[k] == name@;
                assert(self.names@[k]@ == name@);
            }
        }
        false
    }

    /// Adds a record under a name.
    fn add(&mut self, name: String, record: DnsRecord)
        ensures
            final(self)@ == old(self)@.insert(name@, records_under(old(self)@, name@).push(record@)),
    {
        proof {
            use_type_invariant(&*self);
        }
        let ghost old_names = self.names.deep_view();
        let ghost old_recs = named_views(self.records@);
        let ghost old_view = self@;
        let ghost n = name@;
        let ghost rv = record@;
        let known = self.has_name(name.as_str());
        let mut taken = DnsRecordStore::new();
        std::mem::swap(&mut taken, self);
        let DnsRecordStore { mut names, mut records } = taken;
        if !known {
            names.push(name.clone());
            proof {
                assert(names.deep_view() =~= old_names.push(n));
            }
        }
        records.push((name, record));
        proof {
            assert(named_views(records@) =~= old_recs.push((n, rv)));
            if known {
                assert(names.deep_view() == old_names);
            } else {
                assert(names.deep_view()[old_names.len() as int] == n);
            }
            assert(names.deep_view().contains(n));
            assert forall|k: Seq<char>| #![auto] old_names.contains(k) ==> names.deep_view().contains(k) by {
                if old_names.contains(k) {
                    let j = choose|j: int| 0 <= j < old_names.len() && old_names[j] == k;
                    assert(names.deep_view()[j] == k);
                }
            }
            if !known {
                assert forall|a: int, b: int| 0 <= a < names.deep_view().len() && 0 <= b < names.deep_view().len() && a != b
                    implies names.deep_view()[a] != names.deep_view()[b] by {
                    if a < old_names.len() && b < old_names.len() {
                    } else if a == old_names.len() {
                        assert(old_names[b] != n);
                    } else {
                        assert(old_names[a] != n);
                    }
                }
            }
            assert forall|i: int| 0 <= i < records@.len() implies names.deep_view().contains(
                (#[trigger] records@[i]).0@,
            ) by {
                if i < old_recs.len() {
                    assert(records@[i].0@ == old_recs[i].0);
                    assert(old_names.contains(old_recs[i].0));
                }
            }
        }
        *self = DnsRecordStore { names, records };
        proof {
            let new_names = self.names.deep_view();
            let s = named_views(self.records@);
            assert forall|k: Seq<char>| #![auto] new_names.contains(k) <==> old_view.insert(n, records_under(old_view, n).push(rv)).dom().contains(k) by {
                if new_names.contains(k) && k != n {
                    let j = choose|j: int| 0 <= j < new_names.len() && new_names[j] == k;
                    if known {
                        assert(old_names.contains(k));
                    } else if j < old_names.len() {
                        assert(old_names[j] == k);
                    }
                }
            }
            assert forall|k: Seq<char>| #![auto] new_names.contains(k) implies records_named(s, k)
                == old_view.insert(n, records_under(old_view, n).push(rv))[k] by {
                lemma_records_named_push(old_recs, (n, rv), k);
                if k != n {
                    assert(old_names.contains(k)) by {
                        let j = choose|j: int| 0 <= j < new_names.len() && new_names[j] == k;
                        if !known && j == old_names.len() {
                            assert(false);
                        } else {
                            assert(new_names[j] == old_names[j]);
                        }
                    }
                } else if !old_names.contains(n) {
                    lemma_records_named_absent(old_recs, old_names, n);
                }
            }
            assert(self@ =~= old_view.insert(n, records_under(old_view, n).push(rv)));
        }
    }

    /// Adds an identity record for a domain, under `_locd.<domain>`.
    pub fn add_identity_record(&mut self, domain: &str, record: IdentityRecord)
        ensures
            final(self)@ == old(self)@.insert(
                identity_key(domain@),
                records_under(old(self)@, identity_key(domain@)).push(DnsRecordView::Identity(record@)),
            ),
    {
        let key = concat2("_locd.", domain);
        self.add(key, DnsRecord::Identity(record));
    }

    /// Adds a revocation record for a domain, under `_locd-revoke.<domain>`.
    pub fn add_revocation_record(&mut self, domain: &str, record: RevocationRecord)
        ensures
            final(self)@ == old(self)@.insert(
                revocation_key(domain@),
                records_under(old(self)@, revocation_key(domain@)).push(
                    DnsRecordView::Revocation(record@),
                ),
            ),
    {
        let key = concat2("_locd-revoke.", domain);
        self.add(key, DnsRecord::Revocation(record));
    }

    /// Removes every record.
    pub fn clear(&mut self)
        ensures
            final(self)@ == Map::<Seq<char>, Seq<DnsRecordView>>::empty(),
    {
        *self = DnsRecordStore::new();
    }

    /// The number of names that have records.
    pub fn len(&self) -> (r: usize)
        ensures
            r == self@.dom().len(),
    {
        proof {
            use_type_invariant(self);
            self.names.deep_view().unique_seq_to_set();
            assert(self@.dom() =~= self.names.deep_view().to_set());
        }
        self.names.len()
    }

    /// Whether `name` has records.
    pub fn contains_name(&self, name: &str) -> (r: bool)
        ensures
            r == self@.contains_key(name@),
    {
        self.has_name(name)
    }

    /// The TXT data of the records of `name`, in the order they were added;
    /// `None` where it has none.
    pub fn txt_records(&self, name: &str) -> (r: Option<Vec<String>>)
        ensures
            match r {
                Some(v) => self@.contains_key(name@) && v.deep_view() == self@[name@].map_values(
                    |d: DnsRecordView| record_txt(d),
                ),
                None => !self@.contains_key(name@),
            },
    {
        if !self.has_name(name) {
            return None;
        }
        let mut out: Vec<String> = Vec::new();
        let mut i: usize = 0;
        while i < self.records.len()
            invariant
                i <= self.records@.len(),
                out.deep_view() == records_named(named_views(self.records@).subrange(0, i as int), name@).map_values(
                    |d: DnsRecordView| record_txt(d),
                ),
            decreases self.records@.len() - i,
        {
            let ghost s = named_views(self.records@);
            let ghost before = out.deep_view();
            proof {
                assert(s.subrange(0, i + 1) =~= s.subrange(0, i as int).push(s[i as int]));
                lemma_records_named_push(s.subrange(0, i as int), s[i as int], name@);
            }
            if str_eq(self.records[i].0.as_str(), name) {
                let t = self.records[i].1.txt_data();
                out.push(t);
                assert(out.deep_view() =~= before.push(record_txt(s[i as int].1)));
            }
            i = i + 1;
        }
        assert(named_views(self.records@).subrange(0, self.records@.len() as int) =~= named_views(self.records@));
        Some(out)
    }

    /// What the server answers a query for `query_name`: not implemented
    /// where the query is not for TXT records; otherwise the TXT data of the
    /// records of the name (without a trailing dot), or not found.
    pub fn answer_query(&self, is_txt_query: bool, query_name: &str) -> (r: DnsAnswer)
        ensures
            !is_txt_query ==> r is NotImplemented,
            is_txt_query && self@.contains_key(query_key(query_name@)) ==> (r matches DnsAnswer::Records(v)
                && v.deep_view() == self@[query_key(query_name@)].map_values(
                |d: DnsRecordView| record_txt(d),
            )),
            is_txt_query && !self@.contains_key(query_key(query_name@)) ==> r is NotFound,
    {
        if !is_txt_query {
            return DnsAnswer::NotImplemented;
        }
        let n = query_name.unicode_len();
        proof {
            reveal_strlit(".");
        }
        let key: &str = if ends_with(query_name, ".") {
            proof {
                let q = query_name@;
                assert(q.subrange(q.len() - 1, q.len() as int)[0] == q[q.len() - 1]);
                assert(q.drop_last() =~= q.subrange(0, q.len() - 1));
            }
            query_name.substring_char(0, n - 1)
        } else {
            proof {
                let q = query_name@;
                if q.len() > 0 && q.last() == '.' {
                    assert(q.subrange(q.len() - 1, q.len() as int) =~= "."@);
                }
            }
            query_name
        };
        assert(key@ == query_key(query_name@));
        match self.txt_records(key) {
            Some(v) => DnsAnswer::Records(v),
            None => DnsAnswer::NotFound,
        }
    }
}

/// A name that is not among the names has no records.
proof fn lemma_records_named_absent(s: Seq<(Seq<char>, DnsRecordView)>, names: Seq<Seq<char>>, n: Seq<char>)
    requires
        forall|i: int| 0 <= i < s.len() ==> names.contains(#[trigger] s[i].0),
        !names.contains(n),
    ensures
        records_named(s, n) == Seq::<DnsRecordView>::empty(),
    decreases s.len(),
{
    if s.len() > 0 {
        assert(names.contains(s[s.len() - 1].0));
        lemma_records_named_absent(s.drop_last(), names, n);
    }
}

} // verus!
