use vstd::prelude::*;
use vstd::string::StringExecFns;

use crate::assoc::{
    distinct_names, lemma_lookup_at, lemma_with_entry, lookup, with_entry,
};
use crate::json::{json_quoted, object_members, pairs_view, parse_object, quote};

verus! {

/// One member of a JSON object: the quoted name, a colon, the value's text.
pub open spec fn member_text(e: (Seq<char>, Seq<char>)) -> Seq<char> {
    json_quoted(e.0) + seq![':'] + e.1
}

/// The members `s` as JSON text, separated by commas, in order.
pub open spec fn members_text(s: Seq<(Seq<char>, Seq<char>)>) -> Seq<char>
    decreases s.len(),
{
    if s.len() == 0 {
        Seq::empty()
    } else if s.len() == 1 {
        member_text(s[0])
    } else {
        members_text(s.drop_last()) + seq![','] + member_text(s.last())
    }
}

/// The JSON object whose members are `s`, in order.
pub open spec fn object_text(s: Seq<(Seq<char>, Seq<char>)>) -> Seq<char> {
    seq!['{'] + members_text(s) + seq!['}']
}

/// A session record: a JSON object given as named members, each value kept as
/// its compact JSON text. No two members share a name.
pub struct Record {
    fields: Vec<(String, String)>,
}

impl Record {
    /// The members, in their stored order.
    pub closed spec fn entries(&self) -> Seq<(Seq<char>, Seq<char>)> {
        pairs_view(self.fields@)
    }

    /// Member names are unique.
    pub open spec fn wf(&self) -> bool {
        distinct_names(self.entries())
    }

    /// The JSON text stored under `name`, if any.
    pub open spec fn member(&self, name: Seq<char>) -> Option<Seq<char>> {
        lookup(self.entries(), name)
    }

    /// A record without members.
    pub fn new() -> (r: Record)
        ensures
            r.wf(),
            r.entries() == Seq::<(Seq<char>, Seq<char>)>::empty(),
            forall|k: Seq<char>| #[trigger] r.member(k) is None,
    {
        let r = Record { fields: Vec::new() };
        assert(r.entries() =~= Seq::<(Seq<char>, Seq<char>)>::empty());
        r
    }

    /// Reads a record from the JSON text of an object; `None` where the text
    /// is no JSON object.
    pub fn parse(text: &str) -> (r: Option<Record>)
        ensures
            match r {
                Some(rec) => rec.wf() && object_members(text@) == Some(rec.entries()),
                None => object_members(text@) is None,
            },
    {
        match parse_object(text) {
            Some(fields) => Some(Record { fields }),
            None => None,
        }
    }

    /// Index of the member named `key`, if any.
    fn position(&self, key: &String) -> (r: Option<usize>)
        ensures
            match r {
                Some(i) => i < self.entries().len() && self.entries()[i as int].0 == key@,
                None => forall|j: int|
                    0 <= j < self.entries().len() ==> (#[trigger] self.entries()[j]).0 != key@,
            },
    {
        let mut i: usize = 0;
        while i < self.fields.len()
            invariant
                i <= self.fields@.len(),
                self.entries().len() == self.fields@.len(),
                forall|j: int| 0 <= j < i ==> (#[trigger] self.entries()[j]).0 != key@,
            decreases self.fields@.len() - i,
        {
            if self.fields[i].0 == *key {
                return Some(i);
            }
            i = i + 1;
        }
        None
    }

    /// The JSON text of member `name`, if the record has one.
    pub fn get(&self, name: &str) -> (r: Option<String>)
        requires
            self.wf(),
        ensures
            match r {
                Some(v) => self.member(name@) == Some(v@),
                None => self.member(name@) is None,
            },
    {
        let key = name.to_owned();
        match self.position(&key) {
            Some(i) => {
                proof {
                    lemma_lookup_at(self.entries(), i as int);
                }
                Some(self.fields[i].1.clone())
            },
            None => None,
        }
    }

    /// Stores `value` under `name`, replacing the member of that name if there is
    /// one and adding it at the end otherwise. Every other member stays as it was.
    pub fn insert(&mut self, name: String, value: String)
        requires
            old(self).wf(),
        ensures
            final(self).wf(),
            final(self).entries() == with_entry(old(self).entries(), name@, value@),
            final(self).member(name@) == Some(value@),
            forall|k: Seq<char>|
                k != name@ ==> #[trigger] final(self).member(k) == old(self).member(k),
    {
        let ghost before = self.entries();
        let ghost nv = name@;
        let ghost vv = value@;
        match self.position(&name) {
            Some(i) => {
                proof {
                    lemma_lookup_at(before, i as int);
                }
                self.fields.set(i, (name, value));
                assert(self.entries() =~= with_entry(before, nv, vv));
            },
            None => {
                self.fields.push((name, value));
                assert(self.entries() =~= with_entry(before, nv, vv));
            },
        }
        proof {
            lemma_with_entry(before, nv, vv);
        }
    }

    /// A copy of the record with the same members in the same order.
    pub fn duplicate(&self) -> (r: Record)
        ensures
            r.entries() == self.entries(),
    {
        let mut fields: Vec<(String, String)> = Vec::new();
        let mut i: usize = 0;
        while i < self.fields.len()
            invariant
                i <= self.fields@.len(),
                pairs_view(fields@) =~= self.entries().take(i as int),
            decreases self.fields@.len() - i,
        {
            let ghost prev = fields@;
            let name = self.fields[i].0.clone();
            let value = self.fields[i].1.clone();
            fields.push((name, value));
            proof {
                assert(fields@ =~= prev.push(self.fields@[i as int]));
                assert(pairs_view(fields@) =~= pairs_view(prev).push(self.entries()[i as int]));
                assert(self.entries().take(i as int + 1) =~= self.entries().take(i as int).push(
                    self.entries()[i as int],
                ));
            }
            i = i + 1;
        }
        assert(self.entries().take(i as int) =~= self.entries());
        Record { fields }
    }

    /// The record as the JSON text of an object, members in stored order.
    pub fn to_json(&self) -> (r: String)
        ensures
            r@ == object_text(self.entries()),
    {
        let ghost s = self.entries();
        let mut out = String::new();
        let mut i: usize = 0;
        while i < self.fields.len()
            invariant
                i <= self.fields@.len(),
                s.len() == self.fields@.len(),
                s == self.entries(),
                out@ == members_text(s.take(i as int)),
            decreases self.fields@.len() - i,
        {
            proof {
                reveal_strlit(",");
                reveal_strlit(":");
            }
            let ghost head = out@;
            if i > 0 {
                out.append(",");
            }
            let q = quote(self.fields[i].0.as_str());
            out.append(q.as_str());
            out.append(":");
            out.append(self.fields[i].1.as_str());
            proof {
                let t = s.take(i as int + 1);
                assert(t.drop_last() =~= s.take(i as int));
                assert(t.last() == s[i as int]);
                if i == 0 {
                    assert(s.take(0) =~= Seq::<(Seq<char>, Seq<char>)>::empty());
                    assert(out@ =~= member_text(s[0]));
                } else {
                    assert(out@ =~= head + seq![','] + member_text(s[i as int]));
                }
            }
            i = i + 1;
        }
        assert(s.take(i as int) =~= s);
        let mut r = String::new();
        proof {
            reveal_strlit("{");
            reveal_strlit("}");
        }
        r.append("{");
        r.append(out.as_str());
        r.append("}");
        assert(r@ =~= object_text(s));
        r
    }
}

} // verus!
