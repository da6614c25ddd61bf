//! The wire form of request bodies: a JSON tree with an exact model.

use vstd::prelude::*;

verus! {

/// The mathematical model of a JSON value.
pub enum Json {
    Text(Seq<char>),
    Flag(bool),
    Int(int),
    List(Seq<Json>),
    Object(Seq<(Seq<char>, Json)>),
    Document(serde_json::Value),
}

/// A JSON value as the request bodies carry it.
#[derive(Debug)]
pub enum WireValue {
    Text(String),
    Flag(bool),
    Int(i64),
    List(Vec<WireValue>),
    Object(Vec<(String, WireValue)>),
    /// A free-form document, carried as it is.
    Document(serde_json::Value),
}

impl WireValue {
    pub open spec fn model(&self) -> Json
        decreases self,
    {
        match self {
            WireValue::Text(s) => Json::Text(s@),
            WireValue::Flag(b) => Json::Flag(*b),
            WireValue::Int(i) => Json::Int(*i as int),
            WireValue::List(v) => Json::List(
                Seq::new(
                    v.len() as nat,
                    |i: int|
                        if 0 <= i < v.len() {
                            v[i].model()
                        } else {
                            Json::Flag(false)
                        },
                ),
            ),
            WireValue::Object(v) => Json::Object(
                Seq::new(
                    v.len() as nat,
                    |i: int|
                        if 0 <= i < v.len() {
                            (v[i].0@, v[i].1.model())
                        } else {
                            (Seq::empty(), Json::Flag(false))
                        },
                ),
            ),
            WireValue::Document(d) => Json::Document(*d),
        }
    }
}

/// The model of an object's entries as a `Vec` holds them.
pub open spec fn entries_model(v: Seq<(String, WireValue)>) -> Seq<(Seq<char>, Json)> {
    Seq::new(v.len(), |i: int| (v[i].0@, v[i].1.model()))
}

pub open spec fn opt_model(o: Option<WireValue>) -> Option<Json> {
    match o {
        Some(w) => Some(w.model()),
        None => None,
    }
}

/// An optional text field's value.
pub open spec fn text_of(o: Option<String>) -> Option<Json> {
    match o {
        Some(s) => Some(Json::Text(s@)),
        None => None,
    }
}

/// An optional flag's value.
pub open spec fn flag_of(o: Option<bool>) -> Option<Json> {
    match o {
        Some(b) => Some(Json::Flag(b)),
        None => None,
    }
}

/// The entries of an object built from the named fields `fs`: those that
/// are present, in order. An absent field leaves no entry.
pub open spec fn present(fs: Seq<(Seq<char>, Option<Json>)>) -> Seq<(Seq<char>, Json)>
    decreases fs.len(),
{
    if fs.len() == 0 {
        Seq::empty()
    } else {
        let rest = present(fs.drop_last());
        match fs.last().1 {
            Some(v) => rest.push((fs.last().0, v)),
            None => rest,
        }
    }
}

/// The value under `key` among the entries `es`; where a key repeats, the
/// last one, as a reader of JSON objects keeps it.
pub open spec fn lookup(es: Seq<(Seq<char>, Json)>, key: Seq<char>) -> Option<Json>
    decreases es.len(),
{
    if es.len() == 0 {
        None
    } else if es.last().0 == key {
        Some(es.last().1)
    } else {
        lookup(es.drop_last(), key)
    }
}

/// No two fields of `fs` share a name.
pub open spec fn distinct_names(fs: Seq<(Seq<char>, Option<Json>)>) -> bool {
    forall|i: int, j: int| 0 <= i < j < fs.len() ==> fs[i].0 != fs[j].0
}

/// None of the first `n` fields of `fs` is named `key`.
pub open spec fn name_unused(fs: Seq<(Seq<char>, Option<Json>)>, key: Seq<char>, n: int) -> bool
    decreases n,
{
    if n <= 0 {
        true
    } else {
        fs[n - 1].0 != key && name_unused(fs, key, n - 1)
    }
}

/// The first `n` fields of `fs` have pairwise different names, checked one
/// field against those before it.
pub open spec fn names_differ(fs: Seq<(Seq<char>, Option<Json>)>, n: int) -> bool
    decreases n,
{
    if n <= 0 {
        true
    } else {
        name_unused(fs, fs[n - 1].0, n - 1) && names_differ(fs, n - 1)
    }
}

proof fn lemma_name_unused(fs: Seq<(Seq<char>, Option<Json>)>, key: Seq<char>, n: int)
    requires
        name_unused(fs, key, n),
    ensures
        forall|i: int| 0 <= i < n ==> fs[i].0 != key,
    decreases n,
{
    if n > 0 {
        lemma_name_unused(fs, key, n - 1);
    }
}

/// Names checked one field at a time are distinct.
pub proof fn lemma_distinct_names(fs: Seq<(Seq<char>, Option<Json>)>, n: int)
    requires
        n <= fs.len(),
        names_differ(fs, n),
    ensures
        forall|i: int, j: int| 0 <= i < j < n ==> fs[i].0 != fs[j].0,
    decreases n,
{
    if n > 0 {
        lemma_distinct_names(fs, n - 1);
        lemma_name_unused(fs, fs[n - 1].0, n - 1);
    }
}

/// Some field of `fs` is named `key` and holds `v`.
pub open spec fn holds_field(fs: Seq<(Seq<char>, Option<Json>)>, key: Seq<char>, v: Json) -> bool {
    exists|j: int| 0 <= j < fs.len() && fs[j].0 == key && fs[j].1 == Some(v)
}

/// Every entry of the object built from `fs` is a present field under its
/// own name.
pub open spec fn only_present_fields(fs: Seq<(Seq<char>, Option<Json>)>) -> bool {
    forall|i: int|
        0 <= i < present(fs).len() ==> holds_field(fs, #[trigger] present(fs)[i].0, present(fs)[i].1)
}

/// Every entry of an object built from fields is a field that is present
/// under its own name: nothing absent appears, and no other key.
pub proof fn lemma_only_present_fields(fs: Seq<(Seq<char>, Option<Json>)>)
    ensures
        only_present_fields(fs),
    decreases fs.len(),
{
    if fs.len() > 0 {
        let init = fs.drop_last();
        lemma_only_present_fields(init);
        assert forall|i: int| 0 <= i < present(fs).len() implies holds_field(
            fs,
            #[trigger] present(fs)[i].0,
            present(fs)[i].1,
        ) by {
            if i < present(init).len() {
                let j = choose|j: int|
                    0 <= j < init.len() && init[j].0 == present(init)[i].0 && init[j].1 == Some(
                        present(init)[i].1,
                    );
                assert(fs[j] == init[j]);
            } else {
                assert(fs[fs.len() - 1] == fs.last());
            }
        }
    }
}

proof fn lemma_lookup_push(es: Seq<(Seq<char>, Json)>, k: Seq<char>, v: Json, key: Seq<char>)
    ensures
        lookup(es.push((k, v)), key) == if k == key {
            Some(v)
        } else {
            lookup(es, key)
        },
{
    assert(es.push((k, v)).drop_last() =~= es);
}

/// A key that names no field of `fs` has no entry.
proof fn lemma_lookup_unnamed(fs: Seq<(Seq<char>, Option<Json>)>, key: Seq<char>)
    requires
        forall|j: int| 0 <= j < fs.len() ==> fs[j].0 != key,
    ensures
        lookup(present(fs), key) is None,
    decreases fs.len(),
{
    if fs.len() > 0 {
        let init = fs.drop_last();
        assert forall|j: int| 0 <= j < init.len() implies init[j].0 != key by {
            assert(init[j] == fs[j]);
        }
        lemma_lookup_unnamed(init, key);
        assert(fs.last() == fs[fs.len() - 1]);
        if let Some(v) = fs.last().1 {
            lemma_lookup_push(present(init), fs.last().0, v, key);
        }
    }
}

/// Reading a field back by its name from an object built from fields with
/// distinct names gives the field's value: the value for a present field,
/// nothing for an absent one.
pub proof fn lemma_fields_read_back(fs: Seq<(Seq<char>, Option<Json>)>)
    requires
        distinct_names(fs),
    ensures
        forall|j: int| 0 <= j < fs.len() ==> lookup(present(fs), #[trigger] fs[j].0) == fs[j].1,
    decreases fs.len(),
{
    if fs.len() > 0 {
        let init = fs.drop_last();
        let n = fs.len() - 1;
        assert(fs.last() == fs[n]);
        assert(distinct_names(init)) by {
            assert forall|i: int, j: int| 0 <= i < j < init.len() implies init[i].0 != init[j].0 by {
                assert(init[i] == fs[i] && init[j] == fs[j]);
            }
        }
        lemma_fields_read_back(init);
        assert forall|j: int| 0 <= j < fs.len() implies lookup(present(fs), #[trigger] fs[j].0)
            == fs[j].1 by {
            if let Some(v) = fs[n].1 {
                lemma_lookup_push(present(init), fs[n].0, v, fs[j].0);
            }
            if j < n {
                assert(fs[j] == init[j]);
            } else {
                assert forall|k: int| 0 <= k < init.len() implies init[k].0 != fs[n].0 by {
                    assert(init[k] == fs[k]);
                }
                lemma_lookup_unnamed(init, fs[n].0);
            }
        }
    }
}

/// An object under construction, with the fields offered so far.
pub struct ObjectBuilder {
    entries: Vec<(String, WireValue)>,
    fields: Ghost<Seq<(Seq<char>, Option<Json>)>>,
}

impl ObjectBuilder {
    /// The named fields offered so far, present or not.
    pub closed spec fn fields(&self) -> Seq<(Seq<char>, Option<Json>)> {
        self.fields@
    }

    pub closed spec fn wf(&self) -> bool {
        entries_model(self.entries@) == present(self.fields@)
    }

    pub fn new() -> (r: ObjectBuilder)
        ensures
            r.wf(),
            r.fields() == Seq::<(Seq<char>, Option<Json>)>::empty(),
    {
        let r = ObjectBuilder { entries: Vec::new(), fields: Ghost(Seq::empty()) };
        assert(entries_model(r.entries@) =~= Seq::empty());
        r
    }

    /// Offers the field `key`; it becomes an entry only if `value` is present.
    pub fn field(&mut self, key: &str, value: Option<WireValue>)
        requires
            old(self).wf(),
        ensures
            final(self).wf(),
            final(self).fields() == old(self).fields().push((key@, opt_model(value))),
    {
        let ghost fs = self.fields@;
        let ghost fs2 = fs.push((key@, opt_model(value)));
        assert(fs2.drop_last() =~= fs);
        match value {
            Some(w) => {
                self.entries.push((String::from_str(key), w));
                assert(entries_model(self.entries@) =~= present(fs).push((key@, opt_model(value)->0)));
            },
            None => {},
        }
        self.fields = Ghost(fs2);
    }

    /// The finished object.
    pub fn finish(self) -> (r: WireValue)
        requires
            self.wf(),
        ensures
            r.model() == Json::Object(present(self.fields())),
    {
        let entries = self.entries;
        let r = WireValue::Object(entries);
        assert(r.model() == Json::Object(entries_model(entries@))) by {
            if let Json::Object(es) = r.model() {
                assert(es =~= entries_model(entries@));
            }
        }
        r
    }
}

/// Wraps an optional text as a wire value.
pub fn opt_text(o: Option<String>) -> (r: Option<WireValue>)
    ensures
        opt_model(r) == text_of(o),
{
    match o {
        Some(s) => Some(WireValue::Text(s)),
        None => None,
    }
}

/// An optional integer's value.
pub open spec fn int_of(o: Option<i32>) -> Option<Json> {
    match o {
        Some(n) => Some(Json::Int(n as int)),
        None => None,
    }
}

/// An optional free-form document's value.
pub open spec fn document_of(o: Option<serde_json::Value>) -> Option<Json> {
    match o {
        Some(d) => Some(Json::Document(d)),
        None => None,
    }
}

/// A list of texts.
pub open spec fn text_list(s: Seq<String>) -> Json {
    Json::List(Seq::new(s.len(), |i: int| Json::Text(s[i]@)))
}

/// Wraps an optional integer as a wire value.
pub fn opt_int(o: Option<i32>) -> (r: Option<WireValue>)
    ensures
        opt_model(r) == int_of(o),
{
    match o {
        Some(n) => Some(WireValue::Int(n as i64)),
        None => None,
    }
}

/// Wraps an optional free-form document as a wire value.
pub fn opt_document(o: Option<serde_json::Value>) -> (r: Option<WireValue>)
    ensures
        opt_model(r) == document_of(o),
{
    match o {
        Some(d) => Some(WireValue::Document(d)),
        None => None,
    }
}

/// A list of texts as a wire value.
pub fn texts_into_wire(v: &Vec<String>) -> (r: WireValue)
    ensures
        r.model() == text_list(v@),
{
    let mut out: Vec<WireValue> = Vec::new();
    let mut i: usize = 0;
    while i < v.len()
        invariant
            i <= v@.len(),
            out@.len() == i,
            forall|k: int| 0 <= k < i ==> (#[trigger] out@[k]).model() == Json::Text(v@[k]@),
        decreases v@.len() - i,
    {
        out.push(WireValue::Text(v[i].clone()));
        i = i + 1;
    }
    let r = WireValue::List(out);
    assert(r.model() == text_list(v@)) by {
        if let Json::List(es) = r.model() {
            if let Json::List(want) = text_list(v@) {
                assert(es =~= want);
            }
        }
    }
    r
}

/// Wraps an optional flag as a wire value.
pub fn opt_flag(o: Option<bool>) -> (r: Option<WireValue>)
    ensures
        opt_model(r) == flag_of(o),
{
    match o {
        Some(b) => Some(WireValue::Flag(b)),
        None => None,
    }
}

} // verus!
