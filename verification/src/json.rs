//! A JSON-like value model for request bodies and optional arguments.
//!
//! The broker's API carries structured values: optional arguments on
//! queues, exchanges and bindings, policy definitions, and runtime
//! parameter values.  This module models them with the crate's own types so
//! that the logic that builds and compares them can be specified exactly.
//! An object is a collection of distinct keys with no meaningful order; its
//! mathematical view is a `Map`, so equality of objects is structural and
//! independent of insertion order.

use vstd::prelude::*;
use crate::strings::str_eq;

verus! {

/// The mathematical value of a JSON-like value.
#[verifier::ext_equal]
pub enum JVal {
    Null,
    Bool(bool),
    Int(int),
    Str(Seq<char>),
    Arr(Seq<JVal>),
    Obj(Map<Seq<char>, JVal>),
}

/// A JSON-like value: `null`, a boolean, a signed integer, a string, an
/// array, or an object.
#[derive(Debug)]
pub enum JsonValue {
    Null,
    Bool(bool),
    Int(i64),
    Str(String),
    Arr(Vec<JsonValue>),
    Obj(JsonMap),
}

/// A JSON-like object: a mapping from string keys to values, with no
/// duplicate keys and no meaningful key order.
#[derive(Debug)]
pub struct JsonMap {
    entries: Vec<(String, JsonValue)>,
}

/// The mathematical value of a JSON-like value.
pub closed spec fn jval_of(v: JsonValue) -> JVal
    decreases v,
{
    match v {
        JsonValue::Null => JVal::Null,
        JsonValue::Bool(b) => JVal::Bool(b),
        JsonValue::Int(i) => JVal::Int(i as int),
        JsonValue::Str(s) => JVal::Str(s@),
        JsonValue::Arr(items) => JVal::Arr(arr_view(items@)),
        JsonValue::Obj(m) => JVal::Obj(obj_view(m.entries@)),
    }
}

/// The mathematical values of the elements of an array.
pub closed spec fn arr_view(items: Seq<JsonValue>) -> Seq<JVal>
    decreases items,
{
    if items.len() == 0 {
        Seq::empty()
    } else {
        arr_view(items.drop_last()).push(jval_of(items.last()))
    }
}

/// The mapping held by the entries of an object; a later entry with the
/// same key would win, but well-formed objects have distinct keys.
pub closed spec fn obj_view(entries: Seq<(String, JsonValue)>) -> Map<Seq<char>, JVal>
    decreases entries,
{
    if entries.len() == 0 {
        Map::empty()
    } else {
        obj_view(entries.drop_last()).insert(entries.last().0@, jval_of(entries.last().1))
    }
}

impl View for JsonValue {
    type V = JVal;

    open spec fn view(&self) -> JVal {
        jval_of(*self)
    }
}

impl View for JsonMap {
    type V = Map<Seq<char>, JVal>;

    closed spec fn view(&self) -> Map<Seq<char>, JVal> {
        obj_view(self.entries@)
    }
}

/// No two entries share a key.
spec fn keys_distinct(s: Seq<(String, JsonValue)>) -> bool {
    forall|i: int, j: int| 0 <= i < j < s.len() ==> s[i].0@ != s[j].0@
}

/// Well-formedness of every value of an array.
pub closed spec fn wf_arr(items: Seq<JsonValue>) -> bool
    decreases items,
{
    items.len() == 0 || (wf_arr(items.drop_last()) && wf_val(items.last()))
}

/// Well-formedness of every value of an object's entries.
pub closed spec fn wf_obj(entries: Seq<(String, JsonValue)>) -> bool
    decreases entries,
{
    entries.len() == 0 || (wf_obj(entries.drop_last()) && wf_val(entries.last().1))
}

/// A well-formed value: every object anywhere inside it has distinct keys.
pub closed spec fn wf_val(v: JsonValue) -> bool
    decreases v,
{
    match v {
        JsonValue::Null => true,
        JsonValue::Bool(_) => true,
        JsonValue::Int(_) => true,
        JsonValue::Str(_) => true,
        JsonValue::Arr(items) => wf_arr(items@),
        JsonValue::Obj(m) => keys_distinct(m.entries@) && wf_obj(m.entries@),
    }
}

impl JsonValue {
    /// A well-formed value: every object anywhere inside it has distinct
    /// keys.
    pub closed spec fn wf(self) -> bool {
        wf_val(self)
    }

    /// The `null` value.
    pub fn null() -> (r: JsonValue)
        ensures
            r@ == JVal::Null,
            r.wf(),
    {
        JsonValue::Null
    }

    /// A boolean value.
    pub fn of_bool(b: bool) -> (r: JsonValue)
        ensures
            r@ == JVal::Bool(b),
            r.wf(),
    {
        JsonValue::Bool(b)
    }

    /// An integer value.
    pub fn of_i64(i: i64) -> (r: JsonValue)
        ensures
            r@ == JVal::Int(i as int),
            r.wf(),
    {
        JsonValue::Int(i)
    }

    /// A string value, copied from a string slice.
    pub fn of_str(s: &str) -> (r: JsonValue)
        ensures
            r@ == JVal::Str(s@),
            r.wf(),
    {
        JsonValue::Str(s.to_owned())
    }

    /// A string value.
    pub fn of_string(s: String) -> (r: JsonValue)
        ensures
            r@ == JVal::Str(s@),
            r.wf(),
    {
        JsonValue::Str(s)
    }

    /// An array value.
    pub fn of_arr(items: Vec<JsonValue>) -> (r: JsonValue)
        requires
            forall|i: int| 0 <= i < items@.len() ==> (#[trigger] items@[i]).wf(),
        ensures
            r@ == JVal::Arr(items@.map_values(|x: JsonValue| x@)),
            r.wf(),
    {
        proof {
            lemma_wf_arr_from_elements(items@);
            lemma_arr_view(items@);
            assert(arr_view(items@) =~= items@.map_values(|x: JsonValue| x@));
        }
        JsonValue::Arr(items)
    }

    /// An object value.
    pub fn of_obj(m: JsonMap) -> (r: JsonValue)
        requires
            m.wf(),
        ensures
            r@ == JVal::Obj(m@),
            r.wf(),
    {
        JsonValue::Obj(m)
    }
}

/// An array whose elements are all well-formed is well-formed.
proof fn lemma_wf_arr_from_elements(items: Seq<JsonValue>)
    requires
        forall|i: int| 0 <= i < items.len() ==> (#[trigger] items[i]).wf(),
    ensures
        wf_arr(items),
    decreases items.len(),
{
    if items.len() > 0 {
        lemma_wf_arr_from_elements(items.drop_last());
    }
}

/// Each value of a well-formed array is well-formed.
proof fn lemma_wf_arr_elements(items: Seq<JsonValue>)
    requires
        wf_arr(items),
    ensures
        forall|i: int| 0 <= i < items.len() ==> (#[trigger] items[i]).wf(),
    decreases items.len(),
{
    if items.len() > 0 {
        lemma_wf_arr_elements(items.drop_last());
        assert forall|i: int| 0 <= i < items.len() implies (#[trigger] items[i]).wf() by {
            if i < items.len() - 1 {
                assert(items.drop_last()[i].wf());
                assert(items.drop_last()[i] == items[i]);
            } else {
                assert(items[i] == items.last());
            }
        }
    }
}

/// Each value of a well-formed object's entries is well-formed.
proof fn lemma_wf_obj_elements(entries: Seq<(String, JsonValue)>)
    requires
        wf_obj(entries),
    ensures
        forall|i: int| 0 <= i < entries.len() ==> (#[trigger] entries[i]).1.wf(),
    decreases entries.len(),
{
    if entries.len() > 0 {
        lemma_wf_obj_elements(entries.drop_last());
        assert forall|i: int| 0 <= i < entries.len() implies (#[trigger] entries[i]).1.wf() by {
            if i < entries.len() - 1 {
                assert(entries.drop_last()[i].1.wf());
                assert(entries.drop_last()[i] == entries[i]);
            } else {
                assert(entries[i] == entries.last());
            }
        }
    }
}

/// The view of an array, element by element.
proof fn lemma_arr_view(items: Seq<JsonValue>)
    ensures
        arr_view(items).len() == items.len(),
        forall|i: int| 0 <= i < items.len() ==> #[trigger] arr_view(items)[i] == items[i]@,
    decreases items.len(),
{
    if items.len() > 0 {
        lemma_arr_view(items.drop_last());
        assert forall|i: int| 0 <= i < items.len() implies #[trigger] arr_view(items)[i]
            == items[i]@ by {
            if i < items.len() - 1 {
                assert(arr_view(items)[i] == arr_view(items.drop_last())[i]);
                assert(arr_view(items.drop_last())[i] == items.drop_last()[i]@);
                assert(items.drop_last()[i] == items[i]);
            } else {
                assert(arr_view(items)[i] == jval_of(items.last()));
            }
        }
    }
}

/// What the mapping held by an object's entries contains: exactly the keys
/// of the entries and, when the keys are distinct, each entry's own value.
proof fn lemma_obj_view(entries: Seq<(String, JsonValue)>)
    ensures
        forall|k: Seq<char>|
            obj_view(entries).contains_key(k) <==> exists|i: int|
                0 <= i < entries.len() && (#[trigger] entries[i]).0@ == k,
        keys_distinct(entries) ==> forall|i: int|
            0 <= i < entries.len() ==> obj_view(entries)[(#[trigger] entries[i]).0@]
                == entries[i].1@,
    decreases entries.len(),
{
    if entries.len() > 0 {
        lemma_obj_view(entries.drop_last());
        let prev = entries.drop_last();
        assert(forall|i: int| 0 <= i < entries.len() - 1 ==> (#[trigger] prev[i]) == entries[i]);
        assert forall|k: Seq<char>| obj_view(entries).contains_key(k) implies exists|i: int|
            0 <= i < entries.len() && (#[trigger] entries[i]).0@ == k by {
            if k == entries.last().0@ {
                assert(entries[entries.len() - 1].0@ == k);
            } else {
                assert(obj_view(prev).contains_key(k));
                let i = choose|i: int| 0 <= i < prev.len() && (#[trigger] prev[i]).0@ == k;
                assert(entries[i].0@ == k);
            }
        }
        assert forall|i: int|
            0 <= i < entries.len() && (#[trigger] entries[i]).0@ == entries[i].0@ implies obj_view(
            entries,
        ).contains_key(entries[i].0@) by {
            if i < entries.len() - 1 {
                assert(prev[i].0@ == entries[i].0@);
                assert(obj_view(prev).contains_key(entries[i].0@));
            }
        }
        if keys_distinct(entries) {
            assert(keys_distinct(prev));
            assert forall|i: int| 0 <= i < entries.len() implies obj_view(entries)[(
            #[trigger] entries[i]).0@] == entries[i].1@ by {
                if i < entries.len() - 1 {
                    assert(entries[i].0@ != entries.last().0@);
                    assert(obj_view(entries)[entries[i].0@] == obj_view(prev)[entries[i].0@]);
                    assert(prev[i].0@ == entries[i].0@ && prev[i].1 == entries[i].1);
                    assert(obj_view(prev)[prev[i].0@] == prev[i].1@);
                }
            }
        }
    }
}

/// The mapping held by distinct-keyed entries has exactly one key per
/// entry.
proof fn lemma_obj_view_dom_len(entries: Seq<(String, JsonValue)>)
    requires
        keys_distinct(entries),
    ensures
        obj_view(entries).dom().finite(),
        obj_view(entries).dom().len() == entries.len(),
    decreases entries.len(),
{
    if entries.len() > 0 {
        let prev = entries.drop_last();
        assert(forall|i: int| 0 <= i < entries.len() - 1 ==> (#[trigger] prev[i]) == entries[i]);
        assert(keys_distinct(prev));
        lemma_obj_view_dom_len(prev);
        lemma_obj_view(prev);
        assert(!obj_view(prev).contains_key(entries.last().0@)) by {
            if obj_view(prev).contains_key(entries.last().0@) {
                let i = choose|i: int|
                    0 <= i < prev.len() && (#[trigger] prev[i]).0@ == entries.last().0@;
                assert(entries[i].0@ == entries[entries.len() - 1].0@);
            }
        }
        assert(obj_view(entries).dom() =~= obj_view(prev).dom().insert(entries.last().0@));
    }
}

impl JsonMap {
    /// A well-formed object: distinct keys, and every value well-formed.
    pub closed spec fn wf(self) -> bool {
        keys_distinct(self.entries@) && wf_obj(self.entries@)
    }

    /// An empty object.
    pub fn new() -> (r: JsonMap)
        ensures
            r@ == Map::<Seq<char>, JVal>::empty(),
            r.wf(),
    {
        JsonMap { entries: Vec::new() }
    }

    /// The index of the entry that holds `key`, when there is one.
    fn index_of(&self, key: &str) -> (r: Option<usize>)
        ensures
            match r {
                Some(i) => i < self.entries@.len() && self.entries@[i as int].0@ == key@,
                None => forall|j: int|
                    0 <= j < self.entries@.len() ==> (#[trigger] self.entries@[j]).0@ != key@,
            },
    {
        let mut i: usize = 0;
        while i < self.entries.len()
            invariant
                i <= self.entries@.len(),
                forall|j: int| 0 <= j < i ==> (#[trigger] self.entries@[j]).0@ != key@,
            decreases self.entries@.len() - i,
        {
            let e = &self.entries[i];
            if str_eq(e.0.as_str(), key) {
                return Some(i);
            }
            i = i + 1;
        }
        None
    }

    /// Looks a key up.
    pub fn get(&self, key: &str) -> (r: Option<&JsonValue>)
        requires
            self.wf(),
        ensures
            match r {
                Some(v) => self@.contains_key(key@) && v@ == self@[key@] && v.wf(),
                None => !self@.contains_key(key@),
            },
    {
        proof {
            lemma_obj_view(self.entries@);
            lemma_wf_obj_elements(self.entries@);
        }
        match self.index_of(key) {
            Some(i) => {
                let e = &self.entries[i];
                proof {
                    assert(self.entries@[i as int].0@ == key@);
                }
                Some(&e.1)
            },
            None => {
                proof {
                    if self@.contains_key(key@) {
                        let j = choose|j: int|
                            0 <= j < self.entries@.len() && (#[trigger] self.entries@[j]).0@
                                == key@;
                        assert(self.entries@[j].0@ != key@);
                    }
                }
                None
            },
        }
    }

    /// Whether the object holds the key.
    pub fn contains_key(&self, key: &str) -> (r: bool)
        requires
            self.wf(),
        ensures
            r == self@.contains_key(key@),
    {
        self.get(key).is_some()
    }

    /// Adds a key-value pair, replacing the value of a key already there.
    pub fn insert(&mut self, key: &str, value: JsonValue)
        requires
            old(self).wf(),
            value.wf(),
        ensures
            final(self).wf(),
            final(self)@ == old(self)@.insert(key@, value@),
    {
        proof {
            lemma_obj_view(self.entries@);
            lemma_wf_obj_elements(self.entries@);
        }
        match self.index_of(key) {
            Some(i) => {
                self.entries[i] = (key.to_owned(), value);
                proof {
                    let olde = old(self).entries@;
                    let newe = self.entries@;
                    assert(newe.len() == olde.len());
                    assert(forall|j: int|
                        0 <= j < newe.len() && j != i ==> (#[trigger] newe[j]) == olde[j]);
                    assert(newe[i as int].0@ == key@ && newe[i as int].1 == value);
                    assert(newe[i as int].0@ == olde[i as int].0@);
                    assert(keys_distinct(newe));
                    lemma_wf_obj_from_elements(newe);
                    lemma_obj_view(newe);
                    assert forall|k: Seq<char>|
                        obj_view(newe).contains_key(k) == old(self)@.insert(
                            key@,
                            value@,
                        ).contains_key(k) by {
                        if obj_view(newe).contains_key(k) {
                            let j = choose|j: int|
                                0 <= j < newe.len() && (#[trigger] newe[j]).0@ == k;
                            if j != i {
                                assert(olde[j].0@ == k);
                            }
                        }
                        if old(self)@.insert(key@, value@).contains_key(k) {
                            if k != key@ {
                                let j = choose|j: int|
                                    0 <= j < olde.len() && (#[trigger] olde[j]).0@ == k;
                                assert(newe[j].0@ == k);
                            } else {
                                assert(newe[i as int].0@ == k);
                            }
                        }
                    }
                    assert forall|k: Seq<char>| obj_view(newe).contains_key(k) implies obj_view(
                        newe,
                    )[k] == old(self)@.insert(key@, value@)[k] by {
                        let j = choose|j: int| 0 <= j < newe.len() && (#[trigger] newe[j]).0@ == k;
                        assert(obj_view(newe)[newe[j].0@] == newe[j].1@);
                        if j == i {
                            assert(k == key@);
                        } else {
                            assert(olde[j].0@ == k);
                            assert(k != key@);
                            assert(old(self)@[olde[j].0@] == olde[j].1@);
                        }
                    }
                    assert(obj_view(newe) =~= old(self)@.insert(key@, value@));
                }
            },
            None => {
                self.entries.push((key.to_owned(), value));
                proof {
                    let olde = old(self).entries@;
                    let newe = self.entries@;
                    assert(newe.drop_last() =~= olde);
                    assert(newe.last().0@ == key@);
                    assert(keys_distinct(newe));
                    assert(self@ == old(self)@.insert(key@, value@));
                }
            },
        }
    }

    /// The object's entries as key-value pairs, in their held order; the
    /// order carries no meaning.
    pub closed spec fn spec_entries(self) -> Seq<(Seq<char>, JVal)> {
        self.entries@.map_values(|e: (String, JsonValue)| (e.0@, e.1@))
    }

    /// How the entry list and the mapping of a well-formed object agree:
    /// one entry per key, each holding that key's value.
    pub proof fn lemma_entries(self)
        requires
            self.wf(),
        ensures
            self@.dom().finite(),
            self.spec_entries().len() == self@.dom().len(),
            forall|i: int|
                0 <= i < self.spec_entries().len() ==> self@.contains_key(
                    (#[trigger] self.spec_entries()[i]).0,
                ) && self@[self.spec_entries()[i].0] == self.spec_entries()[i].1,
            forall|k: Seq<char>|
                self@.contains_key(k) ==> exists|i: int|
                    0 <= i < self.spec_entries().len() && (#[trigger] self.spec_entries()[i]).0
                        == k,
            forall|i: int, j: int|
                0 <= i < j < self.spec_entries().len() ==> (#[trigger] self.spec_entries()[i]).0
                    != (#[trigger] self.spec_entries()[j]).0,
    {
        lemma_obj_view(self.entries@);
        lemma_obj_view_dom_len(self.entries@);
        assert forall|k: Seq<char>| self@.contains_key(k) implies exists|i: int|
            0 <= i < self.spec_entries().len() && (#[trigger] self.spec_entries()[i]).0 == k by {
            let j = choose|j: int|
                0 <= j < self.entries@.len() && (#[trigger] self.entries@[j]).0@ == k;
            assert(self.spec_entries()[j].0 == k);
        }
    }

    /// The entry at an index, for walking the object's contents; the order
    /// carries no meaning.
    pub fn entry_at(&self, i: usize) -> (r: (&String, &JsonValue))
        requires
            self.wf(),
            i < self@.dom().len(),
        ensures
            r.0@ == self.spec_entries()[i as int].0,
            r.1@ == self.spec_entries()[i as int].1,
            self@.contains_key(r.0@),
            r.1@ == self@[r.0@],
            r.1.wf(),
    {
        proof {
            lemma_obj_view_dom_len(self.entries@);
            lemma_obj_view(self.entries@);
            lemma_wf_obj_elements(self.entries@);
        }
        let e = &self.entries[i];
        (&e.0, &e.1)
    }

    /// Structural, order-independent equality of two objects: the same
    /// keys, each holding an equal value.
    pub fn equals(&self, other: &JsonMap) -> (r: bool)
        requires
            self.wf(),
            other.wf(),
        ensures
            r == (self@ == other@),
        decreases *self,
    {
        proof {
            lemma_obj_view(self.entries@);
            lemma_obj_view(other.entries@);
            lemma_obj_view_dom_len(self.entries@);
            lemma_obj_view_dom_len(other.entries@);
            lemma_wf_obj_elements(self.entries@);
        }
        if self.entries.len() != other.entries.len() {
            proof {
                assert(self@.dom().len() != other@.dom().len());
            }
            return false;
        }
        let n = self.entries.len();
        let mut i: usize = 0;
        while i < n
            invariant
                i <= n,
                n == self.entries@.len(),
                self.wf(),
                other.wf(),
                forall|j: int|
                    0 <= j < i ==> other@.contains_key((#[trigger] self.entries@[j]).0@)
                        && other@[self.entries@[j].0@] == self.entries@[j].1@,
            decreases n - i,
        {
            proof {
                lemma_obj_view(self.entries@);
                lemma_wf_obj_elements(self.entries@);
            }
            let e = &self.entries[i];
            match other.get(e.0.as_str()) {
                None => {
                    proof {
                        assert(self@.contains_key(self.entries@[i as int].0@));
                    }
                    return false;
                },
                Some(w) => {
                    if !e.1.equals(w) {
                        proof {
                            let k = self.entries@[i as int].0@;
                            assert(self@[k] == self.entries@[i as int].1@);
                        }
                        return false;
                    }
                },
            }
            i = i + 1;
        }
        proof {
            lemma_obj_view(self.entries@);
            lemma_obj_view(other.entries@);
            lemma_obj_view_dom_len(self.entries@);
            lemma_obj_view_dom_len(other.entries@);
            assert forall|k: Seq<char>| self@.contains_key(k) implies other@.contains_key(k)
                && self@[k] == other@[k] by {
                let j = choose|j: int|
                    0 <= j < self.entries@.len() && (#[trigger] self.entries@[j]).0@ == k;
                assert(self@[self.entries@[j].0@] == self.entries@[j].1@);
            }
            assert forall|k: Seq<char>| other@.contains_key(k) implies self@.contains_key(k) by {
                if !self@.contains_key(k) {
                    vstd::set_lib::lemma_len_subset(self@.dom(), other@.dom());
                    self@.dom().lemma_subset_not_in_lt(other@.dom(), k);
                }
            }
            assert(self@ =~= other@);
        }
        true
    }

    /// The number of keys in the object.
    pub fn len(&self) -> (r: usize)
        requires
            self.wf(),
        ensures
            self@.dom().finite(),
            r == self@.dom().len(),
    {
        proof {
            lemma_obj_view_dom_len(self.entries@);
        }
        self.entries.len()
    }
}


/// Entries whose values are all well-formed are well-formed.
proof fn lemma_wf_obj_from_elements(entries: Seq<(String, JsonValue)>)
    requires
        forall|i: int| 0 <= i < entries.len() ==> (#[trigger] entries[i]).1.wf(),
    ensures
        wf_obj(entries),
    decreases entries.len(),
{
    if entries.len() > 0 {
        lemma_wf_obj_from_elements(entries.drop_last());
    }
}

impl JsonValue {
    /// Structural equality of two values; object contents compare as
    /// mappings, independent of entry order.
    pub fn equals(&self, other: &JsonValue) -> (r: bool)
        requires
            self.wf(),
            other.wf(),
        ensures
            r == (self@ == other@),
        decreases *self,
    {
        match self {
            JsonValue::Null => matches!(other, JsonValue::Null),
            JsonValue::Bool(a) => match other {
                JsonValue::Bool(b) => *a == *b,
                _ => false,
            },
            JsonValue::Int(a) => match other {
                JsonValue::Int(b) => *a == *b,
                _ => false,
            },
            JsonValue::Str(a) => match other {
                JsonValue::Str(b) => *a == *b,
                _ => false,
            },
            JsonValue::Arr(items) => match other {
                JsonValue::Arr(o) => arrays_equal(items, o),
                _ => false,
            },
            JsonValue::Obj(m) => match other {
                JsonValue::Obj(o) => m.equals(o),
                _ => false,
            },
        }
    }
}

/// Compares two arrays element by element.
fn arrays_equal(a: &Vec<JsonValue>, b: &Vec<JsonValue>) -> (r: bool)
    requires
        wf_arr(a@),
        wf_arr(b@),
    ensures
        r == (arr_view(a@) == arr_view(b@)),
    decreases a@,
{
    proof {
        lemma_arr_view(a@);
        lemma_arr_view(b@);
        lemma_wf_arr_elements(a@);
        lemma_wf_arr_elements(b@);
    }
    if a.len() != b.len() {
        return false;
    }
    let mut i: usize = 0;
    while i < a.len()
        invariant
            i <= a@.len(),
            a@.len() == b@.len(),
            wf_arr(a@),
            wf_arr(b@),
            forall|j: int| 0 <= j < i ==> (#[trigger] a@[j])@ == b@[j]@,
        decreases a@.len() - i,
    {
        proof {
            lemma_wf_arr_elements(a@);
            lemma_wf_arr_elements(b@);
        }
        let x = &a[i];
        let y = &b[i];
        if !x.equals(y) {
            proof {
                lemma_arr_view(a@);
                lemma_arr_view(b@);
                assert(arr_view(a@)[i as int] == a@[i as int]@);
                assert(arr_view(b@)[i as int] == b@[i as int]@);
            }
            return false;
        }
        i = i + 1;
    }
    proof {
        lemma_arr_view(a@);
        lemma_arr_view(b@);
        assert(arr_view(a@) =~= arr_view(b@));
    }
    true
}

impl Clone for JsonValue {
    /// A deep copy with the same mathematical value.
    fn clone(&self) -> (r: Self)
        ensures
            r@ == self@,
            self.wf() ==> r.wf(),
        decreases *self,
    {
        match self {
            JsonValue::Null => JsonValue::Null,
            JsonValue::Bool(b) => JsonValue::Bool(*b),
            JsonValue::Int(i) => JsonValue::Int(*i),
            JsonValue::Str(s) => JsonValue::Str(s.clone()),
            JsonValue::Arr(items) => {
                let mut out: Vec<JsonValue> = Vec::new();
                let mut i: usize = 0;
                #[verifier::loop_isolation(false)]
                while i < items.len()
                    invariant
                        i <= items@.len(),
                        out@.len() == i,
                        forall|j: int| 0 <= j < i ==> (#[trigger] out@[j])@ == items@[j]@,
                        forall|j: int|
                            0 <= j < i ==> ((#[trigger] items@[j]).wf() ==> out@[j].wf()),
                    decreases items@.len() - i,
                {
                    let x = &items[i];
                    proof {
                        assert(decreases_to!(*self => *items));
                        assert(decreases_to!(*items => items@));
                        assert(decreases_to!(items@ => items@[i as int]));
                    }
                    out.push(x.clone());
                    i = i + 1;
                }
                proof {
                    lemma_arr_view(items@);
                    lemma_arr_view(out@);
                    assert(arr_view(out@) =~= arr_view(items@));
                    if wf_val(*self) {
                        lemma_wf_arr_elements(items@);
                        lemma_wf_arr_from_elements(out@);
                    }
                }
                JsonValue::Arr(out)
            },
            JsonValue::Obj(m) => {
                let c = m.clone();
                proof {
                    if wf_val(*self) {
                        assert(c.wf());
                    }
                }
                JsonValue::Obj(c)
            },
        }
    }
}

impl Clone for JsonMap {
    /// A deep copy with the same mathematical value.
    fn clone(&self) -> (r: Self)
        ensures
            r@ == self@,
            self.wf() ==> r.wf(),
        decreases *self,
    {
        let mut out: Vec<(String, JsonValue)> = Vec::new();
        let mut i: usize = 0;
        #[verifier::loop_isolation(false)]
        while i < self.entries.len()
            invariant
                i <= self.entries@.len(),
                out@.len() == i,
                forall|j: int|
                    0 <= j < i ==> (#[trigger] out@[j]).0@ == self.entries@[j].0@ && out@[j].1@
                        == self.entries@[j].1@,
                forall|j: int|
                    0 <= j < i ==> ((#[trigger] self.entries@[j]).1.wf() ==> out@[j].1.wf()),
            decreases self.entries@.len() - i,
        {
            let e = &self.entries[i];
            let k = e.0.clone();
            let v = e.1.clone();
            out.push((k, v));
            i = i + 1;
        }
        let r = JsonMap { entries: out };
        proof {
            lemma_obj_views_equal(self.entries@, r.entries@);
            if self.wf() {
                lemma_wf_obj_elements(self.entries@);
                lemma_wf_obj_from_elements(r.entries@);
                assert(keys_distinct(r.entries@));
            }
        }
        r
    }
}

/// Two entry lists with pairwise equal keys and values hold the same
/// mapping.
proof fn lemma_obj_views_equal(e1: Seq<(String, JsonValue)>, e2: Seq<(String, JsonValue)>)
    requires
        e1.len() == e2.len(),
        forall|j: int|
            0 <= j < e1.len() ==> (#[trigger] e2[j]).0@ == e1[j].0@ && e2[j].1@ == e1[j].1@,
    ensures
        obj_view(e1) == obj_view(e2),
    decreases e1.len(),
{
    if e1.len() > 0 {
        assert(forall|j: int|
            0 <= j < e1.len() - 1 ==> (#[trigger] e1.drop_last()[j]) == e1[j]
                && e2.drop_last()[j] == e2[j]);
        lemma_obj_views_equal(e1.drop_last(), e2.drop_last());
        assert(e1[e1.len() - 1] == e1.last() && e2[e2.len() - 1] == e2.last());
        assert(obj_view(e1) =~= obj_view(e2));
    }
}

/// Building an object is order-independent: inserting two pairs with
/// distinct keys in either order gives the same mapping.
pub proof fn lemma_insert_order_independent(
    m: Map<Seq<char>, JVal>,
    k1: Seq<char>,
    v1: JVal,
    k2: Seq<char>,
    v2: JVal,
)
    requires
        k1 != k2,
    ensures
        m.insert(k1, v1).insert(k2, v2) == m.insert(k2, v2).insert(k1, v1),
{
    assert(m.insert(k1, v1).insert(k2, v2) =~= m.insert(k2, v2).insert(k1, v1));
}

} // verus!
