//! The value collector: accumulates one field map per span or event lifetime
//! from a stream of typed field-record calls. Every call stores its value
//! under the collision-avoided name; recording the same name again replaces
//! the earlier value.

use vstd::prelude::*;
use crate::field_map::FieldMap;
use crate::reserved::{is_reserved, lemma_stored_name_not_reserved, mk_field_name, stored_name};
use crate::value::{SpecValue, Value};

verus! {

/// Collects typed field values for one span or event into a [`FieldMap`].
pub struct HoneycombVisitor(pub FieldMap);

impl View for HoneycombVisitor {
    type V = Map<Seq<char>, SpecValue>;

    open spec fn view(&self) -> Map<Seq<char>, SpecValue> {
        self.0@
    }
}

impl HoneycombVisitor {
    /// The collected map has unique keys and, because every name went through
    /// the collision-avoidance rule, holds no bare reserved key.
    pub open spec fn wf(&self) -> bool {
        &&& self.0.wf()
        &&& forall|k: Seq<char>| self@.contains_key(k) ==> !is_reserved(k)
    }

    /// Stores `value` under the collision-avoided form of `field_name`,
    /// replacing any value recorded under that name before.
    fn record_value(&mut self, field_name: String, value: Value)
        requires
            old(self).wf(),
        ensures
            final(self).wf(),
            final(self)@ == old(self)@.insert(stored_name(field_name@), value@),
    {
        let name = mk_field_name(field_name);
        proof {
            lemma_stored_name_not_reserved(field_name@);
        }
        self.0.insert(name, value);
    }

    /// Records a signed integer field.
    pub fn record_i64(&mut self, field_name: String, value: i64)
        requires
            old(self).wf(),
        ensures
            final(self).wf(),
            final(self)@ == old(self)@.insert(stored_name(field_name@), SpecValue::I64(value)),
    {
        self.record_value(field_name, Value::I64(value));
    }

    /// Records an unsigned integer field.
    pub fn record_u64(&mut self, field_name: String, value: u64)
        requires
            old(self).wf(),
        ensures
            final(self).wf(),
            final(self)@ == old(self)@.insert(stored_name(field_name@), SpecValue::U64(value)),
    {
        self.record_value(field_name, Value::U64(value));
    }

    /// Records a boolean field.
    pub fn record_bool(&mut self, field_name: String, value: bool)
        requires
            old(self).wf(),
        ensures
            final(self).wf(),
            final(self)@ == old(self)@.insert(stored_name(field_name@), SpecValue::Bool(value)),
    {
        self.record_value(field_name, Value::Bool(value));
    }

    /// Records a string field.
    pub fn record_str(&mut self, field_name: String, value: &str)
        requires
            old(self).wf(),
        ensures
            final(self).wf(),
            final(self)@ == old(self)@.insert(stored_name(field_name@), SpecValue::Str(value@)),
    {
        self.record_value(field_name, Value::Str(value.to_owned()));
    }

    /// Records a field of any other type through its textual rendering,
    /// which the caller supplies; the value is stored as a string.
    pub fn record_debug(&mut self, field_name: String, rendered: String)
        requires
            old(self).wf(),
        ensures
            final(self).wf(),
            final(self)@ == old(self)@.insert(
                stored_name(field_name@),
                SpecValue::Str(rendered@),
            ),
    {
        self.record_value(field_name, Value::Str(rendered));
    }
}

impl Default for HoneycombVisitor {
    /// A fresh collector with no fields recorded.
    fn default() -> (r: Self)
        ensures
            r.wf(),
            r@ == Map::<Seq<char>, SpecValue>::empty(),
    {
        HoneycombVisitor(FieldMap::new())
    }
}

/// Of several values recorded under one field name, only the last one is
/// present in the final map.
pub proof fn lemma_last_write_wins(
    m: Map<Seq<char>, SpecValue>,
    name: Seq<char>,
    v1: SpecValue,
    v2: SpecValue,
)
    ensures
        m.insert(name, v1).insert(name, v2) == m.insert(name, v2),
{
    assert(m.insert(name, v1).insert(name, v2) =~= m.insert(name, v2));
}

/// Recording under a name outside the reserved set stores the value under
/// that identical name.
pub proof fn lemma_record_nonreserved(
    m: Map<Seq<char>, SpecValue>,
    name: Seq<char>,
    v: SpecValue,
)
    requires
        !is_reserved(name),
    ensures
        m.insert(stored_name(name), v).contains_key(name),
        m.insert(stored_name(name), v)[name] == v,
{
}

/// Recording under a reserved name stores the value under the `tracing.`
/// prefix and never under the bare reserved name.
pub proof fn lemma_record_reserved(m: Map<Seq<char>, SpecValue>, name: Seq<char>, v: SpecValue)
    requires
        is_reserved(name),
        !m.contains_key(name),
    ensures
        m.insert(stored_name(name), v).contains_key("tracing."@ + name),
        m.insert(stored_name(name), v)["tracing."@ + name] == v,
        !m.insert(stored_name(name), v).contains_key(name),
{
    crate::reserved::lemma_reserved_name_prefixed(name);
}

} // verus!
