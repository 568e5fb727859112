//! Common OTLP message types: attribute values, key/value pairs, the
//! instrumentation scope and the resource, each with a mathematical model.
use vstd::prelude::*;

verus! {

/// The value carried by an [`AnyValue`]. Floating-point values are held as
/// their IEEE-754 binary64 bit pattern.
#[derive(Debug, PartialEq)]
pub enum Value {
    StringValue(String),
    BoolValue(bool),
    IntValue(i64),
    /// IEEE-754 binary64 bit pattern of the double value.
    DoubleValue(u64),
    ArrayValue(ArrayValue),
    KvlistValue(KeyValueList),
    BytesValue(Vec<u8>),
}

/// A value of any of the OTLP attribute value kinds; `value: None` is the
/// empty value.
#[derive(Debug, PartialEq)]
pub struct AnyValue {
    pub value: Option<Value>,
}

/// A list of values.
#[derive(Debug, PartialEq)]
pub struct ArrayValue {
    pub values: Vec<AnyValue>,
}

/// A list of key/value pairs (a map value).
#[derive(Debug, PartialEq)]
pub struct KeyValueList {
    pub values: Vec<KeyValue>,
}

/// An attribute: a key and an optional value.
#[derive(Debug, PartialEq)]
pub struct KeyValue {
    pub key: String,
    pub value: Option<AnyValue>,
}

/// The instrumentation scope that produced some telemetry.
#[derive(Debug, PartialEq)]
pub struct InstrumentationScope {
    pub name: String,
    pub version: String,
    pub attributes: Vec<KeyValue>,
    pub dropped_attributes_count: u32,
}

/// The entity that produced some telemetry.
#[derive(Debug, PartialEq)]
pub struct Resource {
    pub attributes: Vec<KeyValue>,
    pub dropped_attributes_count: u32,
}

/* ------------------------------ models ------------------------------ */

/// Model of an [`AnyValue`].
#[verifier::ext_equal]
pub enum AnyValueModel {
    Empty,
    Str(Seq<char>),
    Bool(bool),
    Int(i64),
    Double(u64),
    Array(Seq<AnyValueModel>),
    Kvlist(Seq<KeyValueModel>),
    Bytes(Seq<u8>),
}

/// Model of a [`KeyValue`].
#[verifier::ext_equal]
pub struct KeyValueModel {
    pub key: Seq<char>,
    pub value: Option<AnyValueModel>,
}

/// Model of an [`InstrumentationScope`].
#[verifier::ext_equal]
pub struct ScopeModel {
    pub name: Seq<char>,
    pub version: Seq<char>,
    pub attributes: Seq<KeyValueModel>,
    pub dropped_attributes_count: u32,
}

/// Model of a [`Resource`].
#[verifier::ext_equal]
pub struct ResourceModel {
    pub attributes: Seq<KeyValueModel>,
    pub dropped_attributes_count: u32,
}

pub open spec fn any_value_model(v: AnyValue) -> AnyValueModel
    decreases v,
{
    match v.value {
        None => AnyValueModel::Empty,
        Some(Value::StringValue(s)) => AnyValueModel::Str(s@),
        Some(Value::BoolValue(b)) => AnyValueModel::Bool(b),
        Some(Value::IntValue(i)) => AnyValueModel::Int(i),
        Some(Value::DoubleValue(d)) => AnyValueModel::Double(d),
        Some(Value::ArrayValue(a)) => AnyValueModel::Array(any_values_model(a.values@)),
        Some(Value::KvlistValue(l)) => AnyValueModel::Kvlist(key_values_model(l.values@)),
        Some(Value::BytesValue(b)) => AnyValueModel::Bytes(b@),
    }
}

pub open spec fn any_values_model(s: Seq<AnyValue>) -> Seq<AnyValueModel>
    decreases s,
{
    if s.len() == 0 {
        Seq::empty()
    } else {
        any_values_model(s.drop_last()).push(any_value_model(s.last()))
    }
}

pub open spec fn key_value_model(kv: KeyValue) -> KeyValueModel
    decreases kv,
{
    KeyValueModel {
        key: kv.key@,
        value: match kv.value {
            Some(v) => Some(any_value_model(v)),
            None => None,
        },
    }
}

pub open spec fn key_values_model(s: Seq<KeyValue>) -> Seq<KeyValueModel>
    decreases s,
{
    if s.len() == 0 {
        Seq::empty()
    } else {
        key_values_model(s.drop_last()).push(key_value_model(s.last()))
    }
}

impl View for AnyValue {
    type V = AnyValueModel;

    open spec fn view(&self) -> AnyValueModel {
        any_value_model(*self)
    }
}

impl View for KeyValue {
    type V = KeyValueModel;

    open spec fn view(&self) -> KeyValueModel {
        key_value_model(*self)
    }
}

impl View for InstrumentationScope {
    type V = ScopeModel;

    open spec fn view(&self) -> ScopeModel {
        ScopeModel {
            name: self.name@,
            version: self.version@,
            attributes: key_values_model(self.attributes@),
            dropped_attributes_count: self.dropped_attributes_count,
        }
    }
}

impl View for Resource {
    type V = ResourceModel;

    open spec fn view(&self) -> ResourceModel {
        ResourceModel {
            attributes: key_values_model(self.attributes@),
            dropped_attributes_count: self.dropped_attributes_count,
        }
    }
}

/// The model of an optional resource.
pub open spec fn opt_resource_model(r: Option<Resource>) -> Option<ResourceModel> {
    match r {
        Some(r) => Some(r@),
        None => None,
    }
}

/// The model of an optional scope.
pub open spec fn opt_scope_model(s: Option<InstrumentationScope>) -> Option<ScopeModel> {
    match s {
        Some(s) => Some(s@),
        None => None,
    }
}

/// The model of an optional value.
pub open spec fn opt_any_value_model(v: Option<AnyValue>) -> Option<AnyValueModel> {
    match v {
        Some(v) => Some(v@),
        None => None,
    }
}

/// The element-wise reading of [`key_values_model`].
pub proof fn lemma_key_values_model(s: Seq<KeyValue>)
    ensures
        key_values_model(s).len() == s.len(),
        forall|i: int| 0 <= i < s.len() ==> #[trigger] key_values_model(s)[i] == s[i]@,
    decreases s.len(),
{
    if s.len() > 0 {
        lemma_key_values_model(s.drop_last());
    }
}

/// The element-wise reading of [`any_values_model`].
pub proof fn lemma_any_values_model(s: Seq<AnyValue>)
    ensures
        any_values_model(s).len() == s.len(),
        forall|i: int| 0 <= i < s.len() ==> #[trigger] any_values_model(s)[i] == s[i]@,
    decreases s.len(),
{
    if s.len() > 0 {
        lemma_any_values_model(s.drop_last());
    }
}

/// `key_values_model` of one more element.
pub proof fn lemma_key_values_model_push(s: Seq<KeyValue>, kv: KeyValue)
    ensures
        key_values_model(s.push(kv)) == key_values_model(s).push(kv@),
{
    assert(s.push(kv).drop_last() =~= s);
}

/// `any_values_model` of one more element.
pub proof fn lemma_any_values_model_push(s: Seq<AnyValue>, v: AnyValue)
    ensures
        any_values_model(s.push(v)) == any_values_model(s).push(v@),
{
    assert(s.push(v).drop_last() =~= s);
}


/* ------------------------------ copies ------------------------------ */

/// A copy of a byte string.
pub fn copy_bytes(b: &Vec<u8>) -> (r: Vec<u8>)
    ensures
        r@ == b@,
{
    let mut r: Vec<u8> = Vec::with_capacity(b.len());
    let mut i: usize = 0;
    while i < b.len()
        invariant
            i <= b.len(),
            r@ == b@.subrange(0, i as int),
        decreases b.len() - i,
    {
        r.push(b[i]);
        i += 1;
        assert(r@ =~= b@.subrange(0, i as int));
    }
    assert(b@.subrange(0, b.len() as int) =~= b@);
    r
}

/// A copy of a string.
pub fn copy_string(s: &String) -> (r: String)
    ensures
        r@ == s@,
{
    s.clone()
}

/// A deep copy of a value.
pub fn copy_any_value(v: &AnyValue) -> (r: AnyValue)
    ensures
        r@ == v@,
    decreases v,
{
    match &v.value {
        None => AnyValue { value: None },
        Some(Value::StringValue(s)) => AnyValue { value: Some(Value::StringValue(copy_string(s))) },
        Some(Value::BoolValue(b)) => AnyValue { value: Some(Value::BoolValue(*b)) },
        Some(Value::IntValue(i)) => AnyValue { value: Some(Value::IntValue(*i)) },
        Some(Value::DoubleValue(d)) => AnyValue { value: Some(Value::DoubleValue(*d)) },
        Some(Value::ArrayValue(a)) => {
            let mut values: Vec<AnyValue> = Vec::new();
            let mut i: usize = 0;
            while i < a.values.len()
                invariant
                    i <= a.values.len(),
                    v.value == Some(Value::ArrayValue(*a)),
                    any_values_model(values@) == any_values_model(a.values@.subrange(0, i as int)),
                decreases a.values.len() - i,
            {
                proof {
                    broadcast use vstd::std_specs::vec::group_vec_axioms, vstd::seq::group_seq_axioms;
                    assert(decreases_to!(a.values => a.values@));
                    assert(decreases_to!(a.values@ => a.values@[i as int]));
                    assert(decreases_to!(v => v.value));
                    assert(decreases_to!(v.value => v.value->0));
                    assert(decreases_to!(v.value->0 => v.value->0->ArrayValue_0));
                    assert(decreases_to!(*a => a.values));
                    assert(decreases_to!(v => a.values@[i as int]));
                }
                let c = copy_any_value(&a.values[i]);
                proof {
                    lemma_any_values_model_push(values@, c);
                    lemma_any_values_model_push(a.values@.subrange(0, i as int), a.values@[i as int]);
                    assert(a.values@.subrange(0, i + 1) =~= a.values@.subrange(0, i as int).push(a.values@[i as int]));
                }
                values.push(c);
                i += 1;
            }
            assert(a.values@.subrange(0, a.values.len() as int) =~= a.values@);
            AnyValue { value: Some(Value::ArrayValue(ArrayValue { values })) }
        },
        Some(Value::KvlistValue(l)) => {
            let mut values: Vec<KeyValue> = Vec::new();
            let mut i: usize = 0;
            while i < l.values.len()
                invariant
                    i <= l.values.len(),
                    v.value == Some(Value::KvlistValue(*l)),
                    key_values_model(values@) == key_values_model(l.values@.subrange(0, i as int)),
                decreases l.values.len() - i,
            {
                proof {
                    broadcast use vstd::std_specs::vec::group_vec_axioms, vstd::seq::group_seq_axioms;
                    assert(decreases_to!(l.values => l.values@));
                    assert(decreases_to!(l.values@ => l.values@[i as int]));
                    assert(decreases_to!(v => v.value));
                    assert(decreases_to!(v.value => v.value->0));
                    assert(decreases_to!(v.value->0 => v.value->0->KvlistValue_0));
                    assert(decreases_to!(*l => l.values));
                    assert(decreases_to!(v => l.values@[i as int]));
                }
                let c = copy_key_value(&l.values[i]);
                proof {
                    lemma_key_values_model_push(values@, c);
                    lemma_key_values_model_push(l.values@.subrange(0, i as int), l.values@[i as int]);
                    assert(l.values@.subrange(0, i + 1) =~= l.values@.subrange(0, i as int).push(l.values@[i as int]));
                }
                values.push(c);
                i += 1;
            }
            assert(l.values@.subrange(0, l.values.len() as int) =~= l.values@);
            AnyValue { value: Some(Value::KvlistValue(KeyValueList { values })) }
        },
        Some(Value::BytesValue(b)) => AnyValue { value: Some(Value::BytesValue(copy_bytes(b))) },
    }
}

/// A deep copy of a key/value pair.
pub fn copy_key_value(kv: &KeyValue) -> (r: KeyValue)
    ensures
        r@ == kv@,
    decreases kv,
{
    let value = match &kv.value {
        Some(v) => {
            assert(decreases_to!(kv => *v));
            Some(copy_any_value(v))
        },
        None => None,
    };
    KeyValue { key: copy_string(&kv.key), value }
}

/// A deep copy of a list of key/value pairs.
pub fn copy_key_values(kvs: &Vec<KeyValue>) -> (r: Vec<KeyValue>)
    ensures
        key_values_model(r@) == key_values_model(kvs@),
{
    let mut values: Vec<KeyValue> = Vec::with_capacity(kvs.len());
    let mut i: usize = 0;
    while i < kvs.len()
        invariant
            i <= kvs.len(),
            key_values_model(values@) == key_values_model(kvs@.subrange(0, i as int)),
        decreases kvs.len() - i,
    {
        let c = copy_key_value(&kvs[i]);
        proof {
            lemma_key_values_model_push(values@, c);
            lemma_key_values_model_push(kvs@.subrange(0, i as int), kvs@[i as int]);
            assert(kvs@.subrange(0, i + 1) =~= kvs@.subrange(0, i as int).push(kvs@[i as int]));
        }
        values.push(c);
        i += 1;
    }
    assert(kvs@.subrange(0, kvs.len() as int) =~= kvs@);
    values
}


/* ------------------------------ constructors ------------------------------ */

/// Model of a string value.
pub open spec fn str_value(s: Seq<char>) -> AnyValueModel {
    AnyValueModel::Str(s)
}

/// Model of an attribute with a value.
pub open spec fn attr(key: Seq<char>, value: AnyValueModel) -> KeyValueModel {
    KeyValueModel { key, value: Some(value) }
}

/// Model of a scope with only a name.
pub open spec fn named_scope(name: Seq<char>) -> ScopeModel {
    ScopeModel { name, version: Seq::empty(), attributes: Seq::empty(), dropped_attributes_count: 0 }
}

/// Model of the empty scope.
pub open spec fn empty_scope() -> ScopeModel {
    named_scope(Seq::empty())
}

/// Model of a resource with the given attributes.
pub open spec fn resource_with(attributes: Seq<KeyValueModel>) -> ResourceModel {
    ResourceModel { attributes, dropped_attributes_count: 0 }
}

impl AnyValue {
    /// A string value.
    pub fn new_string(s: &str) -> (r: AnyValue)
        ensures
            r@ == AnyValueModel::Str(s@),
    {
        AnyValue { value: Some(Value::StringValue(String::from_str(s))) }
    }

    /// A string value that takes ownership of `s`.
    pub fn new_owned_string(s: String) -> (r: AnyValue)
        ensures
            r@ == AnyValueModel::Str(s@),
    {
        AnyValue { value: Some(Value::StringValue(s)) }
    }

    /// An integer value.
    pub fn new_int(i: i64) -> (r: AnyValue)
        ensures
            r@ == AnyValueModel::Int(i),
    {
        AnyValue { value: Some(Value::IntValue(i)) }
    }

    /// A boolean value.
    pub fn new_bool(b: bool) -> (r: AnyValue)
        ensures
            r@ == AnyValueModel::Bool(b),
    {
        AnyValue { value: Some(Value::BoolValue(b)) }
    }

    /// A double value, given by its IEEE-754 binary64 bit pattern.
    pub fn new_double(bits: u64) -> (r: AnyValue)
        ensures
            r@ == AnyValueModel::Double(bits),
    {
        AnyValue { value: Some(Value::DoubleValue(bits)) }
    }

    /// A bytes value.
    pub fn new_bytes(b: &[u8]) -> (r: AnyValue)
        ensures
            r@ == AnyValueModel::Bytes(b@),
    {
        let mut v: Vec<u8> = Vec::with_capacity(b.len());
        let mut i: usize = 0;
        while i < b.len()
            invariant
                i <= b.len(),
                v@ == b@.subrange(0, i as int),
            decreases b.len() - i,
        {
            v.push(b[i]);
            i += 1;
            assert(v@ =~= b@.subrange(0, i as int));
        }
        assert(b@.subrange(0, b.len() as int) =~= b@);
        AnyValue { value: Some(Value::BytesValue(v)) }
    }
}

impl KeyValue {
    /// An attribute with the given key and value.
    pub fn new(key: &str, value: AnyValue) -> (r: KeyValue)
        ensures
            r@ == attr(key@, value@),
    {
        KeyValue { key: String::from_str(key), value: Some(value) }
    }

    /// An attribute that takes ownership of its key.
    pub fn new_owned(key: String, value: AnyValue) -> (r: KeyValue)
        ensures
            r@ == attr(key@, value@),
    {
        KeyValue { key, value: Some(value) }
    }
}

impl InstrumentationScope {
    /// The empty scope (no name, version or attributes).
    pub fn empty() -> (r: InstrumentationScope)
        ensures
            r@ == empty_scope(),
    {
        InstrumentationScope {
            name: String::new(),
            version: String::new(),
            attributes: Vec::new(),
            dropped_attributes_count: 0,
        }
    }

    /// A scope with only a name.
    pub fn named(name: &str) -> (r: InstrumentationScope)
        ensures
            r@ == named_scope(name@),
    {
        InstrumentationScope {
            name: String::from_str(name),
            version: String::new(),
            attributes: Vec::new(),
            dropped_attributes_count: 0,
        }
    }
}

impl Resource {
    /// The empty resource (no attributes).
    pub fn empty() -> (r: Resource)
        ensures
            r@ == resource_with(Seq::empty()),
    {
        Resource { attributes: Vec::new(), dropped_attributes_count: 0 }
    }

    /// A resource with the given attributes.
    pub fn with_attributes(attributes: Vec<KeyValue>) -> (r: Resource)
        ensures
            r@ == resource_with(key_values_model(attributes@)),
    {
        Resource { attributes, dropped_attributes_count: 0 }
    }
}



/// A list of one attribute.
pub fn attrs1(a: KeyValue) -> (r: Vec<KeyValue>)
    ensures
        key_values_model(r@) == seq![a@],
{
    let r = vec![a];
    proof {
        lemma_key_values_model(r@);
        assert(key_values_model(r@) =~= seq![a@]);
    }
    r
}

/// A list of two attributes.
pub fn attrs2(a: KeyValue, b: KeyValue) -> (r: Vec<KeyValue>)
    ensures
        key_values_model(r@) == seq![a@, b@],
{
    let r = vec![a, b];
    proof {
        lemma_key_values_model(r@);
        assert(key_values_model(r@) =~= seq![a@, b@]);
    }
    r
}

} // verus!
