use vstd::prelude::*;
use vstd::string::*;

use crate::error::{ConvertTarget, KvError, STATUS_OK};

verus! {

/// The payload of a populated `Value`: exactly one tag.
///
/// A float is carried as its IEEE-754 bit pattern.
#[derive(Debug, PartialEq)]
pub enum ValueKind {
    String(String),
    Integer(i64),
    Float(u64),
    Binary(Vec<u8>),
    Bool(bool),
}

/// A tagged value; `value == None` is the empty value, the sentinel for "absent".
#[derive(Debug, PartialEq)]
pub struct Value {
    pub value: Option<ValueKind>,
}

/// What a `Value` holds, as mathematical data.
pub enum ValueModel {
    Empty,
    Str(Seq<char>),
    Int(i64),
    Float(u64),
    Bin(Seq<u8>),
    Bool(bool),
}

impl View for Value {
    type V = ValueModel;

    open spec fn view(&self) -> ValueModel {
        match self.value {
            None => ValueModel::Empty,
            Some(ValueKind::String(s)) => ValueModel::Str(s@),
            Some(ValueKind::Integer(i)) => ValueModel::Int(i),
            Some(ValueKind::Float(f)) => ValueModel::Float(f),
            Some(ValueKind::Binary(b)) => ValueModel::Bin(b@),
            Some(ValueKind::Bool(b)) => ValueModel::Bool(b),
        }
    }
}

impl Clone for Value {
    fn clone(&self) -> (r: Value)
        ensures
            r@ == self@,
    {
        match &self.value {
            None => Value { value: None },
            Some(ValueKind::String(s)) => Value { value: Some(ValueKind::String(s.clone())) },
            Some(ValueKind::Integer(i)) => Value { value: Some(ValueKind::Integer(*i)) },
            Some(ValueKind::Float(f)) => Value { value: Some(ValueKind::Float(*f)) },
            Some(ValueKind::Binary(b)) => Value { value: Some(ValueKind::Binary(b.clone())) },
            Some(ValueKind::Bool(b)) => Value { value: Some(ValueKind::Bool(*b)) },
        }
    }
}

impl Default for Value {
    fn default() -> (r: Value)
        ensures
            r@ == ValueModel::Empty,
    {
        Value { value: None }
    }
}

} // verus!

verus! {

/// The view of an optional value, as stored in a pair.
pub open spec fn opt_value_view(v: Option<Value>) -> Option<ValueModel> {
    match v {
        Some(x) => Some(x@),
        None => None,
    }
}

/// The views of a sequence of values.
pub open spec fn values_view(vs: Seq<Value>) -> Seq<ValueModel> {
    vs.map_values(|v: Value| v@)
}

/// The views of a sequence of pairs.
pub open spec fn pairs_view(ps: Seq<Kvpair>) -> Seq<(Seq<char>, Option<ValueModel>)> {
    ps.map_values(|p: Kvpair| p@)
}

/// The views of a sequence of strings.
pub open spec fn strings_view(ks: Seq<String>) -> Seq<Seq<char>> {
    ks.map_values(|k: String| k@)
}

impl From<String> for Value {
    fn from(s: String) -> (r: Value) {
        Value { value: Some(ValueKind::String(s)) }
    }
}

impl vstd::std_specs::convert::FromSpecImpl<String> for Value {
    open spec fn obeys_from_spec() -> bool {
        true
    }

    open spec fn from_spec(s: String) -> Value {
        Value { value: Some(ValueKind::String(s)) }
    }
}

impl<'a> From<&'a str> for Value {
    fn from(s: &'a str) -> (r: Value)
        ensures
            r@ == ValueModel::Str(s@),
    {
        Value::from_str(s)
    }
}

impl<'a> vstd::std_specs::convert::FromSpecImpl<&'a str> for Value {
    /// The result holds a fresh `String`, which no spec expression names; the
    /// view of the result is stated on `from` itself.
    open spec fn obeys_from_spec() -> bool {
        false
    }

    open spec fn from_spec(s: &'a str) -> Value {
        Value { value: None }
    }
}

impl From<i64> for Value {
    fn from(i: i64) -> (r: Value) {
        Value { value: Some(ValueKind::Integer(i)) }
    }
}

impl vstd::std_specs::convert::FromSpecImpl<i64> for Value {
    open spec fn obeys_from_spec() -> bool {
        true
    }

    open spec fn from_spec(i: i64) -> Value {
        Value { value: Some(ValueKind::Integer(i)) }
    }
}

impl From<bool> for Value {
    fn from(b: bool) -> (r: Value) {
        Value { value: Some(ValueKind::Bool(b)) }
    }
}

impl vstd::std_specs::convert::FromSpecImpl<bool> for Value {
    open spec fn obeys_from_spec() -> bool {
        true
    }

    open spec fn from_spec(b: bool) -> Value {
        Value { value: Some(ValueKind::Bool(b)) }
    }
}

impl From<Vec<u8>> for Value {
    fn from(b: Vec<u8>) -> (r: Value) {
        Value { value: Some(ValueKind::Binary(b)) }
    }
}

impl vstd::std_specs::convert::FromSpecImpl<Vec<u8>> for Value {
    open spec fn obeys_from_spec() -> bool {
        true
    }

    open spec fn from_spec(b: Vec<u8>) -> Value {
        Value { value: Some(ValueKind::Binary(b)) }
    }
}

impl Value {
    /// A string value with the characters of `s`.
    pub fn from_str(s: &str) -> (r: Value)
        ensures
            r@ == ValueModel::Str(s@),
    {
        Value { value: Some(ValueKind::String(String::from_str(s))) }
    }

    /// A float value, given by its IEEE-754 bit pattern.
    pub fn from_float_bits(bits: u64) -> (r: Value)
        ensures
            r@ == ValueModel::Float(bits),
    {
        Value { value: Some(ValueKind::Float(bits)) }
    }

    pub open spec fn is_empty_view(&self) -> bool {
        self.value is None
    }

    /// Downcast to an integer; a convert error names the value and the target otherwise.
    pub fn into_integer(self) -> (r: Result<i64, KvError>)
        ensures
            match self@ {
                ValueModel::Int(i) => r == Ok::<i64, KvError>(i),
                _ => r == Err::<i64, KvError>(KvError::ConvertError(self, ConvertTarget::Integer)),
            },
    {
        match self.value {
            Some(ValueKind::Integer(i)) => Ok(i),
            _ => Err(KvError::ConvertError(self, ConvertTarget::Integer)),
        }
    }

    /// Downcast to the bit pattern of a float.
    pub fn into_float_bits(self) -> (r: Result<u64, KvError>)
        ensures
            match self@ {
                ValueModel::Float(f) => r == Ok::<u64, KvError>(f),
                _ => r == Err::<u64, KvError>(KvError::ConvertError(self, ConvertTarget::Float)),
            },
    {
        match self.value {
            Some(ValueKind::Float(f)) => Ok(f),
            _ => Err(KvError::ConvertError(self, ConvertTarget::Float)),
        }
    }

    /// Downcast to a binary blob.
    pub fn into_binary(self) -> (r: Result<Vec<u8>, KvError>)
        ensures
            match self@ {
                ValueModel::Bin(b) => r matches Ok(v) && v@ == b,
                _ => r == Err::<Vec<u8>, KvError>(KvError::ConvertError(self, ConvertTarget::Binary)),
            },
    {
        match self.value {
            Some(ValueKind::Binary(b)) => Ok(b),
            _ => Err(KvError::ConvertError(self, ConvertTarget::Binary)),
        }
    }

    /// Downcast to a boolean.
    pub fn into_bool(self) -> (r: Result<bool, KvError>)
        ensures
            match self@ {
                ValueModel::Bool(b) => r == Ok::<bool, KvError>(b),
                _ => r == Err::<bool, KvError>(KvError::ConvertError(self, ConvertTarget::Boolean)),
            },
    {
        match self.value {
            Some(ValueKind::Bool(b)) => Ok(b),
            _ => Err(KvError::ConvertError(self, ConvertTarget::Boolean)),
        }
    }
}

/// A key and its value.
#[derive(Debug, PartialEq)]
pub struct Kvpair {
    pub key: String,
    pub value: Option<Value>,
}

impl View for Kvpair {
    type V = (Seq<char>, Option<ValueModel>);

    open spec fn view(&self) -> (Seq<char>, Option<ValueModel>) {
        (self.key@, opt_value_view(self.value))
    }
}

impl Clone for Kvpair {
    fn clone(&self) -> (r: Kvpair)
        ensures
            r@ == self@,
    {
        let value = match &self.value {
            Some(v) => Some(v.clone()),
            None => None,
        };
        Kvpair { key: self.key.clone(), value }
    }
}

impl Kvpair {
    /// A pair whose value is present.
    pub fn new(key: &str, value: Value) -> (r: Self)
        ensures
            r@ == (key@, Some(value@)),
    {
        Kvpair { key: String::from_str(key), value: Some(value) }
    }
}

impl From<(String, Value)> for Kvpair {
    fn from(data: (String, Value)) -> (r: Kvpair) {
        Kvpair { key: data.0, value: Some(data.1) }
    }
}

impl vstd::std_specs::convert::FromSpecImpl<(String, Value)> for Kvpair {
    open spec fn obeys_from_spec() -> bool {
        true
    }

    open spec fn from_spec(data: (String, Value)) -> Kvpair {
        Kvpair { key: data.0, value: Some(data.1) }
    }
}

#[derive(Debug, Clone, PartialEq)]
pub struct Hget {
    pub table: String,
    pub key: String,
}

#[derive(Debug, Clone, PartialEq)]
pub struct Hgetall {
    pub table: String,
}

#[derive(Debug, Clone, PartialEq)]
pub struct Hmget {
    pub table: String,
    pub keys: Vec<String>,
}

#[derive(Debug, Clone, PartialEq)]
pub struct Hset {
    pub table: String,
    pub pair: Option<Kvpair>,
}

#[derive(Debug, Clone, PartialEq)]
pub struct Hmset {
    pub table: String,
    pub pairs: Vec<Kvpair>,
}

#[derive(Debug, Clone, PartialEq)]
pub struct Hdel {
    pub table: String,
    pub key: String,
}

#[derive(Debug, Clone, PartialEq)]
pub struct Hmdel {
    pub table: String,
    pub keys: Vec<String>,
}

#[derive(Debug, Clone, PartialEq)]
pub struct Hexist {
    pub table: String,
    pub key: String,
}

#[derive(Debug, Clone, PartialEq)]
pub struct Hmexist {
    pub table: String,
    pub keys: Vec<String>,
}

/// The nine hash-table operations.
#[derive(Debug, Clone, PartialEq)]
pub enum RequestData {
    Hget(Hget),
    Hgetall(Hgetall),
    Hmget(Hmget),
    Hset(Hset),
    Hmset(Hmset),
    Hdel(Hdel),
    Hmdel(Hmdel),
    Hexist(Hexist),
    Hmexist(Hmexist),
}

/// A request; one with no operation is malformed.
#[derive(Debug, Clone, PartialEq)]
pub struct CommandRequest {
    pub request_data: Option<RequestData>,
}

impl CommandRequest {
    /// HSET: store `value` under `key` in `table`.
    pub fn new_hset(table: &str, key: &str, value: Value) -> (r: Self)
        ensures
            r.request_data matches Some(RequestData::Hset(h)) && h.table@ == table@ && (h.pair matches Some(
                p,
            ) && p@ == (key@, Some(value@))),
    {
        CommandRequest {
            request_data: Some(
                RequestData::Hset(Hset { table: String::from_str(table), pair: Some(Kvpair::new(key, value)) }),
            ),
        }
    }

    /// HGET: read one key.
    pub fn new_hget(table: &str, key: &str) -> (r: Self)
        ensures
            r.request_data matches Some(RequestData::Hget(h)) && h.table@ == table@ && h.key@ == key@,
    {
        CommandRequest {
            request_data: Some(
                RequestData::Hget(Hget { table: String::from_str(table), key: String::from_str(key) }),
            ),
        }
    }

    /// HGETALL: read a whole table.
    pub fn new_hgetall(table: &str) -> (r: Self)
        ensures
            r.request_data matches Some(RequestData::Hgetall(h)) && h.table@ == table@,
    {
        CommandRequest {
            request_data: Some(RequestData::Hgetall(Hgetall { table: String::from_str(table) })),
        }
    }

    /// HMGET: read several keys.
    pub fn new_hmget(table: &str, keys: Vec<String>) -> (r: Self)
        ensures
            r.request_data matches Some(RequestData::Hmget(h)) && h.table@ == table@ && h.keys == keys,
    {
        CommandRequest {
            request_data: Some(RequestData::Hmget(Hmget { table: String::from_str(table), keys })),
        }
    }

    /// HMSET: store several pairs, left to right.
    pub fn new_hmset(table: &str, pairs: Vec<Kvpair>) -> (r: Self)
        ensures
            r.request_data matches Some(RequestData::Hmset(h)) && h.table@ == table@ && h.pairs == pairs,
    {
        CommandRequest {
            request_data: Some(RequestData::Hmset(Hmset { table: String::from_str(table), pairs })),
        }
    }

    /// HDEL: remove one key.
    pub fn new_hdel(table: &str, key: &str) -> (r: Self)
        ensures
            r.request_data matches Some(RequestData::Hdel(h)) && h.table@ == table@ && h.key@ == key@,
    {
        CommandRequest {
            request_data: Some(
                RequestData::Hdel(Hdel { table: String::from_str(table), key: String::from_str(key) }),
            ),
        }
    }

    /// HMDEL: remove several keys.
    pub fn new_hmdel(table: &str, keys: Vec<String>) -> (r: Self)
        ensures
            r.request_data matches Some(RequestData::Hmdel(h)) && h.table@ == table@ && h.keys == keys,
    {
        CommandRequest {
            request_data: Some(RequestData::Hmdel(Hmdel { table: String::from_str(table), keys })),
        }
    }

    /// HEXIST: test one key.
    pub fn new_hexist(table: &str, key: &str) -> (r: Self)
        ensures
            r.request_data matches Some(RequestData::Hexist(h)) && h.table@ == table@ && h.key@ == key@,
    {
        CommandRequest {
            request_data: Some(
                RequestData::Hexist(Hexist { table: String::from_str(table), key: String::from_str(key) }),
            ),
        }
    }

    /// HMEXIST: test several keys.
    pub fn new_hmexist(table: &str, keys: Vec<String>) -> (r: Self)
        ensures
            r.request_data matches Some(RequestData::Hmexist(h)) && h.table@ == table@ && h.keys == keys,
    {
        CommandRequest {
            request_data: Some(RequestData::Hmexist(Hmexist { table: String::from_str(table), keys })),
        }
    }
}

/// A response: an HTTP-style status, a message that is empty on success,
/// scalar results in `values` and pair results in `pairs`.
#[derive(Debug, Clone, PartialEq)]
pub struct CommandResponse {
    pub status: u32,
    pub message: String,
    pub values: Vec<Value>,
    pub pairs: Vec<Kvpair>,
}

/// What a response holds, as mathematical data.
pub struct ResponseModel {
    pub status: u32,
    pub message: Seq<char>,
    pub values: Seq<ValueModel>,
    pub pairs: Seq<(Seq<char>, Option<ValueModel>)>,
}

impl View for CommandResponse {
    type V = ResponseModel;

    open spec fn view(&self) -> ResponseModel {
        ResponseModel {
            status: self.status,
            message: self.message@,
            values: values_view(self.values@),
            pairs: pairs_view(self.pairs@),
        }
    }
}

/// A successful response that carries `values`.
pub open spec fn ok_values(values: Seq<ValueModel>) -> ResponseModel {
    ResponseModel { status: STATUS_OK, message: Seq::empty(), values, pairs: Seq::empty() }
}

/// The response that reports `e`.
pub open spec fn error_response(e: KvError) -> ResponseModel {
    ResponseModel {
        status: e.status_view(),
        message: e.message_view(),
        values: Seq::empty(),
        pairs: Seq::empty(),
    }
}

impl CommandResponse {
    /// Status 200 with the single value `v`.
    pub fn from_value(v: Value) -> (r: Self)
        ensures
            r@ == ok_values(seq![v@]),
    {
        let mut values = Vec::new();
        values.push(v);
        let r = CommandResponse { status: STATUS_OK, message: String::new(), values, pairs: Vec::new() };
        proof {
            assert(values_view(r.values@) =~= seq![v@]);
            assert(pairs_view(r.pairs@) =~= Seq::empty());
        }
        r
    }

    /// Status 200 with `values`.
    pub fn from_values(values: Vec<Value>) -> (r: Self)
        ensures
            r@ == ok_values(values_view(values@)),
    {
        let r = CommandResponse { status: STATUS_OK, message: String::new(), values, pairs: Vec::new() };
        proof {
            assert(pairs_view(r.pairs@) =~= Seq::empty());
        }
        r
    }

    /// Status 200 with `pairs`.
    pub fn from_pairs(pairs: Vec<Kvpair>) -> (r: Self)
        ensures
            r@ == (ResponseModel {
                status: STATUS_OK,
                message: Seq::empty(),
                values: Seq::empty(),
                pairs: pairs_view(pairs@),
            }),
    {
        let r = CommandResponse { status: STATUS_OK, message: String::new(), values: Vec::new(), pairs };
        proof {
            assert(values_view(r.values@) =~= Seq::empty());
        }
        r
    }

    /// The status of `e`, its display text, and no payload.
    pub fn from_error(e: KvError) -> (r: Self)
        ensures
            r@ == error_response(e),
    {
        let status = e.status();
        let message = e.message();
        let r = CommandResponse { status, message, values: Vec::new(), pairs: Vec::new() };
        proof {
            assert(values_view(r.values@) =~= Seq::empty());
            assert(pairs_view(r.pairs@) =~= Seq::empty());
        }
        r
    }
}

} // verus!
