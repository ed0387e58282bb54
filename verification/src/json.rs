//! JSON values, and their reading and writing through `serde_json`.

use vstd::prelude::*;

use crate::lists::pushed_item_comes_first;
use crate::pairs::{find, is_listed, lookup};
use crate::text::{
    is_before, precedes, precedes_is_irreflexive, precedes_is_total, precedes_is_transitive, same,
};

verus! {

/// A JSON number: an integer that is not negative, a negative integer, or a
/// floating point number, given by the bits of its double-precision encoding.
pub enum NumberView {
    PosInt(u64),
    NegInt(i64),
    Float(u64),
}

/// A JSON value.
pub enum JsonView {
    Null,
    Bool(bool),
    Number(NumberView),
    Str(Seq<char>),
    Array(Seq<JsonView>),
    Object(Seq<(Seq<char>, JsonView)>),
}

/// The members of a JSON object, in the order of their keys.
pub type Fields = Seq<(Seq<char>, JsonView)>;

/// A JSON value that a program can hold.
pub enum Json {
    Null,
    Bool(bool),
    Number(serde_json::Number),
    Str(String),
    Array(Vec<Json>),
    Object(JsonObject),
}

/// A JSON object: its keys are in strictly ascending order.
pub struct JsonObject {
    entries: Vec<(String, Json)>,
}

/// `serde_json::Number`, whose contents are named by `number_value`.
#[verifier::external_type_specification]
#[verifier::external_body]
pub struct ExNumber(serde_json::Number);

/// `serde_json::Value`, whose contents are named by `json_value`.
#[verifier::external_type_specification]
#[verifier::external_body]
pub struct ExValue(serde_json::Value);

/// What a `serde_json::Number` holds.
pub uninterp spec fn number_value(n: serde_json::Number) -> NumberView;

/// What a `serde_json::Value` holds.
pub uninterp spec fn json_value(v: serde_json::Value) -> JsonView;

/// What a `Json` stands for.
pub open spec fn json_view(j: Json) -> JsonView
    decreases j,
{
    match j {
        Json::Null => JsonView::Null,
        Json::Bool(b) => JsonView::Bool(b),
        Json::Number(n) => JsonView::Number(number_value(n)),
        Json::Str(s) => JsonView::Str(s@),
        Json::Array(v) => JsonView::Array(
            Seq::new(v@.len(), |i: int| if 0 <= i < v@.len() { json_view(v@[i]) } else { JsonView::Null }),
        ),
        Json::Object(o) => JsonView::Object(o.fields()),
    }
}

impl JsonObject {
    /// The members of the object, in order.
    pub closed spec fn fields(self) -> Fields
        decreases self,
    {
        Seq::new(
            self.entries@.len(),
            |i: int|
                if 0 <= i < self.entries@.len() {
                    (self.entries@[i].0@, json_view(self.entries@[i].1))
                } else {
                    (Seq::<char>::empty(), JsonView::Null)
                },
        )
    }
}

impl View for Json {
    type V = JsonView;

    open spec fn view(&self) -> JsonView {
        json_view(*self)
    }
}

impl DeepView for Json {
    type V = JsonView;

    open spec fn deep_view(&self) -> JsonView {
        json_view(*self)
    }
}

/// An array stands for what its elements stand for.
pub proof fn array_view(items: Vec<Json>)
    ensures
        Json::Array(items)@ == JsonView::Array(items.deep_view()),
{
    let a = Json::Array(items)@->Array_0;
    assert forall|i: int| 0 <= i < items@.len() implies a[i] == items.deep_view()[i] by {
        assert(items.deep_view()[i] == json_view(items@[i]));
    }
    assert(a =~= items.deep_view());
}

/// One level of a JSON value, with what is below still held by `serde_json`.
pub enum JsonNode {
    Null,
    Bool(bool),
    Number(serde_json::Number),
    Str(String),
    Array(Vec<serde_json::Value>),
    Object(Vec<(String, serde_json::Value)>),
}

/// The members that a list of pairs gives.
pub open spec fn value_fields(entries: Seq<(String, serde_json::Value)>) -> Fields {
    Seq::new(entries.len(), |i: int| (entries[i].0@, json_value(entries[i].1)))
}

/// The elements that a list of values gives.
pub open spec fn value_items(items: Seq<serde_json::Value>) -> Seq<JsonView> {
    Seq::new(items.len(), |i: int| json_value(items[i]))
}

/// What one level of a JSON value stands for.
pub open spec fn node_view(node: JsonNode) -> JsonView {
    match node {
        JsonNode::Null => JsonView::Null,
        JsonNode::Bool(b) => JsonView::Bool(b),
        JsonNode::Number(n) => JsonView::Number(number_value(n)),
        JsonNode::Str(s) => JsonView::Str(s@),
        JsonNode::Array(v) => JsonView::Array(value_items(v@)),
        JsonNode::Object(e) => JsonView::Object(value_fields(e@)),
    }
}

/// Whether the keys are in strictly ascending order.
pub open spec fn ascending(fields: Fields) -> bool {
    forall|i: int, j: int| 0 <= i < j < fields.len() ==> precedes(#[trigger] fields[i].0, #[trigger] fields[j].0)
}

/// Tells the variants of `serde_json::Value` apart and hands out what each
/// holds. The members of an object come in the order in which
/// `serde_json::Map` is walked, which is that of a `BTreeMap`: by key.
#[verifier::external_body]
fn open_value(value: serde_json::Value) -> (r: JsonNode)
    ensures
        node_view(r) == json_value(value),
        r matches JsonNode::Object(e) ==> ascending(value_fields(e@)),
{
    match value {
        serde_json::Value::Null => JsonNode::Null,
        serde_json::Value::Bool(b) => JsonNode::Bool(b),
        serde_json::Value::Number(n) => JsonNode::Number(n),
        serde_json::Value::String(s) => JsonNode::Str(s),
        serde_json::Value::Array(v) => JsonNode::Array(v),
        serde_json::Value::Object(m) => JsonNode::Object(m.into_iter().collect()),
    }
}

/// Makes a `serde_json::Value` of one level: each variant from its own, an
/// object by collecting its members, whose keys are in ascending order, into a
/// `serde_json::Map`.
#[verifier::external_body]
fn close_value(node: JsonNode) -> (r: serde_json::Value)
    requires
        node matches JsonNode::Object(e) ==> ascending(value_fields(e@)),
    ensures
        json_value(r) == node_view(node),
{
    match node {
        JsonNode::Null => serde_json::Value::Null,
        JsonNode::Bool(b) => serde_json::Value::Bool(b),
        JsonNode::Number(n) => serde_json::Value::Number(n),
        JsonNode::Str(s) => serde_json::Value::String(s),
        JsonNode::Array(v) => serde_json::Value::Array(v),
        JsonNode::Object(e) => serde_json::Value::Object(e.into_iter().collect()),
    }
}

/// `serde_json::Number::as_u64`: the integer, where it is one that is not
/// negative.
#[verifier::external_body]
pub(crate) fn number_as_u64(n: &serde_json::Number) -> (r: Option<u64>)
    ensures
        r == (match number_value(*n) {
            NumberView::PosInt(u) => Some(u),
            _ => None,
        }),
{
    n.as_u64()
}

/// `serde_json::Number::as_i64`: the integer, where it is one in range.
#[verifier::external_body]
pub(crate) fn number_as_i64(n: &serde_json::Number) -> (r: Option<i64>)
    ensures
        r == (match number_value(*n) {
            NumberView::PosInt(u) => if u <= i64::MAX {
                Some(u as i64)
            } else {
                None
            },
            NumberView::NegInt(i) => Some(i),
            NumberView::Float(_) => None,
        }),
{
    n.as_i64()
}

/// `serde_json::Number::as_f64`, by its bits: those of the number, where it is a
/// floating point number.
#[verifier::external_body]
pub(crate) fn number_as_float_bits(n: &serde_json::Number) -> (r: Option<u64>)
    ensures
        (match number_value(*n) {
            NumberView::Float(bits) => r == Some(bits),
            _ => r is Some,
        }),
{
    n.as_f64().map(|x| x.to_bits())
}

/// `Clone` of `serde_json::Number`: the same number.
pub assume_specification[ <serde_json::Number as Clone>::clone ](n: &serde_json::Number) -> (r: serde_json::Number)
    ensures
        r == *n,
;

/// The members after one more is written: in place of the member with the same
/// key, or else where its key belongs.
pub open spec fn with_member(fields: Fields, key: Seq<char>, value: JsonView) -> Fields
    decreases fields.len(),
{
    if fields.len() == 0 {
        seq![(key, value)]
    } else if fields[0].0 == key {
        seq![(key, value)] + fields.drop_first()
    } else if precedes(key, fields[0].0) {
        seq![(key, value)] + fields
    } else {
        seq![fields[0]] + with_member(fields.drop_first(), key, value)
    }
}

/// Members whose keys come before a written key stay in front of it.
proof fn with_member_from(fields: Fields, key: Seq<char>, value: JsonView, i: int)
    requires
        0 <= i <= fields.len(),
        forall|k: int| 0 <= k < i ==> precedes((#[trigger] fields[k]).0, key),
    ensures
        with_member(fields, key, value) == fields.take(i) + with_member(fields.skip(i), key, value),
    decreases i,
{
    if i == 0 {
        assert(fields.skip(0) =~= fields);
        assert(fields.take(0) + with_member(fields, key, value) =~= with_member(fields, key, value));
    } else {
        let rest = fields.drop_first();
        assert forall|k: int| 0 <= k < i - 1 implies precedes((#[trigger] rest[k]).0, key) by {
            assert(rest[k] == fields[k + 1]);
        }
        with_member_from(rest, key, value, i - 1);
        assert(precedes(fields[0].0, key));
        precedes_is_irreflexive(key);
        if precedes(key, fields[0].0) {
            precedes_is_transitive(key, fields[0].0, key);
        }
        assert(rest.skip(i - 1) =~= fields.skip(i));
        assert(seq![fields[0]] + (rest.take(i - 1) + with_member(rest.skip(i - 1), key, value)) =~= fields.take(i)
            + with_member(fields.skip(i), key, value));
    }
}

/// A member put where its key belongs leaves the keys in order.
proof fn inserting_keeps_order(fields: Fields, i: int, member: (Seq<char>, JsonView))
    requires
        ascending(fields),
        0 <= i <= fields.len(),
        forall|k: int| 0 <= k < i ==> precedes((#[trigger] fields[k]).0, member.0),
        i < fields.len() ==> precedes(member.0, fields[i].0),
    ensures
        ascending(fields.insert(i, member)),
{
    let after = fields.insert(i, member);
    assert forall|a: int, b: int| 0 <= a < b < after.len() implies precedes(
        #[trigger] after[a].0,
        #[trigger] after[b].0,
    ) by {
        let x = if a < i { fields[a] } else if a == i { member } else { fields[a - 1] };
        let y = if b < i { fields[b] } else if b == i { member } else { fields[b - 1] };
        assert(after[a] == x && after[b] == y);
        if a == i && b > i + 1 {
            precedes_is_transitive(member.0, fields[i].0, fields[b - 1].0);
        }
    }
}

/// A member with another value leaves the keys in order.
proof fn replacing_keeps_order(fields: Fields, i: int, value: JsonView)
    requires
        ascending(fields),
        0 <= i < fields.len(),
    ensures
        ascending(fields.update(i, (fields[i].0, value))),
{
    let after = fields.update(i, (fields[i].0, value));
    assert forall|a: int, b: int| 0 <= a < b < after.len() implies precedes(
        #[trigger] after[a].0,
        #[trigger] after[b].0,
    ) by {
        assert(after[a].0 == fields[a].0 && after[b].0 == fields[b].0);
    }
}

impl JsonObject {
    /// The keys are in strictly ascending order.
    #[verifier::type_invariant]
    spec fn ordered(self) -> bool {
        ascending(self.fields())
    }

    /// The members, each value held by `serde_json`.
    fn to_pairs(&self) -> (r: Vec<(String, serde_json::Value)>)
        ensures
            value_fields(r@) == self@,
        decreases *self,
    {
        let mut out: Vec<(String, serde_json::Value)> = Vec::new();
        let mut i: usize = 0;
        while i < self.entries.len()
            invariant
                i <= self.entries.len(),
                out@.len() == i,
                forall|k: int|
                    0 <= k < i ==> (#[trigger] out@[k]).0@ == self.entries@[k].0@ && json_value(out@[k].1) == json_view(
                        self.entries@[k].1,
                    ),
            decreases self.entries.len() - i,
        {
            assert(decreases_to!(*self => self.entries));
            assert(decreases_to!(self.entries => self.entries@));
            assert(decreases_to!(self.entries@ => self.entries@[i as int]));
            assert(decreases_to!(self.entries@[i as int] => self.entries@[i as int].1));
            out.push((self.entries[i].0.clone(), self.entries[i].1.to_value()));
            i += 1;
        }
        assert(value_fields(out@) =~= self@);
        out
    }

    /// A copy of the object.
    pub fn duplicate(&self) -> (r: JsonObject)
        ensures
            r@ == self@,
        decreases *self,
    {
        let mut out: Vec<(String, Json)> = Vec::new();
        let mut i: usize = 0;
        while i < self.entries.len()
            invariant
                i <= self.entries.len(),
                out@.len() == i,
                forall|k: int|
                    0 <= k < i ==> (#[trigger] out@[k]).0@ == self.entries@[k].0@ && json_view(out@[k].1) == json_view(
                        self.entries@[k].1,
                    ),
            decreases self.entries.len() - i,
        {
            assert(decreases_to!(*self => self.entries));
            assert(decreases_to!(self.entries => self.entries@));
            assert(decreases_to!(self.entries@ => self.entries@[i as int]));
            assert(decreases_to!(self.entries@[i as int] => self.entries@[i as int].1));
            out.push((self.entries[i].0.clone(), self.entries[i].1.duplicate()));
            i += 1;
        }
        assert((JsonObject { entries: out }).fields() =~= self@);
        proof {
            use_type_invariant(self);
        }
        JsonObject { entries: out }
    }

    /// An object without members.
    pub fn empty() -> (r: JsonObject)
        ensures
            r@ == Fields::empty(),
    {
        let entries: Vec<(String, Json)> = Vec::new();
        assert((JsonObject { entries }).fields() =~= Fields::empty());
        JsonObject { entries }
    }

    /// How many members there are.
    pub fn len(&self) -> (r: usize)
        ensures
            r == self@.len(),
    {
        self.entries.len()
    }

    /// The key of the member at an index.
    pub fn key(&self, i: usize) -> (r: &str)
        requires
            i < self@.len(),
        ensures
            r@ == self@[i as int].0,
    {
        self.entries[i].0.as_str()
    }

    /// The value of the member at an index.
    pub fn value(&self, i: usize) -> (r: &Json)
        requires
            i < self@.len(),
        ensures
            r@ == self@[i as int].1,
    {
        &self.entries[i].1
    }

    /// The value of the member with a given key.
    pub fn get(&self, key: &str) -> (r: Option<&Json>)
        ensures
            r.deep_view() == lookup(self@, key@),
    {
        assert(self.entries.deep_view() =~= self@);
        find(&self.entries, key)
    }

    /// A copy without the members under the given names.
    pub fn without(&self, names: &Vec<&str>) -> (r: JsonObject)
        ensures
            r@ == without_members(self@, names.deep_view()),
    {
        proof {
            use_type_invariant(self);
        }
        let ghost all = self@;
        let ghost left_out = names.deep_view();
        let mut out: Vec<(String, Json)> = Vec::new();
        let mut i: usize = 0;
        assert((JsonObject { entries: out }).fields() =~= Seq::empty());
        assert(all.skip(0) =~= all);
        assert(Seq::empty() + without_members(all, left_out) =~= without_members(all, left_out));
        while i < self.entries.len()
            invariant
                i <= self.entries.len(),
                all == self@,
                ascending(all),
                left_out == names.deep_view(),
                ascending((JsonObject { entries: out }).fields()),
                forall|k: int, j: int|
                    0 <= k < out@.len() && i <= j < all.len() ==> precedes(
                        (#[trigger] (JsonObject { entries: out }).fields()[k]).0,
                        (#[trigger] all[j]).0,
                    ),
                without_members(all, left_out) == (JsonObject { entries: out }).fields() + without_members(
                    all.skip(i as int),
                    left_out,
                ),
            decreases self.entries.len() - i,
        {
            let ghost before = (JsonObject { entries: out }).fields();
            let ghost rest = all.skip(i as int);
            assert(rest[0] == all[i as int]);
            assert(rest.drop_first() =~= all.skip(i + 1));
            if !is_listed(names, self.entries[i].0.as_str()) {
                out.push((self.entries[i].0.clone(), self.entries[i].1.duplicate()));
                proof {
                    let after = (JsonObject { entries: out }).fields();
                    assert(after =~= before.push(all[i as int]));
                    assert forall|a: int, b: int| 0 <= a < b < after.len() implies precedes(
                        #[trigger] after[a].0,
                        #[trigger] after[b].0,
                    ) by {
                        assert(after[a] == before[a]);
                        if b < before.len() {
                            assert(after[b] == before[b]);
                        }
                    }
                    pushed_item_comes_first(before, rest[0]);
                }
            }
            i += 1;
        }
        assert(all.skip(i as int) =~= Seq::empty());
        assert((JsonObject { entries: out }).fields() + Seq::empty() =~= (JsonObject { entries: out }).fields());
        JsonObject { entries: out }
    }

    /// Writes a member: in place of the one with the same key, if there is one.
    pub fn insert(self, key: String, value: Json) -> (r: JsonObject)
        ensures
            r@ == with_member(self@, key@, value@),
    {
        proof {
            use_type_invariant(&self);
        }
        let ghost fields = self@;
        let mut entries = self.entries;
        let ghost before = entries@;
        let mut i: usize = 0;
        while i < entries.len() && is_before(entries[i].0.as_str(), key.as_str())
            invariant
                i <= entries@.len(),
                entries@ == before,
                fields.len() == before.len(),
                forall|k: int| 0 <= k < before.len() ==> (#[trigger] fields[k]).0 == before[k].0@,
                forall|k: int| 0 <= k < i ==> precedes((#[trigger] fields[k]).0, key@),
            decreases entries.len() - i,
        {
            i += 1;
        }
        let ghost member = (key@, value@);
        proof {
            with_member_from(fields, key@, value@, i as int);
        }
        if i < entries.len() && same(entries[i].0.as_str(), key.as_str()) {
            entries.set(i, (key, value));
            proof {
                assert((JsonObject { entries }).fields() =~= fields.update(i as int, member));
                assert(fields.skip(i as int).drop_first() =~= fields.skip(i + 1));
                assert(fields.take(i as int) + (seq![member] + fields.skip(i + 1)) =~= fields.update(i as int, member));
                replacing_keeps_order(fields, i as int, value@);
            }
            JsonObject { entries }
        } else {
            proof {
                if i < fields.len() {
                    precedes_is_total(key@, fields[i as int].0);
                }
            }
            entries.insert(i, (key, value));
            proof {
                assert((JsonObject { entries }).fields() =~= fields.insert(i as int, member));
                assert(fields.take(i as int) + (seq![member] + fields.skip(i as int)) =~= fields.insert(
                    i as int,
                    member,
                ));
                assert(i == fields.len() ==> seq![member] + fields.skip(i as int) =~= seq![member]);
                inserting_keeps_order(fields, i as int, member);
            }
            JsonObject { entries }
        }
    }
}

/// A written member is found under its key, and the others as before.
pub proof fn written_member_is_found(fields: Fields, key: Seq<char>, value: JsonView, other: Seq<char>)
    ensures
        lookup(with_member(fields, key, value), other) == (if other == key {
            Some(value)
        } else {
            lookup(fields, other)
        }),
    decreases fields.len(),
{
    let after = with_member(fields, key, value);
    if fields.len() == 0 {
        assert(after.drop_first() =~= fields);
        assert(lookup(fields, other) is None);
    } else if fields[0].0 == key {
        assert(after.drop_first() =~= fields.drop_first());
    } else if precedes(key, fields[0].0) {
        assert(after.drop_first() =~= fields);
    } else {
        written_member_is_found(fields.drop_first(), key, value, other);
        assert(after.drop_first() =~= with_member(fields.drop_first(), key, value));
    }
}

/// The members whose keys are none of the given names.
pub open spec fn without_members(fields: Fields, names: Seq<Seq<char>>) -> Fields
    decreases fields.len(),
{
    if fields.len() == 0 {
        Seq::empty()
    } else {
        let rest = without_members(fields.drop_first(), names);
        if names.contains(fields[0].0) {
            rest
        } else {
            seq![fields[0]] + rest
        }
    }
}

/// A member that is left out is not found, and the others are found as before.
pub proof fn left_out_members_are_not_found(fields: Fields, names: Seq<Seq<char>>, key: Seq<char>)
    ensures
        lookup(without_members(fields, names), key) == (if names.contains(key) {
            None
        } else {
            lookup(fields, key)
        }),
    decreases fields.len(),
{
    if fields.len() > 0 {
        let rest = fields.drop_first();
        left_out_members_are_not_found(rest, names, key);
        if !names.contains(fields[0].0) {
            let after = without_members(fields, names);
            assert(after.drop_first() =~= without_members(rest, names));
        }
    }
}

impl View for JsonObject {
    type V = Fields;

    open spec fn view(&self) -> Fields {
        self.fields()
    }
}

impl DeepView for JsonObject {
    type V = Fields;

    open spec fn deep_view(&self) -> Fields {
        self.fields()
    }
}

/// What a fallible function gave, in terms of what its values stand for.
pub open spec fn outcome<T: DeepView, E: DeepView>(r: Result<T, E>) -> Result<T::V, E::V> {
    match r {
        Ok(t) => Ok(t.deep_view()),
        Err(e) => Err(e.deep_view()),
    }
}

/// What a fallible function gave is what its value, or its error, stands for.
pub proof fn outcomes_are_what_was_given<T: DeepView, E: DeepView>(r: Result<T, E>)
    ensures
        match (r, outcome(r)) {
            (Ok(t), Ok(v)) => t.deep_view() == v,
            (Err(e), Err(v)) => e.deep_view() == v,
            _ => false,
        },
{
}

/// What `serde_json::from_str` makes of a text: a value, or the words of its
/// error.
pub uninterp spec fn parsed(text: Seq<char>) -> Result<JsonView, Seq<char>>;

/// What `serde_json::from_slice` makes of bytes: a value, or the words of its
/// error.
pub uninterp spec fn parsed_bytes(bytes: Seq<u8>) -> Result<JsonView, Seq<char>>;

/// The compact text that `serde_json` writes of a value.
pub uninterp spec fn written(value: JsonView) -> Seq<char>;

/// The indented text that `serde_json::to_string_pretty` writes of a value, if
/// it writes one.
pub uninterp spec fn written_pretty(value: JsonView) -> Option<Seq<char>>;

/// The indented text of a value, or else the compact one.
pub open spec fn pretty_text(value: JsonView) -> Seq<char> {
    match written_pretty(value) {
        Some(text) => text,
        None => written(value),
    }
}

/// The bytes that `serde_json::to_vec` writes of a value, or the words of its
/// error.
pub uninterp spec fn written_bytes(value: JsonView) -> Result<Seq<u8>, Seq<char>>;

/// How deep lists and objects may be in one another for `serde_json` to read them.
pub const READING_DEPTH: u8 = 127;

/// The key by which `serde_json` marks, as the first of an object, that the object stands
/// for a JSON text and not for itself.
pub const RAW_VALUE_KEY: &'static str = "$serde_json::private::RawValue";

/// Whether lists and objects are at most so deep in one another, and no object begins
/// with the key that marks a JSON text.
pub open spec fn readable(value: JsonView, depth: nat) -> bool
    decreases depth, 0nat,
{
    match value {
        JsonView::Array(items) => depth > 0 && readable_items(items, (depth - 1) as nat),
        JsonView::Object(fields) => depth > 0 && (fields.len() > 0 ==> fields[0].0 != RAW_VALUE_KEY@)
            && readable_fields(fields, (depth - 1) as nat),
        _ => true,
    }
}

/// Whether that is so of every item.
pub open spec fn readable_items(items: Seq<JsonView>, depth: nat) -> bool
    decreases depth, 1nat,
{
    forall|i: int| 0 <= i < items.len() ==> readable(#[trigger] items[i], depth)
}

/// Whether that is so of every member's value.
pub open spec fn readable_fields(fields: Fields, depth: nat) -> bool
    decreases depth, 1nat,
{
    forall|i: int| 0 <= i < fields.len() ==> readable((#[trigger] fields[i]).1, depth)
}

/// Whether `serde_json` reads what it writes of a value.
pub open spec fn is_readable(value: JsonView) -> bool {
    readable(value, READING_DEPTH as nat)
}

/// Whether two values, with lists and objects at most so deep in one another, are the
/// same, floating-point numbers aside: one stands where the other has one.
pub open spec fn alike(a: JsonView, b: JsonView, depth: nat) -> bool
    decreases depth, 0nat,
{
    match (a, b) {
        (JsonView::Number(NumberView::Float(_)), JsonView::Number(NumberView::Float(_))) => true,
        (JsonView::Array(x), JsonView::Array(y)) => depth > 0 && alike_items(x, y, (depth - 1) as nat),
        (JsonView::Object(x), JsonView::Object(y)) => depth > 0 && alike_fields(x, y, (depth - 1) as nat),
        _ => !(a is Array) && !(a is Object) && a == b,
    }
}

/// Whether that is so item by item.
pub open spec fn alike_items(a: Seq<JsonView>, b: Seq<JsonView>, depth: nat) -> bool
    decreases depth, 1nat,
{
    a.len() == b.len() && forall|i: int| 0 <= i < a.len() ==> alike(#[trigger] a[i], b[i], depth)
}

/// Whether that is so member by member, under the same keys.
pub open spec fn alike_fields(a: Fields, b: Fields, depth: nat) -> bool
    decreases depth, 1nat,
{
    a.len() == b.len() && forall|i: int|
        0 <= i < a.len() ==> (#[trigger] a[i]).0 == b[i].0 && alike(a[i].1, b[i].1, depth)
}

/// Whether reading gave a value, floating-point numbers aside.
pub open spec fn reads_alike(read: Result<JsonView, Seq<char>>, value: JsonView) -> bool {
    read is Ok && alike(value, read->Ok_0, READING_DEPTH as nat)
}

/// Whether reading gave a value.
pub open spec fn reads_as(read: Result<JsonView, Seq<char>>, value: JsonView) -> bool {
    read is Ok && read->Ok_0 == value
}

/// Whether a value, as far as it is so deep, has no floating-point number in it.
pub open spec fn without_floats(value: JsonView, depth: nat) -> bool
    decreases depth, 0nat,
{
    match value {
        JsonView::Number(n) => !(n is Float),
        JsonView::Array(items) => depth > 0 ==> items_without_floats(items, (depth - 1) as nat),
        JsonView::Object(fields) => depth > 0 ==> fields_without_floats(fields, (depth - 1) as nat),
        _ => true,
    }
}

/// Whether that is so of every item.
pub open spec fn items_without_floats(items: Seq<JsonView>, depth: nat) -> bool
    decreases depth, 1nat,
{
    forall|i: int| 0 <= i < items.len() ==> without_floats(#[trigger] items[i], depth)
}

/// Whether that is so of every member's value.
pub open spec fn fields_without_floats(fields: Fields, depth: nat) -> bool
    decreases depth, 1nat,
{
    forall|i: int| 0 <= i < fields.len() ==> without_floats((#[trigger] fields[i]).1, depth)
}

/// Whether `serde_json` reads what it writes of a value as that very value.
pub open spec fn is_stable(value: JsonView) -> bool {
    is_readable(value) && without_floats(value, READING_DEPTH as nat)
}

/// Without floating-point numbers, values that are alike are the same.
pub proof fn alike_without_floats_is_same(a: JsonView, b: JsonView, depth: nat)
    requires
        alike(a, b, depth),
        without_floats(a, depth),
    ensures
        a == b,
    decreases depth,
{
    match (a, b) {
        (JsonView::Array(x), JsonView::Array(y)) => {
            let below = (depth - 1) as nat;
            assert(alike_items(x, y, below));
            assert(items_without_floats(x, below));
            assert forall|i: int| 0 <= i < x.len() implies x[i] == y[i] by {
                assert(alike(x[i], y[i], below));
                assert(without_floats(x[i], below));
                alike_without_floats_is_same(x[i], y[i], below);
            }
            assert(x =~= y);
        },
        (JsonView::Object(x), JsonView::Object(y)) => {
            let below = (depth - 1) as nat;
            assert(alike_fields(x, y, below));
            assert(fields_without_floats(x, below));
            assert forall|i: int| 0 <= i < x.len() implies x[i] == y[i] by {
                assert(x[i].0 == y[i].0 && alike(x[i].1, y[i].1, below));
                assert(without_floats(x[i].1, below));
                alike_without_floats_is_same(x[i].1, y[i].1, below);
            }
            assert(x =~= y);
        },
        _ => {},
    }
}

/// What is read of a value without floating-point numbers is that value.
proof fn stable_values_read_as_written(read: Result<JsonView, Seq<char>>, value: JsonView)
    requires
        is_stable(value),
        reads_alike(read, value),
    ensures
        reads_as(read, value),
{
    alike_without_floats_is_same(value, read->Ok_0, READING_DEPTH as nat);
}

/// Members that are alike are found under the same keys, with values that are alike.
pub proof fn alike_members_are_found(a: Fields, b: Fields, depth: nat, key: Seq<char>)
    requires
        alike_fields(a, b, depth),
    ensures
        match (lookup(a, key), lookup(b, key)) {
            (Some(x), Some(y)) => alike(x, y, depth),
            (None, None) => true,
            _ => false,
        },
    decreases a.len(),
{
    if a.len() > 0 {
        assert(a[0].0 == b[0].0 && alike(a[0].1, b[0].1, depth));
        let x = a.drop_first();
        let y = b.drop_first();
        assert forall|i: int| 0 <= i < x.len() implies (#[trigger] x[i]).0 == y[i].0 && alike(x[i].1, y[i].1, depth) by {
            assert(x[i] == a[i + 1] && y[i] == b[i + 1]);
        }
        alike_members_are_found(x, y, depth, key);
    }
}

/// The bits of the double-precision number -0.
pub const MINUS_ZERO_BITS: u64 = 0x8000_0000_0000_0000;

/// Whether no number in a value is the floating-point number -0.
pub open spec fn without_minus_zero(value: JsonView) -> bool
    decreases value,
{
    match value {
        JsonView::Number(n) => n != NumberView::Float(MINUS_ZERO_BITS),
        JsonView::Array(items) => items_without_minus_zero(items),
        JsonView::Object(fields) => fields_without_minus_zero(fields),
        _ => true,
    }
}

/// Whether that is so of every item.
pub open spec fn items_without_minus_zero(items: Seq<JsonView>) -> bool
    decreases items,
{
    forall|i: int| 0 <= i < items.len() ==> without_minus_zero(#[trigger] items[i])
}

/// Whether that is so of every member's value.
pub open spec fn fields_without_minus_zero(fields: Fields) -> bool
    decreases fields,
{
    forall|i: int| 0 <= i < fields.len() ==> without_minus_zero((#[trigger] fields[i]).1)
}

/// A value holds -0 if and only if it is that number, or what it is made of holds it.
pub proof fn minus_zero_is_held_in_parts(value: JsonView)
    ensures
        without_minus_zero(value) <==> match value {
            JsonView::Number(n) => n != NumberView::Float(0x8000_0000_0000_0000),
            JsonView::Array(items) => forall|i: int| 0 <= i < items.len() ==> without_minus_zero(#[trigger] items[i]),
            JsonView::Object(fields) => forall|i: int|
                0 <= i < fields.len() ==> without_minus_zero((#[trigger] fields[i]).1),
            _ => true,
        },
{
}

/// A value stands for what it is: null, a truth value, a number, a text, its items or its
/// members.
pub proof fn values_stand_for_what_they_are(value: Json)
    ensures
        match (value, value@) {
            (Json::Null, JsonView::Null) => true,
            (Json::Bool(b), JsonView::Bool(v)) => b == v,
            (Json::Number(n), JsonView::Number(v)) => number_value(n) == v,
            (Json::Str(s), JsonView::Str(v)) => s@ == v,
            (Json::Array(items), JsonView::Array(v)) => items@.len() == v.len() && forall|i: int|
                0 <= i < v.len() ==> (#[trigger] v[i]) == items@[i]@,
            (Json::Object(o), JsonView::Object(v)) => o@ == v,
            _ => false,
        },
{
}

/// A member that is written keeps the keys of an object in order.
pub proof fn written_members_keep_order(fields: Fields, key: Seq<char>, value: JsonView)
    requires
        ascending(fields),
    ensures
        ascending(with_member(fields, key, value)),
    decreases fields.len(),
{
    let after = with_member(fields, key, value);
    if fields.len() == 0 {
    } else if fields[0].0 == key {
        assert(after =~= fields.update(0, (key, value)));
        replacing_keeps_order(fields, 0, value);
    } else if precedes(key, fields[0].0) {
        assert(after =~= fields.insert(0, (key, value)));
        inserting_keeps_order(fields, 0, (key, value));
    } else {
        let rest = fields.drop_first();
        assert forall|i: int, j: int| 0 <= i < j < rest.len() implies precedes(
            #[trigger] rest[i].0,
            #[trigger] rest[j].0,
        ) by {
            assert(rest[i] == fields[i + 1] && rest[j] == fields[j + 1]);
        }
        written_members_keep_order(rest, key, value);
        precedes_is_total(key, fields[0].0);
        let tail = with_member(rest, key, value);
        assert forall|j: int| 0 <= j < tail.len() implies precedes(fields[0].0, (#[trigger] tail[j]).0) by {
            written_keys_are_those(rest, key, value, j);
            if tail[j].0 != key {
                let k = choose|k: int| 0 <= k < rest.len() && (#[trigger] rest[k]).0 == tail[j].0;
                assert(rest[k] == fields[k + 1]);
                assert(precedes(fields[0].0, fields[k + 1].0));
            }
        }
        assert forall|i: int, j: int| 0 <= i < j < after.len() implies precedes(
            #[trigger] after[i].0,
            #[trigger] after[j].0,
        ) by {
            assert(after[j] == tail[j - 1]);
            if i > 0 {
                assert(after[i] == tail[i - 1]);
            }
        }
    }
}

/// The keys after a member is written are its key and those that were there.
proof fn written_keys_are_those(fields: Fields, key: Seq<char>, value: JsonView, j: int)
    requires
        0 <= j < with_member(fields, key, value).len(),
    ensures
        with_member(fields, key, value)[j].0 == key || exists|k: int|
            0 <= k < fields.len() && (#[trigger] fields[k]).0 == with_member(fields, key, value)[j].0,
    decreases fields.len(),
{
    let after = with_member(fields, key, value);
    if fields.len() == 0 {
    } else if fields[0].0 == key {
        if j > 0 {
            assert(after[j] == fields[j]);
        }
    } else if precedes(key, fields[0].0) {
        if j > 0 {
            assert(after[j] == fields[j - 1]);
        }
    } else if j == 0 {
        assert(after[0] == fields[0]);
    } else {
        let rest = fields.drop_first();
        written_keys_are_those(rest, key, value, j - 1);
        assert(after[j] == with_member(rest, key, value)[j - 1]);
        if after[j].0 != key {
            let k = choose|k: int| 0 <= k < rest.len() && (#[trigger] rest[k]).0 == after[j].0;
            assert(fields[k + 1] == rest[k]);
        }
    }
}

/// `serde_json::from_str`: the value, or the error's words, that `parsed` names.
#[verifier::external_body]
fn parse_text(text: &str) -> (r: Result<serde_json::Value, String>)
    ensures
        match r {
            Ok(v) => parsed(text@) == Ok::<JsonView, Seq<char>>(json_value(v)),
            Err(e) => parsed(text@) == Err::<JsonView, Seq<char>>(e@),
        },
{
    serde_json::from_str(text).map_err(|e| e.to_string())
}

/// `serde_json::from_slice`: the value, or the error's words, that
/// `parsed_bytes` names.
#[verifier::external_body]
fn parse_slice(bytes: &[u8]) -> (r: Result<serde_json::Value, String>)
    ensures
        match r {
            Ok(v) => parsed_bytes(bytes@) == Ok::<JsonView, Seq<char>>(json_value(v)),
            Err(e) => parsed_bytes(bytes@) == Err::<JsonView, Seq<char>>(e@),
        },
{
    serde_json::from_slice(bytes).map_err(|e| e.to_string())
}

/// `to_string` of `serde_json::Value`: the text that `written` names, which
/// `serde_json::from_str` reads as the same value, but for floating-point numbers: each is
/// read as one, though maybe as the one next to it. That is not said of a value nested
/// deeper than `serde_json` reads, nor of one in which an object begins with the key that
/// marks a JSON text.
#[verifier::external_body]
fn write_text(value: &serde_json::Value) -> (r: String)
    ensures
        r@ == written(json_value(*value)),
        is_readable(json_value(*value)) ==> reads_alike(parsed(r@), json_value(*value)),
{
    value.to_string()
}

/// `serde_json::to_string_pretty`: the text that `written_pretty` names.
#[verifier::external_body]
fn write_pretty(value: &serde_json::Value) -> (r: Option<String>)
    ensures
        r.deep_view() == written_pretty(json_value(*value)),
{
    serde_json::to_string_pretty(value).ok()
}

/// `serde_json::to_vec`: the bytes, or the error's words, that `written_bytes`
/// names. There is no error for a `serde_json::Value`, whose keys are strings, written to
/// memory. `serde_json::from_slice` reads the bytes as the same value, but for
/// floating-point numbers: each is read as one, though maybe as the one next to it. That
/// is not said of a value nested deeper than `serde_json` reads, nor of one in which an
/// object begins with the key that marks a JSON text.
#[verifier::external_body]
fn write_slice(value: &serde_json::Value) -> (r: Result<Vec<u8>, String>)
    ensures
        r is Ok,
        match r {
            Ok(b) => written_bytes(json_value(*value)) == Ok::<Seq<u8>, Seq<char>>(b@) && (is_readable(
                json_value(*value),
            ) ==> reads_alike(parsed_bytes(b@), json_value(*value))),
            Err(e) => written_bytes(json_value(*value)) == Err::<Seq<u8>, Seq<char>>(e@),
        },
{
    serde_json::to_vec(value).map_err(|e| e.to_string())
}

impl Json {
    /// The text, if the value is one.
    pub fn as_str(&self) -> (r: Option<&str>)
        ensures
            r.deep_view() == (match self@ {
                JsonView::Str(s) => Some(s),
                _ => None,
            }),
    {
        match self {
            Json::Str(s) => Some(s.as_str()),
            _ => None,
        }
    }

    /// The value that a JSON text holds, or the words of the error.
    pub fn parse(text: &str) -> (r: Result<Json, String>)
        ensures
            outcome(r) == parsed(text@),
    {
        match parse_text(text) {
            Ok(v) => Ok(Json::from_value(v)),
            Err(e) => Err(e),
        }
    }

    /// The value that JSON bytes hold, or the words of the error.
    pub fn parse_bytes(bytes: &[u8]) -> (r: Result<Json, String>)
        ensures
            outcome(r) == parsed_bytes(bytes@),
    {
        match parse_slice(bytes) {
            Ok(v) => Ok(Json::from_value(v)),
            Err(e) => Err(e),
        }
    }

    /// The compact JSON text of the value.
    pub fn to_text(&self) -> (r: String)
        ensures
            r@ == written(self@),
            is_readable(self@) ==> reads_alike(parsed(r@), self@),
            is_stable(self@) ==> reads_as(parsed(r@), self@),
    {
        let r = write_text(&self.to_value());
        proof {
            if is_stable(self@) {
                stable_values_read_as_written(parsed(r@), self@);
            }
        }
        r
    }

    /// The indented JSON text of the value, or else the compact one.
    pub fn to_pretty_text(&self) -> (r: String)
        ensures
            r@ == pretty_text(self@),
    {
        let value = self.to_value();
        match write_pretty(&value) {
            Some(t) => t,
            None => write_text(&value),
        }
    }

    /// The JSON bytes of the value.
    pub fn to_bytes(&self) -> (r: Result<Vec<u8>, String>)
        ensures
            outcome(r) == written_bytes(self@),
            r is Ok,
            is_readable(self@) ==> reads_alike(parsed_bytes(r->Ok_0@), self@),
            is_stable(self@) ==> reads_as(parsed_bytes(r->Ok_0@), self@),
    {
        let r = write_slice(&self.to_value());
        assert(r matches Ok(b) ==> b.deep_view() =~= b@);
        proof {
            if is_stable(self@) {
                stable_values_read_as_written(parsed_bytes(r->Ok_0@), self@);
            }
        }
        r
    }

    /// The same value, held by `serde_json`.
    pub fn to_value(&self) -> (r: serde_json::Value)
        ensures
            json_value(r) == self@,
        decreases *self,
    {
        match self {
            Json::Null => close_value(JsonNode::Null),
            Json::Bool(b) => close_value(JsonNode::Bool(*b)),
            Json::Number(n) => close_value(JsonNode::Number(n.clone())),
            Json::Str(s) => close_value(JsonNode::Str(s.clone())),
            Json::Array(items) => {
                let mut out: Vec<serde_json::Value> = Vec::new();
                let mut i: usize = 0;
                while i < items.len()
                    invariant
                        i <= items.len(),
                        out@.len() == i,
                        *self == Json::Array(*items),
                        forall|k: int| 0 <= k < i ==> #[trigger] json_value(out@[k]) == json_view(items@[k]),
                    decreases items.len() - i,
                {
                    assert(decreases_to!(*self => (*self)->Array_0));
                    assert(decreases_to!(*items => items@));
                    assert(decreases_to!(items@ => items@[i as int]));
                    out.push(items[i].to_value());
                    i += 1;
                }
                assert forall|k: int| 0 <= k < items@.len() implies value_items(out@)[k] == (self@->Array_0)[k] by {
                    assert(json_value(out@[k]) == json_view(items@[k]));
                }
                assert(value_items(out@) =~= self@->Array_0);
                close_value(JsonNode::Array(out))
            }
            Json::Object(object) => {
                let out = object.to_pairs();
                proof {
                    use_type_invariant(object);
                }
                close_value(JsonNode::Object(out))
            }
        }
    }

    /// A copy of the value.
    pub fn duplicate(&self) -> (r: Json)
        ensures
            r@ == self@,
        decreases *self,
    {
        match self {
            Json::Null => Json::Null,
            Json::Bool(b) => Json::Bool(*b),
            Json::Number(n) => Json::Number(n.clone()),
            Json::Str(s) => Json::Str(s.clone()),
            Json::Array(items) => {
                let mut out: Vec<Json> = Vec::new();
                let mut i: usize = 0;
                while i < items.len()
                    invariant
                        i <= items.len(),
                        out@.len() == i,
                        *self == Json::Array(*items),
                        forall|k: int| 0 <= k < i ==> #[trigger] json_view(out@[k]) == json_view(items@[k]),
                    decreases items.len() - i,
                {
                    assert(decreases_to!(*self => (*self)->Array_0));
                    assert(decreases_to!(*items => items@));
                    assert(decreases_to!(items@ => items@[i as int]));
                    out.push(items[i].duplicate());
                    i += 1;
                }
                let r = Json::Array(out);
                assert forall|k: int| 0 <= k < items@.len() implies (r@->Array_0)[k] == (self@->Array_0)[k] by {
                    assert(json_view(out@[k]) == json_view(items@[k]));
                }
                assert(r@->Array_0 =~= self@->Array_0);
                r
            }
            Json::Object(object) => Json::Object(object.duplicate()),
        }
    }

    /// The value that a `serde_json::Value` holds.
    pub fn from_value(value: serde_json::Value) -> (r: Json)
        ensures
            r@ == json_value(value),
        decreases json_value(value),
    {
        match open_value(value) {
            JsonNode::Null => Json::Null,
            JsonNode::Bool(b) => Json::Bool(b),
            JsonNode::Number(n) => Json::Number(n),
            JsonNode::Str(s) => Json::Str(s),
            JsonNode::Array(mut items) => {
                let mut out: Vec<Json> = Vec::new();
                let ghost all = items@;
                for v in it: items
                    invariant
                        it.seq() == all,
                        json_value(value) == JsonView::Array(value_items(all)),
                        out@.len() == it.index(),
                        forall|i: int| 0 <= i < out@.len() ==> #[trigger] json_view(out@[i]) == json_value(all[i]),
                {
                    proof {
                        let items = json_value(value)->Array_0;
                        assert(items[it.index() as int] == json_value(v));
                        assert(decreases_to!(json_value(value) => items));
                        assert(decreases_to!(items => items[it.index() as int]));
                    }
                    out.push(Json::from_value(v));
                }
                let r = Json::Array(out);
                assert forall|i: int| 0 <= i < all.len() implies (r@->Array_0)[i] == value_items(all)[i] by {
                    assert(json_view(out@[i]) == json_value(all[i]));
                }
                assert(r@->Array_0 =~= value_items(all));
                r
            }
            JsonNode::Object(entries) => {
                let mut out: Vec<(String, Json)> = Vec::new();
                let ghost all = entries@;
                for e in it: entries
                    invariant
                        it.seq() == all,
                        json_value(value) == JsonView::Object(value_fields(all)),
                        out@.len() == it.index(),
                        forall|i: int|
                            0 <= i < out@.len() ==> (#[trigger] out@[i]).0@ == all[i].0@ && json_view(out@[i].1)
                                == json_value(all[i].1),
                {
                    proof {
                        let fields = json_value(value)->Object_0;
                        assert(fields[it.index() as int] == (e.0@, json_value(e.1)));
                        assert(decreases_to!(json_value(value) => fields));
                        assert(decreases_to!(fields => fields[it.index() as int]));
                        assert(decreases_to!(fields[it.index() as int] => fields[it.index() as int].1));
                    }
                    out.push((e.0, Json::from_value(e.1)));
                }
                assert((JsonObject { entries: out }).fields() =~= value_fields(all));
                Json::Object(JsonObject { entries: out })
            }
        }
    }
}

} // verus!
