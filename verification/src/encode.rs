//! The shared tagged-document encoding contract.
//!
//! Every model value that appears inside a JSON document implements
//! [`Encode`]: its one JSON representation is the spec [`Encode::json_rep`],
//! and [`Encode::to_json`] builds exactly that document.  Lists of values
//! encode as JSON arrays in source order; association lists whose keys
//! implement [`Key`] encode as JSON objects keyed by each key's canonical
//! string, again in source order.

use vstd::prelude::*;

use crate::decimal::Decimal;
use crate::ident::Identifier;
use crate::minecraft::{Block, Color, Effect, Enchant, Entity, Item, Potion, Structure};
use crate::selector::GameMode;
use crate::json::{jval_of, ArrBuilder, JVal, Json, ObjBuilder};

verus! {

/// A value with exactly one JSON representation.
pub trait Encode: Sized {
    /// The JSON document of the value.
    spec fn json_rep(&self) -> JVal;

    /// Encodes the value as its one JSON document.
    fn to_json(&self) -> (j: Json)
        ensures
            jval_of(j) == self.json_rep(),
    ;
}

impl Encode for i64 {
    open spec fn json_rep(&self) -> JVal {
        JVal::Int(*self)
    }

    fn to_json(&self) -> (j: Json) {
        Json::Int(*self)
    }
}

impl Encode for bool {
    open spec fn json_rep(&self) -> JVal {
        JVal::Bool(*self)
    }

    fn to_json(&self) -> (j: Json) {
        Json::Bool(*self)
    }
}

impl Encode for Decimal {
    open spec fn json_rep(&self) -> JVal {
        JVal::Dec(*self)
    }

    fn to_json(&self) -> (j: Json) {
        Json::Dec(*self)
    }
}

impl Encode for String {
    open spec fn json_rep(&self) -> JVal {
        JVal::Str(self@)
    }

    fn to_json(&self) -> (j: Json) {
        Json::Str(self.clone())
    }
}

/// A value with a canonical string form that can key a JSON object.
pub trait Key: Sized {
    /// The canonical key string of the value.
    spec fn key_spec(&self) -> Seq<char>;

    /// Renders the canonical key string.
    fn key_string(&self) -> (r: String)
        ensures
            r@ == self.key_spec(),
    ;
}

impl Key for String {
    open spec fn key_spec(&self) -> Seq<char> {
        self@
    }

    fn key_string(&self) -> (r: String) {
        self.clone()
    }
}

impl Encode for Enchant {
    open spec fn json_rep(&self) -> JVal {
        JVal::Str(self.name_spec())
    }

    fn to_json(&self) -> (j: Json) {
        Json::Str(String::from_str(self.name()))
    }
}

impl Key for Enchant {
    open spec fn key_spec(&self) -> Seq<char> {
        self.name_spec()
    }

    fn key_string(&self) -> (r: String) {
        String::from_str(self.name())
    }
}

impl Key for Identifier {
    open spec fn key_spec(&self) -> Seq<char> {
        self.canonical_chars()
    }

    fn key_string(&self) -> (r: String) {
        self.canonical()
    }
}

impl Encode for Block {
    open spec fn json_rep(&self) -> JVal {
        JVal::Str(self.name_spec())
    }

    fn to_json(&self) -> (j: Json) {
        Json::Str(String::from_str(self.name()))
    }
}

impl Encode for Color {
    open spec fn json_rep(&self) -> JVal {
        JVal::Str(self.name_spec())
    }

    fn to_json(&self) -> (j: Json) {
        Json::Str(String::from_str(self.name()))
    }
}

impl Encode for Effect {
    open spec fn json_rep(&self) -> JVal {
        JVal::Str(self.name_spec())
    }

    fn to_json(&self) -> (j: Json) {
        Json::Str(String::from_str(self.name()))
    }
}

impl Encode for Entity {
    open spec fn json_rep(&self) -> JVal {
        JVal::Str(self.name_spec())
    }

    fn to_json(&self) -> (j: Json) {
        Json::Str(String::from_str(self.name()))
    }
}

impl Encode for Item {
    open spec fn json_rep(&self) -> JVal {
        JVal::Str(self.name_spec())
    }

    fn to_json(&self) -> (j: Json) {
        Json::Str(String::from_str(self.name()))
    }
}

impl Encode for Potion {
    open spec fn json_rep(&self) -> JVal {
        JVal::Str(self.name_spec())
    }

    fn to_json(&self) -> (j: Json) {
        Json::Str(String::from_str(self.name()))
    }
}

impl Encode for Structure {
    open spec fn json_rep(&self) -> JVal {
        JVal::Str(self.name_spec())
    }

    fn to_json(&self) -> (j: Json) {
        Json::Str(String::from_str(self.name()))
    }
}

impl Encode for GameMode {
    open spec fn json_rep(&self) -> JVal {
        JVal::Str(self.name_spec())
    }

    fn to_json(&self) -> (j: Json) {
        Json::Str(String::from_str(self.name()))
    }
}

impl Encode for Identifier {
    open spec fn json_rep(&self) -> JVal {
        JVal::Str(self.canonical_chars())
    }

    fn to_json(&self) -> (j: Json) {
        Json::Str(self.canonical())
    }
}

impl Key for Effect {
    open spec fn key_spec(&self) -> Seq<char> {
        self.name_spec()
    }

    fn key_string(&self) -> (r: String) {
        String::from_str(self.name())
    }
}

/// A key-value pair encoded as a two-member array `[key, value]`.
impl<V: Encode> Encode for (String, V) {
    open spec fn json_rep(&self) -> JVal {
        JVal::Arr(seq![JVal::Str(self.0@), self.1.json_rep()])
    }

    fn to_json(&self) -> (j: Json) {
        let mut b = crate::json::ArrBuilder::new();
        b.item(Json::Str(self.0.clone()));
        b.item(self.1.to_json());
        let ghost r = b.rep();
        let j = b.done();
        proof {
            crate::json::lemma_arr_rep_2(r, JVal::Str(self.0@), self.1.json_rep());
        }
        j
    }
}

/// The object member an optional field contributes: its key and the value's
/// document when set, nothing when unset.
pub open spec fn opt_entry<T: Encode>(key: Seq<char>, f: Option<T>) -> Seq<(Seq<char>, JVal)> {
    match f {
        Some(v) => seq![(key, v.json_rep())],
        None => Seq::empty(),
    }
}

/// Appends an optional field to an object: nothing when it is unset.
pub fn opt_field<T: Encode>(b: &mut ObjBuilder, key: &'static str, f: &Option<T>)
    ensures
        final(b).rep() == old(b).rep() + opt_entry(key@, *f),
{
    if let Some(v) = f {
        b.field(key, v.to_json());
    }
    proof {
        assert(final(b).rep() =~= old(b).rep() + opt_entry(key@, *f));
    }
}

/// The JSON documents of a list of values, in source order.
pub open spec fn items_rep<T: Encode>(s: Seq<T>) -> Seq<JVal>
    decreases s,
{
    if s.len() == 0 {
        Seq::empty()
    } else {
        items_rep(s.subrange(0, s.len() - 1)).push(s.last().json_rep())
    }
}

/// A prefix of a list has the prefix of its documents.
pub proof fn lemma_items_rep_step<T: Encode>(s: Seq<T>, i: int)
    requires
        0 <= i < s.len(),
    ensures
        items_rep(s.subrange(0, i + 1)) == items_rep(s.subrange(0, i)).push(s[i].json_rep()),
{
    let pre = s.subrange(0, i + 1);
    assert(pre.subrange(0, pre.len() - 1) =~= s.subrange(0, i));
    assert(pre.last() == s[i]);
}

/// Encodes a list of values as a JSON array, in source order.
pub fn list_to_json<T: Encode>(v: &Vec<T>) -> (j: Json)
    ensures
        jval_of(j) == JVal::Arr(items_rep(v@)),
{
    let mut b = ArrBuilder::new();
    proof {
        assert(items_rep(v@.subrange(0, 0)) =~= Seq::<JVal>::empty());
    }
    let mut k: usize = 0;
    while k < v.len()
        invariant
            k <= v.len(),
            b.rep() == items_rep(v@.subrange(0, k as int)),
        decreases v.len() - k,
    {
        b.item(v[k].to_json());
        proof {
            lemma_items_rep_step(v@, k as int);
        }
        k = k + 1;
    }
    proof {
        assert(v@.subrange(0, v@.len() as int) =~= v@);
    }
    b.done()
}

/// The JSON members of an association list: each key's canonical string
/// mapped to its value's document, in source order.
pub open spec fn map_rep<K: Key, V: Encode>(s: Seq<(K, V)>) -> Seq<(Seq<char>, JVal)>
    decreases s,
{
    if s.len() == 0 {
        Seq::empty()
    } else {
        map_rep(s.subrange(0, s.len() - 1)).push(
            (s.last().0.key_spec(), s.last().1.json_rep()),
        )
    }
}

/// A prefix of an association list has the prefix of its members.
pub proof fn lemma_map_rep_step<K: Key, V: Encode>(s: Seq<(K, V)>, i: int)
    requires
        0 <= i < s.len(),
    ensures
        map_rep(s.subrange(0, i + 1)) == map_rep(s.subrange(0, i)).push(
            (s[i].0.key_spec(), s[i].1.json_rep()),
        ),
{
    let pre = s.subrange(0, i + 1);
    assert(pre.subrange(0, pre.len() - 1) =~= s.subrange(0, i));
    assert(pre.last() == s[i]);
}

/// Encodes an association list as a JSON object, keys in source order.
pub fn map_to_json<K: Key, V: Encode>(v: &Vec<(K, V)>) -> (j: Json)
    ensures
        jval_of(j) == JVal::Obj(map_rep(v@)),
{
    let mut b = ObjBuilder::new();
    proof {
        assert(map_rep(v@.subrange(0, 0)) =~= Seq::<(Seq<char>, JVal)>::empty());
    }
    let mut k: usize = 0;
    while k < v.len()
        invariant
            k <= v.len(),
            b.rep() == map_rep(v@.subrange(0, k as int)),
        decreases v.len() - k,
    {
        let key = v[k].0.key_string();
        let value = v[k].1.to_json();
        b.field_string(key, value);
        proof {
            lemma_map_rep_step(v@, k as int);
        }
        k = k + 1;
    }
    proof {
        assert(v@.subrange(0, v@.len() as int) =~= v@);
    }
    b.done()
}

} // verus!
