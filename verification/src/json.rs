//! The JSON documents the encoders emit, and their one rendering.
//!
//! A [`Json`] value is the executable document tree; its view [`JVal`] is the
//! mathematical tree the contracts speak of.  [`Json::render`] produces the
//! compact text of a document — members in source order, no added spaces —
//! and is verified against [`text_of`], the definition of that text.

use vstd::prelude::*;

use crate::decimal::Decimal;
use crate::text::{bool_chars, bool_str, digit_char, int_chars, push_i64};

verus! {

/// A JSON document as a mathematical value: the view of [`Json`].
#[verifier::ext_equal]
pub enum JVal {
    /// `true` or `false`.
    Bool(bool),
    /// An integer number.
    Int(i64),
    /// A decimal number, rendered with a decimal point.
    Dec(Decimal),
    /// A string.
    Str(Seq<char>),
    /// An array of members in source order.
    Arr(Seq<JVal>),
    /// An object of key-value members in source order.
    Obj(Seq<(Seq<char>, JVal)>),
}

/// The hexadecimal digit character for a value 0 through 15, lower case.
pub open spec fn hex_char(d: int) -> char {
    if d < 10 {
        digit_char(d)
    } else if d == 10 {
        'a'
    } else if d == 11 {
        'b'
    } else if d == 12 {
        'c'
    } else if d == 13 {
        'd'
    } else if d == 14 {
        'e'
    } else {
        'f'
    }
}

/// The escape of one character inside a JSON string literal: quote and
/// backslash take a backslash, the five named control characters take their
/// short escapes, the remaining control characters take a `\u00..` escape,
/// and every other character stands for itself.
pub open spec fn escape_char(c: char) -> Seq<char> {
    if c == '"' {
        seq!['\\', '"']
    } else if c == '\\' {
        seq!['\\', '\\']
    } else if c == '\u{8}' {
        seq!['\\', 'b']
    } else if c == '\t' {
        seq!['\\', 't']
    } else if c == '\n' {
        seq!['\\', 'n']
    } else if c == '\u{c}' {
        seq!['\\', 'f']
    } else if c == '\r' {
        seq!['\\', 'r']
    } else if (c as int) < 32 {
        seq!['\\', 'u', '0', '0', hex_char(c as int / 16), hex_char(c as int % 16)]
    } else {
        seq![c]
    }
}

/// The escapes of the first `i` characters of `s`, concatenated.
pub open spec fn escape_prefix(s: Seq<char>, i: int) -> Seq<char>
    decreases i,
{
    if i <= 0 {
        Seq::empty()
    } else {
        escape_prefix(s, i - 1) + escape_char(s[i - 1])
    }
}

/// A JSON string literal: the escaped characters between double quotes.
pub open spec fn quoted(s: Seq<char>) -> Seq<char> {
    seq!['"'] + escape_prefix(s, s.len() as int) + seq!['"']
}

/// The text of a JSON document: values render compactly, members in source
/// order, separated by single commas, with no added whitespace.
pub open spec fn text_of(j: JVal) -> Seq<char>
    decreases j, 0int,
{
    match j {
        JVal::Bool(b) => bool_chars(b),
        JVal::Int(i) => int_chars(i as int),
        JVal::Dec(d) => d.json_chars(),
        JVal::Str(s) => quoted(s),
        JVal::Arr(items) => seq!['['] + items_text(items, items.len() as int) + seq![']'],
        JVal::Obj(entries) => seq!['{'] + entries_text(entries, entries.len() as int) + seq![
            '}',
        ],
    }
}

/// The text of the first `i` array members, comma separated.
pub open spec fn items_text(items: Seq<JVal>, i: int) -> Seq<char>
    decreases items, i,
{
    if i <= 0 || i > items.len() {
        Seq::empty()
    } else if i == 1 {
        text_of(items[0])
    } else {
        items_text(items, i - 1) + seq![','] + text_of(items[i - 1])
    }
}

/// The text of the first `i` object members, comma separated, each a quoted
/// key, a colon and the member's text.
pub open spec fn entries_text(entries: Seq<(Seq<char>, JVal)>, i: int) -> Seq<char>
    decreases entries, i,
{
    if i <= 0 || i > entries.len() {
        Seq::empty()
    } else if i == 1 {
        quoted(entries[0].0) + seq![':'] + text_of(entries[0].1)
    } else {
        entries_text(entries, i - 1) + seq![','] + quoted(entries[i - 1].0) + seq![':'] + text_of(
            entries[i - 1].1,
        )
    }
}

/// A JSON document tree.
pub enum Json {
    /// `true` or `false`.
    Bool(bool),
    /// An integer number.
    Int(i64),
    /// A decimal number.
    Dec(Decimal),
    /// A string.
    Str(String),
    /// An array.
    Arr(Vec<Json>),
    /// An object; members keep their source order.
    Obj(Vec<(String, Json)>),
}

/// The view of an executable document tree.
pub open spec fn jval_of(j: Json) -> JVal
    decreases j via jval_of_dec
{
    match j {
        Json::Bool(b) => JVal::Bool(b),
        Json::Int(i) => JVal::Int(i),
        Json::Dec(d) => JVal::Dec(d),
        Json::Str(s) => JVal::Str(s@),
        Json::Arr(items) => JVal::Arr(jvals_of(items@)),
        Json::Obj(entries) => JVal::Obj(jentries_of(entries@)),
    }
}

#[via_fn]
proof fn jval_of_dec(j: Json) {
    match j {
        Json::Arr(items) => {
            assert(decreases_to!(j => items));
            assert(decreases_to!(items => items@));
        },
        Json::Obj(entries) => {
            assert(decreases_to!(j => entries));
            assert(decreases_to!(entries => entries@));
        },
        _ => {},
    }
}

/// The views of the members of an array.
pub open spec fn jvals_of(items: Seq<Json>) -> Seq<JVal>
    decreases items,
{
    if items.len() == 0 {
        Seq::empty()
    } else {
        jvals_of(items.subrange(0, items.len() - 1)).push(jval_of(items.last()))
    }
}

/// The views of the members of an object.
pub open spec fn jentries_of(entries: Seq<(String, Json)>) -> Seq<(Seq<char>, JVal)>
    decreases entries via jentries_of_dec
{
    if entries.len() == 0 {
        Seq::empty()
    } else {
        jentries_of(entries.subrange(0, entries.len() - 1)).push(
            (entries.last().0@, jval_of(entries.last().1)),
        )
    }
}

#[via_fn]
proof fn jentries_of_dec(entries: Seq<(String, Json)>) {
    if entries.len() > 0 {
        assert(decreases_to!(entries => entries[entries.len() - 1]));
        assert(decreases_to!(entries[entries.len() - 1] => entries[entries.len() - 1].1));
    }
}

/// Member views line up with members, one to one.
pub proof fn lemma_jvals_of_index(items: Seq<Json>, i: int)
    requires
        0 <= i < items.len(),
    ensures
        jvals_of(items).len() == items.len(),
        jvals_of(items)[i] == jval_of(items[i]),
    decreases items.len(),
{
    lemma_jvals_of_len(items);
    if i < items.len() - 1 {
        lemma_jvals_of_index(items.subrange(0, items.len() - 1), i);
    }
}

/// An array of views is as long as the array.
pub proof fn lemma_jvals_of_len(items: Seq<Json>)
    ensures
        jvals_of(items).len() == items.len(),
    decreases items.len(),
{
    if items.len() > 0 {
        lemma_jvals_of_len(items.subrange(0, items.len() - 1));
    }
}

/// Member views line up with members, one to one.
pub proof fn lemma_jentries_of_index(entries: Seq<(String, Json)>, i: int)
    requires
        0 <= i < entries.len(),
    ensures
        jentries_of(entries).len() == entries.len(),
        jentries_of(entries)[i] == (entries[i].0@, jval_of(entries[i].1)),
    decreases entries.len(),
{
    lemma_jentries_of_len(entries);
    if i < entries.len() - 1 {
        lemma_jentries_of_index(entries.subrange(0, entries.len() - 1), i);
    }
}

/// An object of member views is as long as the object.
pub proof fn lemma_jentries_of_len(entries: Seq<(String, Json)>)
    ensures
        jentries_of(entries).len() == entries.len(),
    decreases entries.len(),
{
    if entries.len() > 0 {
        lemma_jentries_of_len(entries.subrange(0, entries.len() - 1));
    }
}

impl View for Json {
    type V = JVal;

    open spec fn view(&self) -> JVal {
        jval_of(*self)
    }
}

/// Relies on std's `String::push`: appends exactly the one character.
#[verifier::external_body]
pub(crate) fn push_char(out: &mut String, c: char)
    ensures
        final(out)@ == old(out)@.push(c),
{
    out.push(c);
}

fn hex_digit_str(d: u64) -> (r: &'static str)
    requires
        d < 16,
    ensures
        r@ == seq![hex_char(d as int)],
{
    if d < 10 {
        crate::text::digit_str(d)
    } else {
        let r: &'static str = match d {
            10 => "a",
            11 => "b",
            12 => "c",
            13 => "d",
            14 => "e",
            _ => "f",
        };
        proof {
            reveal_strlit("a");
            reveal_strlit("b");
            reveal_strlit("c");
            reveal_strlit("d");
            reveal_strlit("e");
            reveal_strlit("f");
            assert(r@ =~= seq![hex_char(d as int)]);
        }
        r
    }
}

fn push_escaped(c: char, out: &mut String)
    ensures
        final(out)@ == old(out)@ + escape_char(c),
{
    if c == '"' {
        out.append("\\\"");
        proof {
            reveal_strlit("\\\"");
            assert(final(out)@ =~= old(out)@ + escape_char(c));
        }
    } else if c == '\\' {
        out.append("\\\\");
        proof {
            reveal_strlit("\\\\");
            assert(final(out)@ =~= old(out)@ + escape_char(c));
        }
    } else if c == '\u{8}' {
        out.append("\\b");
        proof {
            reveal_strlit("\\b");
            assert(final(out)@ =~= old(out)@ + escape_char(c));
        }
    } else if c == '\t' {
        out.append("\\t");
        proof {
            reveal_strlit("\\t");
            assert(final(out)@ =~= old(out)@ + escape_char(c));
        }
    } else if c == '\n' {
        out.append("\\n");
        proof {
            reveal_strlit("\\n");
            assert(final(out)@ =~= old(out)@ + escape_char(c));
        }
    } else if c == '\u{c}' {
        out.append("\\f");
        proof {
            reveal_strlit("\\f");
            assert(final(out)@ =~= old(out)@ + escape_char(c));
        }
    } else if c == '\r' {
        out.append("\\r");
        proof {
            reveal_strlit("\\r");
            assert(final(out)@ =~= old(out)@ + escape_char(c));
        }
    } else if (c as u32) < 32 {
        let x = c as u32;
        out.append("\\u00");
        out.append(hex_digit_str((x / 16) as u64));
        out.append(hex_digit_str((x % 16) as u64));
        proof {
            reveal_strlit("\\u00");
            assert(final(out)@ =~= old(out)@ + escape_char(c));
        }
    } else {
        push_char(out, c);
        proof {
            assert(final(out)@ =~= old(out)@ + escape_char(c));
        }
    }
}

/// Appends the JSON string literal for `s` to `out`.
pub fn push_quoted(s: &str, out: &mut String)
    ensures
        final(out)@ == old(out)@ + quoted(s@),
{
    out.append("\"");
    proof {
        reveal_strlit("\"");
        assert(out@ =~= old(out)@ + seq!['"'] + escape_prefix(s@, 0));
    }
    let n = s.unicode_len();
    let mut k: usize = 0;
    while k < n
        invariant
            n == s@.len(),
            k <= n,
            out@ == old(out)@ + seq!['"'] + escape_prefix(s@, k as int),
        decreases n - k,
    {
        let c = s.get_char(k);
        push_escaped(c, out);
        k = k + 1;
    }
    out.append("\"");
    proof {
        reveal_strlit("\"");
        assert("\""@ =~= seq!['"']);
        assert(final(out)@ =~= old(out)@ + quoted(s@));
    }
}

impl Json {
    /// Renders the document as text, appending to `out`.
    #[verifier::loop_isolation(false)]
    pub fn push_text(&self, out: &mut String)
        ensures
            final(out)@ == old(out)@ + text_of(self@),
        decreases self,
    {
        match self {
            Json::Bool(b) => {
                out.append(bool_str(*b));
            },
            Json::Int(i) => {
                push_i64(out, *i);
            },
            Json::Dec(d) => {
                d.push_number(out, true);
            },
            Json::Str(s) => {
                push_quoted(s.as_str(), out);
            },
            Json::Arr(items) => {
                out.append("[");
                let ghost va = jvals_of(items@);
                proof {
                    reveal_strlit("[");
                    lemma_jvals_of_len(items@);
                    assert(out@ =~= old(out)@ + seq!['['] + items_text(va, 0));
                }
                let mut k: usize = 0;
                while k < items.len()
                    invariant
                        k <= items.len(),
                        va == jvals_of(items@),
                        va.len() == items@.len(),
                        out@ == old(out)@ + seq!['['] + items_text(va, k as int),
                    decreases items.len() - k,
                {
                    if k > 0 {
                        out.append(",");
                    }
                    let item = &items[k];
                    proof {
                        assert(decreases_to!(*self => items@[k as int])) by {
                            assert(decreases_to!(*self => *items));
                            assert(decreases_to!(*items => items@));
                            assert(decreases_to!(items@ => items@[k as int]));
                        }
                    }
                    item.push_text(out);
                    proof {
                        reveal_strlit(",");
                        assert(","@ =~= seq![',']);
                        lemma_jvals_of_index(items@, k as int);
                        assert(out@ =~= old(out)@ + seq!['['] + items_text(va, k as int + 1));
                    }
                    k = k + 1;
                }
                out.append("]");
                proof {
                    reveal_strlit("[");
                    reveal_strlit("]");
                    assert("["@ =~= seq!['[']);
                    assert("]"@ =~= seq![']']);
                    assert(final(out)@ =~= old(out)@ + text_of(self@));
                }
            },
            Json::Obj(entries) => {
                out.append("{");
                let ghost ve = jentries_of(entries@);
                proof {
                    reveal_strlit("{");
                    lemma_jentries_of_len(entries@);
                    assert(out@ =~= old(out)@ + seq!['{'] + entries_text(ve, 0));
                }
                let mut k: usize = 0;
                while k < entries.len()
                    invariant
                        k <= entries.len(),
                        ve == jentries_of(entries@),
                        ve.len() == entries@.len(),
                        out@ == old(out)@ + seq!['{'] + entries_text(ve, k as int),
                    decreases entries.len() - k,
                {
                    if k > 0 {
                        out.append(",");
                    }
                    let entry = &entries[k];
                    push_quoted(entry.0.as_str(), out);
                    out.append(":");
                    proof {
                        assert(decreases_to!(*self => entries@[k as int].1)) by {
                            assert(decreases_to!(*self => *entries));
                            assert(decreases_to!(*entries => entries@));
                            assert(decreases_to!(entries@ => entries@[k as int]));
                            assert(decreases_to!(entries@[k as int] => entries@[k as int].1));
                        }
                    }
                    entry.1.push_text(out);
                    proof {
                        reveal_strlit(",");
                        reveal_strlit(":");
                        assert(","@ =~= seq![',']);
                        assert(":"@ =~= seq![':']);
                        lemma_jentries_of_index(entries@, k as int);
                        assert(out@ =~= old(out)@ + seq!['{'] + entries_text(ve, k as int + 1));
                    }
                    k = k + 1;
                }
                out.append("}");
                proof {
                    reveal_strlit("{");
                    reveal_strlit("}");
                    assert("{"@ =~= seq!['{']);
                    assert("}"@ =~= seq!['}']);
                    assert(final(out)@ =~= old(out)@ + text_of(self@));
                }
            },
        }
    }

    /// The text of the document as a fresh string.
    pub fn render(&self) -> (r: String)
        ensures
            r@ == text_of(self@),
    {
        let mut out = String::new();
        self.push_text(&mut out);
        proof {
            assert(out@ =~= text_of(self@));
        }
        out
    }
}


/// What a push adds to the member views of an array.
pub proof fn lemma_jvals_of_push(items: Seq<Json>, j: Json)
    ensures
        jvals_of(items.push(j)) == jvals_of(items).push(jval_of(j)),
{
    assert(items.push(j).subrange(0, items.push(j).len() - 1) =~= items);
    assert(items.push(j).last() == j);
}

/// What a push adds to the member views of an object.
pub proof fn lemma_jentries_of_push(entries: Seq<(String, Json)>, key: String, j: Json)
    ensures
        jentries_of(entries.push((key, j))) == jentries_of(entries).push((key@, jval_of(j))),
{
    assert(entries.push((key, j)).subrange(0, entries.push((key, j)).len() - 1) =~= entries);
    assert(entries.push((key, j)).last() == (key, j));
}

/// Builds a JSON object member by member, in source order.
pub struct ObjBuilder {
    entries: Vec<(String, Json)>,
}

impl ObjBuilder {
    /// The members so far, as views.
    pub closed spec fn rep(self) -> Seq<(Seq<char>, JVal)> {
        jentries_of(self.entries@)
    }

    /// An empty object.
    pub fn new() -> (r: ObjBuilder)
        ensures
            r.rep() == Seq::<(Seq<char>, JVal)>::empty(),
    {
        let r = ObjBuilder { entries: Vec::new() };
        proof {
            assert(r.rep() =~= Seq::<(Seq<char>, JVal)>::empty());
        }
        r
    }

    /// Appends the member `key: value`.
    pub fn field(&mut self, key: &'static str, value: Json)
        ensures
            final(self).rep() == old(self).rep().push((key@, jval_of(value))),
    {
        self.field_string(String::from_str(key), value);
    }

    /// Appends the member `key: value` for a computed key.
    pub fn field_string(&mut self, key: String, value: Json)
        ensures
            final(self).rep() == old(self).rep().push((key@, jval_of(value))),
    {
        proof {
            lemma_jentries_of_push(self.entries@, key, value);
        }
        self.entries.push((key, value));
    }

    /// The finished object.
    pub fn done(self) -> (j: Json)
        ensures
            jval_of(j) == JVal::Obj(self.rep()),
    {
        Json::Obj(self.entries)
    }
}

/// Builds a JSON array member by member, in source order.
pub struct ArrBuilder {
    items: Vec<Json>,
}

impl ArrBuilder {
    /// The members so far, as views.
    pub closed spec fn rep(self) -> Seq<JVal> {
        jvals_of(self.items@)
    }

    /// An empty array.
    pub fn new() -> (r: ArrBuilder)
        ensures
            r.rep() == Seq::<JVal>::empty(),
    {
        let r = ArrBuilder { items: Vec::new() };
        proof {
            assert(r.rep() =~= Seq::<JVal>::empty());
        }
        r
    }

    /// Appends a member.
    pub fn item(&mut self, value: Json)
        ensures
            final(self).rep() == old(self).rep().push(jval_of(value)),
    {
        proof {
            lemma_jvals_of_push(self.items@, value);
        }
        self.items.push(value);
    }

    /// The finished array.
    pub fn done(self) -> (j: Json)
        ensures
            jval_of(j) == JVal::Arr(self.rep()),
    {
        Json::Arr(self.items)
    }
}

/// A JSON string value from a string literal.
pub fn str_val(s: &'static str) -> (j: Json)
    ensures
        jval_of(j) == JVal::Str(s@),
{
    Json::Str(String::from_str(s))
}

/// The member list an [`ObjBuilder`] holds after pushing the given
/// members onto an empty object, spelled as a literal sequence.
#[allow(missing_docs)]
pub proof fn lemma_obj_rep_1(r: Seq<(Seq<char>, JVal)>, a: (Seq<char>, JVal))
    requires
        r == Seq::<(Seq<char>, JVal)>::empty().push(a),
    ensures
        r == seq![a],
{
    assert(r.len() == 1);
    assert(r[0] == a);
    assert(r =~= seq![a]);
}

#[allow(missing_docs)]
pub proof fn lemma_obj_rep_2(r: Seq<(Seq<char>, JVal)>, a: (Seq<char>, JVal), b: (Seq<char>, JVal))
    requires
        r == Seq::<(Seq<char>, JVal)>::empty().push(a).push(b),
    ensures
        r == seq![a, b],
{
    assert(r.len() == 2);
    assert(r[0] == a);
    assert(r[1] == b);
    assert(r =~= seq![a, b]);
}

#[allow(missing_docs)]
pub proof fn lemma_obj_rep_3(r: Seq<(Seq<char>, JVal)>, a: (Seq<char>, JVal), b: (Seq<char>, JVal), c: (Seq<char>, JVal))
    requires
        r == Seq::<(Seq<char>, JVal)>::empty().push(a).push(b).push(c),
    ensures
        r == seq![a, b, c],
{
    assert(r.len() == 3);
    assert(r[0] == a);
    assert(r[1] == b);
    assert(r[2] == c);
    assert(r =~= seq![a, b, c]);
}

#[allow(missing_docs)]
pub proof fn lemma_obj_rep_4(r: Seq<(Seq<char>, JVal)>, a: (Seq<char>, JVal), b: (Seq<char>, JVal), c: (Seq<char>, JVal), d: (Seq<char>, JVal))
    requires
        r == Seq::<(Seq<char>, JVal)>::empty().push(a).push(b).push(c).push(d),
    ensures
        r == seq![a, b, c, d],
{
    assert(r.len() == 4);
    assert(r[0] == a);
    assert(r[1] == b);
    assert(r[2] == c);
    assert(r[3] == d);
    assert(r =~= seq![a, b, c, d]);
}

#[allow(missing_docs)]
pub proof fn lemma_obj_rep_6(r: Seq<(Seq<char>, JVal)>, a: (Seq<char>, JVal), b: (Seq<char>, JVal), c: (Seq<char>, JVal), d: (Seq<char>, JVal), e: (Seq<char>, JVal), f: (Seq<char>, JVal))
    requires
        r == Seq::<(Seq<char>, JVal)>::empty().push(a).push(b).push(c).push(d).push(e).push(f),
    ensures
        r == seq![a, b, c, d, e, f],
{
    assert(r.len() == 6);
    assert(r[0] == a);
    assert(r[1] == b);
    assert(r[2] == c);
    assert(r[3] == d);
    assert(r[4] == e);
    assert(r[5] == f);
    assert(r =~= seq![a, b, c, d, e, f]);
}

#[allow(missing_docs)]
pub proof fn lemma_arr_rep_2(r: Seq<JVal>, a: JVal, b: JVal)
    requires
        r == Seq::<JVal>::empty().push(a).push(b),
    ensures
        r == seq![a, b],
{
    assert(r.len() == 2);
    assert(r[0] == a);
    assert(r[1] == b);
    assert(r =~= seq![a, b]);
}

} // verus!
