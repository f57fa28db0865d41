//! JSON documents: a tree of values, and the text that a tree is written as.
//!
//! The text is the pretty-printed form with two spaces of indentation: every
//! element of a non-empty array and every member of a non-empty object
//! stands on a line of its own, members keep the order in which they were
//! added, and nothing follows the closing bracket of the root.

use crate::text::{decimal, hex_digit, hex_digit_of, push_char, push_decimal};
use vstd::prelude::*;
use vstd::string::StringExecFns;

verus! {

/// A JSON value.
#[derive(Debug, PartialEq)]
pub enum JsonValue {
    Null,
    Bool(bool),
    Number(u64),
    String(String),
    Array(Vec<JsonValue>),
    /// The members of an object, each a key and a value, in the order in
    /// which they are written.
    Object(Vec<(String, JsonValue)>),
}

/// What a [`JsonValue`] holds, as mathematical values.
pub enum Json {
    Null,
    Bool(bool),
    Number(nat),
    String(Seq<char>),
    Array(Seq<Json>),
    Object(Seq<(Seq<char>, Json)>),
}

impl JsonValue {
    /// The mathematical value of this JSON value.
    pub open spec fn model(self) -> Json
        decreases self,
    {
        match self {
            JsonValue::Null => Json::Null,
            JsonValue::Bool(b) => Json::Bool(b),
            JsonValue::Number(n) => Json::Number(n as nat),
            JsonValue::String(s) => Json::String(s@),
            JsonValue::Array(items) => Json::Array(JsonValue::models(items@)),
            JsonValue::Object(members) => Json::Object(JsonValue::member_models(members@)),
        }
    }

    /// The mathematical values of a sequence of JSON values, one for one.
    pub open spec fn models(s: Seq<JsonValue>) -> Seq<Json>
        decreases s,
    {
        Seq::new(
            s.len(),
            |i: int|
                if 0 <= i < s.len() {
                    s[i].model()
                } else {
                    arbitrary()
                },
        )
    }

    /// The mathematical values of a sequence of members, one for one.
    pub open spec fn member_models(s: Seq<(String, JsonValue)>) -> Seq<(Seq<char>, Json)>
        decreases s,
    {
        Seq::new(
            s.len(),
            |i: int|
                if 0 <= i < s.len() {
                    (s[i].0@, s[i].1.model())
                } else {
                    arbitrary()
                },
        )
    }

    /// `models` agrees with the view that a vector of values has.
    pub proof fn lemma_models(v: Vec<JsonValue>)
        ensures
            JsonValue::models(v@) == v.deep_view(),
    {
        assert(JsonValue::models(v@) =~= v.deep_view());
    }

    /// `member_models` agrees with the view that a vector of members has.
    pub proof fn lemma_member_models(v: Vec<(String, JsonValue)>)
        ensures
            JsonValue::member_models(v@) == v.deep_view(),
    {
        assert(JsonValue::member_models(v@) =~= v.deep_view());
    }
}

impl DeepView for JsonValue {
    type V = Json;

    open spec fn deep_view(&self) -> Json {
        self.model()
    }
}

/// How one character of a string is written between the quotes: a quote and
/// a backslash get a backslash in front, the control characters below the
/// space get their short escape or `\u00` and two hexadecimal digits, and
/// every other character stands for itself.
pub open spec fn escaped_char(c: char) -> Seq<char> {
    if c == '"' {
        seq!['\\', '"']
    } else if c == '\\' {
        seq!['\\', '\\']
    } else if c == '\u{08}' {
        seq!['\\', 'b']
    } else if c == '\t' {
        seq!['\\', 't']
    } else if c == '\n' {
        seq!['\\', 'n']
    } else if c == '\u{0c}' {
        seq!['\\', 'f']
    } else if c == '\r' {
        seq!['\\', 'r']
    } else if (c as u32) < 0x20 {
        seq!['\\', 'u', '0', '0', hex_digit(c as u32 as int / 16), hex_digit(c as u32 as int % 16)]
    } else {
        seq![c]
    }
}

/// A string with every character written as between quotes.
pub open spec fn escaped(s: Seq<char>) -> Seq<char>
    decreases s.len(),
{
    if s.len() == 0 {
        Seq::empty()
    } else {
        escaped(s.drop_last()) + escaped_char(s.last())
    }
}

/// A string as JSON writes it: escaped, between double quotes.
pub open spec fn quoted(s: Seq<char>) -> Seq<char> {
    seq!['"'] + escaped(s) + seq!['"']
}

/// The text of a JSON value that starts on a line indented by `indent`.
pub open spec fn pretty(j: Json, indent: Seq<char>) -> Seq<char>
    decreases j,
{
    match j {
        Json::Null => "null"@,
        Json::Bool(b) => if b {
            "true"@
        } else {
            "false"@
        },
        Json::Number(n) => decimal(n),
        Json::String(s) => quoted(s),
        Json::Array(items) => if items.len() == 0 {
            "[]"@
        } else {
            seq!['['] + pretty_items(items, indent + "  "@) + "\n"@ + indent + seq![']']
        },
        Json::Object(members) => if members.len() == 0 {
            "{}"@
        } else {
            seq!['{'] + pretty_members(members, indent + "  "@) + "\n"@ + indent + seq!['}']
        },
    }
}

/// What separates an element or a member from what stands before it: a
/// line break, after a comma for all but the first.
pub open spec fn separator(first: bool) -> Seq<char> {
    if first {
        "\n"@
    } else {
        ",\n"@
    }
}

/// The elements of an array, each on its own line, indented by `indent`.
pub open spec fn pretty_items(items: Seq<Json>, indent: Seq<char>) -> Seq<char>
    decreases items,
{
    if items.len() == 0 {
        Seq::empty()
    } else {
        pretty_items(items.drop_last(), indent) + separator(items.len() == 1) + indent + pretty(
            items.last(),
            indent,
        )
    }
}

/// The members of an object, each on its own line, indented by `indent`.
pub open spec fn pretty_members(members: Seq<(Seq<char>, Json)>, indent: Seq<char>) -> Seq<char>
    decreases members,
{
    if members.len() == 0 {
        Seq::empty()
    } else {
        pretty_members(members.drop_last(), indent) + separator(members.len() == 1) + indent
            + quoted(members.last().0) + ": "@ + pretty(members.last().1, indent)
    }
}

/// The text of a whole document.
pub open spec fn document(j: Json) -> Seq<char> {
    pretty(j, Seq::empty())
}

/// The keys of the members of an object, in their order; nothing for any
/// other value.
pub open spec fn keys(j: Json) -> Seq<Seq<char>> {
    match j {
        Json::Object(members) => Seq::new(members.len(), |i: int| members[i].0),
        _ => Seq::empty(),
    }
}

/// Whether an object has a member with the given key.
pub open spec fn has_key(j: Json, key: Seq<char>) -> bool {
    keys(j).contains(key)
}

/// The members of an object, in the order in which they were added.
pub struct Members {
    pub entries: Seq<(Seq<char>, Json)>,
}

impl Members {
    /// No members yet.
    pub open spec fn none() -> Members {
        Members { entries: Seq::empty() }
    }

    /// These members and then one more.
    #[verifier::opaque]
    pub open spec fn with(self, key: Seq<char>, value: Json) -> Members {
        Members { entries: self.entries.push((key, value)) }
    }

    /// These members, and then one more where there is a value: an absent
    /// value leaves no trace in the object.
    #[verifier::opaque]
    pub open spec fn with_optional(self, key: Seq<char>, value: Option<Json>) -> Members {
        match value {
            Some(v) => Members { entries: self.entries.push((key, v)) },
            None => self,
        }
    }

    /// The object with these members.
    pub open spec fn object(self) -> Json {
        Json::Object(self.entries)
    }
}

/// Collects the members of an object and makes the object of them.
pub struct ObjectBuilder {
    members: Vec<(String, JsonValue)>,
}

impl View for ObjectBuilder {
    type V = Members;

    closed spec fn view(&self) -> Members {
        Members { entries: self.members.deep_view() }
    }
}

impl ObjectBuilder {
    /// Starts an object without members.
    pub fn new() -> (r: ObjectBuilder)
        ensures
            r@ == Members::none(),
    {
        let members: Vec<(String, JsonValue)> = Vec::new();
        proof {
            assert(members.deep_view() =~= Seq::<(Seq<char>, Json)>::empty());
        }
        ObjectBuilder { members }
    }

    /// Adds a member after those that are there.
    pub fn with(self, key: &str, value: JsonValue) -> (r: ObjectBuilder)
        ensures
            r@ == self@.with(key@, value.deep_view()),
    {
        reveal(Members::with);
        let mut members = self.members;
        let ghost before = members.deep_view();
        members.push((key.to_string(), value));
        proof {
            assert(members.deep_view() =~= before.push((key@, value.deep_view())));
        }
        ObjectBuilder { members }
    }

    /// Adds a member where there is a value, and nothing where there is not.
    pub fn with_optional(self, key: &str, value: Option<JsonValue>) -> (r: ObjectBuilder)
        ensures
            r@ == self@.with_optional(key@, value.deep_view()),
    {
        reveal(Members::with);
        reveal(Members::with_optional);
        match value {
            Some(v) => self.with(key, v),
            None => self,
        }
    }

    /// Makes the object.
    pub fn build(self) -> (r: JsonValue)
        ensures
            r.deep_view() == self@.object(),
    {
        proof {
            JsonValue::lemma_member_models(self.members);
        }
        JsonValue::Object(self.members)
    }
}

/// Makes an array of elements.
pub fn array(items: Vec<JsonValue>) -> (r: JsonValue)
    ensures
        r.deep_view() == Json::Array(items.deep_view()),
{
    proof {
        JsonValue::lemma_models(items);
    }
    JsonValue::Array(items)
}

/// Makes a string value with a copy of `s`.
pub fn string(s: &str) -> (r: JsonValue)
    ensures
        r.deep_view() == Json::String(s@),
{
    JsonValue::String(s.to_string())
}

/// The JSON strings for a sequence of texts, one for one.
pub open spec fn string_values(s: Seq<Seq<char>>) -> Seq<Json> {
    Seq::new(s.len(), |i: int| Json::String(s[i]))
}

/// Makes an array of strings with copies of the texts.
pub fn strings(v: &Vec<String>) -> (r: JsonValue)
    ensures
        r.deep_view() == Json::Array(string_values(v.deep_view())),
{
    let mut items: Vec<JsonValue> = Vec::new();
    let mut i: usize = 0;
    while i < v.len()
        invariant
            i <= v.len(),
            items.len() == i,
            forall|j: int| 0 <= j < i ==> (#[trigger] items[j]).deep_view() == Json::String(v[j]@),
        decreases v.len() - i,
    {
        items.push(string(v[i].as_str()));
        i += 1;
    }
    proof {
        assert(items.deep_view() =~= string_values(v.deep_view()));
    }
    array(items)
}

/// A string value for a text that may be absent.
pub fn optional_string(o: &Option<String>) -> (r: Option<JsonValue>)
    ensures
        r.deep_view() == (match o.deep_view() {
            Some(x) => Some(Json::String(x)),
            None => None,
        }),
{
    match o {
        Some(x) => Some(string(x.as_str())),
        None => None,
    }
}

/// An array of strings for a list of texts that may be absent.
pub fn optional_strings(o: &Option<Vec<String>>) -> (r: Option<JsonValue>)
    ensures
        r.deep_view() == (match o.deep_view() {
            Some(x) => Some(Json::Array(string_values(x))),
            None => None,
        }),
{
    match o {
        Some(x) => Some(strings(x)),
        None => None,
    }
}

/// A number value for a number that may be absent.
pub fn optional_number(o: Option<u32>) -> (r: Option<JsonValue>)
    ensures
        r.deep_view() == (match o {
            Some(x) => Some(Json::Number(x as nat)),
            None => None,
        }),
{
    match o {
        Some(x) => Some(JsonValue::Number(x as u64)),
        None => None,
    }
}

/// A boolean value for a truth value that may be absent.
pub fn optional_bool(o: Option<bool>) -> (r: Option<JsonValue>)
    ensures
        r.deep_view() == (match o {
            Some(x) => Some(Json::Bool(x)),
            None => None,
        }),
{
    match o {
        Some(x) => Some(JsonValue::Bool(x)),
        None => None,
    }
}

/// No `null` stands anywhere in the value.
pub open spec fn null_free(j: Json) -> bool
    decreases j,
{
    match j {
        Json::Null => false,
        Json::Bool(_) => true,
        Json::Number(_) => true,
        Json::String(_) => true,
        Json::Array(items) => all_null_free(items),
        Json::Object(members) => all_members_null_free(members),
    }
}

/// No `null` stands anywhere in the values.
pub open spec fn all_null_free(items: Seq<Json>) -> bool
    decreases items,
{
    forall|i: int| 0 <= i < items.len() ==> null_free(#[trigger] items[i])
}

/// No `null` stands anywhere in the values of the members.
pub open spec fn all_members_null_free(members: Seq<(Seq<char>, Json)>) -> bool
    decreases members,
{
    forall|i: int| 0 <= i < members.len() ==> null_free((#[trigger] members[i]).1)
}

/// Whether an object is free of `null`, by the way its members were added:
/// it is where no member was added, and it stays so exactly when the value
/// that is added is.
pub proof fn lemma_null_free_members()
    ensures
        null_free(Members::none().object()),
        forall|m: Members, k: Seq<char>, v: Json| #[trigger]
            null_free(m.with(k, v).object()) <==> null_free(m.object()) && null_free(v),
        forall|m: Members, k: Seq<char>, v: Option<Json>| #[trigger]
            null_free(m.with_optional(k, v).object()) <==> null_free(m.object()) && (v is Some
                ==> null_free(v->0)),
{
    reveal(Members::with);
    reveal(Members::with_optional);
    assert forall|m: Members, k: Seq<char>, v: Json| #[trigger]
        null_free(m.with(k, v).object()) <==> null_free(m.object()) && null_free(v) by {
        lemma_null_free_after_push(m.entries, k, v);
    }
    assert forall|m: Members, k: Seq<char>, v: Option<Json>| #[trigger]
        null_free(m.with_optional(k, v).object()) <==> null_free(m.object()) && (v is Some
            ==> null_free(v->0)) by {
        if v is Some {
            lemma_null_free_after_push(m.entries, k, v->0);
        }
    }
}

/// After a member is added an object is free of `null` exactly when it was
/// and the value that was added is.
pub proof fn lemma_null_free_after_push(entries: Seq<(Seq<char>, Json)>, k: Seq<char>, v: Json)
    ensures
        null_free(Json::Object(entries.push((k, v)))) <==> null_free(Json::Object(entries))
            && null_free(v),
{
    let after = entries.push((k, v));
    if null_free(Json::Object(after)) {
        assert(after[entries.len() as int].1 == v);
        assert forall|i: int| 0 <= i < entries.len() implies null_free(
            (#[trigger] entries[i]).1,
        ) by {
            assert(after[i] == entries[i]);
        }
    }
    if null_free(Json::Object(entries)) && null_free(v) {
        assert forall|i: int| 0 <= i < after.len() implies null_free((#[trigger] after[i]).1) by {
            if i < entries.len() {
                assert(after[i] == entries[i]);
            } else {
                assert(after[i].1 == v);
            }
        }
    }
}

/// An array of strings is free of `null`.
pub proof fn lemma_null_free_strings(s: Seq<Seq<char>>)
    ensures
        null_free(Json::Array(string_values(s))),
{
    assert forall|i: int| 0 <= i < s.len() implies null_free(#[trigger] string_values(s)[i]) by {
        assert(string_values(s)[i] == Json::String(s[i]));
    }
}

/// Which keys an object has, by the way its members were added: none where
/// none were added; after a member was added, its key and those that were
/// there; after an optional member was added, those that were there, and its
/// key where there was a value.
pub proof fn lemma_keys_of_members()
    ensures
        forall|key: Seq<char>| !#[trigger] has_key(Members::none().object(), key),
        forall|m: Members, k: Seq<char>, v: Json, key: Seq<char>| #[trigger]
            has_key(m.with(k, v).object(), key) <==> key == k || has_key(m.object(), key),
        forall|m: Members, k: Seq<char>, v: Option<Json>, key: Seq<char>| #[trigger]
            has_key(m.with_optional(k, v).object(), key) <==> (v is Some && key == k) || has_key(
                m.object(),
                key,
            ),
{
    reveal(Members::with);
    reveal(Members::with_optional);
    assert forall|key: Seq<char>| !#[trigger] has_key(Members::none().object(), key) by {
        assert(keys(Members::none().object()) =~= Seq::<Seq<char>>::empty());
    }
    assert forall|m: Members, k: Seq<char>, v: Json, key: Seq<char>| #[trigger]
        has_key(m.with(k, v).object(), key) <==> key == k || has_key(m.object(), key) by {
        lemma_keys_after_push(m.entries, k, v, key);
    }
    assert forall|m: Members, k: Seq<char>, v: Option<Json>, key: Seq<char>| #[trigger]
        has_key(m.with_optional(k, v).object(), key) <==> (v is Some && key == k) || has_key(
            m.object(),
            key,
        ) by {
        if v is Some {
            lemma_keys_after_push(m.entries, k, v->0, key);
        }
    }
}

/// After a member is added an object has its key and those it had.
pub proof fn lemma_keys_after_push(
    entries: Seq<(Seq<char>, Json)>,
    k: Seq<char>,
    v: Json,
    key: Seq<char>,
)
    ensures
        has_key(Json::Object(entries.push((k, v))), key) <==> key == k || has_key(
            Json::Object(entries),
            key,
        ),
{
    let before = keys(Json::Object(entries));
    let after = keys(Json::Object(entries.push((k, v))));
    assert(after =~= before.push(k));
    if key == k {
        assert(after[before.len() as int] == key);
    }
    if before.contains(key) {
        let i = choose|i: int| 0 <= i < before.len() && before[i] == key;
        assert(after[i] == key);
    }
    if after.contains(key) {
        let i = choose|i: int| 0 <= i < after.len() && after[i] == key;
        if i < before.len() {
            assert(before[i] == key);
        }
    }
}

/// Appends one character of a string as JSON writes it between quotes.
pub fn push_escaped_char(out: &mut String, c: char)
    ensures
        final(out)@ == old(out)@ + escaped_char(c),
{
    let ghost before = out@;
    if c == '"' {
        push_char(out, '\\');
        push_char(out, '"');
    } else if c == '\\' {
        push_char(out, '\\');
        push_char(out, '\\');
    } else if c == '\u{08}' {
        push_char(out, '\\');
        push_char(out, 'b');
    } else if c == '\t' {
        push_char(out, '\\');
        push_char(out, 't');
    } else if c == '\n' {
        push_char(out, '\\');
        push_char(out, 'n');
    } else if c == '\u{0c}' {
        push_char(out, '\\');
        push_char(out, 'f');
    } else if c == '\r' {
        push_char(out, '\\');
        push_char(out, 'r');
    } else if (c as u32) < 0x20 {
        let code: u32 = c as u32;
        push_char(out, '\\');
        push_char(out, 'u');
        push_char(out, '0');
        push_char(out, '0');
        push_char(out, hex_digit_of((code / 16) as u8));
        push_char(out, hex_digit_of((code % 16) as u8));
    } else {
        push_char(out, c);
    }
    proof {
        assert(out@ =~= before + escaped_char(c));
    }
}

/// Appends a string as JSON writes it: escaped, between double quotes.
pub fn push_quoted(out: &mut String, s: &str)
    ensures
        final(out)@ == old(out)@ + quoted(s@),
{
    let ghost start = out@;
    push_char(out, '"');
    proof {
        assert(s@.take(0) =~= Seq::<char>::empty());
        assert(out@ =~= start + seq!['"'] + escaped(s@.take(0)));
    }
    for c in it: s.chars()
        invariant
            it.seq() == s@,
            out@ == start + seq!['"'] + escaped(s@.take(it.index())),
    {
        let ghost before = out@;
        push_escaped_char(out, c);
        proof {
            let i = it.index();
            assert(s@.take(i + 1).drop_last() =~= s@.take(i));
            assert(s@.take(i + 1).last() == c);
            assert(out@ =~= start + seq!['"'] + escaped(s@.take(i + 1)));
        }
    }
    let ghost before = out@;
    push_char(out, '"');
    proof {
        assert(s@.take(s@.len() as int) =~= s@);
        assert(out@ =~= start + quoted(s@));
    }
}

impl JsonValue {
    /// Appends the text of the value, which starts on a line indented by
    /// `indent`.
    pub fn write_pretty(&self, out: &mut String, indent: &str)
        ensures
            final(out)@ == old(out)@ + pretty(self.deep_view(), indent@),
        decreases self,
    {
        let ghost start = out@;
        match self {
            JsonValue::Null => {
                out.append("null");
            },
            JsonValue::Bool(b) => {
                if *b {
                    out.append("true");
                } else {
                    out.append("false");
                }
            },
            JsonValue::Number(n) => {
                push_decimal(out, *n);
            },
            JsonValue::String(s) => {
                push_quoted(out, s.as_str());
            },
            JsonValue::Array(items) => {
                if items.len() == 0 {
                    out.append("[]");
                } else {
                    let mut deeper = indent.to_string();
                    deeper.append("  ");
                    push_char(out, '[');
                    let ghost all = JsonValue::models(items@);
                    let mut i: usize = 0;
                    proof {
                        assert(all.take(0) =~= Seq::<Json>::empty());
                        assert(out@ =~= start + seq!['['] + pretty_items(all.take(0), deeper@));
                    }
                    while i < items.len()
                        invariant
                            i <= items.len(),
                            *self == JsonValue::Array(*items),
                            all == JsonValue::models(items@),
                            deeper@ == indent@ + "  "@,
                            out@ == start + seq!['['] + pretty_items(all.take(i as int), deeper@),
                        decreases items.len() - i,
                    {
                        let ghost before = out@;
                        if i == 0 {
                            out.append("\n");
                        } else {
                            out.append(",\n");
                        }
                        out.append(deeper.as_str());
                        proof {
                            assert(decreases_to!(self => self->Array_0));
                            assert(decreases_to!(self->Array_0 => self->Array_0@));
                            assert(decreases_to!(self->Array_0@ => self->Array_0@[i as int]));
                        }
                        items[i].write_pretty(out, deeper.as_str());
                        proof {
                            let upto = all.take(i as int + 1);
                            assert(upto.drop_last() =~= all.take(i as int));
                            assert(upto.last() == items[i as int].model());
                            assert(out@ =~= start + seq!['['] + pretty_items(upto, deeper@));
                        }
                        i += 1;
                    }
                    out.append("\n");
                    out.append(indent);
                    push_char(out, ']');
                    proof {
                        assert(all.take(items.len() as int) =~= all);
                        assert(out@ =~= start + pretty(self.deep_view(), indent@));
                    }
                }
            },
            JsonValue::Object(members) => {
                if members.len() == 0 {
                    out.append("{}");
                } else {
                    let mut deeper = indent.to_string();
                    deeper.append("  ");
                    push_char(out, '{');
                    let ghost all = JsonValue::member_models(members@);
                    let mut i: usize = 0;
                    proof {
                        assert(all.take(0) =~= Seq::<(Seq<char>, Json)>::empty());
                        assert(out@ =~= start + seq!['{'] + pretty_members(all.take(0), deeper@));
                    }
                    while i < members.len()
                        invariant
                            i <= members.len(),
                            *self == JsonValue::Object(*members),
                            all == JsonValue::member_models(members@),
                            deeper@ == indent@ + "  "@,
                            out@ == start + seq!['{'] + pretty_members(
                                all.take(i as int),
                                deeper@,
                            ),
                        decreases members.len() - i,
                    {
                        let ghost before = out@;
                        if i == 0 {
                            out.append("\n");
                        } else {
                            out.append(",\n");
                        }
                        out.append(deeper.as_str());
                        push_quoted(out, members[i].0.as_str());
                        out.append(": ");
                        proof {
                            assert(decreases_to!(self => self->Object_0));
                            assert(decreases_to!(self->Object_0 => self->Object_0@));
                            assert(decreases_to!(self->Object_0@ => self->Object_0@[i as int]));
                            assert(decreases_to!(self->Object_0@[i as int] => self->Object_0@[i as int].1));
                        }
                        members[i].1.write_pretty(out, deeper.as_str());
                        proof {
                            let upto = all.take(i as int + 1);
                            assert(upto.drop_last() =~= all.take(i as int));
                            assert(upto.last() == (members[i as int].0@, members[i as int].1.model()));
                            assert(out@ =~= start + seq!['{'] + pretty_members(upto, deeper@));
                        }
                        i += 1;
                    }
                    out.append("\n");
                    out.append(indent);
                    push_char(out, '}');
                    proof {
                        assert(all.take(members.len() as int) =~= all);
                        assert(out@ =~= start + pretty(self.deep_view(), indent@));
                    }
                }
            },
        }
    }

    /// The text of the value as a whole document.
    pub fn to_string_pretty(&self) -> (r: String)
        ensures
            r@ == document(self.deep_view()),
    {
        let mut out = String::new();
        self.write_pretty(&mut out, "");
        proof {
            reveal_strlit("");
            assert(""@ =~= Seq::<char>::empty());
        }
        out
    }
}

} // verus!
