use vstd::prelude::*;
use serde_json::Value;

verus! {

/// A JSON number as it was read: a non-negative integer, a negative integer,
/// or any other (floating-point) value, kept as the text `serde_json` writes
/// for it.
#[derive(Debug, PartialEq, Eq)]
pub enum JsonNumber {
    PosInt(u64),
    NegInt(i64),
    Float(String),
}

/// A JSON value. Object members keep their order; a key occurs at most once
/// in the values that come from a parser.
#[derive(Debug)]
pub enum Json {
    Null,
    Bool(bool),
    Number(JsonNumber),
    Str(String),
    Array(Vec<Json>),
    Object(Vec<(String, Json)>),
}

/// The value of the first member named `key`, searching from index `i`.
pub open spec fn member_from(members: Seq<(String, Json)>, key: Seq<char>, i: int) -> Option<Json>
    decreases members.len() - i,
{
    if i < 0 || i >= members.len() {
        None
    } else if members[i].0@ == key {
        Some(members[i].1)
    } else {
        member_from(members, key, i + 1)
    }
}

pub open spec fn deref_opt(r: Option<&Json>) -> Option<Json> {
    match r {
        Some(v) => Some(*v),
        None => None,
    }
}

/// No two members share a key.
pub open spec fn keys_unique(members: Seq<(String, Json)>) -> bool {
    forall|i: int, j: int| 0 <= i < j < members.len() ==> members[i].0@ != members[j].0@
}

/// The value of the last member named `key` among the first `n` members.
pub open spec fn last_member(members: Seq<(String, Json)>, key: Seq<char>, n: int) -> Option<Json>
    decreases n,
{
    if n <= 0 || n > members.len() {
        None
    } else if members[n - 1].0@ == key {
        Some(members[n - 1].1)
    } else {
        last_member(members, key, n - 1)
    }
}

/// Lookup of `key` once the members of `updates` were stored over `members`
/// in order: the update's value when it has the key (its last one), else the
/// old one.
pub open spec fn lookup_after(members: Seq<(String, Json)>, updates: Seq<(String, Json)>, key: Seq<char>) -> Option<Json> {
    match last_member(updates, key, updates.len() as int) {
        Some(v) => Some(v),
        None => member_from(members, key, 0),
    }
}

proof fn lemma_member_from_push(s: Seq<(String, Json)>, e: (String, Json), key: Seq<char>, i: int)
    requires
        0 <= i <= s.len(),
    ensures
        member_from(s.push(e), key, i) == match member_from(s, key, i) {
            Some(v) => Some(v),
            None => if e.0@ == key { Some(e.1) } else { None },
        },
    decreases s.len() - i,
{
    if i < s.len() {
        assert(s.push(e)[i] == s[i]);
        lemma_member_from_push(s, e, key, i + 1);
    } else {
        assert(s.push(e)[i] == e);
        assert(member_from(s.push(e), key, i + 1) is None);
    }
}

proof fn lemma_member_from_absent(s: Seq<(String, Json)>, key: Seq<char>, i: int)
    requires
        0 <= i,
        forall|j: int| i <= j < s.len() ==> s[j].0@ != key,
    ensures
        member_from(s, key, i) is None,
    decreases s.len() - i,
{
    if i < s.len() {
        lemma_member_from_absent(s, key, i + 1);
    }
}

proof fn lemma_member_from_update(s: Seq<(String, Json)>, p: int, e: (String, Json), key: Seq<char>, i: int)
    requires
        0 <= p < s.len(),
        s[p].0@ == e.0@,
        forall|j: int| 0 <= j < p ==> s[j].0@ != e.0@,
        0 <= i <= p,
    ensures
        member_from(s.update(p, e), key, i) == if key == e.0@ { Some(e.1) } else { member_from(s, key, i) },
    decreases s.len() - i,
{
    let t = s.update(p, e);
    if i < p {
        assert(t[i] == s[i]);
        lemma_member_from_update(s, p, e, key, i + 1);
    } else {
        assert(t[p] == e);
        if key != e.0@ {
            assert forall|j: int| p + 1 <= j < t.len() implies t[j] == s[j] by {}
            lemma_member_from_suffix_eq(s, t, key, p + 1);
        }
    }
}

proof fn lemma_member_from_suffix_eq(s: Seq<(String, Json)>, t: Seq<(String, Json)>, key: Seq<char>, i: int)
    requires
        0 <= i,
        s.len() == t.len(),
        forall|j: int| i <= j < s.len() ==> s[j] == t[j],
    ensures
        member_from(s, key, i) == member_from(t, key, i),
    decreases s.len() - i,
{
    if i < s.len() {
        lemma_member_from_suffix_eq(s, t, key, i + 1);
    }
}

/// Stores `value` under `key`: replaces the member with that key, or appends one.
pub fn upsert_member(members: &mut Vec<(String, Json)>, key: String, value: Json)
    ensures
        keys_unique(old(members)@) ==> keys_unique(final(members)@),
        forall|k: Seq<char>| #[trigger] member_from(final(members)@, k, 0)
            == if k == key@ { Some(value) } else { member_from(old(members)@, k, 0) },
{
    let ghost s = members@;
    let ghost kv = key@;
    let ghost e = (key, value);
    let mut i: usize = 0;
    while i < members.len()
        invariant
            members@ == s,
            s == old(members)@,
            e == (key, value),
            kv == key@,
            i <= s.len(),
            forall|j: int| 0 <= j < i ==> s[j].0@ != kv,
        decreases members.len() - i,
    {
        if members[i].0 == key {
            members.set(i, (key, value));
            proof {
                assert forall|k: Seq<char>| #[trigger] member_from(members@, k, 0)
                    == if k == kv { Some(e.1) } else { member_from(s, k, 0) } by {
                    lemma_member_from_update(s, i as int, e, k, 0);
                }
                assert forall|a: int, b: int| keys_unique(s) && 0 <= a < b < members@.len() implies members@[a].0@ != members@[b].0@ by {
                    if a != i && b != i {
                        assert(members@[a] == s[a] && members@[b] == s[b]);
                    } else if a == i {
                        assert(members@[b] == s[b]);
                    } else {
                        assert(members@[a] == s[a]);
                    }
                }
            }
            return;
        }
        i = i + 1;
    }
    members.push((key, value));
    proof {
        assert forall|k: Seq<char>| #[trigger] member_from(members@, k, 0)
            == if k == kv { Some(e.1) } else { member_from(s, k, 0) } by {
            lemma_member_from_push(s, e, k, 0);
            if k == kv {
                lemma_member_from_absent(s, k, 0);
            }
        }
        assert forall|a: int, b: int| keys_unique(s) && 0 <= a < b < members@.len() implies members@[a].0@ != members@[b].0@ by {
            if b < s.len() {
                assert(members@[a] == s[a] && members@[b] == s[b]);
            } else {
                assert(members@[a] == s[a]);
            }
        }
    }
}

/// Stores every member of `updates` into `members` in order, as
/// `HashMap::extend` does: a stored member replaces the one with its key.
pub fn extend_members(members: &mut Vec<(String, Json)>, updates: Vec<(String, Json)>)
    ensures
        keys_unique(old(members)@) ==> keys_unique(final(members)@),
        forall|k: Seq<char>| #[trigger] member_from(final(members)@, k, 0) == lookup_after(old(members)@, updates@, k),
{
    let total: usize = updates.len();
    let ghost start = members@;
    let ghost all = updates@;
    let mut rest = updates;
    let mut done: usize = 0;
    assert(all.len() == total);
    while rest.len() > 0
        invariant
            keys_unique(start) ==> keys_unique(members@),
            done + rest@.len() == all.len(),
            all.len() <= usize::MAX,
            rest@ == all.skip(done as int),
            forall|k: Seq<char>| #[trigger] member_from(members@, k, 0) == match last_member(all, k, done as int) {
                Some(v) => Some(v),
                None => member_from(start, k, 0),
            },
        decreases rest.len(),
    {
        let ghost before = members@;
        let (key, value) = rest.remove(0);
        proof {
            assert(all[done as int] == (key, value));
        }
        upsert_member(members, key, value);
        proof {
            assert(rest@ =~= all.skip(done + 1));
            assert forall|k: Seq<char>| #[trigger] member_from(members@, k, 0) == match last_member(all, k, done + 1) {
                Some(v) => Some(v),
                None => member_from(start, k, 0),
            } by {
                assert(member_from(before, k, 0) == match last_member(all, k, done as int) {
                    Some(v) => Some(v),
                    None => member_from(start, k, 0),
                });
            }
        }
        done = done + 1;
    }
}

/// `serde_json`'s value type, carried opaquely.
#[verifier::external_type_specification]
#[verifier::external_body]
pub struct ExValue(serde_json::Value);

/// What `serde_json::from_str` makes of a text, as a `Json`; `None` when the
/// text is not one JSON value.
pub uninterp spec fn spec_parse_json(text: Seq<char>) -> Option<Json>;

/// Converts a `serde_json::Value` member by member: integers that fit `u64`
/// and negative ones that fit `i64` stay integers (as `Number::as_u64` and
/// `as_i64` give them), other numbers keep their `Display` text.
#[verifier::external_body]
fn json_of_value(v: &Value) -> Json {
    match v {
        Value::Null => Json::Null,
        Value::Bool(b) => Json::Bool(*b),
        Value::Number(n) => Json::Number(match (n.as_u64(), n.as_i64()) {
            (Some(u), _) => JsonNumber::PosInt(u),
            (_, Some(i)) => JsonNumber::NegInt(i),
            _ => JsonNumber::Float(n.to_string()),
        }),
        Value::String(s) => Json::Str(s.clone()),
        Value::Array(items) => Json::Array(items.iter().map(json_of_value).collect()),
        Value::Object(m) => Json::Object(m.iter().map(|(k, v)| (k.clone(), json_of_value(v))).collect()),
    }
}

/// The compact JSON text `serde_json` writes for a value (`Value`'s
/// `Display`), after the value is converted to a `serde_json::Value`.
pub uninterp spec fn spec_compact_text(v: Json) -> Seq<char>;

/// Converts a `Json` back into a `serde_json::Value`, member by member; a
/// float's text is parsed back with `Number`'s `FromStr` (a text that does
/// not parse becomes `null`).
#[verifier::external_body]
fn value_of_json(j: &Json) -> Value {
    match j {
        Json::Null => Value::Null,
        Json::Bool(b) => Value::Bool(*b),
        Json::Number(JsonNumber::PosInt(u)) => Value::from(*u),
        Json::Number(JsonNumber::NegInt(i)) => Value::from(*i),
        Json::Number(JsonNumber::Float(t)) => t.parse().map_or(Value::Null, Value::Number),
        Json::Str(s) => Value::String(s.clone()),
        Json::Array(items) => Value::Array(items.iter().map(value_of_json).collect()),
        Json::Object(m) => Value::Object(m.iter().map(|(k, v)| (k.clone(), value_of_json(v))).collect()),
    }
}

/// Serializes a value with `serde_json` (`Value::to_string`). The text is
/// named, not described: the same value gives the same text.
#[verifier::external_body]
pub(crate) fn compact_text(v: &Json) -> (r: String)
    ensures
        r@ == spec_compact_text(*v),
{
    value_of_json(v).to_string()
}

/// Parses one JSON text with `serde_json::from_str::<Value>` and converts the
/// value. The result is named, not described: it is whatever `serde_json`
/// makes of the text, the same for the same text.
#[verifier::external_body]
pub fn parse_json(text: &str) -> (r: Option<Json>)
    ensures
        r == spec_parse_json(text@),
{
    serde_json::from_str::<Value>(text).ok().map(|v| json_of_value(&v))
}

impl Json {
    /// The member `key` of an object; `None` for every other value.
    pub open spec fn field(self, key: Seq<char>) -> Option<Json> {
        match self {
            Json::Object(members) => member_from(members@, key, 0),
            _ => None,
        }
    }

    /// A non-negative integer that fits `u64`.
    pub open spec fn u64_value(self) -> Option<u64> {
        match self {
            Json::Number(JsonNumber::PosInt(n)) => Some(n),
            _ => None,
        }
    }

    /// An integer that fits `i64`.
    pub open spec fn i64_value(self) -> Option<i64> {
        match self {
            Json::Number(JsonNumber::PosInt(n)) => if n <= i64::MAX as u64 { Some(n as i64) } else { None },
            Json::Number(JsonNumber::NegInt(n)) => Some(n),
            _ => None,
        }
    }

    /// The text of a string value.
    pub open spec fn str_value(self) -> Option<Seq<char>> {
        match self {
            Json::Str(s) => Some(s@),
            _ => None,
        }
    }

    /// Looks up the member `key` of an object (`None` for other values).
    pub fn get(&self, key: &str) -> (r: Option<&Json>)
        ensures
            deref_opt(r) == self.field(key@),
    {
        match self {
            Json::Object(members) => {
                let wanted = String::from_str(key);
                let mut i: usize = 0;
                while i < members.len()
                    invariant
                        i <= members@.len(),
                        wanted@ == key@,
                        self.field(key@) == member_from(members@, key@, 0),
                        member_from(members@, key@, 0) == member_from(members@, key@, i as int),
                    decreases members.len() - i,
                {
                    if members[i].0 == wanted {
                        return Some(&members[i].1);
                    }
                    i = i + 1;
                }
                None
            },
            _ => None,
        }
    }

    pub fn as_u64(&self) -> (r: Option<u64>)
        ensures
            r == self.u64_value(),
    {
        match self {
            Json::Number(JsonNumber::PosInt(n)) => Some(*n),
            _ => None,
        }
    }

    pub fn as_i64(&self) -> (r: Option<i64>)
        ensures
            r == self.i64_value(),
    {
        match self {
            Json::Number(JsonNumber::PosInt(n)) => if *n <= 0x7fff_ffff_ffff_ffffu64 { Some(*n as i64) } else { None },
            Json::Number(JsonNumber::NegInt(n)) => Some(*n),
            _ => None,
        }
    }

    pub fn as_str(&self) -> (r: Option<&str>)
        ensures
            match r {
                Some(s) => self.str_value() == Some(s@),
                None => self.str_value() is None,
            },
    {
        match self {
            Json::Str(s) => Some(s.as_str()),
            _ => None,
        }
    }

    pub fn is_null(&self) -> (r: bool)
        ensures
            r == (self is Null),
    {
        match self {
            Json::Null => true,
            _ => false,
        }
    }

    pub fn is_object(&self) -> (r: bool)
        ensures
            r == (self is Object),
    {
        match self {
            Json::Object(_) => true,
            _ => false,
        }
    }
}

} // verus!
