//! A JSON document tree, as the gateway and the tools exchange it, and the
//! scrubbing of tool arguments before they are shown to a user.

use vstd::prelude::*;
use crate::text::opt_str;
use vstd::string::*;
use crate::text::{chars_of, has_sub, lower, lower_vec, vec_has_sub};

verus! {

/// A JSON value. Numbers keep their textual form; an object keeps its
/// members in order.
#[derive(Debug)]
pub enum JsonValue {
    Null,
    Bool(bool),
    Number(String),
    Str(String),
    Array(Vec<JsonValue>),
    Object(Vec<(String, JsonValue)>),
}

/// The mathematical model of a JSON value.
#[verifier::ext_equal]
pub enum Json {
    Null,
    Bool(bool),
    Number(Seq<char>),
    Str(Seq<char>),
    Array(Seq<Json>),
    Object(Seq<(Seq<char>, Json)>),
}

/// The model of a JSON value.
pub open spec fn json_view(v: JsonValue) -> Json
    decreases v,
{
    match v {
        JsonValue::Null => Json::Null,
        JsonValue::Bool(b) => Json::Bool(b),
        JsonValue::Number(n) => Json::Number(n@),
        JsonValue::Str(s) => Json::Str(s@),
        JsonValue::Array(a) => Json::Array(
            Seq::new(
                a@.len(),
                |i: int|
                    if 0 <= i < a@.len() {
                        json_view(a@[i])
                    } else {
                        Json::Null
                    },
            ),
        ),
        JsonValue::Object(m) => Json::Object(
            Seq::new(
                m@.len(),
                |i: int|
                    if 0 <= i < m@.len() {
                        (m@[i].0@, json_view(m@[i].1))
                    } else {
                        (Seq::empty(), Json::Null)
                    },
            ),
        ),
    }
}

impl View for JsonValue {
    type V = Json;

    open spec fn view(&self) -> Json {
        json_view(*self)
    }
}

/// The value of the first member named `key`.
pub open spec fn member(m: Seq<(Seq<char>, Json)>, key: Seq<char>) -> Option<Json>
    decreases m.len(),
{
    if m.len() == 0 {
        None
    } else if m[0].0 == key {
        Some(m[0].1)
    } else {
        member(m.drop_first(), key)
    }
}

/// The string held by member `key` of an object; `None` for a missing
/// member, a member that is not a string, or a value that is not an object.
pub open spec fn str_member(j: Json, key: Seq<char>) -> Option<Seq<char>> {
    match j {
        Json::Object(m) => match member(m, key) {
            Some(Json::Str(s)) => Some(s),
            _ => None,
        },
        _ => None,
    }
}

impl JsonValue {
    /// The string held by member `key` (see `str_member`).
    pub fn get_str(&self, key: &str) -> (r: Option<&str>)
        ensures
            opt_str(r) == str_member(self@, key@),
    {
        match self {
            JsonValue::Object(members) => {
                let ghost m = self@->Object_0;
                proof {
                    assert(self@ == Json::Object(m));
                }
                let mut i: usize = 0;
                assert(m.skip(0) =~= m);
                while i < members.len()
                    invariant
                        i <= members@.len(),
                        *self == JsonValue::Object(*members),
                        m == self@->Object_0,
                        m.len() == members@.len(),
                        forall|k: int| 0 <= k < m.len() ==> #[trigger] m[k] == (members@[k].0@, json_view(members@[k].1)),
                        member(m, key@) == member(m.skip(i as int), key@),
                    decreases members.len() - i,
                {
                    let ghost tail = m.skip(i as int);
                    assert(tail[0] == m[i as int]);
                    if crate::text::str_eq(members[i].0.as_str(), key) {
                        return match &members[i].1 {
                            JsonValue::Str(s) => Some(s.as_str()),
                            _ => None,
                        };
                    }
                    assert(tail.drop_first() =~= m.skip(i + 1));
                    i = i + 1;
                }
                None
            },
            _ => None,
        }
    }
}

/// A string value.
pub fn json_str(s: &str) -> (r: JsonValue)
    ensures
        r@ == Json::Str(s@),
{
    JsonValue::Str(s.to_owned())
}

/// What stands in place of the value of a sensitive member.
pub const REDACTED: &'static str = "*[REDACTED]*";

/// How many characters of a long string are kept.
pub const PREVIEW_CHARS: usize = 400;

/// A member name that (in ASCII lower case) mentions a token, an API key,
/// a password, a secret, a bearer or a credential.
pub open spec fn sensitive_key(k: Seq<char>) -> bool {
    let l = lower(k);
    ||| has_sub(l, "token"@)
    ||| has_sub(l, "api_key"@)
    ||| has_sub(l, "password"@)
    ||| has_sub(l, "secret"@)
    ||| has_sub(l, "bearer"@)
    ||| has_sub(l, "credential"@)
}

/// A string cut to its first 400 characters and an ellipsis when longer.
pub open spec fn preview(s: Seq<char>) -> Seq<char> {
    if s.len() > PREVIEW_CHARS {
        s.take(PREVIEW_CHARS as int).push('…')
    } else {
        s
    }
}

/// A value with every sensitive member's value redacted (at any depth)
/// and every other string shortened to its preview.
pub open spec fn scrub(j: Json) -> Json
    decreases j,
{
    match j {
        Json::Str(s) => Json::Str(preview(s)),
        Json::Array(a) => Json::Array(
            Seq::new(
                a.len(),
                |i: int|
                    if 0 <= i < a.len() {
                        scrub(a[i])
                    } else {
                        Json::Null
                    },
            ),
        ),
        Json::Object(m) => Json::Object(
            Seq::new(
                m.len(),
                |i: int|
                    if 0 <= i < m.len() {
                        (
                            m[i].0,
                            if sensitive_key(m[i].0) {
                                Json::Str(REDACTED@)
                            } else {
                                scrub(m[i].1)
                            },
                        )
                    } else {
                        (Seq::empty(), Json::Null)
                    },
            ),
        ),
        _ => j,
    }
}

/// Whether a member name is sensitive.
pub fn is_sensitive_key(k: &str) -> (r: bool)
    ensures
        r == sensitive_key(k@),
{
    let l = lower_vec(&chars_of(k));
    vec_has_sub(&l, &chars_of("token")) || vec_has_sub(&l, &chars_of("api_key"))
        || vec_has_sub(&l, &chars_of("password")) || vec_has_sub(&l, &chars_of("secret"))
        || vec_has_sub(&l, &chars_of("bearer")) || vec_has_sub(&l, &chars_of("credential"))
}

/// The preview of a string.
pub fn preview_string(s: &str) -> (r: String)
    ensures
        r@ == preview(s@),
{
    if s.unicode_len() > PREVIEW_CHARS {
        let mut r = s.substring_char(0, PREVIEW_CHARS).to_owned();
        r.append("…");
        proof {
            reveal_strlit("…");
        }
        assert(r@ =~= s@.take(PREVIEW_CHARS as int).push('…'));
        r
    } else {
        s.to_owned()
    }
}

/// Scrub a value for display: see `scrub`.
pub fn scrub_json(value: &JsonValue) -> (r: JsonValue)
    ensures
        r@ == scrub(value@),
    decreases value,
{
    match value {
        JsonValue::Null => JsonValue::Null,
        JsonValue::Bool(b) => JsonValue::Bool(*b),
        JsonValue::Number(n) => JsonValue::Number(n.clone()),
        JsonValue::Str(s) => JsonValue::Str(preview_string(s.as_str())),
        JsonValue::Array(arr) => {
            let mut out: Vec<JsonValue> = Vec::new();
            let mut i: usize = 0;
            while i < arr.len()
                invariant
                    i <= arr@.len(),
                    *value == JsonValue::Array(*arr),
                    out@.len() == i,
                    forall|j: int| 0 <= j < i ==> #[trigger] json_view(out@[j]) == scrub(json_view(arr@[j])),
                decreases arr.len() - i,
            {
                assert(decreases_to!(*value => arr@[i as int])) by {
                    assert(decreases_to!(*value => value->Array_0));
                    assert(decreases_to!(*arr => arr@));
                    assert(decreases_to!(arr@ => arr@[i as int]));
                }
                let x = scrub_json(&arr[i]);
                out.push(x);
                i = i + 1;
            }
            let r = JsonValue::Array(out);
            proof {
                let sv = value@->Array_0;
                assert(value@ == Json::Array(sv));
                assert(sv.len() == arr@.len());
                assert forall|k: int| 0 <= k < out@.len() implies #[trigger] r@->Array_0[k] == scrub(value@)->Array_0[k] by {
                    assert(sv[k] == json_view(arr@[k]));
                    assert(r@->Array_0[k] == json_view(out@[k]));
                }
                assert(r@->Array_0 =~= scrub(value@)->Array_0);
            }
            r
        },
        JsonValue::Object(members) => {
            let mut out: Vec<(String, JsonValue)> = Vec::new();
            let mut i: usize = 0;
            while i < members.len()
                invariant
                    i <= members@.len(),
                    *value == JsonValue::Object(*members),
                    out@.len() == i,
                    forall|j: int| 0 <= j < i ==> #[trigger] out@[j].0@ == members@[j].0@,
                    forall|j: int| 0 <= j < i ==> #[trigger] json_view(out@[j].1) == (if sensitive_key(members@[j].0@) {
                        Json::Str(REDACTED@)
                    } else {
                        scrub(json_view(members@[j].1))
                    }),
                decreases members.len() - i,
            {
                let key = members[i].0.clone();
                let hide = is_sensitive_key(key.as_str());
                let v = if hide {
                    JsonValue::Str(REDACTED.to_owned())
                } else {
                    assert(decreases_to!(*value => members@[i as int].1)) by {
                        assert(decreases_to!(*value => value->Object_0));
                        assert(decreases_to!(*members => members@));
                        assert(decreases_to!(members@ => members@[i as int]));
                        assert(decreases_to!(members@[i as int] => members@[i as int].1));
                    }
                    scrub_json(&members[i].1)
                };
                assert(json_view(v) == (if sensitive_key(members@[i as int].0@) {
                    Json::Str(REDACTED@)
                } else {
                    scrub(json_view(members@[i as int].1))
                }));
                let ghost before = out@;
                out.push((key, v));
                assert forall|j: int| 0 <= j < i + 1 implies #[trigger] json_view(out@[j].1) == (if sensitive_key(members@[j].0@) {
                    Json::Str(REDACTED@)
                } else {
                    scrub(json_view(members@[j].1))
                }) by {
                    if j < i {
                        assert(out@[j] == before[j]);
                    }
                }
                i = i + 1;
            }
            let r = JsonValue::Object(out);
            proof {
                let sv = value@->Object_0;
                assert(value@ == Json::Object(sv));
                assert(sv.len() == members@.len());
                assert forall|k: int| 0 <= k < out@.len() implies #[trigger] r@->Object_0[k] == scrub(value@)->Object_0[k] by {
                    assert(sv[k] == (members@[k].0@, json_view(members@[k].1)));
                    assert(r@->Object_0[k] == (out@[k].0@, json_view(out@[k].1)));
                }
                assert(r@->Object_0 =~= scrub(value@)->Object_0);
            }
            r
        },
    }
}

/// Every string in `j` (member names aside) has at most `n` characters.
pub open spec fn strings_within(j: Json, n: nat) -> bool
    decreases j,
{
    match j {
        Json::Str(s) => s.len() <= n,
        Json::Array(a) => forall|i: int| 0 <= i < a.len() ==> #[trigger] strings_within(a[i], n),
        Json::Object(m) => forall|i: int| 0 <= i < m.len() ==> #[trigger] strings_within(m[i].1, n),
        _ => true,
    }
}

/// At any depth, the value of every sensitive member is the redaction
/// marker.
pub open spec fn secrets_hidden(j: Json) -> bool
    decreases j,
{
    match j {
        Json::Array(a) => forall|i: int| 0 <= i < a.len() ==> #[trigger] secrets_hidden(a[i]),
        Json::Object(m) => forall|i: int|
            0 <= i < m.len() ==> (sensitive_key(m[i].0) ==> m[i].1 == Json::Str(REDACTED@))
                && #[trigger] secrets_hidden(m[i].1),
        _ => true,
    }
}

proof fn lemma_preview_idempotent(s: Seq<char>)
    ensures
        preview(preview(s)) == preview(s),
        preview(s).len() <= PREVIEW_CHARS + 1,
{
    if s.len() > PREVIEW_CHARS {
        assert(preview(s).take(PREVIEW_CHARS as int) =~= s.take(PREVIEW_CHARS as int));
    }
}

/// Scrubbing hides every sensitive member's value at any depth, leaves no
/// string longer than 401 characters, and scrubbing again changes nothing.
pub proof fn lemma_scrub_laws(j: Json)
    ensures
        secrets_hidden(scrub(j)),
        strings_within(scrub(j), (PREVIEW_CHARS + 1) as nat),
        scrub(scrub(j)) == scrub(j),
    decreases j,
{
    reveal_strlit("*[REDACTED]*");
    assert(preview(REDACTED@) == REDACTED@);
    match j {
        Json::Str(s) => {
            lemma_preview_idempotent(s);
        },
        Json::Array(a) => {
            let sa = scrub(j)->Array_0;
            assert forall|i: int| 0 <= i < a.len() implies {
                &&& secrets_hidden(#[trigger] sa[i])
                &&& strings_within(sa[i], (PREVIEW_CHARS + 1) as nat)
                &&& scrub(sa[i]) == sa[i]
            } by {
                assert(decreases_to!(j => a[i])) by {
                    assert(decreases_to!(j => j->Array_0));
                }
                lemma_scrub_laws(a[i]);
            }
            assert(scrub(scrub(j))->Array_0 =~= sa);
        },
        Json::Object(m) => {
            let sm = scrub(j)->Object_0;
            assert forall|i: int| 0 <= i < m.len() implies {
                &&& secrets_hidden(#[trigger] sm[i].1)
                &&& strings_within(sm[i].1, (PREVIEW_CHARS + 1) as nat)
                &&& scrub(sm[i].1) == sm[i].1
            } by {
                if !sensitive_key(m[i].0) {
                    assert(decreases_to!(j => m[i].1)) by {
                        assert(decreases_to!(j => j->Object_0));
                        assert(decreases_to!(m => m[i]));
                    }
                    lemma_scrub_laws(m[i].1);
                }
            }
            assert(scrub(scrub(j))->Object_0 =~= sm);
        },
        _ => {},
    }
}

} // verus!
