//! A JSON value model: the values that requests carry and replies hold.

use vstd::prelude::*;
use vstd::std_specs::cmp::PartialEqSpecImpl;

verus! {

/// A JSON number, as a JSON parser reads it: a non-negative integer, a
/// negative integer, or a finite float held by its IEEE 754 bit pattern.
#[derive(Debug, Clone, Copy, PartialEq, Eq)]
pub enum JsonNumber {
    PosInt(u64),
    NegInt(i64),
    FloatBits(u64),
}

/// The mathematical model of a JSON value.
pub enum Json {
    Null,
    Bool(bool),
    Number(JsonNumber),
    Str(Seq<char>),
    Array(Seq<Json>),
    Object(Seq<(Seq<char>, Json)>),
}

/// A JSON value. An object keeps its members in order; where a key occurs
/// twice, the member written last is the one that a lookup finds, as
/// inserting the members into a map one by one would leave it. Two values
/// are `==` when they are equal as JSON values (see `json_eq`).
#[derive(Debug)]
pub enum JsonValue {
    Null,
    Bool(bool),
    Number(JsonNumber),
    String(String),
    Array(Vec<JsonValue>),
    Object(Vec<(String, JsonValue)>),
}

pub open spec fn json_of(v: JsonValue) -> Json
    decreases v,
{
    match v {
        JsonValue::Null => Json::Null,
        JsonValue::Bool(b) => Json::Bool(b),
        JsonValue::Number(n) => Json::Number(n),
        JsonValue::String(s) => Json::Str(s@),
        JsonValue::Array(items) => Json::Array(json_seq(items@)),
        JsonValue::Object(members) => Json::Object(json_members(members@)),
    }
}

pub open spec fn json_seq(s: Seq<JsonValue>) -> Seq<Json>
    decreases s,
{
    if s.len() == 0 {
        Seq::empty()
    } else {
        seq![json_of(s[0])] + json_seq(s.drop_first())
    }
}

pub open spec fn json_members(s: Seq<(String, JsonValue)>) -> Seq<(Seq<char>, Json)>
    decreases s,
{
    if s.len() == 0 {
        Seq::empty()
    } else {
        seq![(s[0].0@, json_of(s[0].1))] + json_members(s.drop_first())
    }
}

impl View for JsonValue {
    type V = Json;

    open spec fn view(&self) -> Json {
        json_of(*self)
    }
}


pub proof fn lemma_json_seq(s: Seq<JsonValue>)
    ensures
        json_seq(s).len() == s.len(),
        forall|i: int| 0 <= i < s.len() ==> #[trigger] json_seq(s)[i] == json_of(s[i]),
    decreases s.len(),
{
    if s.len() > 0 {
        lemma_json_seq(s.drop_first());
        assert forall|i: int| 0 <= i < s.len() implies #[trigger] json_seq(s)[i] == json_of(s[i]) by {
            if i > 0 {
                assert(s.drop_first()[i - 1] == s[i]);
            }
        }
    }
}

pub proof fn lemma_json_members(s: Seq<(String, JsonValue)>)
    ensures
        json_members(s).len() == s.len(),
        forall|i: int|
            0 <= i < s.len() ==> #[trigger] json_members(s)[i] == (s[i].0@, json_of(s[i].1)),
    decreases s.len(),
{
    if s.len() > 0 {
        lemma_json_members(s.drop_first());
        assert forall|i: int| 0 <= i < s.len() implies #[trigger] json_members(s)[i] == (
            s[i].0@,
            json_of(s[i].1),
        ) by {
            if i > 0 {
                assert(s.drop_first()[i - 1] == s[i]);
            }
        }
    }
}

/// The member that a lookup of `key` finds: the last one with that key.
pub open spec fn json_lookup(members: Seq<(Seq<char>, Json)>, key: Seq<char>) -> Option<Json>
    decreases members.len(),
{
    if members.len() == 0 {
        None
    } else if members.last().0 == key {
        Some(members.last().1)
    } else {
        json_lookup(members.drop_last(), key)
    }
}

/// What indexing a JSON value by a key gives: the member of an object, and
/// nothing for any other value.
pub open spec fn json_get(v: Json, key: Seq<char>) -> Option<Json> {
    match v {
        Json::Object(members) => json_lookup(members, key),
        _ => None,
    }
}

pub open spec fn json_as_str(v: Json) -> Option<Seq<char>> {
    match v {
        Json::Str(s) => Some(s),
        _ => None,
    }
}

pub open spec fn json_as_bool(v: Json) -> Option<bool> {
    match v {
        Json::Bool(b) => Some(b),
        _ => None,
    }
}

/// The number as an `i64`, where it is an integer that fits.
pub open spec fn json_as_i64(v: Json) -> Option<i64> {
    match v {
        Json::Number(JsonNumber::PosInt(n)) => if n <= i64::MAX {
            Some(n as i64)
        } else {
            None
        },
        Json::Number(JsonNumber::NegInt(n)) => Some(n),
        _ => None,
    }
}

pub open spec fn json_as_array(v: Json) -> Option<Seq<Json>> {
    match v {
        Json::Array(items) => Some(items),
        _ => None,
    }
}

/// `Some` of the view of the value behind an optional reference.
pub open spec fn opt_view(r: Option<&JsonValue>) -> Option<Json> {
    match r {
        Some(x) => Some(x@),
        None => None,
    }
}

impl Clone for JsonValue {
    #[verifier::loop_isolation(false)]
    fn clone(&self) -> (r: Self)
        ensures
            r@ == self@,
        decreases self,
    {
        match self {
            JsonValue::Null => JsonValue::Null,
            JsonValue::Bool(b) => JsonValue::Bool(*b),
            JsonValue::Number(n) => JsonValue::Number(*n),
            JsonValue::String(s) => JsonValue::String(s.clone()),
            JsonValue::Array(items) => {
                let mut out: Vec<JsonValue> = Vec::new();
                let n = items.len();
                for i in 0..n
                    invariant
                        n == items@.len(),
                        out@.len() == i,
                        forall|j: int| 0 <= j < i ==> #[trigger] json_of(out@[j]) == json_of(items@[j]),
                {
                    let c = items[i].clone();
                    out.push(c);
                }
                proof {
                    lemma_json_seq(out@);
                    lemma_json_seq(items@);
                    assert(json_seq(out@) =~= json_seq(items@));
                }
                JsonValue::Array(out)
            },
            JsonValue::Object(members) => {
                let mut out: Vec<(String, JsonValue)> = Vec::new();
                let n = members.len();
                for i in 0..n
                    invariant
                        n == members@.len(),
                        out@.len() == i,
                        forall|j: int|
                            #![trigger out@[j]]
                            0 <= j < i ==> out@[j].0@ == members@[j].0@ && json_of(out@[j].1)
                                == json_of(members@[j].1),
                {
                    assert(decreases_to!(members@[i as int] => members@[i as int].1));
                    let k = members[i].0.clone();
                    let v = members[i].1.clone();
                    out.push((k, v));
                }
                proof {
                    lemma_json_members(out@);
                    lemma_json_members(members@);
                    assert(json_members(out@) =~= json_members(members@));
                }
                JsonValue::Object(out)
            },
        }
    }
}

impl JsonValue {
    /// The member of an object under `key` (the last one, where it occurs
    /// twice); `None` for a missing key and for any value not an object.
    #[verifier::loop_isolation(false)]
    pub fn get(&self, key: &str) -> (r: Option<&JsonValue>)
        ensures
            opt_view(r) == json_get(self@, key@),
    {
        match self {
            JsonValue::Object(members) => {
                let k = String::from_str(key);
                let ghost jm = json_members(members@);
                assert(self@ == Json::Object(jm));
                proof {
                    lemma_json_members(members@);
                    assert(jm.take(members@.len() as int) =~= jm);
                }
                let mut i = members.len();
                while i > 0
                    invariant
                        i <= members@.len(),
                        jm == json_members(members@),
                        jm.len() == members@.len(),
                        forall|j: int|
                            0 <= j < members@.len() ==> #[trigger] jm[j] == (
                                members@[j].0@,
                                json_of(members@[j].1),
                            ),
                        k@ == key@,
                        json_lookup(jm, key@) == json_lookup(jm.take(i as int), key@),
                    decreases i,
                {
                    assert(jm.take(i as int).drop_last() =~= jm.take(i - 1));
                    assert(jm.take(i as int).last() == jm[i - 1]);
                    if members[i - 1].0 == k {
                        assert(json_lookup(jm.take(i as int), key@) == Some(json_of(members@[i - 1].1)));
                        return Some(&members[i - 1].1);
                    }
                    i = i - 1;
                }
                assert(jm.take(0) =~= Seq::<(Seq<char>, Json)>::empty());
                None
            },
            _ => None,
        }
    }

    pub fn as_str(&self) -> (r: Option<&String>)
        ensures
            match r {
                Some(s) => json_as_str(self@) == Some(s@),
                None => json_as_str(self@) is None,
            },
    {
        match self {
            JsonValue::String(s) => Some(s),
            _ => None,
        }
    }

    pub fn as_bool(&self) -> (r: Option<bool>)
        ensures
            r == json_as_bool(self@),
    {
        match self {
            JsonValue::Bool(b) => Some(*b),
            _ => None,
        }
    }

    pub fn as_i64(&self) -> (r: Option<i64>)
        ensures
            r == json_as_i64(self@),
    {
        match self {
            JsonValue::Number(JsonNumber::PosInt(n)) => {
                if *n <= 0x7fff_ffff_ffff_ffffu64 {
                    Some(*n as i64)
                } else {
                    None
                }
            },
            JsonValue::Number(JsonNumber::NegInt(n)) => Some(*n),
            _ => None,
        }
    }

    pub fn as_array(&self) -> (r: Option<&Vec<JsonValue>>)
        ensures
            match r {
                Some(items) => json_as_array(self@) == Some(json_seq(items@)),
                None => json_as_array(self@) is None,
            },
    {
        match self {
            JsonValue::Array(items) => Some(items),
            _ => None,
        }
    }
}

/// A JSON string.
pub fn text(s: &str) -> (r: JsonValue)
    ensures
        r@ == Json::Str(s@),
{
    JsonValue::String(String::from_str(s))
}

/// The JSON object with the given members.
pub fn object(members: Vec<(String, JsonValue)>) -> (r: JsonValue)
    ensures
        r@ == Json::Object(json_members(members@)),
{
    JsonValue::Object(members)
}

/// A JSON array of one item.
pub fn array1(x: JsonValue) -> (r: JsonValue)
    ensures
        r@ == Json::Array(seq![x@]),
{
    let ghost xv = x@;
    let v = vec![x];
    proof {
        lemma_json_seq(v@);
        assert(json_seq(v@) =~= seq![xv]);
    }
    JsonValue::Array(v)
}

pub proof fn lemma_members1(a: (String, JsonValue))
    ensures
        json_members(seq![a]) == seq![(a.0@, a.1@)],
{
    lemma_json_members(seq![a]);
    assert(json_members(seq![a]) =~= seq![(a.0@, a.1@)]);
}

pub proof fn lemma_members2(a: (String, JsonValue), b: (String, JsonValue))
    ensures
        json_members(seq![a, b]) == seq![(a.0@, a.1@), (b.0@, b.1@)],
{
    lemma_json_members(seq![a, b]);
    assert(json_members(seq![a, b]) =~= seq![(a.0@, a.1@), (b.0@, b.1@)]);
}

pub proof fn lemma_members3(a: (String, JsonValue), b: (String, JsonValue), c: (String, JsonValue))
    ensures
        json_members(seq![a, b, c]) == seq![(a.0@, a.1@), (b.0@, b.1@), (c.0@, c.1@)],
{
    lemma_json_members(seq![a, b, c]);
    assert(json_members(seq![a, b, c]) =~= seq![(a.0@, a.1@), (b.0@, b.1@), (c.0@, c.1@)]);
}

pub proof fn lemma_members_push(s: Seq<(String, JsonValue)>, x: (String, JsonValue))
    ensures
        json_members(s.push(x)) == json_members(s) + seq![(x.0@, x.1@)],
{
    lemma_json_members(s);
    lemma_json_members(s.push(x));
    assert(json_members(s.push(x)) =~= json_members(s) + seq![(x.0@, x.1@)]);
}


/// A NaN, by its bit pattern.
pub open spec fn is_nan_bits(x: u64) -> bool {
    (x & 0x7ff0_0000_0000_0000u64) == 0x7ff0_0000_0000_0000u64 && (x & 0x000f_ffff_ffff_ffffu64)
        != 0
}

/// Zero or minus zero, by its bit pattern.
pub open spec fn is_zero_bits(x: u64) -> bool {
    (x & 0x7fff_ffff_ffff_ffffu64) == 0
}

/// Whether two numbers are equal as JSON numbers: integers by their value,
/// floats as `f64` compares them (NaN equals nothing, the two zeros are
/// equal), and never an integer with a float.
pub open spec fn number_eq(a: JsonNumber, b: JsonNumber) -> bool {
    match a {
        JsonNumber::PosInt(x) => match b {
            JsonNumber::PosInt(y) => x == y,
            JsonNumber::NegInt(y) => x == y,
            JsonNumber::FloatBits(_) => false,
        },
        JsonNumber::NegInt(x) => match b {
            JsonNumber::PosInt(y) => x == y,
            JsonNumber::NegInt(y) => x == y,
            JsonNumber::FloatBits(_) => false,
        },
        JsonNumber::FloatBits(x) => match b {
            JsonNumber::FloatBits(y) => !is_nan_bits(x) && !is_nan_bits(y) && (x == y || (
            is_zero_bits(x) && is_zero_bits(y))),
            _ => false,
        },
    }
}

/// Some member of `m` has the key `key`.
pub open spec fn has_key(m: Seq<(Seq<char>, Json)>, key: Seq<char>) -> bool {
    exists|k: int| 0 <= k < m.len() && #[trigger] m[k].0 == key
}

/// Every key of `mb` is a key of `ma`.
pub open spec fn keys_covered(ma: Seq<(Seq<char>, Json)>, mb: Seq<(Seq<char>, Json)>) -> bool {
    forall|j: int| 0 <= j < mb.len() ==> has_key(ma, #[trigger] mb[j].0)
}

/// Whether two JSON values are equal as JSON: arrays item by item, and
/// objects as maps (each key's last member), as `serde_json::Value`
/// compares them.
pub open spec fn json_eq(a: Json, b: Json) -> bool
    decreases a,
{
    match a {
        Json::Null => b is Null,
        Json::Bool(x) => b matches Json::Bool(y) && x == y,
        Json::Number(x) => b matches Json::Number(y) && number_eq(x, y),
        Json::Str(x) => b matches Json::Str(y) && x == y,
        Json::Array(xs) => match b {
            Json::Array(ys) => xs.len() == ys.len() && forall|i: int|
                0 <= i < xs.len() ==> json_eq(#[trigger] xs[i], ys[i]),
            _ => false,
        },
        Json::Object(ma) => match b {
            Json::Object(mb) => members_eq(ma, Seq::empty(), mb) && keys_covered(ma, mb),
            _ => false,
        },
    }
}

/// Each key of `ma` that `later` does not hold again has, at its last
/// member, a value equal to the one that a lookup of the key in `mb` finds.
pub open spec fn members_eq(
    ma: Seq<(Seq<char>, Json)>,
    later: Seq<(Seq<char>, Json)>,
    mb: Seq<(Seq<char>, Json)>,
) -> bool
    decreases ma,
{
    if ma.len() == 0 {
        true
    } else {
        let m = ma.last();
        &&& has_key(later, m.0) || match json_lookup(mb, m.0) {
            Some(w) => json_eq(m.1, w),
            None => false,
        }
        &&& members_eq(ma.drop_last(), seq![m] + later, mb)
    }
}

fn number_equal(a: JsonNumber, b: JsonNumber) -> (r: bool)
    ensures
        r == number_eq(a, b),
{
    match a {
        JsonNumber::PosInt(x) => match b {
            JsonNumber::PosInt(y) => x == y,
            JsonNumber::NegInt(y) => y >= 0 && x == y as u64,
            JsonNumber::FloatBits(_) => false,
        },
        JsonNumber::NegInt(x) => match b {
            JsonNumber::PosInt(y) => x >= 0 && x as u64 == y,
            JsonNumber::NegInt(y) => x == y,
            JsonNumber::FloatBits(_) => false,
        },
        JsonNumber::FloatBits(x) => match b {
            JsonNumber::FloatBits(y) => {
                let x_nan = (x & 0x7ff0_0000_0000_0000u64) == 0x7ff0_0000_0000_0000u64 && (x
                    & 0x000f_ffff_ffff_ffffu64) != 0;
                let y_nan = (y & 0x7ff0_0000_0000_0000u64) == 0x7ff0_0000_0000_0000u64 && (y
                    & 0x000f_ffff_ffff_ffffu64) != 0;
                !x_nan && !y_nan && (x == y || ((x & 0x7fff_ffff_ffff_ffffu64) == 0 && (y
                    & 0x7fff_ffff_ffff_ffffu64) == 0))
            },
            _ => false,
        },
    }
}

/// Whether a member of `m` from `from` on has the key `key`.
fn key_from(m: &Vec<(String, JsonValue)>, from: usize, key: &String) -> (r: bool)
    requires
        from <= m@.len(),
    ensures
        r == has_key(json_members(m@).skip(from as int), key@),
{
    proof {
        lemma_json_members(m@);
    }
    let ghost jm = json_members(m@);
    let n = m.len();
    let mut k = from;
    while k < n
        invariant
            from <= k <= n,
            n == m@.len(),
            jm == json_members(m@),
            jm.len() == n,
            forall|j: int| #![trigger jm[j]] 0 <= j < n ==> jm[j] == (m@[j].0@, json_of(m@[j].1)),
            forall|j: int| from <= j < k ==> #[trigger] jm[j].0 != key@,
        decreases n - k,
    {
        if m[k].0 == *key {
            assert(jm.skip(from as int)[k - from].0 == key@);
            return true;
        }
        k = k + 1;
    }
    assert forall|j: int| 0 <= j < jm.skip(from as int).len() implies #[trigger] jm.skip(
        from as int,
    )[j].0 != key@ by {
        assert(jm.skip(from as int)[j] == jm[from + j]);
    }
    false
}

/// Objects differ where the second has a key that the first lacks.
proof fn lemma_key_missing(ja: Seq<(Seq<char>, Json)>, jb: Seq<(Seq<char>, Json)>, j: int)
    requires
        0 <= j < jb.len(),
        !has_key(ja, jb[j].0),
    ensures
        !json_eq(Json::Object(ja), Json::Object(jb)),
{
    assert(!json_eq(Json::Object(ja), Json::Object(jb)));
}

/// A value and its view are of the same kind.
proof fn lemma_view_kind(v: JsonValue)
    ensures
        (v@ is Null) == (v is Null),
        (v@ is Bool) == (v is Bool),
        (v@ is Number) == (v is Number),
        (v@ is Str) == (v is String),
        (v@ is Array) == (v is Array),
        (v@ is Object) == (v is Object),
        v matches JsonValue::Bool(x) ==> v@ == Json::Bool(x),
        v matches JsonValue::Number(x) ==> v@ == Json::Number(x),
        v matches JsonValue::String(x) ==> v@ == Json::Str(x@),
{
}

/// Whether two JSON values are equal as JSON.
#[verifier::loop_isolation(false)]
pub fn json_equal(a: &JsonValue, b: &JsonValue) -> (r: bool)
    ensures
        r == json_eq(a@, b@),
    decreases a,
{
    proof {
        lemma_view_kind(*a);
        lemma_view_kind(*b);
    }
    match a {
        JsonValue::Null => match b {
            JsonValue::Null => true,
            _ => false,
        },
        JsonValue::Bool(x) => match b {
            JsonValue::Bool(y) => *x == *y,
            _ => false,
        },
        JsonValue::Number(x) => match b {
            JsonValue::Number(y) => number_equal(*x, *y),
            _ => false,
        },
        JsonValue::String(x) => match b {
            JsonValue::String(y) => *x == *y,
            _ => false,
        },
        JsonValue::Array(xs) => match b {
            JsonValue::Array(ys) => {
                proof {
                    lemma_json_seq(xs@);
                    lemma_json_seq(ys@);
                }
                if xs.len() != ys.len() {
                    return false;
                }
                let n = xs.len();
                for i in 0..n
                    invariant
                        forall|k: int|
                            0 <= k < i ==> json_eq(#[trigger] json_seq(xs@)[k], json_seq(ys@)[k]),
                {
                    if !json_equal(&xs[i], &ys[i]) {
                        assert(!json_eq(json_seq(xs@)[i as int], json_seq(ys@)[i as int]));
                        assert(a@ == Json::Array(json_seq(xs@)));
                        assert(b@ == Json::Array(json_seq(ys@)));
                        assert(!json_eq(Json::Array(json_seq(xs@)), Json::Array(json_seq(ys@))));
                        assert(!json_eq(a@, b@));
                        return false;
                    }
                }
                assert(a@ == Json::Array(json_seq(xs@)));
                assert(b@ == Json::Array(json_seq(ys@)));
                assert(json_eq(a@, b@));
                true
            },
            _ => false,
        },
        JsonValue::Object(ma) => match b {
            JsonValue::Object(mb) => {
                proof {
                    lemma_json_members(ma@);
                    lemma_json_members(mb@);
                }
                let ghost ja = json_members(ma@);
                let ghost jb = json_members(mb@);
                assert(a@ == Json::Object(ja));
                assert(b@ == Json::Object(jb));
                assert(ja.take(ja.len() as int) =~= ja);
                assert(ja.skip(ja.len() as int) =~= Seq::<(Seq<char>, Json)>::empty());
                let mut i = ma.len();
                while i > 0
                    invariant
                        i <= ja.len(),
                        members_eq(ja, Seq::empty(), jb) == members_eq(
                            ja.take(i as int),
                            ja.skip(i as int),
                            jb,
                        ),
                    decreases i,
                {
                    let ghost t = ja.take(i as int);
                    assert(t.last() == ja[i - 1]);
                    assert(t.drop_last() =~= ja.take(i - 1));
                    assert(seq![t.last()] + ja.skip(i as int) =~= ja.skip(i - 1));
                    if !key_from(ma, i, &ma[i - 1].0) {
                        match b.get(ma[i - 1].0.as_str()) {
                            None => {
                                return false;
                            },
                            Some(w) => {
                                assert(decreases_to!(ma@[i - 1] => ma@[i - 1].1));
                                if !json_equal(&ma[i - 1].1, w) {
                                    return false;
                                }
                            },
                        }
                    }
                    i = i - 1;
                }
                assert(ja.take(0) =~= Seq::<(Seq<char>, Json)>::empty());
                let nb = mb.len();
                for j in 0..nb
                    invariant
                        forall|k: int| 0 <= k < j ==> has_key(ja, #[trigger] jb[k].0),
                {
                    if !key_from(ma, 0, &mb[j].0) {
                        assert(ja.skip(0) =~= ja);
                        proof {
                            lemma_key_missing(ja, jb, j as int);
                        }
                        return false;
                    }
                    assert(ja.skip(0) =~= ja);
                }
                assert(keys_covered(ja, jb));
                assert(members_eq(ja.take(0), ja.skip(0), jb));
                assert(members_eq(ja, Seq::empty(), jb));
                assert(json_eq(a@, b@));
                true
            },
            _ => false,
        },
    }
}

impl PartialEq for JsonValue {
    fn eq(&self, other: &Self) -> (r: bool) {
        json_equal(self, other)
    }
}

impl PartialEqSpecImpl for JsonValue {
    open spec fn obeys_eq_spec() -> bool {
        true
    }

    open spec fn eq_spec(&self, other: &Self) -> bool {
        json_eq(self@, other@)
    }
}

} // verus!
