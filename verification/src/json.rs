//! A JSON value, as far as the rest of the library looks into one.

use crate::text;
use vstd::prelude::*;

verus! {

/// A JSON number: an integer, or a fraction by the bits of its double.
#[derive(Clone, Copy, Debug, PartialEq, Eq, Structural)]
pub enum Number {
    Unsigned(u64),
    Negative(i64),
    Fraction(u64),
}

/// A JSON value. The members of an object stand in a list of pairs.
#[derive(Debug)]
pub enum Json {
    Null,
    Bool(bool),
    Num(Number),
    Text(String),
    List(Vec<Json>),
    Object(Vec<(String, Json)>),
}

/// The model of a JSON value.
#[verifier::ext_equal]
pub enum JsonV {
    Null,
    Bool(bool),
    Num(Number),
    Text(Seq<char>),
    List(Seq<JsonV>),
    Object(Seq<(Seq<char>, JsonV)>),
}

impl Json {
    /// The model of a value.
    pub open spec fn model(self) -> JsonV
        decreases self,
    {
        match self {
            Json::Null => JsonV::Null,
            Json::Bool(b) => JsonV::Bool(b),
            Json::Num(n) => JsonV::Num(n),
            Json::Text(s) => JsonV::Text(s@),
            Json::List(items) => JsonV::List(
                Seq::new(
                    items@.len(),
                    |i: int|
                        if 0 <= i < items@.len() {
                            items@[i].model()
                        } else {
                            JsonV::Null
                        },
                ),
            ),
            Json::Object(members) => JsonV::Object(
                Seq::new(
                    members@.len(),
                    |i: int|
                        if 0 <= i < members@.len() {
                            (members@[i].0@, members@[i].1.model())
                        } else {
                            (Seq::empty(), JsonV::Null)
                        },
                ),
            ),
        }
    }
}

impl View for Json {
    type V = JsonV;

    open spec fn view(&self) -> JsonV {
        self.model()
    }
}

/// The models of a list of values.
pub open spec fn json_views(l: Seq<Json>) -> Seq<JsonV> {
    l.map_values(|v: Json| v@)
}

impl JsonV {
    /// The place of the first member called `key`, or the number of members.
    pub open spec fn find(members: Seq<(Seq<char>, JsonV)>, key: Seq<char>) -> nat
        decreases members.len(),
    {
        if members.len() == 0 || members[0].0 == key {
            0
        } else {
            1 + JsonV::find(members.skip(1), key)
        }
    }

    /// The member of an object called `key`.
    pub open spec fn get(self, key: Seq<char>) -> Option<JsonV> {
        match self {
            JsonV::Object(members) => if JsonV::find(members, key) < members.len() {
                Some(members[JsonV::find(members, key) as int].1)
            } else {
                None
            },
            _ => None,
        }
    }

    /// The text that a value is.
    pub open spec fn as_text(self) -> Option<Seq<char>> {
        match self {
            JsonV::Text(s) => Some(s),
            _ => None,
        }
    }

    /// The number from zero up that a value is.
    pub open spec fn as_unsigned(self) -> Option<u64> {
        match self {
            JsonV::Num(Number::Unsigned(n)) => Some(n),
            _ => None,
        }
    }

    /// The text of the member called `key`.
    pub open spec fn text_at(self, key: Seq<char>) -> Option<Seq<char>> {
        match self.get(key) {
            Some(v) => v.as_text(),
            None => None,
        }
    }

    /// The number of the member called `key`.
    pub open spec fn unsigned_at(self, key: Seq<char>) -> Option<u64> {
        match self.get(key) {
            Some(v) => v.as_unsigned(),
            None => None,
        }
    }

    /// The integer that a value is, if it is one of 64 bits with a sign.
    pub open spec fn as_signed(self) -> Option<i64> {
        match self {
            JsonV::Num(Number::Unsigned(n)) => if n <= i64::MAX {
                Some(n as i64)
            } else {
                None
            },
            JsonV::Num(Number::Negative(n)) => Some(n),
            _ => None,
        }
    }

    /// An integer as a value.
    pub open spec fn integer(n: i64) -> JsonV {
        if n < 0 {
            JsonV::Num(Number::Negative(n))
        } else {
            JsonV::Num(Number::Unsigned(n as u64))
        }
    }

    /// A text that may be absent as a value.
    pub open spec fn text_or_null(t: Option<Seq<char>>) -> JsonV {
        match t {
            Some(s) => JsonV::Text(s),
            None => JsonV::Null,
        }
    }

    /// The integer of the member called `key`.
    pub open spec fn signed_at(self, key: Seq<char>) -> Option<i64> {
        match self.get(key) {
            Some(v) => v.as_signed(),
            None => None,
        }
    }

    /// The truth value of the member called `key`.
    pub open spec fn bool_at(self, key: Seq<char>) -> Option<bool> {
        match self.get(key) {
            Some(JsonV::Bool(b)) => Some(b),
            _ => None,
        }
    }
}

impl Json {
    /// A copy of the value.
    pub fn copy(&self) -> (r: Json)
        ensures
            r@ == self@,
        decreases self,
    {
        match self {
            Json::Null => Json::Null,
            Json::Bool(b) => Json::Bool(*b),
            Json::Num(n) => Json::Num(*n),
            Json::Text(s) => Json::Text(s.clone()),
            Json::List(items) => {
                let mut out: Vec<Json> = Vec::new();
                for i in 0..items.len()
                    invariant
                        out@.len() == i,
                        *self == Json::List(*items),
                        forall|j: int| 0 <= j < i ==> (#[trigger] out@[j])@ == items@[j]@,
                {
                    proof {
                        let whole = self->List_0;
                        assert(decreases_to!(*self => whole));
                        assert(decreases_to!(whole => whole@));
                        assert(decreases_to!(whole@ => whole@[i as int]));
                    }
                    let item = items[i].copy();
                    out.push(item);
                }
                let r = Json::List(out);
                assert(r@->List_0 =~= self@->List_0);
                r
            },
            Json::Object(members) => {
                let mut out: Vec<(String, Json)> = Vec::new();
                for i in 0..members.len()
                    invariant
                        out@.len() == i,
                        *self == Json::Object(*members),
                        forall|j: int|
                            0 <= j < i ==> (#[trigger] out@[j]).0@ == members@[j].0@ && out@[j].1@
                                == members@[j].1@,
                {
                    proof {
                        let whole = self->Object_0;
                        assert(decreases_to!(*self => whole));
                        assert(decreases_to!(whole => whole@));
                        assert(decreases_to!(whole@ => whole@[i as int]));
                        assert(decreases_to!(whole@[i as int] => whole@[i as int].1));
                    }
                    let value = members[i].1.copy();
                    out.push((members[i].0.clone(), value));
                }
                let r = Json::Object(out);
                assert(r@->Object_0 =~= self@->Object_0);
                r
            },
        }
    }

    /// The member of an object called `key`.
    pub fn get(&self, key: &str) -> (r: Option<&Json>)
        ensures
            match r {
                Some(v) => self@.get(key@) == Some(v@),
                None => self@.get(key@) is None,
            },
    {
        match self {
            Json::Object(members) => {
                let ghost all = self@->Object_0;
                let mut i: usize = 0;
                assert(all.skip(0) =~= all);
                while i < members.len()
                    invariant
                        i <= members@.len(),
                        *self == Json::Object(*members),
                        all == self@->Object_0,
                        JsonV::find(all, key@) == i + JsonV::find(all.skip(i as int), key@),
                    decreases members@.len() - i,
                {
                    assert(all[i as int] == all.skip(i as int)[0]);
                    if text::same(members[i].0.as_str(), key) {
                        return Some(&members[i].1);
                    }
                    assert(all.skip(i as int).skip(1) =~= all.skip(i + 1));
                    i = i + 1;
                }
                None
            },
            _ => None,
        }
    }

    /// The text that the value is.
    pub fn as_text(&self) -> (r: Option<&String>)
        ensures
            match r {
                Some(s) => self@.as_text() == Some(s@),
                None => self@.as_text() is None,
            },
    {
        match self {
            Json::Text(s) => Some(s),
            _ => None,
        }
    }

    /// The number from zero up that the value is.
    pub fn as_unsigned(&self) -> (r: Option<u64>)
        ensures
            r == self@.as_unsigned(),
    {
        match self {
            Json::Num(Number::Unsigned(n)) => Some(*n),
            _ => None,
        }
    }

    /// The text of the member called `key`.
    pub fn text_at(&self, key: &str) -> (r: Option<String>)
        ensures
            match r {
                Some(s) => self@.text_at(key@) == Some(s@),
                None => self@.text_at(key@) is None,
            },
    {
        match self.get(key) {
            Some(v) => match v.as_text() {
                Some(s) => Some(s.clone()),
                None => None,
            },
            None => None,
        }
    }

    /// The number of the member called `key`.
    pub fn unsigned_at(&self, key: &str) -> (r: Option<u64>)
        ensures
            r == self@.unsigned_at(key@),
    {
        match self.get(key) {
            Some(v) => v.as_unsigned(),
            None => None,
        }
    }

    /// An integer as a value.
    pub fn integer(n: i64) -> (r: Json)
        ensures
            r@ == JsonV::integer(n),
    {
        if n < 0 {
            Json::Num(Number::Negative(n))
        } else {
            Json::Num(Number::Unsigned(n as u64))
        }
    }

    /// A text that may be absent as a value.
    pub fn text_or_null(t: Option<String>) -> (r: Json)
        ensures
            r@ == JsonV::text_or_null(
                match t {
                    Some(s) => Some(s@),
                    None => None,
                },
            ),
    {
        match t {
            Some(s) => Json::Text(s),
            None => Json::Null,
        }
    }

    /// The integer of the member called `key`.
    pub fn signed_at(&self, key: &str) -> (r: Option<i64>)
        ensures
            r == self@.signed_at(key@),
    {
        match self.get(key) {
            Some(Json::Num(Number::Unsigned(n))) => if *n <= i64::MAX as u64 {
                Some(*n as i64)
            } else {
                None
            },
            Some(Json::Num(Number::Negative(n))) => Some(*n),
            _ => None,
        }
    }

    /// The truth value of the member called `key`.
    pub fn bool_at(&self, key: &str) -> (r: Option<bool>)
        ensures
            r == self@.bool_at(key@),
    {
        match self.get(key) {
            Some(Json::Bool(b)) => Some(*b),
            _ => None,
        }
    }
}

} // verus!
