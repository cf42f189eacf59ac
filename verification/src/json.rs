//! JSON documents, and the way in which members are read out of them.
use crate::text::{numeral, numeral_stands_for_its_number, same_text};
use vstd::prelude::*;
use vstd::string::StrSliceExecFns;

verus! {

/// A JSON document. A number is kept as its decimal text.
#[derive(Debug, PartialEq, Eq)]
pub enum Json {
    Null,
    Bool(bool),
    Number(String),
    Text(String),
    Array(Vec<Json>),
    Object(Vec<(String, Json)>),
}

/// The value of the first member called `key`.
pub open spec fn lookup(members: Seq<(String, Json)>, key: Seq<char>) -> Option<Json>
    decreases members.len(),
{
    if members.len() == 0 {
        None
    } else if members[0].0@ == key {
        Some(members[0].1)
    } else {
        lookup(members.drop_first(), key)
    }
}

/// Whether a number's text stands for a number below zero: a minus sign, and a
/// digit other than zero before any exponent.
pub open spec fn below_zero(text: Seq<char>) -> bool {
    &&& text.len() > 0
    &&& text[0] == '-'
    &&& exists|i: int| #[trigger] significant_digit_at(text, i)
}

/// Whether the digit at `i` is not zero and no exponent has begun before it.
pub open spec fn significant_digit_at(text: Seq<char>, i: int) -> bool {
    &&& 0 < i < text.len()
    &&& '1' <= text[i] <= '9'
    &&& forall|j: int| 0 <= j < i ==> #[trigger] text[j] != 'e' && text[j] != 'E'
}

impl Json {
    /// The member called `key`, where this is an object that has one.
    pub open spec fn member(self, key: Seq<char>) -> Option<Json> {
        match self {
            Json::Object(members) => lookup(members@, key),
            _ => None,
        }
    }

    /// The items, where this is an array.
    pub open spec fn items(self) -> Option<Seq<Json>> {
        match self {
            Json::Array(items) => Some(items@),
            _ => None,
        }
    }

    /// Whether this is a number below zero.
    pub open spec fn is_below_zero(self) -> bool {
        match self {
            Json::Number(text) => below_zero(text@),
            _ => false,
        }
    }

    /// The member called `key`, where this is an object that has one.
    pub fn get(&self, key: &str) -> (r: Option<&Json>)
        ensures
            match r {
                Some(j) => self.member(key@) == Some(*j),
                None => self.member(key@) is None,
            },
    {
        match self {
            Json::Object(members) => {
                let mut i: usize = 0;
                assert(members@.skip(0) =~= members@);
                while i < members.len()
                    invariant
                        *self == Json::Object(*members),
                        i <= members@.len(),
                        lookup(members@, key@) == lookup(members@.skip(i as int), key@),
                    decreases members@.len() - i,
                {
                    assert(members@.skip(i as int)[0] == members@[i as int]);
                    assert(members@.skip(i as int).drop_first() =~= members@.skip(i + 1));
                    if same_text(members[i].0.as_str(), key) {
                        return Some(&members[i].1);
                    }
                    i += 1;
                }
                None
            },
            _ => None,
        }
    }

    /// The items, where this is an array.
    pub fn as_array(&self) -> (r: Option<&Vec<Json>>)
        ensures
            match r {
                Some(v) => self.items() == Some(v@),
                None => self.items() is None,
            },
    {
        match self {
            Json::Array(items) => Some(items),
            _ => None,
        }
    }

    /// Whether this is a number below zero.
    pub fn negative(&self) -> (r: bool)
        ensures
            r == self.is_below_zero(),
    {
        match self {
            Json::Number(text) => number_below_zero(text.as_str()),
            _ => false,
        }
    }
}

fn number_below_zero(text: &str) -> (r: bool)
    ensures
        r == below_zero(text@),
{
    let n: usize = text.unicode_len();
    if n == 0 || text.get_char(0) != '-' {
        return false;
    }
    let mut i: usize = 1;
    while i < n
        invariant
            n == text@.len(),
            1 <= i <= n,
            text@[0] == '-',
            forall|j: int| 0 <= j < i ==> #[trigger] text@[j] != 'e' && text@[j] != 'E',
            forall|j: int| 0 < j < i ==> !('1' <= #[trigger] text@[j] <= '9'),
        decreases n - i,
    {
        let c: char = text.get_char(i);
        if c == 'e' || c == 'E' {
            assert forall|k: int| !significant_digit_at(text@, k) by {
                if k > i {
                    assert(text@[i as int] == c);
                }
            }
            return false;
        }
        if '1' <= c && c <= '9' {
            assert(significant_digit_at(text@, i as int));
            return true;
        }
        i += 1;
    }
    false
}

/// What is read of a name is the first member of that name: nothing if and only
/// if this is no object or has no such member.
pub proof fn first_member_is_read(json: Json, key: Seq<char>)
    ensures
        !(json is Object) ==> json.member(key) is None,
        json matches Json::Object(members) ==> {
            &&& json.member(key) is None <==> forall|i: int|
                0 <= i < members@.len() ==> (#[trigger] members@[i]).0@ != key
            &&& json.member(key) matches Some(value) ==> exists|i: int|
                0 <= i < members@.len() && (#[trigger] members@[i]).0@ == key && members@[i].1
                    == value && forall|j: int|
                    0 <= j < i ==> (#[trigger] members@[j]).0@ != key
        },
{
    if let Json::Object(members) = json {
        first_is_looked_up(members@, key);
    }
}

proof fn first_is_looked_up(members: Seq<(String, Json)>, key: Seq<char>)
    ensures
        lookup(members, key) is None <==> forall|i: int|
            0 <= i < members.len() ==> (#[trigger] members[i]).0@ != key,
        lookup(members, key) matches Some(value) ==> exists|i: int|
            0 <= i < members.len() && (#[trigger] members[i]).0@ == key && members[i].1 == value
                && forall|j: int| 0 <= j < i ==> (#[trigger] members[j]).0@ != key,
    decreases members.len(),
{
    if members.len() > 0 && members[0].0@ != key {
        let rest = members.drop_first();
        first_is_looked_up(rest, key);
        assert forall|i: int| 0 <= i < members.len() implies (#[trigger] members[i]).0@ != key
            || lookup(members, key) is Some by {
            if i > 0 {
                assert(rest[i - 1] == members[i]);
            }
        }
        if let Some(value) = lookup(members, key) {
            let i = choose|i: int|
                0 <= i < rest.len() && (#[trigger] rest[i]).0@ == key && rest[i].1 == value
                    && forall|j: int| 0 <= j < i ==> (#[trigger] rest[j]).0@ != key;
            assert(members[i + 1].0@ == key);
            assert forall|j: int| 0 <= j < i + 1 implies (#[trigger] members[j]).0@ != key by {
                if j > 0 {
                    assert(rest[j - 1] == members[j]);
                }
            }
        }
    } else if members.len() > 0 {
        assert(members[0].0@ == key);
    }
}

/// An array, and nothing else, has items: its own, in order.
pub proof fn only_arrays_have_items(json: Json)
    ensures
        json.items() is Some <==> json is Array,
        json matches Json::Array(items) ==> json.items() == Some(items@),
{
}

/// A document is a number below zero if and only if it is a number whose text
/// begins with a minus sign and has a digit from 1 to 9 before any exponent.
pub proof fn below_zero_exactly_when(json: Json)
    ensures
        !(json is Number) ==> !json.is_below_zero(),
        json matches Json::Number(text) ==> (json.is_below_zero() <==> {
            &&& text@.len() > 0
            &&& text@[0] == '-'
            &&& exists|i: int|
                0 < i < text@.len() && '1' <= #[trigger] text@[i] <= '9' && forall|j: int|
                    0 <= j < i ==> #[trigger] text@[j] != 'e' && text@[j] != 'E'
        }),
{
    if let Json::Number(text) = json {
        if exists|i: int| significant_digit_at(text@, i) {
            let i = choose|i: int| significant_digit_at(text@, i);
            assert('1' <= text@[i] <= '9');
        }
        if exists|i: int|
            0 < i < text@.len() && '1' <= #[trigger] text@[i] <= '9' && forall|j: int|
                0 <= j < i ==> #[trigger] text@[j] != 'e' && text@[j] != 'E' {
            let i = choose|i: int|
                0 < i < text@.len() && '1' <= #[trigger] text@[i] <= '9' && forall|j: int|
                    0 <= j < i ==> #[trigger] text@[j] != 'e' && text@[j] != 'E';
            assert(significant_digit_at(text@, i));
        }
    }
}

/// Of the integers, those and only those are below zero that are written with a
/// minus sign and are not zero.
pub proof fn negative_integers_are_below_zero(n: nat)
    ensures
        !below_zero(numeral(n)),
        below_zero(seq!['-'] + numeral(n)) <==> n > 0,
{
    numeral_stands_for_its_number(n);
    let text = seq!['-'] + numeral(n);
    assert(forall|i: int| 0 < i < text.len() ==> #[trigger] text[i] == numeral(n)[i - 1]);
    assert('0' <= numeral(n)[0] <= '9');
    if n > 0 {
        assert(text[1] == numeral(n)[0]);
        assert(significant_digit_at(text, 1));
    } else {
        assert(numeral(0) =~= seq!['0']);
        assert forall|i: int| !significant_digit_at(text, i) by {
            if 0 < i < text.len() {
                assert(text[i] == '0');
            }
        }
    }
}

} // verus!
