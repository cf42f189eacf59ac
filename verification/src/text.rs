//! Text that the suite's report is made of: decimal numbers, padded columns,
//! joined lists, and the order in which names are sorted.
use vstd::prelude::*;
use vstd::string::{StrSliceExecFns, StringExecFns};

verus! {

/// The character of a decimal digit.
pub open spec fn digit_char(d: nat) -> char {
    (48 + d) as char
}

/// The decimal numeral of `n`, without leading zeros.
pub open spec fn numeral(n: nat) -> Seq<char>
    decreases n,
{
    if n < 10 {
        seq![digit_char(n)]
    } else {
        numeral(n / 10).push(digit_char(n % 10))
    }
}

/// `n` spaces.
pub open spec fn spaces(n: nat) -> Seq<char> {
    Seq::new(n, |i: int| ' ')
}

/// `s`, filled with spaces on the right up to `width` characters.
pub open spec fn padded(s: Seq<char>, width: nat) -> Seq<char> {
    s + spaces(if s.len() < width { (width - s.len()) as nat } else { 0 })
}

/// The items of `parts`, with `separator` between each two of them.
pub open spec fn joined(parts: Seq<Seq<char>>, separator: Seq<char>) -> Seq<char>
    decreases parts.len(),
{
    if parts.len() == 0 {
        Seq::empty()
    } else if parts.len() == 1 {
        parts[0]
    } else {
        joined(parts.drop_last(), separator) + separator + parts.last()
    }
}

/// The texts that a list of names holds.
pub open spec fn texts(names: Seq<&'static str>) -> Seq<Seq<char>> {
    names.map_values(|s: &'static str| s@)
}

/// Whether `a` comes before `b` in the order of strings: by the first character
/// in which they differ, a proper prefix before what it is a prefix of.
pub open spec fn text_less(a: Seq<char>, b: Seq<char>) -> bool
    decreases a.len(),
{
    if b.len() == 0 {
        false
    } else if a.len() == 0 {
        true
    } else if a[0] != b[0] {
        (a[0] as int) < (b[0] as int)
    } else {
        text_less(a.drop_first(), b.drop_first())
    }
}

/// Whether every text of `s` comes before each one that follows it.
pub open spec fn ascending(s: Seq<Seq<char>>) -> bool {
    forall|i: int, j: int| 0 <= i < j < s.len() ==> #[trigger] text_less(s[i], s[j])
}

/// No text comes before itself.
pub proof fn text_less_irreflexive(a: Seq<char>)
    ensures
        !text_less(a, a),
    decreases a.len(),
{
    if a.len() > 0 {
        text_less_irreflexive(a.drop_first());
    }
}

/// The order of texts is transitive.
pub proof fn text_less_transitive(a: Seq<char>, b: Seq<char>, c: Seq<char>)
    requires
        text_less(a, b),
        text_less(b, c),
    ensures
        text_less(a, c),
    decreases a.len(),
{
    if a.len() > 0 && a[0] == b[0] && b[0] == c[0] {
        text_less_transitive(a.drop_first(), b.drop_first(), c.drop_first());
    }
}

/// Of two different texts one comes before the other.
pub proof fn text_less_total(a: Seq<char>, b: Seq<char>)
    ensures
        a == b || text_less(a, b) || text_less(b, a),
    decreases a.len(),
{
    if a.len() > 0 && b.len() > 0 {
        if a[0] == b[0] {
            text_less_total(a.drop_first(), b.drop_first());
            if a.drop_first() == b.drop_first() {
                assert(a =~= seq![a[0]] + a.drop_first());
                assert(b =~= seq![b[0]] + b.drop_first());
            }
        }
    } else if a.len() == 0 && b.len() == 0 {
        assert(a =~= b);
    }
}

/// Two lists of texts that both ascend and hold the same texts are the same.
pub proof fn ascending_is_unique(a: Seq<Seq<char>>, b: Seq<Seq<char>>)
    requires
        ascending(a),
        ascending(b),
        forall|t: Seq<char>| a.contains(t) <==> b.contains(t),
    ensures
        a == b,
    decreases a.len(),
{
    if a.len() == 0 {
        if b.len() > 0 {
            assert(b.contains(b[0]));
        }
        assert(a =~= b);
    } else {
        assert(a.contains(a[0]));
        let k = choose|k: int| 0 <= k < b.len() && b[k] == a[0];
        assert(b.contains(b[0]));
        let m = choose|m: int| 0 <= m < a.len() && a[m] == b[0];
        if k > 0 {
            assert(text_less(b[0], b[k]));
            if m > 0 {
                assert(text_less(a[0], a[m]));
                text_less_transitive(a[0], b[0], a[0]);
            }
            text_less_irreflexive(a[0]);
        }
        let c = a.drop_first();
        let d = b.drop_first();
        assert forall|i: int, j: int| 0 <= i < j < c.len() implies #[trigger] text_less(
            c[i],
            c[j],
        ) by {
            assert(text_less(a[i + 1], a[j + 1]));
        }
        assert forall|i: int, j: int| 0 <= i < j < d.len() implies #[trigger] text_less(
            d[i],
            d[j],
        ) by {
            assert(text_less(b[i + 1], b[j + 1]));
        }
        assert forall|t: Seq<char>| c.contains(t) <==> d.contains(t) by {
            if c.contains(t) {
                rest_holds(a, b, t);
            }
            if d.contains(t) {
                rest_holds(b, a, t);
            }
        }
        ascending_is_unique(c, d);
        assert(a =~= seq![a[0]] + c);
        assert(b =~= seq![b[0]] + d);
    }
}

proof fn rest_holds(a: Seq<Seq<char>>, b: Seq<Seq<char>>, t: Seq<char>)
    requires
        ascending(a),
        a.len() > 0,
        b.len() > 0,
        a[0] == b[0],
        a.contains(t) ==> b.contains(t),
        a.drop_first().contains(t),
    ensures
        b.drop_first().contains(t),
{
    let c = a.drop_first();
    let i = choose|i: int| 0 <= i < c.len() && c[i] == t;
    assert(a[i + 1] == t);
    assert(text_less(a[0], a[i + 1]));
    text_less_irreflexive(t);
    let k = choose|k: int| 0 <= k < b.len() && b[k] == t;
    assert(b.drop_first()[k - 1] == t);
}

/// Whether two strings hold the same characters.
pub fn same_text(a: &str, b: &str) -> (r: bool)
    ensures
        r == (a@ == b@),
{
    let n: usize = a.unicode_len();
    if n != b.unicode_len() {
        return false;
    }
    let mut i: usize = 0;
    while i < n
        invariant
            n == a@.len(),
            n == b@.len(),
            i <= n,
            forall|j: int| 0 <= j < i ==> a@[j] == b@[j],
        decreases n - i,
    {
        if a.get_char(i) != b.get_char(i) {
            return false;
        }
        i += 1;
    }
    assert(a@ =~= b@);
    true
}

/// Whether `a` comes before `b` in the order of strings.
pub fn comes_before(a: &str, b: &str) -> (r: bool)
    ensures
        r == text_less(a@, b@),
{
    let n: usize = a.unicode_len();
    let m: usize = b.unicode_len();
    let mut i: usize = 0;
    assert(a@.skip(0) =~= a@);
    assert(b@.skip(0) =~= b@);
    while i < n && i < m
        invariant
            n == a@.len(),
            m == b@.len(),
            i <= n,
            i <= m,
            text_less(a@, b@) == text_less(a@.skip(i as int), b@.skip(i as int)),
        decreases n - i,
    {
        let x: char = a.get_char(i);
        let y: char = b.get_char(i);
        assert(a@.skip(i as int)[0] == x);
        assert(b@.skip(i as int)[0] == y);
        if x != y {
            return (x as u32) < (y as u32);
        }
        assert(a@.skip(i as int).drop_first() =~= a@.skip(i + 1));
        assert(b@.skip(i as int).drop_first() =~= b@.skip(i + 1));
        i += 1;
    }
    i < m
}

fn digit_str(d: u64) -> (r: &'static str)
    requires
        d < 10,
    ensures
        r@ == seq![digit_char(d as nat)],
{
    proof {
        reveal_strlit("0");
        reveal_strlit("1");
        reveal_strlit("2");
        reveal_strlit("3");
        reveal_strlit("4");
        reveal_strlit("5");
        reveal_strlit("6");
        reveal_strlit("7");
        reveal_strlit("8");
        reveal_strlit("9");
    }
    let r: &'static str = match d {
        0 => "0",
        1 => "1",
        2 => "2",
        3 => "3",
        4 => "4",
        5 => "5",
        6 => "6",
        7 => "7",
        8 => "8",
        _ => "9",
    };
    assert(r@ =~= seq![digit_char(d as nat)]);
    r
}

/// The decimal numeral of `n`.
pub fn decimal(n: u64) -> (r: String)
    ensures
        r@ == numeral(n as nat),
    decreases n,
{
    if n < 10 {
        let mut s: String = String::new();
        s.append(digit_str(n));
        assert(s@ =~= numeral(n as nat));
        s
    } else {
        let mut s: String = decimal(n / 10);
        s.append(digit_str(n % 10));
        assert(s@ =~= numeral(n as nat));
        s
    }
}

/// `s`, filled with spaces on the right up to `width` characters.
pub fn pad_right(s: &str, width: usize) -> (r: String)
    ensures
        r@ == padded(s@, width as nat),
{
    let n: usize = s.unicode_len();
    let mut r: String = String::new();
    r.append(s);
    let mut i: usize = n;
    assert(r@ =~= s@ + spaces(0));
    while i < width
        invariant
            n == s@.len(),
            n <= i,
            n < width ==> i <= width,
            r@ == s@ + spaces((i - n) as nat),
            i > n ==> i <= width,
        decreases width - i,
    {
        proof {
            reveal_strlit(" ");
        }
        r.append(" ");
        assert(spaces((i + 1 - n) as nat) =~= spaces((i - n) as nat) + seq![' ']);
        assert(" "@ =~= seq![' ']);
        assert(r@ =~= s@ + spaces((i + 1 - n) as nat));
        i += 1;
    }
    r
}

/// The names, with `separator` between each two of them.
pub fn join_names(names: &Vec<&'static str>, separator: &str) -> (r: String)
    ensures
        r@ == joined(texts(names@), separator@),
{
    let mut r: String = String::new();
    let mut i: usize = 0;
    let ghost all = texts(names@);
    assert(all.take(0) =~= Seq::empty());
    assert(r@ =~= joined(all.take(0), separator@));
    while i < names.len()
        invariant
            i <= names@.len(),
            all == texts(names@),
            r@ == joined(all.take(i as int), separator@),
        decreases names@.len() - i,
    {
        if i > 0 {
            r.append(separator);
        }
        r.append(names[i]);
        assert(all.take(i + 1).drop_last() =~= all.take(i as int));
        assert(all.take(i + 1).last() == names@[i as int]@);
        assert(r@ =~= joined(all.take(i + 1), separator@));
        i += 1;
    }
    assert(all.take(names@.len() as int) =~= all);
    r
}

/// Puts a name into an ascending list in its place, unless it is there already.
pub fn insert_name(names: &mut Vec<&'static str>, name: &'static str)
    requires
        ascending(texts(old(names)@)),
    ensures
        ascending(texts(final(names)@)),
        forall|t: Seq<char>|
            #![trigger texts(final(names)@).contains(t)]
            texts(final(names)@).contains(t) <==> texts(old(names)@).contains(t) || t == name@,
{
    let ghost before = texts(names@);
    let mut i: usize = 0;
    while i < names.len() && comes_before(names[i], name)
        invariant
            before == texts(names@),
            i <= names@.len(),
            forall|j: int| 0 <= j < i ==> #[trigger] text_less(before[j], name@),
        decreases names@.len() - i,
    {
        i += 1;
    }
    if i < names.len() && same_text(names[i], name) {
        assert(before[i as int] == name@);
        return;
    }
    names.insert(i, name);
    proof {
        let after = texts(names@);
        assert(after =~= before.insert(i as int, name@));
        if i < before.len() {
            text_less_total(before[i as int], name@);
        }
        assert forall|j: int| i <= j < before.len() implies #[trigger] text_less(
            name@,
            before[j],
        ) by {
            if j > i {
                assert(text_less(before[i as int], before[j]));
                text_less_transitive(name@, before[i as int], before[j]);
            }
        }
        assert forall|a: int, b: int| 0 <= a < b < after.len() implies #[trigger] text_less(
            after[a],
            after[b],
        ) by {
            let x: int = if a < i { a } else { a - 1 };
            let y: int = if b < i { b } else { b - 1 };
            if a == i {
                assert(text_less(name@, before[y]));
            } else if b == i {
                assert(text_less(before[x], name@));
            } else {
                assert(text_less(before[x], before[y]));
            }
        }
        assert forall|t: Seq<char>|
            #![trigger after.contains(t)]
            after.contains(t) <==> before.contains(t) || t == name@ by {
            if before.contains(t) {
                let k = choose|k: int| 0 <= k < before.len() && before[k] == t;
                assert(after[if k < i { k } else { k + 1 }] == t);
            }
            if t == name@ {
                assert(after[i as int] == t);
            }
            if after.contains(t) {
                let k = choose|k: int| 0 <= k < after.len() && after[k] == t;
                if k != i {
                    assert(before[if k < i { k } else { k - 1 }] == t);
                }
            }
        }
    }
}

/// The number that a text of decimal digits stands for.
pub open spec fn value_of(digits: Seq<char>) -> int
    decreases digits.len(),
{
    if digits.len() == 0 {
        0
    } else {
        value_of(digits.drop_last()) * 10 + (digits.last() as int - 48)
    }
}

/// The numeral of a number is made of decimal digits, stands for that number, and
/// has no zero in front unless it is that digit alone.
pub proof fn numeral_stands_for_its_number(n: nat)
    ensures
        numeral(n).len() > 0,
        forall|i: int| 0 <= i < numeral(n).len() ==> '0' <= #[trigger] numeral(n)[i] <= '9',
        value_of(numeral(n)) == n,
        numeral(n).len() > 1 ==> numeral(n)[0] != '0',
        n > 0 ==> numeral(n)[0] != '0',
    decreases n,
{
    if n < 10 {
        reveal_with_fuel(value_of, 2);
        assert(numeral(n).drop_last() =~= Seq::empty());
    } else {
        numeral_stands_for_its_number(n / 10);
        assert(numeral(n).drop_last() =~= numeral(n / 10));
        assert(numeral(n).last() == digit_char(n % 10));
        assert(numeral(n)[0] == numeral(n / 10)[0]);
        assert forall|i: int| 0 <= i < numeral(n).len() implies '0' <= #[trigger] numeral(n)[i]
            <= '9' by {
            if i < numeral(n / 10).len() {
                assert(numeral(n)[i] == numeral(n / 10)[i]);
            }
        }
    }
}

/// A padded text begins with the text, is as long as the longer of the text and
/// the width, and goes on with nothing but spaces.
pub proof fn padding_adds_spaces_only(s: Seq<char>, width: nat)
    ensures
        padded(s, width).len() == (if s.len() < width {
            width
        } else {
            s.len()
        }),
        forall|i: int|
            0 <= i < padded(s, width).len() ==> #[trigger] padded(s, width)[i] == (if i
                < s.len() {
                s[i]
            } else {
                ' '
            }),
{
}

/// Nothing joined is nothing, one text joined is itself, and what is joined of
/// two lists is joined of each, with one separator between.
pub proof fn joining_puts_separators_between(
    a: Seq<Seq<char>>,
    b: Seq<Seq<char>>,
    separator: Seq<char>,
)
    ensures
        joined(Seq::empty(), separator) == Seq::<char>::empty(),
        a.len() == 1 ==> joined(a, separator) == a[0],
        a.len() > 0 && b.len() > 0 ==> joined(a + b, separator) == joined(a, separator)
            + separator + joined(b, separator),
    decreases b.len(),
{
    if a.len() > 0 && b.len() > 0 {
        assert((a + b).drop_last() =~= a + b.drop_last());
        assert((a + b).last() == b.last());
        if b.len() == 1 {
            assert(a + b.drop_last() =~= a);
        } else {
            joining_puts_separators_between(a, b.drop_last(), separator);
            assert(joined(a + b, separator) =~= joined(a, separator) + separator + joined(
                b,
                separator,
            ));
        }
    }
}

/// Whether two texts agree up to `i`, where the first one ends or has the smaller
/// character.
pub open spec fn smaller_from(a: Seq<char>, b: Seq<char>, i: int) -> bool {
    &&& 0 <= i < b.len()
    &&& i <= a.len()
    &&& forall|j: int| 0 <= j < i ==> #[trigger] a[j] == b[j]
    &&& i == a.len() || (a[i] as int) < (b[i] as int)
}

/// One text comes before another if and only if, where they first differ, it ends
/// or has the smaller character.
pub proof fn first_difference_decides(a: Seq<char>, b: Seq<char>)
    ensures
        text_less(a, b) <==> exists|i: int| smaller_from(a, b, i),
    decreases a.len(),
{
    if b.len() > 0 && a.len() == 0 {
        assert(smaller_from(a, b, 0));
    } else if b.len() > 0 && a[0] != b[0] {
        if text_less(a, b) {
            assert(smaller_from(a, b, 0));
        }
        if exists|i: int| smaller_from(a, b, i) {
            let i = choose|i: int| smaller_from(a, b, i);
            if i > 0 {
                assert(a[0] == b[0]);
            }
        }
    } else if b.len() > 0 {
        let c = a.drop_first();
        let d = b.drop_first();
        first_difference_decides(c, d);
        if exists|i: int| smaller_from(c, d, i) {
            let i = choose|i: int| smaller_from(c, d, i);
            assert forall|j: int| 0 <= j < i + 1 implies #[trigger] a[j] == b[j] by {
                if j > 0 {
                    assert(c[j - 1] == d[j - 1]);
                }
            }
            assert(smaller_from(a, b, i + 1));
        }
        if exists|i: int| smaller_from(a, b, i) {
            let i = choose|i: int| smaller_from(a, b, i);
            assert(i > 0);
            assert forall|j: int| 0 <= j < i - 1 implies #[trigger] c[j] == d[j] by {
                assert(a[j + 1] == b[j + 1]);
            }
            assert(smaller_from(c, d, i - 1));
        }
    }
}

} // verus!
