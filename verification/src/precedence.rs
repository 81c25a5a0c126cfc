//! Which of two versions comes first.
//!
//! Numbers are ordered as numbers. Between two pre-release strings the
//! dot-separated identifiers decide from the left: two identifiers made of
//! digits alone are ordered by the numbers they write, one made of digits
//! comes before one that is not, two others are ordered character by
//! character, and where one string runs out first it comes first. A version
//! without a pre-release comes after every pre-release of the same numbers.

use crate::text::{find, lemma_position, position};
use vstd::prelude::*;
use vstd::slice::slice_subrange;

verus! {

/// How one value stands to another.
#[derive(Clone, Copy, Debug, PartialEq, Eq, Structural)]
pub enum Precedence {
    /// It comes before the other.
    Lower,
    /// Neither comes before the other.
    Same,
    /// It comes after the other.
    Higher,
}

impl Precedence {
    /// How the other value stands to this one.
    pub open spec fn flip(self) -> Precedence {
        match self {
            Precedence::Lower => Precedence::Higher,
            Precedence::Same => Precedence::Same,
            Precedence::Higher => Precedence::Lower,
        }
    }

    /// This outcome where it decides, else `next`.
    pub open spec fn or(self, next: Precedence) -> Precedence {
        if self == Precedence::Same {
            next
        } else {
            self
        }
    }
}

/// Whether `c` is one of `0` to `9`.
pub open spec fn is_digit(c: char) -> bool {
    '0' <= c && c <= '9'
}

/// Whether every character of `s` is a digit.
pub open spec fn all_digits(s: Seq<char>) -> bool {
    forall|i: int| 0 <= i < s.len() ==> is_digit(#[trigger] s[i])
}

/// Whether `id` is made of digits alone, and of at least one.
pub open spec fn is_numeric(id: Seq<char>) -> bool {
    id.len() > 0 && all_digits(id)
}

/// The number that the digit `c` stands for.
pub open spec fn digit_value(c: char) -> nat {
    (c as int - '0' as int) as nat
}

/// The number that the digits of `s` write behind the digits that wrote `acc`.
pub open spec fn numeral(acc: nat, s: Seq<char>) -> nat
    decreases s.len(),
{
    if s.len() == 0 {
        acc
    } else {
        numeral(acc * 10 + digit_value(s[0]), s.drop_first())
    }
}

/// The number that the digits of `s` write in base ten.
pub open spec fn numeric_value(s: Seq<char>) -> nat {
    numeral(0, s)
}

/// The order of two numbers.
pub open spec fn number_order(a: nat, b: nat) -> Precedence {
    if a < b {
        Precedence::Lower
    } else if a > b {
        Precedence::Higher
    } else {
        Precedence::Same
    }
}

/// The order of two texts by their first unequal characters; a text comes
/// before each of its extensions.
pub open spec fn lexical_order(a: Seq<char>, b: Seq<char>) -> Precedence
    decreases a.len(),
{
    if a.len() == 0 && b.len() == 0 {
        Precedence::Same
    } else if a.len() == 0 {
        Precedence::Lower
    } else if b.len() == 0 {
        Precedence::Higher
    } else if a[0] < b[0] {
        Precedence::Lower
    } else if a[0] > b[0] {
        Precedence::Higher
    } else {
        lexical_order(a.drop_first(), b.drop_first())
    }
}

/// The order of two identifiers.
pub open spec fn identifier_order(a: Seq<char>, b: Seq<char>) -> Precedence {
    if is_numeric(a) && is_numeric(b) {
        number_order(numeric_value(a), numeric_value(b))
    } else if is_numeric(a) {
        Precedence::Lower
    } else if is_numeric(b) {
        Precedence::Higher
    } else {
        lexical_order(a, b)
    }
}

/// The order of two series of dot-separated identifiers.
pub open spec fn series_order(a: Seq<char>, b: Seq<char>) -> Precedence
    decreases a.len(),
{
    let end_a = position(a, '.');
    let end_b = position(b, '.');
    let first = identifier_order(a.take(end_a), b.take(end_b));
    if first != Precedence::Same {
        first
    } else if 0 <= end_a < a.len() && 0 <= end_b < b.len() {
        series_order(a.skip(end_a + 1), b.skip(end_b + 1))
    } else if end_b < b.len() {
        Precedence::Lower
    } else if end_a < a.len() {
        Precedence::Higher
    } else {
        Precedence::Same
    }
}

/// The order of two pre-release strings, of which the empty one stands for a
/// release.
pub open spec fn prerelease_order(a: Seq<char>, b: Seq<char>) -> Precedence {
    if a.len() == 0 && b.len() == 0 {
        Precedence::Same
    } else if a.len() == 0 {
        Precedence::Higher
    } else if b.len() == 0 {
        Precedence::Lower
    } else {
        series_order(a, b)
    }
}

/// Whether `c` may stand in an identifier: a digit, a letter of `A` to `Z` or
/// `a` to `z`, or a hyphen.
pub open spec fn is_identifier_char(c: char) -> bool {
    is_digit(c) || ('A' <= c && c <= 'Z') || ('a' <= c && c <= 'z') || c == '-'
}

/// Whether `id` is an identifier: not empty and made of identifier characters.
/// A `strict` one that is numeric and longer than one digit does not start
/// with a zero.
pub open spec fn valid_identifier(id: Seq<char>, strict: bool) -> bool {
    &&& id.len() > 0
    &&& forall|i: int| 0 <= i < id.len() ==> is_identifier_char(#[trigger] id[i])
    &&& strict && all_digits(id) && id.len() > 1 ==> id[0] != '0'
}

/// Whether `s` is a series of identifiers with one dot between each two.
pub open spec fn valid_series(s: Seq<char>, strict: bool) -> bool
    decreases s.len(),
{
    let end = position(s, '.');
    &&& valid_identifier(s.take(end), strict)
    &&& 0 <= end < s.len() ==> valid_series(s.skip(end + 1), strict)
}

/// A digit string that follows a smaller number writes a smaller number than
/// one of the same length that follows a larger; behind the same number the
/// two are ordered as their texts are.
pub proof fn lemma_numeral_order(x: nat, a: Seq<char>, y: nat, b: Seq<char>)
    requires
        a.len() == b.len(),
        all_digits(a),
        all_digits(b),
    ensures
        x < y ==> numeral(x, a) < numeral(y, b),
        x == y ==> number_order(numeral(x, a), numeral(y, b)) == lexical_order(a, b),
    decreases a.len(),
{
    if a.len() > 0 {
        let x2 = x * 10 + digit_value(a[0]);
        let y2 = y * 10 + digit_value(b[0]);
        lemma_numeral_order(x2, a.drop_first(), y2, b.drop_first());
        lemma_numeral_order(y2, b.drop_first(), x2, a.drop_first());
    }
}

/// Digits behind a number do not write a smaller one.
pub proof fn lemma_numeral_grows(acc: nat, s: Seq<char>)
    ensures
        numeral(acc, s) >= acc,
    decreases s.len(),
{
    if s.len() > 0 {
        lemma_numeral_grows(acc * 10 + digit_value(s[0]), s.drop_first());
    }
}

/// Writing `front` and then `back` is writing `back` behind what `front` wrote.
pub proof fn lemma_numeral_concat(acc: nat, front: Seq<char>, back: Seq<char>)
    ensures
        numeral(acc, front + back) == numeral(numeral(acc, front), back),
    decreases front.len(),
{
    if front.len() > 0 {
        assert((front + back).drop_first() == front.drop_first() + back);
        lemma_numeral_concat(acc * 10 + digit_value(front[0]), front.drop_first(), back);
    }
}

/// Of two digit strings the longer writes the larger number, unless it starts
/// with a zero.
pub proof fn lemma_numeral_longer(a: Seq<char>, b: Seq<char>)
    requires
        all_digits(a),
        all_digits(b),
        a.len() < b.len(),
        b[0] != '0',
    ensures
        numeric_value(a) < numeric_value(b),
{
    let extra = b.len() - a.len();
    let front = b.take(extra);
    let back = b.skip(extra);
    assert(front + back == b);
    lemma_numeral_concat(0, front, back);
    lemma_numeral_grows(digit_value(front[0]), front.drop_first());
    assert(all_digits(back));
    lemma_numeral_order(0, a, numeral(0, front), back);
}

/// Two numeric identifiers without leading zeros are ordered by their
/// lengths and, where these are equal, as their texts are.
pub proof fn lemma_numeric_order(a: Seq<char>, b: Seq<char>)
    requires
        is_numeric(a),
        is_numeric(b),
        valid_identifier(a, true),
        valid_identifier(b, true),
    ensures
        identifier_order(a, b) == if a.len() < b.len() {
            Precedence::Lower
        } else if a.len() > b.len() {
            Precedence::Higher
        } else {
            lexical_order(a, b)
        },
{
    if a.len() < b.len() {
        lemma_numeral_longer(a, b);
    } else if a.len() > b.len() {
        lemma_numeral_longer(b, a);
    } else {
        lemma_numeral_order(0, a, 0, b);
    }
}

/// Turning two texts round turns their order round.
pub proof fn lemma_lexical_flip(a: Seq<char>, b: Seq<char>)
    ensures
        lexical_order(b, a) == lexical_order(a, b).flip(),
    decreases a.len(),
{
    if a.len() > 0 && b.len() > 0 && a[0] == b[0] {
        lemma_lexical_flip(a.drop_first(), b.drop_first());
    }
}

/// Only equal texts are in the same place.
pub proof fn lemma_lexical_same(a: Seq<char>, b: Seq<char>)
    ensures
        lexical_order(a, b) == Precedence::Same <==> a == b,
    decreases a.len(),
{
    if a.len() > 0 && b.len() > 0 && a[0] == b[0] {
        lemma_lexical_same(a.drop_first(), b.drop_first());
        if a.drop_first() == b.drop_first() {
            assert(a == seq![a[0]] + a.drop_first());
            assert(b == seq![b[0]] + b.drop_first());
        }
    } else if a.len() == 0 && b.len() == 0 {
        assert(a == b);
    }
}

/// What is not after `b`, when `b` is not after `c`, is not after `c`, and is
/// in the same place as `c` only where all three are.
pub proof fn lemma_lexical_transitive(a: Seq<char>, b: Seq<char>, c: Seq<char>)
    requires
        lexical_order(a, b) != Precedence::Higher,
        lexical_order(b, c) != Precedence::Higher,
    ensures
        lexical_order(a, c) != Precedence::Higher,
        lexical_order(a, c) == Precedence::Same ==> lexical_order(a, b) == Precedence::Same
            && lexical_order(b, c) == Precedence::Same,
    decreases a.len(),
{
    if a.len() > 0 && b.len() > 0 && c.len() > 0 && a[0] == b[0] && b[0] == c[0] {
        lemma_lexical_transitive(a.drop_first(), b.drop_first(), c.drop_first());
    }
}

/// Turning two identifiers round turns their order round.
pub proof fn lemma_identifier_flip(a: Seq<char>, b: Seq<char>)
    ensures
        identifier_order(b, a) == identifier_order(a, b).flip(),
{
    lemma_lexical_flip(a, b);
}

/// Two identifiers without leading zeros are in the same place only where
/// they are equal.
pub proof fn lemma_identifier_same(a: Seq<char>, b: Seq<char>)
    requires
        valid_identifier(a, true),
        valid_identifier(b, true),
    ensures
        identifier_order(a, b) == Precedence::Same <==> a == b,
{
    lemma_lexical_same(a, b);
    if is_numeric(a) && is_numeric(b) {
        lemma_numeric_order(a, b);
    }
}

/// The order of identifiers is transitive.
pub proof fn lemma_identifier_transitive(a: Seq<char>, b: Seq<char>, c: Seq<char>)
    requires
        identifier_order(a, b) != Precedence::Higher,
        identifier_order(b, c) != Precedence::Higher,
    ensures
        identifier_order(a, c) != Precedence::Higher,
        identifier_order(a, c) == Precedence::Same ==> identifier_order(a, b) == Precedence::Same
            && identifier_order(b, c) == Precedence::Same,
{
    if !is_numeric(a) && !is_numeric(b) && !is_numeric(c) {
        lemma_lexical_transitive(a, b, c);
    }
}

/// Turning two series round turns their order round.
pub proof fn lemma_series_flip(a: Seq<char>, b: Seq<char>)
    ensures
        series_order(b, a) == series_order(a, b).flip(),
    decreases a.len(),
{
    let end_a = position(a, '.');
    let end_b = position(b, '.');
    lemma_position(a, '.');
    lemma_position(b, '.');
    lemma_identifier_flip(a.take(end_a), b.take(end_b));
    if end_a < a.len() && end_b < b.len() {
        lemma_series_flip(a.skip(end_a + 1), b.skip(end_b + 1));
    }
}

/// Two series of identifiers without leading zeros are in the same place only
/// where they are equal.
pub proof fn lemma_series_same(a: Seq<char>, b: Seq<char>)
    requires
        valid_series(a, true),
        valid_series(b, true),
    ensures
        series_order(a, b) == Precedence::Same <==> a == b,
    decreases a.len(),
{
    let end_a = position(a, '.');
    let end_b = position(b, '.');
    lemma_position(a, '.');
    lemma_position(b, '.');
    lemma_identifier_same(a.take(end_a), b.take(end_b));
    if end_a < a.len() && end_b < b.len() {
        lemma_series_same(a.skip(end_a + 1), b.skip(end_b + 1));
    }
    if series_order(a, b) == Precedence::Same {
        assert(end_a == end_b);
        if end_a < a.len() {
            assert(a == a.take(end_a) + seq!['.'] + a.skip(end_a + 1));
            assert(b == b.take(end_b) + seq!['.'] + b.skip(end_b + 1));
        } else {
            assert(a.take(end_a) == a);
            assert(b.take(end_b) == b);
        }
    }
}

/// The order of series is transitive.
pub proof fn lemma_series_transitive(a: Seq<char>, b: Seq<char>, c: Seq<char>)
    requires
        series_order(a, b) != Precedence::Higher,
        series_order(b, c) != Precedence::Higher,
    ensures
        series_order(a, c) != Precedence::Higher,
        series_order(a, c) == Precedence::Same ==> series_order(a, b) == Precedence::Same
            && series_order(b, c) == Precedence::Same,
    decreases a.len(),
{
    let end_a = position(a, '.');
    let end_b = position(b, '.');
    let end_c = position(c, '.');
    lemma_position(a, '.');
    lemma_position(b, '.');
    lemma_position(c, '.');
    let first_ab = identifier_order(a.take(end_a), b.take(end_b));
    let first_bc = identifier_order(b.take(end_b), c.take(end_c));
    if first_ab != Precedence::Higher && first_bc != Precedence::Higher {
        lemma_identifier_transitive(a.take(end_a), b.take(end_b), c.take(end_c));
    }
    if first_ab == Precedence::Same && first_bc == Precedence::Same && end_a < a.len() && end_b
        < b.len() && end_c < c.len() {
        lemma_series_transitive(a.skip(end_a + 1), b.skip(end_b + 1), c.skip(end_c + 1));
    }
}

/// Turning two pre-release strings round turns their order round.
pub proof fn lemma_prerelease_flip(a: Seq<char>, b: Seq<char>)
    ensures
        prerelease_order(b, a) == prerelease_order(a, b).flip(),
{
    lemma_series_flip(a, b);
}

/// Two well-formed pre-release strings are in the same place only where they
/// are equal.
pub proof fn lemma_prerelease_same(a: Seq<char>, b: Seq<char>)
    requires
        a.len() == 0 || valid_series(a, true),
        b.len() == 0 || valid_series(b, true),
    ensures
        prerelease_order(a, b) == Precedence::Same <==> a == b,
{
    if a.len() > 0 && b.len() > 0 {
        lemma_series_same(a, b);
    } else if a.len() == 0 && b.len() == 0 {
        assert(a == b);
    }
}

/// The order of pre-release strings is transitive.
pub proof fn lemma_prerelease_transitive(a: Seq<char>, b: Seq<char>, c: Seq<char>)
    requires
        prerelease_order(a, b) != Precedence::Higher,
        prerelease_order(b, c) != Precedence::Higher,
    ensures
        prerelease_order(a, c) != Precedence::Higher,
        prerelease_order(a, c) == Precedence::Same ==> prerelease_order(a, b) == Precedence::Same
            && prerelease_order(b, c) == Precedence::Same,
{
    if a.len() > 0 && b.len() > 0 && c.len() > 0 {
        lemma_series_transitive(a, b, c);
    }
}

/// Whether `c` is one of `0` to `9`.
pub fn digit(c: char) -> (r: bool)
    ensures
        r == is_digit(c),
{
    '0' <= c && c <= '9'
}

/// Whether `c` may stand in an identifier.
pub fn identifier_char(c: char) -> (r: bool)
    ensures
        r == is_identifier_char(c),
{
    digit(c) || ('A' <= c && c <= 'Z') || ('a' <= c && c <= 'z') || c == '-'
}

/// Whether `s` holds digits alone.
pub fn only_digits(s: &[char]) -> (r: bool)
    ensures
        r == all_digits(s@),
{
    let mut i: usize = 0;
    while i < s.len()
        invariant
            i <= s.len(),
            forall|j: int| 0 <= j < i ==> is_digit(#[trigger] s@[j]),
        decreases s.len() - i,
    {
        if !digit(s[i]) {
            return false;
        }
        i = i + 1;
    }
    true
}

/// Whether `id` is an identifier; one that is `strict` and numeric has no
/// leading zero.
pub fn check_identifier(id: &[char], strict: bool) -> (ok: bool)
    ensures
        ok == valid_identifier(id@, strict),
{
    if id.len() == 0 {
        return false;
    }
    let mut i: usize = 0;
    while i < id.len()
        invariant
            i <= id.len(),
            forall|j: int| 0 <= j < i ==> is_identifier_char(#[trigger] id@[j]),
        decreases id.len() - i,
    {
        if !identifier_char(id[i]) {
            return false;
        }
        i = i + 1;
    }
    !(strict && id.len() > 1 && id[0] == '0' && only_digits(id))
}

/// Whether `s` is a series of identifiers with one dot between each two.
pub fn check_series(s: &[char], strict: bool) -> (ok: bool)
    ensures
        ok == valid_series(s@, strict),
{
    let mut start: usize = 0;
    proof {
        assert(s@.skip(0) == s@);
    }
    loop
        invariant
            start <= s.len(),
            valid_series(s@, strict) == valid_series(s@.skip(start as int), strict),
        decreases s.len() - start,
    {
        let end = find(s, start, '.');
        let id = slice_subrange(s, start, end);
        proof {
            let rest = s@.skip(start as int);
            assert(rest.take(end - start) == s@.subrange(start as int, end as int));
            if end < s.len() {
                assert(rest.skip(end - start + 1) == s@.skip(end + 1));
            }
        }
        if !check_identifier(id, strict) {
            return false;
        }
        if end == s.len() {
            return true;
        }
        start = end + 1;
    }
}

/// The order of two texts by their first unequal characters.
pub fn compare_lexical(a: &[char], b: &[char]) -> (r: Precedence)
    ensures
        r == lexical_order(a@, b@),
{
    let mut i: usize = 0;
    proof {
        assert(a@.skip(0) == a@);
        assert(b@.skip(0) == b@);
    }
    while i < a.len() && i < b.len()
        invariant
            i <= a.len(),
            i <= b.len(),
            lexical_order(a@, b@) == lexical_order(a@.skip(i as int), b@.skip(i as int)),
        decreases a.len() - i,
    {
        proof {
            assert(a@.skip(i as int).drop_first() == a@.skip(i + 1));
            assert(b@.skip(i as int).drop_first() == b@.skip(i + 1));
        }
        if a[i] < b[i] {
            return Precedence::Lower;
        }
        if a[i] > b[i] {
            return Precedence::Higher;
        }
        i = i + 1;
    }
    if i < b.len() {
        Precedence::Lower
    } else if i < a.len() {
        Precedence::Higher
    } else {
        Precedence::Same
    }
}

/// The order of two identifiers without leading zeros.
pub(crate) fn compare_identifier(a: &[char], b: &[char]) -> (r: Precedence)
    requires
        valid_identifier(a@, true),
        valid_identifier(b@, true),
    ensures
        r == identifier_order(a@, b@),
{
    let a_numeric = only_digits(a);
    let b_numeric = only_digits(b);
    if a_numeric && b_numeric {
        proof {
            lemma_numeric_order(a@, b@);
        }
        if a.len() < b.len() {
            Precedence::Lower
        } else if a.len() > b.len() {
            Precedence::Higher
        } else {
            compare_lexical(a, b)
        }
    } else if a_numeric {
        Precedence::Lower
    } else if b_numeric {
        Precedence::Higher
    } else {
        compare_lexical(a, b)
    }
}

/// The order of two series of identifiers without leading zeros.
pub(crate) fn compare_series(a: &[char], b: &[char]) -> (r: Precedence)
    requires
        valid_series(a@, true),
        valid_series(b@, true),
    ensures
        r == series_order(a@, b@),
{
    let mut start_a: usize = 0;
    let mut start_b: usize = 0;
    proof {
        assert(a@.skip(0) == a@);
        assert(b@.skip(0) == b@);
    }
    loop
        invariant
            start_a <= a.len(),
            start_b <= b.len(),
            valid_series(a@.skip(start_a as int), true),
            valid_series(b@.skip(start_b as int), true),
            series_order(a@, b@) == series_order(a@.skip(start_a as int), b@.skip(start_b as int)),
        decreases a.len() - start_a,
    {
        let end_a = find(a, start_a, '.');
        let end_b = find(b, start_b, '.');
        let id_a = slice_subrange(a, start_a, end_a);
        let id_b = slice_subrange(b, start_b, end_b);
        proof {
            let rest_a = a@.skip(start_a as int);
            let rest_b = b@.skip(start_b as int);
            assert(rest_a.take(end_a - start_a) == a@.subrange(start_a as int, end_a as int));
            assert(rest_b.take(end_b - start_b) == b@.subrange(start_b as int, end_b as int));
            if end_a < a.len() {
                assert(rest_a.skip(end_a - start_a + 1) == a@.skip(end_a + 1));
            }
            if end_b < b.len() {
                assert(rest_b.skip(end_b - start_b + 1) == b@.skip(end_b + 1));
            }
        }
        let first = compare_identifier(id_a, id_b);
        match first {
            Precedence::Same => {},
            _ => {
                return first;
            },
        }
        if end_a < a.len() && end_b < b.len() {
            start_a = end_a + 1;
            start_b = end_b + 1;
        } else if end_b < b.len() {
            return Precedence::Lower;
        } else if end_a < a.len() {
            return Precedence::Higher;
        } else {
            return Precedence::Same;
        }
    }
}

/// The order of two pre-release strings without leading zeros in their
/// identifiers; the empty one stands for a release.
pub(crate) fn compare_prerelease(a: &[char], b: &[char]) -> (r: Precedence)
    requires
        a@.len() == 0 || valid_series(a@, true),
        b@.len() == 0 || valid_series(b@, true),
    ensures
        r == prerelease_order(a@, b@),
{
    if a.len() == 0 && b.len() == 0 {
        Precedence::Same
    } else if a.len() == 0 {
        Precedence::Higher
    } else if b.len() == 0 {
        Precedence::Lower
    } else {
        compare_series(a, b)
    }
}

/// The order of two numbers.
pub fn compare_number(a: u64, b: u64) -> (r: Precedence)
    ensures
        r == number_order(a as nat, b as nat),
{
    if a < b {
        Precedence::Lower
    } else if a > b {
        Precedence::Higher
    } else {
        Precedence::Same
    }
}

} // verus!
