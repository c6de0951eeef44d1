use crate::rule::{Rule, RuleView};
use std::collections::HashSet;
use vstd::prelude::*;

verus! {

/// Why a text is not a rule.
#[derive(Debug, Clone, Copy, PartialEq, Eq, Structural)]
pub enum ParseError {
    /// The text does not have the shape `B.../S...`: not exactly one `/`, or
    /// a side that does not start with its letter.
    InvalidFormat,
    /// A character after `B` or `S` is not a decimal digit.
    InvalidNumber,
}

/// Whether a character is one of the ten decimal digits.
pub open spec fn is_digit(c: char) -> bool {
    '0' <= c <= '9'
}

/// The number that a decimal digit stands for.
pub open spec fn digit_value(c: char) -> u8
    recommends
        is_digit(c),
{
    (c as u32 - '0' as u32) as u8
}

/// Whether every character is a decimal digit.
pub open spec fn all_digits(s: Seq<char>) -> bool {
    forall|i: int| 0 <= i < s.len() ==> is_digit(#[trigger] s[i])
}

/// The set of the numbers that the digits of a text stand for, one number
/// per character.
pub open spec fn digit_set(s: Seq<char>) -> Set<u8> {
    s.map_values(|c: char| digit_value(c)).to_set()
}

/// Whether the text has a `/` at `k` and nowhere else.
pub open spec fn sole_slash(s: Seq<char>, k: int) -> bool {
    &&& 0 <= k < s.len()
    &&& forall|j: int| 0 <= j < s.len() ==> (#[trigger] s[j] == '/' <==> j == k)
}

/// Where the only `/` of a text stands.
pub open spec fn slash_at(s: Seq<char>) -> int
    recommends
        exists|k: int| sole_slash(s, k),
{
    choose|k: int| sole_slash(s, k)
}

/// What stands before the only `/`.
pub open spec fn birth_side(s: Seq<char>) -> Seq<char> {
    s.take(slash_at(s))
}

/// What stands after the only `/`.
pub open spec fn survival_side(s: Seq<char>) -> Seq<char> {
    s.skip(slash_at(s) + 1)
}

/// Whether the text has the shape `B.../S...`: exactly one `/`, a `B`
/// first on its left and an `S` first on its right.
pub open spec fn well_formed(s: Seq<char>) -> bool {
    &&& exists|k: int| sole_slash(s, k)
    &&& birth_side(s).len() > 0 && birth_side(s)[0] == 'B'
    &&& survival_side(s).len() > 0 && survival_side(s)[0] == 'S'
}

/// What a text means as a rule: the rule, or why it is none. The shape is
/// judged first, the digits after it.
pub open spec fn parsed(s: Seq<char>) -> Result<RuleView, ParseError> {
    if !well_formed(s) {
        Err(ParseError::InvalidFormat)
    } else if !all_digits(birth_side(s).skip(1)) || !all_digits(survival_side(s).skip(1)) {
        Err(ParseError::InvalidNumber)
    } else {
        Ok(
            RuleView {
                birth: digit_set(birth_side(s).skip(1)),
                survival: digit_set(survival_side(s).skip(1)),
            },
        )
    }
}

/// The number that a character stands for, if it is a decimal digit.
pub fn digit_of(c: char) -> (digit: Option<u8>)
    ensures
        digit == (if is_digit(c) {
            Some(digit_value(c))
        } else {
            None
        }),
{
    if '0' <= c && c <= '9' {
        Some((c as u32 - '0' as u32) as u8)
    } else {
        None
    }
}

/// The characters of a text, in order.
fn chars_of(text: &str) -> (chars: Vec<char>)
    ensures
        chars@ == text@,
{
    let mut chars: Vec<char> = Vec::new();
    for c in it: text.chars()
        invariant
            it.seq() == text@,
            chars@ == it.seq().take(it.index() as int),
    {
        chars.push(c);
    }
    chars
}

/// Reads the digits of `chars` from `from` up to `to`: the set of their
/// numbers, or nothing if one of the characters is no digit.
fn digits_between(chars: &Vec<char>, from: usize, to: usize) -> (digits: Option<HashSet<u8>>)
    requires
        from <= to <= chars@.len(),
    ensures
        match digits {
            Some(set) => all_digits(chars@.subrange(from as int, to as int)) && set@ == digit_set(
                chars@.subrange(from as int, to as int),
            ),
            None => !all_digits(chars@.subrange(from as int, to as int)),
        },
{
    let ghost span = chars@.subrange(from as int, to as int);
    let mut set: HashSet<u8> = HashSet::new();
    let mut i: usize = from;
    while i < to
        invariant
            from <= i <= to <= chars@.len(),
            span == chars@.subrange(from as int, to as int),
            all_digits(span.take(i - from)),
            set@ == digit_set(span.take(i - from)),
        decreases to - i,
    {
        let ghost done = span.take(i - from);
        let ghost c = chars@[i as int];
        assert(span[i - from] == c);
        match digit_of(chars[i]) {
            Some(d) => {
                set.insert(d);
                proof {
                    let next = span.take(i + 1 - from);
                    assert(next =~= done.push(c));
                    let f = |c: char| digit_value(c);
                    assert(next.map_values(f) =~= done.map_values(f).push(d));
                    done.map_values(f).lemma_push_to_set_commute(d);
                }
            },
            None => {
                return None;
            },
        }
        i += 1;
    }
    assert(span.take(to - from) =~= span);
    Some(set)
}

impl Rule {
    /// Reads a rule from its notation `B<digits>/S<digits>`, one neighbour
    /// count per digit.
    pub fn parse(text: &str) -> (result: Result<Rule, ParseError>)
        ensures
            match result {
                Ok(rule) => parsed(text@) == Ok::<RuleView, ParseError>(rule@),
                Err(error) => parsed(text@) == Err::<RuleView, ParseError>(error),
            },
    {
        let chars = chars_of(text);
        let len = chars.len();
        let mut slashes: usize = 0;
        let mut first: usize = 0;
        let mut i: usize = 0;
        while i < len
            invariant
                i <= len,
                len == chars@.len(),
                slashes <= i,
                slashes == 0 ==> forall|j: int| 0 <= j < i ==> chars@[j] != '/',
                slashes >= 1 ==> first < i && chars@[first as int] == '/',
                slashes == 1 ==> forall|j: int| 0 <= j < i ==> (chars@[j] == '/' <==> j == first),
                slashes >= 2 ==> exists|j: int| 0 <= j < i && j != first && chars@[j] == '/',
            decreases len - i,
        {
            if chars[i] == '/' {
                if slashes == 0 {
                    first = i;
                }
                slashes += 1;
            }
            i += 1;
        }
        if slashes != 1 {
            assert(!well_formed(chars@)) by {
                if exists|k: int| sole_slash(chars@, k) {
                    let k = choose|k: int| sole_slash(chars@, k);
                    if slashes >= 2 {
                        let j = choose|j: int| 0 <= j < len && j != first && chars@[j] == '/';
                        assert(chars@[first as int] == '/');
                        assert(chars@[j] == '/');
                    } else {
                        assert(chars@[k] == '/');
                    }
                }
            }
            return Err(ParseError::InvalidFormat);
        }
        proof {
            assert(sole_slash(chars@, first as int));
            let k = slash_at(chars@);
            assert(sole_slash(chars@, k));
            assert(chars@[first as int] == '/');
            assert(k == first);
        }
        if first == 0 || chars[0] != 'B' || first + 1 >= len || chars[first + 1] != 'S' {
            return Err(ParseError::InvalidFormat);
        }
        assert(chars@.take(first as int).skip(1) =~= chars@.subrange(1, first as int));
        assert(chars@.skip(first + 1).skip(1) =~= chars@.subrange(first + 2, len as int));
        let birth = digits_between(&chars, 1, first);
        let survival = digits_between(&chars, first + 2, len);
        match (birth, survival) {
            (Some(birth), Some(survival)) => Ok(Rule::new(birth, survival)),
            _ => Err(ParseError::InvalidNumber),
        }
    }
}

impl TryFrom<&str> for Rule {
    type Error = ParseError;

    /// Reads a rule from its notation, as `Rule::parse` does.
    fn try_from(value: &str) -> (result: Result<Rule, ParseError>)
        ensures
            match result {
                Ok(rule) => parsed(value@) == Ok::<RuleView, ParseError>(rule@),
                Err(error) => parsed(value@) == Err::<RuleView, ParseError>(error),
            },
    {
        Rule::parse(value)
    }
}

impl vstd::std_specs::convert::TryFromSpecImpl<&str> for Rule {
    /// Two rules with the same sets need not be the same value, so no
    /// single value is named as the result: the contract of `try_from`
    /// states the result by its view.
    open spec fn obeys_try_from_spec() -> bool {
        false
    }

    /// Some rule with the sets that the text means, or the error.
    open spec fn try_from_spec(v: &str) -> Result<Rule, ParseError> {
        match parsed(v@) {
            Ok(view) => Ok(choose|rule: Rule| rule@ == view),
            Err(error) => Err(error),
        }
    }
}

} // verus!
