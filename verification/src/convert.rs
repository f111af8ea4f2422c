//! Text-case conversion: kebab-case to Capitalized Words, and Capitalized
//! Words to an identifier-style name, as used to build mastery-badge
//! identifiers from card names.
use vstd::prelude::*;

use crate::util::{ascii_to_string, spec_ascii_chars};

verus! {

/// A separator that turns into a space when capitalizing.
pub open spec fn is_sep_char(c: char) -> bool {
    c == '-' || c == '_' || c == '.'
}

/// A lowercase ASCII letter.
pub open spec fn is_lower_char(c: char) -> bool {
    'a' <= c && c <= 'z'
}

/// An uppercase ASCII letter.
pub open spec fn is_upper_char(c: char) -> bool {
    'A' <= c && c <= 'Z'
}

/// An ASCII digit.
pub open spec fn is_digit_char(c: char) -> bool {
    '0' <= c && c <= '9'
}

/// A character that `kebab_to_capitalized` accepts: a letter of either case,
/// a digit, or a separator.
pub open spec fn is_convertible_char(c: char) -> bool {
    is_lower_char(c) || is_upper_char(c) || is_digit_char(c) || is_sep_char(c)
}

/// The uppercase form of a letter; anything else is unchanged.
pub open spec fn spec_to_upper(c: char) -> char {
    if is_lower_char(c) {
        (((c as u8) - 32) as char)
    } else {
        c
    }
}

/// The lowercase form of a letter; anything else is unchanged.
pub open spec fn spec_to_lower(c: char) -> char {
    if is_upper_char(c) {
        (((c as u8) + 32) as char)
    } else {
        c
    }
}

/// Capitalized Words: each separator becomes a space, the letter at the start
/// and every letter after a separator is uppercased, and every other letter
/// is lowercased.
pub open spec fn spec_capitalized(s: Seq<char>) -> Seq<char> {
    Seq::new(
        s.len(),
        |i: int|
            if is_sep_char(s[i]) {
                ' '
            } else if i == 0 || is_sep_char(s[i - 1]) {
                spec_to_upper(s[i])
            } else {
                spec_to_lower(s[i])
            },
    )
}

/// The sequence with every occurrence of `x` removed.
pub open spec fn spec_remove_char(s: Seq<char>, x: char) -> Seq<char>
    decreases s.len(),
{
    if s.len() == 0 {
        Seq::<char>::empty()
    } else {
        let rest = spec_remove_char(s.drop_last(), x);
        if s.last() == x {
            rest
        } else {
            rest.push(s.last())
        }
    }
}

/// Every character of the sequence lowercased.
pub open spec fn spec_lower_seq(s: Seq<char>) -> Seq<char> {
    s.map(|_i: int, c: char| spec_to_lower(c))
}

/// Uppercasing a lowercase letter and lowercasing the result gives the
/// letter back.
proof fn lemma_lower_of_upper(c: char)
    requires
        is_lower_char(c),
    ensures
        is_upper_char(spec_to_upper(c)),
        spec_to_lower(spec_to_upper(c)) == c,
{
}

/// Law: a string of lowercase letters and hyphens survives the round trip
/// through `kebab_to_capitalized` and `capitalized_to_identifier`. Its
/// capitalized form consists of letters and spaces only, so the identifier
/// conversion accepts it; and the identifier — the capitalized form with its
/// spaces removed — carries exactly the letters of the original, in order,
/// with the hyphens dropped: lowercasing it gives the original string with
/// its hyphens removed.
pub proof fn lemma_capitalize_identifier_round_trip(s: Seq<char>)
    requires
        forall|i: int| 0 <= i < s.len() ==> is_lower_char(#[trigger] s[i]) || s[i] == '-',
    ensures
        forall|i: int|
            0 <= i < spec_capitalized(s).len() ==> is_lower_char(
                #[trigger] spec_capitalized(s)[i],
            ) || is_upper_char(spec_capitalized(s)[i]) || spec_capitalized(s)[i] == ' ',
        spec_lower_seq(spec_remove_char(spec_capitalized(s), ' ')) == spec_remove_char(s, '-'),
    decreases s.len(),
{
    let cap = spec_capitalized(s);
    assert forall|i: int| 0 <= i < cap.len() implies is_lower_char(#[trigger] cap[i])
        || is_upper_char(cap[i]) || cap[i] == ' ' by {
        if !is_sep_char(s[i]) {
            if is_lower_char(s[i]) {
                lemma_lower_of_upper(s[i]);
            }
        }
    }
    if s.len() == 0 {
        assert(cap =~= Seq::<char>::empty());
        assert(spec_lower_seq(spec_remove_char(cap, ' ')) =~= spec_remove_char(s, '-'));
    } else {
        let s1 = s.drop_last();
        lemma_capitalize_identifier_round_trip(s1);
        assert(cap.drop_last() =~= spec_capitalized(s1));
        let c = s.last();
        if c == '-' {
            assert(cap.last() == ' ');
            assert(spec_remove_char(cap, ' ') == spec_remove_char(spec_capitalized(s1), ' '));
            assert(spec_remove_char(s, '-') == spec_remove_char(s1, '-'));
        } else {
            assert(is_lower_char(c));
            lemma_lower_of_upper(c);
            assert(cap.last() == spec_to_upper(c) || cap.last() == spec_to_lower(c));
            assert(spec_to_lower(cap.last()) == c);
            assert(cap.last() != ' ');
            assert(spec_remove_char(cap, ' ') == spec_remove_char(
                spec_capitalized(s1),
                ' ',
            ).push(cap.last()));
            assert(spec_lower_seq(spec_remove_char(cap, ' ')) =~= spec_lower_seq(
                spec_remove_char(spec_capitalized(s1), ' '),
            ).push(spec_to_lower(cap.last())));
            assert(spec_remove_char(s, '-') == spec_remove_char(s1, '-').push(c));
        }
    }
}

/// Maps each separator (hyphen, underscore, period) to a single space and
/// capitalizes the first letter following any separator (or the string
/// start), lowercasing all other letters.
///
/// Fails if any character is neither a letter, a digit nor a separator.
#[verifier::loop_isolation(false)]
pub fn kebab_to_capitalized(s: &str) -> (r: Result<String, String>)
    ensures
        match r {
            Ok(t) => (forall|i: int| 0 <= i < s@.len() ==> is_convertible_char(#[trigger] s@[i]))
                && t@ == spec_capitalized(s@),
            Err(e) => (exists|i: int|
                0 <= i < s@.len() && !is_convertible_char(#[trigger] s@[i])) && e@ == "The string \""@
                + s@ + "\" cannot be converted to capitalized words"@,
        },
{
    let n = s.unicode_len();
    let mut out: Vec<u8> = Vec::new();
    let mut after_sep = true;
    let mut i: usize = 0;
    while i < n
        invariant
            n == s@.len(),
            0 <= i <= n,
            out@.len() == i,
            forall|j: int| 0 <= j < i ==> is_convertible_char(#[trigger] s@[j]),
            forall|j: int|
                0 <= j < i ==> #[trigger] out@[j] < 0x80 && out@[j] as char == spec_capitalized(
                    s@,
                )[j],
            after_sep == (i == 0 || is_sep_char(s@[i - 1])),
        decreases n - i,
    {
        let c = s.get_char(i);
        let is_sep = c == '-' || c == '_' || c == '.';
        if is_sep {
            out.push(32);
            after_sep = true;
        } else if ('a' <= c && c <= 'z') || ('A' <= c && c <= 'Z') || ('0' <= c && c <= '9') {
            let b = c as u8;
            let converted: u8 = if after_sep {
                if 97 <= b && b <= 122 {
                    b - 32
                } else {
                    b
                }
            } else {
                if 65 <= b && b <= 90 {
                    b + 32
                } else {
                    b
                }
            };
            out.push(converted);
            after_sep = false;
        } else {
            let mut e = String::new();
            e.append("The string \"");
            e.append(s);
            e.append("\" cannot be converted to capitalized words");
            return Err(e);
        }
        i += 1;
    }
    let t = ascii_to_string(out);
    proof {
        assert(t@ =~= spec_capitalized(s@));
    }
    Ok(t)
}

/// Strips spaces, concatenating the remaining letters and preserving their
/// case, to build an identifier-style name.
///
/// Fails if any character is neither a letter nor a space.
#[verifier::loop_isolation(false)]
pub fn capitalized_to_identifier(s: &str) -> (r: Result<String, String>)
    ensures
        match r {
            Ok(t) => (forall|i: int|
                0 <= i < s@.len() ==> is_lower_char(#[trigger] s@[i]) || is_upper_char(s@[i])
                    || s@[i] == ' ') && t@ == spec_remove_char(s@, ' '),
            Err(e) => (exists|i: int|
                0 <= i < s@.len() && !(is_lower_char(#[trigger] s@[i]) || is_upper_char(s@[i])
                    || s@[i] == ' ')) && e@ == "The string \""@ + s@
                + "\" cannot be converted to an identifier"@,
        },
{
    let n = s.unicode_len();
    let mut out: Vec<u8> = Vec::new();
    let mut i: usize = 0;
    while i < n
        invariant
            n == s@.len(),
            0 <= i <= n,
            forall|j: int|
                0 <= j < i ==> is_lower_char(#[trigger] s@[j]) || is_upper_char(s@[j]) || s@[j]
                    == ' ',
            forall|j: int| 0 <= j < out@.len() ==> #[trigger] out@[j] < 0x80,
            spec_ascii_chars(out@) == spec_remove_char(s@.take(i as int), ' '),
        decreases n - i,
    {
        let ghost out0 = out@;
        let c = s.get_char(i);
        if c == ' ' {
        } else if ('a' <= c && c <= 'z') || ('A' <= c && c <= 'Z') {
            out.push(c as u8);
        } else {
            let mut e = String::new();
            e.append("The string \"");
            e.append(s);
            e.append("\" cannot be converted to an identifier");
            return Err(e);
        }
        i += 1;
        proof {
            assert(s@.take(i as int).drop_last() =~= s@.take(i as int - 1));
            assert(s@.take(i as int).last() == s@[i as int - 1]);
            if c == ' ' {
                assert(spec_ascii_chars(out@) == spec_remove_char(s@.take(i as int), ' '));
            } else {
                assert(spec_ascii_chars(out@) =~= spec_ascii_chars(out0).push(c));
            }
        }
    }
    proof {
        assert(s@.take(n as int) =~= s@);
    }
    Ok(ascii_to_string(out))
}

} // verus!
