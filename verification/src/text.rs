//! Text as the account records hold it: blank-or-filled fields, searching and cutting.
use vstd::prelude::*;
use vstd::string::*;
use vstd::utf8::*;

verus! {

// ---------------------------------------------------------------------------------------------
// Models
// ---------------------------------------------------------------------------------------------

/// The characters with the Unicode property `White_Space`.
pub open spec fn is_white_space(c: char) -> bool {
    let v = c as u32;
    ||| 0x09 <= v <= 0x0d
    ||| v == 0x20
    ||| v == 0x85
    ||| v == 0xa0
    ||| v == 0x1680
    ||| 0x2000 <= v <= 0x200a
    ||| v == 0x2028
    ||| v == 0x2029
    ||| v == 0x202f
    ||| v == 0x205f
    ||| v == 0x3000
}

/// `s` without its leading white space.
pub open spec fn trimmed_start(s: Seq<char>) -> Seq<char>
    decreases s.len(),
{
    if s.len() > 0 && is_white_space(s[0]) {
        trimmed_start(s.drop_first())
    } else {
        s
    }
}

/// `s` without its trailing white space.
pub open spec fn trimmed_end(s: Seq<char>) -> Seq<char>
    decreases s.len(),
{
    if s.len() > 0 && is_white_space(s.last()) {
        trimmed_end(s.drop_last())
    } else {
        s
    }
}

/// `s` without white space at either end.
pub open spec fn trimmed(s: Seq<char>) -> Seq<char> {
    trimmed_end(trimmed_start(s))
}

/// `s` is empty or holds nothing but white space.
pub open spec fn is_blank(s: Seq<char>) -> bool {
    trimmed(s).len() == 0
}

/// What an optional field says: its trimmed text, or nothing when it is absent or blank.
pub open spec fn filled(field: Option<Seq<char>>) -> Option<Seq<char>> {
    match field {
        Some(s) => if is_blank(s) {
            None
        } else {
            Some(trimmed(s))
        },
        None => None,
    }
}

/// The field says nothing: it is absent or blank.
pub open spec fn is_unfilled(field: Option<Seq<char>>) -> bool {
    filled(field) is None
}

/// The field itself, unless its text is empty.
pub open spec fn nonempty(field: Option<Seq<char>>) -> Option<Seq<char>> {
    match field {
        Some(s) => if s.len() == 0 {
            None
        } else {
            Some(s)
        },
        None => None,
    }
}

/// `part` occurs in `s` at position `at`.
pub open spec fn occurs_at(s: Seq<char>, part: Seq<char>, at: int) -> bool {
    0 <= at && at + part.len() <= s.len() && s.subrange(at, at + part.len()) == part
}

/// `part` occurs somewhere in `s`.
pub open spec fn contains_text(s: Seq<char>, part: Seq<char>) -> bool {
    exists|at: int| #[trigger] occurs_at(s, part, at)
}

/// `s` cut at every occurrence of `sep`; one piece more than there are separators.
pub open spec fn split_on(s: Seq<char>, sep: char) -> Seq<Seq<char>>
    decreases s.len(),
{
    if s.len() == 0 {
        seq![s]
    } else {
        let rest = split_on(s.drop_first(), sep);
        if s[0] == sep {
            seq![Seq::<char>::empty()] + rest
        } else {
            rest.update(0, seq![s[0]] + rest[0])
        }
    }
}

/// The text of an optional field.
pub open spec fn text_of(field: Option<String>) -> Option<Seq<char>> {
    match field {
        Some(s) => Some(s@),
        None => None,
    }
}

/// The text of an optional borrowed field.
pub open spec fn str_of(field: Option<&str>) -> Option<Seq<char>> {
    match field {
        Some(s) => Some(s@),
        None => None,
    }
}

// ---------------------------------------------------------------------------------------------
// What is taken from std
// ---------------------------------------------------------------------------------------------

/// `str::trim`: the text without leading and trailing `White_Space` characters.
pub assume_specification[ str::trim ](s: &str) -> (r: &str)
    ensures
        r@ == trimmed(s@),
;

/// `str::eq`: two texts are equal when they hold the same characters.
#[verifier::external_body]
pub(crate) fn same_text(a: &str, b: &str) -> (r: bool)
    ensures
        r == (a@ == b@),
{
    a == b
}

/// `str::starts_with` with a text pattern: whether the first text begins with the second.
#[verifier::external_body]
pub(crate) fn starts_with(s: &str, prefix: &str) -> (r: bool)
    ensures
        r == prefix@.is_prefix_of(s@),
{
    s.starts_with(prefix)
}

/// `str::contains` with a text pattern: whether the second text occurs in the first.
#[verifier::external_body]
pub(crate) fn contains(s: &str, part: &str) -> (r: bool)
    ensures
        r == contains_text(s@, part@),
{
    s.contains(part)
}

// ---------------------------------------------------------------------------------------------
// Fields
// ---------------------------------------------------------------------------------------------

/// The trimmed text of a field, or nothing when the field is absent or blank.
pub fn filled_text(field: &Option<String>) -> (r: Option<&str>)
    ensures
        str_of(r) == filled(text_of(*field)),
{
    match field {
        Some(s) => {
            let t = s.as_str().trim();
            if t.is_empty() {
                None
            } else {
                Some(t)
            }
        },
        None => None,
    }
}

/// A copy of a field.
pub fn copy_field(field: &Option<String>) -> (r: Option<String>)
    ensures
        text_of(r) == text_of(*field),
{
    match field {
        Some(s) => Some(s.clone()),
        None => None,
    }
}

/// Whether two fields hold the same text, or are both absent.
pub fn same_field(a: &Option<String>, b: &Option<String>) -> (r: bool)
    ensures
        r == (text_of(*a) == text_of(*b)),
{
    match (a, b) {
        (Some(x), Some(y)) => same_text(x.as_str(), y.as_str()),
        (None, None) => true,
        _ => false,
    }
}

/// Whether a field holds exactly this text.
pub fn field_is(field: &Option<String>, text: &str) -> (r: bool)
    ensures
        r == (text_of(*field) == Some(text@)),
{
    match field {
        Some(s) => same_text(s.as_str(), text),
        None => false,
    }
}

/// Whether a field, trimmed, holds exactly this text.
pub fn trimmed_field_is(field: &Option<String>, text: &str) -> (r: bool)
    ensures
        r == (text_of(*field) is Some && trimmed(text_of(*field)->0) == text@),
{
    match field {
        Some(s) => same_text(s.as_str().trim(), text),
        None => false,
    }
}

/// The field itself, unless its text is empty.
pub fn nonempty_field(field: Option<String>) -> (r: Option<String>)
    ensures
        text_of(r) == nonempty(text_of(field)),
{
    match field {
        Some(s) => if s.as_str().is_empty() {
            None
        } else {
            Some(s)
        },
        None => None,
    }
}

/// `a` followed by `b`.
pub fn joined(a: &str, b: &str) -> (r: String)
    ensures
        r@ == a@ + b@,
{
    let mut r = a.to_owned();
    r.append(b);
    r
}

// ---------------------------------------------------------------------------------------------
// Laws
// ---------------------------------------------------------------------------------------------

/// Trimming leaves no white space at either end, so trimming twice changes nothing more.
pub proof fn law_trim_is_idempotent(s: Seq<char>)
    ensures
        trimmed(trimmed(s)) == trimmed(s),
        trimmed(s).len() > 0 ==> !is_white_space(trimmed(s)[0]) && !is_white_space(
            trimmed(s).last(),
        ),
{
    let t = trimmed_start(s);
    lemma_trimmed_start(s);
    lemma_trimmed_end(t);
}

proof fn lemma_trimmed_start(s: Seq<char>)
    ensures
        trimmed_start(s).len() > 0 ==> !is_white_space(trimmed_start(s)[0]),
    decreases s.len(),
{
    if s.len() > 0 && is_white_space(s[0]) {
        lemma_trimmed_start(s.drop_first());
    }
}

proof fn lemma_trimmed_end(s: Seq<char>)
    ensures
        trimmed_end(s).len() > 0 ==> !is_white_space(trimmed_end(s).last()),
        trimmed_end(s).len() > 0 ==> trimmed_end(s)[0] == s[0],
    decreases s.len(),
{
    if s.len() > 0 && is_white_space(s.last()) {
        lemma_trimmed_end(s.drop_last());
    }
}

/// Encoding a text is encoding its parts one after the other.
pub proof fn lemma_encode_concat(a: Seq<char>, b: Seq<char>)
    ensures
        encode_utf8(a + b) == encode_utf8(a) + encode_utf8(b),
    decreases a.len(),
{
    if a.len() == 0 {
        assert(a + b == b);
        assert(encode_utf8(a) + encode_utf8(b) == encode_utf8(b));
    } else {
        assert((a + b).drop_first() == a.drop_first() + b);
        lemma_encode_concat(a.drop_first(), b);
        assert(encode_utf8(a + b) == encode_scalar(a[0] as u32) + (encode_utf8(a.drop_first())
            + encode_utf8(b)));
        assert(encode_utf8(a) + encode_utf8(b) == encode_scalar(a[0] as u32) + encode_utf8(
            a.drop_first(),
        ) + encode_utf8(b));
    }
}

/// How many white-space characters a text begins with.
proof fn lemma_leading_white_space(s: Seq<char>) -> (n: int)
    ensures
        0 <= n <= s.len(),
        trimmed_start(s) == s.skip(n),
        forall|k: int| 0 <= k < n ==> is_white_space(#[trigger] s[k]),
    decreases s.len(),
{
    if s.len() > 0 && is_white_space(s[0]) {
        let rest = s.drop_first();
        let m = lemma_leading_white_space(rest);
        assert(rest.skip(m) == s.skip(m + 1));
        assert forall|k: int| 0 <= k < m + 1 implies is_white_space(#[trigger] s[k]) by {
            if k > 0 {
                assert(s[k] == rest[k - 1]);
            }
        }
        m + 1
    } else {
        assert(s.skip(0) == s);
        0
    }
}

/// Where the white space begins that a text ends with.
proof fn lemma_trailing_white_space(s: Seq<char>) -> (n: int)
    ensures
        0 <= n <= s.len(),
        trimmed_end(s) == s.take(n),
        forall|k: int| n <= k < s.len() ==> is_white_space(#[trigger] s[k]),
    decreases s.len(),
{
    if s.len() > 0 && is_white_space(s.last()) {
        let rest = s.drop_last();
        let m = lemma_trailing_white_space(rest);
        assert(rest.take(m) == s.take(m));
        assert forall|k: int| m <= k < s.len() implies is_white_space(#[trigger] s[k]) by {
            if k < rest.len() {
                assert(s[k] == rest[k]);
            }
        }
        m
    } else {
        assert(s.take(s.len() as int) == s);
        s.len() as int
    }
}

/// `t` is what lies between the white space at both ends of `s`.
pub open spec fn is_core_of(t: Seq<char>, s: Seq<char>) -> bool {
    &&& t.len() > 0 ==> !is_white_space(t[0]) && !is_white_space(t.last())
    &&& exists|i: int, j: int|
        #![trigger s.subrange(i, j)]
        {
            &&& 0 <= i <= j <= s.len()
            &&& t == s.subrange(i, j)
            &&& forall|k: int| 0 <= k < i ==> is_white_space(#[trigger] s[k])
            &&& forall|k: int| j <= k < s.len() ==> is_white_space(#[trigger] s[k])
        }
}

/// Trimming cuts white space off both ends and nothing else.
pub proof fn law_trim_cuts_white_space_only(s: Seq<char>)
    ensures
        is_core_of(trimmed(s), s),
{
    law_trim_is_idempotent(s);
    let i = lemma_leading_white_space(s);
    let rest = s.skip(i);
    let m = lemma_trailing_white_space(rest);
    let j = i + m;
    assert(trimmed(s) == s.subrange(i, j));
    assert forall|k: int| j <= k < s.len() implies is_white_space(#[trigger] s[k]) by {
        assert(s[k] == rest[k - i]);
    }
}

/// A field says nothing exactly when it is absent or holds white space alone; otherwise it says
/// its text between the white space at both ends.
pub proof fn law_blank_fields_say_nothing(field: Option<Seq<char>>)
    ensures
        is_unfilled(field) <==> filled(field) is None,
        filled(field) is None <==> field is None || forall|k: int|
            0 <= k < field->0.len() ==> is_white_space(#[trigger] field->0[k]),
        filled(field) matches Some(t) ==> t.len() > 0 && field is Some && is_core_of(t, field->0),
{
    if field is Some {
        let s = field->0;
        law_trim_cuts_white_space_only(s);
        let (i, j) = choose|i: int, j: int|
            #![trigger s.subrange(i, j)]
            {
                &&& 0 <= i <= j <= s.len()
                &&& trimmed(s) == s.subrange(i, j)
                &&& forall|k: int| 0 <= k < i ==> is_white_space(#[trigger] s[k])
                &&& forall|k: int| j <= k < s.len() ==> is_white_space(#[trigger] s[k])
            };
        if i < j {
            assert(trimmed(s)[0] == s[i]);
        }
    }
}

/// Only an empty text is dropped.
pub proof fn law_only_empty_texts_are_dropped(field: Option<Seq<char>>)
    ensures
        nonempty(field) is Some <==> field is Some && field->0 != Seq::<char>::empty(),
        nonempty(field) is Some ==> nonempty(field) == field,
{
    if field is Some && field->0.len() == 0 {
        assert(field->0 == Seq::<char>::empty());
    }
}

/// A text holds another exactly when it is that text with something before and after it.
pub proof fn law_text_is_held_in_the_middle(s: Seq<char>, part: Seq<char>)
    ensures
        contains_text(s, part) <==> exists|before: Seq<char>, after: Seq<char>|
            s == #[trigger] (before + part + after),
{
    if contains_text(s, part) {
        let at = choose|at: int| #[trigger] occurs_at(s, part, at);
        let before = s.take(at);
        let after = s.skip(at + part.len());
        assert(s == before + part + after);
    }
    if exists|before: Seq<char>, after: Seq<char>| s == #[trigger] (before + part + after) {
        let (before, after) = choose|before: Seq<char>, after: Seq<char>|
            s == #[trigger] (before + part + after);
        assert(s.subrange(before.len() as int, before.len() as int + part.len()) == part);
        assert(occurs_at(s, part, before.len() as int));
    }
}

/// The pieces with `sep` between each two.
pub open spec fn joined_by(pieces: Seq<Seq<char>>, sep: char) -> Seq<char>
    decreases pieces.len(),
{
    if pieces.len() == 0 {
        Seq::empty()
    } else if pieces.len() == 1 {
        pieces[0]
    } else {
        pieces[0] + seq![sep] + joined_by(pieces.drop_first(), sep)
    }
}

/// The pieces that a text is cut into hold no separator, and joined by it they are the text again.
pub proof fn law_pieces_make_up_the_text(s: Seq<char>, sep: char)
    ensures
        split_on(s, sep).len() > 0,
        forall|i: int|
            0 <= i < split_on(s, sep).len() ==> !(#[trigger] split_on(s, sep)[i]).contains(sep),
        joined_by(split_on(s, sep), sep) == s,
    decreases s.len(),
{
    let pieces = split_on(s, sep);
    if s.len() == 0 {
        assert(pieces[0] == s);
    } else {
        let rest = split_on(s.drop_first(), sep);
        law_pieces_make_up_the_text(s.drop_first(), sep);
        assert(seq![s[0]] + s.drop_first() == s);
        if s[0] == sep {
            assert(pieces.drop_first() == rest);
            assert(pieces[0] == Seq::<char>::empty());
            assert(joined_by(pieces, sep) == seq![sep] + s.drop_first());
            assert forall|i: int| 0 <= i < pieces.len() implies !(#[trigger] pieces[i]).contains(
                sep,
            ) by {
                if i > 0 {
                    assert(pieces[i] == rest[i - 1]);
                }
            }
        } else {
            assert(pieces[0] == seq![s[0]] + rest[0]);
            assert forall|i: int| 0 <= i < pieces.len() implies !(#[trigger] pieces[i]).contains(
                sep,
            ) by {
                if i > 0 {
                    assert(pieces[i] == rest[i]);
                } else if pieces[0].contains(sep) {
                    let k = choose|k: int| 0 <= k < pieces[0].len() && pieces[0][k] == sep;
                    assert(k > 0);
                    assert(rest[0][k - 1] == sep);
                    assert(rest[0].contains(sep));
                }
            }
            if rest.len() > 1 {
                assert(pieces.drop_first() == rest.drop_first());
                assert(joined_by(pieces, sep) == seq![s[0]] + joined_by(rest, sep));
            }
        }
    }
}

} // verus!
