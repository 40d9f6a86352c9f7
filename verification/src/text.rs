//! What the rest needs of text: the strings that options are made from, whether two names are
//! the same up to the case of ASCII letters, and which boolean a piece of JSON text holds.
use vstd::prelude::*;

verus! {

/// `c` with an ASCII upper case letter turned into its lower case form.
pub open spec fn ascii_lowercase(c: char) -> char {
    if 'A' <= c <= 'Z' {
        ((c as u32) + 32) as char
    } else {
        c
    }
}

/// `a` and `b` are the same text up to the case of ASCII letters.
pub open spec fn same_ignoring_ascii_case(a: Seq<char>, b: Seq<char>) -> bool {
    a.map_values(|c: char| ascii_lowercase(c)) == b.map_values(|c: char| ascii_lowercase(c))
}

/// Two texts are the same up to the case of ASCII letters exactly if they are equally long and
/// agree at every place, but that an upper case letter may stand for its lower case form, which
/// is 32 places further on, or the other way round.
pub proof fn lemma_same_ignoring_ascii_case(a: Seq<char>, b: Seq<char>)
    ensures
        same_ignoring_ascii_case(a, b) <==> a.len() == b.len() && forall|i: int|
            #![trigger a[i]]
            #![trigger b[i]]
            0 <= i < a.len() ==> {
                ||| a[i] == b[i]
                ||| 'A' <= a[i] <= 'Z' && b[i] as int == a[i] as int + 32
                ||| 'A' <= b[i] <= 'Z' && a[i] as int == b[i] as int + 32
            },
{
    let low_a = a.map_values(|c: char| ascii_lowercase(c));
    let low_b = b.map_values(|c: char| ascii_lowercase(c));
    if same_ignoring_ascii_case(a, b) {
        assert(low_a.len() == low_b.len());
        assert forall|i: int| 0 <= i < a.len() implies ascii_lowercase(a[i]) == ascii_lowercase(
            b[i],
        ) by {
            assert(low_a[i] == low_b[i]);
        }
    }
    if a.len() == b.len() && forall|i: int|
        #![trigger a[i]]
        0 <= i < a.len() ==> ascii_lowercase(a[i]) == ascii_lowercase(b[i]) {
        assert(low_a =~= low_b);
    }
}

/// `str::eq_ignore_ascii_case` of the standard library: true exactly when the two strings are
/// equal once every letter from `A` to `Z` in both is replaced by its lower case form. Letters
/// outside ASCII are compared as they are.
pub assume_specification[ str::eq_ignore_ascii_case ](a: &str, b: &str) -> (r: bool)
    ensures
        r == same_ignoring_ascii_case(a@, b@),
;

/// `String::from` on a string slice, through which `ShardOptions::new` goes when it is given
/// one: the string holds the same text.
pub assume_specification<'a>[ <String as std::convert::From<&'a str>>::from ](
    s: &str,
) -> (r: String)
    ensures
        r@ == s@,
;

/// The conversion of a value into its own type, through which `ShardOptions::new` goes when it
/// is given a string: the value is returned unchanged.
pub assume_specification<A>[ <A as std::convert::From<A>>::from ](value: A) -> (r: A)
    ensures
        r == value,
;

/// Whitespace between the tokens of a JSON text.
pub open spec fn is_json_whitespace(c: char) -> bool {
    c == ' ' || c == '\n' || c == '\t' || c == '\r'
}

/// The JSON literal for `b`.
pub open spec fn json_bool_literal(b: bool) -> Seq<char> {
    if b {
        "true"@
    } else {
        "false"@
    }
}

/// `text` is the JSON literal for `b` between `before` and `after`, which are JSON whitespace.
pub open spec fn is_json_bool_between(
    text: Seq<char>,
    before: Seq<char>,
    b: bool,
    after: Seq<char>,
) -> bool {
    &&& text == before + json_bool_literal(b) + after
    &&& forall|i: int| 0 <= i < before.len() ==> is_json_whitespace(before[i])
    &&& forall|i: int| 0 <= i < after.len() ==> is_json_whitespace(after[i])
}

/// `text` is the JSON literal for `b`, with nothing but JSON whitespace around it.
pub open spec fn is_json_bool(text: Seq<char>, b: bool) -> bool {
    exists|before: Seq<char>, after: Seq<char>| is_json_bool_between(text, before, b, after)
}

/// No text is both a JSON `true` and a JSON `false`.
pub proof fn lemma_json_bool_unique(text: Seq<char>)
    ensures
        !(is_json_bool(text, true) && is_json_bool(text, false)),
{
    if is_json_bool(text, true) && is_json_bool(text, false) {
        reveal_strlit("true");
        reveal_strlit("false");
        let (before_t, after_t) = choose|before: Seq<char>, after: Seq<char>|
            is_json_bool_between(text, before, true, after);
        let (before_f, after_f) = choose|before: Seq<char>, after: Seq<char>|
            is_json_bool_between(text, before, false, after);
        // The first character that is not whitespace is a `t` and an `f` at once.
        assert(text[before_t.len() as int] == 't');
        assert(text[before_f.len() as int] == 'f');
        assert(before_t.len() < before_f.len() ==> text[before_t.len() as int]
            == before_f[before_t.len() as int]);
        assert(before_f.len() < before_t.len() ==> text[before_f.len() as int]
            == before_t[before_f.len() as int]);
    }
}

/// A JSON `true` or `false` may have any number of spaces, newlines, tabs and carriage returns
/// before and after it, and nothing else.
pub proof fn lemma_json_bool_stands_alone(text: Seq<char>)
    ensures
        is_json_bool(text, true) <==> exists|before: Seq<char>, after: Seq<char>|
            #![trigger before + "true"@ + after]
            {
                &&& text == before + "true"@ + after
                &&& forall|i: int|
                    0 <= i < before.len() ==> seq![' ', '\n', '\t', '\r'].contains(before[i])
                &&& forall|i: int|
                    0 <= i < after.len() ==> seq![' ', '\n', '\t', '\r'].contains(after[i])
            },
        is_json_bool(text, false) <==> exists|before: Seq<char>, after: Seq<char>|
            #![trigger before + "false"@ + after]
            {
                &&& text == before + "false"@ + after
                &&& forall|i: int|
                    0 <= i < before.len() ==> seq![' ', '\n', '\t', '\r'].contains(before[i])
                &&& forall|i: int|
                    0 <= i < after.len() ==> seq![' ', '\n', '\t', '\r'].contains(after[i])
            },
{
    let space = seq![' ', '\n', '\t', '\r'];
    assert forall|c: char| is_json_whitespace(c) <==> #[trigger] space.contains(c) by {
        assert(space[0] == ' ' && space[1] == '\n' && space[2] == '\t' && space[3] == '\r');
    }
    assert forall|before: Seq<char>, after: Seq<char>|
        #![trigger before + "true"@ + after]
        {
            &&& text == before + "true"@ + after
            &&& forall|i: int| 0 <= i < before.len() ==> space.contains(before[i])
            &&& forall|i: int| 0 <= i < after.len() ==> space.contains(after[i])
        } implies is_json_bool_between(text, before, true, after) by {}
    assert forall|before: Seq<char>, after: Seq<char>|
        #![trigger before + "false"@ + after]
        {
            &&& text == before + "false"@ + after
            &&& forall|i: int| 0 <= i < before.len() ==> space.contains(before[i])
            &&& forall|i: int| 0 <= i < after.len() ==> space.contains(after[i])
        } implies is_json_bool_between(text, before, false, after) by {}
}

/// The message with which `serde_json` refuses `text` as a boolean.
pub uninterp spec fn json_bool_error(text: Seq<char>) -> Seq<char>;

/// `serde_json::from_str` at type `bool`: it succeeds exactly on a JSON boolean that stands
/// alone but for whitespace, and then returns that boolean. On any other text it gives an error
/// whose message, here the result, depends on the text alone.
#[verifier::external_body]
pub(crate) fn parse_json_bool(text: &str) -> (r: Result<bool, String>)
    ensures
        match r {
            Ok(b) => is_json_bool(text@, b),
            Err(message) => {
                &&& !is_json_bool(text@, true)
                &&& !is_json_bool(text@, false)
                &&& message@ == json_bool_error(text@)
            },
        },
{
    serde_json::from_str::<bool>(text).map_err(|error| error.to_string())
}

} // verus!
