//! Text helpers shared by the parsers and the fact compiler.

use vstd::prelude::*;
use vstd::string::*;
use vstd::utf8::*;

verus! {

/// The views of a sequence of values, element by element.
pub open spec fn views<T: View>(items: Seq<T>) -> Seq<T::V> {
    items.map_values(|item: T| item@)
}

/// The characters of `s`, one element per Unicode scalar value.
pub fn chars_of(s: &str) -> (out: Vec<char>)
    ensures
        out@ == s@,
{
    broadcast use vstd::string::group_string_axioms;

    let mut out: Vec<char> = Vec::new();
    for c in it: s.chars()
        invariant
            it.seq() == s@,
            out@ == it.seq().take(it.index()),
    {
        assert(it.seq().take(it.index()).push(c) =~= it.seq().take(it.index() + 1));
        out.push(c);
    }
    assert(s@.take(s@.len() as int) =~= s@);
    out
}

/// Appends one character to a string.
///
/// Trusted: wraps `String::push`, which appends the given character to the
/// end of the string.
#[verifier::external_body]
fn push_char(s: &mut String, c: char)
    ensures
        final(s)@ == old(s)@.push(c),
{
    s.push(c)
}

/// The string made of the characters of `chars`, in order.
pub fn string_of(chars: &Vec<char>) -> (out: String)
    ensures
        out@ == chars@,
{
    let mut out = String::new();
    let mut i: usize = 0;
    assert(chars@.take(0) =~= out@);
    while i < chars.len()
        invariant
            i <= chars.len(),
            out@ == chars@.take(i as int),
        decreases chars.len() - i,
    {
        assert(chars@.take(i as int).push(chars@[i as int]) =~= chars@.take(i + 1));
        push_char(&mut out, chars[i]);
        i += 1;
    }
    assert(chars@.take(i as int) =~= chars@);
    out
}

/// Whether two string slices hold the same characters.
pub fn str_eq(a: &str, b: &str) -> (same: bool)
    ensures
        same == (a@ == b@),
{
    let x = a.as_bytes();
    let y = b.as_bytes();
    proof {
        encode_utf8_decode_utf8(a@);
        encode_utf8_decode_utf8(b@);
    }
    if x.len() != y.len() {
        return false;
    }
    let mut i: usize = 0;
    while i < x.len()
        invariant
            i <= x.len(),
            x.len() == y.len(),
            x@ == a.spec_bytes(),
            y@ == b.spec_bytes(),
            forall|k: int| 0 <= k < i ==> x@[k] == y@[k],
        decreases x.len() - i,
    {
        if x[i] != y[i] {
            assert(x@[i as int] != y@[i as int]);
            return false;
        }
        i += 1;
    }
    assert(x@ =~= y@);
    true
}

/// Whether `items` holds a string equal to `wanted`.
pub fn contains_str(items: &Vec<String>, wanted: &str) -> (found: bool)
    ensures
        found == views(items@).contains(wanted@),
{
    let mut i: usize = 0;
    while i < items.len()
        invariant
            i <= items.len(),
            forall|k: int| 0 <= k < i ==> views(items@)[k] != wanted@,
        decreases items.len() - i,
    {
        if str_eq(items[i].as_str(), wanted) {
            assert(views(items@)[i as int] == wanted@);
            return true;
        }
        i += 1;
    }
    false
}

/// The view of an optional string.
pub open spec fn opt_view(value: Option<String>) -> Option<Seq<char>> {
    match value {
        Some(s) => Some(s@),
        None => None,
    }
}

/// A copy of an optional string.
pub fn clone_opt(value: &Option<String>) -> (out: Option<String>)
    ensures
        out == *value,
{
    match value {
        Some(s) => Some(s.clone()),
        None => None,
    }
}

/// A copy of a list of strings.
pub fn clone_strings(items: &Vec<String>) -> (out: Vec<String>)
    ensures
        out@ == items@,
{
    let mut out: Vec<String> = Vec::new();
    let mut i: usize = 0;
    while i < items.len()
        invariant
            i <= items.len(),
            out@.len() == i,
            forall|k: int| 0 <= k < i ==> out@[k] == items@[k],
        decreases items.len() - i,
    {
        out.push(items[i].clone());
        i += 1;
    }
    assert(out@ =~= items@);
    out
}



/// The position of the first `wanted` in `s`, or the length of `s` if it
/// holds none.
pub open spec fn spec_find(s: Seq<char>, wanted: char) -> int
    decreases s.len(),
{
    if s.len() == 0 {
        0
    } else if s[0] == wanted {
        0
    } else {
        1 + spec_find(s.skip(1), wanted)
    }
}

/// The pieces of `s` between occurrences of `separator`. A text without
/// separator is one piece; a separator at the end leaves an empty last piece.
pub open spec fn spec_split(s: Seq<char>, separator: char) -> Seq<Seq<char>>
    decreases s.len(),
{
    let cut = spec_find(s, separator);
    if 0 <= cut < s.len() {
        seq![s.take(cut)] + spec_split(s.skip(cut + 1), separator)
    } else {
        seq![s]
    }
}

/// Searching a text that starts with a piece free of the wanted character
/// finds what the rest holds, shifted by the piece's length.
pub proof fn lemma_find_after(head: Seq<char>, rest: Seq<char>, wanted: char)
    requires
        forall|k: int| 0 <= k < head.len() ==> head[k] != wanted,
    ensures
        spec_find(head + rest, wanted) == head.len() + spec_find(rest, wanted),
    decreases head.len(),
{
    if head.len() == 0 {
        assert(head + rest =~= rest);
    } else {
        let whole = head + rest;
        assert(whole[0] == head[0]);
        assert(whole.skip(1) =~= head.skip(1) + rest);
        assert forall|k: int| 0 <= k < head.skip(1).len() implies head.skip(1)[k] != wanted by {
            assert(head.skip(1)[k] == head[k + 1]);
        }
        lemma_find_after(head.skip(1), rest, wanted);
    }
}

/// Splits `text` at every `separator`.
pub fn split(text: &str, separator: char) -> (pieces: Vec<String>)
    ensures
        views(pieces@) == spec_split(text@, separator),
{
    let chars = chars_of(text);
    let mut pieces: Vec<String> = Vec::new();
    let mut current: Vec<char> = Vec::new();
    let mut i: usize = 0;
    proof {
        assert(current@ + chars@.skip(0) =~= text@);
        assert(views(pieces@) =~= Seq::<Seq<char>>::empty());
    }
    while i < chars.len()
        invariant
            i <= chars.len(),
            chars@ == text@,
            forall|k: int| 0 <= k < current@.len() ==> current@[k] != separator,
            spec_split(text@, separator) == views(pieces@) + spec_split(
                current@ + chars@.skip(i as int),
                separator,
            ),
        decreases chars.len() - i,
    {
        let c = chars[i];
        let ghost rest = chars@.skip(i as int);
        let ghost whole = current@ + rest;
        proof {
            lemma_find_after(current@, rest, separator);
            assert(rest[0] == c);
            assert(rest.skip(1) =~= chars@.skip(i + 1));
        }
        if c == separator {
            let piece = string_of(&current);
            proof {
                assert(spec_find(rest, separator) == 0);
                assert(whole.take(current@.len() as int) =~= current@);
                assert(whole.skip(current@.len() as int + 1) =~= chars@.skip(i + 1));
                assert(Seq::<char>::empty() + chars@.skip(i + 1) =~= chars@.skip(i + 1));
                assert(views(pieces@.push(piece)) =~= views(pieces@) + seq![current@]);
            }
            pieces.push(piece);
            current = Vec::new();
        } else {
            proof {
                assert(current@.push(c) + chars@.skip(i + 1) =~= whole);
            }
            current.push(c);
        }
        i += 1;
    }
    let piece = string_of(&current);
    proof {
        assert(chars@.skip(i as int) =~= Seq::<char>::empty());
        assert(current@ + chars@.skip(i as int) =~= current@);
        lemma_find_after(current@, Seq::<char>::empty(), separator);
        assert(current@ + Seq::<char>::empty() =~= current@);
        assert(views(pieces@.push(piece)) =~= views(pieces@) + seq![current@]);
    }
    pieces.push(piece);
    pieces
}



/// The ASCII digit that stands for `d`.
pub open spec fn spec_digit_char(d: int) -> char
    recommends
        0 <= d < 10,
{
    ((d + 48) as u8) as char
}

/// The decimal digits of a natural number, most significant first.
pub open spec fn spec_digits(n: nat) -> Seq<char>
    decreases n,
{
    if n < 10 {
        seq![spec_digit_char(n as int)]
    } else {
        spec_digits(n / 10).push(spec_digit_char((n % 10) as int))
    }
}

/// The decimal rendering of an integer, with a minus sign if it is negative.
pub open spec fn spec_decimal(n: int) -> Seq<char> {
    if n < 0 {
        seq!['-'] + spec_digits((-n) as nat)
    } else {
        spec_digits(n as nat)
    }
}

fn digit_char(d: u64) -> (c: char)
    requires
        d < 10,
    ensures
        c == spec_digit_char(d as int),
{
    ((d + 48) as u8) as char
}

/// The decimal rendering of `n`.
pub fn decimal(n: i64) -> (out: String)
    ensures
        out@ == spec_decimal(n as int),
{
    let magnitude: u64 = if n < 0 {
        ((-(n as i128)) as u64)
    } else {
        n as u64
    };
    // Least significant digit first.
    let mut reversed: Vec<char> = Vec::new();
    let mut rest: u64 = magnitude;
    while rest >= 10
        invariant
            spec_digits(magnitude as nat) == spec_digits(rest as nat) + reversed@.reverse(),
        decreases rest,
    {
        let d = digit_char(rest % 10);
        proof {
            assert(spec_digits(rest as nat) == spec_digits((rest / 10) as nat).push(d));
            assert(reversed@.push(d).reverse() =~= seq![d] + reversed@.reverse());
            assert(spec_digits((rest / 10) as nat).push(d) + reversed@.reverse() =~= spec_digits(
                (rest / 10) as nat,
            ) + reversed@.push(d).reverse());
        }
        reversed.push(d);
        rest = rest / 10;
    }
    let last = digit_char(rest);
    proof {
        assert(reversed@.push(last).reverse() =~= seq![last] + reversed@.reverse());
    }
    reversed.push(last);
    let mut chars: Vec<char> = Vec::new();
    if n < 0 {
        chars.push('-');
    }
    let ghost sign = chars@;
    let mut i: usize = reversed.len();
    while i > 0
        invariant
            i <= reversed.len(),
            chars@ == sign + reversed@.reverse().take(reversed.len() - i),
        decreases i,
    {
        i -= 1;
        proof {
            let r = reversed@.reverse();
            let k = reversed.len() - i - 1;
            assert(r[k] == reversed@[i as int]);
            assert(r.take(k + 1) =~= r.take(k).push(r[k]));
            assert((sign + r.take(k)).push(r[k]) =~= sign + r.take(k + 1));
        }
        chars.push(reversed[i]);
    }
    proof {
        let r = reversed@.reverse();
        assert(r.take(reversed.len() as int) =~= r);
        assert(Seq::<char>::empty() + r =~= r);
    }
    string_of(&chars)
}

/// Whether `s` begins with `prefix`.
pub open spec fn spec_starts_with(s: Seq<char>, prefix: Seq<char>) -> bool {
    s.len() >= prefix.len() && s.take(prefix.len() as int) == prefix
}

/// If the characters from position `from` on begin with `prefix`, the
/// position just behind it.
pub fn strip_prefix(chars: &Vec<char>, from: usize, prefix: &str) -> (next: Option<usize>)
    requires
        from <= chars.len(),
    ensures
        next is Some <==> spec_starts_with(chars@.skip(from as int), prefix@),
        next matches Some(n) ==> n == from + prefix@.len(),
{
    let wanted = chars_of(prefix);
    if chars.len() - from < wanted.len() {
        return None;
    }
    let ghost rest = chars@.skip(from as int);
    let mut i: usize = 0;
    while i < wanted.len()
        invariant
            i <= wanted.len(),
            from + wanted.len() <= chars.len(),
            rest == chars@.skip(from as int),
            wanted@ == prefix@,
            forall|k: int| 0 <= k < i ==> rest[k] == wanted@[k],
        decreases wanted.len() - i,
    {
        if chars[from + i] != wanted[i] {
            assert(rest.take(wanted@.len() as int)[i as int] != wanted@[i as int]);
            return None;
        }
        i += 1;
    }
    assert(rest.take(wanted@.len() as int) =~= wanted@);
    Some(from + wanted.len())
}

/// The string made of the characters from position `from` up to `to`.
pub fn substring(chars: &Vec<char>, from: usize, to: usize) -> (out: String)
    requires
        from <= to <= chars.len(),
    ensures
        out@ == chars@.subrange(from as int, to as int),
{
    let mut piece: Vec<char> = Vec::new();
    let mut i: usize = from;
    while i < to
        invariant
            from <= i <= to <= chars.len(),
            piece@ == chars@.subrange(from as int, i as int),
        decreases to - i,
    {
        proof {
            assert(chars@.subrange(from as int, i as int).push(chars@[i as int]) =~= chars@.subrange(
                from as int,
                i + 1,
            ));
        }
        piece.push(chars[i]);
        i += 1;
    }
    string_of(&piece)
}



/// `replacement` put behind every character of `s`.
pub open spec fn spec_interleave(s: Seq<char>, replacement: Seq<char>) -> Seq<char>
    decreases s.len(),
{
    if s.len() == 0 {
        Seq::empty()
    } else {
        seq![s[0]] + replacement + spec_interleave(s.skip(1), replacement)
    }
}

/// `s` with every occurrence of a non-empty `pattern` replaced, the
/// occurrences found from the left and not overlapping.
pub open spec fn spec_replace_each(
    s: Seq<char>,
    pattern: Seq<char>,
    replacement: Seq<char>,
) -> Seq<char>
    decreases s.len(),
{
    if pattern.len() == 0 || s.len() < pattern.len() {
        s
    } else if s.take(pattern.len() as int) == pattern {
        replacement + spec_replace_each(s.skip(pattern.len() as int), pattern, replacement)
    } else {
        seq![s[0]] + spec_replace_each(s.skip(1), pattern, replacement)
    }
}

/// `s` with every occurrence of `pattern` replaced by `replacement`. The
/// empty pattern occurs before every character and at the end.
pub open spec fn spec_replace(s: Seq<char>, pattern: Seq<char>, replacement: Seq<char>) -> Seq<
    char,
> {
    if pattern.len() == 0 {
        replacement + spec_interleave(s, replacement)
    } else {
        spec_replace_each(s, pattern, replacement)
    }
}

fn push_all(out: &mut Vec<char>, chars: &Vec<char>)
    ensures
        final(out)@ == old(out)@ + chars@,
{
    let mut i: usize = 0;
    let ghost before = out@;
    assert(before + chars@.take(0) =~= before);
    while i < chars.len()
        invariant
            i <= chars.len(),
            out@ == before + chars@.take(i as int),
        decreases chars.len() - i,
    {
        assert((before + chars@.take(i as int)).push(chars@[i as int]) =~= before + chars@.take(
            i + 1,
        ));
        out.push(chars[i]);
        i += 1;
    }
    assert(chars@.take(i as int) =~= chars@);
}

/// `text` with every occurrence of `pattern` replaced by `replacement`.
pub fn replace(text: &str, pattern: &str, replacement: &str) -> (out: String)
    ensures
        out@ == spec_replace(text@, pattern@, replacement@),
{
    let chars = chars_of(text);
    let wanted = chars_of(pattern);
    let fresh = chars_of(replacement);
    let mut out: Vec<char> = Vec::new();
    let mut i: usize = 0;
    if wanted.len() == 0 {
        push_all(&mut out, &fresh);
        let ghost head = out@;
        proof {
            assert(chars@.skip(0) =~= chars@);
            assert(Seq::<char>::empty() + fresh@ =~= fresh@);
        }
        while i < chars.len()
            invariant
                i <= chars.len(),
                chars@ == text@,
                fresh@ == replacement@,
                fresh@ + spec_interleave(chars@, fresh@) == out@ + spec_interleave(
                    chars@.skip(i as int),
                    fresh@,
                ),
            decreases chars.len() - i,
        {
            let ghost before = out@;
            let ghost tail = chars@.skip(i as int);
            out.push(chars[i]);
            push_all(&mut out, &fresh);
            proof {
                assert(tail.skip(1) =~= chars@.skip(i + 1));
                assert(before + (seq![tail[0]] + fresh@ + spec_interleave(tail.skip(1), fresh@))
                    =~= before.push(chars@[i as int]) + fresh@ + spec_interleave(
                    tail.skip(1),
                    fresh@,
                ));
            }
            i += 1;
        }
        proof {
            assert(out@ + Seq::<char>::empty() =~= out@);
        }
        return string_of(&out);
    }
    proof {
        assert(chars@.skip(0) =~= chars@);
        assert(Seq::<char>::empty() + spec_replace_each(chars@, wanted@, fresh@)
            =~= spec_replace_each(chars@, wanted@, fresh@));
    }
    while i < chars.len()
        invariant
            i <= chars.len(),
            wanted.len() > 0,
            chars@ == text@,
            wanted@ == pattern@,
            fresh@ == replacement@,
            spec_replace_each(chars@, wanted@, fresh@) == out@ + spec_replace_each(
                chars@.skip(i as int),
                wanted@,
                fresh@,
            ),
        decreases chars.len() - i,
    {
        let ghost before = out@;
        let ghost tail = chars@.skip(i as int);
        match strip_prefix(&chars, i, pattern) {
            Some(next) => {
                push_all(&mut out, &fresh);
                proof {
                    assert(tail.skip(wanted@.len() as int) =~= chars@.skip(next as int));
                    assert(before + (fresh@ + spec_replace_each(
                        tail.skip(wanted@.len() as int),
                        wanted@,
                        fresh@,
                    )) =~= before + fresh@ + spec_replace_each(
                        tail.skip(wanted@.len() as int),
                        wanted@,
                        fresh@,
                    ));
                }
                i = next;
            },
            None => {
                out.push(chars[i]);
                proof {
                    assert(tail.skip(1) =~= chars@.skip(i + 1));
                    if tail.len() >= wanted@.len() {
                        assert(before + (seq![tail[0]] + spec_replace_each(
                            tail.skip(1),
                            wanted@,
                            fresh@,
                        )) =~= before.push(chars@[i as int]) + spec_replace_each(
                            tail.skip(1),
                            wanted@,
                            fresh@,
                        ));
                    } else {
                        lemma_replace_short(tail, wanted@, fresh@);
                        lemma_replace_short(tail.skip(1), wanted@, fresh@);
                        assert(before + tail =~= before.push(chars@[i as int]) + tail.skip(1));
                    }
                }
                i += 1;
            },
        }
    }
    proof {
        assert(chars@.skip(i as int) =~= Seq::<char>::empty());
        assert(out@ + Seq::<char>::empty() =~= out@);
    }
    string_of(&out)
}

/// A text shorter than the pattern holds no occurrence of it.
pub proof fn lemma_replace_short(s: Seq<char>, pattern: Seq<char>, replacement: Seq<char>)
    requires
        s.len() < pattern.len(),
    ensures
        spec_replace_each(s, pattern, replacement) == s,
{
}

} // verus!
