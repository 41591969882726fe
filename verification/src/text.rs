//! Strings as sequences of characters: what the rest of the crate needs of
//! joining, cutting and comparing them, with contracts over `Seq<char>`.
use crate::stdx::str_from_utf8;
use vstd::prelude::*;
use vstd::std_specs::iter::IteratorSpec;
use vstd::string::StringExecFns;
use vstd::utf8::{decode_utf8, valid_utf8};

verus! {

/// The character sequences held by a sequence of strings.
pub open spec fn texts(items: Seq<String>) -> Seq<Seq<char>> {
    items.map_values(|s: String| s@)
}

/// The character sequences held by a sequence of string pairs.
pub open spec fn pairs(items: Seq<(String, String)>) -> Seq<(Seq<char>, Seq<char>)> {
    items.map_values(|p: (String, String)| (p.0@, p.1@))
}

/// What an optional string holds.
pub open spec fn opt_text(o: Option<String>) -> Option<Seq<char>> {
    match o {
        Some(s) => Some(s@),
        None => None,
    }
}

/// What an optional list of strings holds.
pub open spec fn opt_texts(o: Option<Vec<String>>) -> Option<Seq<Seq<char>>> {
    match o {
        Some(v) => Some(texts(v@)),
        None => None,
    }
}

/// The items of `items` written one after another with `sep` between neighbours.
pub open spec fn joined(items: Seq<Seq<char>>, sep: Seq<char>) -> Seq<char>
    decreases items.len(),
{
    if items.len() == 0 {
        Seq::empty()
    } else if items.len() == 1 {
        items[0]
    } else {
        joined(items.drop_last(), sep) + sep + items.last()
    }
}

/// `i` is the first place in `items` whose item meets `pred`.
pub open spec fn is_first(
    items: Seq<Seq<char>>,
    pred: spec_fn(Seq<char>) -> bool,
    i: int,
) -> bool {
    &&& 0 <= i < items.len()
    &&& pred(items[i])
    &&& forall|j: int| 0 <= j < i ==> !pred(#[trigger] items[j])
}

/// The first place in `items` whose item meets `pred`, if there is one.
pub open spec fn first_where(
    items: Seq<Seq<char>>,
    pred: spec_fn(Seq<char>) -> bool,
) -> Option<int> {
    if exists|i: int| is_first(items, pred, i) {
        Some(choose|i: int| is_first(items, pred, i))
    } else {
        None
    }
}

/// The first place at which `x` stands in `items`, if there is one.
pub open spec fn position(items: Seq<Seq<char>>, x: Seq<char>) -> Option<int> {
    first_where(items, |t: Seq<char>| t == x)
}

/// `first_where` is the one place that is first, and `None` exactly when no
/// item meets `pred`.
pub proof fn lemma_first_where(items: Seq<Seq<char>>, pred: spec_fn(Seq<char>) -> bool)
    ensures
        match first_where(items, pred) {
            Some(i) => is_first(items, pred, i),
            None => forall|j: int| 0 <= j < items.len() ==> !pred(#[trigger] items[j]),
        },
        forall|i: int| is_first(items, pred, i) ==> first_where(items, pred) == Some(i),
{
    if exists|i: int| is_first(items, pred, i) {
        let p = choose|i: int| is_first(items, pred, i);
        assert forall|i: int| is_first(items, pred, i) implies p == i by {
            if i < p {
                assert(!pred(items[i]));
            } else if p < i {
                assert(!pred(items[p]));
            }
        }
    } else {
        assert forall|j: int| 0 <= j < items.len() implies !pred(#[trigger] items[j]) by {
            if pred(items[j]) {
                lemma_some_first(items, pred, j + 1);
            }
        }
    }
}

/// Where an item among the first `n` meets `pred`, some such item is the
/// first.
proof fn lemma_some_first(items: Seq<Seq<char>>, pred: spec_fn(Seq<char>) -> bool, n: int)
    requires
        0 <= n <= items.len(),
        exists|i: int| 0 <= i < n && pred(#[trigger] items[i]),
    ensures
        exists|i: int| is_first(items, pred, i),
    decreases n,
{
    if exists|i: int| 0 <= i < n - 1 && pred(#[trigger] items[i]) {
        lemma_some_first(items, pred, n - 1);
    } else {
        assert(is_first(items, pred, n - 1));
    }
}

/// Joins the strings of `items`, writing `sep` between neighbours.
pub fn join(items: &[String], sep: &str) -> (out: String)
    ensures
        out@ == joined(texts(items@), sep@),
{
    let mut out = String::new();
    let mut i: usize = 0;
    while i < items.len()
        invariant
            i <= items.len(),
            out@ == joined(texts(items@).take(i as int), sep@),
        decreases items.len() - i,
    {
        proof {
            let now = texts(items@).take(i + 1);
            assert(now.drop_last() =~= texts(items@).take(i as int));
        }
        if i > 0 {
            out.append(sep);
        }
        out.append(items[i].as_str());
        i += 1;
    }
    proof {
        assert(texts(items@).take(items.len() as int) =~= texts(items@));
    }
    out
}

/// Finds the first string of `items` that equals `x`.
pub fn find(items: &[String], x: &String) -> (found: Option<usize>)
    ensures
        match found {
            Some(i) => i < items.len() && position(texts(items@), x@) == Some(i as int),
            None => position(texts(items@), x@) is None,
        },
{
    let mut i: usize = 0;
    while i < items.len()
        invariant
            i <= items.len(),
            forall|j: int| 0 <= j < i ==> texts(items@)[j] != x@,
        decreases items.len() - i,
    {
        if items[i] == *x {
            proof {
                let pred = |t: Seq<char>| t == x@;
                assert(is_first(texts(items@), pred, i as int));
            }
            return Some(i);
        }
        i += 1;
    }
    None
}

/// Whether some string of `items` equals `x`.
pub fn contains(items: &[String], x: &String) -> (found: bool)
    ensures
        found == texts(items@).contains(x@),
{
    let at = find(items, x);
    proof {
        lemma_first_where(texts(items@), |t: Seq<char>| t == x@);
    }
    at.is_some()
}

/// `t` without one line end at its end: a final `\n`, and the `\r` before
/// it if there is one.
pub open spec fn without_newline(t: Seq<char>) -> Seq<char> {
    if t.len() > 0 && t.last() == '\n' {
        let u = t.drop_last();
        if u.len() > 0 && u.last() == '\r' {
            u.drop_last()
        } else {
            u
        }
    } else {
        t
    }
}

/// The pieces into which the occurrences of `sep` cut `t`. There is one
/// piece more than there are occurrences, so the result is never empty.
pub open spec fn split(t: Seq<char>, sep: char) -> Seq<Seq<char>>
    decreases t.len(),
{
    if t.len() == 0 {
        seq![Seq::empty()]
    } else {
        let head = split(t.drop_last(), sep);
        if t.last() == sep {
            head.push(Seq::empty())
        } else {
            head.drop_last().push(head.last().push(t.last()))
        }
    }
}

/// Cutting undoes joining: the pieces of `t`, joined with `sep` between
/// them, are `t` again, and `sep` stands in none of them.
pub proof fn law_split_joined(t: Seq<char>, sep: char)
    ensures
        split(t, sep).len() >= 1,
        joined(split(t, sep), seq![sep]) == t,
        forall|i: int| 0 <= i < split(t, sep).len() ==> !(#[trigger] split(t, sep)[i]).contains(sep),
    decreases t.len(),
{
    if t.len() > 0 {
        let rest = t.drop_last();
        let head = split(rest, sep);
        let pieces = split(t, sep);
        law_split_joined(rest, sep);
        if t.last() == sep {
            assert(pieces.drop_last() =~= head);
        } else {
            let grown = head.last().push(t.last());
            assert(pieces.drop_last() =~= head.drop_last());
            if head.len() > 1 {
                let before = joined(head.drop_last(), seq![sep]);
                assert(before + seq![sep] + grown =~= (before + seq![sep] + head.last()).push(
                    t.last(),
                ));
            }
            assert(!grown.contains(sep)) by {
                if grown.contains(sep) {
                    let k = choose|k: int| 0 <= k < grown.len() && grown[k] == sep;
                    assert(head.last()[k] == sep);
                }
            }
        }
    }
}

/// The characters of `t` that are not `c`, in their order.
pub open spec fn without_char(t: Seq<char>, c: char) -> Seq<char> {
    t.filter(|x: char| x != c)
}

/// The characters of `s`, one by one.
pub fn chars_of(s: &str) -> (out: Vec<char>)
    ensures
        out@ == s@,
{
    let mut out: Vec<char> = Vec::new();
    let mut it = s.chars();
    loop
        invariant
            it.obeys_prophetic_iter_laws(),
            out@ + it.remaining() == s@,
            it.decrease() is Some,
        ensures
            out@ == s@,
        decreases it.decrease()->0,
    {
        match it.next() {
            Some(c) => {
                out.push(c);
            },
            None => {
                break;
            },
        }
    }
    out
}

/// The string made of the characters of `chars` from `from` up to `to`.
pub fn string_of(chars: &Vec<char>, from: usize, to: usize) -> (out: String)
    requires
        from <= to <= chars.len(),
    ensures
        out@ == chars@.subrange(from as int, to as int),
{
    let mut out = String::new();
    let mut i: usize = from;
    while i < to
        invariant
            from <= i <= to <= chars.len(),
            out@ == chars@.subrange(from as int, i as int),
        decreases to - i,
    {
        out.push(chars[i]);
        i += 1;
    }
    out
}

/// Whether `s` begins with `prefix`.
pub fn starts_with(s: &str, prefix: &str) -> (yes: bool)
    ensures
        yes == prefix@.is_prefix_of(s@),
{
    let text = chars_of(s);
    let head = chars_of(prefix);
    if head.len() > text.len() {
        return false;
    }
    let mut i: usize = 0;
    while i < head.len()
        invariant
            i <= head.len() <= text.len(),
            text@ == s@,
            head@ == prefix@,
            forall|j: int| 0 <= j < i ==> head@[j] == text@[j],
        decreases head.len() - i,
    {
        if head[i] != text[i] {
            return false;
        }
        i += 1;
    }
    true
}

/// What follows `prefix` in `s`, where `s` begins with it.
pub fn strip_prefix(s: &str, prefix: &str) -> (rest: Option<String>)
    ensures
        rest is Some <==> prefix@.is_prefix_of(s@),
        rest is Some ==> rest->0@ == s@.skip(prefix@.len() as int),
{
    if starts_with(s, prefix) {
        let text = chars_of(s);
        let head = chars_of(prefix);
        Some(string_of(&text, head.len(), text.len()))
    } else {
        None
    }
}

/// Removes one line end from the end of `s`: a final `\n`, and the `\r`
/// before it if there is one.
pub fn trim_newline(s: &mut String)
    ensures
        final(s)@ == without_newline(old(s)@),
{
    let text = chars_of(s.as_str());
    let n = text.len();
    if n > 0 && text[n - 1] == '\n' {
        if n > 1 && text[n - 2] == '\r' {
            *s = string_of(&text, 0, n - 2);
        } else {
            *s = string_of(&text, 0, n - 1);
        }
    }
}

/// Decodes `msg` as UTF-8 and removes one line end from its end. Bytes
/// that are not valid UTF-8 give `None`.
pub fn to_string(msg: Vec<u8>) -> (out: Option<String>)
    ensures
        out is Some <==> valid_utf8(msg@),
        out is Some ==> out->0@ == without_newline(decode_utf8(msg@)),
{
    match str_from_utf8(msg.as_slice()) {
        Some(text) => {
            let mut result = text.to_string();
            trim_newline(&mut result);
            Some(result)
        },
        None => None,
    }
}

/// Cuts `s` at every occurrence of `sep`.
pub fn split_at_char(s: &str, sep: char) -> (out: Vec<String>)
    ensures
        texts(out@) == split(s@, sep),
{
    let text = chars_of(s);
    let mut out: Vec<String> = Vec::new();
    let mut start: usize = 0;
    let mut i: usize = 0;
    proof {
        assert(text@.take(0) =~= Seq::<char>::empty());
    }
    while i < text.len()
        invariant
            start <= i <= text.len(),
            split(text@.take(i as int), sep) == texts(out@).push(
                text@.subrange(start as int, i as int),
            ),
        decreases text.len() - i,
    {
        proof {
            let now = text@.take(i + 1);
            assert(now.drop_last() =~= text@.take(i as int));
        }
        if text[i] == sep {
            let piece = string_of(&text, start, i);
            out.push(piece);
            start = i + 1;
            assert(text@.subrange(start as int, i + 1) =~= Seq::<char>::empty());
        } else {
            assert(text@.subrange(start as int, i + 1) =~= text@.subrange(
                start as int,
                i as int,
            ).push(text@[i as int]));
        }
        i += 1;
    }
    let piece = string_of(&text, start, text.len());
    out.push(piece);
    proof {
        assert(text@.take(text@.len() as int) =~= text@);
    }
    out
}

/// `s` without the occurrences of `c`.
pub fn remove_char(s: &str, c: char) -> (out: String)
    ensures
        out@ == without_char(s@, c),
{
    let text = chars_of(s);
    let mut out = String::new();
    let mut i: usize = 0;
    while i < text.len()
        invariant
            i <= text.len(),
            out@ == without_char(text@.take(i as int), c),
        decreases text.len() - i,
    {
        proof {
            reveal(Seq::filter);
            let now = text@.take(i + 1);
            assert(now.drop_last() =~= text@.take(i as int));
        }
        if text[i] != c {
            out.push(text[i]);
        }
        i += 1;
    }
    assert(text@.take(text@.len() as int) =~= text@);
    out
}

} // verus!
