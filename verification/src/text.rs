//! Text helpers shared by the rest of the crate: splitting on a separator,
//! joining, and decimal rendering, each with its mathematical counterpart.

use vstd::prelude::*;
use vstd::string::StringExecFns;

verus! {

/// The pieces of `s` that lie between occurrences of `sep`, in order.
///
/// A text without any separator is its own single piece, and the empty text
/// has exactly one (empty) piece.
pub open spec fn split(s: Seq<char>, sep: char) -> Seq<Seq<char>>
    decreases s.len(),
{
    if s.len() == 0 {
        seq![Seq::<char>::empty()]
    } else {
        let head = split(s.drop_last(), sep);
        if s.last() == sep {
            head.push(Seq::<char>::empty())
        } else {
            head.drop_last().push(head.last().push(s.last()))
        }
    }
}

/// The pieces of `parts` written one after another with `sep` between
/// neighbours.
pub open spec fn join(parts: Seq<Seq<char>>, sep: char) -> Seq<char>
    decreases parts.len(),
{
    if parts.len() == 0 {
        Seq::<char>::empty()
    } else if parts.len() == 1 {
        parts[0]
    } else {
        join(parts.drop_last(), sep).push(sep) + parts.last()
    }
}

/// The texts held by a sequence of strings.
pub open spec fn views(v: Seq<String>) -> Seq<Seq<char>> {
    Seq::new(v.len(), |i: int| v[i]@)
}

/// Splitting always yields at least one piece.
pub proof fn lemma_split_nonempty(s: Seq<char>, sep: char)
    ensures
        split(s, sep).len() >= 1,
    decreases s.len(),
{
    if s.len() > 0 {
        lemma_split_nonempty(s.drop_last(), sep);
    }
}

/// Joining the pieces of a split gives the text back.
pub proof fn lemma_join_split(s: Seq<char>, sep: char)
    ensures
        join(split(s, sep), sep) == s,
    decreases s.len(),
{
    if s.len() == 0 {
        assert(join(split(s, sep), sep) =~= s);
    } else {
        let front = s.drop_last();
        let head = split(front, sep);
        lemma_split_nonempty(front, sep);
        lemma_join_split(front, sep);
        if s.last() == sep {
            let all = head.push(Seq::<char>::empty());
            assert(all.drop_last() =~= head);
            assert(join(all, sep) =~= s);
        } else {
            let all = head.drop_last().push(head.last().push(s.last()));
            if head.len() == 1 {
                assert(join(all, sep) =~= s);
            } else {
                assert(all.drop_last() =~= head.drop_last());
                assert(join(all, sep) =~= join(head, sep).push(s.last()));
                assert(join(all, sep) =~= s);
            }
        }
    }
}

/// A text free of the separator is a single piece.
pub proof fn lemma_split_clean(s: Seq<char>, sep: char)
    requires
        !s.contains(sep),
    ensures
        split(s, sep) == seq![s],
    decreases s.len(),
{
    if s.len() == 0 {
        assert(s =~= Seq::<char>::empty());
    } else {
        let front = s.drop_last();
        assert forall|j: int| 0 <= j < front.len() implies front[j] != sep by {
            assert(s.contains(s[j]));
        }
        assert(s.contains(s.last()));
        lemma_split_clean(front, sep);
        assert(front.push(s.last()) =~= s);
        assert(split(s, sep) =~= seq![s]);
    }
}

/// Appending a separator and a separator-free text adds exactly that text as a
/// new last piece.
pub proof fn lemma_split_append(a: Seq<char>, b: Seq<char>, sep: char)
    requires
        !b.contains(sep),
    ensures
        split(a.push(sep) + b, sep) == split(a, sep).push(b),
    decreases b.len(),
{
    let whole = a.push(sep) + b;
    if b.len() == 0 {
        assert(whole =~= a.push(sep));
        assert(whole.drop_last() =~= a);
        assert(b =~= Seq::<char>::empty());
    } else {
        let front = b.drop_last();
        assert forall|j: int| 0 <= j < front.len() implies front[j] != sep by {
            assert(b.contains(b[j]));
        }
        assert(b.contains(b.last()));
        lemma_split_append(a, front, sep);
        assert(whole.drop_last() =~= a.push(sep) + front);
        assert(whole.last() == b.last());
        let head = split(a, sep).push(front);
        assert(head.drop_last() =~= split(a, sep));
        assert(front.push(b.last()) =~= b);
    }
}

/// Splitting a join of separator-free pieces gives the pieces back.
pub proof fn lemma_split_join(parts: Seq<Seq<char>>, sep: char)
    requires
        parts.len() >= 1,
        forall|i: int| 0 <= i < parts.len() ==> !(#[trigger] parts[i]).contains(sep),
    ensures
        split(join(parts, sep), sep) == parts,
    decreases parts.len(),
{
    if parts.len() == 1 {
        lemma_split_clean(parts[0], sep);
        assert(seq![parts[0]] =~= parts);
    } else {
        let front = parts.drop_last();
        assert forall|i: int| 0 <= i < front.len() implies !(#[trigger] front[i]).contains(sep) by {
            assert(front[i] == parts[i]);
        }
        lemma_split_join(front, sep);
        lemma_split_append(join(front, sep), parts.last(), sep);
        assert(front.push(parts.last()) =~= parts);
    }
}

/// Appends one character to a string, by `String::push`: the text grows by
/// exactly that character at its end.
#[verifier::external_body]
fn push_char(s: &mut String, c: char)
    ensures
        final(s)@ == old(s)@.push(c),
{
    s.push(c);
}

/// Splits `s` on every occurrence of `sep`.
pub fn split_on(s: &str, sep: char) -> (parts: Vec<String>)
    ensures
        views(parts@) == split(s@, sep),
{
    let mut parts: Vec<String> = Vec::new();
    let mut cur = String::new();
    for c in it: s.chars()
        invariant
            it.seq() == s@,
            views(parts@).push(cur@) == split(s@.take(it.index() as int), sep),
    {
        let ghost done = s@.take(it.index() as int);
        let ghost next = s@.take(it.index() + 1);
        proof {
            assert(next.drop_last() =~= done);
            assert(next.last() == c);
        }
        if c == sep {
            let ghost before = views(parts@);
            parts.push(cur);
            cur = String::new();
            proof {
                assert(views(parts@) =~= before.push(split(done, sep).last()));
                assert(views(parts@).push(cur@) =~= split(next, sep));
            }
        } else {
            let ghost before = cur@;
            push_char(&mut cur, c);
            proof {
                let head = split(done, sep);
                assert(head.drop_last() =~= views(parts@));
                assert(head.last() == before);
                assert(views(parts@).push(cur@) =~= split(next, sep));
            }
        }
    }
    proof {
        assert(s@.take(s@.len() as int) =~= s@);
    }
    let ghost before = views(parts@);
    parts.push(cur);
    proof {
        assert(views(parts@) =~= before.push(cur@));
    }
    parts
}

/// The character that writes the decimal digit `d`.
pub open spec fn digit_char(d: int) -> char {
    if d == 0 {
        '0'
    } else if d == 1 {
        '1'
    } else if d == 2 {
        '2'
    } else if d == 3 {
        '3'
    } else if d == 4 {
        '4'
    } else if d == 5 {
        '5'
    } else if d == 6 {
        '6'
    } else if d == 7 {
        '7'
    } else if d == 8 {
        '8'
    } else {
        '9'
    }
}

/// The decimal numeral of `n`, without sign or leading zeros.
pub open spec fn decimal(n: nat) -> Seq<char>
    decreases n,
{
    if n < 10 {
        seq![digit_char(n as int)]
    } else {
        decimal(n / 10).push(digit_char((n % 10) as int))
    }
}

fn digit(d: u64) -> (c: char)
    requires
        d < 10,
    ensures
        c == digit_char(d as int),
{
    if d == 0 {
        '0'
    } else if d == 1 {
        '1'
    } else if d == 2 {
        '2'
    } else if d == 3 {
        '3'
    } else if d == 4 {
        '4'
    } else if d == 5 {
        '5'
    } else if d == 6 {
        '6'
    } else if d == 7 {
        '7'
    } else if d == 8 {
        '8'
    } else {
        '9'
    }
}

/// Writes `n` in decimal.
pub fn decimal_string(n: u64) -> (s: String)
    ensures
        s@ == decimal(n as nat),
    decreases n,
{
    if n < 10 {
        let mut s = String::new();
        push_char(&mut s, digit(n));
        assert(s@ =~= seq![digit_char(n as int)]);
        s
    } else {
        let mut s = decimal_string(n / 10);
        push_char(&mut s, digit(n % 10));
        s
    }
}

/// True when `s` ends with the character `c`.
pub open spec fn ends_with(s: Seq<char>, c: char) -> bool {
    s.len() > 0 && s.last() == c
}

/// `s` without one trailing `c`, if it has one.
pub open spec fn trim_one(s: Seq<char>, c: char) -> Seq<char> {
    if ends_with(s, c) {
        s.drop_last()
    } else {
        s
    }
}

/// Removes one trailing `c` from `s`, if there is one.
pub fn without_trailing(s: &str, c: char) -> (r: String)
    ensures
        r@ == trim_one(s@, c),
{
    let mut r = String::new();
    let mut held: Option<char> = None;
    for x in it: s.chars()
        invariant
            it.seq() == s@,
            it.index() == 0 ==> held is None && r@.len() == 0,
            it.index() > 0 ==> held == Some(s@[it.index() - 1]) && r@ == s@.take(it.index() - 1),
    {
        match held {
            Some(prev) => {
                push_char(&mut r, prev);
                assert(r@ =~= s@.take(it.index() as int));
            },
            None => {
                assert(r@ =~= s@.take(0));
            },
        }
        held = Some(x);
    }
    match held {
        Some(last) => {
            assert(s@.take(s@.len() - 1) =~= s@.drop_last());
            if last != c {
                push_char(&mut r, last);
                assert(r@ =~= s@);
            }
        },
        None => {
            assert(r@ =~= s@);
        },
    }
    r
}

/// True when the two texts are the same.
pub fn same_text(a: &str, b: &str) -> (same: bool)
    ensures
        same == (a@ == b@),
{
    let x = String::from_str(a);
    let y = String::from_str(b);
    x == y
}

} // verus!
