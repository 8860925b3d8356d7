//! Escaping of the text fields of the `WIFI:` payload, and what it guarantees.

use vstd::prelude::*;

use crate::text::push_char;

verus! {

/// The characters that carry meaning inside a field of the `WIFI:` payload.
pub open spec fn is_special(c: char) -> bool {
    c == '\\' || c == ';' || c == ',' || c == '"' || c == ':'
}

/// What one input character becomes: itself, after a backslash if it is special.
pub open spec fn escaped_char(c: char) -> Seq<char> {
    if is_special(c) {
        seq!['\\', c]
    } else {
        seq![c]
    }
}

/// The escaped form of `s`, character by character from the left.
pub open spec fn escaped(s: Seq<char>) -> Seq<char>
    decreases s.len(),
{
    if s.len() == 0 {
        Seq::empty()
    } else {
        escaped_char(s[0]) + escaped(s.drop_first())
    }
}

/// How many special characters `s` holds.
pub open spec fn special_count(s: Seq<char>) -> nat
    decreases s.len(),
{
    if s.len() == 0 {
        0
    } else {
        (if is_special(s[0]) { 1nat } else { 0nat }) + special_count(s.drop_first())
    }
}

/// Escaping distributes over concatenation.
pub proof fn lemma_escaped_concat(a: Seq<char>, b: Seq<char>)
    ensures
        escaped(a + b) == escaped(a) + escaped(b),
    decreases a.len(),
{
    if a.len() == 0 {
        assert(a + b =~= b);
    } else {
        assert((a + b).drop_first() =~= a.drop_first() + b);
        lemma_escaped_concat(a.drop_first(), b);
        assert(escaped(a + b) =~= escaped(a) + escaped(b));
    }
}

/// Counting special characters distributes over concatenation.
pub proof fn lemma_special_count_concat(a: Seq<char>, b: Seq<char>)
    ensures
        special_count(a + b) == special_count(a) + special_count(b),
    decreases a.len(),
{
    if a.len() > 0 {
        assert((a + b).drop_first() =~= a.drop_first() + b);
        lemma_special_count_concat(a.drop_first(), b);
    } else {
        assert(a + b =~= b);
    }
}

/// The escaped form grows by one character for each special character.
pub proof fn lemma_escaped_len(s: Seq<char>)
    ensures
        escaped(s).len() == s.len() + special_count(s),
    decreases s.len(),
{
    if s.len() > 0 {
        lemma_escaped_len(s.drop_first());
    }
}

/// Whether `t` reads as a run of escape units: every backslash opens a pair
/// whose second character is special, and no special character stands alone.
pub open spec fn is_well_escaped(t: Seq<char>) -> bool
    decreases t.len(),
{
    if t.len() == 0 {
        true
    } else if t[0] == '\\' {
        t.len() >= 2 && is_special(t[1]) && is_well_escaped(t.subrange(2, t.len() as int))
    } else {
        !is_special(t[0]) && is_well_escaped(t.drop_first())
    }
}

/// Reads `t` from the left, dropping the backslash of each escape pair.
pub open spec fn unescaped(t: Seq<char>) -> Seq<char>
    decreases t.len(),
{
    if t.len() == 0 {
        Seq::empty()
    } else if t[0] == '\\' && t.len() >= 2 {
        seq![t[1]] + unescaped(t.subrange(2, t.len() as int))
    } else {
        seq![t[0]] + unescaped(t.drop_first())
    }
}

/// The escaped form holds no special character without its backslash, and
/// each special character of `s` comes back from it after exactly one
/// backslash: reading the escape pairs gives `s` again.
pub proof fn lemma_escaped_reads_back(s: Seq<char>)
    ensures
        is_well_escaped(escaped(s)),
        unescaped(escaped(s)) == s,
    decreases s.len(),
{
    if s.len() > 0 {
        let rest = s.drop_first();
        let t = escaped(s);
        lemma_escaped_reads_back(rest);
        if is_special(s[0]) {
            assert(t.subrange(2, t.len() as int) =~= escaped(rest));
        } else {
            assert(t.drop_first() =~= escaped(rest));
        }
        assert(unescaped(t) =~= s);
    }
}

/// Each special character becomes two special characters when escaped.
pub proof fn lemma_special_count_escaped(s: Seq<char>)
    ensures
        special_count(escaped(s)) == 2 * special_count(s),
    decreases s.len(),
{
    if s.len() > 0 {
        let c = s[0];
        lemma_special_count_escaped(s.drop_first());
        lemma_special_count_concat(escaped_char(c), escaped(s.drop_first()));
        assert(seq![c].drop_first() =~= Seq::<char>::empty());
        assert(special_count(Seq::<char>::empty()) == 0);
        if is_special(c) {
            assert(escaped_char(c).drop_first() =~= seq![c]);
            assert(special_count(seq![c]) == 1);
            assert(special_count(escaped_char(c)) == 2);
        } else {
            assert(special_count(escaped_char(c)) == 0);
        }
    }
}

/// A special character anywhere in `s` makes the count positive.
pub proof fn lemma_special_count_positive(s: Seq<char>, i: int)
    requires
        0 <= i < s.len(),
        is_special(s[i]),
    ensures
        special_count(s) > 0,
    decreases s.len(),
{
    if i > 0 {
        lemma_special_count_positive(s.drop_first(), i - 1);
    }
}

/// Escaping is not idempotent: once `s` holds a special character, escaping
/// its escaped form again adds more backslashes.
pub proof fn lemma_escape_twice_differs(s: Seq<char>)
    requires
        exists|i: int| 0 <= i < s.len() && is_special(#[trigger] s[i]),
    ensures
        escaped(escaped(s)) != escaped(s),
{
    let i = choose|i: int| 0 <= i < s.len() && is_special(#[trigger] s[i]);
    lemma_special_count_positive(s, i);
    lemma_escaped_len(s);
    lemma_escaped_len(escaped(s));
    lemma_special_count_escaped(s);
}

/// Escapes `s` for a field of the `WIFI:` payload: a backslash goes before
/// each of `\`, `;`, `,`, `"` and `:`; every other character is kept.
pub fn escape_special_characters(s: &str) -> (r: String)
    ensures
        r@ == escaped(s@),
        r@.len() == s@.len() + special_count(s@),
{
    let mut r = String::new();
    let ghost done: Seq<char> = Seq::empty();
    for c in it: s.chars()
        invariant
            it.seq() == s@,
            done == it.seq().take(it.index() as int),
            r@ == escaped(done),
    {
        proof {
            lemma_escaped_concat(done, seq![c]);
            assert(seq![c].drop_first() =~= Seq::<char>::empty());
            assert(escaped(Seq::<char>::empty()) == Seq::<char>::empty());
            assert(escaped(seq![c]) =~= escaped_char(c));
        }
        if c == '\\' || c == ';' || c == ',' || c == '"' || c == ':' {
            push_char(&mut r, '\\');
        }
        push_char(&mut r, c);
        proof {
            assert(it.seq().take(it.index() + 1) =~= done + seq![c]);
            done = done + seq![c];
            assert(r@ =~= escaped(done));
        }
    }
    proof {
        assert(done =~= s@);
        lemma_escaped_len(s@);
    }
    r
}

} // verus!
