//! Joining and splitting of character sequences.
//!
//! The command line and the encoded compiler flags are both joins of
//! token lists with a fixed separator; the specifications here say
//! exactly what such a join contains and that splitting it recovers the
//! original tokens.

use vstd::prelude::*;
use vstd::string::StringExecFns;

verus! {

/// `s` contains no occurrence of the character `c`.
pub open spec fn excludes(s: Seq<char>, c: char) -> bool {
    forall|i: int| 0 <= i < s.len() ==> s[i] != c
}

/// The sequence obtained by concatenating `parts` in order with `sep`
/// between consecutive parts.
pub open spec fn join_with(parts: Seq<Seq<char>>, sep: Seq<char>) -> Seq<char>
    decreases parts.len(),
{
    if parts.len() == 0 {
        Seq::empty()
    } else if parts.len() == 1 {
        parts[0]
    } else {
        parts[0] + sep + join_with(parts.drop_first(), sep)
    }
}

/// Appending one more part extends a non-empty join by the separator
/// and the part.
pub proof fn lemma_join_with_push(parts: Seq<Seq<char>>, sep: Seq<char>, part: Seq<char>)
    ensures
        parts.len() == 0 ==> join_with(parts.push(part), sep) == part,
        parts.len() > 0 ==> join_with(parts.push(part), sep) == join_with(parts, sep) + sep
            + part,
    decreases parts.len(),
{
    let p = parts.push(part);
    if parts.len() == 0 {
        assert(p.len() == 1);
        assert(p[0] == part);
    } else if parts.len() == 1 {
        assert(p.len() == 2);
        assert(p[0] == parts[0]);
        assert(p.drop_first() =~= seq![part]);
        assert(join_with(p.drop_first(), sep) == part);
    } else {
        assert(p.drop_first() =~= parts.drop_first().push(part));
        lemma_join_with_push(parts.drop_first(), sep, part);
        assert(join_with(p, sep) =~= join_with(parts, sep) + sep + part);
    }
}

/// Join the given strings in order, with `sep` between consecutive
/// entries.
pub fn join_strings(parts: &Vec<String>, sep: &str) -> (r: String)
    ensures
        r@ == join_with(parts.deep_view(), sep@),
{
    let mut r = String::new();
    let mut i: usize = 0;
    while i < parts.len()
        invariant
            i <= parts.len(),
            r@ == join_with(parts.deep_view().take(i as int), sep@),
        decreases parts.len() - i,
    {
        if i > 0 {
            r.append(sep);
        }
        r.append(parts[i].as_str());
        proof {
            assert(parts.deep_view()[i as int] == parts@[i as int]@);
            lemma_join_with_push(
                parts.deep_view().take(i as int),
                sep@,
                parts.deep_view()[i as int],
            );
            assert(parts.deep_view().take(i as int + 1) =~= parts.deep_view().take(
                i as int,
            ).push(parts.deep_view()[i as int]));
        }
        i = i + 1;
    }
    proof {
        assert(parts.deep_view().take(parts.len() as int) =~= parts.deep_view());
    }
    r
}

/// Split `s` at every occurrence of `sep`.  The result always has one
/// more token than `s` has separators: splitting an empty sequence
/// gives one empty token, and every separator ends the token before it.
pub open spec fn split_on(s: Seq<char>, sep: char) -> Seq<Seq<char>>
    decreases s.len(),
{
    if s.len() == 0 {
        seq![Seq::<char>::empty()]
    } else if s[0] == sep {
        seq![Seq::<char>::empty()] + split_on(s.drop_first(), sep)
    } else {
        let rest = split_on(s.drop_first(), sep);
        seq![seq![s[0]] + rest[0]] + rest.drop_first()
    }
}

/// A sequence without the separator splits into itself alone.
pub proof fn lemma_split_on_free(s: Seq<char>, sep: char)
    requires
        excludes(s, sep),
    ensures
        split_on(s, sep) == seq![s],
    decreases s.len(),
{
    if s.len() == 0 {
        assert(s =~= Seq::<char>::empty());
        assert(split_on(s, sep) =~= seq![s]);
    } else {
        assert(s[0] != sep);
        assert(excludes(s.drop_first(), sep));
        lemma_split_on_free(s.drop_first(), sep);
        let rest = split_on(s.drop_first(), sep);
        assert(rest[0] == s.drop_first());
        assert(rest.drop_first() =~= Seq::<Seq<char>>::empty());
        assert(seq![s[0]] + rest[0] =~= s);
        assert(split_on(s, sep) == seq![seq![s[0]] + rest[0]] + rest.drop_first());
        assert(split_on(s, sep) =~~= seq![s]);
    }
}

/// A separator after a separator-free prefix splits off exactly that
/// prefix.
pub proof fn lemma_split_on_prefix(t: Seq<char>, r: Seq<char>, sep: char)
    requires
        excludes(t, sep),
    ensures
        split_on(t + seq![sep] + r, sep) == seq![t] + split_on(r, sep),
    decreases t.len(),
{
    let s = t + seq![sep] + r;
    if t.len() == 0 {
        assert(s[0] == sep);
        assert(s.drop_first() =~= r);
        assert(t =~= Seq::<char>::empty());
        assert(split_on(s, sep) == seq![Seq::<char>::empty()] + split_on(r, sep));
        assert(seq![t] =~= seq![Seq::<char>::empty()]);
        assert(split_on(s, sep) =~= seq![t] + split_on(r, sep));
    } else {
        assert(s[0] == t[0]);
        assert(s[0] != sep);
        assert(s.drop_first() =~= t.drop_first() + seq![sep] + r);
        assert(excludes(t.drop_first(), sep));
        lemma_split_on_prefix(t.drop_first(), r, sep);
        let rest = split_on(s.drop_first(), sep);
        assert(rest == seq![t.drop_first()] + split_on(r, sep));
        assert(rest[0] == t.drop_first());
        assert(seq![s[0]] + rest[0] =~= t);
        assert(rest.drop_first() =~= split_on(r, sep));
        assert(split_on(s, sep) =~= seq![t] + split_on(r, sep));
    }
}

/// Splitting a join on its separator recovers the original tokens,
/// provided no token contains the separator.
pub proof fn lemma_split_join(tokens: Seq<Seq<char>>, sep: char)
    requires
        tokens.len() >= 1,
        forall|i: int| 0 <= i < tokens.len() ==> excludes(#[trigger] tokens[i], sep),
    ensures
        split_on(join_with(tokens, seq![sep]), sep) == tokens,
    decreases tokens.len(),
{
    if tokens.len() == 1 {
        lemma_split_on_free(tokens[0], sep);
        assert(seq![tokens[0]] =~= tokens);
    } else {
        let rest = tokens.drop_first();
        assert(forall|i: int| 0 <= i < rest.len() ==> excludes(#[trigger] rest[i], sep));
        lemma_split_join(rest, sep);
        lemma_split_on_prefix(tokens[0], join_with(rest, seq![sep]), sep);
        assert(join_with(tokens, seq![sep]) == tokens[0] + seq![sep] + join_with(
            rest,
            seq![sep],
        ));
        assert(seq![tokens[0]] + rest =~= tokens);
    }
}

} // verus!
