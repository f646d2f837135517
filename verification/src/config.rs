//! Configuration text helpers: parsing a market symbol pair of the form
//! `"BASE/QUOTE"`.
use vstd::prelude::*;

verus! {

/// The text before the first `/`, and everything after it; `None` when no
/// `/` occurs.
pub open spec fn spec_split_at_first_slash(s: Seq<char>) -> Option<(Seq<char>, Seq<char>)>
    decreases s.len(),
{
    if s.len() == 0 {
        None
    } else if s[0] == '/' {
        Some((Seq::<char>::empty(), s.skip(1)))
    } else {
        match spec_split_at_first_slash(s.skip(1)) {
            None => None,
            Some((base, rest)) => Some((seq![s[0]] + base, rest)),
        }
    }
}

/// The base and quote symbols of a pair string: the first two
/// slash-separated components; `None` when there is no slash at all.
pub open spec fn spec_parse_symbol_pair(s: Seq<char>) -> Option<(Seq<char>, Seq<char>)> {
    match spec_split_at_first_slash(s) {
        None => None,
        Some((base, rest)) => match spec_split_at_first_slash(rest) {
            None => Some((base, rest)),
            Some((quote, _)) => Some((base, quote)),
        },
    }
}

/// Splitting at a first slash at position `i` yields the prefix and the
/// suffix around it.
proof fn lemma_split_at_first_slash_at(s: Seq<char>, i: int)
    requires
        0 <= i < s.len(),
        s[i] == '/',
        forall|j: int| 0 <= j < i ==> s[j] != '/',
    ensures
        spec_split_at_first_slash(s) == Some((s.subrange(0, i), s.skip(i + 1))),
    decreases s.len(),
{
    if i == 0 {
        assert(s.subrange(0, 0) =~= Seq::<char>::empty());
    } else {
        assert(forall|j: int| 0 <= j < i - 1 ==> s.skip(1)[j] != '/');
        lemma_split_at_first_slash_at(s.skip(1), i - 1);
        assert(seq![s[0]] + s.skip(1).subrange(0, i - 1) =~= s.subrange(0, i));
        assert(s.skip(1).skip(i) =~= s.skip(i + 1));
    }
}

/// A string with no slash splits into nothing.
proof fn lemma_split_at_first_slash_none(s: Seq<char>)
    requires
        forall|j: int| 0 <= j < s.len() ==> s[j] != '/',
    ensures
        spec_split_at_first_slash(s) is None,
    decreases s.len(),
{
    if s.len() > 0 {
        assert(forall|j: int| 0 <= j < s.len() - 1 ==> s.skip(1)[j] != '/');
        lemma_split_at_first_slash_none(s.skip(1));
    }
}

/// Find the first `/` at or after `from`, if any.
fn find_slash(pair: &str, from: usize, n: usize) -> (r: Option<usize>)
    requires
        n == pair@.len(),
        from <= n,
    ensures
        match r {
            Some(i) => from <= i < n && pair@[i as int] == '/' && (forall|j: int|
                from <= j < i ==> pair@[j] != '/'),
            None => forall|j: int| from <= j < n ==> pair@[j] != '/',
        },
{
    let mut i: usize = from;
    let mut found: Option<usize> = None;
    while i < n
        invariant
            n == pair@.len(),
            from <= i <= n,
            match found {
                Some(fi) => from <= fi < n && pair@[fi as int] == '/' && (forall|j: int|
                    from <= j < fi ==> pair@[j] != '/'),
                None => forall|j: int| from <= j < i ==> pair@[j] != '/',
            },
        decreases n - i,
    {
        if found.is_none() {
            let c = pair.get_char(i);
            if c == '/' {
                found = Some(i);
            }
        }
        i += 1;
    }
    found
}

/// Split a market symbol pair `"BASE/QUOTE"` into its base and quote
/// symbols; a string without a slash is not a pair. Anything after a
/// second slash is ignored.
pub fn parse_symbol_pair(pair: &str) -> (r: Option<(String, String)>)
    ensures
        r is Some <==> spec_parse_symbol_pair(pair@) is Some,
        r is Some ==> r.unwrap().0@ == spec_parse_symbol_pair(pair@).unwrap().0,
        r is Some ==> r.unwrap().1@ == spec_parse_symbol_pair(pair@).unwrap().1,
{
    let n = pair.unicode_len();
    let first = match find_slash(pair, 0, n) {
        Some(i) => i,
        None => {
            proof {
                lemma_split_at_first_slash_none(pair@);
            }
            return None;
        },
    };
    proof {
        lemma_split_at_first_slash_at(pair@, first as int);
    }
    let base = pair.substring_char(0, first);
    let second = find_slash(pair, first + 1, n);
    let quote = match second {
        Some(j) => {
            proof {
                let rest = pair@.skip(first as int + 1);
                assert(forall|jj: int|
                    0 <= jj < j - first - 1 ==> rest[jj] == pair@[first + 1 + jj] && rest[jj]
                        != '/');
                assert(rest[j - first - 1] == '/');
                lemma_split_at_first_slash_at(rest, j - first - 1);
                assert(rest.subrange(0, j - first - 1) =~= pair@.subrange(
                    first as int + 1,
                    j as int,
                ));
            }
            pair.substring_char(first + 1, j)
        },
        None => {
            proof {
                let rest = pair@.skip(first as int + 1);
                assert(forall|jj: int|
                    0 <= jj < rest.len() ==> rest[jj] == pair@[first + 1 + jj] && rest[jj]
                        != '/');
                lemma_split_at_first_slash_none(rest);
                assert(rest =~= pair@.subrange(first as int + 1, n as int));
            }
            pair.substring_char(first + 1, n)
        },
    };
    Some((String::from_str(base), String::from_str(quote)))
}

} // verus!
