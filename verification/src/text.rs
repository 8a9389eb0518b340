//! Character-level helpers: turning strings into character vectors and back,
//! prefix tests, and splitting a topic into path segments.

use vstd::prelude::*;

verus! {

broadcast use vstd::string::axiom_spec_iter;

/// The characters of `s`, collected into a vector.
pub fn chars_vec(s: &str) -> (r: Vec<char>)
    ensures
        r@ == s@,
{
    let mut r: Vec<char> = Vec::new();
    for c in it: s.chars()
        invariant
            it.seq() == s@,
            r@ == it.seq().subrange(0, it.index() as int),
    {
        r.push(c);
    }
    assert(r@ =~= s@);
    r
}

/// Relies on `String`'s `FromIterator` over `char`: the collected string holds
/// exactly the characters of the vector, in order.
#[verifier::external_body]
pub fn string_from_chars(v: &Vec<char>) -> (r: String)
    ensures
        r@ == v@,
{
    v.iter().collect()
}

/// Appends all characters of `src` to `dst`.
pub fn extend_chars(dst: &mut Vec<char>, src: &Vec<char>)
    ensures
        final(dst)@ == old(dst)@ + src@,
{
    let n = src.len();
    for i in 0..n
        invariant
            n == src.len(),
            dst@ == old(dst)@ + src@.subrange(0, i as int),
    {
        dst.push(src[i]);
    }
    assert(dst@ =~= old(dst)@ + src@);
}

/// Whether two character vectors hold the same characters.
pub fn chars_eq(a: &Vec<char>, b: &Vec<char>) -> (r: bool)
    ensures
        r == (a@ == b@),
{
    if a.len() != b.len() {
        assert(a@ != b@) by {
            assert(a@.len() != b@.len());
        }
        return false;
    }
    let n = a.len();
    for i in 0..n
        invariant
            n == a.len() && n == b.len(),
            forall|j: int| 0 <= j < i ==> a@[j] == b@[j],
    {
        if a[i] != b[i] {
            return false;
        }
    }
    assert(a@ =~= b@);
    true
}

/// The characters of `s` from position `n` on.
pub fn skip_chars(s: &Vec<char>, n: usize) -> (r: Vec<char>)
    requires
        n <= s@.len(),
    ensures
        r@ == s@.skip(n as int),
{
    let len = s.len();
    let mut r: Vec<char> = Vec::new();
    for i in n..len
        invariant
            len == s.len(),
            n <= i <= len,
            r@ == s@.subrange(n as int, i as int),
    {
        r.push(s[i]);
    }
    assert(r@ =~= s@.skip(n as int));
    r
}

/// Whether the text ends with the path separator `/`.
pub open spec fn ends_slash(t: Seq<char>) -> bool {
    t.len() > 0 && t[t.len() - 1] == '/'
}

/// Whether `s` ends with the path separator `/`.
pub fn ends_with_slash(s: &str) -> (r: bool)
    ensures
        r == ends_slash(s@),
{
    let v = chars_vec(s);
    if v.len() == 0 {
        false
    } else {
        v[v.len() - 1] == '/'
    }
}

/// Whether two strings hold the same characters.
pub fn str_eq(a: &str, b: &str) -> (r: bool)
    ensures
        r == (a@ == b@),
{
    let av = chars_vec(a);
    let bv = chars_vec(b);
    chars_eq(&av, &bv)
}

/// Whether `prefix` is a literal prefix of `s`.
pub fn starts_with_chars(s: &Vec<char>, prefix: &Vec<char>) -> (r: bool)
    ensures
        r == prefix@.is_prefix_of(s@),
{
    if prefix.len() > s.len() {
        return false;
    }
    let n = prefix.len();
    for i in 0..n
        invariant
            n == prefix.len() && n <= s.len(),
            forall|j: int| 0 <= j < i ==> s@[j] == prefix@[j],
    {
        if s[i] != prefix[i] {
            return false;
        }
    }
    assert(prefix@ =~= s@.subrange(0, prefix@.len() as int));
    true
}

/// Splitting a character sequence on a separator: the list of segments
/// between occurrences of `sep`.  An empty input yields one empty segment,
/// as `str::split` does.
pub open spec fn split_seq(s: Seq<char>, sep: char) -> Seq<Seq<char>>
    decreases s.len(),
{
    if s.len() == 0 {
        seq![Seq::<char>::empty()]
    } else if s[0] == sep {
        seq![Seq::<char>::empty()] + split_seq(s.drop_first(), sep)
    } else {
        let rest = split_seq(s.drop_first(), sep);
        seq![seq![s[0]] + rest[0]] + rest.drop_first()
    }
}

pub proof fn lemma_split_seq_len(s: Seq<char>, sep: char)
    ensures
        split_seq(s, sep).len() >= 1,
    decreases s.len(),
{
    if s.len() != 0 {
        lemma_split_seq_len(s.drop_first(), sep);
    }
}

/// Prepends `p` to the first segment of `ss`.
pub open spec fn prepend_first(p: Seq<char>, ss: Seq<Seq<char>>) -> Seq<Seq<char>>
    recommends
        ss.len() >= 1,
{
    seq![p + ss[0]] + ss.drop_first()
}

/// The segments of a split, as the views of the returned vectors.
pub open spec fn segments_view(r: Seq<Vec<char>>) -> Seq<Seq<char>> {
    r.map_values(|v: Vec<char>| v@)
}

/// Splits `s` on `sep`, as `str::split` would.
pub fn split_chars(s: &Vec<char>, sep: char) -> (r: Vec<Vec<char>>)
    ensures
        segments_view(r@) == split_seq(s@, sep),
{
    let n = s.len();
    let mut done: Vec<Vec<char>> = Vec::new();
    let ghost mut gdone: Seq<Seq<char>> = Seq::empty();
    let mut cur: Vec<char> = Vec::new();
    let mut i: usize = 0;
    proof {
        let whole = s@.subrange(0, n as int);
        assert(whole =~= s@);
        lemma_split_seq_len(whole, sep);
        assert(Seq::<char>::empty() + split_seq(whole, sep)[0] =~= split_seq(whole, sep)[0]);
        assert(seq![split_seq(whole, sep)[0]] + split_seq(whole, sep).drop_first() =~= split_seq(
            whole,
            sep,
        ));
        assert(gdone + prepend_first(cur@, split_seq(whole, sep)) =~= split_seq(s@, sep));
    }
    while i < n
        invariant
            n == s.len(),
            i <= n,
            gdone.len() == done.len(),
            forall|j: int| 0 <= j < done.len() ==> gdone[j] == done@[j]@,
            split_seq(s@, sep) == gdone + prepend_first(
                cur@,
                split_seq(s@.subrange(i as int, n as int), sep),
            ),
            forall|j: int| 0 <= j < cur@.len() ==> cur@[j] != sep,
        decreases n - i,
    {
        let ghost tail = s@.subrange(i as int, n as int);
        proof {
            assert(tail.len() > 0 && tail[0] == s@[i as int]);
            assert(tail.drop_first() =~= s@.subrange(i as int + 1, n as int));
            lemma_split_seq_len(tail.drop_first(), sep);
        }
        if s[i] == sep {
            let ghost curv = cur@;
            proof {
                let rest = split_seq(tail.drop_first(), sep);
                assert(split_seq(tail, sep) == seq![Seq::<char>::empty()] + rest);
                assert(Seq::<char>::empty() + rest[0] =~= rest[0]);
                assert((seq![Seq::<char>::empty()] + rest).drop_first() =~= rest);
                assert(prepend_first(curv, split_seq(tail, sep)) =~= seq![curv] + rest);
                assert(gdone + (seq![curv] + rest) =~= (gdone + seq![curv]) + prepend_first(
                    Seq::<char>::empty(),
                    rest,
                ));
                gdone = gdone + seq![curv];
            }
            done.push(cur);
            cur = Vec::new();
        } else {
            proof {
                let rest = split_seq(tail.drop_first(), sep);
                assert(split_seq(tail, sep) == seq![seq![tail[0]] + rest[0]] + rest.drop_first());
                assert(prepend_first(cur@, split_seq(tail, sep)).drop_first() =~= rest.drop_first());
                assert(cur@ + (seq![tail[0]] + rest[0]) =~= (cur@.push(tail[0])) + rest[0]);
                assert(prepend_first(cur@.push(s@[i as int]), rest) =~= prepend_first(
                    cur@,
                    split_seq(tail, sep),
                ));
            }
            cur.push(s[i]);
        }
        i += 1;
    }
    proof {
        assert(s@.subrange(n as int, n as int) =~= Seq::<char>::empty());
        assert(split_seq(Seq::<char>::empty(), sep) == seq![Seq::<char>::empty()]);
        assert(prepend_first(cur@, seq![Seq::<char>::empty()]) =~= seq![cur@ + Seq::<
            char,
        >::empty()]);
        assert(cur@ + Seq::<char>::empty() =~= cur@);
        assert(split_seq(s@, sep) =~= gdone + seq![cur@]);
        gdone = gdone + seq![cur@];
    }
    done.push(cur);
    proof {
        assert(segments_view(done@) =~= gdone);
    }
    done
}

} // verus!
