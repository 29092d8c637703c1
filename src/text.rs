use vstd::prelude::*;

verus! {

/// Unicode White_Space, the set that `char::is_whitespace` tests for.
pub open spec fn is_space(c: char) -> bool {
    let u = c as u32;
    (0x09 <= u <= 0x0d) || u == 0x20 || u == 0x85 || u == 0xa0 || u == 0x1680 || (0x2000 <= u
        <= 0x200a) || u == 0x2028 || u == 0x2029 || u == 0x202f || u == 0x205f || u == 0x3000
}

pub fn is_space_char(c: char) -> (r: bool)
    ensures
        r == is_space(c),
{
    let u = c as u32;
    (0x09 <= u && u <= 0x0d) || u == 0x20 || u == 0x85 || u == 0xa0 || u == 0x1680 || (0x2000 <= u
        && u <= 0x200a) || u == 0x2028 || u == 0x2029 || u == 0x202f || u == 0x205f || u == 0x3000
}

/// The maximal runs of non-space characters of `s`, left to right.
pub open spec fn words(s: Seq<char>) -> Seq<Seq<char>>
    decreases s.len(),
{
    if s.len() == 0 {
        seq![]
    } else {
        let p = s.drop_last();
        let c = s.last();
        let w = words(p);
        if is_space(c) {
            w
        } else if p.len() > 0 && !is_space(p.last()) {
            w.update(w.len() - 1, w.last().push(c))
        } else {
            w.push(seq![c])
        }
    }
}

/// Relies on str::chars: it yields the characters of the string in order.
#[verifier::external_body]
pub(crate) fn chars_of(s: &str) -> (r: Vec<char>)
    ensures
        r@ == s@,
{
    s.chars().collect()
}

/// Relies on collecting chars into a String: the string holds exactly those characters.
#[verifier::external_body]
pub(crate) fn string_of(cs: &Vec<char>) -> (r: String)
    ensures
        r@ == cs@,
{
    cs.iter().collect()
}

pub open spec fn views_of(v: Seq<Vec<char>>) -> Seq<Seq<char>> {
    v.map_values(|w: Vec<char>| w@)
}

/// Splits a line into its whitespace-separated words.
pub fn split_words(line: &str) -> (r: Vec<Vec<char>>)
    ensures
        views_of(r@) == words(line@),
{
    let s = chars_of(line);
    let mut out: Vec<Vec<char>> = Vec::new();
    let mut cur: Vec<char> = Vec::new();
    let mut i: usize = 0;
    while i < s.len()
        invariant
            s@ == line@,
            0 <= i <= s.len(),
            words(s@.take(i as int)) == views_of(out@) + (if cur@.len() > 0 {
                seq![cur@]
            } else {
                seq![]
            }),
            cur@.len() > 0 <==> (i > 0 && !is_space(s@[i - 1])),
        decreases s.len() - i,
    {
        let c = s[i];
        assert(s@.take(i + 1).drop_last() == s@.take(i as int));
        assert(s@.take(i + 1).last() == c);
        let ghost old_out = views_of(out@);
        let ghost old_cur = cur@;
        if is_space_char(c) {
            if cur.len() > 0 {
                let w = cur;
                cur = Vec::new();
                out.push(w);
                assert(views_of(out@) =~= old_out.push(old_cur));
                assert(views_of(out@) =~= old_out + seq![old_cur]);
            }
            assert(words(s@.take(i + 1)) =~= views_of(out@) + (if cur@.len() > 0 {
                seq![cur@]
            } else {
                seq![]
            }));
        } else {
            cur.push(c);
            assert(views_of(out@) == old_out);
            proof {
                let w = words(s@.take(i as int));
                if old_cur.len() > 0 {
                    assert(s@.take(i as int).last() == s@[i - 1]);
                    assert(w =~= old_out + seq![old_cur]);
                    assert(w.update(w.len() - 1, w.last().push(c)) =~= old_out + seq![cur@]);
                } else {
                    assert(w =~= old_out);
                    assert(i > 0 ==> s@.take(i as int).last() == s@[i - 1]);
                    assert(cur@ =~= seq![c]);
                    assert(w.push(seq![c]) =~= old_out + seq![cur@]);
                }
            }
        }
        i = i + 1;
    }
    assert(s@.take(i as int) == s@);
    if cur.len() > 0 {
        out.push(cur);
        assert(views_of(out@) == views_of(out@.drop_last()).push(cur@));
    }
    assert(views_of(out@) =~= words(line@));
    out
}

/// No word is empty.
pub proof fn lemma_words_nonempty(s: Seq<char>, k: int)
    requires
        0 <= k < words(s).len(),
    ensures
        words(s)[k].len() > 0,
    decreases s.len(),
{
    let p = s.drop_last();
    let w = words(p);
    if k < w.len() {
        lemma_words_nonempty(p, k);
    }
    if !is_space(s.last()) && p.len() > 0 && !is_space(p.last()) {
        assert(w.len() > 0) by {
            lemma_words_end(p);
        }
    }
}

/// A line that ends in a non-space character ends in a word.
proof fn lemma_words_end(s: Seq<char>)
    requires
        s.len() > 0,
        !is_space(s.last()),
    ensures
        words(s).len() > 0,
    decreases s.len(),
{
    let p = s.drop_last();
    if p.len() > 0 && !is_space(p.last()) {
        lemma_words_end(p);
    }
}

} // verus!
