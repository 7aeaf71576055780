//! Verified text processing for the connection handler and the router:
//! splitting a request into lines, whitespace tokenization of the
//! request line, joining body lines back together, placeholder
//! replacement for response bodies, and path trimming.
use vstd::prelude::*;

verus! {

/// The whitespace characters recognized when a request line is
/// tokenized: the Unicode white-space set.
pub open spec fn spec_is_space(c: char) -> bool {
    c == ' ' || c == '\t' || c == '\n' || c == '\r' || c == '\x0b' || c == '\x0c' || c == '\u{85}'
        || c == '\u{a0}' || c == '\u{1680}' || c == '\u{2000}' || c == '\u{2001}' || c
        == '\u{2002}' || c == '\u{2003}' || c == '\u{2004}' || c == '\u{2005}' || c == '\u{2006}'
        || c == '\u{2007}' || c == '\u{2008}' || c == '\u{2009}' || c == '\u{200a}' || c
        == '\u{2028}' || c == '\u{2029}' || c == '\u{202f}' || c == '\u{205f}' || c == '\u{3000}'
}

/// Whether a character is whitespace.
pub fn is_space_char(c: char) -> (r: bool)
    ensures
        r == spec_is_space(c),
{
    c == ' ' || c == '\t' || c == '\n' || c == '\r' || c == '\x0b' || c == '\x0c' || c == '\u{85}'
        || c == '\u{a0}' || c == '\u{1680}' || c == '\u{2000}' || c == '\u{2001}' || c
        == '\u{2002}' || c == '\u{2003}' || c == '\u{2004}' || c == '\u{2005}' || c == '\u{2006}'
        || c == '\u{2007}' || c == '\u{2008}' || c == '\u{2009}' || c == '\u{200a}' || c
        == '\u{2028}' || c == '\u{2029}' || c == '\u{202f}' || c == '\u{205f}' || c == '\u{3000}'
}

/// The whitespace-separated tokens of `s`, read left to right while
/// carrying the token collected so far in `cur`.
pub open spec fn spec_tokens_from(s: Seq<char>, cur: Seq<char>) -> Seq<Seq<char>>
    decreases s.len(),
{
    if s.len() == 0 {
        if cur.len() == 0 {
            Seq::empty()
        } else {
            seq![cur]
        }
    } else if spec_is_space(s[0]) {
        if cur.len() == 0 {
            spec_tokens_from(s.drop_first(), Seq::empty())
        } else {
            seq![cur] + spec_tokens_from(s.drop_first(), Seq::empty())
        }
    } else {
        spec_tokens_from(s.drop_first(), cur.push(s[0]))
    }
}

/// The whitespace-separated tokens of `s`.
pub open spec fn spec_tokens(s: Seq<char>) -> Seq<Seq<char>> {
    spec_tokens_from(s, Seq::empty())
}

/// Splits a string into its whitespace-separated tokens.
pub fn split_tokens(s: &str) -> (r: Vec<String>)
    ensures
        r.deep_view() == spec_tokens(s@),
{
    let len = s.unicode_len();
    let mut out: Vec<String> = Vec::new();
    let mut cur = String::new();
    let mut i: usize = 0;
    proof {
        assert(s@.skip(0) =~= s@);
        assert(out.deep_view() =~= Seq::<Seq<char>>::empty());
        assert(Seq::<Seq<char>>::empty() + spec_tokens_from(s@, Seq::empty()) =~= spec_tokens_from(
            s@,
            Seq::empty(),
        ));
    }
    while i < len
        invariant
            len == s@.len(),
            i <= len,
            spec_tokens(s@) == out.deep_view() + spec_tokens_from(s@.skip(i as int), cur@),
        decreases len - i,
    {
        let c = s.get_char(i);
        proof {
            assert(s@.skip(i as int)[0] == s@[i as int]);
            assert(s@.skip(i as int).drop_first() =~= s@.skip(i as int + 1));
        }
        if is_space_char(c) {
            if cur.as_str().unicode_len() > 0 {
                let ghost old_out = out.deep_view();
                let ghost tok = cur@;
                out.push(cur);
                cur = String::new();
                proof {
                    assert(out.deep_view() =~= old_out.push(tok));
                    assert(old_out + (seq![tok] + spec_tokens_from(
                        s@.skip(i as int + 1),
                        Seq::empty(),
                    )) =~= out.deep_view() + spec_tokens_from(s@.skip(i as int + 1), Seq::empty()));
                }
            } else {
                proof {
                    assert(cur@ =~= Seq::<char>::empty());
                }
            }
        } else {
            let ghost prev = cur@;
            let one = s.substring_char(i, i + 1);
            cur.append(one);
            proof {
                assert(one@ =~= seq![s@[i as int]]);
                assert(cur@ =~= prev.push(s@[i as int]));
            }
        }
        i = i + 1;
    }
    proof {
        assert(s@.skip(len as int) =~= Seq::<char>::empty());
    }
    if cur.as_str().unicode_len() > 0 {
        let ghost old_out = out.deep_view();
        let ghost tok = cur@;
        out.push(cur);
        proof {
            assert(out.deep_view() =~= old_out.push(tok));
            assert(old_out + seq![tok] =~= out.deep_view());
        }
    } else {
        proof {
            assert(out.deep_view() + Seq::<Seq<char>>::empty() =~= out.deep_view());
        }
    }
    out
}

/// A collected line with a final carriage return removed, as a line
/// ending of either kind leaves it.
pub open spec fn spec_strip_cr(l: Seq<char>) -> Seq<char> {
    if l.len() > 0 && l.last() == '\r' {
        l.drop_last()
    } else {
        l
    }
}

/// The lines of `s`, read left to right while carrying the line
/// collected so far in `cur`: lines end at a newline, a carriage
/// return before the newline is dropped, and a final line needs no
/// terminator.
pub open spec fn spec_lines_from(s: Seq<char>, cur: Seq<char>) -> Seq<Seq<char>>
    decreases s.len(),
{
    if s.len() == 0 {
        if cur.len() == 0 {
            Seq::empty()
        } else {
            seq![cur]
        }
    } else if s[0] == '\n' {
        seq![spec_strip_cr(cur)] + spec_lines_from(s.drop_first(), Seq::empty())
    } else {
        spec_lines_from(s.drop_first(), cur.push(s[0]))
    }
}

/// The lines of `s`.
pub open spec fn spec_lines(s: Seq<char>) -> Seq<Seq<char>> {
    spec_lines_from(s, Seq::empty())
}

/// Splits a string into its lines.
pub fn split_lines(s: &str) -> (r: Vec<String>)
    ensures
        r.deep_view() == spec_lines(s@),
{
    let len = s.unicode_len();
    let mut out: Vec<String> = Vec::new();
    let mut cur = String::new();
    let mut i: usize = 0;
    proof {
        assert(s@.skip(0) =~= s@);
        assert(out.deep_view() =~= Seq::<Seq<char>>::empty());
        assert(Seq::<Seq<char>>::empty() + spec_lines_from(s@, Seq::empty()) =~= spec_lines_from(
            s@,
            Seq::empty(),
        ));
    }
    while i < len
        invariant
            len == s@.len(),
            i <= len,
            spec_lines(s@) == out.deep_view() + spec_lines_from(s@.skip(i as int), cur@),
        decreases len - i,
    {
        let c = s.get_char(i);
        proof {
            assert(s@.skip(i as int)[0] == s@[i as int]);
            assert(s@.skip(i as int).drop_first() =~= s@.skip(i as int + 1));
        }
        if c == '\n' {
            let ghost old_out = out.deep_view();
            let ghost raw = cur@;
            let l = cur.as_str().unicode_len();
            let line: String = if l > 0 && cur.as_str().get_char(l - 1) == '\r' {
                let stripped = String::from_str(cur.as_str().substring_char(0, l - 1));
                proof {
                    assert(stripped@ =~= spec_strip_cr(raw));
                }
                stripped
            } else {
                cur
            };
            out.push(line);
            cur = String::new();
            proof {
                assert(out.deep_view() =~= old_out.push(spec_strip_cr(raw)));
                assert(old_out + (seq![spec_strip_cr(raw)] + spec_lines_from(
                    s@.skip(i as int + 1),
                    Seq::empty(),
                )) =~= out.deep_view() + spec_lines_from(s@.skip(i as int + 1), Seq::empty()));
            }
        } else {
            let ghost prev = cur@;
            let one = s.substring_char(i, i + 1);
            cur.append(one);
            proof {
                assert(one@ =~= seq![s@[i as int]]);
                assert(cur@ =~= prev.push(s@[i as int]));
            }
        }
        i = i + 1;
    }
    proof {
        assert(s@.skip(len as int) =~= Seq::<char>::empty());
    }
    if cur.as_str().unicode_len() > 0 {
        let ghost old_out = out.deep_view();
        let ghost tail = cur@;
        out.push(cur);
        proof {
            assert(out.deep_view() =~= old_out.push(tail));
            assert(old_out + seq![tail] =~= out.deep_view());
        }
    } else {
        proof {
            assert(out.deep_view() + Seq::<Seq<char>>::empty() =~= out.deep_view());
        }
    }
    out
}

/// The given lines joined with single newlines.
pub open spec fn spec_join_nl(ls: Seq<Seq<char>>) -> Seq<char>
    decreases ls.len(),
{
    if ls.len() == 0 {
        Seq::empty()
    } else if ls.len() == 1 {
        ls[0]
    } else {
        ls[0] + seq!['\n'] + spec_join_nl(ls.drop_first())
    }
}

/// Appending one more line to a join adds a newline and that line.
pub proof fn lemma_join_nl_push(ls: Seq<Seq<char>>, x: Seq<char>)
    requires
        ls.len() >= 1,
    ensures
        spec_join_nl(ls.push(x)) == spec_join_nl(ls) + seq!['\n'] + x,
    decreases ls.len(),
{
    if ls.len() == 1 {
        assert(ls.push(x).drop_first() =~= seq![x]);
        assert(spec_join_nl(seq![x]) == x);
        assert(ls.push(x)[0] == ls[0]);
    } else {
        lemma_join_nl_push(ls.drop_first(), x);
        assert(ls.push(x).drop_first() =~= ls.drop_first().push(x));
        assert(ls.push(x)[0] == ls[0]);
        assert(ls[0] + seq!['\n'] + (spec_join_nl(ls.drop_first()) + seq!['\n'] + x) =~= (ls[0]
            + seq!['\n'] + spec_join_nl(ls.drop_first())) + seq!['\n'] + x);
    }
}

/// All lines after the first, joined with single newlines: the body
/// of a request whose first line is the request line.
pub open spec fn spec_tail_join(ls: Seq<Seq<char>>) -> Seq<char> {
    if ls.len() <= 1 {
        Seq::empty()
    } else {
        spec_join_nl(ls.skip(1))
    }
}

/// Joins all lines after the first with single newlines.
pub fn join_tail_lines(lines: &Vec<String>) -> (r: String)
    ensures
        r@ == spec_tail_join(lines.deep_view()),
{
    let mut out = String::new();
    if lines.len() <= 1 {
        return out;
    }
    let ghost tail = lines.deep_view().skip(1);
    let mut i: usize = 1;
    out.append(lines[1].as_str());
    proof {
        assert(tail[0] == lines.deep_view()[1]);
        assert(tail.subrange(0, 1) =~= seq![tail[0]]);
        assert(spec_join_nl(seq![tail[0]]) == tail[0]);
        assert(out@ == spec_join_nl(tail.subrange(0, 1)));
    }
    i = 2;
    while i < lines.len()
        invariant
            2 <= i <= lines@.len(),
            lines@.len() >= 2,
            tail == lines.deep_view().skip(1),
            tail.len() == lines@.len() - 1,
            out@ == spec_join_nl(tail.subrange(0, i - 1)),
        decreases lines@.len() - i,
    {
        out.append("\n");
        out.append(lines[i].as_str());
        proof {
            reveal_strlit("\n");
            assert("\n"@ =~= seq!['\n']);
            let prefix = tail.subrange(0, i - 1);
            assert(prefix.len() >= 1);
            lemma_join_nl_push(prefix, tail[i - 1]);
            assert(prefix.push(tail[i - 1]) =~= tail.subrange(0, i as int));
            assert(tail[i - 1] == lines.deep_view()[i as int]);
        }
        i = i + 1;
    }
    proof {
        assert(tail.subrange(0, tail.len() as int) =~= tail);
    }
    out
}

/// `s` with every non-overlapping occurrence of the pattern `p`
/// replaced by `w`, scanning left to right; an empty pattern leaves
/// the text unchanged.
pub open spec fn spec_replace(s: Seq<char>, p: Seq<char>, w: Seq<char>) -> Seq<char>
    decreases s.len(),
{
    if p.len() == 0 {
        s
    } else if s.len() < p.len() {
        s
    } else if s.subrange(0, p.len() as int) == p {
        w + spec_replace(s.skip(p.len() as int), p, w)
    } else {
        seq![s[0]] + spec_replace(s.drop_first(), p, w)
    }
}

/// Whether the pattern occurs in `s` at position `i`.
fn match_at(s: &str, slen: usize, i: usize, pat: &str, plen: usize) -> (r: bool)
    requires
        slen == s@.len(),
        plen == pat@.len(),
        i <= slen,
    ensures
        r == (i + pat@.len() <= s@.len() && s@.subrange(i as int, i as int + pat@.len() as int)
            == pat@),
{
    if plen > slen - i {
        return false;
    }
    let mut k: usize = 0;
    while k < plen
        invariant
            slen == s@.len(),
            plen == pat@.len(),
            i + plen <= slen,
            k <= plen,
            forall|j: int| 0 <= j < k ==> s@[i + j] == pat@[j],
        decreases plen - k,
    {
        if s.get_char(i + k) != pat.get_char(k) {
            assert(s@.subrange(i as int, i as int + pat@.len() as int) != pat@) by {
                assert(s@.subrange(i as int, i as int + pat@.len() as int)[k as int] == s@[i + k]);
            }
            return false;
        }
        k = k + 1;
    }
    proof {
        assert(s@.subrange(i as int, i as int + pat@.len() as int) =~= pat@);
    }
    true
}

/// Replaces every non-overlapping occurrence of `pat` in `s` by
/// `with`, scanning left to right; an empty pattern leaves the text
/// unchanged.
pub fn replace_all(s: &str, pat: &str, with: &str) -> (r: String)
    ensures
        r@ == spec_replace(s@, pat@, with@),
{
    let slen = s.unicode_len();
    let plen = pat.unicode_len();
    let mut out = String::new();
    if plen == 0 {
        out.append(s);
        return out;
    }
    let mut i: usize = 0;
    proof {
        assert(s@.skip(0) =~= s@);
        assert(out@ + spec_replace(s@, pat@, with@) =~= spec_replace(s@, pat@, with@));
    }
    while i < slen
        invariant
            slen == s@.len(),
            plen == pat@.len(),
            plen >= 1,
            i <= slen,
            spec_replace(s@, pat@, with@) == out@ + spec_replace(s@.skip(i as int), pat@, with@),
        decreases slen - i,
    {
        let ghost rest = s@.skip(i as int);
        if match_at(s, slen, i, pat, plen) {
            out.append(with);
            proof {
                assert(rest.subrange(0, pat@.len() as int) =~= s@.subrange(
                    i as int,
                    i as int + pat@.len() as int,
                ));
                assert(rest.skip(pat@.len() as int) =~= s@.skip(i as int + pat@.len() as int));
                assert(spec_replace(rest, pat@, with@) == with@ + spec_replace(
                    s@.skip(i as int + pat@.len() as int),
                    pat@,
                    with@,
                ));
            }
            i = i + plen;
        } else {
            let one = s.substring_char(i, i + 1);
            out.append(one);
            proof {
                assert(one@ =~= seq![s@[i as int]]);
                assert(rest.drop_first() =~= s@.skip(i as int + 1));
                if rest.len() < pat@.len() {
                    assert(spec_replace(rest, pat@, with@) == rest);
                    assert(rest =~= seq![s@[i as int]] + rest.drop_first());
                    assert(spec_replace(rest.drop_first(), pat@, with@) == rest.drop_first());
                } else {
                    assert(rest.subrange(0, pat@.len() as int) =~= s@.subrange(
                        i as int,
                        i as int + pat@.len() as int,
                    ));
                    assert(rest.subrange(0, pat@.len() as int) != pat@);
                    assert(spec_replace(rest, pat@, with@) == seq![s@[i as int]] + spec_replace(
                        rest.drop_first(),
                        pat@,
                        with@,
                    ));
                }
            }
            i = i + 1;
        }
    }
    proof {
        assert(s@.skip(slen as int) =~= Seq::<char>::empty());
    }
    out
}

/// `s` with every leading path separator removed.
pub open spec fn spec_trim_slashes(s: Seq<char>) -> Seq<char>
    decreases s.len(),
{
    if s.len() > 0 && s[0] == '/' {
        spec_trim_slashes(s.drop_first())
    } else {
        s
    }
}

/// Removes every leading path separator from a path.
pub fn trim_leading_slashes(s: &str) -> (r: String)
    ensures
        r@ == spec_trim_slashes(s@),
{
    let len = s.unicode_len();
    let mut i: usize = 0;
    proof {
        assert(s@.skip(0) =~= s@);
    }
    while i < len && s.get_char(i) == '/'
        invariant
            len == s@.len(),
            i <= len,
            spec_trim_slashes(s@) == spec_trim_slashes(s@.skip(i as int)),
        decreases len - i,
    {
        proof {
            assert(s@.skip(i as int)[0] == s@[i as int]);
            assert(s@.skip(i as int).drop_first() =~= s@.skip(i as int + 1));
        }
        i = i + 1;
    }
    proof {
        if i < len {
            assert(s@.skip(i as int)[0] == s@[i as int]);
        }
        assert(spec_trim_slashes(s@.skip(i as int)) == s@.skip(i as int));
    }
    String::from_str(s.substring_char(i, len))
}

} // verus!
