//! Small text utilities shared by the other modules: whitespace tests, views
//! of string vectors, character-by-character string building and decimal
//! formatting.
use vstd::prelude::*;

verus! {

/// Whitespace characters that separate fields of a command template or of an
/// HTTP request line.
pub open spec fn is_space_char(c: char) -> bool {
    c == ' ' || c == '\t' || c == '\r' || c == '\n'
}

pub fn is_space(c: char) -> (r: bool)
    ensures
        r == is_space_char(c),
{
    c == ' ' || c == '\t' || c == '\r' || c == '\n'
}

/// The views of a sequence of strings, as sequences of characters.
pub open spec fn views_of(v: Seq<String>) -> Seq<Seq<char>> {
    Seq::new(v.len(), |i: int| v[i]@)
}

/// Relies on String::push: appends the given character to the end of the
/// string.
#[verifier::external_body]
pub fn push_char(s: &mut String, c: char)
    ensures
        final(s)@ == old(s)@.push(c),
{
    s.push(c);
}

/// The number of bytes of the UTF-8 encoding of s: what an HTTP
/// Content-Length header must count.
pub open spec fn utf8_len(s: Seq<char>) -> nat {
    vstd::utf8::encode_utf8(s).len()
}

/// Relies on str::len: the length of the string in bytes of its UTF-8
/// form.  A slice held in memory is no longer than isize::MAX bytes, so the
/// mathematical length always fits the returned usize.
#[verifier::external_body]
pub fn byte_len(s: &str) -> (n: usize)
    ensures
        n as nat == utf8_len(s@),
{
    s.len()
}

/// The parts joined into one sequence, with sep between consecutive parts.
pub open spec fn join_with(parts: Seq<Seq<char>>, sep: Seq<char>) -> Seq<char>
    decreases parts.len(),
{
    if parts.len() == 0 {
        Seq::empty()
    } else if parts.len() == 1 {
        parts[0]
    } else {
        join_with(parts.drop_last(), sep) + sep + parts.last()
    }
}

pub fn join_strings(parts: &Vec<String>, sep: &str) -> (r: String)
    ensures
        r@ == join_with(views_of(parts@), sep@),
{
    let mut out: String = String::new();
    let mut i: usize = 0;
    proof {
        assert(views_of(parts@).take(0) =~= Seq::<Seq<char>>::empty());
    }
    while i < parts.len()
        invariant
            i <= parts@.len(),
            out@ == join_with(views_of(parts@).take(i as int), sep@),
        decreases parts@.len() - i,
    {
        proof {
            assert(views_of(parts@).take(i as int + 1).drop_last() =~= views_of(parts@).take(
                i as int,
            ));
            assert(views_of(parts@).take(i as int + 1).last() == parts@[i as int]@);
        }
        if i > 0 {
            out.append(sep);
        }
        let part: &String = &parts[i];
        out.append(part.as_str());
        proof {
            if i == 0 {
                assert(out@ =~= parts@[0]@);
            }
        }
        i = i + 1;
    }
    proof {
        assert(views_of(parts@).take(parts@.len() as int) =~= views_of(parts@));
    }
    out
}

/// The decimal digit character for d, where d < 10.
pub open spec fn digit_char(d: nat) -> char {
    ((d + 0x30) as u8) as char
}

/// The decimal representation of n, most significant digit first.
pub open spec fn dec_rep(n: nat) -> Seq<char>
    decreases n,
{
    if n < 10 {
        seq![digit_char(n)]
    } else {
        dec_rep(n / 10).push(digit_char(n % 10))
    }
}

/// The pattern pat occurs in s starting at position i.
pub open spec fn starts_with_at(s: Seq<char>, pat: Seq<char>, i: int) -> bool {
    &&& 0 <= i
    &&& i + pat.len() <= s.len()
    &&& forall|j: int| 0 <= j < pat.len() ==> s[i + j] == pat[j]
}

pub fn matches_at(s: &str, i: usize, pat: &str) -> (r: bool)
    ensures
        r == starts_with_at(s@, pat@, i as int),
{
    let slen: usize = s.unicode_len();
    let plen: usize = pat.unicode_len();
    if i > slen || plen > slen - i {
        return false;
    }
    let mut j: usize = 0;
    while j < plen
        invariant
            slen == s@.len(),
            plen == pat@.len(),
            i + plen <= slen,
            j <= plen,
            forall|k: int| 0 <= k < j ==> s@[i + k] == pat@[k],
        decreases plen - j,
    {
        if s.get_char(i + j) != pat.get_char(j) {
            return false;
        }
        j = j + 1;
    }
    true
}

/// A pattern that holds at position i of the tail s.skip(1) holds one
/// position later in s itself.
pub proof fn lemma_starts_with_shift(s: Seq<char>, pat: Seq<char>, i: int)
    requires
        s.len() >= 1,
        0 <= i,
        starts_with_at(s.skip(1), pat, i),
    ensures
        starts_with_at(s, pat, i + 1),
{
    assert forall|j: int| 0 <= j < pat.len() implies s[(i + 1) + j] == pat[j] by {
        assert(s.skip(1)[i + j] == pat[j]);
    }
}

/// A pattern holds at position i of s exactly when it holds at the start of
/// s.skip(i).
pub proof fn lemma_starts_with_skip(s: Seq<char>, pat: Seq<char>, i: int)
    requires
        0 <= i <= s.len(),
    ensures
        starts_with_at(s, pat, i) == starts_with_at(s.skip(i), pat, 0),
{
    if starts_with_at(s, pat, i) {
        assert forall|j: int| 0 <= j < pat.len() implies s.skip(i)[0 + j] == pat[j] by {
            assert(s[i + j] == pat[j]);
        }
    }
    if starts_with_at(s.skip(i), pat, 0) {
        assert forall|j: int| 0 <= j < pat.len() implies s[i + j] == pat[j] by {
            assert(s.skip(i)[0 + j] == pat[j]);
        }
    }
}

/// s with every occurrence of pat replaced by rep, scanning left to right
/// and never rescanning replaced text.
pub open spec fn replace_all(s: Seq<char>, pat: Seq<char>, rep: Seq<char>) -> Seq<char>
    decreases s.len(),
{
    if pat.len() == 0 || s.len() == 0 {
        s
    } else if starts_with_at(s, pat, 0) {
        rep + replace_all(s.skip(pat.len() as int), pat, rep)
    } else {
        seq![s[0]] + replace_all(s.skip(1), pat, rep)
    }
}

pub fn replace_all_str(s: &str, pat: &str, rep: &str) -> (r: String)
    ensures
        r@ == replace_all(s@, pat@, rep@),
{
    let len: usize = s.unicode_len();
    let plen: usize = pat.unicode_len();
    if plen == 0 {
        return String::from_str(s);
    }
    let mut out: String = String::new();
    let mut i: usize = 0;
    proof {
        assert(s@.skip(0) =~= s@);
        assert(out@ + replace_all(s@, pat@, rep@) =~= replace_all(s@, pat@, rep@));
    }
    while i < len
        invariant
            len == s@.len(),
            plen == pat@.len(),
            plen >= 1,
            i <= len,
            out@ + replace_all(s@.skip(i as int), pat@, rep@) == replace_all(s@, pat@, rep@),
        decreases len - i,
    {
        proof {
            lemma_starts_with_skip(s@, pat@, i as int);
        }
        if matches_at(s, i, pat) {
            out.append(rep);
            proof {
                assert(s@.skip(i as int).skip(plen as int) =~= s@.skip(i as int + plen as int));
                assert(out@ + replace_all(s@.skip(i as int + plen as int), pat@, rep@) =~= replace_all(s@, pat@, rep@));
            }
            i = i + plen;
        } else {
            let c = s.get_char(i);
            push_char(&mut out, c);
            proof {
                assert(s@.skip(i as int).skip(1) =~= s@.skip(i as int + 1));
                assert(s@.skip(i as int)[0] == s@[i as int]);
                assert(out@ + replace_all(s@.skip(i as int + 1), pat@, rep@) =~= replace_all(s@, pat@, rep@));
            }
            i = i + 1;
        }
    }
    proof {
        assert(s@.skip(len as int) =~= Seq::<char>::empty());
        assert(out@ + replace_all(Seq::<char>::empty(), pat@, rep@) =~= out@);
    }
    out
}

pub fn usize_to_string(n: usize) -> (s: String)
    ensures
        s@ == dec_rep(n as nat),
    decreases n,
{
    if n < 10 {
        let mut s = String::new();
        push_char(&mut s, (0x30u8 + n as u8) as char);
        proof {
            assert(s@ =~= seq![digit_char(n as nat)]);
        }
        s
    } else {
        let mut s = usize_to_string(n / 10);
        push_char(&mut s, (0x30u8 + (n % 10) as u8) as char);
        s
    }
}

} // verus!
