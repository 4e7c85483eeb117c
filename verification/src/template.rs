//! The command template engine: turns a user-authored command string into an
//! argument vector.
//!
//! A template is tokenized first: tokens are separated by whitespace, and a
//! double quote opens a stretch that runs, embedded whitespace included,
//! until the closing quote; the quote characters themselves are stripped.
//! Each token then has the four recognized placeholders (`$title`,
//! `$oauth_token`, `$broadcaster_username`, `$broadcaster_displayname`)
//! replaced by their runtime values in a single left-to-right pass, so a
//! value that is substituted in is never itself rescanned.  Any other `$...`
//! text passes through unchanged.
use vstd::prelude::*;

use crate::text::{
    is_space, is_space_char, lemma_starts_with_shift, lemma_starts_with_skip, matches_at,
    push_char, starts_with_at, views_of,
};

verus! {

/// A configuration fault found while a template was being turned into an
/// argument vector, surfaced before any process is spawned.
#[derive(Clone, Copy, Debug, PartialEq, Eq, Structural)]
pub enum ConfigError {
    /// The stream command template held no token at all.
    EmptyStreamCommand,
    /// A template held a double quote that was never closed.
    UnbalancedQuotes,
}

/// The state of the tokenizer after reading a prefix of the template:
/// the finished tokens, the token being gathered, whether one is being
/// gathered at all, and whether the scan stands inside a quoted stretch.
pub ghost struct TokenizerState {
    pub done: Seq<Seq<char>>,
    pub cur: Seq<char>,
    pub started: bool,
    pub in_quote: bool,
}

pub open spec fn tokenizer_init() -> TokenizerState {
    TokenizerState { done: Seq::empty(), cur: Seq::empty(), started: false, in_quote: false }
}

pub open spec fn tokenizer_step(st: TokenizerState, c: char) -> TokenizerState {
    if st.in_quote {
        if c == '"' {
            TokenizerState { done: st.done, cur: st.cur, started: st.started, in_quote: false }
        } else {
            TokenizerState {
                done: st.done,
                cur: st.cur.push(c),
                started: st.started,
                in_quote: true,
            }
        }
    } else if c == '"' {
        TokenizerState { done: st.done, cur: st.cur, started: true, in_quote: true }
    } else if is_space_char(c) {
        if st.started {
            TokenizerState {
                done: st.done.push(st.cur),
                cur: Seq::empty(),
                started: false,
                in_quote: false,
            }
        } else {
            st
        }
    } else {
        TokenizerState { done: st.done, cur: st.cur.push(c), started: true, in_quote: false }
    }
}

pub open spec fn tokenizer_run(s: Seq<char>) -> TokenizerState
    decreases s.len(),
{
    if s.len() == 0 {
        tokenizer_init()
    } else {
        tokenizer_step(tokenizer_run(s.drop_last()), s.last())
    }
}

/// Every double quote that was opened in s is also closed.
pub open spec fn quotes_balanced(s: Seq<char>) -> bool {
    !tokenizer_run(s).in_quote
}

/// The tokens of the template s, quote characters stripped.
pub open spec fn tokens_of(s: Seq<char>) -> Seq<Seq<char>> {
    let st = tokenizer_run(s);
    if st.started {
        st.done.push(st.cur)
    } else {
        st.done
    }
}

proof fn lemma_tokenizer_run_snoc(s: Seq<char>, i: int)
    requires
        0 <= i < s.len(),
    ensures
        tokenizer_run(s.take(i + 1)) == tokenizer_step(tokenizer_run(s.take(i)), s[i]),
{
    assert(s.take(i + 1).drop_last() =~= s.take(i));
    assert(s.take(i + 1).last() == s[i]);
}

proof fn lemma_views_of_push(v: Seq<String>, s: String)
    ensures
        views_of(v.push(s)) =~= views_of(v).push(s@),
{
}

/// Splits the template into its tokens.  Fails exactly when a quoted
/// stretch is left open.
pub fn tokenize(s: &str) -> (r: Result<Vec<String>, ConfigError>)
    ensures
        r is Ok <==> quotes_balanced(s@),
        r matches Err(e) ==> e == ConfigError::UnbalancedQuotes,
        r matches Ok(v) ==> views_of(v@) == tokens_of(s@),
{
    let len: usize = s.unicode_len();
    let mut out: Vec<String> = Vec::new();
    let mut cur: String = String::new();
    let mut started: bool = false;
    let mut in_quote: bool = false;
    let mut i: usize = 0;
    proof {
        assert(s@.take(0) =~= Seq::<char>::empty());
        assert(views_of(out@) =~= tokenizer_init().done);
    }
    while i < len
        invariant
            len == s@.len(),
            i <= len,
            views_of(out@) == tokenizer_run(s@.take(i as int)).done,
            cur@ == tokenizer_run(s@.take(i as int)).cur,
            started == tokenizer_run(s@.take(i as int)).started,
            in_quote == tokenizer_run(s@.take(i as int)).in_quote,
        decreases len - i,
    {
        let c = s.get_char(i);
        proof {
            lemma_tokenizer_run_snoc(s@, i as int);
        }
        if in_quote {
            if c == '"' {
                in_quote = false;
            } else {
                push_char(&mut cur, c);
            }
        } else if c == '"' {
            started = true;
            in_quote = true;
        } else if is_space(c) {
            if started {
                proof {
                    lemma_views_of_push(out@, cur);
                }
                out.push(cur);
                cur = String::new();
                started = false;
            }
        } else {
            push_char(&mut cur, c);
            started = true;
        }
        i = i + 1;
    }
    proof {
        assert(s@.take(len as int) =~= s@);
    }
    if in_quote {
        return Err(ConfigError::UnbalancedQuotes);
    }
    if started {
        proof {
            lemma_views_of_push(out@, cur);
        }
        out.push(cur);
    }
    Ok(out)
}

/// The `$title` placeholder.
pub open spec fn ph_title() -> Seq<char> {
    seq!['$', 't', 'i', 't', 'l', 'e']
}

/// The `$oauth_token` placeholder.
pub open spec fn ph_oauth_token() -> Seq<char> {
    seq!['$', 'o', 'a', 'u', 't', 'h', '_', 't', 'o', 'k', 'e', 'n']
}

/// The `$broadcaster_username` placeholder.
pub open spec fn ph_broadcaster_username() -> Seq<char> {
    seq![
        '$',
        'b',
        'r',
        'o',
        'a',
        'd',
        'c',
        'a',
        's',
        't',
        'e',
        'r',
        '_',
        'u',
        's',
        'e',
        'r',
        'n',
        'a',
        'm',
        'e',
    ]
}

/// The `$broadcaster_displayname` placeholder.
pub open spec fn ph_broadcaster_displayname() -> Seq<char> {
    seq![
        '$',
        'b',
        'r',
        'o',
        'a',
        'd',
        'c',
        'a',
        's',
        't',
        'e',
        'r',
        '_',
        'd',
        'i',
        's',
        'p',
        'l',
        'a',
        'y',
        'n',
        'a',
        'm',
        'e',
    ]
}

/// One of the four recognized placeholders begins at position i of s.
pub open spec fn placeholder_at(s: Seq<char>, i: int) -> bool {
    ||| starts_with_at(s, ph_title(), i)
    ||| starts_with_at(s, ph_oauth_token(), i)
    ||| starts_with_at(s, ph_broadcaster_username(), i)
    ||| starts_with_at(s, ph_broadcaster_displayname(), i)
}

/// Some recognized placeholder occurs somewhere in s.
pub open spec fn has_placeholder(s: Seq<char>) -> bool {
    exists|i: int| 0 <= i < s.len() && #[trigger] placeholder_at(s, i)
}

/// The runtime values that replace the four placeholders of a template.
#[derive(Clone, Debug)]
pub struct SubstitutionValues {
    pub title: String,
    pub oauth_token: String,
    pub broadcaster_username: String,
    pub broadcaster_displayname: String,
}

/// s with every placeholder replaced by its value, in one left-to-right
/// pass: a value that was substituted in is never itself rescanned.
pub open spec fn substitute_spec(
    s: Seq<char>,
    title: Seq<char>,
    oauth: Seq<char>,
    user: Seq<char>,
    disp: Seq<char>,
) -> Seq<char>
    decreases s.len(),
{
    if s.len() == 0 {
        Seq::empty()
    } else if starts_with_at(s, ph_title(), 0) {
        title + substitute_spec(s.skip(6), title, oauth, user, disp)
    } else if starts_with_at(s, ph_oauth_token(), 0) {
        oauth + substitute_spec(s.skip(12), title, oauth, user, disp)
    } else if starts_with_at(s, ph_broadcaster_username(), 0) {
        user + substitute_spec(s.skip(21), title, oauth, user, disp)
    } else if starts_with_at(s, ph_broadcaster_displayname(), 0) {
        disp + substitute_spec(s.skip(24), title, oauth, user, disp)
    } else {
        seq![s[0]] + substitute_spec(s.skip(1), title, oauth, user, disp)
    }
}

/// Replaces the placeholders of one token by the given values.
pub fn substitute(s: &str, vals: &SubstitutionValues) -> (r: String)
    ensures
        r@ == substitute_spec(
            s@,
            vals.title@,
            vals.oauth_token@,
            vals.broadcaster_username@,
            vals.broadcaster_displayname@,
        ),
{
    let ghost t = vals.title@;
    let ghost o = vals.oauth_token@;
    let ghost u = vals.broadcaster_username@;
    let ghost d = vals.broadcaster_displayname@;
    proof {
        reveal_strlit("$title");
        reveal_strlit("$oauth_token");
        reveal_strlit("$broadcaster_username");
        reveal_strlit("$broadcaster_displayname");
        assert("$title"@ =~= ph_title());
        assert("$oauth_token"@ =~= ph_oauth_token());
        assert("$broadcaster_username"@ =~= ph_broadcaster_username());
        assert("$broadcaster_displayname"@ =~= ph_broadcaster_displayname());
    }
    let len: usize = s.unicode_len();
    let mut out: String = String::new();
    let mut i: usize = 0;
    proof {
        assert(s@.skip(0) =~= s@);
        assert(out@ + substitute_spec(s@, t, o, u, d) =~= substitute_spec(s@, t, o, u, d));
    }
    while i < len
        invariant
            len == s@.len(),
            i <= len,
            "$title"@ == ph_title(),
            "$oauth_token"@ == ph_oauth_token(),
            "$broadcaster_username"@ == ph_broadcaster_username(),
            "$broadcaster_displayname"@ == ph_broadcaster_displayname(),
            t == vals.title@,
            o == vals.oauth_token@,
            u == vals.broadcaster_username@,
            d == vals.broadcaster_displayname@,
            out@ + substitute_spec(s@.skip(i as int), t, o, u, d) == substitute_spec(s@, t, o, u, d),
        decreases len - i,
    {
        proof {
            lemma_starts_with_skip(s@, ph_title(), i as int);
            lemma_starts_with_skip(s@, ph_oauth_token(), i as int);
            lemma_starts_with_skip(s@, ph_broadcaster_username(), i as int);
            lemma_starts_with_skip(s@, ph_broadcaster_displayname(), i as int);
        }
        if matches_at(s, i, "$title") {
            out.append(vals.title.as_str());
            proof {
                assert(s@.skip(i as int).skip(6) =~= s@.skip(i as int + 6));
                assert(out@ + substitute_spec(s@.skip(i as int + 6), t, o, u, d)
                    =~= substitute_spec(s@, t, o, u, d));
            }
            i = i + 6;
        } else if matches_at(s, i, "$oauth_token") {
            out.append(vals.oauth_token.as_str());
            proof {
                assert(s@.skip(i as int).skip(12) =~= s@.skip(i as int + 12));
                assert(out@ + substitute_spec(s@.skip(i as int + 12), t, o, u, d)
                    =~= substitute_spec(s@, t, o, u, d));
            }
            i = i + 12;
        } else if matches_at(s, i, "$broadcaster_username") {
            out.append(vals.broadcaster_username.as_str());
            proof {
                assert(s@.skip(i as int).skip(21) =~= s@.skip(i as int + 21));
                assert(out@ + substitute_spec(s@.skip(i as int + 21), t, o, u, d)
                    =~= substitute_spec(s@, t, o, u, d));
            }
            i = i + 21;
        } else if matches_at(s, i, "$broadcaster_displayname") {
            out.append(vals.broadcaster_displayname.as_str());
            proof {
                assert(s@.skip(i as int).skip(24) =~= s@.skip(i as int + 24));
                assert(out@ + substitute_spec(s@.skip(i as int + 24), t, o, u, d)
                    =~= substitute_spec(s@, t, o, u, d));
            }
            i = i + 24;
        } else {
            let c = s.get_char(i);
            push_char(&mut out, c);
            proof {
                assert(s@.skip(i as int).skip(1) =~= s@.skip(i as int + 1));
                assert(s@.skip(i as int)[0] == s@[i as int]);
                assert(out@ + substitute_spec(s@.skip(i as int + 1), t, o, u, d)
                    =~= substitute_spec(s@, t, o, u, d));
            }
            i = i + 1;
        }
    }
    proof {
        assert(s@.skip(len as int) =~= Seq::<char>::empty());
        assert(out@ + Seq::<char>::empty() =~= out@);
    }
    out
}

/// Substituting into a token that holds no placeholder returns it
/// unchanged.
pub proof fn lemma_substitute_without_placeholders(
    s: Seq<char>,
    title: Seq<char>,
    oauth: Seq<char>,
    user: Seq<char>,
    disp: Seq<char>,
)
    requires
        !has_placeholder(s),
    ensures
        substitute_spec(s, title, oauth, user, disp) == s,
    decreases s.len(),
{
    if s.len() == 0 {
        assert(substitute_spec(s, title, oauth, user, disp) =~= s);
    } else {
        if placeholder_at(s, 0) {
            assert(has_placeholder(s));
        }
        assert(!placeholder_at(s, 0));
        assert forall|i: int| !(0 <= i < s.skip(1).len() && #[trigger] placeholder_at(s.skip(1), i)) by {
            if 0 <= i < s.skip(1).len() && placeholder_at(s.skip(1), i) {
                if starts_with_at(s.skip(1), ph_title(), i) {
                    lemma_starts_with_shift(s, ph_title(), i);
                }
                if starts_with_at(s.skip(1), ph_oauth_token(), i) {
                    lemma_starts_with_shift(s, ph_oauth_token(), i);
                }
                if starts_with_at(s.skip(1), ph_broadcaster_username(), i) {
                    lemma_starts_with_shift(s, ph_broadcaster_username(), i);
                }
                if starts_with_at(s.skip(1), ph_broadcaster_displayname(), i) {
                    lemma_starts_with_shift(s, ph_broadcaster_displayname(), i);
                }
                assert(placeholder_at(s, i + 1));
                assert(has_placeholder(s));
            }
        }
        lemma_substitute_without_placeholders(s.skip(1), title, oauth, user, disp);
        assert(seq![s[0]] + s.skip(1) =~= s);
    }
}

/// The tokens of the template with every placeholder replaced, in order.
pub open spec fn rendered_tokens(
    tmpl: Seq<char>,
    title: Seq<char>,
    oauth: Seq<char>,
    user: Seq<char>,
    disp: Seq<char>,
) -> Seq<Seq<char>> {
    tokens_of(tmpl).map_values(|tok: Seq<char>| substitute_spec(tok, title, oauth, user, disp))
}

/// Tokenizes the template and substitutes the values into every token.
/// Fails exactly when the template's quoting is unbalanced.
pub fn render_template(tmpl: &str, vals: &SubstitutionValues) -> (r: Result<
    Vec<String>,
    ConfigError,
>)
    ensures
        r is Ok <==> quotes_balanced(tmpl@),
        r matches Err(e) ==> e == ConfigError::UnbalancedQuotes,
        r matches Ok(v) ==> views_of(v@) == rendered_tokens(
            tmpl@,
            vals.title@,
            vals.oauth_token@,
            vals.broadcaster_username@,
            vals.broadcaster_displayname@,
        ),
{
    let toks = match tokenize(tmpl) {
        Ok(v) => v,
        Err(e) => {
            return Err(e);
        },
    };
    let mut out: Vec<String> = Vec::new();
    let mut i: usize = 0;
    while i < toks.len()
        invariant
            views_of(toks@) == tokens_of(tmpl@),
            i <= toks@.len(),
            out@.len() == i,
            forall|k: int|
                0 <= k < i ==> views_of(out@)[k] == substitute_spec(
                    #[trigger] views_of(toks@)[k],
                    vals.title@,
                    vals.oauth_token@,
                    vals.broadcaster_username@,
                    vals.broadcaster_displayname@,
                ),
        decreases toks@.len() - i,
    {
        let sub = substitute(toks[i].as_str(), vals);
        out.push(sub);
        i = i + 1;
    }
    proof {
        assert(views_of(out@) =~= rendered_tokens(
            tmpl@,
            vals.title@,
            vals.oauth_token@,
            vals.broadcaster_username@,
            vals.broadcaster_displayname@,
        ));
    }
    Ok(out)
}

} // verus!
