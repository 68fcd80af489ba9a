use vstd::prelude::*;
use vstd::std_specs::iter::IteratorSpec;
use crate::outline::{report_of, walk, SyntaxEvent, VisitorStats};
use crate::stats::Stats;
use crate::tokens::{token_total, unsafe_token_count, Token, TokenStats};

verus! {

/// The Unicode `White_Space` characters, which `char::is_whitespace` accepts.
pub open spec fn is_space(c: char) -> bool {
    ('\t' <= c && c <= '\r') || c == ' ' || c == '\u{85}' || c == '\u{a0}' || c == '\u{1680}'
        || ('\u{2000}' <= c && c <= '\u{200a}') || c == '\u{2028}' || c == '\u{2029}'
        || c == '\u{202f}' || c == '\u{205f}' || c == '\u{3000}'
}

fn char_is_space(c: char) -> (r: bool)
    ensures
        r == is_space(c),
{
    ('\t' <= c && c <= '\r') || c == ' ' || c == '\u{85}' || c == '\u{a0}' || c == '\u{1680}'
        || ('\u{2000}' <= c && c <= '\u{200a}') || c == '\u{2028}' || c == '\u{2029}'
        || c == '\u{202f}' || c == '\u{205f}' || c == '\u{3000}'
}

/// Number of lines of `s` (split at `'\n'`) that hold a non-whitespace
/// character, where `seen` says whether the line that `s` starts in already
/// held one before `s`.
pub open spec fn code_lines_from(s: Seq<char>, seen: bool) -> int
    decreases s.len(),
{
    if s.len() == 0 {
        0
    } else if s[0] == '\n' {
        code_lines_from(s.drop_first(), false)
    } else if is_space(s[0]) {
        code_lines_from(s.drop_first(), seen)
    } else {
        (if seen { 0int } else { 1 }) + code_lines_from(s.drop_first(), true)
    }
}

/// Number of lines of `s` that are not blank.
pub open spec fn code_lines(s: Seq<char>) -> int {
    code_lines_from(s, false)
}

proof fn lemma_code_lines_bounded(s: Seq<char>, seen: bool)
    ensures
        0 <= code_lines_from(s, seen) <= s.len(),
    decreases s.len(),
{
    if s.len() > 0 {
        lemma_code_lines_bounded(s.drop_first(), false);
        lemma_code_lines_bounded(s.drop_first(), true);
        lemma_code_lines_bounded(s.drop_first(), seen);
    }
}

/// Counts the lines of `text` that hold something besides whitespace.
pub fn count_code_lines(text: &str) -> (r: u64)
    ensures
        r == code_lines(text@),
{
    broadcast use vstd::string::axiom_spec_iter, vstd::string::next_postcondition;
    let n = text.unicode_len();
    let mut it = text.chars();
    let mut count: u64 = 0;
    let mut seen = false;
    let ghost mut done: int = 0;
    proof {
        lemma_code_lines_bounded(text@, false);
    }
    loop
        invariant
            0 <= done <= text@.len(),
            text@.len() == n,
            it.remaining() == text@.skip(done),
            it.obeys_prophetic_iter_laws(),
            count + code_lines_from(it.remaining(), seen) == code_lines(text@),
            count <= done,
        ensures
            count == code_lines(text@),
        decreases text@.len() - done,
    {
        let ghost before = it.remaining();
        proof {
            lemma_code_lines_bounded(before, seen);
        }
        match it.next() {
            None => {
                assert(before.len() == 0);
                assert(code_lines_from(before, seen) == 0);
                break;
            },
            Some(c) => {
                assert(before.drop_first() =~= text@.skip(done + 1));
                if c == '\n' {
                    seen = false;
                } else if char_is_space(c) {
                } else {
                    if !seen {
                        count = count + 1;
                    }
                    seen = true;
                }
                proof {
                    done = done + 1;
                }
            },
        }
    }
    count
}

/// Why a file yields no record.
#[derive(Debug, Clone, Copy, PartialEq, Eq, Structural)]
pub enum EvalError {
    /// The text is not a syntactically valid Rust file.
    Parse,
    /// The syntax walk found more unsafe constructs than the token stream
    /// holds `unsafe` keywords, or took out more unsafe lines than it put in.
    Mismatch,
    /// A derived counter does not fit in a `u64`.
    Overflow,
}

/// `unsafe` keywords that belong to no unsafe function, block or impl.
pub open spec fn other_unsafe(v: VisitorStats, t: TokenStats) -> int {
    t.total_unsafe_tokens - v.unsafe_fns - v.unsafe_blocks - v.unsafe_impls
}

/// Net unsafe line span.
pub open spec fn net_unsafe_lines(v: VisitorStats) -> int {
    v.unsafe_lines_added - v.unsafe_lines_removed
}

/// The composite score: unsafe statements, unsafe impls and other uses of `unsafe`.
pub open spec fn score(v: VisitorStats, t: TokenStats) -> int {
    v.unsafe_statements + v.unsafe_impls + other_unsafe(v, t)
}

/// The one-file record made from a line count and the two analyses.
pub open spec fn reconciled(total_lines: u64, v: VisitorStats, t: TokenStats) -> Result<Stats, EvalError> {
    if other_unsafe(v, t) < 0 || net_unsafe_lines(v) < 0 {
        Err(EvalError::Mismatch)
    } else if net_unsafe_lines(v) > u64::MAX || score(v, t) > u64::MAX {
        Err(EvalError::Overflow)
    } else {
        Ok(
            Stats {
                total_files: 1,
                total_lines,
                total_tokens: t.total_tokens,
                total_statements: v.total_statements,
                unsafe_score: score(v, t) as u64,
                unsafe_statements: v.unsafe_statements,
                unsafe_fns: v.unsafe_fns,
                unsafe_pub_fns: v.unsafe_pub_fns,
                unsafe_blocks: v.unsafe_blocks,
                unsafe_impls: v.unsafe_impls,
                unsafe_other: other_unsafe(v, t) as u64,
                unsafe_lines_low_fidelity: net_unsafe_lines(v) as u64,
            },
        )
    }
}

/// The token counter's report on a stream.
pub open spec fn token_report(tokens: Seq<Token>) -> TokenStats {
    TokenStats {
        total_tokens: token_total(tokens) as u64,
        total_unsafe_tokens: unsafe_token_count(tokens) as u64,
    }
}

/// The record of one file, from its text, its syntax outline and its tokens.
pub open spec fn evaluation(text: Seq<char>, outline: Seq<SyntaxEvent>, tokens: Seq<Token>) -> Result<
    Stats,
    EvalError,
> {
    reconciled(code_lines(text) as u64, report_of(walk(outline)), token_report(tokens))
}

/// Every record that evaluation yields has `unsafe_other` equal to the
/// `unsafe` keywords of the token stream less the unsafe functions, blocks and
/// impls of the syntax walk, and that difference is never negative.
pub proof fn unsafe_other_accounts_for_keywords(text: Seq<char>, outline: Seq<SyntaxEvent>, tokens: Seq<Token>)
    requires
        evaluation(text, outline, tokens) is Ok,
    ensures
        ({
            let r = evaluation(text, outline, tokens)->Ok_0;
            let v = report_of(walk(outline));
            let t = token_report(tokens);
            &&& r.unsafe_other as int == t.total_unsafe_tokens - v.unsafe_fns - v.unsafe_blocks - v.unsafe_impls
            &&& t.total_unsafe_tokens - v.unsafe_fns - v.unsafe_blocks - v.unsafe_impls >= 0
            &&& r.unsafe_score as int == r.unsafe_statements + r.unsafe_impls + r.unsafe_other
        }),
{
}

/// The token count cross-checks the syntax walk: a file with no `unsafe`
/// beyond its unsafe blocks, functions and impls holds exactly as many
/// `unsafe` keywords as those constructs together.
pub proof fn unsafe_keywords_match_constructs(text: Seq<char>, outline: Seq<SyntaxEvent>, tokens: Seq<Token>)
    requires
        evaluation(text, outline, tokens) is Ok,
    ensures
        ({
            let r = evaluation(text, outline, tokens)->Ok_0;
            r.unsafe_other == 0 <==> token_report(tokens).total_unsafe_tokens == r.unsafe_blocks
                + r.unsafe_fns + r.unsafe_impls
        }),
{
}

impl Stats {
    /// Combines a line count and the two analyses of one file into its record.
    pub fn reconcile(total_lines: u64, v: VisitorStats, t: TokenStats) -> (r: Result<Stats, EvalError>)
        ensures
            r == reconciled(total_lines, v, t),
    {
        let constructs = v.unsafe_fns as u128 + v.unsafe_blocks as u128 + v.unsafe_impls as u128;
        if (t.total_unsafe_tokens as u128) < constructs
            || v.unsafe_lines_added < v.unsafe_lines_removed {
            return Err(EvalError::Mismatch);
        }
        let other = (t.total_unsafe_tokens as u128 - constructs) as u64;
        let lines = v.unsafe_lines_added - v.unsafe_lines_removed;
        let score = v.unsafe_statements as u128 + v.unsafe_impls as u128 + other as u128;
        if lines > u64::MAX as u128 || score > u64::MAX as u128 {
            return Err(EvalError::Overflow);
        }
        Ok(
            Stats {
                total_files: 1,
                total_lines,
                total_tokens: t.total_tokens,
                total_statements: v.total_statements,
                unsafe_score: score as u64,
                unsafe_statements: v.unsafe_statements,
                unsafe_fns: v.unsafe_fns,
                unsafe_pub_fns: v.unsafe_pub_fns,
                unsafe_blocks: v.unsafe_blocks,
                unsafe_impls: v.unsafe_impls,
                unsafe_other: other,
                unsafe_lines_low_fidelity: lines as u64,
            },
        )
    }

    /// The record of one file: its non-blank lines, the walk over its syntax
    /// outline and the count of its tokens, reconciled.
    pub fn evaluate(text: &str, outline: &Vec<SyntaxEvent>, tokens: &Vec<Token>) -> (r: Result<
        Stats,
        EvalError,
    >)
        ensures
            r == evaluation(text@, outline@, tokens@),
    {
        let total_lines = count_code_lines(text);
        let v = VisitorStats::from_outline(outline);
        let t = TokenStats::count(tokens);
        Stats::reconcile(total_lines, v, t)
    }
}

} // verus!
