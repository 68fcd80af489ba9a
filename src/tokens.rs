use vstd::prelude::*;

verus! {

/// One lexical token of a file, in stream order. A delimited group appears as
/// its opening delimiter, then its inner tokens, then its closing delimiter.
#[derive(Debug, Clone, PartialEq, Eq)]
pub enum Token {
    /// Start of a group; `delimited` is false for a group without explicit brackets.
    Open { delimited: bool },
    /// End of a group; `delimited` as for the matching `Open`.
    Close { delimited: bool },
    /// A punctuation character; `joint` when it is joined to the next one.
    Punct { joint: bool },
    /// An identifier or keyword.
    Ident { text: String },
    /// A literal: number, string, character and the like.
    Literal,
}

/// What the token counter reports.
#[derive(Debug, Clone, Copy, PartialEq, Eq)]
pub struct TokenStats {
    pub total_tokens: u64,
    pub total_unsafe_tokens: u64,
}

/// The characters of the `unsafe` keyword.
pub open spec fn unsafe_keyword() -> Seq<char> {
    seq!['u', 'n', 's', 'a', 'f', 'e']
}

/// How much one token adds to the token total: one per explicit delimiter,
/// one per operator (the last of a run of joined punctuation), one per
/// identifier and per literal.
pub open spec fn token_weight(t: Token) -> int {
    match t {
        Token::Open { delimited } => if delimited { 1 } else { 0 },
        Token::Close { delimited } => if delimited { 1 } else { 0 },
        Token::Punct { joint } => if joint { 0 } else { 1 },
        Token::Ident { .. } => 1,
        Token::Literal => 1,
    }
}

/// The token is the identifier `unsafe`.
pub open spec fn is_unsafe_token(t: Token) -> bool {
    match t {
        Token::Ident { text } => text@ == unsafe_keyword(),
        _ => false,
    }
}

/// The token total of a stream.
pub open spec fn token_total(s: Seq<Token>) -> int
    decreases s.len(),
{
    if s.len() == 0 {
        0
    } else {
        token_total(s.drop_last()) + token_weight(s.last())
    }
}

/// The number of `unsafe` identifiers in a stream.
pub open spec fn unsafe_token_count(s: Seq<Token>) -> int
    decreases s.len(),
{
    if s.len() == 0 {
        0
    } else {
        unsafe_token_count(s.drop_last()) + if is_unsafe_token(s.last()) { 1int } else { 0 }
    }
}

/// Whether `text` is exactly the `unsafe` keyword.
pub fn is_unsafe_keyword(text: &str) -> (r: bool)
    ensures
        r == (text@ == unsafe_keyword()),
{
    let ghost kw = unsafe_keyword();
    if text.unicode_len() != 6 {
        return false;
    }
    let c0 = text.get_char(0);
    let c1 = text.get_char(1);
    let c2 = text.get_char(2);
    let c3 = text.get_char(3);
    let c4 = text.get_char(4);
    let c5 = text.get_char(5);
    let r = c0 == 'u' && c1 == 'n' && c2 == 's' && c3 == 'a' && c4 == 'f' && c5 == 'e';
    if r {
        assert(text@ =~= kw);
    } else {
        assert(text@ != kw) by {
            if text@ == kw {
                assert(text@[0] == kw[0] && text@[1] == kw[1] && text@[2] == kw[2]);
                assert(text@[3] == kw[3] && text@[4] == kw[4] && text@[5] == kw[5]);
            }
        }
    }
    r
}

impl TokenStats {
    /// Counts the tokens of a stream and its `unsafe` identifiers, wherever
    /// they stand.
    pub fn count(tokens: &Vec<Token>) -> (r: TokenStats)
        ensures
            r.total_tokens == token_total(tokens@),
            r.total_unsafe_tokens == unsafe_token_count(tokens@),
    {
        let mut total: u64 = 0;
        let mut unsafe_count: u64 = 0;
        let mut i: usize = 0;
        while i < tokens.len()
            invariant
                i <= tokens@.len(),
                total == token_total(tokens@.take(i as int)),
                unsafe_count == unsafe_token_count(tokens@.take(i as int)),
                total <= i,
                unsafe_count <= i,
            decreases tokens@.len() - i,
        {
            assert(tokens@.take(i as int + 1).drop_last() =~= tokens@.take(i as int));
            match &tokens[i] {
                Token::Open { delimited } => {
                    if *delimited {
                        total = total + 1;
                    }
                },
                Token::Close { delimited } => {
                    if *delimited {
                        total = total + 1;
                    }
                },
                Token::Punct { joint } => {
                    if !*joint {
                        total = total + 1;
                    }
                },
                Token::Ident { text } => {
                    total = total + 1;
                    if is_unsafe_keyword(text.as_str()) {
                        unsafe_count = unsafe_count + 1;
                    }
                },
                Token::Literal => {
                    total = total + 1;
                },
            }
            i = i + 1;
        }
        assert(tokens@.take(tokens@.len() as int) =~= tokens@);
        TokenStats { total_tokens: total, total_unsafe_tokens: unsafe_count }
    }
}

} // verus!
