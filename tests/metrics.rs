use measure_unsafety::{
    count_code_lines, parse_source, Cli, EvalError, Stats, SyntaxEvent, Token, TokenStats,
    VisitorStats,
};

fn ident(s: &str) -> Token {
    Token::Ident { text: s.to_string() }
}

fn open() -> Token {
    Token::Open { delimited: true }
}

fn close() -> Token {
    Token::Close { delimited: true }
}

fn semi() -> Token {
    Token::Punct { joint: false }
}

/// Tokens of `bar();`
fn call_bar() -> Vec<Token> {
    vec![ident("bar"), open(), close(), semi()]
}

/// Tokens of `fn foo()` preceded by the given qualifiers.
fn fn_head(qualifiers: &[&str]) -> Vec<Token> {
    let mut v: Vec<Token> = qualifiers.iter().map(|q| ident(q)).collect();
    v.push(ident("fn"));
    v.push(ident("foo"));
    v.push(open());
    v.push(close());
    v
}

fn sample(a: u64) -> Stats {
    Stats {
        total_files: a,
        total_lines: a + 1,
        total_tokens: a + 2,
        total_statements: a + 3,
        unsafe_score: a + 4,
        unsafe_statements: a + 5,
        unsafe_fns: a + 6,
        unsafe_pub_fns: a + 7,
        unsafe_blocks: a + 8,
        unsafe_impls: a + 9,
        unsafe_other: a + 10,
        unsafe_lines_low_fidelity: a + 11,
    }
}

fn fields(s: &Stats) -> [u64; 12] {
    [
        s.total_files,
        s.total_lines,
        s.total_tokens,
        s.total_statements,
        s.unsafe_score,
        s.unsafe_statements,
        s.unsafe_fns,
        s.unsafe_pub_fns,
        s.unsafe_blocks,
        s.unsafe_impls,
        s.unsafe_other,
        s.unsafe_lines_low_fidelity,
    ]
}

#[test]
fn merge_is_order_independent() {
    let a = sample(1);
    let b = sample(20);
    let c = sample(300);
    let abc = Stats::sum(&vec![a, b, c]);
    let cab = Stats::sum(&vec![c, a, b]);
    let bca = Stats::sum(&vec![b, c, a]);
    assert_eq!(fields(&abc), fields(&cab));
    assert_eq!(fields(&abc), fields(&bca));
    assert_eq!(abc.total_files, 321);
    assert_eq!(abc.unsafe_lines_low_fidelity, 354);
    assert_eq!(fields(&a.add(b)), fields(&b.add(a)));
    assert_eq!(fields(&a.add(b).add(c)), fields(&a.add(b.add(c))));
}

#[test]
fn merge_with_zero_is_identity() {
    let a = sample(7);
    assert_eq!(fields(&a.add(Stats::zero())), fields(&a));
    assert_eq!(fields(&Stats::zero().add(a)), fields(&a));
    assert_eq!(fields(&Stats::default()), [0; 12]);
    assert_eq!(fields(&Stats::sum(&vec![])), [0; 12]);
}

#[test]
fn add_assign_adds_each_field() {
    let mut a = sample(1);
    a.add_assign(sample(2));
    assert_eq!(fields(&a), [3, 5, 7, 9, 11, 13, 15, 17, 19, 21, 23, 25]);
}

#[test]
fn unsafe_fn_with_unsafe_block() {
    // unsafe fn foo() { unsafe { bar(); } }
    let mut tokens = fn_head(&["unsafe"]);
    tokens.push(open());
    tokens.push(ident("unsafe"));
    tokens.push(open());
    tokens.extend(call_bar());
    tokens.push(close());
    tokens.push(close());
    let outline = vec![
        SyntaxEvent::EnterFn { is_unsafe: true, is_pub: false, lines: 1 },
        SyntaxEvent::EnterUnsafeBlock { lines: 1 },
        SyntaxEvent::Statement,
        SyntaxEvent::Exit,
        SyntaxEvent::Exit,
    ];
    let s = Stats::evaluate("unsafe fn foo() { unsafe { bar(); } }", &outline, &tokens).unwrap();
    assert_eq!(s.unsafe_fns, 1);
    assert_eq!(s.unsafe_pub_fns, 0);
    assert_eq!(s.unsafe_blocks, 1);
    assert_eq!(s.unsafe_statements, 1);
    assert_eq!(s.unsafe_score, 1);
    assert_eq!(s.unsafe_other, 0);
    assert_eq!(s.total_tokens, 14);
    assert_eq!(s.total_files, 1);
    assert_eq!(s.total_lines, 1);
    assert_eq!(s.unsafe_lines_low_fidelity, 1);
}

#[test]
fn safe_fn_with_unsafe_block() {
    // fn foo() { unsafe { bar(); } }
    let mut tokens = fn_head(&[]);
    tokens.push(open());
    tokens.push(ident("unsafe"));
    tokens.push(open());
    tokens.extend(call_bar());
    tokens.push(close());
    tokens.push(close());
    let outline = vec![
        SyntaxEvent::EnterFn { is_unsafe: false, is_pub: false, lines: 1 },
        SyntaxEvent::EnterUnsafeBlock { lines: 1 },
        SyntaxEvent::Statement,
        SyntaxEvent::Exit,
        SyntaxEvent::Exit,
    ];
    let s = Stats::evaluate("fn foo() { unsafe { bar(); } }", &outline, &tokens).unwrap();
    assert_eq!(s.unsafe_fns, 0);
    assert_eq!(s.unsafe_blocks, 1);
    assert_eq!(s.unsafe_statements, 1);
    assert_eq!(s.unsafe_score, 1);
    assert_eq!(s.total_tokens, 13);
}

#[test]
fn pub_unsafe_fn() {
    // pub unsafe fn foo() { bar(); }
    let mut tokens = fn_head(&["pub", "unsafe"]);
    tokens.push(open());
    tokens.extend(call_bar());
    tokens.push(close());
    let outline = vec![
        SyntaxEvent::EnterFn { is_unsafe: true, is_pub: true, lines: 1 },
        SyntaxEvent::Statement,
        SyntaxEvent::Exit,
    ];
    let s = Stats::evaluate("pub unsafe fn foo() { bar(); }", &outline, &tokens).unwrap();
    assert_eq!(s.unsafe_fns, 1);
    assert_eq!(s.unsafe_pub_fns, 1);
    assert_eq!(s.unsafe_blocks, 0);
    assert_eq!(s.unsafe_statements, 1);
    assert_eq!(s.unsafe_score, 1);
}

#[test]
fn unsafe_impl_without_body() {
    // unsafe impl Sync for Bar {}
    let tokens = vec![
        ident("unsafe"),
        ident("impl"),
        ident("Sync"),
        ident("for"),
        ident("Bar"),
        open(),
        close(),
    ];
    let outline = vec![SyntaxEvent::EnterImpl { is_unsafe: true, is_trait: true }, SyntaxEvent::Exit];
    let s = Stats::evaluate("unsafe impl Sync for Bar {}", &outline, &tokens).unwrap();
    assert_eq!(s.unsafe_impls, 1);
    assert_eq!(s.unsafe_statements, 0);
    assert_eq!(s.unsafe_score, 1);
    assert_eq!(s.unsafe_other, 0);
    assert_eq!(s.total_tokens, 7);
}

#[test]
fn unsafe_method_in_trait_impl() {
    // impl MyTrait for Bar { unsafe fn trait_method() { bar(); } }
    let mut tokens = vec![ident("impl"), ident("MyTrait"), ident("for"), ident("Bar"), open()];
    tokens.extend(vec![ident("unsafe"), ident("fn"), ident("trait_method"), open(), close(), open()]);
    tokens.extend(call_bar());
    tokens.push(close());
    tokens.push(close());
    let outline = vec![
        SyntaxEvent::EnterImpl { is_unsafe: false, is_trait: true },
        SyntaxEvent::EnterImplFn { is_unsafe: true, is_pub: false, lines: 1 },
        SyntaxEvent::Statement,
        SyntaxEvent::Exit,
        SyntaxEvent::Exit,
    ];
    let text = "impl MyTrait for Bar { unsafe fn trait_method() { bar(); } }";
    let s = Stats::evaluate(text, &outline, &tokens).unwrap();
    assert_eq!(s.unsafe_fns, 1);
    assert_eq!(s.unsafe_pub_fns, 1);
    assert_eq!(s.unsafe_score, 1);
}

#[test]
fn private_unsafe_method_in_inherent_impl_is_not_pub() {
    let outline = vec![
        SyntaxEvent::EnterImpl { is_unsafe: false, is_trait: false },
        SyntaxEvent::EnterImplFn { is_unsafe: true, is_pub: false, lines: 3 },
        SyntaxEvent::Exit,
        SyntaxEvent::EnterImplFn { is_unsafe: true, is_pub: true, lines: 2 },
        SyntaxEvent::Exit,
        SyntaxEvent::Exit,
    ];
    let v = VisitorStats::from_outline(&outline);
    assert_eq!(v.unsafe_fns, 2);
    assert_eq!(v.unsafe_pub_fns, 1);
    assert_eq!(v.unsafe_lines_added, 5);
}

#[test]
fn safe_fn_inside_unsafe_block_lines_excluded() {
    // unsafe {          (5 lines)
    //     fn inner() {  (2 lines)
    //         a();
    //     }
    //     b();
    // }
    let outline = vec![
        SyntaxEvent::EnterUnsafeBlock { lines: 5 },
        SyntaxEvent::EnterFn { is_unsafe: false, is_pub: false, lines: 2 },
        SyntaxEvent::Statement,
        SyntaxEvent::Exit,
        SyntaxEvent::Statement,
        SyntaxEvent::Exit,
    ];
    let v = VisitorStats::from_outline(&outline);
    assert_eq!(v.unsafe_lines_added, 5);
    assert_eq!(v.unsafe_lines_removed, 2);
    assert_eq!(v.total_statements, 2);
    assert_eq!(v.unsafe_statements, 1);
    let t = TokenStats { total_tokens: 0, total_unsafe_tokens: 1 };
    let s = Stats::reconcile(6, v, t).unwrap();
    assert_eq!(s.unsafe_lines_low_fidelity, 3);
    assert_eq!(s.total_lines, 6);
}

#[test]
fn nested_unsafe_block_lines_counted_once() {
    let outline = vec![
        SyntaxEvent::EnterUnsafeBlock { lines: 4 },
        SyntaxEvent::EnterUnsafeBlock { lines: 2 },
        SyntaxEvent::Statement,
        SyntaxEvent::Exit,
        SyntaxEvent::Exit,
        SyntaxEvent::Statement,
    ];
    let v = VisitorStats::from_outline(&outline);
    assert_eq!(v.unsafe_blocks, 2);
    assert_eq!(v.unsafe_lines_added, 4);
    assert_eq!(v.unsafe_statements, 1);
    assert_eq!(v.total_statements, 2);
}

#[test]
fn unsafe_keywords_cross_check_constructs() {
    // unsafe trait T {} unsafe impl T for X {}: one keyword is not a construct.
    let tokens = vec![
        ident("unsafe"),
        ident("trait"),
        ident("T"),
        open(),
        close(),
        ident("unsafe"),
        ident("impl"),
        ident("T"),
        ident("for"),
        ident("X"),
        open(),
        close(),
    ];
    let outline = vec![SyntaxEvent::EnterImpl { is_unsafe: true, is_trait: true }, SyntaxEvent::Exit];
    let s = Stats::evaluate("unsafe trait T {} unsafe impl T for X {}", &outline, &tokens).unwrap();
    assert_eq!(s.unsafe_other, 1);
    assert_eq!(s.unsafe_score, 2);
    // Without the trait, the keywords are exactly the constructs.
    let s = Stats::evaluate("unsafe impl T for X {}", &outline, &tokens[5..].to_vec()).unwrap();
    assert_eq!(s.unsafe_other, 0);
}

#[test]
fn token_counting_rule() {
    let tokens = vec![
        Token::Open { delimited: false },
        Token::Punct { joint: true },
        Token::Punct { joint: false },
        Token::Literal,
        Token::Close { delimited: false },
        open(),
        ident("unsafe"),
        ident("unsafe_thing"),
        ident("Unsafe"),
        close(),
    ];
    let t = TokenStats::count(&tokens);
    assert_eq!(t.total_tokens, 7);
    assert_eq!(t.total_unsafe_tokens, 1);
    let empty = TokenStats::count(&vec![]);
    assert_eq!(empty.total_tokens, 0);
}

#[test]
fn code_lines_skip_blank_lines() {
    assert_eq!(count_code_lines(""), 0);
    assert_eq!(count_code_lines("   \n\t\n"), 0);
    assert_eq!(count_code_lines("a\n\n  b  \r\n\u{a0}\nc"), 3);
    assert_eq!(count_code_lines("fn main() {}\n"), 1);
}

#[test]
fn mismatch_when_constructs_exceed_keywords() {
    let outline = vec![SyntaxEvent::EnterUnsafeBlock { lines: 1 }, SyntaxEvent::Exit];
    let r = Stats::evaluate("x", &outline, &vec![ident("x")]);
    assert_eq!(r.unwrap_err(), EvalError::Mismatch);
}

#[test]
fn mismatch_when_more_lines_removed_than_added() {
    // unsafe { fn a() {} fn b() {} } on one line
    let outline = vec![
        SyntaxEvent::EnterUnsafeBlock { lines: 1 },
        SyntaxEvent::EnterFn { is_unsafe: false, is_pub: false, lines: 1 },
        SyntaxEvent::Exit,
        SyntaxEvent::EnterFn { is_unsafe: false, is_pub: false, lines: 1 },
        SyntaxEvent::Exit,
        SyntaxEvent::Exit,
    ];
    let r = Stats::evaluate("unsafe { fn a() {} fn b() {} }", &outline, &vec![ident("unsafe")]);
    assert_eq!(r.unwrap_err(), EvalError::Mismatch);
}

#[test]
fn overflow_when_score_exceeds_u64() {
    let v = VisitorStats {
        total_statements: u64::MAX,
        unsafe_statements: u64::MAX,
        unsafe_fns: 0,
        unsafe_pub_fns: 0,
        unsafe_blocks: 0,
        unsafe_impls: 0,
        unsafe_lines_added: 0,
        unsafe_lines_removed: 0,
    };
    let t = TokenStats { total_tokens: 5, total_unsafe_tokens: 1 };
    assert_eq!(Stats::reconcile(1, v, t).unwrap_err(), EvalError::Overflow);
}

#[test]
fn parse_source_rejects_invalid_text() {
    assert_eq!(parse_source("fn (").err(), Some(EvalError::Parse));
    assert!(parse_source("fn main() {}").is_ok());
}

#[test]
fn cli_single_file_and_project() {
    let one = Cli { project_root: "a.rs".to_string(), file: true, verbose: false };
    let r = one.evaluate(&vec![sample(4)]);
    assert_eq!(fields(&r), fields(&sample(4)));
    let all = Cli { project_root: ".".to_string(), file: false, verbose: true };
    let r = all.evaluate(&vec![sample(1), sample(2)]);
    assert_eq!(r.total_files, 3);
    assert_eq!(r.unsafe_other, 23);
}

#[test]
fn try_sum_reports_overflow() {
    let mut big = sample(0);
    big.unsafe_blocks = u64::MAX;
    assert!(Stats::try_sum(&vec![big, sample(1)]).is_none());
    assert!(big.try_add(Stats::zero()).is_some());
    assert!(big.try_add(sample(1)).is_none());
    let r = Stats::try_sum(&vec![sample(1), sample(2)]).unwrap();
    assert_eq!(fields(&r), fields(&sample(1).add(sample(2))));
    assert_eq!(r.total_tokens, 7);
}
