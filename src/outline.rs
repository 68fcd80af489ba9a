use vstd::prelude::*;

verus! {

/// One step of a depth-first walk over a file's syntax tree, in source order.
///
/// Every `Enter*` event opens a scope that the matching `Exit` closes; the
/// events between them are the scope's contents. Line spans are the number of
/// source lines that the construct's braced body covers.
#[derive(Debug, Clone, Copy, PartialEq, Eq)]
pub enum SyntaxEvent {
    /// A statement node. Its sub-nodes follow as further events.
    Statement,
    /// An `unsafe { ... }` block expression.
    EnterUnsafeBlock { lines: u32 },
    /// A free function declaration (also one nested inside another body).
    EnterFn { is_unsafe: bool, is_pub: bool, lines: u32 },
    /// A function declared inside an `impl` block.
    EnterImplFn { is_unsafe: bool, is_pub: bool, lines: u32 },
    /// An `impl` block, of a trait or inherent.
    EnterImpl { is_unsafe: bool, is_trait: bool },
    /// Closes the innermost open scope.
    Exit,
}

/// The context in force at a point of the walk.
#[derive(Debug, Clone, Copy, PartialEq, Eq)]
pub struct Scope {
    /// Inside an unsafe block or the body of a function declared unsafe.
    pub inside_unsafe: bool,
    /// Inside an `impl` block that implements a trait.
    pub inside_trait_impl: bool,
}

/// What the walk over a syntax outline counts.
#[derive(Debug, Clone, Copy, PartialEq, Eq)]
pub struct VisitorStats {
    pub total_statements: u64,
    pub unsafe_statements: u64,
    pub unsafe_fns: u64,
    pub unsafe_pub_fns: u64,
    pub unsafe_blocks: u64,
    pub unsafe_impls: u64,
    /// Line spans of outermost unsafe regions.
    pub unsafe_lines_added: u128,
    /// Line spans of safe functions declared directly inside an unsafe region.
    pub unsafe_lines_removed: u128,
}

/// The state of the walk: the counts so far, the current scope and the
/// scopes saved by the open `Enter*` events, innermost last.
pub struct WalkState {
    pub statements: int,
    pub unsafe_statements: int,
    pub unsafe_fns: int,
    pub unsafe_pub_fns: int,
    pub unsafe_blocks: int,
    pub unsafe_impls: int,
    pub lines_added: int,
    pub lines_removed: int,
    pub scope: Scope,
    pub saved: Seq<Scope>,
}

pub open spec fn outer_scope() -> Scope {
    Scope { inside_unsafe: false, inside_trait_impl: false }
}

pub open spec fn initial_state() -> WalkState {
    WalkState {
        statements: 0,
        unsafe_statements: 0,
        unsafe_fns: 0,
        unsafe_pub_fns: 0,
        unsafe_blocks: 0,
        unsafe_impls: 0,
        lines_added: 0,
        lines_removed: 0,
        scope: outer_scope(),
        saved: Seq::empty(),
    }
}

pub open spec fn count_if(b: bool) -> int {
    if b { 1 } else { 0 }
}

/// Entering a function body: an unsafe function is counted, and its span is
/// attributed if it starts an unsafe region; a safe function inside an unsafe
/// region takes its span back out. The body's scope is unsafe exactly when
/// the function is declared unsafe.
pub open spec fn enter_fn(s: WalkState, is_unsafe: bool, counts_as_pub: bool, lines: u32) -> WalkState {
    WalkState {
        unsafe_fns: s.unsafe_fns + count_if(is_unsafe),
        unsafe_pub_fns: s.unsafe_pub_fns + count_if(is_unsafe && counts_as_pub),
        lines_added: s.lines_added + if is_unsafe && !s.scope.inside_unsafe { lines as int } else { 0 },
        lines_removed: s.lines_removed + if !is_unsafe && s.scope.inside_unsafe { lines as int } else { 0 },
        scope: Scope { inside_unsafe: is_unsafe, ..s.scope },
        saved: s.saved.push(s.scope),
        ..s
    }
}

/// The walk's state after one more event.
pub open spec fn step(s: WalkState, e: SyntaxEvent) -> WalkState {
    match e {
        SyntaxEvent::Statement => WalkState {
            statements: s.statements + 1,
            unsafe_statements: s.unsafe_statements + count_if(s.scope.inside_unsafe),
            ..s
        },
        SyntaxEvent::EnterUnsafeBlock { lines } => WalkState {
            unsafe_blocks: s.unsafe_blocks + 1,
            lines_added: s.lines_added + if s.scope.inside_unsafe { 0 } else { lines as int },
            scope: Scope { inside_unsafe: true, ..s.scope },
            saved: s.saved.push(s.scope),
            ..s
        },
        SyntaxEvent::EnterFn { is_unsafe, is_pub, lines } => enter_fn(s, is_unsafe, is_pub, lines),
        SyntaxEvent::EnterImplFn { is_unsafe, is_pub, lines } => enter_fn(
            s,
            is_unsafe,
            is_pub || s.scope.inside_trait_impl,
            lines,
        ),
        SyntaxEvent::EnterImpl { is_unsafe, is_trait } => WalkState {
            unsafe_impls: s.unsafe_impls + count_if(is_unsafe),
            scope: Scope { inside_trait_impl: is_trait, ..s.scope },
            saved: s.saved.push(s.scope),
            ..s
        },
        SyntaxEvent::Exit => if s.saved.len() > 0 {
            WalkState { scope: s.saved.last(), saved: s.saved.drop_last(), ..s }
        } else {
            s
        },
    }
}

/// The walk's state after all of `events`, from the outermost scope.
pub open spec fn walk(events: Seq<SyntaxEvent>) -> WalkState
    decreases events.len(),
{
    if events.len() == 0 {
        initial_state()
    } else {
        step(walk(events.drop_last()), events.last())
    }
}

/// The counts of `v` agree with those of the walk state `s`.
pub open spec fn reports(v: VisitorStats, s: WalkState) -> bool {
    &&& v.total_statements == s.statements
    &&& v.unsafe_statements == s.unsafe_statements
    &&& v.unsafe_fns == s.unsafe_fns
    &&& v.unsafe_pub_fns == s.unsafe_pub_fns
    &&& v.unsafe_blocks == s.unsafe_blocks
    &&& v.unsafe_impls == s.unsafe_impls
    &&& v.unsafe_lines_added == s.lines_added
    &&& v.unsafe_lines_removed == s.lines_removed
}

/// The counts of the walk state `s`, as the exec record holds them.
pub open spec fn report_of(s: WalkState) -> VisitorStats {
    VisitorStats {
        total_statements: s.statements as u64,
        unsafe_statements: s.unsafe_statements as u64,
        unsafe_fns: s.unsafe_fns as u64,
        unsafe_pub_fns: s.unsafe_pub_fns as u64,
        unsafe_blocks: s.unsafe_blocks as u64,
        unsafe_impls: s.unsafe_impls as u64,
        unsafe_lines_added: s.lines_added as u128,
        unsafe_lines_removed: s.lines_removed as u128,
    }
}

/// A function declared safe inside an unsafe region does not count as unsafe
/// code: whether free or in an `impl`, its span is taken back out of the
/// unsafe lines, nothing is added to them, and its body is walked as safe.
pub proof fn safe_fn_in_unsafe_region_excluded(prefix: Seq<SyntaxEvent>, in_impl: bool, is_pub: bool, lines: u32)
    requires
        walk(prefix).scope.inside_unsafe,
    ensures
        ({
            let e = if in_impl {
                SyntaxEvent::EnterImplFn { is_unsafe: false, is_pub, lines }
            } else {
                SyntaxEvent::EnterFn { is_unsafe: false, is_pub, lines }
            };
            let before = walk(prefix);
            let after = walk(prefix.push(e));
            &&& after.lines_added == before.lines_added
            &&& after.lines_removed == before.lines_removed + lines
            &&& after.lines_added - after.lines_removed == before.lines_added - before.lines_removed - lines
            &&& !after.scope.inside_unsafe
            &&& after.unsafe_fns == before.unsafe_fns
        }),
{
    let e = if in_impl {
        SyntaxEvent::EnterImplFn { is_unsafe: false, is_pub, lines }
    } else {
        SyntaxEvent::EnterFn { is_unsafe: false, is_pub, lines }
    };
    assert(prefix.push(e).drop_last() =~= prefix);
}

impl VisitorStats {
    /// Walks a syntax outline and counts statements, unsafe constructs and
    /// unsafe line spans, tracking the enclosing scope with a stack.
    pub fn from_outline(events: &Vec<SyntaxEvent>) -> (r: VisitorStats)
        ensures
            reports(r, walk(events@)),
            r == report_of(walk(events@)),
    {
        let mut v = VisitorStats {
            total_statements: 0,
            unsafe_statements: 0,
            unsafe_fns: 0,
            unsafe_pub_fns: 0,
            unsafe_blocks: 0,
            unsafe_impls: 0,
            unsafe_lines_added: 0,
            unsafe_lines_removed: 0,
        };
        let mut scope = Scope { inside_unsafe: false, inside_trait_impl: false };
        let mut saved: Vec<Scope> = Vec::new();
        let mut i: usize = 0;
        while i < events.len()
            invariant
                i <= events@.len(),
                reports(v, walk(events@.take(i as int))),
                scope == walk(events@.take(i as int)).scope,
                saved@ == walk(events@.take(i as int)).saved,
                v.total_statements <= i,
                v.unsafe_statements <= i,
                v.unsafe_fns <= i,
                v.unsafe_pub_fns <= i,
                v.unsafe_blocks <= i,
                v.unsafe_impls <= i,
                v.unsafe_lines_added <= i * 0x1_0000_0000,
                v.unsafe_lines_removed <= i * 0x1_0000_0000,
            decreases events@.len() - i,
        {
            assert(events@.take(i as int + 1).drop_last() =~= events@.take(i as int));
            let e = events[i];
            match e {
                SyntaxEvent::Statement => {
                    v.total_statements = v.total_statements + 1;
                    if scope.inside_unsafe {
                        v.unsafe_statements = v.unsafe_statements + 1;
                    }
                },
                SyntaxEvent::EnterUnsafeBlock { lines } => {
                    v.unsafe_blocks = v.unsafe_blocks + 1;
                    if !scope.inside_unsafe {
                        v.unsafe_lines_added = v.unsafe_lines_added + lines as u128;
                    }
                    saved.push(scope);
                    scope = Scope { inside_unsafe: true, inside_trait_impl: scope.inside_trait_impl };
                },
                SyntaxEvent::EnterFn { is_unsafe, is_pub, lines } => {
                    enter_fn_exec(&mut v, &mut scope, &mut saved, is_unsafe, is_pub, lines);
                },
                SyntaxEvent::EnterImplFn { is_unsafe, is_pub, lines } => {
                    let counts_as_pub = is_pub || scope.inside_trait_impl;
                    enter_fn_exec(&mut v, &mut scope, &mut saved, is_unsafe, counts_as_pub, lines);
                },
                SyntaxEvent::EnterImpl { is_unsafe, is_trait } => {
                    if is_unsafe {
                        v.unsafe_impls = v.unsafe_impls + 1;
                    }
                    saved.push(scope);
                    scope = Scope { inside_unsafe: scope.inside_unsafe, inside_trait_impl: is_trait };
                },
                SyntaxEvent::Exit => {
                    if let Some(outer) = saved.pop() {
                        scope = outer;
                    }
                },
            }
            i = i + 1;
        }
        assert(events@.take(events@.len() as int) =~= events@);
        v
    }
}

/// The exec counterpart of [`enter_fn`], on the walk's three parts.
fn enter_fn_exec(
    v: &mut VisitorStats,
    scope: &mut Scope,
    saved: &mut Vec<Scope>,
    is_unsafe: bool,
    counts_as_pub: bool,
    lines: u32,
)
    requires
        old(v).unsafe_fns < u64::MAX,
        old(v).unsafe_pub_fns < u64::MAX,
        old(v).unsafe_lines_added + 0x1_0000_0000 <= u128::MAX,
        old(v).unsafe_lines_removed + 0x1_0000_0000 <= u128::MAX,
    ensures
        ({
            let s = WalkState {
                statements: old(v).total_statements as int,
                unsafe_statements: old(v).unsafe_statements as int,
                unsafe_fns: old(v).unsafe_fns as int,
                unsafe_pub_fns: old(v).unsafe_pub_fns as int,
                unsafe_blocks: old(v).unsafe_blocks as int,
                unsafe_impls: old(v).unsafe_impls as int,
                lines_added: old(v).unsafe_lines_added as int,
                lines_removed: old(v).unsafe_lines_removed as int,
                scope: *old(scope),
                saved: old(saved)@,
            };
            let t = enter_fn(s, is_unsafe, counts_as_pub, lines);
            &&& reports(*final(v), t)
            &&& *final(scope) == t.scope
            &&& final(saved)@ == t.saved
        }),
{
    if is_unsafe {
        v.unsafe_fns = v.unsafe_fns + 1;
        if counts_as_pub {
            v.unsafe_pub_fns = v.unsafe_pub_fns + 1;
        }
        if !scope.inside_unsafe {
            v.unsafe_lines_added = v.unsafe_lines_added + lines as u128;
        }
    } else if scope.inside_unsafe {
        v.unsafe_lines_removed = v.unsafe_lines_removed + lines as u128;
    }
    saved.push(*scope);
    *scope = Scope { inside_unsafe: is_unsafe, inside_trait_impl: scope.inside_trait_impl };
}

} // verus!
