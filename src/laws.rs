use vstd::prelude::*;

use crate::ast::{Code, Command, Condition, ConditionPair, ForLoop, ForLoopKind};
use crate::model::{
    assign_text, base_depth, block_lines, call_stmt_text, cmd_lines, cmds_lines, cond_header,
    cond_lines, decl_lines, elif_header, elifs_lines, else_text, endfor_text, endif_text,
    endwhile_text, for_header, generated_text, if_header, opt_text, program_lines, require_text,
    return_text, while_header,
};
use crate::string_builder::LineSpec;

verus! {

/// Listing statements after others appends their lines after the others'
/// lines.
pub proof fn lemma_cmds_lines_append(a: Seq<Command>, b: Seq<Command>, d: nat)
    ensures
        cmds_lines(a + b, d) == cmds_lines(a, d) + cmds_lines(b, d),
    decreases b.len(),
{
    if b.len() == 0 {
        assert(a + b =~= a);
        assert(cmds_lines(a, d) + cmds_lines(b, d) =~= cmds_lines(a, d));
    } else {
        lemma_cmds_lines_append(a, b.drop_last(), d);
        assert((a + b).drop_last() =~= a + b.drop_last());
        assert((a + b).last() == b.last());
        assert(cmds_lines(a + b, d) =~= cmds_lines(a, d) + cmds_lines(b, d));
    }
}

/// Indentation is local: the lines of a statement list are the lines of
/// the statements before a given one, then its own lines, then those of the
/// statements after it; without that statement the others keep exactly
/// their lines and depths.
pub proof fn lemma_removal_keeps_other_lines(
    pre: Seq<Command>,
    c: Command,
    post: Seq<Command>,
    d: nat,
)
    ensures
        cmds_lines(pre + seq![c] + post, d) == cmds_lines(pre, d) + cmd_lines(c, d) + cmds_lines(
            post,
            d,
        ),
        cmds_lines(pre + post, d) == cmds_lines(pre, d) + cmds_lines(post, d),
{
    lemma_cmds_lines_append(pre + seq![c], post, d);
    lemma_cmds_lines_append(pre, post, d);
    assert((pre + seq![c]).drop_last() =~= pre);
    assert((pre + seq![c]).last() == c);
}

/// Every line of a statement at depth `d` lies at depth `d` or deeper, and
/// the statement's first line lies at exactly `d`.
pub proof fn lemma_cmd_shape(c: Command, d: nat)
    ensures
        cmd_lines(c, d).len() > 0,
        cmd_lines(c, d)[0].0 == d,
        forall|k: int| 0 <= k < cmd_lines(c, d).len() ==> (#[trigger] cmd_lines(c, d)[k]).0 >= d,
    decreases c, 4int,
{
    match c {
        Command::Condition(cd) => lemma_cond_shape(cd, d),
        Command::ForLoop(fl) => lemma_block_shape(for_header(fl.kind), fl.body@, d),
        Command::WhileLoop(p) => lemma_block_shape(
            while_header(p.cond),
            p.body@,
            d,
        ),
        _ => {},
    }
}

/// The lines of a conditional at depth `d` lie at depth `d` or deeper and
/// start with its `if` header at `d`.
pub proof fn lemma_cond_shape(c: Condition, d: nat)
    ensures
        cond_lines(c, d).len() > 0,
        cond_lines(c, d)[0].0 == d,
        forall|k: int| 0 <= k < cond_lines(c, d).len() ==> (#[trigger] cond_lines(c, d)[k]).0 >= d,
    decreases c, 3int,
{
    let a = block_lines(if_header(c.if_block.cond), c.if_block.body@, d);
    let b = elifs_lines(c.elif_blocks@, d);
    let e = match c.else_block {
        Some(eb) => block_lines(else_text(), eb@, d),
        None => Seq::empty(),
    };
    lemma_block_shape(if_header(c.if_block.cond), c.if_block.body@, d);
    lemma_elifs_shape(c.elif_blocks@, d);
    match c.else_block {
        Some(eb) => lemma_block_shape(else_text(), eb@, d),
        None => {},
    }
    let all = a + b + e + seq![(d, endif_text())];
    assert(cond_lines(c, d) == all);
    assert forall|k: int| 0 <= k < all.len() implies (#[trigger] all[k]).0 >= d by {
        if k < a.len() {
            assert(all[k] == a[k]);
        } else if k < a.len() + b.len() {
            assert(all[k] == b[k - a.len()]);
        } else if k < a.len() + b.len() + e.len() {
            assert(all[k] == e[k - a.len() - b.len()]);
        }
    }
}

/// The lines of the `else if` branches at depth `d` lie at depth `d` or
/// deeper.
pub proof fn lemma_elifs_shape(elifs: Seq<ConditionPair>, d: nat)
    ensures
        forall|k: int| 0 <= k < elifs_lines(elifs, d).len() ==> (#[trigger] elifs_lines(elifs, d)[k]).0
            >= d,
    decreases elifs, 1int,
{
    if elifs.len() > 0 {
        lemma_elifs_shape(elifs.drop_last(), d);
        lemma_block_shape(elif_header(elifs.last().cond), elifs.last().body@, d);
        let a = elifs_lines(elifs.drop_last(), d);
        let b = block_lines(elif_header(elifs.last().cond), elifs.last().body@, d);
        assert forall|k: int| 0 <= k < (a + b).len() implies (#[trigger] (a + b)[k]).0 >= d by {
            if k < a.len() {
                assert((a + b)[k] == a[k]);
            } else {
                assert((a + b)[k] == b[k - a.len()]);
            }
        }
    }
}

/// The lines of a statement list at depth `d` lie at depth `d` or deeper.
pub proof fn lemma_cmds_shape(cmds: Seq<Command>, d: nat)
    ensures
        forall|k: int| 0 <= k < cmds_lines(cmds, d).len() ==> (#[trigger] cmds_lines(cmds, d)[k]).0
            >= d,
    decreases cmds, 1int,
{
    if cmds.len() > 0 {
        lemma_cmds_shape(cmds.drop_last(), d);
        lemma_cmd_shape(cmds.last(), d);
        let a = cmds_lines(cmds.drop_last(), d);
        let b = cmd_lines(cmds.last(), d);
        assert forall|k: int| 0 <= k < (a + b).len() implies (#[trigger] (a + b)[k]).0 >= d by {
            if k < a.len() {
                assert((a + b)[k] == a[k]);
            } else {
                assert((a + b)[k] == b[k - a.len()]);
            }
        }
    }
}

/// A block at depth `d` opens with its header at `d`, and every line after
/// it lies at depth `d + 1` or deeper.
pub proof fn lemma_block_shape(header: Seq<char>, body: Seq<Command>, d: nat)
    ensures
        block_lines(header, body, d).len() > 0,
        block_lines(header, body, d)[0] == (d, header),
        forall|k: int|
            1 <= k < block_lines(header, body, d).len() ==> (#[trigger] block_lines(
                header,
                body,
                d,
            )[k]).0 >= d + 1,
    decreases body, 2int,
{
    lemma_cmds_shape(body, d + 1);
    let b = cmds_lines(body, d + 1);
    let all = seq![(d, header)] + b;
    assert forall|k: int| 1 <= k < all.len() implies (#[trigger] all[k]).0 >= d + 1 by {
        assert(all[k] == b[k - 1]);
    }
}

/// Where, in a block whose body is `body`, the lines of the statement at
/// index `i` begin: after the header and the lines of the statements
/// before it.
pub open spec fn body_position(body: Seq<Command>, i: int, d: nat) -> int {
    1 + cmds_lines(body.subrange(0, i), d + 1).len() as int
}

/// The statement at index `i` of a block's body at depth `d` opens, at its
/// place in the block, with a line at exactly `d + 1`.
pub proof fn lemma_statement_opens_block_line(header: Seq<char>, body: Seq<Command>, d: nat, i: int)
    requires
        0 <= i < body.len(),
    ensures
        body_position(body, i, d) < block_lines(header, body, d).len(),
        block_lines(header, body, d)[body_position(body, i, d)] == cmd_lines(body[i], d + 1)[0],
        block_lines(header, body, d)[body_position(body, i, d)].0 == d + 1,
{
    let pre = body.subrange(0, i);
    let post = body.subrange(i + 1, body.len() as int);
    assert(body =~= pre + seq![body[i]] + post);
    lemma_removal_keeps_other_lines(pre, body[i], post, d + 1);
    lemma_cmd_shape(body[i], d + 1);
    let p = cmds_lines(pre, d + 1);
    let m = cmd_lines(body[i], d + 1);
    let q = cmds_lines(post, d + 1);
    let all = seq![(d, header)] + (p + m + q);
    assert(block_lines(header, body, d) == all);
    assert(all[1 + p.len() as int] == m[0]);
}

/// Each line of a body lies one level deeper than the header above it, or
/// deeper still inside a nested block: the header of a block at depth `d`
/// is its first line, at `d`; every other line lies at `d + 1` or deeper;
/// and each statement of the body opens, at its place in the block, with a
/// line at exactly `d + 1`.
pub proof fn lemma_body_one_level_deeper(header: Seq<char>, body: Seq<Command>, d: nat)
    ensures
        block_lines(header, body, d)[0] == (d, header),
        forall|k: int|
            1 <= k < block_lines(header, body, d).len() ==> (#[trigger] block_lines(
                header,
                body,
                d,
            )[k]).0 >= d + 1,
        forall|i: int|
            0 <= i < body.len() ==> {
                &&& #[trigger] body_position(body, i, d) < block_lines(header, body, d).len()
                &&& block_lines(header, body, d)[body_position(body, i, d)] == cmd_lines(
                    body[i],
                    d + 1,
                )[0]
                &&& block_lines(header, body, d)[body_position(body, i, d)].0 == d + 1
            },
{
    lemma_block_shape(header, body, d);
    assert forall|i: int| 0 <= i < body.len() implies {
        &&& #[trigger] body_position(body, i, d) < block_lines(header, body, d).len()
        &&& block_lines(header, body, d)[body_position(body, i, d)] == cmd_lines(body[i], d + 1)[0]
        &&& block_lines(header, body, d)[body_position(body, i, d)].0 == d + 1
    } by {
        lemma_statement_opens_block_line(header, body, d, i);
    }
}

/// Two nested counting loops at depth `d`: the outer header at `d`, the
/// inner header at `d + 1`, the innermost body at `d + 2`, and the two
/// closing lines at `d + 1` and `d`.
pub proof fn lemma_nested_counting_loops(outer: ForLoop, inner: ForLoop, d: nat)
    requires
        outer.kind is Count,
        inner.kind is Count,
        outer.body@ == seq![Command::ForLoop(inner)],
    ensures
        cmd_lines(Command::ForLoop(outer), d) == seq![
            (d, for_header(outer.kind)),
            (d + 1, for_header(inner.kind)),
        ] + cmds_lines(inner.body@, d + 2) + seq![(d + 1, endfor_text()), (d, endfor_text())],
        forall|k: int|
            0 <= k < cmds_lines(inner.body@, d + 2).len() ==> (#[trigger] cmds_lines(
                inner.body@,
                d + 2,
            )[k]).0 >= d + 2,
{
    let s = seq![Command::ForLoop(inner)];
    assert(s.drop_last() =~= Seq::<Command>::empty());
    assert(s.last() == Command::ForLoop(inner));
    assert(cmds_lines(Seq::<Command>::empty(), d + 1) == Seq::<LineSpec>::empty());
    assert(cmds_lines(s, d + 1) == cmds_lines(s.drop_last(), d + 1) + cmd_lines(s.last(), d + 1));
    assert(cmds_lines(s, d + 1) =~= cmd_lines(Command::ForLoop(inner), d + 1));
    lemma_cmds_shape(inner.body@, d + 2);
    assert(cmd_lines(Command::ForLoop(outer), d) =~= seq![
        (d, for_header(outer.kind)),
        (d + 1, for_header(inner.kind)),
    ] + cmds_lines(inner.body@, d + 2) + seq![(d + 1, endfor_text()), (d, endfor_text())]);
}

/// How many lines of `lines` have exactly the text `t`.
pub open spec fn count_text(lines: Seq<LineSpec>, t: Seq<char>) -> nat
    decreases lines.len(),
{
    if lines.len() == 0 {
        0
    } else {
        count_text(lines.drop_last(), t) + if lines.last().1 == t {
            1nat
        } else {
            0nat
        }
    }
}

/// How many conditionals a statement holds, itself included.
pub open spec fn cmd_conditionals(c: Command) -> nat
    decreases c,
{
    match c {
        Command::Condition(cd) => cond_conditionals(cd),
        Command::ForLoop(fl) => cmds_conditionals(fl.body@),
        Command::WhileLoop(p) => cmds_conditionals(p.body@),
        _ => 0,
    }
}

/// How many conditionals a conditional holds, itself included.
pub open spec fn cond_conditionals(c: Condition) -> nat
    decreases c,
{
    1 + cmds_conditionals(c.if_block.body@) + elifs_conditionals(c.elif_blocks@) + match c.else_block {
        Some(b) => cmds_conditionals(b@),
        None => 0,
    }
}

/// How many conditionals a statement list holds.
pub open spec fn cmds_conditionals(cmds: Seq<Command>) -> nat
    decreases cmds,
{
    if cmds.len() == 0 {
        0
    } else {
        cmds_conditionals(cmds.drop_last()) + cmd_conditionals(cmds.last())
    }
}

/// How many conditionals the bodies of `else if` branches hold.
pub open spec fn elifs_conditionals(elifs: Seq<ConditionPair>) -> nat
    decreases elifs,
{
    if elifs.len() == 0 {
        0
    } else {
        elifs_conditionals(elifs.drop_last()) + cmds_conditionals(elifs.last().body@)
    }
}

proof fn lemma_count_append(a: Seq<LineSpec>, b: Seq<LineSpec>, t: Seq<char>)
    ensures
        count_text(a + b, t) == count_text(a, t) + count_text(b, t),
    decreases b.len(),
{
    if b.len() == 0 {
        assert(a + b =~= a);
    } else {
        lemma_count_append(a, b.drop_last(), t);
        assert((a + b).drop_last() =~= a + b.drop_last());
        assert((a + b).last() == b.last());
    }
}

proof fn lemma_count_one(x: LineSpec, t: Seq<char>)
    ensures
        count_text(seq![x], t) == if x.1 == t {
            1nat
        } else {
            0nat
        },
{
    assert(seq![x].drop_last() =~= Seq::<LineSpec>::empty());
    assert(count_text(Seq::<LineSpec>::empty(), t) == 0);
    assert(seq![x].last() == x);
}

proof fn lemma_differs_from_endif(t: Seq<char>, k: int)
    requires
        0 <= k < t.len(),
        k < 6,
        t[k] != seq!['\\', 'E', 'N', 'D', 'I', 'F'][k],
    ensures
        t != endif_text(),
{
    reveal_strlit("\\ENDIF");
    assert(endif_text() =~= seq!['\\', 'E', 'N', 'D', 'I', 'F']);
}

proof fn lemma_headers_differ_from_endif()
    ensures
        forall|c| #[trigger] if_header(c) != endif_text(),
        forall|c| #[trigger] elif_header(c) != endif_text(),
        forall|k| #[trigger] for_header(k) != endif_text(),
        forall|c| #[trigger] while_header(c) != endif_text(),
        else_text() != endif_text(),
{
    reveal_strlit("\\");
    reveal_strlit("IF");
    reveal_strlit("ELSIF");
    reveal_strlit("\\FOR{");
    reveal_strlit("\\WHILE{ ");
    reveal_strlit("\\ELSE");
    assert forall|c| #[trigger] if_header(c) != endif_text() by {
        lemma_differs_from_endif(if_header(c), 1);
    }
    assert forall|c| #[trigger] elif_header(c) != endif_text() by {
        lemma_differs_from_endif(elif_header(c), 2);
    }
    assert forall|k| #[trigger] for_header(k) != endif_text() by {
        lemma_differs_from_endif(for_header(k), 1);
    }
    assert forall|c| #[trigger] while_header(c) != endif_text() by {
        lemma_differs_from_endif(while_header(c), 1);
    }
    lemma_differs_from_endif(else_text(), 2);
}

proof fn lemma_statements_differ_from_endif()
    ensures
        forall|t, e| #[trigger] assign_text(t, e) != endif_text(),
        forall|f| #[trigger] call_stmt_text(f) != endif_text(),
        forall|e| #[trigger] return_text(e) != endif_text(),
        endfor_text() != endif_text(),
        endwhile_text() != endif_text(),
        forall|decls| #[trigger] require_text(decls) != endif_text(),
{
    reveal_strlit("\\STATE ");
    reveal_strlit("\\RETURN ");
    reveal_strlit("\\REQUIRE ");
    reveal_strlit("\\ENDFOR");
    reveal_strlit("\\ENDWHILE");
    assert forall|t, e| #[trigger] assign_text(t, e) != endif_text() by {
        lemma_differs_from_endif(assign_text(t, e), 1);
    }
    assert forall|f| #[trigger] call_stmt_text(f) != endif_text() by {
        lemma_differs_from_endif(call_stmt_text(f), 1);
    }
    assert forall|e| #[trigger] return_text(e) != endif_text() by {
        lemma_differs_from_endif(return_text(e), 1);
    }
    assert forall|decls| #[trigger] require_text(decls) != endif_text() by {
        lemma_differs_from_endif(require_text(decls), 1);
    }
    lemma_differs_from_endif(endfor_text(), 4);
    lemma_differs_from_endif(endwhile_text(), 4);
}

proof fn lemma_cmd_endifs(c: Command, d: nat)
    ensures
        count_text(cmd_lines(c, d), endif_text()) == cmd_conditionals(c),
    decreases c, 4int,
{
    lemma_headers_differ_from_endif();
    lemma_statements_differ_from_endif();
    let t = endif_text();
    match c {
        Command::Condition(cd) => lemma_cond_endifs(cd, d),
        Command::ForLoop(fl) => {
            lemma_block_endifs(for_header(fl.kind), fl.body@, d);
            lemma_count_append(
                block_lines(for_header(fl.kind), fl.body@, d),
                seq![(d, endfor_text())],
                t,
            );
            lemma_count_one((d, endfor_text()), t);
        },
        Command::WhileLoop(p) => {
            lemma_block_endifs(while_header(p.cond), p.body@, d);
            lemma_count_append(
                block_lines(while_header(p.cond), p.body@, d),
                seq![(d, endwhile_text())],
                t,
            );
            lemma_count_one((d, endwhile_text()), t);
        },
        Command::Assign(a) => lemma_count_one((d, assign_text(a.0@, a.1)), t),
        Command::Return(e) => lemma_count_one((d, return_text(e)), t),
        Command::Function(f) => lemma_count_one((d, call_stmt_text(f)), t),
    }
}

proof fn lemma_cond_endifs(c: Condition, d: nat)
    ensures
        count_text(cond_lines(c, d), endif_text()) == cond_conditionals(c),
    decreases c, 3int,
{
    lemma_headers_differ_from_endif();
    let t = endif_text();
    let a = block_lines(if_header(c.if_block.cond), c.if_block.body@, d);
    let b = elifs_lines(c.elif_blocks@, d);
    let e = match c.else_block {
        Some(eb) => block_lines(else_text(), eb@, d),
        None => Seq::empty(),
    };
    lemma_block_endifs(if_header(c.if_block.cond), c.if_block.body@, d);
    lemma_elifs_endifs(c.elif_blocks@, d);
    match c.else_block {
        Some(eb) => lemma_block_endifs(else_text(), eb@, d),
        None => {},
    }
    lemma_count_append(a, b, t);
    lemma_count_append(a + b, e, t);
    lemma_count_append(a + b + e, seq![(d, t)], t);
    lemma_count_one((d, t), t);
}

proof fn lemma_block_endifs(header: Seq<char>, body: Seq<Command>, d: nat)
    requires
        header != endif_text(),
    ensures
        count_text(block_lines(header, body, d), endif_text()) == cmds_conditionals(body),
    decreases body, 2int,
{
    lemma_cmds_endifs(body, d + 1);
    lemma_count_append(seq![(d, header)], cmds_lines(body, d + 1), endif_text());
    lemma_count_one((d, header), endif_text());
}

proof fn lemma_cmds_endifs(cmds: Seq<Command>, d: nat)
    ensures
        count_text(cmds_lines(cmds, d), endif_text()) == cmds_conditionals(cmds),
    decreases cmds, 1int,
{
    if cmds.len() > 0 {
        lemma_cmds_endifs(cmds.drop_last(), d);
        lemma_cmd_endifs(cmds.last(), d);
        lemma_count_append(cmds_lines(cmds.drop_last(), d), cmd_lines(cmds.last(), d), endif_text());
    }
}

proof fn lemma_elifs_endifs(elifs: Seq<ConditionPair>, d: nat)
    ensures
        count_text(elifs_lines(elifs, d), endif_text()) == elifs_conditionals(elifs),
    decreases elifs, 1int,
{
    if elifs.len() > 0 {
        lemma_headers_differ_from_endif();
        let last = elifs.last();
        lemma_elifs_endifs(elifs.drop_last(), d);
        lemma_block_endifs(elif_header(last.cond), last.body@, d);
        lemma_count_append(
            elifs_lines(elifs.drop_last(), d),
            block_lines(elif_header(last.cond), last.body@, d),
            endif_text(),
        );
    }
}

/// A program's body holds exactly one closing `\ENDIF` line per
/// conditional, however many `else if` and `else` branches each has.
pub proof fn lemma_one_endif_per_conditional(code: Code)
    ensures
        count_text(program_lines(code), endif_text()) == cmds_conditionals(code.code@),
{
    lemma_statements_differ_from_endif();
    lemma_cmds_endifs(code.code@, base_depth());
    let dl = decl_lines(code.decl@, base_depth());
    lemma_count_append(dl, cmds_lines(code.code@, base_depth()), endif_text());
    if code.decl@.len() > 0 {
        lemma_count_one((base_depth(), require_text(code.decl@)), endif_text());
    } else {
        assert(count_text(dl, endif_text()) == 0);
    }
}

/// A program without declared inputs has no declaration line: its body is
/// the lines of its statements alone. One with declared inputs has exactly
/// one, first, listing every `name: type` pair in order, joined by `, `.
pub proof fn lemma_declaration_line(code: Code)
    ensures
        code.decl@.len() == 0 ==> program_lines(code) == cmds_lines(code.code@, base_depth()),
        code.decl@.len() > 0 ==> program_lines(code) == seq![
            (base_depth(), require_text(code.decl@)),
        ] + cmds_lines(code.code@, base_depth()),
{
    if code.decl@.len() == 0 {
        assert(program_lines(code) =~= cmds_lines(code.code@, base_depth()));
    }
}

/// A conditional with one `else if` branch and no `else` branch: its `if`
/// header, its body one level deeper, the `else if` header, that body one
/// level deeper, and a single closing line; no `else` line of its own.
pub proof fn lemma_if_elif_without_else(c: Condition, d: nat)
    requires
        c.elif_blocks@.len() == 1,
        c.else_block is None,
    ensures
        cond_lines(c, d) == seq![(d, if_header(c.if_block.cond))] + cmds_lines(
            c.if_block.body@,
            d + 1,
        ) + seq![(d, elif_header(c.elif_blocks@[0].cond))] + cmds_lines(
            c.elif_blocks@[0].body@,
            d + 1,
        ) + seq![(d, endif_text())],
{
    let elifs = c.elif_blocks@;
    assert(elifs.drop_last() =~= Seq::<ConditionPair>::empty());
    assert(elifs.last() == elifs[0]);
    assert(elifs_lines(Seq::<ConditionPair>::empty(), d) == Seq::<LineSpec>::empty());
    assert(elifs_lines(elifs, d) == elifs_lines(elifs.drop_last(), d) + block_lines(
        elif_header(elifs.last().cond),
        elifs.last().body@,
        d,
    ));
    assert(cond_lines(c, d) =~= seq![(d, if_header(c.if_block.cond))] + cmds_lines(
        c.if_block.body@,
        d + 1,
    ) + seq![(d, elif_header(c.elif_blocks@[0].cond))] + cmds_lines(
        c.elif_blocks@[0].body@,
        d + 1,
    ) + seq![(d, endif_text())]);
}

/// The generated text is a function of the tree's contents and the
/// options: two trees with the same caption, declarations and statements
/// give byte-identical text.
pub proof fn lemma_same_tree_same_text(
    a: Code,
    b: Code,
    label: Option<String>,
    ch: char,
    here: bool,
)
    requires
        a.caption@ == b.caption@,
        a.decl@ == b.decl@,
        a.code@ == b.code@,
    ensures
        generated_text(a, opt_text(label), ch, here) == generated_text(b, opt_text(label), ch, here),
{
}

} // verus!
