use vstd::prelude::*;

use crate::ast::{Code, CodeType, Command, Condition, ConditionPair, Decl, ForLoopKind, Function};
use crate::string_builder::{render_lines, LineSpec};

verus! {

/// The text of an expression: a name as written, a call as
/// `name(arg, arg, ...)`.
pub open spec fn expr_text(e: CodeType) -> Seq<char>
    decreases e, 1int,
{
    match e {
        CodeType::Name(n) => n@,
        CodeType::Func(f) => f.name@ + "("@ + args_text(f.args@) + ")"@,
    }
}

/// The arguments of a call, each as text, joined by `, `.
pub open spec fn args_text(args: Seq<CodeType>) -> Seq<char>
    decreases args, 0int,
{
    if args.len() == 0 {
        Seq::empty()
    } else if args.len() == 1 {
        expr_text(args[0])
    } else {
        args_text(args.drop_last()) + ", "@ + expr_text(args.last())
    }
}

/// The text of a call.
pub open spec fn call_text(f: Function) -> Seq<char> {
    f.name@ + "("@ + args_text(f.args@) + ")"@
}

/// The statement line of an assignment.
pub open spec fn assign_text(target: Seq<char>, e: CodeType) -> Seq<char> {
    "\\STATE "@ + target + " $\\leftarrow$ "@ + expr_text(e) + ";"@
}

/// The statement line of a call made for its effect.
pub open spec fn call_stmt_text(f: Function) -> Seq<char> {
    "\\STATE "@ + call_text(f) + ";"@
}

/// The line of a `return`.
pub open spec fn return_text(e: CodeType) -> Seq<char> {
    "\\RETURN "@ + expr_text(e) + ";"@
}

/// The header of a guarded block, `\IF{cond}` or `\ELSIF{cond}`.
pub open spec fn cond_header(name: Seq<char>, c: CodeType) -> Seq<char> {
    "\\"@ + name + "{"@ + expr_text(c) + "}"@
}

/// The header of an `if` branch.
pub open spec fn if_header(c: CodeType) -> Seq<char> {
    cond_header("IF"@, c)
}

/// The header of an `else if` branch.
pub open spec fn elif_header(c: CodeType) -> Seq<char> {
    cond_header("ELSIF"@, c)
}

/// The header of a `for` loop.
pub open spec fn for_header(kind: ForLoopKind) -> Seq<char> {
    match kind {
        ForLoopKind::Count((v, begin, end)) => "\\FOR{"@ + v@ + " =  "@ + expr_text(begin)
            + " \\textbf{to} "@ + expr_text(end) + "}"@,
        ForLoopKind::Iter((v, iter)) => "\\FOR{"@ + v@ + " \\textbf{in}  "@ + expr_text(iter)
            + "}"@,
    }
}

/// The header of a `while` loop.
pub open spec fn while_header(c: CodeType) -> Seq<char> {
    "\\WHILE{ "@ + expr_text(c) + " }"@
}

/// The header of an `else` branch.
pub open spec fn else_text() -> Seq<char> {
    "\\ELSE"@
}

/// The line that closes a conditional.
pub open spec fn endif_text() -> Seq<char> {
    "\\ENDIF"@
}

/// The line that closes a `for` loop.
pub open spec fn endfor_text() -> Seq<char> {
    "\\ENDFOR"@
}

/// The line that closes a `while` loop.
pub open spec fn endwhile_text() -> Seq<char> {
    "\\ENDWHILE"@
}

/// One declared input as `name: type`.
pub open spec fn decl_text(d: Decl) -> Seq<char> {
    d.0@ + ": "@ + d.1@
}

/// The declared inputs, each as `name: type`, joined by `, `.
pub open spec fn decls_text(decls: Seq<Decl>) -> Seq<char>
    decreases decls.len(),
{
    if decls.len() == 0 {
        Seq::empty()
    } else if decls.len() == 1 {
        decl_text(decls[0])
    } else {
        decls_text(decls.drop_last()) + ", "@ + decl_text(decls.last())
    }
}

/// The line that lists the declared inputs.
pub open spec fn require_text(decls: Seq<Decl>) -> Seq<char> {
    "\\REQUIRE "@ + decls_text(decls)
}

/// The declaration lines at depth `d`: none for no inputs, else one line.
pub open spec fn decl_lines(decls: Seq<Decl>, d: nat) -> Seq<LineSpec> {
    if decls.len() == 0 {
        Seq::empty()
    } else {
        seq![(d, require_text(decls))]
    }
}

/// A header at depth `d` followed by the lines of `body` one level deeper.
pub open spec fn block_lines(header: Seq<char>, body: Seq<Command>, d: nat) -> Seq<LineSpec>
    decreases body, 2int,
{
    seq![(d, header)] + cmds_lines(body, d + 1)
}

/// The lines of a statement list at depth `d`, statement after statement.
pub open spec fn cmds_lines(cmds: Seq<Command>, d: nat) -> Seq<LineSpec>
    decreases cmds, 1int,
{
    if cmds.len() == 0 {
        Seq::empty()
    } else {
        cmds_lines(cmds.drop_last(), d) + cmd_lines(cmds.last(), d)
    }
}

/// The lines of the `else if` branches at depth `d`, in order.
pub open spec fn elifs_lines(elifs: Seq<ConditionPair>, d: nat) -> Seq<LineSpec>
    decreases elifs, 1int,
{
    if elifs.len() == 0 {
        Seq::empty()
    } else {
        elifs_lines(elifs.drop_last(), d) + block_lines(
            elif_header(elifs.last().cond),
            elifs.last().body@,
            d,
        )
    }
}

/// The lines of a conditional at depth `d`: its `if` branch, its `else if`
/// branches, its `else` branch if any, and one closing line.
pub open spec fn cond_lines(c: Condition, d: nat) -> Seq<LineSpec>
    decreases c, 3int,
{
    block_lines(if_header(c.if_block.cond), c.if_block.body@, d) + elifs_lines(c.elif_blocks@, d)
        + match c.else_block {
        Some(b) => block_lines(else_text(), b@, d),
        None => Seq::empty(),
    } + seq![(d, endif_text())]
}

/// The lines of one statement at depth `d`.
pub open spec fn cmd_lines(c: Command, d: nat) -> Seq<LineSpec>
    decreases c, 4int,
{
    match c {
        Command::Assign(a) => seq![(d, assign_text(a.0@, a.1))],
        Command::Condition(cd) => cond_lines(cd, d),
        Command::ForLoop(fl) => block_lines(for_header(fl.kind), fl.body@, d) + seq![
            (d, endfor_text()),
        ],
        Command::WhileLoop(p) => block_lines(while_header(p.cond), p.body@, d) + seq![
            (d, endwhile_text()),
        ],
        Command::Return(e) => seq![(d, return_text(e))],
        Command::Function(f) => seq![(d, call_stmt_text(f))],
    }
}

/// The depth at which a program's body starts.
pub open spec fn base_depth() -> nat {
    2
}

/// All lines of a program's body: the declaration line, if any, then the
/// statements.
pub open spec fn program_lines(code: Code) -> Seq<LineSpec> {
    decl_lines(code.decl@, base_depth()) + cmds_lines(code.code@, base_depth())
}

/// How many blocks deep a statement nests: 0 for a simple statement, one
/// more than its deepest body for a loop or a conditional.
pub open spec fn cmd_height(c: Command) -> nat
    decreases c,
{
    match c {
        Command::Condition(cd) => cond_height(cd),
        Command::ForLoop(fl) => 1 + cmds_height(fl.body@),
        Command::WhileLoop(p) => 1 + cmds_height(p.body@),
        _ => 0,
    }
}

/// How many blocks deep a conditional nests: one more than its deepest
/// branch.
pub open spec fn cond_height(c: Condition) -> nat
    decreases c,
{
    1 + max_nat(
        cmds_height(c.if_block.body@),
        max_nat(
            elifs_height(c.elif_blocks@),
            match c.else_block {
                Some(b) => cmds_height(b@),
                None => 0,
            },
        ),
    )
}

/// The largest height among the statements of a list, 0 if it is empty.
pub open spec fn cmds_height(cmds: Seq<Command>) -> nat
    decreases cmds,
{
    if cmds.len() == 0 {
        0
    } else {
        max_nat(cmds_height(cmds.drop_last()), cmd_height(cmds.last()))
    }
}

/// The largest height among the bodies of `else if` branches.
pub open spec fn elifs_height(elifs: Seq<ConditionPair>) -> nat
    decreases elifs,
{
    if elifs.len() == 0 {
        0
    } else {
        max_nat(elifs_height(elifs.drop_last()), cmds_height(elifs.last().body@))
    }
}

/// The larger of two naturals.
pub open spec fn max_nat(a: nat, b: nat) -> nat {
    if a >= b {
        a
    } else {
        b
    }
}

/// The text of an optional label.
pub open spec fn opt_text(label: Option<String>) -> Option<Seq<char>> {
    match label {
        Some(l) => Some(l@),
        None => None,
    }
}

/// The complete `algorithm` environment around a rendered body: the opening
/// tag, with the forced placement if `here`, then the centering, caption and
/// optional label lines, and the `algorithmic` environment holding the body.
pub open spec fn algorithm_text(
    body: Seq<char>,
    caption: Seq<char>,
    label: Option<Seq<char>>,
    ch: char,
    here: bool,
) -> Seq<char> {
    (if here {
        "\\begin{algorithm}[!htb]\n"@
    } else {
        "\\begin{algorithm}\n"@
    }) + seq![ch] + "\\centering\n"@ + seq![ch] + "\\caption{"@ + caption + "}\n"@ + match label {
        Some(l) => seq![ch] + "\\label{"@ + l + "}\n"@,
        None => Seq::empty(),
    } + seq![ch] + "\\begin{algorithmic}\n"@ + body + seq![ch] + "\\end{algorithmic}\n"@
        + "\\end{algorithm}\n"@
}

/// The text generated for a program.
pub open spec fn generated_text(code: Code, label: Option<Seq<char>>, ch: char, here: bool) -> Seq<
    char,
> {
    algorithm_text(render_lines(program_lines(code), ch), code.caption@, label, ch, here)
}

/// Every statement of a list is at most as high as the list.
pub proof fn lemma_cmds_height_elem(cmds: Seq<Command>, i: int)
    requires
        0 <= i < cmds.len(),
    ensures
        cmd_height(cmds[i]) <= cmds_height(cmds),
    decreases cmds.len(),
{
    if i < cmds.len() - 1 {
        lemma_cmds_height_elem(cmds.drop_last(), i);
    }
}

/// Every `else if` body is at most as high as the branches together.
pub proof fn lemma_elifs_height_elem(elifs: Seq<ConditionPair>, i: int)
    requires
        0 <= i < elifs.len(),
    ensures
        cmds_height(elifs[i].body@) <= elifs_height(elifs),
    decreases elifs.len(),
{
    if i < elifs.len() - 1 {
        lemma_elifs_height_elem(elifs.drop_last(), i);
    }
}

} // verus!
