use vstd::prelude::*;

use crate::ast::{Code, CodeType, Command, Condition, ConditionPair, Decl, ForLoop, ForLoopKind, Function};
use crate::model::{
    algorithm_text, args_text, assign_text, base_depth, block_lines, call_stmt_text, call_text,
    cmd_height, cmd_lines, cmds_height, cmds_lines, cond_header, cond_height, cond_lines,
    decl_lines, decls_text, elif_header, elifs_height, else_text, endfor_text, endwhile_text, expr_text,
    for_header, generated_text, if_header, lemma_cmds_height_elem, lemma_elifs_height_elem,
    elifs_lines, opt_text, require_text, return_text, while_header,
};
use crate::string_builder::{render_lines, StringBuilder};
use crate::text::push_char;

verus! {

/// The LaTeX `algorithm` block for a program: its declaration line, if it
/// declares inputs, and its statements, indented by `indent_ch` once per
/// level of nesting below the two levels of the surrounding environments,
/// inside the caption, the label if one is given, and the placement `!htb`
/// if `here`.
pub fn generate(code: Code, label: Option<String>, indent_ch: char, here: bool) -> (r: String)
    requires
        base_depth() + cmds_height(code.code@) <= usize::MAX,
    ensures
        r@ == generated_text(code, opt_text(label), indent_ch, here),
{
    let builder = translate_declaration(StringBuilder::new(2), &code.decl);
    let builder = translate_commands(builder, &code.code);
    LatexAlgorithm::generate_code(builder, code.caption, label, indent_ch, here)
}

/// Whether a program nests shallowly enough for every depth of its lines to
/// be counted in a `usize`, as `generate` asks.
pub fn fits_nesting(code: &Code) -> (r: bool)
    ensures
        r == (base_depth() + cmds_height(code.code@) <= usize::MAX),
{
    cmds_within(&code.code, usize::MAX - 2)
}

fn cmds_within(cmds: &Vec<Command>, limit: usize) -> (r: bool)
    ensures
        r == (cmds_height(cmds@) <= limit),
    decreases cmds, 1int,
{
    let mut ok = true;
    let mut i: usize = 0;
    while i < cmds.len()
        invariant
            i <= cmds.len(),
            ok == (cmds_height(cmds@.subrange(0, i as int)) <= limit),
        decreases cmds.len() - i,
    {
        let w = cmd_within(&cmds[i], limit);
        ok = ok && w;
        proof {
            let next = cmds@.subrange(0, i + 1);
            assert(next.drop_last() =~= cmds@.subrange(0, i as int));
            assert(next.last() == cmds@[i as int]);
        }
        i += 1;
    }
    assert(cmds@.subrange(0, cmds.len() as int) =~= cmds@);
    ok
}

fn cmd_within(cmd: &Command, limit: usize) -> (r: bool)
    ensures
        r == (cmd_height(*cmd) <= limit),
    decreases cmd, 3int,
{
    match cmd {
        Command::Condition(cond) => cond_within(cond, limit),
        Command::ForLoop(fl) => limit > 0 && cmds_within(&fl.body, limit - 1),
        Command::WhileLoop(wl) => limit > 0 && cmds_within(&wl.body, limit - 1),
        _ => true,
    }
}

fn cond_within(cond: &Condition, limit: usize) -> (r: bool)
    ensures
        r == (cond_height(*cond) <= limit),
    decreases cond, 2int,
{
    if limit == 0 {
        return false;
    }
    let inner = limit - 1;
    let mut ok = cmds_within(&cond.if_block.body, inner);
    let mut elifs_ok = true;
    let mut i: usize = 0;
    while i < cond.elif_blocks.len()
        invariant
            i <= cond.elif_blocks.len(),
            elifs_ok == (elifs_height(cond.elif_blocks@.subrange(0, i as int)) <= inner),
        decreases cond.elif_blocks.len() - i,
    {
        let w = cmds_within(&cond.elif_blocks[i].body, inner);
        elifs_ok = elifs_ok && w;
        proof {
            let next = cond.elif_blocks@.subrange(0, i + 1);
            assert(next.drop_last() =~= cond.elif_blocks@.subrange(0, i as int));
            assert(next.last() == cond.elif_blocks@[i as int]);
        }
        i += 1;
    }
    assert(cond.elif_blocks@.subrange(0, cond.elif_blocks.len() as int) =~= cond.elif_blocks@);
    let else_ok = match &cond.else_block {
        Some(b) => cmds_within(b, inner),
        None => true,
    };
    ok && elifs_ok && else_ok
}

/// The pieces of the environment that surrounds the generated body.
struct LatexAlgorithm {
    code: String,
    caption: String,
    label: Option<String>,
    indent: char,
    here: bool,
}

impl LatexAlgorithm {
    fn generate_code(
        code: StringBuilder,
        caption: String,
        label: Option<String>,
        indent: char,
        here: bool,
    ) -> (r: String)
        ensures
            r@ == algorithm_text(
                render_lines(code.lines(), indent),
                caption@,
                opt_text(label),
                indent,
                here,
            ),
    {
        let code = code.build_string(indent);
        let tmp = Self { code, caption, label, indent, here };
        tmp.render_once()
    }

    fn render_once(self) -> (r: String)
        ensures
            r@ == algorithm_text(self.code@, self.caption@, opt_text(self.label), self.indent, self.here),
    {
        let mut r = if self.here {
            String::from_str("\\begin{algorithm}[!htb]\n")
        } else {
            String::from_str("\\begin{algorithm}\n")
        };
        push_char(&mut r, self.indent);
        r.append("\\centering\n");
        push_char(&mut r, self.indent);
        r.append("\\caption{");
        r.append(self.caption.as_str());
        r.append("}\n");
        match &self.label {
            Some(l) => {
                push_char(&mut r, self.indent);
                r.append("\\label{");
                r.append(l.as_str());
                r.append("}\n");
            },
            None => {},
        }
        push_char(&mut r, self.indent);
        r.append("\\begin{algorithmic}\n");
        r.append(self.code.as_str());
        push_char(&mut r, self.indent);
        r.append("\\end{algorithmic}\n");
        r.append("\\end{algorithm}\n");
        assert(r@ =~= algorithm_text(
            self.code@,
            self.caption@,
            opt_text(self.label),
            self.indent,
            self.here,
        ));
        r
    }
}

fn translate_commands(builder: StringBuilder, cmds: &Vec<Command>) -> (r: StringBuilder)
    requires
        builder.floor() <= builder.depth(),
        builder.depth() + cmds_height(cmds@) <= usize::MAX,
    ensures
        r.lines() == builder.lines() + cmds_lines(cmds@, builder.depth()),
        r.depth() == builder.depth(),
        r.floor() == builder.floor(),
    decreases cmds, 1int,
{
    let ghost d = builder.depth();
    let mut b = builder;
    let mut i: usize = 0;
    while i < cmds.len()
        invariant
            i <= cmds.len(),
            d == builder.depth(),
            builder.floor() <= d,
            d + cmds_height(cmds@) <= usize::MAX,
            b.lines() == builder.lines() + cmds_lines(cmds@.subrange(0, i as int), d),
            b.depth() == d,
            b.floor() == builder.floor(),
        decreases cmds.len() - i,
    {
        proof {
            lemma_cmds_height_elem(cmds@, i as int);
        }
        b = translate_command(b, &cmds[i]);
        proof {
            let next = cmds@.subrange(0, i + 1);
            assert(next.drop_last() =~= cmds@.subrange(0, i as int));
            assert(next.last() == cmds@[i as int]);
            assert(b.lines() =~= builder.lines() + cmds_lines(next, d));
        }
        i += 1;
    }
    assert(cmds@.subrange(0, cmds.len() as int) =~= cmds@);
    b
}

fn translate_command(builder: StringBuilder, cmd: &Command) -> (r: StringBuilder)
    requires
        builder.floor() <= builder.depth(),
        builder.depth() + cmd_height(*cmd) <= usize::MAX,
    ensures
        r.lines() == builder.lines() + cmd_lines(*cmd, builder.depth()),
        r.depth() == builder.depth(),
        r.floor() == builder.floor(),
    decreases cmd, 4int,
{
    match cmd {
        Command::Assign(assign) => translate_assign(builder, assign),
        Command::Condition(cond) => translate_condition(builder, cond),
        Command::ForLoop(for_loop) => translate_for_loop(builder, for_loop),
        Command::Return(return_blk) => translate_return(builder, return_blk),
        Command::WhileLoop(while_loop) => translate_while_loop(builder, while_loop),
        Command::Function(func) => translate_function_block(builder, func),
    }
}

fn translate_function_block(builder: StringBuilder, func: &Function) -> (r: StringBuilder)
    ensures
        r.lines() == builder.lines().push((builder.depth(), call_stmt_text(*func))),
        r.depth() == builder.depth(),
        r.floor() == builder.floor(),
{
    let call = translate_function_call(func);
    let mut line = String::from_str("\\STATE ");
    line.append(call.as_str());
    line.append(";");
    builder.add_line(line)
}

fn translate_assign(builder: StringBuilder, assign: &(String, CodeType)) -> (r: StringBuilder)
    ensures
        r.lines() == builder.lines().push((builder.depth(), assign_text(assign.0@, assign.1))),
        r.depth() == builder.depth(),
        r.floor() == builder.floor(),
{
    let rhs = translate_code_type(&assign.1);
    let mut line = String::from_str("\\STATE ");
    line.append(assign.0.as_str());
    line.append(" $\\leftarrow$ ");
    line.append(rhs.as_str());
    line.append(";");
    builder.add_line(line)
}

fn translate_condition(builder: StringBuilder, cond: &Condition) -> (r: StringBuilder)
    requires
        builder.floor() <= builder.depth(),
        builder.depth() + cond_height(*cond) <= usize::MAX,
    ensures
        r.lines() == builder.lines() + cond_lines(*cond, builder.depth()),
        r.depth() == builder.depth(),
        r.floor() == builder.floor(),
    decreases cond, 3int,
{
    let ghost d = builder.depth();
    let ghost if_part = block_lines(if_header(cond.if_block.cond), cond.if_block.body@, d);
    let mut b = translate_if_block(builder, &cond.if_block);
    let mut i: usize = 0;
    while i < cond.elif_blocks.len()
        invariant
            i <= cond.elif_blocks.len(),
            d == builder.depth(),
            builder.floor() <= d,
            d + cond_height(*cond) <= usize::MAX,
            if_part == block_lines(if_header(cond.if_block.cond), cond.if_block.body@, d),
            b.lines() == builder.lines() + if_part + elifs_lines(
                cond.elif_blocks@.subrange(0, i as int),
                d,
            ),
            b.depth() == d,
            b.floor() == builder.floor(),
        decreases cond.elif_blocks.len() - i,
    {
        proof {
            lemma_elifs_height_elem(cond.elif_blocks@, i as int);
        }
        b = translate_elif_block(b, &cond.elif_blocks[i]);
        proof {
            let next = cond.elif_blocks@.subrange(0, i + 1);
            assert(next.drop_last() =~= cond.elif_blocks@.subrange(0, i as int));
            assert(next.last() == cond.elif_blocks@[i as int]);
            assert(b.lines() =~= builder.lines() + if_part + elifs_lines(next, d));
        }
        i += 1;
    }
    assert(cond.elif_blocks@.subrange(0, cond.elif_blocks.len() as int) =~= cond.elif_blocks@);
    let b = match &cond.else_block {
        Some(else_block) => translate_else_block(b, else_block),
        None => b,
    };
    let b = b.add_line(String::from_str("\\ENDIF"));
    assert(b.lines() =~= builder.lines() + cond_lines(*cond, d));
    b
}

fn translate_if_block(builder: StringBuilder, cond: &ConditionPair) -> (r: StringBuilder)
    requires
        builder.floor() <= builder.depth(),
        builder.depth() + 1 + cmds_height(cond.body@) <= usize::MAX,
    ensures
        r.lines() == builder.lines() + block_lines(
            if_header(cond.cond),
            cond.body@,
            builder.depth(),
        ),
        r.depth() == builder.depth(),
        r.floor() == builder.floor(),
    decreases cond, 6int,
{
    translate_cond_block(builder, cond, "IF")
}

fn translate_elif_block(builder: StringBuilder, cond: &ConditionPair) -> (r: StringBuilder)
    requires
        builder.floor() <= builder.depth(),
        builder.depth() + 1 + cmds_height(cond.body@) <= usize::MAX,
    ensures
        r.lines() == builder.lines() + block_lines(
            elif_header(cond.cond),
            cond.body@,
            builder.depth(),
        ),
        r.depth() == builder.depth(),
        r.floor() == builder.floor(),
    decreases cond, 6int,
{
    translate_cond_block(builder, cond, "ELSIF")
}

fn translate_else_block(builder: StringBuilder, block: &Vec<Command>) -> (r: StringBuilder)
    requires
        builder.floor() <= builder.depth(),
        builder.depth() + 1 + cmds_height(block@) <= usize::MAX,
    ensures
        r.lines() == builder.lines() + block_lines(else_text(), block@, builder.depth()),
        r.depth() == builder.depth(),
        r.floor() == builder.floor(),
    decreases block, 3int,
{
    translate_heading_block(builder, String::from_str("\\ELSE"), block)
}

fn translate_cond_block(builder: StringBuilder, cond: &ConditionPair, name: &str) -> (r:
    StringBuilder)
    requires
        builder.floor() <= builder.depth(),
        builder.depth() + 1 + cmds_height(cond.body@) <= usize::MAX,
    ensures
        r.lines() == builder.lines() + block_lines(
            cond_header(name@, cond.cond),
            cond.body@,
            builder.depth(),
        ),
        r.depth() == builder.depth(),
        r.floor() == builder.floor(),
    decreases cond, 5int,
{
    let cond_txt = translate_code_type(&cond.cond);
    let mut cond_line = String::from_str("\\");
    cond_line.append(name);
    cond_line.append("{");
    cond_line.append(cond_txt.as_str());
    cond_line.append("}");
    translate_heading_block(builder, cond_line, &cond.body)
}

fn translate_declaration(builder: StringBuilder, decl: &Vec<Decl>) -> (r: StringBuilder)
    ensures
        r.lines() == builder.lines() + decl_lines(decl@, builder.depth()),
        r.depth() == builder.depth(),
        r.floor() == builder.floor(),
{
    if decl.len() > 0 {
        let b = builder.add_line(generate_declaration(decl));
        assert(b.lines() =~= builder.lines() + decl_lines(decl@, builder.depth()));
        b
    } else {
        assert(builder.lines() =~= builder.lines() + decl_lines(decl@, builder.depth()));
        builder
    }
}

fn generate_declaration(decl: &Vec<Decl>) -> (r: String)
    ensures
        r@ == require_text(decl@),
{
    let mut decl_str = String::new();
    let mut i: usize = 0;
    while i < decl.len()
        invariant
            i <= decl.len(),
            decl_str@ == decls_text(decl@.subrange(0, i as int)),
        decreases decl.len() - i,
    {
        if i > 0 {
            decl_str.append(", ");
        }
        decl_str.append(decl[i].0.as_str());
        decl_str.append(": ");
        decl_str.append(decl[i].1.as_str());
        proof {
            let next = decl@.subrange(0, i + 1);
            assert(next.drop_last() =~= decl@.subrange(0, i as int));
            assert(next.last() == decl@[i as int]);
            assert(decl_str@ =~= decls_text(next));
        }
        i += 1;
    }
    assert(decl@.subrange(0, decl.len() as int) =~= decl@);
    let mut r = String::from_str("\\REQUIRE ");
    r.append(decl_str.as_str());
    r
}

fn translate_for_loop(builder: StringBuilder, fl: &ForLoop) -> (r: StringBuilder)
    requires
        builder.floor() <= builder.depth(),
        builder.depth() + 1 + cmds_height(fl.body@) <= usize::MAX,
    ensures
        r.lines() == builder.lines() + block_lines(for_header(fl.kind), fl.body@, builder.depth())
            + seq![(builder.depth(), endfor_text())],
        r.depth() == builder.depth(),
        r.floor() == builder.floor(),
    decreases fl, 3int,
{
    let heading = translate_for_heading(&fl.kind);
    translate_heading_block(builder, heading, &fl.body).add_line(String::from_str("\\ENDFOR"))
}

fn translate_for_heading(kind: &ForLoopKind) -> (r: String)
    ensures
        r@ == for_header(*kind),
{
    match kind {
        ForLoopKind::Count((var, begin, end)) => {
            let begin = translate_code_type(begin);
            let end = translate_code_type(end);
            let mut r = String::from_str("\\FOR{");
            r.append(var.as_str());
            r.append(" =  ");
            r.append(begin.as_str());
            r.append(" \\textbf{to} ");
            r.append(end.as_str());
            r.append("}");
            r
        },
        ForLoopKind::Iter((var, iter)) => {
            let iter = translate_code_type(iter);
            let mut r = String::from_str("\\FOR{");
            r.append(var.as_str());
            r.append(" \\textbf{in}  ");
            r.append(iter.as_str());
            r.append("}");
            r
        },
    }
}

fn translate_return(builder: StringBuilder, rb: &CodeType) -> (r: StringBuilder)
    ensures
        r.lines() == builder.lines().push((builder.depth(), return_text(*rb))),
        r.depth() == builder.depth(),
        r.floor() == builder.floor(),
{
    let mut line = String::from_str("\\RETURN ");
    let e = translate_code_type(rb);
    line.append(e.as_str());
    line.append(";");
    builder.add_line(line)
}

fn translate_while_loop(builder: StringBuilder, wl: &ConditionPair) -> (r: StringBuilder)
    requires
        builder.floor() <= builder.depth(),
        builder.depth() + 1 + cmds_height(wl.body@) <= usize::MAX,
    ensures
        r.lines() == builder.lines() + block_lines(while_header(wl.cond), wl.body@, builder.depth())
            + seq![(builder.depth(), endwhile_text())],
        r.depth() == builder.depth(),
        r.floor() == builder.floor(),
    decreases wl, 3int,
{
    let code = translate_code_type(&wl.cond);
    let mut cond_line = String::from_str("\\WHILE{ ");
    cond_line.append(code.as_str());
    cond_line.append(" }");
    let builder = translate_heading_block(builder, cond_line, &wl.body);
    builder.add_line(String::from_str("\\ENDWHILE"))
}

fn translate_heading_block(builder: StringBuilder, heading: String, block: &Vec<Command>) -> (r:
    StringBuilder)
    requires
        builder.floor() <= builder.depth(),
        builder.depth() + 1 + cmds_height(block@) <= usize::MAX,
    ensures
        r.lines() == builder.lines() + block_lines(heading@, block@, builder.depth()),
        r.depth() == builder.depth(),
        r.floor() == builder.floor(),
    decreases block, 2int,
{
    let ghost d = builder.depth();
    let ghost h = heading@;
    let builder1 = builder.add_line(heading);
    let builder2 = builder1.increase_indent();
    let builder3 = translate_commands(builder2, block);
    let r = builder3.decrease_indent();
    assert(r.lines() =~= builder.lines() + block_lines(h, block@, d));
    r
}

fn translate_code_type(ct: &CodeType) -> (r: String)
    ensures
        r@ == expr_text(*ct),
    decreases ct, 1int,
{
    match ct {
        CodeType::Func(f) => translate_function_call(f),
        CodeType::Name(n) => n.clone(),
    }
}

fn translate_function_call(func: &Function) -> (r: String)
    ensures
        r@ == call_text(*func),
    decreases func, 0int,
{
    let mut args = String::new();
    let mut i: usize = 0;
    while i < func.args.len()
        invariant
            i <= func.args.len(),
            args@ == args_text(func.args@.subrange(0, i as int)),
        decreases func.args.len() - i,
    {
        let a = translate_code_type(&func.args[i]);
        if i > 0 {
            args.append(", ");
        }
        args.append(a.as_str());
        proof {
            let next = func.args@.subrange(0, i + 1);
            assert(next.drop_last() =~= func.args@.subrange(0, i as int));
            assert(next.last() == func.args@[i as int]);
            assert(args@ =~= args_text(next));
        }
        i += 1;
    }
    assert(func.args@.subrange(0, func.args.len() as int) =~= func.args@);
    let mut r = String::new();
    r.append(func.name.as_str());
    r.append("(");
    r.append(args.as_str());
    r.append(")");
    r
}

} // verus!
