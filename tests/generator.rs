use pseudo_latex::ast::{
    Code, CodeType, Command, Condition, ConditionPair, ForLoop, ForLoopKind, Function,
};
use pseudo_latex::generator::{fits_nesting, generate};

fn name(s: &str) -> CodeType {
    CodeType::Name(s.to_string())
}

fn call(f: &str, args: Vec<CodeType>) -> Function {
    Function { name: f.to_string(), args }
}

fn assign(t: &str, e: CodeType) -> Command {
    Command::Assign((t.to_string(), e))
}

fn count_loop(v: &str, begin: &str, end: &str, body: Vec<Command>) -> Command {
    Command::ForLoop(ForLoop {
        kind: ForLoopKind::Count((v.to_string(), name(begin), name(end))),
        body,
    })
}

fn program(caption: &str, decl: Vec<(&str, &str)>, code: Vec<Command>) -> Code {
    Code {
        caption: caption.to_string(),
        code,
        decl: decl.into_iter().map(|(n, t)| (n.to_string(), t.to_string())).collect(),
    }
}

fn wrap(body: &str) -> String {
    format!(
        "\\begin{{algorithm}}\n \\centering\n \\caption{{C}}\n \\begin{{algorithmic}}\n{} \\end{{algorithmic}}\n\\end{{algorithm}}\n",
        body
    )
}

fn sum_program() -> Code {
    program(
        "Sum",
        vec![("n", "int")],
        vec![
            count_loop(
                "i",
                "1",
                "n",
                vec![assign("s", CodeType::Func(call("+", vec![name("s"), name("i")])))],
            ),
            Command::Return(name("s")),
        ],
    )
}

#[test]
fn sum_example_renders_in_order() {
    let out = generate(sum_program(), None, ' ', false);
    let expected = "\\begin{algorithm}\n \\centering\n \\caption{Sum}\n \\begin{algorithmic}\n  \\REQUIRE n: int\n  \\FOR{i =  1 \\textbf{to} n}\n   \\STATE s $\\leftarrow$ +(s, i);\n  \\ENDFOR\n  \\RETURN s;\n \\end{algorithmic}\n\\end{algorithm}\n";
    assert_eq!(out, expected);
}

#[test]
fn rendering_twice_gives_identical_text() {
    let a = generate(sum_program(), Some("algo:sum".to_string()), '\t', true);
    let b = generate(sum_program(), Some("algo:sum".to_string()), '\t', true);
    assert_eq!(a, b);
}

#[test]
fn label_and_placement_go_into_the_header() {
    let out = generate(program("C", vec![], vec![]), Some("algo:x".to_string()), '.', true);
    assert_eq!(
        out,
        "\\begin{algorithm}[!htb]\n.\\centering\n.\\caption{C}\n.\\label{algo:x}\n.\\begin{algorithmic}\n.\\end{algorithmic}\n\\end{algorithm}\n"
    );
}

#[test]
fn empty_declarations_give_no_require_line() {
    let out = generate(program("C", vec![], vec![Command::Return(name("x"))]), None, ' ', false);
    assert_eq!(out, wrap("  \\RETURN x;\n"));
    assert!(!out.contains("REQUIRE"));
}

#[test]
fn declarations_are_listed_on_one_line_in_order() {
    let out = generate(program("C", vec![("a", "int"), ("b", "list")], vec![]), None, ' ', false);
    assert_eq!(out, wrap("  \\REQUIRE a: int, b: list\n"));
}

#[test]
fn if_with_one_elif_and_no_else() {
    let cond = Condition {
        if_block: ConditionPair { cond: name("a"), body: vec![assign("x", name("1"))] },
        elif_blocks: vec![ConditionPair { cond: name("b"), body: vec![assign("x", name("2"))] }],
        else_block: None,
    };
    let out = generate(program("C", vec![], vec![Command::Condition(cond)]), None, ' ', false);
    assert_eq!(
        out,
        wrap("  \\IF{a}\n   \\STATE x $\\leftarrow$ 1;\n  \\ELSIF{b}\n   \\STATE x $\\leftarrow$ 2;\n  \\ENDIF\n")
    );
    assert!(!out.contains("ELSE\n"));
}

#[test]
fn one_endif_however_many_branches() {
    let cond = Condition {
        if_block: ConditionPair { cond: name("a"), body: vec![] },
        elif_blocks: vec![
            ConditionPair { cond: name("b"), body: vec![] },
            ConditionPair { cond: name("c"), body: vec![] },
        ],
        else_block: Some(vec![Command::Return(name("z"))]),
    };
    let out = generate(program("C", vec![], vec![Command::Condition(cond)]), None, ' ', false);
    assert_eq!(out.matches("\\ENDIF").count(), 1);
    assert_eq!(
        out,
        wrap("  \\IF{a}\n  \\ELSIF{b}\n  \\ELSIF{c}\n  \\ELSE\n   \\RETURN z;\n  \\ENDIF\n")
    );
}

#[test]
fn nested_counting_loops_indent_innermost_two_levels() {
    let inner = count_loop("j", "1", "m", vec![assign("x", name("y"))]);
    let outer = count_loop("i", "1", "n", vec![inner]);
    let out = generate(program("C", vec![], vec![outer, Command::Return(name("x"))]), None, ' ', false);
    assert_eq!(
        out,
        wrap("  \\FOR{i =  1 \\textbf{to} n}\n   \\FOR{j =  1 \\textbf{to} m}\n    \\STATE x $\\leftarrow$ y;\n   \\ENDFOR\n  \\ENDFOR\n  \\RETURN x;\n")
    );
}

#[test]
fn removing_a_loop_keeps_other_lines() {
    let with_loop = program(
        "C",
        vec![],
        vec![
            assign("a", name("1")),
            count_loop("i", "1", "n", vec![assign("x", name("y"))]),
            Command::Return(name("a")),
        ],
    );
    let without = program("C", vec![], vec![assign("a", name("1")), Command::Return(name("a"))]);
    let out1 = generate(with_loop, None, ' ', false);
    let out2 = generate(without, None, ' ', false);
    assert!(out1.contains("  \\STATE a $\\leftarrow$ 1;\n"));
    assert!(out1.contains("  \\RETURN a;\n"));
    assert_eq!(out2, wrap("  \\STATE a $\\leftarrow$ 1;\n  \\RETURN a;\n"));
}

#[test]
fn while_and_iterator_loops_with_empty_bodies() {
    let w = Command::WhileLoop(ConditionPair { cond: name("go"), body: vec![] });
    let f = Command::ForLoop(ForLoop {
        kind: ForLoopKind::Iter(("x".to_string(), CodeType::Func(call("items", vec![name("s")])))),
        body: vec![],
    });
    let out = generate(program("C", vec![], vec![w, f]), None, ' ', false);
    assert_eq!(
        out,
        wrap("  \\WHILE{ go }\n  \\ENDWHILE\n  \\FOR{x \\textbf{in}  items(s)}\n  \\ENDFOR\n")
    );
}

#[test]
fn nested_calls_render_recursively() {
    let e = call("f", vec![CodeType::Func(call("g", vec![name("x")])), name("y")]);
    let out = generate(
        program("C", vec![], vec![Command::Function(e), Command::Function(call("h", vec![]))]),
        None,
        ' ',
        false,
    );
    assert_eq!(out, wrap("  \\STATE f(g(x), y);\n  \\STATE h();\n"));
}

#[test]
fn ordinary_programs_fit_the_nesting_limit() {
    assert!(fits_nesting(&sum_program()));
}
