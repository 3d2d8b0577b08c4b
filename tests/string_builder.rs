use pseudo_latex::string_builder::StringBuilder;

#[test]
fn builder_indents_each_line_by_its_depth() {
    let b = StringBuilder::new(1)
        .add_line("a".to_string())
        .increase_indent()
        .add_line("b".to_string())
        .increase_indent()
        .add_line("c".to_string())
        .decrease_indent()
        .decrease_indent()
        .add_line("d".to_string());
    assert_eq!(b.build_string('\t'), "\ta\n\t\tb\n\t\t\tc\n\td\n");
}

#[test]
fn depth_change_does_not_touch_earlier_lines() {
    let b = StringBuilder::new(0).add_line("x".to_string()).increase_indent().increase_indent();
    assert_eq!(b.build_string('-'), "x\n");
}

#[test]
fn empty_builder_renders_empty() {
    assert_eq!(StringBuilder::new(3).build_string(' '), "");
}
