use vstd::prelude::*;

verus! {

/// One algorithm: its caption, its declared inputs and its statements.
pub struct Code {
    pub caption: String,
    pub code: Vec<Command>,
    pub decl: DeclBlock,
}

/// A statement of the program.
pub enum Command {
    Assign(Assign),
    Condition(Condition),
    ForLoop(ForLoop),
    WhileLoop(ConditionPair),
    Return(CodeType),
    Function(Function),
}

/// An expression: a bare name, or a call whose arguments are expressions.
pub enum CodeType {
    Name(String),
    Func(Function),
}

/// A call: the function's name and its arguments, in order.
pub struct Function {
    pub name: String,
    pub args: Vec<CodeType>,
}

/// The declared inputs, in order.
pub type DeclBlock = Vec<Decl>;

/// A declared input: its name and a description of its type.
pub type Decl = (String, String);

/// An assignment: the target's name and the assigned expression.
pub type Assign = (String, CodeType);

/// An `if` with its `else if` branches, in order, and an optional `else`.
pub struct Condition {
    pub if_block: ConditionPair,
    pub elif_blocks: Vec<ConditionPair>,
    pub else_block: Option<Vec<Command>>,
}

/// A guard and the statements that run under it.
pub struct ConditionPair {
    pub cond: CodeType,
    pub body: Vec<Command>,
}

/// A `for` loop: its header and its body.
pub struct ForLoop {
    pub kind: ForLoopKind,
    pub body: Vec<Command>,
}

/// The header of a `for` loop: a counter with its bounds, or a variable
/// walking an iterable.
pub enum ForLoopKind {
    Count((String, CodeType, CodeType)),
    Iter((String, CodeType)),
}

} // verus!
