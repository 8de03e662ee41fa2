//! The abstract syntax tree.
//!
//! A program is a sequence of declarations. Each node type has a
//! mathematical value (its view) in which strings are sequences of
//! characters and vectors are sequences; the grammar and the meaning of
//! programs are stated over those values.
use vstd::prelude::*;

verus! {

/// A program: its declarations, in the order they run.
pub type Program = Vec<Declaration>;

/// An operator between two values.
#[derive(Clone, Copy, Debug, PartialEq, Eq, Structural)]
pub enum BinaryOp {
    Equal,
    NotEqual,
    Less,
    LessEqual,
    Greater,
    GreaterEqual,
    Plus,
    Minus,
    Times,
    Div,
}

/// An operator before one value.
#[derive(Clone, Copy, Debug, PartialEq, Eq, Structural)]
pub enum UnaryOp {
    Negate,
    Not,
}

/// A short-circuit operator between two truth values.
#[derive(Clone, Copy, Debug, PartialEq, Eq, Structural)]
pub enum LogicalOp {
    And,
    Or,
}

/// A literal. An identifier is looked up when it is evaluated.
#[derive(Clone, Debug, PartialEq)]
pub enum Literal {
    /// A number, as the bit pattern of its binary64 value.
    Number(u64),
    String(String),
    True,
    False,
    Nil,
    Identifier(String),
}

/// An expression.
#[derive(Debug, PartialEq)]
pub enum Expr {
    Binary(Box<Expr>, BinaryOp, Box<Expr>),
    Unary(UnaryOp, Box<Expr>),
    Logical(Box<Expr>, LogicalOp, Box<Expr>),
    /// Assignment of a value to the variable of the given name.
    Assignment(String, Box<Expr>),
    Literal(Literal),
    Grouping(Box<Expr>),
}

/// A statement.
#[derive(Debug, PartialEq)]
pub enum Statement {
    Expr(Expr),
    Print(Expr),
    Block(Vec<Declaration>),
    /// Condition, the statement run when it holds and, if there is one, the
    /// statement run when it does not.
    IfElse(Expr, Box<Statement>, Box<Option<Statement>>),
}

/// A declaration: a new variable, or a statement.
#[derive(Debug, PartialEq)]
pub enum Declaration {
    Variable { identifier: String, value: Option<Expr> },
    Statement(Statement),
}

/// The mathematical value of a [`Literal`].
pub enum LiteralView {
    Number(u64),
    String(Seq<char>),
    True,
    False,
    Nil,
    Identifier(Seq<char>),
}

/// The mathematical value of an [`Expr`].
pub enum ExprView {
    Binary(Box<ExprView>, BinaryOp, Box<ExprView>),
    Unary(UnaryOp, Box<ExprView>),
    Logical(Box<ExprView>, LogicalOp, Box<ExprView>),
    Assignment(Seq<char>, Box<ExprView>),
    Literal(LiteralView),
    Grouping(Box<ExprView>),
}

/// The mathematical value of a [`Statement`].
pub enum StatementView {
    Expr(ExprView),
    Print(ExprView),
    Block(Seq<DeclarationView>),
    IfElse(ExprView, Box<StatementView>, Option<Box<StatementView>>),
}

/// The mathematical value of a [`Declaration`].
pub enum DeclarationView {
    Variable { identifier: Seq<char>, value: Option<ExprView> },
    Statement(StatementView),
}

impl View for Literal {
    type V = LiteralView;

    open spec fn view(&self) -> LiteralView {
        match self {
            Literal::Number(bits) => LiteralView::Number(*bits),
            Literal::String(s) => LiteralView::String(s@),
            Literal::True => LiteralView::True,
            Literal::False => LiteralView::False,
            Literal::Nil => LiteralView::Nil,
            Literal::Identifier(name) => LiteralView::Identifier(name@),
        }
    }
}

impl Expr {
    /// The value of the expression.
    pub open spec fn model(self) -> ExprView
        decreases self,
    {
        match self {
            Expr::Binary(lhs, op, rhs) => ExprView::Binary(
                Box::new((*lhs).model()),
                op,
                Box::new((*rhs).model()),
            ),
            Expr::Unary(op, operand) => ExprView::Unary(op, Box::new((*operand).model())),
            Expr::Logical(lhs, op, rhs) => ExprView::Logical(
                Box::new((*lhs).model()),
                op,
                Box::new((*rhs).model()),
            ),
            Expr::Assignment(name, value) => ExprView::Assignment(
                name@,
                Box::new((*value).model()),
            ),
            Expr::Literal(literal) => ExprView::Literal(literal@),
            Expr::Grouping(inner) => ExprView::Grouping(Box::new((*inner).model())),
        }
    }
}

impl View for Expr {
    type V = ExprView;

    open spec fn view(&self) -> ExprView {
        self.model()
    }
}

impl Statement {
    /// The value of the statement.
    pub open spec fn model(self) -> StatementView
        decreases self,
    {
        match self {
            Statement::Expr(e) => StatementView::Expr(e@),
            Statement::Print(e) => StatementView::Print(e@),
            Statement::Block(declarations) => StatementView::Block(
                Seq::new(
                    declarations@.len(),
                    |i: int|
                        if 0 <= i < declarations@.len() {
                            declarations@[i].model()
                        } else {
                            DeclarationView::Statement(StatementView::Block(Seq::empty()))
                        },
                ),
            ),
            Statement::IfElse(condition, then_branch, else_branch) => StatementView::IfElse(
                condition@,
                Box::new((*then_branch).model()),
                match *else_branch {
                    Some(s) => Some(Box::new(s.model())),
                    None => None,
                },
            ),
        }
    }
}

impl Declaration {
    /// The value of the declaration.
    pub open spec fn model(self) -> DeclarationView
        decreases self,
    {
        match self {
            Declaration::Variable { identifier, value } => DeclarationView::Variable {
                identifier: identifier@,
                value: match value {
                    Some(e) => Some(e@),
                    None => None,
                },
            },
            Declaration::Statement(s) => DeclarationView::Statement(s.model()),
        }
    }
}

impl View for Statement {
    type V = StatementView;

    open spec fn view(&self) -> StatementView {
        self.model()
    }
}

impl View for Declaration {
    type V = DeclarationView;

    open spec fn view(&self) -> DeclarationView {
        self.model()
    }
}

/// The values of a sequence of declarations.
pub open spec fn declaration_views(declarations: Seq<Declaration>) -> Seq<DeclarationView> {
    Seq::new(declarations.len(), |i: int| declarations[i]@)
}

/// The view of a block is the block of the views of its declarations.
pub proof fn block_view(declarations: Vec<Declaration>)
    ensures
        Statement::Block(declarations)@ == StatementView::Block(declaration_views(declarations@)),
{
    assert(Statement::Block(declarations).model()->Block_0 =~= declaration_views(declarations@));
}

impl BinaryOp {
    /// The operator as it is written.
    pub open spec fn spelling(self) -> Seq<char> {
        match self {
            BinaryOp::Equal => "=="@,
            BinaryOp::NotEqual => "!="@,
            BinaryOp::Less => "<"@,
            BinaryOp::LessEqual => "<="@,
            BinaryOp::Greater => ">"@,
            BinaryOp::GreaterEqual => ">="@,
            BinaryOp::Plus => "+"@,
            BinaryOp::Minus => "-"@,
            BinaryOp::Times => "*"@,
            BinaryOp::Div => "/"@,
        }
    }

    /// The operator as it is written.
    pub fn symbol(&self) -> (s: &'static str)
        ensures
            s@ == self.spelling(),
    {
        match self {
            BinaryOp::Equal => "==",
            BinaryOp::NotEqual => "!=",
            BinaryOp::Less => "<",
            BinaryOp::LessEqual => "<=",
            BinaryOp::Greater => ">",
            BinaryOp::GreaterEqual => ">=",
            BinaryOp::Plus => "+",
            BinaryOp::Minus => "-",
            BinaryOp::Times => "*",
            BinaryOp::Div => "/",
        }
    }

    /// Whether the operator is one of the four of arithmetic.
    pub open spec fn is_arithmetic(self) -> bool {
        self == BinaryOp::Plus || self == BinaryOp::Minus || self == BinaryOp::Times || self
            == BinaryOp::Div
    }
}

impl UnaryOp {
    /// The operator as it is written.
    pub open spec fn spelling(self) -> Seq<char> {
        match self {
            UnaryOp::Negate => "-"@,
            UnaryOp::Not => "!"@,
        }
    }

    /// The operator as it is written.
    pub fn symbol(&self) -> (s: &'static str)
        ensures
            s@ == self.spelling(),
    {
        match self {
            UnaryOp::Negate => "-",
            UnaryOp::Not => "!",
        }
    }
}

impl LogicalOp {
    /// The operator as it is written.
    pub open spec fn spelling(self) -> Seq<char> {
        match self {
            LogicalOp::And => "and"@,
            LogicalOp::Or => "or"@,
        }
    }

    /// The operator as it is written.
    pub fn symbol(&self) -> (s: &'static str)
        ensures
            s@ == self.spelling(),
    {
        match self {
            LogicalOp::And => "and",
            LogicalOp::Or => "or",
        }
    }
}

/// The binary expression `lhs op rhs`.
pub fn binop(lhs: Expr, op: BinaryOp, rhs: Expr) -> (e: Expr)
    ensures
        e == Expr::Binary(Box::new(lhs), op, Box::new(rhs)),
        e@ == ExprView::Binary(Box::new(lhs@), op, Box::new(rhs@)),
{
    Expr::Binary(Box::new(lhs), op, Box::new(rhs))
}

} // verus!
