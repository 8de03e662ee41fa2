//! Expressions back to tokens.
//!
//! An expression is written as the tokens it was read from: a literal as
//! its token, a group between parentheses, an operator between or before
//! its operands. Since groups are nodes of the tree, nothing is lost:
//! parsing and writing back gives the tokens that were parsed.
use vstd::prelude::*;
use crate::grammar::{assignment, binary, binary_rest, binary_rest_moves_on, expression, height, join, kind_at, operand, operator, prefix_operator, primary, remaining, unary, Operator, Parsed, FACTOR, LOGIC_OR};
use crate::lexer::{TokenKind, TokenType, TokenView};
use crate::program::{BinaryOp, Expr, ExprView, Literal, LiteralView, LogicalOp, UnaryOp};

verus! {

/// The kinds of a sequence of tokens.
pub open spec fn kinds(tokens: Seq<TokenView>) -> Seq<TokenKind> {
    tokens.map_values(|t: TokenView| t.kind)
}

/// The token of a literal.
pub open spec fn literal_token(l: LiteralView) -> TokenKind {
    match l {
        LiteralView::Number(bits) => TokenKind::Number { literal: bits },
        LiteralView::String(s) => TokenKind::String { literal: s },
        LiteralView::True => TokenKind::True,
        LiteralView::False => TokenKind::False,
        LiteralView::Nil => TokenKind::Nil,
        LiteralView::Identifier(name) => TokenKind::Identifier { name },
    }
}

/// The token of a prefix operator.
pub open spec fn prefix_token(op: UnaryOp) -> TokenKind {
    match op {
        UnaryOp::Negate => TokenKind::Minus,
        UnaryOp::Not => TokenKind::Bang,
    }
}

/// The token of an operator between two operands.
pub open spec fn operator_token(op: Operator) -> TokenKind {
    match op {
        Operator::Binary(BinaryOp::Equal) => TokenKind::EqualEqual,
        Operator::Binary(BinaryOp::NotEqual) => TokenKind::BangEqual,
        Operator::Binary(BinaryOp::Less) => TokenKind::Less,
        Operator::Binary(BinaryOp::LessEqual) => TokenKind::LessEqual,
        Operator::Binary(BinaryOp::Greater) => TokenKind::Greater,
        Operator::Binary(BinaryOp::GreaterEqual) => TokenKind::GreaterEqual,
        Operator::Binary(BinaryOp::Plus) => TokenKind::Plus,
        Operator::Binary(BinaryOp::Minus) => TokenKind::Minus,
        Operator::Binary(BinaryOp::Times) => TokenKind::Star,
        Operator::Binary(BinaryOp::Div) => TokenKind::Slash,
        Operator::Logical(LogicalOp::And) => TokenKind::And,
        Operator::Logical(LogicalOp::Or) => TokenKind::Or,
    }
}

/// The tokens an expression is written as, in infix form.
pub open spec fn unparse(e: ExprView) -> Seq<TokenKind>
    decreases e,
{
    match e {
        ExprView::Literal(l) => seq![literal_token(l)],
        ExprView::Grouping(inner) => seq![TokenKind::LeftParen] + unparse(*inner)
            + seq![TokenKind::RightParen],
        ExprView::Unary(op, operand) => seq![prefix_token(op)] + unparse(*operand),
        ExprView::Binary(lhs, op, rhs) => unparse(*lhs) + seq![
            operator_token(Operator::Binary(op)),
        ] + unparse(*rhs),
        ExprView::Logical(lhs, op, rhs) => unparse(*lhs) + seq![
            operator_token(Operator::Logical(op)),
        ] + unparse(*rhs),
        ExprView::Assignment(name, value) => seq![
            TokenKind::Identifier { name },
            TokenKind::Equal,
        ] + unparse(*value),
    }
}

/// Whether the tokens from index `from` up to `to` are what `e` is written
/// as.
pub open spec fn spans(tokens: Seq<TokenView>, from: int, to: int, e: ExprView) -> bool {
    &&& 0 <= from <= to <= tokens.len()
    &&& kinds(tokens).subrange(from, to) == unparse(e)
}

/// Whether a production that gave `parsed` from index `pos` took at least
/// one token and gave the tree of exactly the tokens it took.
pub open spec fn faithful(tokens: Seq<TokenView>, pos: int, parsed: Parsed<ExprView>) -> bool {
    match parsed {
        Parsed::Done { value, next } => pos < next && spans(tokens, pos, next, value),
        Parsed::Failed { .. } => true,
    }
}

/// The token of an operator is the token it was read from.
pub proof fn operator_token_inverts(level: int, kind: TokenKind)
    ensures
        operator(level, kind) matches Some(op) ==> operator_token(op) == kind,
        prefix_operator(kind) matches Some(op) ==> prefix_token(op) == kind,
{
}

/// One token and the tokens after it are the tokens from the first on.
proof fn span_first(tokens: Seq<TokenView>, pos: int, to: int)
    requires
        0 <= pos < to <= tokens.len(),
    ensures
        kinds(tokens).subrange(pos, to) == seq![kind_at(tokens, pos)] + kinds(tokens).subrange(
            pos + 1,
            to,
        ),
{
    assert(kinds(tokens).subrange(pos, to) =~= seq![kind_at(tokens, pos)] + kinds(tokens).subrange(
        pos + 1,
        to,
    ));
}

/// Two neighbouring runs of tokens with one token between them are one run.
proof fn span_join(tokens: Seq<TokenView>, from: int, mid: int, to: int)
    requires
        0 <= from <= mid < to <= tokens.len(),
    ensures
        kinds(tokens).subrange(from, to) == kinds(tokens).subrange(from, mid) + seq![
            kind_at(tokens, mid),
        ] + kinds(tokens).subrange(mid + 1, to),
{
    assert(kinds(tokens).subrange(from, to) =~= kinds(tokens).subrange(from, mid) + seq![
        kind_at(tokens, mid),
    ] + kinds(tokens).subrange(mid + 1, to));
}

/// Parsing a primary and writing it back gives the tokens that were
/// parsed.
pub proof fn primary_round_trip(tokens: Seq<TokenView>, pos: int)
    ensures
        faithful(tokens, pos, primary(tokens, pos)),
    decreases remaining(tokens, pos), 0nat,
{
    match kind_at(tokens, pos) {
        TokenKind::LeftParen => {
            expression_round_trip(tokens, pos + 1);
            match expression(tokens, pos + 1) {
                Parsed::Done { value, next } => {
                    if kind_at(tokens, next) == TokenKind::RightParen {
                        span_join(tokens, pos, next, next + 1);
                        span_first(tokens, pos, next);
                        assert(kinds(tokens).subrange(next + 1, next + 1) =~= Seq::empty());
                        assert(kinds(tokens).subrange(pos, next + 1) =~= unparse(
                            ExprView::Grouping(Box::new(value)),
                        ));
                    }
                },
                Parsed::Failed { .. } => {},
            }
        },
        TokenKind::Eof => {},
        _ => {
            if primary(tokens, pos) is Done {
                assert(kinds(tokens).subrange(pos, pos + 1) =~= seq![kind_at(tokens, pos)]);
            }
        },
    }
}

/// Parsing a unary expression and writing it back gives the tokens that
/// were parsed.
pub proof fn unary_round_trip(tokens: Seq<TokenView>, pos: int)
    ensures
        faithful(tokens, pos, unary(tokens, pos)),
    decreases remaining(tokens, pos), 1nat,
{
    match prefix_operator(kind_at(tokens, pos)) {
        Some(op) => {
            operator_token_inverts(0, kind_at(tokens, pos));
            unary_round_trip(tokens, pos + 1);
            match unary(tokens, pos + 1) {
                Parsed::Done { value, next } => {
                    span_first(tokens, pos, next);
                },
                Parsed::Failed { .. } => {},
            }
        },
        None => {
            primary_round_trip(tokens, pos);
        },
    }
}

/// Parsing an operand of a level and writing it back gives the tokens that
/// were parsed.
pub proof fn operand_round_trip(tokens: Seq<TokenView>, level: int, pos: int)
    ensures
        faithful(tokens, pos, operand(tokens, level, pos)),
    decreases remaining(tokens, pos), 3 * height(level) + 2,
{
    if 0 <= level < FACTOR {
        binary_round_trip(tokens, level + 1, pos);
    } else {
        unary_round_trip(tokens, pos);
    }
}

/// Parsing the rest of a level after `lhs`, which was read from the tokens
/// from `start` up to `pos`, and writing the whole back gives the tokens
/// from `start` on that were parsed.
pub proof fn binary_rest_round_trip(
    tokens: Seq<TokenView>,
    level: int,
    lhs: ExprView,
    start: int,
    pos: int,
)
    requires
        spans(tokens, start, pos, lhs),
    ensures
        binary_rest(tokens, level, lhs, pos) matches Parsed::Done { value, next } ==> pos <= next
            && spans(tokens, start, next, value),
    decreases remaining(tokens, pos), 3 * height(level) + 3,
{
    match operator(level, kind_at(tokens, pos)) {
        Some(op) => {
            operator_token_inverts(level, kind_at(tokens, pos));
            operand_round_trip(tokens, level, pos + 1);
            match operand(tokens, level, pos + 1) {
                Parsed::Done { value, next } => {
                    if pos + 1 < next {
                        span_join(tokens, start, pos, next);
                        let joined = join(op, lhs, value);
                        assert(unparse(joined) == unparse(lhs) + seq![operator_token(op)] + unparse(
                            value,
                        ));
                        binary_rest_round_trip(tokens, level, joined, start, next);
                    }
                },
                Parsed::Failed { .. } => {},
            }
        },
        None => {},
    }
}

/// Parsing a left-associative level and writing it back gives the tokens
/// that were parsed.
pub proof fn binary_round_trip(tokens: Seq<TokenView>, level: int, pos: int)
    ensures
        faithful(tokens, pos, binary(tokens, level, pos)),
    decreases remaining(tokens, pos), 3 * height(level) + 4,
{
    operand_round_trip(tokens, level, pos);
    match operand(tokens, level, pos) {
        Parsed::Done { value, next } => {
            if pos < next {
                binary_rest_round_trip(tokens, level, value, pos, next);
            }
        },
        Parsed::Failed { .. } => {},
    }
}

/// Parsing an assignment and writing it back gives the tokens that were
/// parsed.
pub proof fn assignment_round_trip(tokens: Seq<TokenView>, pos: int)
    ensures
        faithful(tokens, pos, assignment(tokens, pos)),
    decreases remaining(tokens, pos), 3 * height(0) + 5,
{
    binary_round_trip(tokens, LOGIC_OR as int, pos);
    match binary(tokens, LOGIC_OR as int, pos) {
        Parsed::Done { value: lhs, next } => {
            if kind_at(tokens, next) == TokenKind::Equal && pos < next {
                assignment_round_trip(tokens, next + 1);
                match assignment(tokens, next + 1) {
                    Parsed::Done { value: rhs, next: end } => {
                        match lhs {
                            ExprView::Literal(LiteralView::Identifier(name)) => {
                                span_join(tokens, pos, next, end);
                                assert(unparse(ExprView::Assignment(name, Box::new(rhs))) =~= unparse(
                                    lhs,
                                ) + seq![TokenKind::Equal] + unparse(rhs));
                            },
                            _ => {},
                        }
                    },
                    Parsed::Failed { .. } => {},
                }
            }
        },
        Parsed::Failed { .. } => {},
    }
}

/// Parsing an expression and writing it back gives the tokens that were
/// parsed: whatever the tokens and wherever the expression starts, if it
/// parses, it takes at least one token, and the tree written in infix form
/// is, kind for kind, the tokens it took.
pub proof fn expression_round_trip(tokens: Seq<TokenView>, pos: int)
    ensures
        faithful(tokens, pos, expression(tokens, pos)),
    decreases remaining(tokens, pos), 3 * height(0) + 6,
{
    assignment_round_trip(tokens, pos);
}

/// The kinds of a sequence of token types.
pub open spec fn type_kinds(types: Seq<TokenType>) -> Seq<TokenKind> {
    types.map_values(|t: TokenType| t@)
}

/// The token of an operator between two operands.
fn operator_type(op: Operator) -> (t: TokenType)
    ensures
        t@ == operator_token(op),
{
    match op {
        Operator::Binary(BinaryOp::Equal) => TokenType::EqualEqual,
        Operator::Binary(BinaryOp::NotEqual) => TokenType::BangEqual,
        Operator::Binary(BinaryOp::Less) => TokenType::Less,
        Operator::Binary(BinaryOp::LessEqual) => TokenType::LessEqual,
        Operator::Binary(BinaryOp::Greater) => TokenType::Greater,
        Operator::Binary(BinaryOp::GreaterEqual) => TokenType::GreaterEqual,
        Operator::Binary(BinaryOp::Plus) => TokenType::Plus,
        Operator::Binary(BinaryOp::Minus) => TokenType::Minus,
        Operator::Binary(BinaryOp::Times) => TokenType::Star,
        Operator::Binary(BinaryOp::Div) => TokenType::Slash,
        Operator::Logical(LogicalOp::And) => TokenType::And,
        Operator::Logical(LogicalOp::Or) => TokenType::Or,
    }
}

/// Appends to `out` the tokens `e` is written as.
fn write_expression(e: &Expr, out: &mut Vec<TokenType>)
    ensures
        type_kinds(final(out)@) == type_kinds(old(out)@) + unparse(e@),
    decreases e,
{
    let ghost before = type_kinds(out@);
    match e {
        Expr::Literal(l) => {
            let t = match l {
                Literal::Number(bits) => TokenType::Number { literal: *bits },
                Literal::String(s) => TokenType::String { literal: s.clone() },
                Literal::True => TokenType::True,
                Literal::False => TokenType::False,
                Literal::Nil => TokenType::Nil,
                Literal::Identifier(name) => TokenType::Identifier { name: name.clone() },
            };
            push_type(out, t);
        },
        Expr::Grouping(inner) => {
            push_type(out, TokenType::LeftParen);
            write_expression(inner, out);
            push_type(out, TokenType::RightParen);
            assert(type_kinds(out@) =~= before + unparse(e@));
        },
        Expr::Unary(op, operand) => {
            let t = match op {
                UnaryOp::Negate => TokenType::Minus,
                UnaryOp::Not => TokenType::Bang,
            };
            push_type(out, t);
            write_expression(operand, out);
            assert(type_kinds(out@) =~= before + unparse(e@));
        },
        Expr::Binary(lhs, op, rhs) => {
            write_expression(lhs, out);
            push_type(out, operator_type(Operator::Binary(*op)));
            write_expression(rhs, out);
            assert(type_kinds(out@) =~= before + unparse(e@));
        },
        Expr::Logical(lhs, op, rhs) => {
            write_expression(lhs, out);
            push_type(out, operator_type(Operator::Logical(*op)));
            write_expression(rhs, out);
            assert(type_kinds(out@) =~= before + unparse(e@));
        },
        Expr::Assignment(name, value) => {
            push_type(out, TokenType::Identifier { name: name.clone() });
            push_type(out, TokenType::Equal);
            write_expression(value, out);
            assert(type_kinds(out@) =~= before + unparse(e@));
        },
    }
}

/// Appends one token type to `out`.
fn push_type(out: &mut Vec<TokenType>, t: TokenType)
    ensures
        type_kinds(final(out)@) == type_kinds(old(out)@) + seq![t@],
{
    assert(type_kinds(out@.push(t)) =~= type_kinds(out@) + seq![t@]);
    out.push(t);
}

/// The tokens an expression is written as, in infix form.
pub fn written(e: &Expr) -> (types: Vec<TokenType>)
    ensures
        type_kinds(types@) == unparse(e@),
{
    let mut types: Vec<TokenType> = Vec::new();
    assert(type_kinds(types@) =~= Seq::empty());
    write_expression(e, &mut types);
    assert(Seq::<TokenKind>::empty() + unparse(e@) =~= unparse(e@));
    types
}

// ---------------------------------------------------------------------------
// Reading back what was written.

/// Whether the tokens of `a` from index `from` up to `to` are, kind for
/// kind, the tokens of `b` at the indices `shift` further on.
pub open spec fn agree(a: Seq<TokenView>, b: Seq<TokenView>, shift: int, from: int, to: int) -> bool {
    forall|k: int| from <= k < to ==> #[trigger] kind_at(a, k) == kind_at(b, k + shift)
}

/// Whether the token of `b` that corresponds to the token of `a` at index
/// `at` is of the same kind or an end-of-input marker: what ends a
/// production in `a` ends it in `b` too.
pub open spec fn stops(a: Seq<TokenView>, b: Seq<TokenView>, shift: int, at: int) -> bool {
    kind_at(b, at + shift) == kind_at(a, at) || kind_at(b, at + shift) == TokenKind::Eof
}

/// Whether `b` gives from the corresponding index what `a` gave from
/// `pos`, if `a` gave a tree and `b` holds the same tokens as far as the
/// tree goes and stops there.
pub open spec fn carries_over(
    a: Seq<TokenView>,
    b: Seq<TokenView>,
    shift: int,
    in_a: Parsed<ExprView>,
    in_b: Parsed<ExprView>,
    pos: int,
) -> bool {
    in_a matches Parsed::Done { value, next } ==> (agree(a, b, shift, pos, next) && stops(
        a,
        b,
        shift,
        next,
    ) ==> in_b == (Parsed::Done { value, next: next + shift }))
}

/// A primary is read the same from the same tokens.
pub proof fn primary_carries_over(a: Seq<TokenView>, b: Seq<TokenView>, shift: int, pos: int)
    ensures
        carries_over(a, b, shift, primary(a, pos), primary(b, pos + shift), pos),
    decreases remaining(a, pos), 0nat,
{
    if primary(a, pos) is Done {
        let next = primary(a, pos)->next;
        if agree(a, b, shift, pos, next) && stops(a, b, shift, next) {
            primary_round_trip(a, pos);
            assert(kind_at(a, pos) == kind_at(b, pos + shift));
            match kind_at(a, pos) {
                TokenKind::LeftParen => {
                    match expression(a, pos + 1) {
                        Parsed::Done { value: inner, next: end } => {
                            expression_round_trip(a, pos + 1);
                            expression_carries_over(a, b, shift, pos + 1);
                            assert(kind_at(a, end) == kind_at(b, end + shift));
                        },
                        Parsed::Failed { .. } => {},
                    }
                },
                _ => {},
            }
        }
    }
}

/// A unary expression is read the same from the same tokens.
pub proof fn unary_carries_over(a: Seq<TokenView>, b: Seq<TokenView>, shift: int, pos: int)
    ensures
        carries_over(a, b, shift, unary(a, pos), unary(b, pos + shift), pos),
    decreases remaining(a, pos), 1nat,
{
    if unary(a, pos) is Done {
        let next = unary(a, pos)->next;
        if agree(a, b, shift, pos, next) && stops(a, b, shift, next) {
            unary_round_trip(a, pos);
            assert(kind_at(a, pos) == kind_at(b, pos + shift));
            match prefix_operator(kind_at(a, pos)) {
                Some(op) => {
                    unary_carries_over(a, b, shift, pos + 1);
                },
                None => {
                    primary_carries_over(a, b, shift, pos);
                },
            }
        }
    }
}

/// An operand of a level is read the same from the same tokens.
pub proof fn operand_carries_over(
    a: Seq<TokenView>,
    b: Seq<TokenView>,
    shift: int,
    level: int,
    pos: int,
)
    ensures
        carries_over(a, b, shift, operand(a, level, pos), operand(b, level, pos + shift), pos),
    decreases remaining(a, pos), 3 * height(level) + 2,
{
    if 0 <= level < FACTOR {
        binary_carries_over(a, b, shift, level + 1, pos);
    } else {
        unary_carries_over(a, b, shift, pos);
    }
}

/// The rest of a level is read the same from the same tokens.
pub proof fn binary_rest_carries_over(
    a: Seq<TokenView>,
    b: Seq<TokenView>,
    shift: int,
    level: int,
    lhs: ExprView,
    pos: int,
)
    ensures
        carries_over(
            a,
            b,
            shift,
            binary_rest(a, level, lhs, pos),
            binary_rest(b, level, lhs, pos + shift),
            pos,
        ),
    decreases remaining(a, pos), 3 * height(level) + 3,
{
    if binary_rest(a, level, lhs, pos) is Done {
        let next = binary_rest(a, level, lhs, pos)->next;
        if agree(a, b, shift, pos, next) && stops(a, b, shift, next) {
            match operator(level, kind_at(a, pos)) {
                Some(op) => {
                    match operand(a, level, pos + 1) {
                        Parsed::Done { value: rhs, next: mid } => {
                            if pos + 1 < mid {
                                binary_rest_moves_on(a, level, join(op, lhs, rhs), mid);
                                assert(kind_at(a, pos) == kind_at(b, pos + shift));
                                if mid < next {
                                    assert(kind_at(a, mid) == kind_at(b, mid + shift));
                                }
                                operand_carries_over(a, b, shift, level, pos + 1);
                                binary_rest_carries_over(a, b, shift, level, join(op, lhs, rhs), mid);
                            }
                        },
                        Parsed::Failed { .. } => {},
                    }
                },
                None => {},
            }
        }
    }
}

/// A left-associative level is read the same from the same tokens.
pub proof fn binary_carries_over(
    a: Seq<TokenView>,
    b: Seq<TokenView>,
    shift: int,
    level: int,
    pos: int,
)
    ensures
        carries_over(a, b, shift, binary(a, level, pos), binary(b, level, pos + shift), pos),
    decreases remaining(a, pos), 3 * height(level) + 4,
{
    if binary(a, level, pos) is Done {
        let next = binary(a, level, pos)->next;
        if agree(a, b, shift, pos, next) && stops(a, b, shift, next) {
            match operand(a, level, pos) {
                Parsed::Done { value: lhs, next: mid } => {
                    if pos < mid {
                        binary_rest_moves_on(a, level, lhs, mid);
                        if mid < next {
                            assert(kind_at(a, mid) == kind_at(b, mid + shift));
                        }
                        operand_carries_over(a, b, shift, level, pos);
                        binary_rest_carries_over(a, b, shift, level, lhs, mid);
                    }
                },
                Parsed::Failed { .. } => {},
            }
        }
    }
}

/// An assignment is read the same from the same tokens.
pub proof fn assignment_carries_over(a: Seq<TokenView>, b: Seq<TokenView>, shift: int, pos: int)
    ensures
        carries_over(a, b, shift, assignment(a, pos), assignment(b, pos + shift), pos),
    decreases remaining(a, pos), 3 * height(0) + 5,
{
    if assignment(a, pos) is Done {
        let next = assignment(a, pos)->next;
        if agree(a, b, shift, pos, next) && stops(a, b, shift, next) {
            match binary(a, LOGIC_OR as int, pos) {
                Parsed::Done { value: lhs, next: mid } => {
                    binary_round_trip(a, LOGIC_OR as int, pos);
                    if kind_at(a, mid) == TokenKind::Equal {
                        assignment_round_trip(a, mid + 1);
                        assert(kind_at(a, mid) == kind_at(b, mid + shift));
                        binary_carries_over(a, b, shift, LOGIC_OR as int, pos);
                        assignment_carries_over(a, b, shift, mid + 1);
                    } else {
                        binary_carries_over(a, b, shift, LOGIC_OR as int, pos);
                    }
                },
                Parsed::Failed { .. } => {},
            }
        }
    }
}

/// An expression is read the same from the same tokens: if `a` gives a
/// tree from `pos`, and `b` holds from the corresponding index on the same
/// kinds of tokens as far as the tree goes, followed by the same kind of
/// token or by the end of the input, then `b` gives the same tree.
pub proof fn expression_carries_over(a: Seq<TokenView>, b: Seq<TokenView>, shift: int, pos: int)
    ensures
        carries_over(a, b, shift, expression(a, pos), expression(b, pos + shift), pos),
    decreases remaining(a, pos), 3 * height(0) + 6,
{
    assignment_carries_over(a, b, shift, pos);
}

/// Parsing, writing back and parsing again gives the same tree: if the
/// tokens give a tree from `pos`, then tokens of the kinds the tree is
/// written as, whatever their lines and lexemes, give that tree from their
/// start, and all of them are taken.
pub proof fn written_expression_reads_back(
    tokens: Seq<TokenView>,
    pos: int,
    written: Seq<TokenView>,
)
    requires
        expression(tokens, pos) is Done,
        kinds(written) == unparse(expression(tokens, pos)->value),
    ensures
        expression(written, 0) == (Parsed::Done {
            value: expression(tokens, pos)->value,
            next: written.len() as int,
        }),
{
    let value = expression(tokens, pos)->value;
    let next = expression(tokens, pos)->next;
    expression_round_trip(tokens, pos);
    assert(kinds(tokens).subrange(pos, next).len() == kinds(written).len());
    assert forall|k: int| pos <= k < next implies #[trigger] kind_at(tokens, k) == kind_at(
        written,
        k - pos,
    ) by {
        assert(kinds(tokens).subrange(pos, next)[k - pos] == kinds(written)[k - pos]);
    }
    expression_carries_over(tokens, written, -pos, pos);
}

} // verus!
