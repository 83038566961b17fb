//! The expression tree that the parser builds and the evaluator walks.

use vstd::prelude::*;
use crate::scanner::{Literal, LiteralView, Token, TokenView};

verus! {

/// An expression: a strict tree in which every node owns its children.
#[derive(Debug, PartialEq)]
pub enum Expr {
    Binary(Box<BinaryExpr>),
    Unary(Box<UnaryExpr>),
    Grouping(Box<GroupingExpr>),
    Literal(LiteralExpr),
}

/// Two operands joined by an infix operator.
#[derive(Debug, PartialEq)]
pub struct BinaryExpr {
    pub left: Expr,
    pub operator: Token,
    pub right: Expr,
}

/// An operand under a prefix operator.
#[derive(Debug, PartialEq)]
pub struct UnaryExpr {
    pub operator: Token,
    pub right: Expr,
}

/// An expression in parentheses.
#[derive(Debug, PartialEq)]
pub struct GroupingExpr {
    pub expression: Expr,
}

/// A literal value.
#[derive(Debug, PartialEq)]
pub struct LiteralExpr {
    pub value: Literal,
}

/// The mathematical value of an [`Expr`].
pub enum ExprView {
    Binary { left: Box<ExprView>, operator: TokenView, right: Box<ExprView> },
    Unary { operator: TokenView, right: Box<ExprView> },
    Grouping { expression: Box<ExprView> },
    Literal { value: LiteralView },
}

impl View for Expr {
    type V = ExprView;

    open spec fn view(&self) -> ExprView
        decreases self,
    {
        match self {
            Expr::Binary(binary) => ExprView::Binary {
                left: Box::new(binary.left@),
                operator: binary.operator@,
                right: Box::new(binary.right@),
            },
            Expr::Unary(unary) => ExprView::Unary {
                operator: unary.operator@,
                right: Box::new(unary.right@),
            },
            Expr::Grouping(grouping) => ExprView::Grouping {
                expression: Box::new(grouping.expression@),
            },
            Expr::Literal(literal) => ExprView::Literal { value: literal.value@ },
        }
    }
}

impl Expr {
    /// A copy of the whole tree.
    fn duplicate(&self) -> (copy: Self)
        ensures
            copy == *self,
        decreases self,
    {
        match self {
            Expr::Binary(binary) => Expr::Binary(
                Box::new(
                    BinaryExpr {
                        left: binary.left.duplicate(),
                        operator: binary.operator.clone(),
                        right: binary.right.duplicate(),
                    },
                ),
            ),
            Expr::Unary(unary) => Expr::Unary(
                Box::new(
                    UnaryExpr { operator: unary.operator.clone(), right: unary.right.duplicate() },
                ),
            ),
            Expr::Grouping(grouping) => Expr::Grouping(
                Box::new(GroupingExpr { expression: grouping.expression.duplicate() }),
            ),
            Expr::Literal(literal) => Expr::Literal(LiteralExpr { value: literal.value.clone() }),
        }
    }
}

impl Clone for Expr {
    fn clone(&self) -> (copy: Self)
        ensures
            copy == *self,
    {
        self.duplicate()
    }
}

impl Clone for BinaryExpr {
    fn clone(&self) -> (copy: Self)
        ensures
            copy == *self,
    {
        BinaryExpr {
            left: self.left.duplicate(),
            operator: self.operator.clone(),
            right: self.right.duplicate(),
        }
    }
}

impl Clone for UnaryExpr {
    fn clone(&self) -> (copy: Self)
        ensures
            copy == *self,
    {
        UnaryExpr { operator: self.operator.clone(), right: self.right.duplicate() }
    }
}

impl Clone for GroupingExpr {
    fn clone(&self) -> (copy: Self)
        ensures
            copy == *self,
    {
        GroupingExpr { expression: self.expression.duplicate() }
    }
}

impl Clone for LiteralExpr {
    fn clone(&self) -> (copy: Self)
        ensures
            copy == *self,
    {
        LiteralExpr { value: self.value.clone() }
    }
}

/// An operation on expressions with one case for each kind of node.
///
/// For each kind the visitor may say, as a relation between itself before
/// the visit, the node, the result and itself after the visit, what a visit
/// does. A visitor that says nothing promises nothing.
pub trait Visitor<T>: Sized {
    /// Whether the visitor is in a state in which it can visit a node.
    open spec fn ready(&self) -> bool {
        true
    }

    /// What visiting a binary node may return and leave behind.
    open spec fn visits_binary(&self, expr: &BinaryExpr, result: T, after: &Self) -> bool {
        true
    }

    /// What visiting a unary node may return and leave behind.
    open spec fn visits_unary(&self, expr: &UnaryExpr, result: T, after: &Self) -> bool {
        true
    }

    /// What visiting a grouping may return and leave behind.
    open spec fn visits_grouping(&self, expr: &GroupingExpr, result: T, after: &Self) -> bool {
        true
    }

    /// What visiting a literal may return and leave behind.
    open spec fn visits_literal(&self, expr: &LiteralExpr, result: T, after: &Self) -> bool {
        true
    }

    fn visit_binary_expr(&mut self, expr: &BinaryExpr) -> (result: T)
        requires
            old(self).ready(),
        ensures
            final(self).ready(),
            old(self).visits_binary(expr, result, final(self)),
    ;

    fn visit_unary_expr(&mut self, expr: &UnaryExpr) -> (result: T)
        requires
            old(self).ready(),
        ensures
            final(self).ready(),
            old(self).visits_unary(expr, result, final(self)),
    ;

    fn visit_grouping_expr(&mut self, expr: &GroupingExpr) -> (result: T)
        requires
            old(self).ready(),
        ensures
            final(self).ready(),
            old(self).visits_grouping(expr, result, final(self)),
    ;

    fn visit_literal_expr(&mut self, expr: &LiteralExpr) -> (result: T)
        requires
            old(self).ready(),
        ensures
            final(self).ready(),
            old(self).visits_literal(expr, result, final(self)),
    ;
}

impl Expr {
    /// Has `visitor` visit this node: calls the case of the visitor that is
    /// for this kind of node, and returns what it returns.
    pub fn accept<T, V: Visitor<T>>(&self, visitor: &mut V) -> (result: T)
        requires
            old(visitor).ready(),
        ensures
            final(visitor).ready(),
            match self {
                Expr::Binary(expr) => old(visitor).visits_binary(expr, result, final(visitor)),
                Expr::Unary(expr) => old(visitor).visits_unary(expr, result, final(visitor)),
                Expr::Grouping(expr) => old(visitor).visits_grouping(
                    expr,
                    result,
                    final(visitor),
                ),
                Expr::Literal(expr) => old(visitor).visits_literal(expr, result, final(visitor)),
            },
    {
        match self {
            Expr::Binary(expr) => visitor.visit_binary_expr(expr),
            Expr::Unary(expr) => visitor.visit_unary_expr(expr),
            Expr::Grouping(expr) => visitor.visit_grouping_expr(expr),
            Expr::Literal(expr) => visitor.visit_literal_expr(expr),
        }
    }
}

} // verus!
