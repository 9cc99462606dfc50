//! Names, parenthesised sequences and lists.

use crate::ast::{node_view, nodes_view, ASTNode};
use crate::environment::EnvVariableType;

use crate::error::{ParseError, ParseErrorKind};
use crate::parsers::grammar::{
    all_literals, group_node, literal_value, literal_values, parse_group_spec, parse_list_spec,
    parse_name_spec,
};
use crate::parsers::{parsed_of, Parser};
use crate::token::{TokenKind, TokenKindView};
use crate::value::{clone_value, values_view, Value, ValueType};
use vstd::prelude::*;

verus! {

/// What a parenthesised sequence of expressions stands for: the expression
/// itself where there is one, else the arguments of a call.
pub fn make_group(items: Vec<ASTNode>, line: usize, column: usize) -> (r: ASTNode)
    ensures
        r@ == group_node(nodes_view(items), line, column),
{
    let mut items = items;
    assert(nodes_view(items).len() == items.len());
    if items.len() == 1 {
        assert(nodes_view(items)[0] == items[0]@);
        match items.pop() {
            Some(only) => only,
            None => ASTNode::FunctionCallArgs { args: items, line, column },
        }
    } else {
        ASTNode::FunctionCallArgs { args: items, line, column }
    }
}

/// The values of the nodes, where every node is a literal.
pub fn values_of_literals(nodes: &Vec<ASTNode>) -> (r: Option<Vec<Value>>)
    ensures
        match r {
            Some(values) => all_literals(nodes_view(*nodes)) && values_view(values)
                == literal_values(nodes_view(*nodes)),
            None => !all_literals(nodes_view(*nodes)),
        },
{
    let mut values: Vec<Value> = Vec::new();
    let mut i: usize = 0;
    while i < nodes.len()
        invariant
            i <= nodes.len(),
            values.len() == i,
            forall|j: int| 0 <= j < i ==> (#[trigger] literal_value(nodes_view(*nodes)[j])) is Some,
            forall|j: int|
                0 <= j < i ==> (#[trigger] values[j])@ == literal_values(nodes_view(*nodes))[j],
        decreases nodes.len() - i,
    {
        assert(nodes_view(*nodes)[i as int] == nodes[i as int]@);
        match &nodes[i] {
            ASTNode::Literal { value, .. } => {
                values.push(clone_value(value));
            },
            _ => {
                assert(literal_value(nodes_view(*nodes)[i as int]) is None);
                return None;
            },
        }
        i += 1;
    }
    assert(nodes_view(*nodes).len() == nodes.len());
    assert(values_view(values) =~= literal_values(nodes_view(*nodes)));
    Some(values)
}

impl Parser {
    /// Parses a name as a primary form, with the cursor on it: a
    /// reassignment where `=` follows, an instantiation where a brace
    /// follows and the name is that of a struct that the parser has seen
    /// declared or imported, else a variable with the type that the
    /// parser's scopes record for it.
    pub(crate) fn parse_name(&mut self, name: String) -> (r: Result<ASTNode, ParseError>)
        requires
            old(self)@.kind() == TokenKindView::Identifier(name@),
        ensures
            parsed_of(r, *final(self)) == parse_name_spec(
                old(self)@,
                name@,
                old(self).depth as nat,
            ),
            final(self).depth == old(self).depth,
            final(self)@.scopes == old(self)@.scopes,
            final(self)@.remaining() <= old(self)@.remaining(),
            r is Ok ==> final(self)@.remaining() < old(self)@.remaining(),
        decreases old(self).depth, 2nat, old(self)@.remaining(),
    {
        proof {
            reveal(parse_name_spec);
        }
        let (line, column) = self.get_line_column();
        match self.peek_kind() {
            TokenKind::Equal => {
                self.consume_token();
                self.consume_token();
                let value = self.parse_nested_expression(0);
                match value {
                    Ok(assigned) => Ok(
                        ASTNode::Assign {
                            name,
                            value: Box::new(assigned),
                            variable_type: EnvVariableType::Mutable,
                            value_type: ValueType::Any,
                            is_new: false,
                            line,
                            column,
                        },
                    ),
                    Err(e) => Err(e),
                }
            },
            TokenKind::LBrace => {
                if self.is_struct_name(&name) {
                    self.consume_token();
                    self.consume_token();
                    let fields = self.parse_inits()?;
                    Ok(ASTNode::StructInstance { name, fields, line, column })
                } else {
                    let value_type = self.find_type(&name);
                    self.consume_token();
                    Ok(ASTNode::Variable { name, value_type, line, column })
                }
            },
            _ => {
                let value_type = self.find_type(&name);
                self.consume_token();
                Ok(ASTNode::Variable { name, value_type, line, column })
            },
        }
    }

    /// Parses a parenthesised sequence, with the cursor on the opening
    /// parenthesis: one expression stands for itself, any other number for
    /// the arguments of a call.
    pub(crate) fn parse_group(&mut self) -> (r: Result<ASTNode, ParseError>)
        requires
            old(self)@.kind() is LParen,
        ensures
            parsed_of(r, *final(self)) == parse_group_spec(old(self)@, old(self).depth as nat),
            final(self).depth == old(self).depth,
            final(self)@.scopes == old(self)@.scopes,
            final(self)@.remaining() <= old(self)@.remaining(),
            r is Ok ==> final(self)@.remaining() < old(self)@.remaining(),
        decreases old(self).depth, 2nat, old(self)@.remaining(),
    {
        proof {
            reveal(parse_group_spec);
        }
        let (line, column) = self.get_line_column();
        self.consume_token();
        let items = self.parse_sequence(TokenKind::RParen)?;
        Ok(make_group(items, line, column))
    }

    /// Parses a list of literals in brackets, with the cursor on the
    /// opening bracket. Fails with `UnexpectedToken` where an item is no
    /// literal.
    pub(crate) fn parse_list(&mut self) -> (r: Result<ASTNode, ParseError>)
        requires
            old(self)@.kind() is LBrancket,
        ensures
            parsed_of(r, *final(self)) == parse_list_spec(old(self)@, old(self).depth as nat),
            final(self).depth == old(self).depth,
            final(self)@.scopes == old(self)@.scopes,
            final(self)@.remaining() <= old(self)@.remaining(),
            r is Ok ==> final(self)@.remaining() < old(self)@.remaining(),
        decreases old(self).depth, 2nat, old(self)@.remaining(),
    {
        proof {
            reveal(parse_list_spec);
            reveal_with_fuel(node_view, 2);
        }
        let (line, column) = self.get_line_column();
        self.consume_token();
        let items = self.parse_sequence(TokenKind::RBrancket)?;
        match values_of_literals(&items) {
            Some(values) => Ok(ASTNode::Literal { value: Value::List(values), line, column }),
            None => Err(self.error_here(ParseErrorKind::UnexpectedToken)),
        }
    }
}

} // verus!
