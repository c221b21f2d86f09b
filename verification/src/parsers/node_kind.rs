//! The kinds of syntax nodes, sorted by how the Typst adapter treats
//! them.

use vstd::prelude::*;
use crate::chars::str_equal;

verus! {

/// How the adapter treats a node of the syntax tree, told by the name
/// of the node's kind.
#[derive(Debug, Clone, Copy, PartialEq, Eq, Structural)]
pub enum NodeKind {
    Text,
    Space,
    Linebreak,
    Parbreak,
    SmartQuote,
    Link,
    Label,
    Str,
    Int,
    Float,
    /// Code, math or an escape: a region that is not prose.
    Opaque,
    /// A reference, an identifier or a keyword literal: one word.
    Name,
    /// A construct that stands only inside an equation.
    Math,
    Strong,
    Emph,
    Heading,
    ListItem,
    EnumItem,
    TermItem,
    ContentBlock,
    Parenthesized,
    Array,
    Dict,
    FieldAccess,
    LetBinding,
    DestructAssignment,
    SetRule,
    ShowRule,
    Contextual,
    Conditional,
    WhileLoop,
    ForLoop,
    ModuleImport,
    Named,
    Keyed,
    Spread,
    Underscore,
    Destructuring,
    /// Any other node: punctuation of the syntax, comments, errors.
    Other,
}

/// The treatment of a node whose kind has the given name.
pub open spec fn kind_of(name: Seq<char>) -> NodeKind {
    if name == "Text"@ {
        NodeKind::Text
    } else if name == "Space"@ {
        NodeKind::Space
    } else if name == "Linebreak"@ {
        NodeKind::Linebreak
    } else if name == "Parbreak"@ {
        NodeKind::Parbreak
    } else if name == "SmartQuote"@ {
        NodeKind::SmartQuote
    } else if name == "Link"@ {
        NodeKind::Link
    } else if name == "Label"@ {
        NodeKind::Label
    } else if name == "Str"@ {
        NodeKind::Str
    } else if name == "Int"@ {
        NodeKind::Int
    } else if name == "Float"@ {
        NodeKind::Float
    } else if name == "Escape"@ || name == "Shorthand"@ || name == "Raw"@ || name == "Equation"@
        || name == "Numeric"@ || name == "CodeBlock"@ || name == "Unary"@ || name == "Binary"@
        || name == "FuncCall"@ || name == "Closure"@ || name == "ModuleInclude"@
        || name == "LoopBreak"@ || name == "LoopContinue"@ || name == "FuncReturn"@ {
        NodeKind::Opaque
    } else if name == "Ref"@ || name == "Ident"@ || name == "None"@ || name == "Auto"@
        || name == "Bool"@ {
        NodeKind::Name
    } else if name == "Math"@ || name == "MathIdent"@ || name == "MathShorthand"@
        || name == "MathAlignPoint"@ || name == "MathDelimited"@ || name == "MathAttach"@
        || name == "MathPrimes"@ || name == "MathFrac"@ || name == "MathRoot"@ {
        NodeKind::Math
    } else if name == "Strong"@ {
        NodeKind::Strong
    } else if name == "Emph"@ {
        NodeKind::Emph
    } else if name == "Heading"@ {
        NodeKind::Heading
    } else if name == "ListItem"@ {
        NodeKind::ListItem
    } else if name == "EnumItem"@ {
        NodeKind::EnumItem
    } else if name == "TermItem"@ {
        NodeKind::TermItem
    } else if name == "ContentBlock"@ {
        NodeKind::ContentBlock
    } else if name == "Parenthesized"@ {
        NodeKind::Parenthesized
    } else if name == "Array"@ {
        NodeKind::Array
    } else if name == "Dict"@ {
        NodeKind::Dict
    } else if name == "FieldAccess"@ {
        NodeKind::FieldAccess
    } else if name == "LetBinding"@ {
        NodeKind::LetBinding
    } else if name == "DestructAssignment"@ {
        NodeKind::DestructAssignment
    } else if name == "SetRule"@ {
        NodeKind::SetRule
    } else if name == "ShowRule"@ {
        NodeKind::ShowRule
    } else if name == "Contextual"@ {
        NodeKind::Contextual
    } else if name == "Conditional"@ {
        NodeKind::Conditional
    } else if name == "WhileLoop"@ {
        NodeKind::WhileLoop
    } else if name == "ForLoop"@ {
        NodeKind::ForLoop
    } else if name == "ModuleImport"@ {
        NodeKind::ModuleImport
    } else if name == "Named"@ {
        NodeKind::Named
    } else if name == "Keyed"@ {
        NodeKind::Keyed
    } else if name == "Spread"@ {
        NodeKind::Spread
    } else if name == "Underscore"@ {
        NodeKind::Underscore
    } else if name == "Destructuring"@ {
        NodeKind::Destructuring
    } else {
        NodeKind::Other
    }
}

pub fn classify(name: &str) -> (kind: NodeKind)
    ensures
        kind == kind_of(name@),
{
    if str_equal(name, "Text") {
        NodeKind::Text
    } else if str_equal(name, "Space") {
        NodeKind::Space
    } else if str_equal(name, "Linebreak") {
        NodeKind::Linebreak
    } else if str_equal(name, "Parbreak") {
        NodeKind::Parbreak
    } else if str_equal(name, "SmartQuote") {
        NodeKind::SmartQuote
    } else if str_equal(name, "Link") {
        NodeKind::Link
    } else if str_equal(name, "Label") {
        NodeKind::Label
    } else if str_equal(name, "Str") {
        NodeKind::Str
    } else if str_equal(name, "Int") {
        NodeKind::Int
    } else if str_equal(name, "Float") {
        NodeKind::Float
    } else if str_equal(name, "Escape") || str_equal(name, "Shorthand")
        || str_equal(name, "Raw") || str_equal(name, "Equation") || str_equal(name, "Numeric")
        || str_equal(name, "CodeBlock") || str_equal(name, "Unary") || str_equal(name, "Binary")
        || str_equal(name, "FuncCall") || str_equal(name, "Closure")
        || str_equal(name, "ModuleInclude") || str_equal(name, "LoopBreak")
        || str_equal(name, "LoopContinue") || str_equal(name, "FuncReturn") {
        NodeKind::Opaque
    } else if str_equal(name, "Ref") || str_equal(name, "Ident") || str_equal(name, "None")
        || str_equal(name, "Auto") || str_equal(name, "Bool") {
        NodeKind::Name
    } else if str_equal(name, "Math") || str_equal(name, "MathIdent")
        || str_equal(name, "MathShorthand") || str_equal(name, "MathAlignPoint")
        || str_equal(name, "MathDelimited") || str_equal(name, "MathAttach")
        || str_equal(name, "MathPrimes") || str_equal(name, "MathFrac")
        || str_equal(name, "MathRoot") {
        NodeKind::Math
    } else if str_equal(name, "Strong") {
        NodeKind::Strong
    } else if str_equal(name, "Emph") {
        NodeKind::Emph
    } else if str_equal(name, "Heading") {
        NodeKind::Heading
    } else if str_equal(name, "ListItem") {
        NodeKind::ListItem
    } else if str_equal(name, "EnumItem") {
        NodeKind::EnumItem
    } else if str_equal(name, "TermItem") {
        NodeKind::TermItem
    } else if str_equal(name, "ContentBlock") {
        NodeKind::ContentBlock
    } else if str_equal(name, "Parenthesized") {
        NodeKind::Parenthesized
    } else if str_equal(name, "Array") {
        NodeKind::Array
    } else if str_equal(name, "Dict") {
        NodeKind::Dict
    } else if str_equal(name, "FieldAccess") {
        NodeKind::FieldAccess
    } else if str_equal(name, "LetBinding") {
        NodeKind::LetBinding
    } else if str_equal(name, "DestructAssignment") {
        NodeKind::DestructAssignment
    } else if str_equal(name, "SetRule") {
        NodeKind::SetRule
    } else if str_equal(name, "ShowRule") {
        NodeKind::ShowRule
    } else if str_equal(name, "Contextual") {
        NodeKind::Contextual
    } else if str_equal(name, "Conditional") {
        NodeKind::Conditional
    } else if str_equal(name, "WhileLoop") {
        NodeKind::WhileLoop
    } else if str_equal(name, "ForLoop") {
        NodeKind::ForLoop
    } else if str_equal(name, "ModuleImport") {
        NodeKind::ModuleImport
    } else if str_equal(name, "Named") {
        NodeKind::Named
    } else if str_equal(name, "Keyed") {
        NodeKind::Keyed
    } else if str_equal(name, "Spread") {
        NodeKind::Spread
    } else if str_equal(name, "Underscore") {
        NodeKind::Underscore
    } else if str_equal(name, "Destructuring") {
        NodeKind::Destructuring
    } else {
        NodeKind::Other
    }
}

} // verus!
