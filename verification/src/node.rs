//! The input model: one element of a tokenized wiki page.
//!
//! A page is a flat sequence of nodes; nesting (headings, templates, lists)
//! is expressed by child vectors inside the nodes.  Every node carries the
//! span it covers in the source text, counted in characters.

use vstd::prelude::*;

verus! {

/// Identifier for the kind of a definition list item.
#[derive(Clone, Copy, Debug, PartialEq, Eq, Structural)]
pub enum DefinitionListItemType {
    /// A description ("details") item.
    Details,
    /// A term item.
    Term,
}

/// List item of a definition list.
#[derive(Debug)]
pub struct DefinitionListItem {
    /// The kind of list item.
    pub type_: DefinitionListItemType,
    /// The content of the item.
    pub nodes: Vec<Node>,
    /// The character position in the source text where the item starts.
    pub start: usize,
    /// The character position in the source text where the item ends.
    pub end: usize,
}

/// List item of an unordered list.
#[derive(Debug)]
pub struct ListItem {
    /// The content of the item.
    pub nodes: Vec<Node>,
    /// The character position in the source text where the item starts.
    pub start: usize,
    /// The character position in the source text where the item ends.
    pub end: usize,
}

/// Template parameter.
#[derive(Debug)]
pub struct Parameter {
    /// The name of the parameter, if any.
    pub name: Option<Vec<Node>>,
    /// The value of the parameter.
    pub value: Vec<Node>,
    /// The character position in the source text where the parameter starts.
    pub start: usize,
    /// The character position in the source text where the parameter ends.
    pub end: usize,
}

/// One node of the tokenized page.
///
/// Node kinds that the dictionary grammar never inspects beyond their span
/// are represented by [`Node::Other`].
#[derive(Debug)]
pub enum Node {
    /// Toggle bold text.
    Bold {
        /// The character position in the source text where the node starts.
        start: usize,
        /// The character position in the source text where the node ends.
        end: usize,
    },
    /// Character entity.
    CharacterEntity {
        /// The character represented.
        character: char,
        /// The character position in the source text where the node starts.
        start: usize,
        /// The character position in the source text where the node ends.
        end: usize,
    },
    /// Comment.
    Comment {
        /// The character position in the source text where the node starts.
        start: usize,
        /// The character position in the source text where the node ends.
        end: usize,
    },
    /// Definition list.
    DefinitionList {
        /// The items of the list.
        items: Vec<DefinitionListItem>,
        /// The character position in the source text where the node starts.
        start: usize,
        /// The character position in the source text where the node ends.
        end: usize,
    },
    /// End tag.
    EndTag {
        /// The tag name.
        name: String,
        /// The character position in the source text where the node starts.
        start: usize,
        /// The character position in the source text where the node ends.
        end: usize,
    },
    /// Heading with a level from 1 to 6.
    Heading {
        /// The level of the heading.
        level: u8,
        /// The content of the heading.
        nodes: Vec<Node>,
        /// The character position in the source text where the node starts.
        start: usize,
        /// The character position in the source text where the node ends.
        end: usize,
    },
    /// Toggle italic text.
    Italic {
        /// The character position in the source text where the node starts.
        start: usize,
        /// The character position in the source text where the node ends.
        end: usize,
    },
    /// Internal link.
    Link {
        /// The target the link refers to.
        target: String,
        /// The text to display for the link.
        text: Vec<Node>,
        /// The character position in the source text where the node starts.
        start: usize,
        /// The character position in the source text where the node ends.
        end: usize,
    },
    /// Start tag.
    StartTag {
        /// The tag name.
        name: String,
        /// The character position in the source text where the node starts.
        start: usize,
        /// The character position in the source text where the node ends.
        end: usize,
    },
    /// Extension tag.
    Tag {
        /// The tag name.
        name: String,
        /// The character position in the source text where the node starts.
        start: usize,
        /// The character position in the source text where the node ends.
        end: usize,
    },
    /// Template invocation.
    Template {
        /// The name of the template.
        name: Vec<Node>,
        /// The parameters of the template.
        parameters: Vec<Parameter>,
        /// The character position in the source text where the node starts.
        start: usize,
        /// The character position in the source text where the node ends.
        end: usize,
    },
    /// Plain text.
    Text {
        /// The text.
        value: String,
        /// The character position in the source text where the node starts.
        start: usize,
        /// The character position in the source text where the node ends.
        end: usize,
    },
    /// Unordered list.
    UnorderedList {
        /// The items of the list.
        items: Vec<ListItem>,
        /// The character position in the source text where the node starts.
        start: usize,
        /// The character position in the source text where the node ends.
        end: usize,
    },
    /// Any other node kind; only its span is used.
    Other {
        /// The character position in the source text where the node starts.
        start: usize,
        /// The character position in the source text where the node ends.
        end: usize,
    },
}

impl Node {
    /// The character position in the source text where this node starts.
    pub open spec fn spec_start(&self) -> usize {
        match *self {
            Node::Bold { start, .. } => start,
            Node::CharacterEntity { start, .. } => start,
            Node::Comment { start, .. } => start,
            Node::DefinitionList { start, .. } => start,
            Node::EndTag { start, .. } => start,
            Node::Heading { start, .. } => start,
            Node::Italic { start, .. } => start,
            Node::Link { start, .. } => start,
            Node::StartTag { start, .. } => start,
            Node::Tag { start, .. } => start,
            Node::Template { start, .. } => start,
            Node::Text { start, .. } => start,
            Node::UnorderedList { start, .. } => start,
            Node::Other { start, .. } => start,
        }
    }

    /// The character position in the source text where this node ends.
    pub open spec fn spec_end(&self) -> usize {
        match *self {
            Node::Bold { end, .. } => end,
            Node::CharacterEntity { end, .. } => end,
            Node::Comment { end, .. } => end,
            Node::DefinitionList { end, .. } => end,
            Node::EndTag { end, .. } => end,
            Node::Heading { end, .. } => end,
            Node::Italic { end, .. } => end,
            Node::Link { end, .. } => end,
            Node::StartTag { end, .. } => end,
            Node::Tag { end, .. } => end,
            Node::Template { end, .. } => end,
            Node::Text { end, .. } => end,
            Node::UnorderedList { end, .. } => end,
            Node::Other { end, .. } => end,
        }
    }

    /// The character position in the source text where this node starts.
    #[verifier::when_used_as_spec(spec_start)]
    pub fn start(&self) -> (r: usize)
        ensures
            r == self.spec_start(),
    {
        match self {
            Node::Bold { start, .. } => *start,
            Node::CharacterEntity { start, .. } => *start,
            Node::Comment { start, .. } => *start,
            Node::DefinitionList { start, .. } => *start,
            Node::EndTag { start, .. } => *start,
            Node::Heading { start, .. } => *start,
            Node::Italic { start, .. } => *start,
            Node::Link { start, .. } => *start,
            Node::StartTag { start, .. } => *start,
            Node::Tag { start, .. } => *start,
            Node::Template { start, .. } => *start,
            Node::Text { start, .. } => *start,
            Node::UnorderedList { start, .. } => *start,
            Node::Other { start, .. } => *start,
        }
    }

    /// The character position in the source text where this node ends.
    #[verifier::when_used_as_spec(spec_end)]
    pub fn end(&self) -> (r: usize)
        ensures
            r == self.spec_end(),
    {
        match self {
            Node::Bold { end, .. } => *end,
            Node::CharacterEntity { end, .. } => *end,
            Node::Comment { end, .. } => *end,
            Node::DefinitionList { end, .. } => *end,
            Node::EndTag { end, .. } => *end,
            Node::Heading { end, .. } => *end,
            Node::Italic { end, .. } => *end,
            Node::Link { end, .. } => *end,
            Node::StartTag { end, .. } => *end,
            Node::Tag { end, .. } => *end,
            Node::Template { end, .. } => *end,
            Node::Text { end, .. } => *end,
            Node::UnorderedList { end, .. } => *end,
            Node::Other { end, .. } => *end,
        }
    }
}

/// The node's span lies inside a source text of `len` characters.
pub open spec fn span_wf(start: usize, end: usize, len: nat) -> bool {
    start <= end <= len
}

/// The node's span and, recursively, the spans of everything inside it lie
/// inside a source text of `len` characters.
pub open spec fn node_wf(n: Node, len: nat) -> bool
    decreases n,
{
    &&& span_wf(n.spec_start(), n.spec_end(), len)
    &&& match n {
        Node::DefinitionList { items, .. } => dl_items_wf(items@, len),
        Node::Heading { nodes, .. } => nodes_wf(nodes@, len),
        Node::Link { text, .. } => nodes_wf(text@, len),
        Node::Template { name, parameters, .. } => nodes_wf(name@, len) && parameters_wf(
            parameters@,
            len,
        ),
        Node::UnorderedList { items, .. } => list_items_wf(items@, len),
        _ => true,
    }
}

/// Every node of the sequence is well formed for a source of `len` characters.
pub open spec fn nodes_wf(s: Seq<Node>, len: nat) -> bool
    decreases s,
{
    forall|i: int| 0 <= i < s.len() ==> node_wf(#[trigger] s[i], len)
}

/// The parameter's spans are well formed for a source of `len` characters.
pub open spec fn parameter_wf(p: Parameter, len: nat) -> bool
    decreases p,
{
    &&& span_wf(p.start, p.end, len)
    &&& match p.name {
        Some(name) => nodes_wf(name@, len),
        None => true,
    }
    &&& nodes_wf(p.value@, len)
}

/// Every parameter of the sequence is well formed.
pub open spec fn parameters_wf(s: Seq<Parameter>, len: nat) -> bool
    decreases s,
{
    forall|i: int| 0 <= i < s.len() ==> parameter_wf(#[trigger] s[i], len)
}

/// The definition list item's spans are well formed.
pub open spec fn dl_item_wf(item: DefinitionListItem, len: nat) -> bool
    decreases item,
{
    span_wf(item.start, item.end, len) && nodes_wf(item.nodes@, len)
}

/// Every definition list item of the sequence is well formed.
pub open spec fn dl_items_wf(s: Seq<DefinitionListItem>, len: nat) -> bool
    decreases s,
{
    forall|i: int| 0 <= i < s.len() ==> dl_item_wf(#[trigger] s[i], len)
}

/// The unordered list item's spans are well formed.
pub open spec fn list_item_wf(item: ListItem, len: nat) -> bool
    decreases item,
{
    span_wf(item.start, item.end, len) && nodes_wf(item.nodes@, len)
}

/// Every unordered list item of the sequence is well formed.
pub open spec fn list_items_wf(s: Seq<ListItem>, len: nat) -> bool
    decreases s,
{
    forall|i: int| 0 <= i < s.len() ==> list_item_wf(#[trigger] s[i], len)
}

} // verus!
