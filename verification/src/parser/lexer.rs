//! Nodes as spans of the input: each node holds the byte offsets at which
//! its text starts and ends, and is resolved to text against the input.

use vstd::prelude::*;
use vstd::string::*;
use vstd::utf8::*;

use crate::parser::grammar::NodeView;
use crate::parser::text::{slice_text, text};
use crate::parser::{node_views, TemplateNode};

verus! {

/// A node of a template that holds spans in place of text.
#[derive(Debug, PartialEq)]
pub enum SintaxNode {
    RawText { start: usize, end: usize },
    Variable { start: usize, end: usize },
    Function { name_start: usize, name_end: usize, args: Vec<SintaxNode> },
    Number { start: usize, end: usize },
    Float { start: usize, end: usize },
    Str { start: usize, end: usize },
    Array(Vec<SintaxNode>),
    Dict(Vec<((usize, usize), SintaxNode)>),
}

/// Whether the span from `start` to `end` lies in `bytes` and between
/// characters.
pub open spec fn span_fits(bytes: Seq<u8>, start: usize, end: usize) -> bool {
    start <= end <= bytes.len() && is_char_boundary(bytes, start as int) && is_char_boundary(
        bytes,
        end as int,
    )
}

impl SintaxNode {
    /// Whether the node can be resolved against `bytes`: all its spans fit,
    /// and it holds no array and no dictionary, for which templates have no
    /// node.
    pub open spec fn fits(self, bytes: Seq<u8>) -> bool
        decreases self,
    {
        match self {
            SintaxNode::RawText { start, end } => span_fits(bytes, start, end),
            SintaxNode::Variable { start, end } => span_fits(bytes, start, end),
            SintaxNode::Number { start, end } => span_fits(bytes, start, end),
            SintaxNode::Float { start, end } => span_fits(bytes, start, end),
            SintaxNode::Str { start, end } => span_fits(bytes, start, end),
            SintaxNode::Function { name_start, name_end, args } => span_fits(
                bytes,
                name_start,
                name_end,
            ) && forall|i: int| 0 <= i < args@.len() ==> (#[trigger] args@[i]).fits(bytes),
            SintaxNode::Array(_) => false,
            SintaxNode::Dict(_) => false,
        }
    }

    /// The node with the text of `bytes` in place of its spans.
    pub open spec fn resolved(self, bytes: Seq<u8>) -> NodeView
        decreases self,
    {
        match self {
            SintaxNode::RawText { start, end } => NodeView::RawText(
                text(bytes, start as nat, end as nat),
            ),
            SintaxNode::Variable { start, end } => NodeView::Variable(
                text(bytes, start as nat, end as nat),
            ),
            SintaxNode::Number { start, end } => NodeView::Number(
                text(bytes, start as nat, end as nat),
            ),
            SintaxNode::Float { start, end } => NodeView::Float(
                text(bytes, start as nat, end as nat),
            ),
            SintaxNode::Str { start, end } => NodeView::String(
                text(bytes, start as nat, end as nat),
            ),
            SintaxNode::Function { name_start, name_end, args } => NodeView::Function(
                text(bytes, name_start as nat, name_end as nat),
                Seq::new(
                    args@.len(),
                    |i: int|
                        if 0 <= i < args@.len() {
                            args@[i].resolved(bytes)
                        } else {
                            NodeView::RawText(Seq::empty())
                        },
                ),
            ),
            SintaxNode::Array(_) => NodeView::RawText(Seq::empty()),
            SintaxNode::Dict(_) => NodeView::RawText(Seq::empty()),
        }
    }
}

/// The node of `input` that `node` stands for.
fn resolve<'a>(input: &'a str, node: &SintaxNode) -> (resolved: TemplateNode<'a>)
    requires
        node.fits(input.spec_bytes()),
    ensures
        resolved@ == node.resolved(input.spec_bytes()),
    decreases node,
{
    match node {
        SintaxNode::RawText { start, end } => TemplateNode::RawText(
            slice_text(input, *start, *end),
        ),
        SintaxNode::Variable { start, end } => TemplateNode::Variable(
            slice_text(input, *start, *end),
        ),
        SintaxNode::Number { start, end } => TemplateNode::Number(slice_text(input, *start, *end)),
        SintaxNode::Float { start, end } => TemplateNode::Float(slice_text(input, *start, *end)),
        SintaxNode::Str { start, end } => TemplateNode::String(slice_text(input, *start, *end)),
        SintaxNode::Function { name_start, name_end, args } => {
            let ghost bytes = input.spec_bytes();
            let name = slice_text(input, *name_start, *name_end);
            let mut nodes: Vec<TemplateNode<'a>> = Vec::new();
            let mut index: usize = 0;
            while index < args.len()
                invariant
                    index <= args@.len(),
                    bytes == input.spec_bytes(),
                    *node == (SintaxNode::Function {
                        name_start: *name_start,
                        name_end: *name_end,
                        args: *args,
                    }),
                    forall|i: int| 0 <= i < args@.len() ==> (#[trigger] args@[i]).fits(bytes),
                    nodes@.len() == index,
                    forall|i: int|
                        0 <= i < index ==> (#[trigger] nodes@[i])@ == args@[i].resolved(bytes),
                decreases args@.len() - index,
            {
                proof {
                    assert(node->args == *args);
                    assert(decreases_to!(*node => node->args));
                    assert(decreases_to!(node->args => node->args[index as int]));
                }
                let inner = resolve(input, &args[index]);
                nodes.push(inner);
                index = index + 1;
            }
            proof {
                crate::parser::lemma_function_view(name, nodes);
                assert(node_views(nodes@) =~= node.resolved(bytes)->Function_1);
            }
            TemplateNode::Function(name, nodes)
        },
        SintaxNode::Array(_) => TemplateNode::RawText(""),
        SintaxNode::Dict(_) => TemplateNode::RawText(""),
    }
}

impl<'a> TemplateNode<'a> {
    /// The node of the input that a node of spans stands for, from the pair
    /// of the input and the node.
    pub fn from(pair: (&'a str, SintaxNode)) -> (resolved: TemplateNode<'a>)
        requires
            pair.1.fits(pair.0.spec_bytes()),
        ensures
            resolved@ == pair.1.resolved(pair.0.spec_bytes()),
    {
        resolve(pair.0, &pair.1)
    }
}

} // verus!
