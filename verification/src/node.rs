//! The output-node renderer and the color-writer adapter.
//!
//! [`OutputNode`] models a render target: a tree node with a tag, a class
//! name, text content and appended children. [`NodeFormatter`] renders
//! markup into such a node, and doubles as the sink for the diagnostic
//! emission protocol: a stateful writer driven by `set_color`, `write` and
//! `reset` calls, whose accumulated output is read back with `output` or
//! `into_node`.

use vstd::prelude::*;

use crate::classify::{color_class, style_class, CSSClass, TerminalColorSpec};
use crate::engine::{lossy_of, lossy_string};
use crate::markup::{Fragment, Markup};

verus! {

/// One node of the rendered output tree. Models the capability set a live
/// render target offers: set a class, set text, append a child.
pub struct OutputNode {
    pub tag: String,
    pub class_name: String,
    pub text: String,
    pub children: Vec<OutputNode>,
}

impl OutputNode {
    /// A fresh element with the given tag and nothing else.
    pub fn element(tag: &str) -> (r: OutputNode)
        ensures
            r.tag@ == tag@,
            r.class_name@ == Seq::<char>::empty(),
            r.text@ == Seq::<char>::empty(),
            r.children@.len() == 0,
    {
        OutputNode {
            tag: tag.to_owned(),
            class_name: String::new(),
            text: String::new(),
            children: Vec::new(),
        }
    }

    pub fn set_class_name(&mut self, name: &str)
        ensures
            final(self).tag@ == old(self).tag@,
            final(self).class_name@ == name@,
            final(self).text@ == old(self).text@,
            final(self).children@ == old(self).children@,
    {
        self.class_name = name.to_owned();
    }

    pub fn set_text(&mut self, text: &str)
        ensures
            final(self).tag@ == old(self).tag@,
            final(self).class_name@ == old(self).class_name@,
            final(self).text@ == text@,
            final(self).children@ == old(self).children@,
    {
        self.text = text.to_owned();
    }

    /// Appends one child; existing children keep their place and order.
    pub fn append_child(&mut self, child: OutputNode)
        ensures
            final(self).tag@ == old(self).tag@,
            final(self).class_name@ == old(self).class_name@,
            final(self).text@ == old(self).text@,
            final(self).children@ == old(self).children@.push(child),
    {
        self.children.push(child);
    }
}

/// A childless span node carrying the given class and text.
pub open spec fn is_span(n: OutputNode, class: Seq<char>, text: Seq<char>) -> bool {
    &&& n.tag@ == "span"@
    &&& n.class_name@ == class
    &&& n.text@ == text
    &&& n.children@.len() == 0
}

/// The class written on output produced under a color state: the color's
/// class when the state is colored and classifiable, no class otherwise.
pub open spec fn active_class(color: Option<TerminalColorSpec>) -> Seq<char> {
    match color {
        Option::None => Seq::empty(),
        Option::Some(c) => match color_class(c) {
            Option::Some(cl) => cl,
            Option::None => Seq::empty(),
        },
    }
}

/// One unit of accumulated writer output: a class and a text.
pub ghost struct WriterUnit {
    pub class: Seq<char>,
    pub text: Seq<char>,
}

/// Renders markup into an output node and accumulates diagnostic writer
/// output there. The color field is the writer's state machine: `None` is
/// the idle state, `Some(spec)` the colored state.
pub struct NodeFormatter {
    pub color: Option<TerminalColorSpec>,
    pub node: OutputNode,
}

/// The units a formatter has accumulated: its node's children, one unit per
/// child, in order.
pub open spec fn writer_units(w: NodeFormatter) -> Seq<WriterUnit> {
    w.node.children@.map_values(|c: OutputNode| WriterUnit { class: c.class_name@, text: c.text@ })
}

/// The container node is untouched but for its children.
pub open spec fn same_container(pre: NodeFormatter, post: NodeFormatter) -> bool {
    &&& post.node.tag@ == pre.node.tag@
    &&& post.node.class_name@ == pre.node.class_name@
    &&& post.node.text@ == pre.node.text@
}

/// What `set_color` does: the new spec strictly overwrites any previously
/// active color; the output is untouched.
pub open spec fn set_color_rel(pre: NodeFormatter, post: NodeFormatter, c: TerminalColorSpec) -> bool {
    &&& post.color == Some(c)
    &&& post.node == pre.node
}

/// What `reset` does: back to the idle state; the output is untouched.
pub open spec fn reset_rel(pre: NodeFormatter, post: NodeFormatter) -> bool {
    &&& post.color == None::<TerminalColorSpec>
    &&& post.node == pre.node
}

/// What `write` does: exactly one new span is appended, classed by the
/// color state active at the call and carrying the decoded text; the color
/// state and the earlier children are untouched.
pub open spec fn write_rel(pre: NodeFormatter, post: NodeFormatter, text: Seq<char>) -> bool {
    &&& post.color == pre.color
    &&& same_container(pre, post)
    &&& post.node.children@.len() == pre.node.children@.len() + 1
    &&& post.node.children@.subrange(0, pre.node.children@.len() as int) == pre.node.children@
    &&& is_span(post.node.children@.last(), active_class(pre.color), text)
}

/// What `format` does: one span is appended per fragment, in order, classed
/// by the fragment's style tag and carrying its text verbatim; the color
/// state and the earlier children are untouched.
pub open spec fn format_rel(pre: NodeFormatter, post: NodeFormatter, frags: Seq<Fragment>) -> bool {
    &&& post.color == pre.color
    &&& same_container(pre, post)
    &&& post.node.children@.len() == pre.node.children@.len() + frags.len()
    &&& post.node.children@.subrange(0, pre.node.children@.len() as int) == pre.node.children@
    &&& forall|j: int|
        0 <= j < frags.len() ==> is_span(
            post.node.children@[pre.node.children@.len() + j],
            style_class(frags[j].style),
            frags[j].text@,
        )
}

impl NodeFormatter {
    /// A fresh formatter around the given target node, in the idle state.
    pub fn new(node: OutputNode) -> (r: NodeFormatter)
        ensures
            r.color == None::<TerminalColorSpec>,
            r.node == node,
    {
        NodeFormatter { color: None, node }
    }

    /// The text a single fragment contributes.
    pub fn format_part(&self, part: &Fragment) -> (r: String)
        ensures
            r@ == part.text@,
    {
        part.text.clone()
    }

    /// Renders the markup into the target node: one classed span per
    /// fragment, appended in order. The indentation hint plays no role for
    /// a node target.
    pub fn format(&mut self, markup: &Markup, _indent: bool)
        ensures
            format_rel(*old(self), *final(self), markup.fragments@),
    {
        let n = markup.fragments.len();
        let mut i: usize = 0;
        while i < n
            invariant
                n == markup.fragments@.len(),
                i <= n,
                self.color == old(self).color,
                same_container(*old(self), *self),
                self.node.children@.len() == old(self).node.children@.len() + i,
                self.node.children@.subrange(
                    0,
                    old(self).node.children@.len() as int,
                ) == old(self).node.children@,
                forall|j: int|
                    0 <= j < i ==> is_span(
                        self.node.children@[old(self).node.children@.len() + j],
                        style_class(markup.fragments@[j].style),
                        markup.fragments@[j].text@,
                    ),
            decreases n - i,
        {
            let part = self.format_part(&markup.fragments[i]);
            let mut span = OutputNode::element("span");
            match markup.fragments[i].style.cssclass() {
                Some(class) => span.set_class_name(class.as_str()),
                None => unreached(),
            }
            span.set_text(part.as_str());
            self.node.append_child(span);
            proof {
                assert(self.node.children@.subrange(
                    0,
                    old(self).node.children@.len() as int,
                ) =~= old(self).node.children@);
            }
            i = i + 1;
        }
    }

    /// Whether the writer accepts color state; it always does.
    pub fn supports_color(&self) -> (r: bool)
        ensures
            r == true,
    {
        true
    }

    /// Enters the colored state with the given specification.
    pub fn set_color(&mut self, spec: &TerminalColorSpec)
        ensures
            set_color_rel(*old(self), *final(self), *spec),
    {
        self.color = Some(*spec);
    }

    /// Returns to the idle state; a no-op when already idle.
    pub fn reset(&mut self)
        ensures
            reset_rel(*old(self), *final(self)),
    {
        self.color = None;
    }

    /// Accepts one chunk of diagnostic output: decodes the bytes as text
    /// (lossily, so emission never aborts mid-stream), appends one span
    /// classed by the active color state, and reports the whole buffer as
    /// written.
    pub fn write(&mut self, buf: &[u8]) -> (r: usize)
        ensures
            write_rel(*old(self), *final(self), lossy_of(buf@)),
            r == buf@.len(),
    {
        let text = lossy_string(buf);
        let mut span = OutputNode::element("span");
        let class = match &self.color {
            Some(c) => c.cssclass(),
            None => None,
        };
        match class {
            Some(cl) => span.set_class_name(cl.as_str()),
            None => {},
        }
        span.set_text(text.as_str());
        self.node.append_child(span);
        proof {
            assert(self.node.children@.subrange(
                0,
                old(self).node.children@.len() as int,
            ) =~= old(self).node.children@);
        }
        buf.len()
    }

    /// Flushing is a no-op: output accumulates in the node.
    pub fn flush(&mut self)
        ensures
            *final(self) == *old(self),
    {
    }

    /// Hands the accumulated target node out, consuming the formatter.
    pub fn into_node(self) -> (r: OutputNode)
        ensures
            r == self.node,
    {
        self.node
    }
}

/// Read access to the accumulated output node of a diagnostic sink.
pub trait DOMOutput {
    /// The node this sink accumulates its output into.
    spec fn output_spec(&self) -> OutputNode;

    /// Hands out the accumulated node itself, units appended so far included.
    fn output(&self) -> (r: &OutputNode)
        ensures
            *r == self.output_spec(),
    ;
}

impl DOMOutput for NodeFormatter {
    open spec fn output_spec(&self) -> OutputNode {
        self.node
    }

    fn output(&self) -> (r: &OutputNode)
        ensures
            *r == self.output_spec(),
    {
        &self.node
    }
}

/// A write appends exactly one unit, classed by the color state active
/// before the call.
pub proof fn lemma_write_unit(pre: NodeFormatter, post: NodeFormatter, text: Seq<char>)
    requires
        write_rel(pre, post, text),
    ensures
        writer_units(post) == writer_units(pre).push(
            WriterUnit { class: active_class(pre.color), text },
        ),
{
    let n = pre.node.children@.len() as int;
    assert forall|i: int| 0 <= i < n implies post.node.children@[i] == pre.node.children@[i] by {
        assert(post.node.children@.subrange(0, n)[i] == post.node.children@[i]);
    }
    assert(writer_units(post) =~= writer_units(pre).push(
        WriterUnit { class: active_class(pre.color), text },
    ));
}

/// Law: the protocol run `setColor(A); write(x); setColor(B); write(y);
/// reset(); write(z)` appends exactly three output units, classed by `A`,
/// by `B`, and unclassed, each carrying its own text, in that order.
pub proof fn lemma_writer_protocol(
    w0: NodeFormatter,
    w1: NodeFormatter,
    w2: NodeFormatter,
    w3: NodeFormatter,
    w4: NodeFormatter,
    w5: NodeFormatter,
    w6: NodeFormatter,
    a: TerminalColorSpec,
    b: TerminalColorSpec,
    x: Seq<char>,
    y: Seq<char>,
    z: Seq<char>,
)
    requires
        set_color_rel(w0, w1, a),
        write_rel(w1, w2, x),
        set_color_rel(w2, w3, b),
        write_rel(w3, w4, y),
        reset_rel(w4, w5),
        write_rel(w5, w6, z),
    ensures
        writer_units(w6) == writer_units(w0) + seq![
            WriterUnit { class: active_class(Some(a)), text: x },
            WriterUnit { class: active_class(Some(b)), text: y },
            WriterUnit { class: Seq::empty(), text: z },
        ],
{
    lemma_write_unit(w1, w2, x);
    lemma_write_unit(w3, w4, y);
    lemma_write_unit(w5, w6, z);
    assert(writer_units(w1) =~= writer_units(w0));
    assert(writer_units(w3) =~= writer_units(w2));
    assert(writer_units(w5) =~= writer_units(w4));
    assert(writer_units(w6) =~= writer_units(w0) + seq![
        WriterUnit { class: active_class(Some(a)), text: x },
        WriterUnit { class: active_class(Some(b)), text: y },
        WriterUnit { class: Seq::empty(), text: z },
    ]);
}

/// Law: rendering an empty markup into a node creates no element; the
/// accumulated output is unchanged.
pub proof fn lemma_format_empty(pre: NodeFormatter, post: NodeFormatter, frags: Seq<Fragment>)
    requires
        format_rel(pre, post, frags),
        frags.len() == 0,
    ensures
        post.node.children@ == pre.node.children@,
        writer_units(post) == writer_units(pre),
{
    assert(post.node.children@ =~= pre.node.children@);
    assert(writer_units(post) =~= writer_units(pre));
}

} // verus!
