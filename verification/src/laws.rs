//! What holds of every template and every registry.
//!
//! The laws are stated over the grammar of templates and the outcome of
//! nodes, which the contracts of the parser and the renderer speak of.

use vstd::prelude::*;
use vstd::utf8::*;

use crate::error::ErrorView;
use crate::parser::error::SyntaxErrorView;
use crate::parser::grammar::{
    delimiter_at,
    expression,
    in_class,
    prepend,
    raw_text_len,
    run_len,
    template,
    ByteClass,
    NodeView,
    Parsed,
    OPEN_PAREN,
};
use crate::parser::text::text;
use crate::render::{
    arguments_outcome,
    call_outcome,
    lemma_arguments_fail,
    outcome,
    rendered,
    Answers,
};
use crate::template::function::FunctionErrorView;
use crate::template::SrTemplate;

verus! {

/// A run of bytes of one class that cannot be made longer has the length
/// that `run_len` gives.
pub proof fn lemma_run_between(bytes: Seq<u8>, start: nat, end: nat, class: ByteClass)
    requires
        start <= end <= bytes.len(),
        forall|i: int| start <= i < end ==> in_class(class, #[trigger] bytes[i]),
        end < bytes.len() ==> !in_class(class, bytes[end as int]),
    ensures
        run_len(bytes, start, class) == end - start,
    decreases end - start,
{
    if start < end {
        lemma_run_between(bytes, start + 1, end, class);
    }
}

/// Raw text reaches up to the first place at which the opening delimiter
/// stands.
pub proof fn lemma_raw_text_between(bytes: Seq<u8>, open: Seq<u8>, start: nat, end: nat)
    requires
        start <= end <= bytes.len(),
        forall|i: nat| start <= i < end ==> !#[trigger] delimiter_at(bytes, open, i),
        end < bytes.len() ==> delimiter_at(bytes, open, end),
    ensures
        raw_text_len(bytes, open, start) == end - start,
    decreases end - start,
{
    if start < end {
        lemma_raw_text_between(bytes, open, start + 1, end);
    }
}

/// The nodes of a template from `pos` on in which the opening delimiter
/// stands nowhere from `pos` on: one node of raw text, or none at the end of
/// the input.
pub proof fn lemma_template_of_plain_text(bytes: Seq<u8>, open: Seq<u8>, close: Seq<u8>, pos: nat)
    requires
        open.len() > 0,
        pos <= bytes.len(),
        forall|i: nat| pos <= i ==> !#[trigger] delimiter_at(bytes, open, i),
    ensures
        template(bytes, open, close, pos) == if pos == bytes.len() {
            Ok::<Seq<NodeView>, SyntaxErrorView>(Seq::empty())
        } else {
            Ok(seq![NodeView::RawText(text(bytes, pos, bytes.len()))])
        },
{
    if pos < bytes.len() {
        lemma_raw_text_between(bytes, open, pos, bytes.len());
        assert(template(bytes, open, close, bytes.len()) == Ok::<Seq<NodeView>, SyntaxErrorView>(
            Seq::empty(),
        ));
        let node = NodeView::RawText(text(bytes, pos, bytes.len()));
        assert(seq![node] + Seq::<NodeView>::empty() =~= seq![node]);
    }
}

/// What one node renders to is its outcome.
pub proof fn lemma_rendered_one(node: NodeView, answers: Seq<Answers>)
    ensures
        rendered(seq![node], answers) == outcome(node, answers[0]),
{
    let nodes = seq![node];
    assert(nodes.drop_last() =~= Seq::<NodeView>::empty());
    assert(rendered(nodes.drop_last(), answers) == Ok::<Seq<char>, ErrorView>(Seq::empty()));
    match outcome(node, answers[0]) {
        Ok(piece) => {
            assert(Seq::<char>::empty() + piece =~= piece);
        },
        Err(_) => {},
    }
}

/// A template in which the opening delimiter stands nowhere renders to
/// itself, whatever the registry holds and whatever the closing delimiter
/// is. This holds of every pair of delimiters: after the delimiters of a
/// context were changed, a template that is written with the earlier ones
/// is plain text to it, as long as the new opening delimiter does not stand
/// in it.
pub proof fn law_plain_text_renders_unchanged(
    context: SrTemplate,
    text: Seq<char>,
    result: Result<Seq<char>, ErrorView>,
)
    requires
        context.open_delimiter().len() > 0,
        forall|pos: nat|
            !#[trigger] delimiter_at(
                encode_utf8(text),
                encode_utf8(context.open_delimiter()),
                pos,
            ),
        context.renders(text, result),
    ensures
        result == Ok::<Seq<char>, ErrorView>(text),
{
    let bytes = encode_utf8(text);
    let open = encode_utf8(context.open_delimiter());
    let close = encode_utf8(context.close_delimiter());
    crate::parser::lemma_nonempty(context.open_delimiter());
    lemma_template_of_plain_text(bytes, open, close, 0);
    let nodes = template(bytes, open, close, 0)->Ok_0;
    let answers = choose|answers: Seq<Answers>| result == #[trigger] rendered(nodes, answers);
    if bytes.len() == 0 {
        encode_utf8_decode_utf8(text);
        assert(text =~= Seq::<char>::empty());
    } else {
        lemma_rendered_one(nodes[0], answers);
        assert(nodes =~= seq![nodes[0]]);
        assert(bytes.subrange(0, bytes.len() as int) =~= bytes);
        encode_utf8_decode_utf8(text);
    }
}

/// The nodes of the raw text `bytes`: one node, or none where the text is
/// empty.
pub open spec fn raw_nodes(bytes: Seq<u8>) -> Seq<NodeView> {
    if bytes.len() == 0 {
        Seq::empty()
    } else {
        seq![NodeView::RawText(decode_utf8(bytes))]
    }
}

/// Whether all of `bytes` are of `class`.
pub open spec fn all_of(bytes: Seq<u8>, class: ByteClass) -> bool {
    forall|i: int| 0 <= i < bytes.len() ==> in_class(class, #[trigger] bytes[i])
}

/// The expression at `pos` where whitespace, a name and whitespace stand
/// there and no `(` follows: the variable of that name.
pub proof fn lemma_expression_of_variable(bytes: Seq<u8>, pos: nat, lead: nat, name: nat, gap: nat)
    requires
        run_len(bytes, pos, ByteClass::Whitespace) == lead,
        run_len(bytes, pos + lead, ByteClass::Identifier) == name,
        run_len(bytes, pos + lead + name, ByteClass::Whitespace) == gap,
        pos + lead + name + gap < bytes.len() ==> bytes[pos + lead + name + gap as int] != OPEN_PAREN,
    ensures
        expression(bytes, pos) == (Parsed::<NodeView> {
            used: lead + name + gap,
            value: Ok(NodeView::Variable(text(bytes, pos + lead, pos + lead + name))),
        }),
{
}

/// The nodes of a template from an opening delimiter on, where a name
/// stands between the delimiters: the variable of that name, and the nodes
/// of what follows the closing delimiter.
pub proof fn lemma_template_at_variable(
    bytes: Seq<u8>,
    open: Seq<u8>,
    close: Seq<u8>,
    pos: nat,
    name_start: nat,
    name_end: nat,
    close_at: nat,
)
    requires
        open.len() > 0,
        close.len() > 0,
        delimiter_at(bytes, open, pos),
        pos + open.len() <= name_start <= name_end <= close_at,
        delimiter_at(bytes, close, close_at),
        forall|i: int|
            pos + open.len() <= i < name_start ==> in_class(
                ByteClass::Whitespace,
                #[trigger] bytes[i],
            ),
        forall|i: int|
            name_start <= i < name_end ==> in_class(ByteClass::Identifier, #[trigger] bytes[i]),
        forall|i: int|
            name_end <= i < close_at ==> in_class(ByteClass::Whitespace, #[trigger] bytes[i]),
        !in_class(ByteClass::Whitespace, bytes[name_start as int]),
        !in_class(ByteClass::Identifier, bytes[name_end as int]),
        !in_class(ByteClass::Whitespace, bytes[close_at as int]),
        bytes[close_at as int] != OPEN_PAREN,
    ensures
        template(bytes, open, close, pos) == prepend(
            NodeView::Variable(text(bytes, name_start, name_end)),
            template(bytes, open, close, close_at + close.len()),
        ),
{
    let start = pos + open.len();
    let lead = (name_start - start) as nat;
    let name = (name_end - name_start) as nat;
    let gap = (close_at - name_end) as nat;
    assert(run_len(bytes, start, ByteClass::Whitespace) == lead) by {
        lemma_run_between(bytes, start, name_start, ByteClass::Whitespace);
    }
    assert(run_len(bytes, name_start, ByteClass::Identifier) == name) by {
        lemma_run_between(bytes, name_start, name_end, ByteClass::Identifier);
    }
    assert(run_len(bytes, name_end, ByteClass::Whitespace) == gap) by {
        lemma_run_between(bytes, name_end, close_at, ByteClass::Whitespace);
    }
    lemma_expression_of_variable(bytes, start, lead, name, gap);
}

/// The nodes of a template that holds one expression, a variable: the raw
/// text before it, the variable, and the raw text after it.
pub proof fn lemma_template_with_variable(
    bytes: Seq<u8>,
    open: Seq<u8>,
    close: Seq<u8>,
    at_open: nat,
    name_start: nat,
    name_end: nat,
    at_close: nat,
)
    requires
        open.len() > 0,
        close.len() > 0,
        delimiter_at(bytes, open, at_open),
        at_open + open.len() <= name_start <= name_end <= at_close,
        delimiter_at(bytes, close, at_close),
        forall|i: int|
            at_open + open.len() <= i < name_start ==> in_class(
                ByteClass::Whitespace,
                #[trigger] bytes[i],
            ),
        forall|i: int|
            name_start <= i < name_end ==> in_class(ByteClass::Identifier, #[trigger] bytes[i]),
        forall|i: int|
            name_end <= i < at_close ==> in_class(ByteClass::Whitespace, #[trigger] bytes[i]),
        !in_class(ByteClass::Whitespace, bytes[name_start as int]),
        !in_class(ByteClass::Identifier, bytes[name_end as int]),
        !in_class(ByteClass::Whitespace, bytes[at_close as int]),
        bytes[at_close as int] != OPEN_PAREN,
        forall|pos: nat| pos < at_open ==> !#[trigger] delimiter_at(bytes, open, pos),
        forall|pos: nat| pos >= at_close + close.len() ==> !#[trigger] delimiter_at(bytes, open, pos),
    ensures
        template(bytes, open, close, 0) == Ok::<Seq<NodeView>, SyntaxErrorView>(
            raw_nodes(bytes.subrange(0, at_open as int)) + seq![
                NodeView::Variable(text(bytes, name_start, name_end)),
            ] + raw_nodes(bytes.subrange((at_close + close.len()) as int, bytes.len() as int)),
        ),
{
    let at_after = at_close + close.len();
    let variable = NodeView::Variable(text(bytes, name_start, name_end));
    let before = raw_nodes(bytes.subrange(0, at_open as int));
    let after = raw_nodes(bytes.subrange(at_after as int, bytes.len() as int));
    let tail = template(bytes, open, close, at_after);
    assert(tail == Ok::<Seq<NodeView>, SyntaxErrorView>(after)) by {
        lemma_template_of_plain_text(bytes, open, close, at_after);
    }
    let middle = template(bytes, open, close, at_open);
    assert(middle == prepend(variable, tail)) by {
        lemma_template_at_variable(bytes, open, close, at_open, name_start, name_end, at_close);
    }
    if at_open > 0 {
        lemma_raw_text_between(bytes, open, 0, at_open);
        assert(template(bytes, open, close, 0) == prepend(
            NodeView::RawText(text(bytes, 0, at_open)),
            middle,
        ));
        assert(seq![NodeView::RawText(text(bytes, 0, at_open))] + (seq![variable] + after)
            =~= before + seq![variable] + after);
    } else {
        assert(seq![variable] + after =~= before + seq![variable] + after);
    }
}

/// The seven pieces of a template with one variable, as they lie in the
/// whole.
pub proof fn lemma_pieces(
    before: Seq<u8>,
    open: Seq<u8>,
    lead: Seq<u8>,
    name: Seq<u8>,
    gap: Seq<u8>,
    close: Seq<u8>,
    after: Seq<u8>,
)
    requires
        all_of(lead, ByteClass::Whitespace),
        all_of(name, ByteClass::Identifier),
        all_of(gap, ByteClass::Whitespace),
        close.len() > 0,
    ensures
        ({
            let bytes = before + open + lead + name + gap + close + after;
            let at_open = before.len();
            let at_lead = at_open + open.len();
            let at_name = at_lead + lead.len();
            let at_gap = at_name + name.len();
            let at_close = at_gap + gap.len();
            let at_after = at_close + close.len();
            &&& bytes.len() == at_after + after.len()
            &&& (before + open + lead + name + gap + close).len() == at_after
            &&& bytes.subrange(0, at_open as int) == before
            &&& delimiter_at(bytes, open, at_open)
            &&& bytes.subrange(at_name as int, at_gap as int) == name
            &&& delimiter_at(bytes, close, at_close)
            &&& bytes.subrange(at_after as int, bytes.len() as int) == after
            &&& forall|i: int|
                at_lead <= i < at_name ==> in_class(ByteClass::Whitespace, #[trigger] bytes[i])
            &&& forall|i: int|
                at_name <= i < at_gap ==> in_class(ByteClass::Identifier, #[trigger] bytes[i])
            &&& forall|i: int|
                at_gap <= i < at_close ==> in_class(ByteClass::Whitespace, #[trigger] bytes[i])
            &&& bytes[at_close as int] == close[0]
        }),
{
    let bytes = before + open + lead + name + gap + close + after;
    let at_open = before.len();
    let at_lead = at_open + open.len();
    let at_name = at_lead + lead.len();
    let at_gap = at_name + name.len();
    let at_close = at_gap + gap.len();
    let at_after = at_close + close.len();
    assert(bytes.subrange(0, at_open as int) =~= before);
    assert(bytes.subrange(at_open as int, at_lead as int) =~= open);
    assert(bytes.subrange(at_name as int, at_gap as int) =~= name);
    assert(bytes.subrange(at_close as int, at_after as int) =~= close);
    assert(bytes.subrange(at_after as int, bytes.len() as int) =~= after);
    assert forall|i: int| at_lead <= i < at_name implies in_class(
        ByteClass::Whitespace,
        #[trigger] bytes[i],
    ) by {
        assert(bytes[i] == lead[i - at_lead]);
    }
    assert forall|i: int| at_name <= i < at_gap implies in_class(
        ByteClass::Identifier,
        #[trigger] bytes[i],
    ) by {
        assert(bytes[i] == name[i - at_name]);
    }
    assert forall|i: int| at_gap <= i < at_close implies in_class(
        ByteClass::Whitespace,
        #[trigger] bytes[i],
    ) by {
        assert(bytes[i] == gap[i - at_gap]);
    }
}

/// A variable between the delimiters is replaced by its value, and the text
/// round the expression stays as it is. The template is `before`, the
/// opening delimiter, whitespace, the name, whitespace, the closing
/// delimiter and `after`; the opening delimiter stands nowhere else in it.
/// The closing delimiter does not start with whitespace or `(`, nor with a
/// byte of a name where it comes right after the name or the name is empty.
pub proof fn law_variable_is_replaced_by_its_value(
    before: Seq<u8>,
    open: Seq<u8>,
    lead: Seq<u8>,
    name: Seq<u8>,
    gap: Seq<u8>,
    close: Seq<u8>,
    after: Seq<u8>,
    value: Seq<char>,
    answers: Seq<Answers>,
)
    requires
        open.len() > 0,
        close.len() > 0,
        all_of(lead, ByteClass::Whitespace),
        all_of(name, ByteClass::Identifier),
        all_of(gap, ByteClass::Whitespace),
        !in_class(ByteClass::Whitespace, close[0]),
        close[0] != OPEN_PAREN,
        name.len() == 0 || gap.len() == 0 ==> !in_class(ByteClass::Identifier, close[0]),
        forall|pos: nat|
            pos < before.len() ==> !#[trigger] delimiter_at(
                before + open + lead + name + gap + close + after,
                open,
                pos,
            ),
        forall|pos: nat|
            pos >= (before + open + lead + name + gap + close).len() ==> !#[trigger] delimiter_at(
                before + open + lead + name + gap + close + after,
                open,
                pos,
            ),
        (answers[raw_nodes(before).len() as int].registry.variable)(decode_utf8(name)) == Some(
            value,
        ),
    ensures
        template(before + open + lead + name + gap + close + after, open, close, 0) == Ok::<
            Seq<NodeView>,
            SyntaxErrorView,
        >(raw_nodes(before) + seq![NodeView::Variable(decode_utf8(name))] + raw_nodes(after)),
        rendered(
            raw_nodes(before) + seq![NodeView::Variable(decode_utf8(name))] + raw_nodes(after),
            answers,
        ) == Ok::<Seq<char>, ErrorView>(decode_utf8(before) + value + decode_utf8(after)),
{
    let bytes = before + open + lead + name + gap + close + after;
    let at_open = before.len();
    let at_name = at_open + open.len() + lead.len();
    let at_gap = at_name + name.len();
    let at_close = at_gap + gap.len();
    let nodes = raw_nodes(before) + seq![NodeView::Variable(decode_utf8(name))] + raw_nodes(after);
    assert(template(bytes, open, close, 0) == Ok::<Seq<NodeView>, SyntaxErrorView>(nodes)) by {
        lemma_pieces(before, open, lead, name, gap, close, after);
        if name.len() > 0 {
            lemma_template_with_variable(bytes, open, close, at_open, at_name, at_gap, at_close);
        } else {
            assert(bytes.subrange(at_close as int, at_close as int) =~= name);
            lemma_template_with_variable(bytes, open, close, at_open, at_close, at_close, at_close);
        }
    }
    assert(rendered(nodes, answers) == Ok::<Seq<char>, ErrorView>(
        decode_utf8(before) + value + decode_utf8(after),
    )) by {
        lemma_rendered_round_variable(before, decode_utf8(name), after, value, answers);
    }
}

/// What raw text, a variable and raw text render to, where the lookup of
/// the variable gives `value`.
pub proof fn lemma_rendered_round_variable(
    before: Seq<u8>,
    name: Seq<char>,
    after: Seq<u8>,
    value: Seq<char>,
    answers: Seq<Answers>,
)
    requires
        (answers[raw_nodes(before).len() as int].registry.variable)(name) == Some(value),
    ensures
        rendered(raw_nodes(before) + seq![NodeView::Variable(name)] + raw_nodes(after), answers)
            == Ok::<Seq<char>, ErrorView>(decode_utf8(before) + value + decode_utf8(after)),
{
    let variable = NodeView::Variable(name);
    let first = raw_nodes(before) + seq![variable];
    let nodes = first + raw_nodes(after);
    assert(first.drop_last() =~= raw_nodes(before));
    assert(rendered(raw_nodes(before), answers) == Ok::<Seq<char>, ErrorView>(
        decode_utf8(before),
    )) by {
        if before.len() > 0 {
            lemma_rendered_one(NodeView::RawText(decode_utf8(before)), answers);
        } else {
            assert(decode_utf8(before) =~= Seq::<char>::empty());
        }
    }
    assert(rendered(first, answers) == Ok::<Seq<char>, ErrorView>(decode_utf8(before) + value));
    if after.len() > 0 {
        assert(nodes.drop_last() =~= first);
        assert(decode_utf8(before) + value + decode_utf8(after) =~= (decode_utf8(before) + value)
            + decode_utf8(after));
    } else {
        assert(nodes =~= first);
        assert(decode_utf8(after) =~= Seq::<char>::empty());
        assert(decode_utf8(before) + value + decode_utf8(after) =~= decode_utf8(before) + value);
    }
}

/// What raw text, a variable and raw text render to, where the name of the
/// variable is not bound: the error that names the variable.
pub proof fn lemma_rendered_round_unknown(
    before: Seq<u8>,
    name: Seq<char>,
    after: Seq<u8>,
    answers: Seq<Answers>,
)
    requires
        (answers[raw_nodes(before).len() as int].registry.variable)(name) is None,
    ensures
        rendered(raw_nodes(before) + seq![NodeView::Variable(name)] + raw_nodes(after), answers)
            == Err::<Seq<char>, ErrorView>(ErrorView::VariableNotFound(name)),
{
    let variable = NodeView::Variable(name);
    let first = raw_nodes(before) + seq![variable];
    let nodes = first + raw_nodes(after);
    assert(first.drop_last() =~= raw_nodes(before));
    assert(rendered(raw_nodes(before), answers) is Ok) by {
        if before.len() > 0 {
            lemma_rendered_one(NodeView::RawText(decode_utf8(before)), answers);
        }
    }
    assert(rendered(first, answers) == Err::<Seq<char>, ErrorView>(
        ErrorView::VariableNotFound(name),
    ));
    if after.len() > 0 {
        assert(nodes.drop_last() =~= first);
    } else {
        assert(nodes =~= first);
    }
}

/// The bytes of two texts, one after the other, are the bytes of the texts
/// joined.
pub proof fn lemma_bytes_of_joined(left: Seq<char>, right: Seq<char>)
    ensures
        encode_utf8(left + right) == encode_utf8(left) + encode_utf8(right),
{
    let first = encode_utf8(left);
    let second = encode_utf8(right);
    let both = first + second;
    encode_utf8_valid_utf8(left);
    encode_utf8_valid_utf8(right);
    valid_utf8_concat(first, second);
    assert(both.subrange(0, first.len() as int) =~= first);
    assert(both.subrange(first.len() as int, both.len() as int) =~= second);
    crate::parser::text::lemma_boundary_after_prefix(both, first.len() as int);
    decode_utf8_split(both, first.len() as int);
    encode_utf8_decode_utf8(left);
    encode_utf8_decode_utf8(right);
    decode_utf8_encode_utf8(both);
}

/// A render of a template that holds one expression, a variable, gives the
/// text round the expression with the value of the variable in its place, or
/// the error that names the variable; it gives nothing else, whatever the
/// registry holds. The template is `before`, the opening delimiter,
/// whitespace, the name, whitespace, the closing delimiter and `after`; the
/// opening delimiter stands nowhere else in it. The closing delimiter does
/// not start with whitespace or `(`, nor with a byte of a name where it comes
/// right after the name or the name is empty.
pub proof fn law_render_puts_the_value_in_place(
    context: SrTemplate,
    before: Seq<char>,
    lead: Seq<char>,
    name: Seq<char>,
    gap: Seq<char>,
    after: Seq<char>,
    result: Result<Seq<char>, ErrorView>,
)
    requires
        context.open_delimiter().len() > 0,
        context.close_delimiter().len() > 0,
        all_of(encode_utf8(lead), ByteClass::Whitespace),
        all_of(encode_utf8(name), ByteClass::Identifier),
        all_of(encode_utf8(gap), ByteClass::Whitespace),
        !in_class(ByteClass::Whitespace, encode_utf8(context.close_delimiter())[0]),
        encode_utf8(context.close_delimiter())[0] != OPEN_PAREN,
        name.len() == 0 || gap.len() == 0 ==> !in_class(
            ByteClass::Identifier,
            encode_utf8(context.close_delimiter())[0],
        ),
        forall|pos: nat|
            pos < encode_utf8(before).len() ==> !#[trigger] delimiter_at(
                encode_utf8(
                    before + context.open_delimiter() + lead + name + gap
                        + context.close_delimiter() + after,
                ),
                encode_utf8(context.open_delimiter()),
                pos,
            ),
        forall|pos: nat|
            pos >= encode_utf8(
                before + context.open_delimiter() + lead + name + gap + context.close_delimiter(),
            ).len() ==> !#[trigger] delimiter_at(
                encode_utf8(
                    before + context.open_delimiter() + lead + name + gap
                        + context.close_delimiter() + after,
                ),
                encode_utf8(context.open_delimiter()),
                pos,
            ),
        context.renders(
            before + context.open_delimiter() + lead + name + gap + context.close_delimiter()
                + after,
            result,
        ),
    ensures
        result == Err::<Seq<char>, ErrorView>(ErrorView::VariableNotFound(name)) || exists|
            value: Seq<char>,
        |
            result == Ok::<Seq<char>, ErrorView>(before + value + after),
{
    let open = context.open_delimiter();
    let close = context.close_delimiter();
    let text = before + open + lead + name + gap + close + after;
    crate::parser::lemma_nonempty(open);
    crate::parser::lemma_nonempty(close);
    lemma_bytes_of_joined(before, open);
    lemma_bytes_of_joined(before + open, lead);
    lemma_bytes_of_joined(before + open + lead, name);
    lemma_bytes_of_joined(before + open + lead + name, gap);
    lemma_bytes_of_joined(before + open + lead + name + gap, close);
    lemma_bytes_of_joined(before + open + lead + name + gap + close, after);
    lemma_nonempty_bytes(name);
    lemma_nonempty_bytes(gap);
    encode_utf8_decode_utf8(before);
    encode_utf8_decode_utf8(name);
    encode_utf8_decode_utf8(after);
    let nodes = raw_nodes(encode_utf8(before)) + seq![NodeView::Variable(name)] + raw_nodes(
        encode_utf8(after),
    );
    assert(template(encode_utf8(text), encode_utf8(open), encode_utf8(close), 0) == Ok::<
        Seq<NodeView>,
        SyntaxErrorView,
    >(nodes)) by {
        let answers = Seq::new(
            3,
            |i: int|
                Answers {
                    registry: crate::render::answering(Some(Seq::<char>::empty()), None),
                    arguments: Seq::empty(),
                },
        );
        law_variable_is_replaced_by_its_value(
            encode_utf8(before),
            encode_utf8(open),
            encode_utf8(lead),
            encode_utf8(name),
            encode_utf8(gap),
            encode_utf8(close),
            encode_utf8(after),
            Seq::empty(),
            answers,
        );
    }
    let answers = choose|answers: Seq<Answers>| result == #[trigger] rendered(nodes, answers);
    let at = raw_nodes(encode_utf8(before)).len() as int;
    match (answers[at].registry.variable)(name) {
        Some(value) => {
            lemma_rendered_round_variable(
                encode_utf8(before),
                name,
                encode_utf8(after),
                value,
                answers,
            );
            assert(result == Ok::<Seq<char>, ErrorView>(before + value + after));
        },
        None => {
            lemma_rendered_round_unknown(encode_utf8(before), name, encode_utf8(after), answers);
        },
    }
}

/// A text without characters has no bytes, and one with characters has
/// bytes.
pub proof fn lemma_nonempty_bytes(text: Seq<char>)
    ensures
        text.len() == 0 <==> encode_utf8(text).len() == 0,
{
    if text.len() > 0 {
        crate::parser::lemma_nonempty(text);
    }
}

/// The values of the arguments of a call, in the order of the arguments.
pub open spec fn argument_values(args: Seq<NodeView>, answers: Seq<Answers>) -> Seq<Seq<char>> {
    Seq::new(args.len(), |i: int| outcome(args[i], answers[i])->Ok_0)
}

/// The first `len` arguments, where each of them has a value, give their
/// values in order.
pub proof fn lemma_arguments_with_values(args: Seq<NodeView>, answers: Seq<Answers>, len: int)
    requires
        0 <= len <= args.len(),
        forall|i: int| 0 <= i < len ==> (#[trigger] outcome(args[i], answers[i])) is Ok,
    ensures
        arguments_outcome(args.take(len), answers) == Ok::<Seq<Seq<char>>, ErrorView>(
            argument_values(args.take(len), answers),
        ),
    decreases len,
{
    let taken = args.take(len);
    if len > 0 {
        lemma_arguments_with_values(args, answers, len - 1);
        assert(taken.drop_last() =~= args.take(len - 1));
        assert(taken.last() == args[len - 1]);
        assert(outcome(args[len - 1], answers[len - 1]) is Ok);
        assert(argument_values(args.take(len - 1), answers).push(
            outcome(args[len - 1], answers[len - 1])->Ok_0,
        ) =~= argument_values(taken, answers));
    } else {
        assert(argument_values(taken, answers) =~= Seq::<Seq<char>>::empty());
    }
}

/// The arguments of a call are evaluated before the call, from left to
/// right: where the arguments before one all have a value and that one
/// fails, the call fails with its error, whatever the arguments after it and
/// the function would have given.
pub proof fn law_first_failing_argument_decides(
    name: Seq<char>,
    args: Seq<NodeView>,
    answers: Answers,
    failing: int,
)
    requires
        0 <= failing < args.len(),
        forall|i: int|
            0 <= i < failing ==> (#[trigger] outcome(args[i], answers.arguments[i])) is Ok,
        outcome(args[failing], answers.arguments[failing]) is Err,
    ensures
        outcome(NodeView::Function(name, args), answers) == outcome(
            args[failing],
            answers.arguments[failing],
        ),
{
    let upto = args.take(failing + 1);
    lemma_arguments_with_values(args, answers.arguments, failing);
    assert(upto.drop_last() =~= args.take(failing));
    assert(upto.last() == args[failing]);
    assert(arguments_outcome(upto, answers.arguments) is Err);
    lemma_arguments_fail(args, answers.arguments, failing + 1);
}

/// Where every argument of a call has a value, the function is called
/// with the values in the order of the arguments, and the outcome of the
/// node is what the function gives for them.
pub proof fn law_call_follows_its_arguments(name: Seq<char>, args: Seq<NodeView>, answers: Answers)
    requires
        forall|i: int|
            0 <= i < args.len() ==> (#[trigger] outcome(args[i], answers.arguments[i])) is Ok,
    ensures
        arguments_outcome(args, answers.arguments) == Ok::<Seq<Seq<char>>, ErrorView>(
            argument_values(args, answers.arguments),
        ),
        outcome(NodeView::Function(name, args), answers) == call_outcome(
            name,
            (answers.registry.call)(name, argument_values(args, answers.arguments)),
        ),
{
    lemma_arguments_with_values(args, answers.arguments, args.len() as int);
    assert(args.take(args.len() as int) =~= args);
}

/// A variable renders to a text only where its name is bound to that text.
/// A name that the registry does not hold is an error that names it, never
/// an empty text.
pub proof fn law_unknown_variable_is_an_error(name: Seq<char>, answers: Answers)
    ensures
        (answers.registry.variable)(name) is None ==> outcome(NodeView::Variable(name), answers)
            == Err::<Seq<char>, ErrorView>(ErrorView::VariableNotFound(name)),
        forall|value: Seq<char>|
            outcome(NodeView::Variable(name), answers) == Ok::<Seq<char>, ErrorView>(value) <==> (
            answers.registry.variable)(name) == Some(value),
{
}

/// A call renders to a text only where a function of its name returned
/// that text. A name that the registry holds no function for is an error:
/// the error that names the function, once the arguments have their values.
pub proof fn law_unknown_function_is_an_error(
    name: Seq<char>,
    args: Seq<NodeView>,
    answers: Answers,
)
    ensures
        match arguments_outcome(args, answers.arguments) {
            Ok(values) => {
                &&& (answers.registry.call)(name, values) is None ==> outcome(
                    NodeView::Function(name, args),
                    answers,
                ) == Err::<Seq<char>, ErrorView>(ErrorView::FunctionNotImplemented(name))
                &&& forall|value: Seq<char>|
                    outcome(NodeView::Function(name, args), answers) == Ok::<Seq<char>, ErrorView>(
                        value,
                    ) <==> (answers.registry.call)(name, values) == Some(
                        Ok::<Seq<char>, FunctionErrorView>(value),
                    )
            },
            Err(error) => outcome(NodeView::Function(name, args), answers) == Err::<
                Seq<char>,
                ErrorView,
            >(error),
        },
{
}

} // verus!
