//! The usage-example section: each list item becomes one example, whose
//! trailing nested definition list, when it has exactly one description item,
//! is decoded as the example's translation.

use vstd::prelude::*;

use crate::languages::Language;
use crate::node::{
    dl_item_wf, dl_items_wf, node_wf, nodes_wf, DefinitionListItem, DefinitionListItemType, Node,
    Parameter,
};
use crate::util::{
    add_warning, create_unknown, ctx_keeps, parse_list_generic, spec_list_body, spec_list_section,
    spec_unknown, str_eq, warn, Context,
};
use crate::{
    examples_view, flowing_view, lemma_examples_view_push, lemma_row_view_push, row_view, Example,
    ExampleV, Flowing, FlowingV, Warning, WarningMessage,
};

verus! {

/// The translation row of an example: italic toggles and plain text are
/// kept, anything else becomes a fallback element with a warning.
pub open spec fn spec_translation_row(
    src: Seq<char>,
    lang: Option<Language>,
    nodes: Seq<Node>,
    j: int,
) -> (Seq<FlowingV>, Seq<Warning>)
    decreases nodes.len() - j,
{
    if j < 0 || j >= nodes.len() {
        (Seq::empty(), Seq::empty())
    } else {
        let node = nodes[j];
        let (res, ws) = spec_translation_row(src, lang, nodes, j + 1);
        match node {
            Node::Italic { .. } => (seq![FlowingV::Italic] + res, ws),
            Node::Text { value, .. } => (seq![FlowingV::Text { value: value@ }] + res, ws),
            _ => (
                seq![spec_unknown(src, node.spec_start(), node.spec_end())] + res,
                seq![
                    warn(lang, node.spec_start(), node.spec_end(), WarningMessage::Unrecognized),
                ] + ws,
            ),
        }
    }
}

/// One warning for every remaining node after an example's translation list.
pub open spec fn spec_trailing_unrecognized(
    lang: Option<Language>,
    nodes: Seq<Node>,
    j: int,
) -> Seq<Warning>
    decreases nodes.len() - j,
{
    if j < 0 || j >= nodes.len() {
        Seq::empty()
    } else {
        seq![
            warn(
                lang,
                nodes[j].spec_start(),
                nodes[j].spec_end(),
                WarningMessage::Unrecognized,
            ),
        ] + spec_trailing_unrecognized(lang, nodes, j + 1)
    }
}

/// The translation decoded from a definition list standing inside an example
/// item: defined when the list has exactly one description item with content.
pub open spec fn spec_example_translation(
    src: Seq<char>,
    lang: Option<Language>,
    dl_node: Node,
    items: Seq<DefinitionListItem>,
) -> (Seq<FlowingV>, Seq<Warning>) {
    if items.len() == 1 && items[0].type_ == DefinitionListItemType::Details {
        if items[0].nodes@.len() == 0 {
            (
                Seq::empty(),
                seq![warn(lang, items[0].start, items[0].end, WarningMessage::Empty)],
            )
        } else {
            spec_translation_row(src, lang, items[0].nodes@, 0)
        }
    } else {
        (
            Seq::empty(),
            seq![
                warn(
                    lang,
                    dl_node.spec_start(),
                    dl_node.spec_end(),
                    WarningMessage::ValueUnrecognized,
                ),
            ],
        )
    }
}

/// The scan over one example item's nodes from `i` on: the example elements,
/// the translation, whether literal text content was seen, and the warnings.
/// A definition list ends the scan; everything after it is flagged.
pub open spec fn spec_example_loop(
    src: Seq<char>,
    lang: Option<Language>,
    nodes: Seq<Node>,
    i: int,
) -> (Seq<FlowingV>, Seq<FlowingV>, bool, Seq<Warning>)
    decreases nodes.len() - i,
{
    if i < 0 || i >= nodes.len() {
        (Seq::empty(), Seq::empty(), false, Seq::empty())
    } else {
        let node = nodes[i];
        match node {
            Node::DefinitionList { items, .. } => {
                let (tr, w1) = spec_example_translation(src, lang, node, items@);
                let w2 = spec_trailing_unrecognized(lang, nodes, i + 1);
                (Seq::empty(), tr, false, w1 + w2)
            },
            Node::Italic { .. } => {
                let r = spec_example_loop(src, lang, nodes, i + 1);
                (seq![FlowingV::Italic] + r.0, r.1, r.2, r.3)
            },
            Node::Tag { name, .. } => if name@ == "ref"@ {
                let r = spec_example_loop(src, lang, nodes, i + 1);
                (
                    seq![FlowingV::Reference] + r.0,
                    r.1,
                    r.2,
                    seq![
                        warn(
                            lang,
                            node.spec_start(),
                            node.spec_end(),
                            WarningMessage::Supplementary,
                        ),
                    ] + r.3,
                )
            } else {
                let r = spec_example_loop(src, lang, nodes, i + 1);
                (
                    seq![spec_unknown(src, node.spec_start(), node.spec_end())] + r.0,
                    r.1,
                    r.2,
                    seq![
                        warn(
                            lang,
                            node.spec_start(),
                            node.spec_end(),
                            WarningMessage::Unrecognized,
                        ),
                    ] + r.3,
                )
            },
            Node::Text { value, .. } => {
                let r = spec_example_loop(src, lang, nodes, i + 1);
                (seq![FlowingV::Text { value: value@ }] + r.0, r.1, true, r.3)
            },
            _ => {
                let r = spec_example_loop(src, lang, nodes, i + 1);
                (
                    seq![spec_unknown(src, node.spec_start(), node.spec_end())] + r.0,
                    r.1,
                    r.2,
                    seq![
                        warn(
                            lang,
                            node.spec_start(),
                            node.spec_end(),
                            WarningMessage::Unrecognized,
                        ),
                    ] + r.3,
                )
            },
        }
    }
}

/// The outcome of one example item: an example when the item holds literal
/// text content, nothing with a warning otherwise.
pub open spec fn spec_parse_example(
    src: Seq<char>,
    lang: Option<Language>,
    item: DefinitionListItem,
) -> (Option<ExampleV>, Seq<Warning>) {
    let (ex, tr, has_text, w) = spec_example_loop(src, lang, item.nodes@, 0);
    if has_text {
        (Some(ExampleV { example: ex, translation: tr }), w)
    } else {
        (None, w + seq![warn(lang, item.start, item.end, WarningMessage::Empty)])
    }
}

/// Decodes the translation row inside an example item.
pub(crate) fn translation_row(context: &mut Context, nodes: &[Node]) -> (r: Vec<Flowing>)
    requires
        nodes_wf(nodes@, old(context).wiki_text@.len()),
    ensures
        ctx_keeps(*old(context), *final(context)),
        ({
            let (res, ws) = spec_translation_row(
                old(context).wiki_text@,
                old(context).language,
                nodes@,
                0,
            );
            row_view(r@) == res && final(context).warnings@ == old(context).warnings@ + ws
        }),
{
    proof {
        crate::list::lemma_push_concat_warning();
    }
    let ghost src0 = old(context).wiki_text@;
    let ghost lang0 = old(context).language;
    let mut out: Vec<Flowing> = Vec::new();
    let mut j: usize = 0;
    proof {
        assert(row_view(out@) =~= Seq::<FlowingV>::empty());
        assert(Seq::<FlowingV>::empty() + spec_translation_row(src0, lang0, nodes@, 0).0
            =~= spec_translation_row(src0, lang0, nodes@, 0).0);
    }
    while j < nodes.len()
        invariant
            0 <= j <= nodes@.len(),
            nodes_wf(nodes@, src0.len()),
            ctx_keeps(*old(context), *context),
            context.wiki_text@ == src0,
            context.language == lang0,
            spec_translation_row(src0, lang0, nodes@, 0).0 == row_view(out@)
                + spec_translation_row(src0, lang0, nodes@, j as int).0,
            old(context).warnings@ + spec_translation_row(src0, lang0, nodes@, 0).1
                == context.warnings@ + spec_translation_row(src0, lang0, nodes@, j as int).1,
        decreases nodes@.len() - j,
    {
        let ghost w_pre = context.warnings@;
        let ghost out_pre = out@;
        proof {
            assert(node_wf(nodes@[j as int], src0.len()));
            crate::list::lemma_push_concat_warning();
        }
        match &nodes[j] {
            Node::Italic { .. } => {
                out.push(Flowing::Italic);
                proof {
                    lemma_one(out_pre, Flowing::Italic);
                    assert(w_pre + Seq::<Warning>::empty() =~= w_pre);
                }
            },
            Node::Text { value, .. } => {
                let f = Flowing::Text { value: value.clone() };
                out.push(f);
                proof {
                    lemma_one(out_pre, f);
                    assert(w_pre + Seq::<Warning>::empty() =~= w_pre);
                }
            },
            _ => {
                let f = create_unknown(context, &nodes[j], WarningMessage::Unrecognized);
                out.push(f);
                proof {
                    lemma_one(out_pre, f);
                }
            },
        }
        proof {
            let tj = spec_translation_row(src0, lang0, nodes@, j as int);
            let t1 = spec_translation_row(src0, lang0, nodes@, j as int + 1);
            assert(row_view(out@) + t1.0 =~= row_view(out_pre) + tj.0);
            assert(context.warnings@ + t1.1 =~= w_pre + tj.1);
        }
        j += 1;
    }
    proof {
        let t_end = spec_translation_row(src0, lang0, nodes@, nodes@.len() as int);
        assert(t_end.0 =~= Seq::<FlowingV>::empty());
        assert(t_end.1 =~= Seq::<Warning>::empty());
        assert(row_view(out@) + Seq::<FlowingV>::empty() =~= row_view(out@));
        assert(context.warnings@ + Seq::<Warning>::empty() =~= context.warnings@);
    }
    out
}

/// One pushed element extends the viewed row by its view.
proof fn lemma_one(out_pre: Seq<Flowing>, f: Flowing)
    ensures
        row_view(out_pre.push(f)) == row_view(out_pre) + seq![flowing_view(f)],
{
    lemma_row_view_push(out_pre, f);
    assert(row_view(out_pre).push(flowing_view(f)) =~= row_view(out_pre) + seq![flowing_view(f)]);
}

/// Decodes one example item: its elements, its optional trailing translation
/// list, and the requirement that it holds literal text content.
fn parse_example(context: &mut Context, list_item: &DefinitionListItem) -> (r: Option<Example>)
    requires
        dl_item_wf(*list_item, old(context).wiki_text@.len()),
    ensures
        ctx_keeps(*old(context), *final(context)),
        ({
            let (ex, w) = spec_parse_example(
                old(context).wiki_text@,
                old(context).language,
                *list_item,
            );
            (match (r, ex) {
                (Some(e), Some(ev)) => e@ == ev,
                (None, None) => true,
                _ => false,
            }) && final(context).warnings@ == old(context).warnings@ + w
        }),
{
    proof {
        crate::list::lemma_push_concat_warning();
    }
    let ghost src0 = old(context).wiki_text@;
    let ghost lang0 = old(context).language;
    let nodes = list_item.nodes.as_slice();
    let mut example: Vec<Flowing> = Vec::new();
    let mut translation: Vec<Flowing> = Vec::new();
    let mut has_text = false;
    let mut done = false;
    let mut i: usize = 0;
    proof {
        assert(row_view(example@) =~= Seq::<FlowingV>::empty());
        assert(row_view(translation@) =~= Seq::<FlowingV>::empty());
        assert(Seq::<FlowingV>::empty() + spec_example_loop(src0, lang0, nodes@, 0).0
            =~= spec_example_loop(src0, lang0, nodes@, 0).0);
    }
    while i < nodes.len() && !done
        invariant
            0 <= i <= nodes@.len(),
            nodes_wf(nodes@, src0.len()),
            nodes@ == list_item.nodes@,
            ctx_keeps(*old(context), *context),
            context.wiki_text@ == src0,
            context.language == lang0,
            !done ==> {
                let l0 = spec_example_loop(src0, lang0, nodes@, 0);
                let li = spec_example_loop(src0, lang0, nodes@, i as int);
                &&& l0.0 == row_view(example@) + li.0
                &&& l0.1 == li.1
                &&& row_view(translation@) == Seq::<FlowingV>::empty()
                &&& l0.2 == (has_text || li.2)
                &&& old(context).warnings@ + l0.3 == context.warnings@ + li.3
            },
            done ==> {
                let l0 = spec_example_loop(src0, lang0, nodes@, 0);
                &&& l0.0 == row_view(example@)
                &&& l0.1 == row_view(translation@)
                &&& l0.2 == has_text
                &&& context.warnings@ == old(context).warnings@ + l0.3
            },
        decreases nodes@.len() - i, (if done { 0int } else { 1int }),
    {
        let ghost w_pre = context.warnings@;
        let ghost ex_pre = example@;
        proof {
            assert(node_wf(nodes@[i as int], src0.len()));
            crate::list::lemma_push_concat_warning();
        }
        let ghost li = spec_example_loop(src0, lang0, nodes@, i as int);
        let ghost l1 = spec_example_loop(src0, lang0, nodes@, i as int + 1);
        match &nodes[i] {
            Node::DefinitionList { items, .. } => {
                proof {
                    assert(dl_items_wf(items@, src0.len()));
                }
                let single_details = items.len() == 1 && matches!(
                    items[0].type_,
                    DefinitionListItemType::Details,
                );
                if single_details {
                    let inner = &items[0];
                    proof {
                        assert(dl_item_wf(items@[0], src0.len()));
                    }
                    if inner.nodes.len() == 0 {
                        add_warning(context, inner.start, inner.end, WarningMessage::Empty);
                    } else {
                        let row = translation_row(context, inner.nodes.as_slice());
                        translation = row;
                    }
                } else {
                    let start = nodes[i].start();
                    let end = nodes[i].end();
                    add_warning(context, start, end, WarningMessage::ValueUnrecognized);
                }
                let ghost w_mid = context.warnings@;
                let mut j: usize = i + 1;
                while j < nodes.len()
                    invariant
                        i < j <= nodes@.len(),
                        nodes_wf(nodes@, src0.len()),
                        ctx_keeps(*old(context), *context),
                        context.wiki_text@ == src0,
                        context.language == lang0,
                        w_mid + spec_trailing_unrecognized(lang0, nodes@, i as int + 1)
                            == context.warnings@ + spec_trailing_unrecognized(
                            lang0,
                            nodes@,
                            j as int,
                        ),
                    decreases nodes@.len() - j,
                {
                    proof {
                        crate::list::lemma_push_concat_warning();
                    }
                    let ghost w_step = context.warnings@;
                    let start = nodes[j].start();
                    let end = nodes[j].end();
                    add_warning(context, start, end, WarningMessage::Unrecognized);
                    proof {
                        let sj = spec_trailing_unrecognized(lang0, nodes@, j as int);
                        let s1 = spec_trailing_unrecognized(lang0, nodes@, j as int + 1);
                        assert(context.warnings@ + s1 =~= w_step + sj);
                    }
                    j += 1;
                }
                done = true;
                proof {
                    let s_end = spec_trailing_unrecognized(lang0, nodes@, nodes@.len() as int);
                    assert(s_end =~= Seq::<Warning>::empty());
                    assert(context.warnings@ + Seq::<Warning>::empty() =~= context.warnings@);
                    let (tr, w1) = spec_example_translation(
                        src0,
                        lang0,
                        nodes@[i as int],
                        nodes@[i as int]->DefinitionList_items@,
                    );
                    let w2 = spec_trailing_unrecognized(lang0, nodes@, i as int + 1);
                    assert(li.0 =~= Seq::<FlowingV>::empty());
                    assert(li.1 == tr);
                    assert(li.2 == false);
                    assert(li.3 == w1 + w2);
                    assert(row_view(ex_pre) + Seq::<FlowingV>::empty() =~= row_view(ex_pre));
                    assert(context.warnings@ =~= w_pre + (w1 + w2));
                    assert((old(context).warnings@ + spec_example_loop(src0, lang0, nodes@, 0).3)
                        =~= w_pre + li.3);
                }
            },
            Node::Italic { .. } => {
                example.push(Flowing::Italic);
                proof {
                    lemma_one(ex_pre, Flowing::Italic);
                    assert(w_pre + Seq::<Warning>::empty() =~= w_pre);
                    lemma_step(ex_pre, seq![FlowingV::Italic], li.0, l1.0);
                    assert(context.warnings@ + l1.3 =~= w_pre + li.3);
                }
                i += 1;
            },
            Node::Tag { name, .. } => {
                if str_eq(name.as_str(), "ref") {
                    let start = nodes[i].start();
                    let end = nodes[i].end();
                    add_warning(context, start, end, WarningMessage::Supplementary);
                    example.push(Flowing::Reference);
                    proof {
                        lemma_one(ex_pre, Flowing::Reference);
                        lemma_step(ex_pre, seq![FlowingV::Reference], li.0, l1.0);
                        assert((w_pre + seq![
                            warn(
                                lang0,
                                nodes@[i as int].spec_start(),
                                nodes@[i as int].spec_end(),
                                WarningMessage::Supplementary,
                            ),
                        ]) + l1.3 =~= w_pre + li.3);
                    }
                } else {
                    let f = create_unknown(context, &nodes[i], WarningMessage::Unrecognized);
                    example.push(f);
                    proof {
                        lemma_one(ex_pre, f);
                        lemma_step(ex_pre, seq![flowing_view(f)], li.0, l1.0);
                        assert((w_pre + seq![
                            warn(
                                lang0,
                                nodes@[i as int].spec_start(),
                                nodes@[i as int].spec_end(),
                                WarningMessage::Unrecognized,
                            ),
                        ]) + l1.3 =~= w_pre + li.3);
                    }
                }
                i += 1;
            },
            Node::Text { value, .. } => {
                has_text = true;
                let f = Flowing::Text { value: value.clone() };
                example.push(f);
                proof {
                    lemma_one(ex_pre, f);
                    assert(w_pre + Seq::<Warning>::empty() =~= w_pre);
                    lemma_step(ex_pre, seq![FlowingV::Text { value: nodes@[i as int]->Text_value@ }], li.0, l1.0);
                    assert(context.warnings@ + l1.3 =~= w_pre + li.3);
                }
                i += 1;
            },
            _ => {
                let f = create_unknown(context, &nodes[i], WarningMessage::Unrecognized);
                example.push(f);
                proof {
                    lemma_one(ex_pre, f);
                    lemma_step(ex_pre, seq![flowing_view(f)], li.0, l1.0);
                    assert((w_pre + seq![
                        warn(
                            lang0,
                            nodes@[i as int].spec_start(),
                            nodes@[i as int].spec_end(),
                            WarningMessage::Unrecognized,
                        ),
                    ]) + l1.3 =~= w_pre + li.3);
                }
                i += 1;
            },
        }
    }
    proof {
        if !done {
            let l_end = spec_example_loop(src0, lang0, nodes@, nodes@.len() as int);
            assert(l_end.0 =~= Seq::<FlowingV>::empty());
            assert(l_end.3 =~= Seq::<Warning>::empty());
            assert(row_view(example@) + Seq::<FlowingV>::empty() =~= row_view(example@));
            assert(context.warnings@ + Seq::<Warning>::empty() =~= context.warnings@);
        }
    }
    if has_text {
        Some(Example { example, translation })
    } else {
        add_warning(context, list_item.start, list_item.end, WarningMessage::Empty);
        proof {
            crate::list::lemma_push_concat_warning();
            let l0 = spec_example_loop(src0, lang0, nodes@, 0);
            assert((old(context).warnings@ + l0.3) + seq![
                warn(lang0, list_item.start, list_item.end, WarningMessage::Empty),
            ] =~= old(context).warnings@ + (l0.3 + seq![
                warn(lang0, list_item.start, list_item.end, WarningMessage::Empty),
            ]));
        }
        None
    }
}

/// Extending the produced row by a step's elements matches the spec scan.
proof fn lemma_step(
    ex_pre: Seq<Flowing>,
    step: Seq<FlowingV>,
    li0: Seq<FlowingV>,
    l10: Seq<FlowingV>,
)
    requires
        li0 == step + l10,
    ensures
        (row_view(ex_pre) + step) + l10 == row_view(ex_pre) + li0,
{
    assert((row_view(ex_pre) + step) + l10 =~= row_view(ex_pre) + (step + l10));
}

/// The examples classified from a section's definition-list items from index
/// `k` on.
pub open spec fn spec_example_rows(
    src: Seq<char>,
    lang: Option<Language>,
    items: Seq<DefinitionListItem>,
    k: int,
) -> (Seq<ExampleV>, Seq<Warning>)
    decreases items.len() - k,
{
    if k < 0 || k >= items.len() {
        (Seq::empty(), Seq::empty())
    } else {
        let item = items[k];
        let (rrows, rws) = spec_example_rows(src, lang, items, k + 1);
        if item.type_ != DefinitionListItemType::Details {
            (rrows, seq![warn(lang, item.start, item.end, WarningMessage::Unrecognized)] + rws)
        } else {
            let (ex, ws) = spec_parse_example(src, lang, item);
            match ex {
                Some(e) => (seq![e] + rrows, ws + rws),
                None => (rrows, ws + rws),
            }
        }
    }
}

/// The slot value, consumed count and warnings of the example section.
pub open spec fn spec_parse_examples(
    src: Seq<char>,
    lang: Option<Language>,
    node: Node,
    params: Seq<Parameter>,
    nodes: Seq<Node>,
    from: int,
    filled: bool,
) -> (Option<Seq<ExampleV>>, usize, Seq<Warning>) {
    let (found, consumed, w0) = spec_list_section(
        lang,
        node.spec_start(),
        node.spec_end(),
        params.len() == 0,
        nodes,
        from,
        filled,
    );
    if found {
        let (rows, w1) = spec_example_rows(src, lang, spec_list_body(nodes, from)->Some_0, 0);
        (Some(rows), consumed, w1)
    } else {
        (Some(Seq::empty()), consumed, w0)
    }
}

/// Parses the example section following its marker into its output slot.
pub fn parse_examples(
    context: &mut Context,
    template_node: &Node,
    parameters: &Vec<Parameter>,
    nodes: &[Node],
    from: usize,
    output: &mut Option<Vec<Example>>,
) -> (consumed: usize)
    requires
        template_node.spec_start() <= template_node.spec_end() <= old(context).wiki_text@.len(),
        nodes_wf(nodes@, old(context).wiki_text@.len()),
    ensures
        ctx_keeps(*old(context), *final(context)),
        ({
            let (slot, consumed_s, w) = spec_parse_examples(
                old(context).wiki_text@,
                old(context).language,
                *template_node,
                parameters@,
                nodes@,
                from as int,
                *old(output) is Some,
            );
            consumed == consumed_s && final(context).warnings@ == old(context).warnings@ + w
                && *final(output) is Some && Some(examples_view((*final(output))->Some_0@))
                == slot
        }),
{
    let ghost src0 = old(context).wiki_text@;
    let ghost lang0 = old(context).language;
    let filled = output.is_some();
    let start = template_node.start();
    let end = template_node.end();
    let (body, consumed) = parse_list_generic(context, start, end, parameters, nodes, from, filled);
    match body {
        Some(items) => {
            proof {
                assert(node_wf(nodes@[from as int], src0.len()));
                assert(context.warnings@ =~= old(context).warnings@);
            }
            let mut rows: Vec<Example> = Vec::new();
            let mut k: usize = 0;
            proof {
                assert(examples_view(rows@) =~= Seq::<ExampleV>::empty());
                assert(Seq::<ExampleV>::empty() + spec_example_rows(src0, lang0, items@, 0).0
                    =~= spec_example_rows(src0, lang0, items@, 0).0);
            }
            while k < items.len()
                invariant
                    0 <= k <= items@.len(),
                    dl_items_wf(items@, src0.len()),
                    ctx_keeps(*old(context), *context),
                    context.wiki_text@ == src0,
                    context.language == lang0,
                    spec_example_rows(src0, lang0, items@, 0).0 == examples_view(rows@)
                        + spec_example_rows(src0, lang0, items@, k as int).0,
                    old(context).warnings@ + spec_example_rows(src0, lang0, items@, 0).1
                        == context.warnings@ + spec_example_rows(src0, lang0, items@, k as int).1,
                decreases items@.len() - k,
            {
                let ghost w_pre = context.warnings@;
                let ghost rows_pre = rows@;
                proof {
                    assert(dl_item_wf(items@[k as int], src0.len()));
                    crate::list::lemma_push_concat_warning();
                }
                let item = &items[k];
                let ghost nk = spec_example_rows(src0, lang0, items@, k as int);
                let ghost n1 = spec_example_rows(src0, lang0, items@, k as int + 1);
                if !matches!(item.type_, DefinitionListItemType::Details) {
                    add_warning(context, item.start, item.end, WarningMessage::Unrecognized);
                    proof {
                        assert(nk.0 == n1.0);
                        assert((w_pre + seq![
                            warn(
                                lang0,
                                items@[k as int].start,
                                items@[k as int].end,
                                WarningMessage::Unrecognized,
                            ),
                        ]) + n1.1 =~= w_pre + nk.1);
                    }
                } else {
                    let example = parse_example(context, item);
                    let ghost (exs, ews) = spec_parse_example(src0, lang0, items@[k as int]);
                    match example {
                        Some(e) => {
                            rows.push(e);
                            proof {
                                lemma_examples_view_push(rows_pre, e);
                                assert(examples_view(rows_pre).push(e@) =~= examples_view(
                                    rows_pre,
                                ) + seq![e@]);
                                assert(nk.0 == seq![e@] + n1.0);
                                assert((examples_view(rows_pre) + seq![e@]) + n1.0
                                    =~= examples_view(rows_pre) + (seq![e@] + n1.0));
                                assert((w_pre + ews) + n1.1 =~= w_pre + (ews + n1.1));
                            }
                        },
                        None => {
                            proof {
                                assert(nk.0 == n1.0);
                                assert((w_pre + ews) + n1.1 =~= w_pre + (ews + n1.1));
                            }
                        },
                    }
                }
                k += 1;
            }
            proof {
                let n_end = spec_example_rows(src0, lang0, items@, items@.len() as int);
                assert(n_end.0 =~= Seq::<ExampleV>::empty());
                assert(n_end.1 =~= Seq::<Warning>::empty());
                assert(examples_view(rows@) + Seq::<ExampleV>::empty() =~= examples_view(rows@));
                assert(context.warnings@ + Seq::<Warning>::empty() =~= context.warnings@);
                assert(old(context).warnings@ + Seq::<Warning>::empty() =~= old(
                    context,
                ).warnings@);
            }
            *output = Some(rows);
            consumed
        },
        None => {
            *output = Some(Vec::new());
            proof {
                assert(examples_view(Seq::<Example>::empty()) =~= Seq::<ExampleV>::empty());
            }
            consumed
        },
    }
}

} // verus!
