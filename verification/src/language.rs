//! The language-section dispatcher: collects part-of-speech sections under
//! one language heading, decoding each heading's marker and trailing details.

use vstd::prelude::*;

use crate::languages::Language;
use crate::node::{node_wf, nodes_wf, Node};
use crate::pos_section::{parse_pos_section, spec_parse_pos_section};
use crate::pos_template::{parse_pos_template, spec_parse_pos_template};
use crate::util::{
    add_warning, create_unknown, ctx_keeps, parse_link, parse_simple_template, parse_text,
    spec_details_text, spec_parse_link, spec_parse_text, spec_simple_template, spec_text_equals,
    spec_unknown, str_eq, text_equals, trim_start, warn, Context,
};
use crate::{
    flowing_view, lemma_pos_entries_view_push, lemma_row_view_push, pos_entries_view, row_view,
    Flowing, FlowingV, LanguageEntry, LanguageEntryV, PosEntry, PosEntryV, Warning,
    WarningMessage,
};

verus! {

/// The three-element expansion of a gender-combination marker, or the
/// fallback element when the marker carries parameters.
pub open spec fn spec_gender_combination(
    src: Seq<char>,
    lang: Option<Language>,
    node: Node,
    params_empty: bool,
    gender1: FlowingV,
    gender2: FlowingV,
) -> (Seq<FlowingV>, Seq<Warning>) {
    if params_empty {
        (seq![gender1, FlowingV::Text { value: ", "@ }, gender2], Seq::empty())
    } else {
        (
            seq![spec_unknown(src, node.spec_start(), node.spec_end())],
            seq![
                warn(lang, node.spec_start(), node.spec_end(), WarningMessage::ValueUnrecognized),
            ],
        )
    }
}

/// One step of the details scan at node `i`; `have` says whether elements
/// were already produced, which controls leading-text trimming.
pub open spec fn spec_details_step(
    src: Seq<char>,
    lang: Option<Language>,
    nodes: Seq<Node>,
    i: int,
    have: bool,
) -> (Seq<FlowingV>, Seq<Warning>) {
    if i < 0 || i >= nodes.len() {
        (Seq::empty(), Seq::empty())
    } else {
        let node = nodes[i];
        match node {
            Node::Italic { .. } => (seq![FlowingV::Italic], Seq::empty()),
            Node::Link { target, text, .. } => {
                let (e, w) = spec_parse_link(src, lang, node, target@, text@);
                (seq![e], w)
            },
            Node::Template { name, parameters, .. } => match spec_parse_text(name@) {
                None => (
                    seq![spec_unknown(src, node.spec_start(), node.spec_end())],
                    seq![
                        warn(
                            lang,
                            node.spec_start(),
                            node.spec_end(),
                            WarningMessage::Unrecognized,
                        ),
                    ],
                ),
                Some(n) => {
                    if n == "Wortart"@ {
                        let (p, w) = spec_parse_pos_template(lang, node, parameters@);
                        match p {
                            None => (
                                seq![spec_unknown(src, node.spec_start(), node.spec_end())],
                                w,
                            ),
                            Some(pos) => (seq![FlowingV::Pos { pos }], w),
                        }
                    } else if n == "f"@ {
                        let (e, w) = spec_simple_template(
                            src,
                            lang,
                            node,
                            parameters@.len() == 0,
                            FlowingV::FeminineGender,
                        );
                        (seq![e], w)
                    } else if n == "fm"@ {
                        spec_gender_combination(
                            src,
                            lang,
                            node,
                            parameters@.len() == 0,
                            FlowingV::FeminineGender,
                            FlowingV::MasculineGender,
                        )
                    } else if n == "fn"@ {
                        spec_gender_combination(
                            src,
                            lang,
                            node,
                            parameters@.len() == 0,
                            FlowingV::FeminineGender,
                            FlowingV::NeuterGender,
                        )
                    } else if n == "m"@ {
                        let (e, w) = spec_simple_template(
                            src,
                            lang,
                            node,
                            parameters@.len() == 0,
                            FlowingV::MasculineGender,
                        );
                        (seq![e], w)
                    } else if n == "mf"@ {
                        spec_gender_combination(
                            src,
                            lang,
                            node,
                            parameters@.len() == 0,
                            FlowingV::MasculineGender,
                            FlowingV::FeminineGender,
                        )
                    } else if n == "mn."@ {
                        spec_gender_combination(
                            src,
                            lang,
                            node,
                            parameters@.len() == 0,
                            FlowingV::MasculineGender,
                            FlowingV::NeuterGender,
                        )
                    } else if n == "n"@ {
                        let (e, w) = spec_simple_template(
                            src,
                            lang,
                            node,
                            parameters@.len() == 0,
                            FlowingV::NeuterGender,
                        );
                        (seq![e], w)
                    } else if n == "nf"@ {
                        spec_gender_combination(
                            src,
                            lang,
                            node,
                            parameters@.len() == 0,
                            FlowingV::NeuterGender,
                            FlowingV::FeminineGender,
                        )
                    } else if n == "nm"@ {
                        spec_gender_combination(
                            src,
                            lang,
                            node,
                            parameters@.len() == 0,
                            FlowingV::NeuterGender,
                            FlowingV::MasculineGender,
                        )
                    } else if n == "u"@ {
                        let (e, w) = spec_simple_template(
                            src,
                            lang,
                            node,
                            parameters@.len() == 0,
                            FlowingV::CommonGender,
                        );
                        (seq![e], w)
                    } else {
                        (
                            seq![spec_unknown(src, node.spec_start(), node.spec_end())],
                            seq![
                                warn(
                                    lang,
                                    node.spec_start(),
                                    node.spec_end(),
                                    WarningMessage::Unrecognized,
                                ),
                            ],
                        )
                    }
                },
            },
            Node::Text { value, .. } => if !have {
                let t = spec_details_text(value@);
                if t.len() == 0 {
                    (Seq::empty(), Seq::empty())
                } else {
                    (seq![FlowingV::Text { value: t }], Seq::empty())
                }
            } else {
                (seq![FlowingV::Text { value: value@ }], Seq::empty())
            },
            _ => (
                seq![spec_unknown(src, node.spec_start(), node.spec_end())],
                seq![
                    warn(lang, node.spec_start(), node.spec_end(), WarningMessage::Unrecognized),
                ],
            ),
        }
    }
}

/// The details scan from node `i` on.
pub open spec fn spec_details(
    src: Seq<char>,
    lang: Option<Language>,
    nodes: Seq<Node>,
    i: int,
    have: bool,
) -> (Seq<FlowingV>, Seq<Warning>)
    decreases nodes.len() - i,
{
    if i < 0 || i >= nodes.len() {
        (Seq::empty(), Seq::empty())
    } else {
        let (es, ws) = spec_details_step(src, lang, nodes, i, have);
        let (rest_es, rest_ws) = spec_details(src, lang, nodes, i + 1, have || es.len() > 0);
        (es + rest_es, ws + rest_ws)
    }
}

/// One pushed element extends the viewed row by its view.
proof fn lemma_one_detail(out_pre: Seq<Flowing>, f: Flowing)
    ensures
        row_view(out_pre.push(f)) == row_view(out_pre) + seq![flowing_view(f)],
{
    lemma_row_view_push(out_pre, f);
    assert(row_view(out_pre).push(flowing_view(f)) =~= row_view(out_pre) + seq![flowing_view(f)]);
}

/// Decodes a gender-combination marker into its three-element expansion, or
/// the fallback element when it carries parameters.
fn parse_gender_combination_template(
    context: &mut Context,
    node: &Node,
    params_empty: bool,
    output: &mut Vec<Flowing>,
    gender1: Flowing,
    gender2: Flowing,
)
    requires
        node.spec_start() <= node.spec_end() <= old(context).wiki_text@.len(),
    ensures
        ctx_keeps(*old(context), *final(context)),
        ({
            let (es, w) = spec_gender_combination(
                old(context).wiki_text@,
                old(context).language,
                *node,
                params_empty,
                flowing_view(gender1),
                flowing_view(gender2),
            );
            row_view(final(output)@) == row_view(old(output)@) + es && final(context).warnings@
                == old(context).warnings@ + w
        }),
{
    proof {
        crate::list::lemma_push_concat_warning();
    }
    if params_empty {
        let ghost o0 = output@;
        output.push(gender1);
        let ghost o1 = output@;
        let sep = String::from_str(", ");
        let septext = Flowing::Text { value: sep };
        proof {
            assert(flowing_view(septext)->Text_value =~= ", "@);
        }
        output.push(septext);
        let ghost o2 = output@;
        output.push(gender2);
        proof {
            lemma_one_detail(o0, gender1);
            lemma_one_detail(o1, septext);
            lemma_one_detail(o2, gender2);
            assert(row_view(output@) =~= row_view(o0) + seq![
                flowing_view(gender1),
                FlowingV::Text { value: ", "@ },
                flowing_view(gender2),
            ]);
            assert(old(context).warnings@ + Seq::<Warning>::empty() =~= old(context).warnings@);
        }
    } else {
        let ghost o0 = output@;
        let f = create_unknown(context, node, WarningMessage::ValueUnrecognized);
        output.push(f);
        proof {
            lemma_one_detail(o0, f);
        }
    }
}

/// Decodes the trailing heading children into the entry's details.
fn parse_details(context: &mut Context, nodes: &[Node], from: usize) -> (r: Vec<Flowing>)
    requires
        nodes_wf(nodes@, old(context).wiki_text@.len()),
        from <= nodes@.len(),
    ensures
        ctx_keeps(*old(context), *final(context)),
        ({
            let (es, ws) = spec_details(
                old(context).wiki_text@,
                old(context).language,
                nodes@,
                from as int,
                false,
            );
            row_view(r@) == es && final(context).warnings@ == old(context).warnings@ + ws
        }),
{
    proof {
        crate::list::lemma_push_concat_warning();
    }
    let ghost src0 = old(context).wiki_text@;
    let ghost lang0 = old(context).language;
    let mut out: Vec<Flowing> = Vec::new();
    let mut i: usize = from;
    proof {
        assert(row_view(out@) =~= Seq::<FlowingV>::empty());
        assert(Seq::<FlowingV>::empty() + spec_details(src0, lang0, nodes@, from as int, false).0
            =~= spec_details(src0, lang0, nodes@, from as int, false).0);
    }
    while i < nodes.len()
        invariant
            from <= i,
            i <= nodes@.len(),
            nodes_wf(nodes@, src0.len()),
            ctx_keeps(*old(context), *context),
            context.wiki_text@ == src0,
            context.language == lang0,
            spec_details(src0, lang0, nodes@, from as int, false).0 == row_view(out@)
                + spec_details(src0, lang0, nodes@, i as int, out@.len() > 0).0,
            old(context).warnings@ + spec_details(src0, lang0, nodes@, from as int, false).1
                == context.warnings@ + spec_details(src0, lang0, nodes@, i as int, out@.len() > 0).1,
        decreases nodes@.len() - i,
    {
        let ghost w_pre = context.warnings@;
        let ghost out_pre = out@;
        let ghost have_pre = out@.len() > 0;
        let ghost s_step = spec_details_step(src0, lang0, nodes@, i as int, have_pre);
        proof {
            assert(node_wf(nodes@[i as int], src0.len()));
            crate::list::lemma_push_concat_warning();
        }
        match &nodes[i] {
            Node::Italic { .. } => {
                out.push(Flowing::Italic);
                proof {
                    lemma_one_detail(out_pre, Flowing::Italic);
                    assert(w_pre + Seq::<Warning>::empty() =~= w_pre);
                }
            },
            Node::Link { target, text, .. } => {
                let f = parse_link(context, &nodes[i], target.as_str(), text.as_slice());
                out.push(f);
                proof {
                    lemma_one_detail(out_pre, f);
                }
            },
            Node::Template { name, parameters, .. } => {
                match parse_text(name.as_slice()) {
                    None => {
                        let f = create_unknown(context, &nodes[i], WarningMessage::Unrecognized);
                        out.push(f);
                        proof {
                            lemma_one_detail(out_pre, f);
                        }
                    },
                    Some(n) => {
                        let ns = n.as_str();
                        if str_eq(ns, "Wortart") {
                            match parse_pos_template(context, &nodes[i], parameters) {
                                None => {
                                    let piece = context.wiki_text.substring_char(
                                        nodes[i].start(),
                                        nodes[i].end(),
                                    );
                                    let f = Flowing::Unknown { value: piece.to_owned() };
                                    out.push(f);
                                    proof {
                                        lemma_one_detail(out_pre, f);
                                    }
                                },
                                Some(pos) => {
                                    out.push(Flowing::Pos { pos });
                                    proof {
                                        lemma_one_detail(out_pre, Flowing::Pos { pos });
                                    }
                                },
                            }
                        } else if str_eq(ns, "f") {
                            let f = parse_simple_template(
                                context,
                                &nodes[i],
                                parameters,
                                Flowing::FeminineGender,
                            );
                            out.push(f);
                            proof {
                                lemma_one_detail(out_pre, f);
                            }
                        } else if str_eq(ns, "fm") {
                            parse_gender_combination_template(
                                context,
                                &nodes[i],
                                parameters.len() == 0,
                                &mut out,
                                Flowing::FeminineGender,
                                Flowing::MasculineGender,
                            );
                        } else if str_eq(ns, "fn") {
                            parse_gender_combination_template(
                                context,
                                &nodes[i],
                                parameters.len() == 0,
                                &mut out,
                                Flowing::FeminineGender,
                                Flowing::NeuterGender,
                            );
                        } else if str_eq(ns, "m") {
                            let f = parse_simple_template(
                                context,
                                &nodes[i],
                                parameters,
                                Flowing::MasculineGender,
                            );
                            out.push(f);
                            proof {
                                lemma_one_detail(out_pre, f);
                            }
                        } else if str_eq(ns, "mf") {
                            parse_gender_combination_template(
                                context,
                                &nodes[i],
                                parameters.len() == 0,
                                &mut out,
                                Flowing::MasculineGender,
                                Flowing::FeminineGender,
                            );
                        } else if str_eq(ns, "mn.") {
                            parse_gender_combination_template(
                                context,
                                &nodes[i],
                                parameters.len() == 0,
                                &mut out,
                                Flowing::MasculineGender,
                                Flowing::NeuterGender,
                            );
                        } else if str_eq(ns, "n") {
                            let f = parse_simple_template(
                                context,
                                &nodes[i],
                                parameters,
                                Flowing::NeuterGender,
                            );
                            out.push(f);
                            proof {
                                lemma_one_detail(out_pre, f);
                            }
                        } else if str_eq(ns, "nf") {
                            parse_gender_combination_template(
                                context,
                                &nodes[i],
                                parameters.len() == 0,
                                &mut out,
                                Flowing::NeuterGender,
                                Flowing::FeminineGender,
                            );
                        } else if str_eq(ns, "nm") {
                            parse_gender_combination_template(
                                context,
                                &nodes[i],
                                parameters.len() == 0,
                                &mut out,
                                Flowing::NeuterGender,
                                Flowing::MasculineGender,
                            );
                        } else if str_eq(ns, "u") {
                            let f = parse_simple_template(
                                context,
                                &nodes[i],
                                parameters,
                                Flowing::CommonGender,
                            );
                            out.push(f);
                            proof {
                                lemma_one_detail(out_pre, f);
                            }
                        } else {
                            let f = create_unknown(
                                context,
                                &nodes[i],
                                WarningMessage::Unrecognized,
                            );
                            out.push(f);
                            proof {
                                lemma_one_detail(out_pre, f);
                            }
                        }
                    },
                }
            },
            Node::Text { value, .. } => {
                if out.len() == 0 {
                    let t = trim_start(value.as_str());
                    let t2 = if t.as_str().is_empty() {
                        t
                    } else if t.as_str().get_char(0) == ',' {
                        let stripped = t.as_str().substring_char(1, t.as_str().unicode_len());
                        trim_start(stripped)
                    } else {
                        t
                    };
                    proof {
                        assert(t2@ == spec_details_text(nodes@[i as int]->Text_value@));
                    }
                    if t2.as_str().is_empty() {
                        proof {
                            assert(row_view(out@) =~= row_view(out_pre)
                                + Seq::<FlowingV>::empty());
                            assert(w_pre + Seq::<Warning>::empty() =~= w_pre);
                        }
                    } else {
                        let f = Flowing::Text { value: t2 };
                        out.push(f);
                        proof {
                            lemma_one_detail(out_pre, f);
                            assert(w_pre + Seq::<Warning>::empty() =~= w_pre);
                        }
                    }
                } else {
                    let f = Flowing::Text { value: value.clone() };
                    out.push(f);
                    proof {
                        lemma_one_detail(out_pre, f);
                        assert(w_pre + Seq::<Warning>::empty() =~= w_pre);
                    }
                }
            },
            _ => {
                let f = create_unknown(context, &nodes[i], WarningMessage::Unrecognized);
                out.push(f);
                proof {
                    lemma_one_detail(out_pre, f);
                }
            },
        }
        proof {
            crate::lemma_row_view_len(out@);
            crate::lemma_row_view_len(out_pre);
            let b1 = spec_details(src0, lang0, nodes@, i as int, have_pre);
            let b2 = spec_details(src0, lang0, nodes@, i as int + 1, have_pre || s_step.0.len()
                > 0);
            assert(b1.0 == s_step.0 + b2.0);
            assert(b1.1 == s_step.1 + b2.1);
            assert(row_view(out@) == row_view(out_pre) + s_step.0);
            assert(context.warnings@ == w_pre + s_step.1);
            assert(out@.len() > 0 <==> (have_pre || s_step.0.len() > 0));
            assert((row_view(out_pre) + s_step.0) + b2.0 =~= row_view(out_pre) + (s_step.0
                + b2.0));
            assert((w_pre + s_step.1) + b2.1 =~= w_pre + (s_step.1 + b2.1));
        }
        i += 1;
    }
    proof {
        let b_end = spec_details(src0, lang0, nodes@, nodes@.len() as int, out@.len() > 0);
        assert(b_end.0 =~= Seq::<FlowingV>::empty());
        assert(b_end.1 =~= Seq::<Warning>::empty());
        assert(row_view(out@) + Seq::<FlowingV>::empty() =~= row_view(out@));
        assert(context.warnings@ + Seq::<Warning>::empty() =~= context.warnings@);
    }
    out
}

/// One step of the language-section scan at node `i`: the entries appended,
/// the next index, the warnings, and whether the scan stops here.
pub open spec fn spec_language_step(
    src: Seq<char>,
    lang: Option<Language>,
    nodes: Seq<Node>,
    i: int,
) -> (Seq<PosEntryV>, int, Seq<Warning>, bool)
    decreases nodes.len() - i, 0int,
{
    if i < 0 || i >= nodes.len() {
        (Seq::empty(), i, Seq::empty(), true)
    } else {
        let node = nodes[i];
        match node {
            Node::Heading { level, nodes: children, .. } => {
                if level < 3 {
                    (Seq::empty(), i, Seq::empty(), true)
                } else if level == 3 {
                    if children@.len() == 0 {
                        (
                            Seq::empty(),
                            i + 1,
                            seq![
                                warn(
                                    lang,
                                    node.spec_start(),
                                    node.spec_end(),
                                    WarningMessage::Empty,
                                ),
                            ],
                            false,
                        )
                    } else if children@[0] is Template && spec_text_equals(
                        children@[0]->Template_name@,
                        "Wortart"@,
                    ) {
                        let (p, w1) = spec_parse_pos_template(
                            lang,
                            children@[0],
                            children@[0]->Template_parameters@,
                        );
                        match p {
                            None => (Seq::empty(), i + 1, w1, false),
                            Some(pos) => {
                                let (details, w2) = spec_details(src, lang, children@, 1, false);
                                let (consumed, w3, entry) = spec_parse_pos_section(
                                    src,
                                    lang,
                                    nodes,
                                    i + 1,
                                    pos,
                                    details,
                                );
                                match entry {
                                    Some(ev) => (
                                        seq![ev],
                                        i + 1 + consumed,
                                        w1 + w2 + w3,
                                        false,
                                    ),
                                    None => (Seq::empty(), i + 1 + consumed, w1 + w2 + w3, false),
                                }
                            },
                        }
                    } else {
                        (
                            Seq::empty(),
                            i + 1,
                            seq![
                                warn(
                                    lang,
                                    node.spec_start(),
                                    node.spec_end(),
                                    WarningMessage::ValueUnrecognized,
                                ),
                            ],
                            false,
                        )
                    }
                } else {
                    (
                        Seq::empty(),
                        i + 1,
                        seq![
                            warn(
                                lang,
                                node.spec_start(),
                                node.spec_end(),
                                WarningMessage::Unrecognized,
                            ),
                        ],
                        false,
                    )
                }
            },
            Node::Template { name, .. } => if spec_text_equals(name@, "erweitern"@) {
                (
                    Seq::empty(),
                    i + 1,
                    seq![
                        warn(
                            lang,
                            node.spec_start(),
                            node.spec_end(),
                            WarningMessage::Supplementary,
                        ),
                    ],
                    false,
                )
            } else {
                (
                    Seq::empty(),
                    i + 1,
                    seq![
                        warn(
                            lang,
                            node.spec_start(),
                            node.spec_end(),
                            WarningMessage::Unrecognized,
                        ),
                    ],
                    false,
                )
            },
            _ => (
                Seq::empty(),
                i + 1,
                seq![
                    warn(lang, node.spec_start(), node.spec_end(), WarningMessage::Unrecognized),
                ],
                false,
            ),
        }
    }
}

/// The language-section scan from node `i` on: the entries, the index where
/// it stopped, and the warnings.
pub open spec fn spec_language_scan(
    src: Seq<char>,
    lang: Option<Language>,
    nodes: Seq<Node>,
    i: int,
) -> (Seq<PosEntryV>, int, Seq<Warning>)
    decreases nodes.len() - i, 1int,
{
    if i < 0 || i >= nodes.len() {
        (Seq::empty(), i, Seq::empty())
    } else {
        let (es, i1, w1, stop) = spec_language_step(src, lang, nodes, i);
        if stop {
            (es, i, w1)
        } else if i1 <= i || i1 > nodes.len() {
            (es, i1, w1)
        } else {
            let (es2, i2, w2) = spec_language_scan(src, lang, nodes, i1);
            (es + es2, i2, w1 + w2)
        }
    }
}

/// The consumed count, warnings and produced entry of one language section:
/// a section yielding no part-of-speech entries produces no entry and one
/// warning at the language heading.
pub open spec fn spec_parse_language(
    src: Seq<char>,
    lang: Option<Language>,
    heading: Node,
    nodes: Seq<Node>,
    from: int,
) -> (int, Seq<Warning>, Option<LanguageEntryV>) {
    let (entries, i2, w) = spec_language_scan(src, lang, nodes, from);
    if entries.len() == 0 {
        (
            i2 - from,
            w + seq![
                warn(
                    lang,
                    heading.spec_start(),
                    heading.spec_end(),
                    WarningMessage::SectionEmpty,
                ),
            ],
            None,
        )
    } else {
        (
            i2 - from,
            w,
            Some(LanguageEntryV { language: lang->Some_0, pos_entries: entries }),
        )
    }
}

/// A language section yielding zero part-of-speech entries never produces a
/// language entry, and yields exactly one section-empty warning at the
/// language heading beyond the warnings of its body.
pub proof fn lemma_empty_language_section_discarded(
    src: Seq<char>,
    lang: Option<Language>,
    heading: Node,
    nodes: Seq<Node>,
    from: int,
)
    requires
        spec_language_scan(src, lang, nodes, from).0.len() == 0,
    ensures
        ({
            let (consumed, w, entry) = spec_parse_language(src, lang, heading, nodes, from);
            entry is None && w == spec_language_scan(src, lang, nodes, from).2 + seq![
                warn(
                    lang,
                    heading.spec_start(),
                    heading.spec_end(),
                    WarningMessage::SectionEmpty,
                ),
            ]
        }),
{
}

/// One step of the language-section dispatcher.
#[verifier::rlimit(100)]
fn language_step(
    context: &mut Context,
    nodes: &[Node],
    i: usize,
    pos_entries: &mut Vec<PosEntry>,
) -> (r: (usize, bool))
    requires
        old(context).language is Some,
        nodes_wf(nodes@, old(context).wiki_text@.len()),
        i < nodes@.len(),
        nodes@.len() < usize::MAX,
    ensures
        ctx_keeps(*old(context), *final(context)),
        ({
            let (es, i1, w1, stop) = spec_language_step(
                old(context).wiki_text@,
                old(context).language,
                nodes@,
                i as int,
            );
            &&& pos_entries_view(final(pos_entries)@) == pos_entries_view(old(pos_entries)@) + es
            &&& final(context).warnings@ == old(context).warnings@ + w1
            &&& r.1 == stop
            &&& (!stop ==> r.0 as int == i1 && i < i1 <= nodes@.len() + 1)
            &&& (stop ==> r.0 == i)
        }),
{
    proof {
        crate::list::lemma_push_concat_warning();
        assert(node_wf(nodes@[i as int], old(context).wiki_text@.len()));
        assert(pos_entries_view(old(pos_entries)@) + Seq::<PosEntryV>::empty()
            =~= pos_entries_view(old(pos_entries)@));
    }
    match &nodes[i] {
        Node::Heading { level, nodes: children, .. } => {
            if *level < 3 {
                proof {
                    assert(old(context).warnings@ + Seq::<Warning>::empty() =~= old(
                        context,
                    ).warnings@);
                }
                (i, true)
            } else if *level == 3 {
                if children.len() == 0 {
                    let start = nodes[i].start();
                    let end = nodes[i].end();
                    add_warning(context, start, end, WarningMessage::Empty);
                    (i + 1, false)
                } else {
                    match &children[0] {
                        Node::Template { name: tname, parameters: tparams, .. } => {
                            if text_equals(tname.as_slice(), "Wortart") {
                                proof {
                                    assert(node_wf(children@[0], old(context).wiki_text@.len()));
                                }
                                match parse_pos_template(context, &children[0], tparams) {
                                    None => (i + 1, false),
                                    Some(pos) => {
                                        let ghost w1c = context.warnings@;
                                        let details = parse_details(
                                            context,
                                            children.as_slice(),
                                            1,
                                        );
                                        let ghost w2c = context.warnings@;
                                        let consumed = parse_pos_section(
                                            context,
                                            nodes,
                                            i + 1,
                                            pos_entries,
                                            pos,
                                            details,
                                        );
                                        proof {
                                            let (es, i1, w1, stop) = spec_language_step(
                                                old(context).wiki_text@,
                                                old(context).language,
                                                nodes@,
                                                i as int,
                                            );
                                            assert(context.warnings@ =~= old(context).warnings@
                                                + w1);
                                            if es.len() > 0 {
                                                assert(pos_entries_view(
                                                    old(pos_entries)@,
                                                ).push(es[0]) =~= pos_entries_view(
                                                    old(pos_entries)@,
                                                ) + es);
                                            }
                                        }
                                        (i + 1 + consumed, false)
                                    },
                                }
                            } else {
                                let start = nodes[i].start();
                                let end = nodes[i].end();
                                add_warning(
                                    context,
                                    start,
                                    end,
                                    WarningMessage::ValueUnrecognized,
                                );
                                (i + 1, false)
                            }
                        },
                        _ => {
                            let start = nodes[i].start();
                            let end = nodes[i].end();
                            add_warning(context, start, end, WarningMessage::ValueUnrecognized);
                            (i + 1, false)
                        },
                    }
                }
            } else {
                let start = nodes[i].start();
                let end = nodes[i].end();
                add_warning(context, start, end, WarningMessage::Unrecognized);
                (i + 1, false)
            }
        },
        Node::Template { name, .. } => {
            if text_equals(name.as_slice(), "erweitern") {
                let start = nodes[i].start();
                let end = nodes[i].end();
                add_warning(context, start, end, WarningMessage::Supplementary);
                (i + 1, false)
            } else {
                let start = nodes[i].start();
                let end = nodes[i].end();
                add_warning(context, start, end, WarningMessage::Unrecognized);
                (i + 1, false)
            }
        },
        _ => {
            let start = nodes[i].start();
            let end = nodes[i].end();
            add_warning(context, start, end, WarningMessage::Unrecognized);
            (i + 1, false)
        },
    }
}

/// Parses the body of one language section starting at `from`, collecting
/// its part-of-speech entries; a section yielding none is discarded with a
/// warning at the language heading, any other appends one language entry.
pub fn parse_language(
    context: &mut Context,
    heading_node: &Node,
    nodes: &[Node],
    from: usize,
    language_entries: &mut Vec<LanguageEntry>,
) -> (consumed: usize)
    requires
        old(context).language is Some,
        nodes_wf(nodes@, old(context).wiki_text@.len()),
        from <= nodes@.len(),
        nodes@.len() < usize::MAX,
    ensures
        ctx_keeps(*old(context), *final(context)),
        ({
            let (consumed_s, w, entry) = spec_parse_language(
                old(context).wiki_text@,
                old(context).language,
                *heading_node,
                nodes@,
                from as int,
            );
            consumed as int == consumed_s && consumed <= nodes@.len() + 1 - from
                && final(context).warnings@ == old(context).warnings@ + w && match entry {
                Some(ev) => crate::language_entries_view(final(language_entries)@)
                    == crate::language_entries_view(old(language_entries)@).push(ev),
                None => final(language_entries)@ == old(language_entries)@,
            }
        }),
{
    proof {
        crate::list::lemma_push_concat_warning();
    }
    let ghost src0 = old(context).wiki_text@;
    let ghost lang0 = old(context).language;
    let mut pos_entries: Vec<PosEntry> = Vec::new();
    let mut done = false;
    let mut i: usize = from;
    proof {
        assert(pos_entries_view(pos_entries@) =~= Seq::<PosEntryV>::empty());
        assert(Seq::<PosEntryV>::empty() + spec_language_scan(src0, lang0, nodes@, from as int).0
            =~= spec_language_scan(src0, lang0, nodes@, from as int).0);
    }
    while i < nodes.len() && !done
        invariant
            from <= i,
            i <= nodes@.len() + 1,
            nodes@.len() < usize::MAX,
            nodes_wf(nodes@, src0.len()),
            lang0 is Some,
            ctx_keeps(*old(context), *context),
            context.wiki_text@ == src0,
            context.language == lang0,
            !done ==> ({
                let full = spec_language_scan(src0, lang0, nodes@, from as int);
                let rest = spec_language_scan(src0, lang0, nodes@, i as int);
                &&& full.0 == pos_entries_view(pos_entries@) + rest.0
                &&& full.1 == rest.1
                &&& old(context).warnings@ + full.2 == context.warnings@ + rest.2
            }),
            done ==> ({
                let full = spec_language_scan(src0, lang0, nodes@, from as int);
                &&& full.0 == pos_entries_view(pos_entries@)
                &&& full.1 == i as int
                &&& context.warnings@ == old(context).warnings@ + full.2
            }),
        decreases nodes@.len() + 1 - i, (if done { 0int } else { 1int }),
    {
        let ghost g_i = i;
        let ghost w_pre = context.warnings@;
        let ghost pe_pre = pos_entries_view(pos_entries@);
        let (ni, stop) = language_step(context, nodes, i, &mut pos_entries);
        let ghost stp = spec_language_step(src0, lang0, nodes@, g_i as int);
        if stop {
            proof {
                let rest_pre = spec_language_scan(src0, lang0, nodes@, g_i as int);
                assert(rest_pre.0 == stp.0 && rest_pre.1 == g_i as int && rest_pre.2 == stp.2);
                assert(stp.0 =~= Seq::<PosEntryV>::empty());
                assert(pe_pre + Seq::<PosEntryV>::empty() =~= pe_pre);
            }
            done = true;
        } else {
            proof {
                let rest_pre = spec_language_scan(src0, lang0, nodes@, g_i as int);
                if stp.1 > nodes@.len() {
                    assert(rest_pre.0 == stp.0 && rest_pre.1 == stp.1 && rest_pre.2 == stp.2);
                    let rest_new = spec_language_scan(src0, lang0, nodes@, stp.1);
                    assert(rest_new.0 =~= Seq::<PosEntryV>::empty());
                    assert(rest_new.2 =~= Seq::<Warning>::empty());
                    assert(pos_entries_view(pos_entries@) + Seq::<PosEntryV>::empty()
                        =~= pos_entries_view(pos_entries@));
                    assert(context.warnings@ + Seq::<Warning>::empty() =~= context.warnings@);
                    assert((pe_pre + stp.0) + rest_new.0 =~= pe_pre + rest_pre.0);
                    assert((w_pre + stp.2) + rest_new.2 =~= w_pre + rest_pre.2);
                } else {
                    let rest_new = spec_language_scan(src0, lang0, nodes@, stp.1);
                    assert(rest_pre.0 == stp.0 + rest_new.0);
                    assert(rest_pre.1 == rest_new.1);
                    assert(rest_pre.2 == stp.2 + rest_new.2);
                    assert((pe_pre + stp.0) + rest_new.0 =~= pe_pre + rest_pre.0);
                    assert((w_pre + stp.2) + rest_new.2 =~= w_pre + rest_pre.2);
                }
            }
            i = ni;
        }
    }
    proof {
        if !done {
            let rest = spec_language_scan(src0, lang0, nodes@, i as int);
            assert(rest.0 =~= Seq::<PosEntryV>::empty());
            assert(rest.2 =~= Seq::<Warning>::empty());
            assert(pos_entries_view(pos_entries@) + Seq::<PosEntryV>::empty()
                =~= pos_entries_view(pos_entries@));
            assert(context.warnings@ + Seq::<Warning>::empty() =~= context.warnings@);
        }
        crate::lemma_pos_entries_view_len(pos_entries@);
    }
    if pos_entries.len() == 0 {
        let start = heading_node.start();
        let end = heading_node.end();
        add_warning(context, start, end, WarningMessage::SectionEmpty);
        proof {
            let full = spec_language_scan(src0, lang0, nodes@, from as int);
            assert((old(context).warnings@ + full.2) + seq![
                warn(
                    lang0,
                    heading_node.spec_start(),
                    heading_node.spec_end(),
                    WarningMessage::SectionEmpty,
                ),
            ] =~= old(context).warnings@ + (full.2 + seq![
                warn(
                    lang0,
                    heading_node.spec_start(),
                    heading_node.spec_end(),
                    WarningMessage::SectionEmpty,
                ),
            ]));
        }
    } else {
        let active = match context.language {
            Some(l) => l,
            None => {
                proof {
                    assert(false);
                }
                Language::De
            },
        };
        let entry = LanguageEntry { language: active, pos_entries };
        proof {
            crate::lemma_language_entries_view_push(old(language_entries)@, entry);
        }
        language_entries.push(entry);
    }
    i - from
}

} // verus!
