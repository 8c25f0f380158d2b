//! The pronunciation section: a details list whose items begin with one of
//! three fixed sub-section markers (audio samples, IPA, rhymes), each decoded
//! with its own constrained sub-grammar.

use vstd::prelude::*;

use crate::languages::{spec_language_of, Language};
use crate::node::{
    dl_item_wf, dl_items_wf, node_wf, nodes_wf, parameters_wf, DefinitionListItem,
    DefinitionListItemType, Node, Parameter,
};
use crate::util::{
    add_warning, create_unknown, create_unknown2, ctx_keeps, parse_list_generic,
    parse_parameter_name, parse_simple_template, parse_text, parse_text_not_empty, spec_list_body,
    spec_list_section, spec_parameter_name, spec_parse_text, spec_parse_text_not_empty,
    spec_simple_template, spec_trim_start, spec_unknown, str_eq, trim_start, warn, Context,
};
use crate::{
    flowing_view, lemma_row_view_push, row_view, Flowing, FlowingV, Warning, WarningMessage,
};

verus! {

/// The pronunciation fields of a part-of-speech entry.
#[derive(Debug)]
pub struct Pronunciation {
    /// Audio samples.
    pub audio: Vec<Flowing>,
    /// IPA pronunciation.
    pub ipa: Vec<Flowing>,
    /// Rhymes.
    pub rhymes: Vec<Flowing>,
}

/// The mathematical value of a [`Pronunciation`].
#[verifier::ext_equal]
pub struct PronunciationV {
    /// Audio samples.
    pub audio: Seq<FlowingV>,
    /// IPA pronunciation.
    pub ipa: Seq<FlowingV>,
    /// Rhymes.
    pub rhymes: Seq<FlowingV>,
}

impl View for Pronunciation {
    type V = PronunciationV;

    open spec fn view(&self) -> PronunciationV {
        PronunciationV {
            audio: row_view(self.audio@),
            ipa: row_view(self.ipa@),
            rhymes: row_view(self.rhymes@),
        }
    }
}

/// The empty pronunciation value.
pub open spec fn spec_pron_empty() -> PronunciationV {
    PronunciationV { audio: Seq::empty(), ipa: Seq::empty(), rhymes: Seq::empty() }
}

/// The outcome of an audio-reference marker: scans its parameters for a file
/// name, an optional label, and an optional named language parameter.
pub open spec fn spec_audio_params(
    src: Seq<char>,
    lang: Option<Language>,
    node: Node,
    params: Seq<Parameter>,
    p: int,
    idx: int,
    file_name: Option<Seq<char>>,
    label: Option<Seq<char>>,
    language: Option<Seq<char>>,
) -> (FlowingV, Seq<Warning>)
    decreases params.len() - p,
{
    if p < 0 || p >= params.len() {
        match file_name {
            None => (
                spec_unknown(src, node.spec_start(), node.spec_end()),
                seq![warn(lang, node.spec_start(), node.spec_end(), WarningMessage::Empty)],
            ),
            Some(f) => (FlowingV::Audio { file_name: f, label, language }, Seq::empty()),
        }
    } else {
        let param = params[p];
        match param.name {
            None => if idx == 0 {
                match spec_parse_text_not_empty(param.value@) {
                    None => (
                        spec_unknown(src, node.spec_start(), node.spec_end()),
                        seq![
                            warn(lang, param.start, param.end, WarningMessage::ValueUnrecognized),
                        ],
                    ),
                    Some(v) => spec_audio_params(
                        src,
                        lang,
                        node,
                        params,
                        p + 1,
                        idx + 1,
                        Some(v),
                        label,
                        language,
                    ),
                }
            } else if idx == 1 {
                match spec_parse_text_not_empty(param.value@) {
                    None => (
                        spec_unknown(src, node.spec_start(), node.spec_end()),
                        seq![
                            warn(lang, param.start, param.end, WarningMessage::ValueUnrecognized),
                        ],
                    ),
                    Some(v) => spec_audio_params(
                        src,
                        lang,
                        node,
                        params,
                        p + 1,
                        idx + 1,
                        file_name,
                        Some(v),
                        language,
                    ),
                }
            } else {
                (
                    spec_unknown(src, node.spec_start(), node.spec_end()),
                    seq![warn(lang, param.start, param.end, WarningMessage::Unrecognized)],
                )
            },
            Some(_) => if spec_parameter_name(param) == Some("spr"@) {
                if language is Some {
                    (
                        spec_unknown(src, node.spec_start(), node.spec_end()),
                        seq![warn(lang, param.start, param.end, WarningMessage::Duplicate)],
                    )
                } else {
                    match spec_parse_text_not_empty(param.value@) {
                        None => (
                            spec_unknown(src, node.spec_start(), node.spec_end()),
                            seq![
                                warn(
                                    lang,
                                    param.start,
                                    param.end,
                                    WarningMessage::ValueUnrecognized,
                                ),
                            ],
                        ),
                        Some(v) => spec_audio_params(
                            src,
                            lang,
                            node,
                            params,
                            p + 1,
                            idx,
                            file_name,
                            label,
                            Some(v),
                        ),
                    }
                }
            } else {
                (
                    spec_unknown(src, node.spec_start(), node.spec_end()),
                    seq![warn(lang, param.start, param.end, WarningMessage::Unrecognized)],
                )
            },
        }
    }
}

/// The outcome of an audio-reference marker: a placeholder for one empty
/// unnamed parameter, else the parameter scan.
pub open spec fn spec_template_audio(
    src: Seq<char>,
    lang: Option<Language>,
    node: Node,
    params: Seq<Parameter>,
) -> (FlowingV, Seq<Warning>) {
    if params.len() == 1 && params[0].name is None && params[0].value@.len() == 0 {
        (FlowingV::EmptyAudio, Seq::empty())
    } else {
        spec_audio_params(src, lang, node, params, 0, 0, None, None, None)
    }
}

/// Decodes an audio-reference marker.
fn parse_template_audio(
    context: &mut Context,
    template_node: &Node,
    parameters: &Vec<Parameter>,
) -> (r: Flowing)
    requires
        template_node.spec_start() <= template_node.spec_end() <= old(context).wiki_text@.len(),
        parameters_wf(parameters@, old(context).wiki_text@.len()),
    ensures
        ctx_keeps(*old(context), *final(context)),
        ({
            let (e, w) = spec_template_audio(
                old(context).wiki_text@,
                old(context).language,
                *template_node,
                parameters@,
            );
            r@ == e && final(context).warnings@ == old(context).warnings@ + w
        }),
{
    proof {
        crate::list::lemma_push_concat_warning();
    }
    let ghost src0 = old(context).wiki_text@;
    let ghost lang0 = old(context).language;
    if parameters.len() == 1 {
        let p = &parameters[0];
        if p.name.is_none() && p.value.len() == 0 {
            proof {
                assert(old(context).warnings@ + Seq::<Warning>::empty() =~= old(
                    context,
                ).warnings@);
            }
            return Flowing::EmptyAudio;
        }
    }
    let mut file_name: Option<String> = None;
    let mut label: Option<String> = None;
    let mut language: Option<String> = None;
    let mut parameter_index: usize = 0;
    let mut p: usize = 0;
    while p < parameters.len()
        invariant
            0 <= p <= parameters@.len(),
            parameter_index <= p,
            !(parameters@.len() == 1 && parameters@[0].name is None && parameters@[0].value@.len()
                == 0),
            parameters_wf(parameters@, src0.len()),
            template_node.spec_start() <= template_node.spec_end() <= src0.len(),
            ctx_keeps(*old(context), *context),
            context.wiki_text@ == src0,
            context.language == lang0,
            context.warnings@ == old(context).warnings@,
            spec_audio_params(src0, lang0, *template_node, parameters@, 0, 0, None, None, None)
                == spec_audio_params(
                src0,
                lang0,
                *template_node,
                parameters@,
                p as int,
                parameter_index as int,
                match file_name {
                    Some(ref s) => Some(s@),
                    None => None,
                },
                match label {
                    Some(ref s) => Some(s@),
                    None => None,
                },
                match language {
                    Some(ref s) => Some(s@),
                    None => None,
                },
            ),
        decreases parameters@.len() - p,
    {
        proof {
            crate::list::lemma_push_concat_warning();
        }
        let param = &parameters[p];
        if param.name.is_none() {
            if parameter_index == 0 {
                match parse_text_not_empty(param.value.as_slice()) {
                    None => {
                        return create_unknown2(
                            context,
                            template_node,
                            param.start,
                            param.end,
                            WarningMessage::ValueUnrecognized,
                        );
                    },
                    Some(v) => {
                        file_name = Some(v);
                        parameter_index += 1;
                    },
                }
            } else if parameter_index == 1 {
                match parse_text_not_empty(param.value.as_slice()) {
                    None => {
                        return create_unknown2(
                            context,
                            template_node,
                            param.start,
                            param.end,
                            WarningMessage::ValueUnrecognized,
                        );
                    },
                    Some(v) => {
                        label = Some(v);
                        parameter_index += 1;
                    },
                }
            } else {
                return create_unknown2(
                    context,
                    template_node,
                    param.start,
                    param.end,
                    WarningMessage::Unrecognized,
                );
            }
        } else {
            let is_spr = match parse_parameter_name(param) {
                Some(name) => str_eq(name, "spr"),
                None => false,
            };
            if is_spr {
                if language.is_some() {
                    return create_unknown2(
                        context,
                        template_node,
                        param.start,
                        param.end,
                        WarningMessage::Duplicate,
                    );
                }
                match parse_text_not_empty(param.value.as_slice()) {
                    None => {
                        return create_unknown2(
                            context,
                            template_node,
                            param.start,
                            param.end,
                            WarningMessage::ValueUnrecognized,
                        );
                    },
                    Some(v) => {
                        language = Some(v);
                    },
                }
            } else {
                return create_unknown2(
                    context,
                    template_node,
                    param.start,
                    param.end,
                    WarningMessage::Unrecognized,
                );
            }
        }
        p += 1;
    }
    match file_name {
        None => create_unknown(context, template_node, WarningMessage::Empty),
        Some(file_name) => {
            proof {
                assert(old(context).warnings@ + Seq::<Warning>::empty() =~= old(
                    context,
                ).warnings@);
            }
            Flowing::Audio { file_name, label, language }
        },
    }
}

/// The outcome of an IPA marker: its single unnamed parameter coerced to
/// non-empty flat text.
pub open spec fn spec_template_ipa(
    src: Seq<char>,
    lang: Option<Language>,
    node: Node,
    params: Seq<Parameter>,
) -> (FlowingV, Seq<Warning>) {
    if params.len() == 1 && params[0].name is None {
        match spec_parse_text_not_empty(params[0].value@) {
            Some(ipa) => (FlowingV::Ipa { ipa }, Seq::empty()),
            None => (
                spec_unknown(src, node.spec_start(), node.spec_end()),
                seq![
                    warn(
                        lang,
                        params[0].start,
                        params[0].end,
                        WarningMessage::ValueUnrecognized,
                    ),
                ],
            ),
        }
    } else {
        (
            spec_unknown(src, node.spec_start(), node.spec_end()),
            seq![
                warn(lang, node.spec_start(), node.spec_end(), WarningMessage::ValueUnrecognized),
            ],
        )
    }
}

/// Decodes an IPA marker.
fn parse_template_ipa(
    context: &mut Context,
    template_node: &Node,
    parameters: &Vec<Parameter>,
) -> (r: Flowing)
    requires
        template_node.spec_start() <= template_node.spec_end() <= old(context).wiki_text@.len(),
        parameters_wf(parameters@, old(context).wiki_text@.len()),
    ensures
        ctx_keeps(*old(context), *final(context)),
        ({
            let (e, w) = spec_template_ipa(
                old(context).wiki_text@,
                old(context).language,
                *template_node,
                parameters@,
            );
            r@ == e && final(context).warnings@ == old(context).warnings@ + w
        }),
{
    proof {
        crate::list::lemma_push_concat_warning();
    }
    if parameters.len() == 1 {
        let param = &parameters[0];
        if param.name.is_none() {
            return match parse_text_not_empty(param.value.as_slice()) {
                Some(ipa) => {
                    proof {
                        assert(old(context).warnings@ + Seq::<Warning>::empty() =~= old(
                            context,
                        ).warnings@);
                    }
                    Flowing::Ipa { ipa }
                },
                None => create_unknown2(
                    context,
                    template_node,
                    param.start,
                    param.end,
                    WarningMessage::ValueUnrecognized,
                ),
            };
        }
    }
    create_unknown(context, template_node, WarningMessage::ValueUnrecognized)
}

/// The outcome of a rhyme marker: the rhyme text and a language that must
/// match the active language.
pub open spec fn spec_template_rhyme(
    src: Seq<char>,
    lang: Option<Language>,
    node: Node,
    params: Seq<Parameter>,
) -> (FlowingV, Seq<Warning>) {
    if params.len() == 2 && params[0].name is None && params[1].name is None {
        match spec_parse_text_not_empty(params[0].value@) {
            None => (
                spec_unknown(src, node.spec_start(), node.spec_end()),
                seq![
                    warn(
                        lang,
                        params[0].start,
                        params[0].end,
                        WarningMessage::ValueUnrecognized,
                    ),
                ],
            ),
            Some(rhyme) => {
                let l = match spec_parse_text(params[1].value@) {
                    Some(t) => spec_language_of(t),
                    None => None,
                };
                match l {
                    None => (
                        spec_unknown(src, node.spec_start(), node.spec_end()),
                        seq![
                            warn(
                                lang,
                                params[1].start,
                                params[1].end,
                                WarningMessage::ValueUnrecognized,
                            ),
                        ],
                    ),
                    Some(l) => if Some(l) == lang {
                        (FlowingV::Rhyme { rhyme }, Seq::empty())
                    } else {
                        (
                            spec_unknown(src, node.spec_start(), node.spec_end()),
                            seq![
                                warn(
                                    lang,
                                    params[1].start,
                                    params[1].end,
                                    WarningMessage::ValueConflicting,
                                ),
                            ],
                        )
                    },
                }
            },
        }
    } else {
        (
            spec_unknown(src, node.spec_start(), node.spec_end()),
            seq![
                warn(lang, node.spec_start(), node.spec_end(), WarningMessage::ValueUnrecognized),
            ],
        )
    }
}

/// Decodes a rhyme marker, validating its language against the active
/// language.
fn parse_template_rhyme(
    context: &mut Context,
    template_node: &Node,
    parameters: &Vec<Parameter>,
) -> (r: Flowing)
    requires
        template_node.spec_start() <= template_node.spec_end() <= old(context).wiki_text@.len(),
        parameters_wf(parameters@, old(context).wiki_text@.len()),
    ensures
        ctx_keeps(*old(context), *final(context)),
        ({
            let (e, w) = spec_template_rhyme(
                old(context).wiki_text@,
                old(context).language,
                *template_node,
                parameters@,
            );
            r@ == e && final(context).warnings@ == old(context).warnings@ + w
        }),
{
    proof {
        crate::list::lemma_push_concat_warning();
    }
    if parameters.len() == 2 {
        let p0 = &parameters[0];
        let p1 = &parameters[1];
        if p0.name.is_none() && p1.name.is_none() {
            return match parse_text_not_empty(p0.value.as_slice()) {
                None => create_unknown2(
                    context,
                    template_node,
                    p0.start,
                    p0.end,
                    WarningMessage::ValueUnrecognized,
                ),
                Some(rhyme) => {
                    let language = match parse_text(p1.value.as_slice()) {
                        Some(t) => Language::from_name(t.as_str()),
                        None => None,
                    };
                    match language {
                        None => create_unknown2(
                            context,
                            template_node,
                            p1.start,
                            p1.end,
                            WarningMessage::ValueUnrecognized,
                        ),
                        Some(l) => {
                            let matches_context = match context.language {
                                Some(active) => active == l,
                                None => false,
                            };
                            if matches_context {
                                proof {
                                    assert(old(context).warnings@ + Seq::<Warning>::empty()
                                        =~= old(context).warnings@);
                                }
                                Flowing::Rhyme { rhyme }
                            } else {
                                create_unknown2(
                                    context,
                                    template_node,
                                    p1.start,
                                    p1.end,
                                    WarningMessage::ValueConflicting,
                                )
                            }
                        },
                    }
                },
            };
        }
    }
    create_unknown(context, template_node, WarningMessage::ValueUnrecognized)
}

/// One step of the audio body scan at node `j`: the elements it contributes
/// and the warnings it records.  `have` says whether elements were already
/// contributed; a leading text node is trimmed only when none were.
pub open spec fn spec_audio_step(
    src: Seq<char>,
    lang: Option<Language>,
    nodes: Seq<Node>,
    j: int,
    have: bool,
) -> (Seq<FlowingV>, Seq<Warning>) {
    if j < 0 || j >= nodes.len() {
        (Seq::empty(), Seq::empty())
    } else {
        let node = nodes[j];
        match node {
            Node::Template { name, parameters, .. } => match spec_parse_text(name@) {
                Some(n) => {
                    if n == "Audio"@ {
                        let (e, w) = spec_template_audio(src, lang, node, parameters@);
                        (seq![e], w)
                    } else if n == "Gen."@ {
                        let (e, w) = spec_simple_template(
                            src,
                            lang,
                            node,
                            parameters@.len() == 0,
                            FlowingV::Genitive,
                        );
                        (seq![e], w)
                    } else if n == "Lautschrift"@ {
                        let (e, w) = spec_template_ipa(src, lang, node, parameters@);
                        (seq![e], w)
                    } else if n == "Part."@ {
                        let (e, w) = spec_simple_template(
                            src,
                            lang,
                            node,
                            parameters@.len() == 0,
                            FlowingV::PastParticiple,
                        );
                        (seq![e], w)
                    } else if n == "Pl."@ {
                        let (e, w) = spec_simple_template(
                            src,
                            lang,
                            node,
                            parameters@.len() == 0,
                            FlowingV::Plural,
                        );
                        (seq![e], w)
                    } else if n == "Pl.1"@ {
                        let (e, w) = spec_simple_template(
                            src,
                            lang,
                            node,
                            parameters@.len() == 0,
                            FlowingV::Plural1,
                        );
                        (seq![e], w)
                    } else if n == "Pl.2"@ {
                        let (e, w) = spec_simple_template(
                            src,
                            lang,
                            node,
                            parameters@.len() == 0,
                            FlowingV::Plural2,
                        );
                        (seq![e], w)
                    } else if n == "Pl.3"@ {
                        let (e, w) = spec_simple_template(
                            src,
                            lang,
                            node,
                            parameters@.len() == 0,
                            FlowingV::Plural3,
                        );
                        (seq![e], w)
                    } else if n == "Pl.4"@ {
                        let (e, w) = spec_simple_template(
                            src,
                            lang,
                            node,
                            parameters@.len() == 0,
                            FlowingV::Plural4,
                        );
                        (seq![e], w)
                    } else if n == "Pr\u{e4}t."@ {
                        let (e, w) = spec_simple_template(
                            src,
                            lang,
                            node,
                            parameters@.len() == 0,
                            FlowingV::Preterite,
                        );
                        (seq![e], w)
                    } else if n == "Reim"@ {
                        let (e, w) = spec_template_rhyme(src, lang, node, parameters@);
                        (seq![e], w)
                    } else {
                        (
                            seq![spec_unknown(src, node.spec_start(), node.spec_end())],
                            seq![
                                warn(
                                    lang,
                                    node.spec_start(),
                                    node.spec_end(),
                                    WarningMessage::Unrecognized,
                                ),
                            ],
                        )
                    }
                },
                None => (
                    seq![spec_unknown(src, node.spec_start(), node.spec_end())],
                    seq![
                        warn(
                            lang,
                            node.spec_start(),
                            node.spec_end(),
                            WarningMessage::Unrecognized,
                        ),
                    ],
                ),
            },
            Node::Text { value, .. } => if !have {
                let t = spec_trim_start(value@);
                if t.len() == 0 {
                    (Seq::empty(), Seq::empty())
                } else {
                    (seq![FlowingV::Text { value: t }], Seq::empty())
                }
            } else {
                (seq![FlowingV::Text { value: value@ }], Seq::empty())
            },
            _ => (
                seq![spec_unknown(src, node.spec_start(), node.spec_end())],
                seq![
                    warn(lang, node.spec_start(), node.spec_end(), WarningMessage::Unrecognized),
                ],
            ),
        }
    }
}

/// The audio body scan from node `j` on.
pub open spec fn spec_audio_body(
    src: Seq<char>,
    lang: Option<Language>,
    nodes: Seq<Node>,
    j: int,
    have: bool,
) -> (Seq<FlowingV>, Seq<Warning>)
    decreases nodes.len() - j,
{
    if j < 0 || j >= nodes.len() {
        (Seq::empty(), Seq::empty())
    } else {
        let (es, ws) = spec_audio_step(src, lang, nodes, j, have);
        let (rest_es, rest_ws) = spec_audio_body(
            src,
            lang,
            nodes,
            j + 1,
            have || es.len() > 0,
        );
        (es + rest_es, ws + rest_ws)
    }
}

/// The slot value and warnings of one pronunciation sub-section: the body of
/// the item after its marker, or the empty value with a warning.
pub open spec fn spec_parse_audio(
    src: Seq<char>,
    lang: Option<Language>,
    item: DefinitionListItem,
    node: Node,
    params: Seq<Parameter>,
    filled: bool,
) -> (Seq<FlowingV>, Seq<Warning>) {
    if filled {
        (
            Seq::empty(),
            seq![warn(lang, node.spec_start(), node.spec_end(), WarningMessage::Duplicate)],
        )
    } else if params.len() > 0 {
        (
            Seq::empty(),
            seq![
                warn(lang, node.spec_start(), node.spec_end(), WarningMessage::ValueUnrecognized),
            ],
        )
    } else {
        let (elems, w) = spec_audio_body(src, lang, item.nodes@, 1, false);
        if elems.len() == 0 {
            (
                elems,
                w + seq![
                    warn(lang, node.spec_start(), node.spec_end(), WarningMessage::SectionEmpty),
                ],
            )
        } else {
            (elems, w)
        }
    }
}

/// Decodes one pronunciation sub-section into its output slot.
fn parse_audio(
    context: &mut Context,
    list_item: &DefinitionListItem,
    template_node: &Node,
    parameters: &Vec<Parameter>,
    output: &mut Option<Vec<Flowing>>,
)
    requires
        dl_item_wf(*list_item, old(context).wiki_text@.len()),
        template_node.spec_start() <= template_node.spec_end() <= old(context).wiki_text@.len(),
        parameters_wf(parameters@, old(context).wiki_text@.len()),
    ensures
        ctx_keeps(*old(context), *final(context)),
        ({
            let (elems, w) = spec_parse_audio(
                old(context).wiki_text@,
                old(context).language,
                *list_item,
                *template_node,
                parameters@,
                *old(output) is Some,
            );
            final(context).warnings@ == old(context).warnings@ + w && *final(output) is Some
                && row_view((*final(output))->Some_0@) == elems
        }),
{
    proof {
        crate::list::lemma_push_concat_warning();
    }
    let ghost src0 = old(context).wiki_text@;
    let ghost lang0 = old(context).language;
    if output.is_some() {
        *output = Some(Vec::new());
        let start = template_node.start();
        let end = template_node.end();
        add_warning(context, start, end, WarningMessage::Duplicate);
        proof {
            assert(row_view(Seq::<Flowing>::empty()) =~= Seq::<FlowingV>::empty());
        }
        return ;
    }
    if parameters.len() > 0 {
        *output = Some(Vec::new());
        let start = template_node.start();
        let end = template_node.end();
        add_warning(context, start, end, WarningMessage::ValueUnrecognized);
        proof {
            assert(row_view(Seq::<Flowing>::empty()) =~= Seq::<FlowingV>::empty());
        }
        return ;
    }
    let nodes = list_item.nodes.as_slice();
    let mut out: Vec<Flowing> = Vec::new();
    let mut j: usize = 1;
    proof {
        assert(row_view(out@) =~= Seq::<FlowingV>::empty());
        assert(Seq::<FlowingV>::empty() + spec_audio_body(src0, lang0, nodes@, 1, false).0
            =~= spec_audio_body(src0, lang0, nodes@, 1, false).0);
    }
    while j < nodes.len()
        invariant
            1 <= j,
            j <= nodes@.len() || j == 1,
            nodes_wf(nodes@, src0.len()),
            ctx_keeps(*old(context), *context),
            context.wiki_text@ == src0,
            context.language == lang0,
            spec_audio_body(src0, lang0, nodes@, 1, false).0 == row_view(out@) + spec_audio_body(
                src0,
                lang0,
                nodes@,
                j as int,
                out@.len() > 0,
            ).0,
            old(context).warnings@ + spec_audio_body(src0, lang0, nodes@, 1, false).1
                == context.warnings@ + spec_audio_body(
                src0,
                lang0,
                nodes@,
                j as int,
                out@.len() > 0,
            ).1,
        decreases nodes@.len() - j,
    {
        let ghost w_pre = context.warnings@;
        let ghost out_pre = out@;
        let ghost have_pre = out@.len() > 0;
        let ghost s_step = spec_audio_step(src0, lang0, nodes@, j as int, have_pre);
        proof {
            assert(node_wf(nodes@[j as int], src0.len()));
            crate::list::lemma_push_concat_warning();
        }
        match &nodes[j] {
            Node::Template { name, parameters, .. } => {
                let f = match parse_text(name.as_slice()) {
                    Some(n) => {
                        let ns = n.as_str();
                        if str_eq(ns, "Audio") {
                            parse_template_audio(context, &nodes[j], parameters)
                        } else if str_eq(ns, "Gen.") {
                            parse_simple_template(context, &nodes[j], parameters, Flowing::Genitive)
                        } else if str_eq(ns, "Lautschrift") {
                            parse_template_ipa(context, &nodes[j], parameters)
                        } else if str_eq(ns, "Part.") {
                            parse_simple_template(
                                context,
                                &nodes[j],
                                parameters,
                                Flowing::PastParticiple,
                            )
                        } else if str_eq(ns, "Pl.") {
                            parse_simple_template(context, &nodes[j], parameters, Flowing::Plural)
                        } else if str_eq(ns, "Pl.1") {
                            parse_simple_template(context, &nodes[j], parameters, Flowing::Plural1)
                        } else if str_eq(ns, "Pl.2") {
                            parse_simple_template(context, &nodes[j], parameters, Flowing::Plural2)
                        } else if str_eq(ns, "Pl.3") {
                            parse_simple_template(context, &nodes[j], parameters, Flowing::Plural3)
                        } else if str_eq(ns, "Pl.4") {
                            parse_simple_template(context, &nodes[j], parameters, Flowing::Plural4)
                        } else if str_eq(ns, "Pr\u{e4}t.") {
                            parse_simple_template(
                                context,
                                &nodes[j],
                                parameters,
                                Flowing::Preterite,
                            )
                        } else if str_eq(ns, "Reim") {
                            parse_template_rhyme(context, &nodes[j], parameters)
                        } else {
                            create_unknown(context, &nodes[j], WarningMessage::Unrecognized)
                        }
                    },
                    None => create_unknown(context, &nodes[j], WarningMessage::Unrecognized),
                };
                out.push(f);
                proof {
                    lemma_one_audio(out_pre, f);
                    assert(row_view(out@) == row_view(out_pre) + s_step.0);
                    assert(context.warnings@ == w_pre + s_step.1);
                }
            },
            Node::Text { value, .. } => {
                if out.len() == 0 {
                    let t = trim_start(value.as_str());
                    if t.as_str().is_empty() {
                        proof {
                            assert(row_view(out@) =~= row_view(out_pre)
                                + Seq::<FlowingV>::empty());
                            assert(w_pre + Seq::<Warning>::empty() =~= w_pre);
                        }
                    } else {
                        let f = Flowing::Text { value: t };
                        out.push(f);
                        proof {
                            lemma_one_audio(out_pre, f);
                            assert(w_pre + Seq::<Warning>::empty() =~= w_pre);
                        }
                    }
                } else {
                    let f = Flowing::Text { value: value.clone() };
                    out.push(f);
                    proof {
                        lemma_one_audio(out_pre, f);
                        assert(w_pre + Seq::<Warning>::empty() =~= w_pre);
                    }
                }
            },
            _ => {
                let f = create_unknown(context, &nodes[j], WarningMessage::Unrecognized);
                out.push(f);
                proof {
                    lemma_one_audio(out_pre, f);
                }
            },
        }
        proof {
            crate::lemma_row_view_len(out@);
            crate::lemma_row_view_len(out_pre);
            let b1 = spec_audio_body(src0, lang0, nodes@, j as int, have_pre);
            let b2 = spec_audio_body(src0, lang0, nodes@, j as int + 1, have_pre || s_step.0.len()
                > 0);
            assert(b1.0 == s_step.0 + b2.0);
            assert(b1.1 == s_step.1 + b2.1);
            assert(out@.len() > 0 <==> (have_pre || s_step.0.len() > 0)) by {
                assert(row_view(out@).len() == out@.len());
                assert(row_view(out_pre).len() == out_pre.len());
            }
            assert((row_view(out_pre) + s_step.0) + b2.0 =~= row_view(out_pre) + (s_step.0
                + b2.0));
            assert((w_pre + s_step.1) + b2.1 =~= w_pre + (s_step.1 + b2.1));
        }
        j += 1;
    }
    proof {
        let b_end = spec_audio_body(src0, lang0, nodes@, nodes@.len() as int, out@.len() > 0);
        assert(b_end.0 =~= Seq::<FlowingV>::empty());
        assert(b_end.1 =~= Seq::<Warning>::empty());
        assert(row_view(out@) + Seq::<FlowingV>::empty() =~= row_view(out@));
        assert(context.warnings@ + Seq::<Warning>::empty() =~= context.warnings@);
        crate::lemma_row_view_len(out@);
    }
    if out.len() == 0 {
        let start = template_node.start();
        let end = template_node.end();
        add_warning(context, start, end, WarningMessage::SectionEmpty);
        proof {
            crate::list::lemma_push_concat_warning();
            let (elems, w) = spec_audio_body(src0, lang0, list_item.nodes@, 1, false);
            assert((old(context).warnings@ + w) + seq![
                warn(lang0, template_node.spec_start(), template_node.spec_end(), WarningMessage::SectionEmpty),
            ] =~= old(context).warnings@ + (w + seq![
                warn(lang0, template_node.spec_start(), template_node.spec_end(), WarningMessage::SectionEmpty),
            ]));
        }
    }
    *output = Some(out);
}

/// One pushed element extends the viewed row by its view.
proof fn lemma_one_audio(out_pre: Seq<Flowing>, f: Flowing)
    ensures
        row_view(out_pre.push(f)) == row_view(out_pre) + seq![flowing_view(f)],
{
    lemma_row_view_push(out_pre, f);
    assert(row_view(out_pre).push(flowing_view(f)) =~= row_view(out_pre) + seq![flowing_view(f)]);
}

/// The pronunciation value decoded from the section's items from `k` on,
/// threading the three sub-section slots.
pub open spec fn spec_pron_items(
    src: Seq<char>,
    lang: Option<Language>,
    items: Seq<DefinitionListItem>,
    k: int,
    audio: Option<Seq<FlowingV>>,
    ipa: Option<Seq<FlowingV>>,
    rhymes: Option<Seq<FlowingV>>,
) -> (PronunciationV, Seq<Warning>)
    decreases items.len() - k,
{
    if k < 0 || k >= items.len() {
        (
            PronunciationV {
                audio: match audio {
                    Some(a) => a,
                    None => Seq::empty(),
                },
                ipa: match ipa {
                    Some(a) => a,
                    None => Seq::empty(),
                },
                rhymes: match rhymes {
                    Some(a) => a,
                    None => Seq::empty(),
                },
            },
            Seq::empty(),
        )
    } else {
        let item = items[k];
        if item.type_ != DefinitionListItemType::Details {
            let (p, w) = spec_pron_items(src, lang, items, k + 1, audio, ipa, rhymes);
            (p, seq![warn(lang, item.start, item.end, WarningMessage::Unrecognized)] + w)
        } else if item.nodes@.len() == 0 {
            let (p, w) = spec_pron_items(src, lang, items, k + 1, audio, ipa, rhymes);
            (p, seq![warn(lang, item.start, item.end, WarningMessage::Empty)] + w)
        } else {
            let node = item.nodes@[0];
            match node {
                Node::Template { name, parameters, .. } => match spec_parse_text(name@) {
                    Some(n) => {
                        if n == "H\u{f6}rbeispiele"@ {
                            let (v, w1) = spec_parse_audio(
                                src,
                                lang,
                                item,
                                node,
                                parameters@,
                                audio is Some,
                            );
                            let (p, w) = spec_pron_items(
                                src,
                                lang,
                                items,
                                k + 1,
                                Some(v),
                                ipa,
                                rhymes,
                            );
                            (p, w1 + w)
                        } else if n == "IPA"@ {
                            let (v, w1) = spec_parse_audio(
                                src,
                                lang,
                                item,
                                node,
                                parameters@,
                                ipa is Some,
                            );
                            let (p, w) = spec_pron_items(
                                src,
                                lang,
                                items,
                                k + 1,
                                audio,
                                Some(v),
                                rhymes,
                            );
                            (p, w1 + w)
                        } else if n == "Reime"@ {
                            let (v, w1) = spec_parse_audio(
                                src,
                                lang,
                                item,
                                node,
                                parameters@,
                                rhymes is Some,
                            );
                            let (p, w) = spec_pron_items(
                                src,
                                lang,
                                items,
                                k + 1,
                                audio,
                                ipa,
                                Some(v),
                            );
                            (p, w1 + w)
                        } else {
                            let (p, w) = spec_pron_items(src, lang, items, k + 1, audio, ipa, rhymes);
                            (
                                p,
                                seq![
                                    warn(
                                        lang,
                                        node.spec_start(),
                                        node.spec_end(),
                                        WarningMessage::Unrecognized,
                                    ),
                                ] + w,
                            )
                        }
                    },
                    None => {
                        let (p, w) = spec_pron_items(src, lang, items, k + 1, audio, ipa, rhymes);
                        (
                            p,
                            seq![
                                warn(
                                    lang,
                                    node.spec_start(),
                                    node.spec_end(),
                                    WarningMessage::Unrecognized,
                                ),
                            ] + w,
                        )
                    },
                },
                _ => {
                    let (p, w) = spec_pron_items(src, lang, items, k + 1, audio, ipa, rhymes);
                    (
                        p,
                        seq![
                            warn(
                                lang,
                                node.spec_start(),
                                node.spec_end(),
                                WarningMessage::Unrecognized,
                            ),
                        ] + w,
                    )
                },
            }
        }
    }
}

/// The slot value, consumed count and warnings of the pronunciation section.
pub open spec fn spec_parse_pronunciation(
    src: Seq<char>,
    lang: Option<Language>,
    node: Node,
    params: Seq<Parameter>,
    nodes: Seq<Node>,
    from: int,
    filled: bool,
) -> (Option<PronunciationV>, usize, Seq<Warning>) {
    let (found, consumed, w0) = spec_list_section(
        lang,
        node.spec_start(),
        node.spec_end(),
        params.len() == 0,
        nodes,
        from,
        filled,
    );
    if found {
        let (p, w1) = spec_pron_items(
            src,
            lang,
            spec_list_body(nodes, from)->Some_0,
            0,
            None,
            None,
            None,
        );
        (Some(p), consumed, w1)
    } else {
        (Some(spec_pron_empty()), consumed, w0)
    }
}

/// Parses the pronunciation section following its marker into its output
/// slot.
pub fn parse_pronunciation(
    context: &mut Context,
    template_node: &Node,
    parameters: &Vec<Parameter>,
    nodes: &[Node],
    from: usize,
    output: &mut Option<Pronunciation>,
) -> (consumed: usize)
    requires
        template_node.spec_start() <= template_node.spec_end() <= old(context).wiki_text@.len(),
        nodes_wf(nodes@, old(context).wiki_text@.len()),
    ensures
        ctx_keeps(*old(context), *final(context)),
        ({
            let (slot, consumed_s, w) = spec_parse_pronunciation(
                old(context).wiki_text@,
                old(context).language,
                *template_node,
                parameters@,
                nodes@,
                from as int,
                *old(output) is Some,
            );
            consumed == consumed_s && final(context).warnings@ == old(context).warnings@ + w
                && *final(output) is Some && Some((*final(output))->Some_0@) == slot
        }),
{
    let ghost src0 = old(context).wiki_text@;
    let ghost lang0 = old(context).language;
    let filled = output.is_some();
    let start = template_node.start();
    let end = template_node.end();
    let (body, consumed) = parse_list_generic(context, start, end, parameters, nodes, from, filled);
    match body {
        Some(items) => {
            proof {
                assert(node_wf(nodes@[from as int], src0.len()));
                assert(context.warnings@ =~= old(context).warnings@);
            }
            let mut audio: Option<Vec<Flowing>> = None;
            let mut ipa: Option<Vec<Flowing>> = None;
            let mut rhymes: Option<Vec<Flowing>> = None;
            let mut k: usize = 0;
            while k < items.len()
                invariant
                    0 <= k <= items@.len(),
                    dl_items_wf(items@, src0.len()),
                    ctx_keeps(*old(context), *context),
                    context.wiki_text@ == src0,
                    context.language == lang0,
                    ({
                        let full = spec_pron_items(src0, lang0, items@, 0, None, None, None);
                        let now = spec_pron_items(
                            src0,
                            lang0,
                            items@,
                            k as int,
                            opt_row(audio),
                            opt_row(ipa),
                            opt_row(rhymes),
                        );
                        full.0 == now.0 && old(context).warnings@ + full.1 == context.warnings@
                            + now.1
                    }),
                decreases items@.len() - k,
            {
                let ghost w_pre = context.warnings@;
                proof {
                    assert(dl_item_wf(items@[k as int], src0.len()));
                    crate::list::lemma_push_concat_warning();
                }
                let item = &items[k];
                if !matches!(item.type_, DefinitionListItemType::Details) {
                    add_warning(context, item.start, item.end, WarningMessage::Unrecognized);
                    proof {
                        let nk = spec_pron_items(src0, lang0, items@, k as int, opt_row(audio), opt_row(ipa), opt_row(rhymes));
                        let n1 = spec_pron_items(src0, lang0, items@, k as int + 1, opt_row(audio), opt_row(ipa), opt_row(rhymes));
                        assert(nk.0 == n1.0);
                        assert((w_pre + seq![warn(lang0, items@[k as int].start, items@[k as int].end, WarningMessage::Unrecognized)]) + n1.1 =~= w_pre + nk.1);
                    }
                } else if item.nodes.len() == 0 {
                    add_warning(context, item.start, item.end, WarningMessage::Empty);
                    proof {
                        let nk = spec_pron_items(src0, lang0, items@, k as int, opt_row(audio), opt_row(ipa), opt_row(rhymes));
                        let n1 = spec_pron_items(src0, lang0, items@, k as int + 1, opt_row(audio), opt_row(ipa), opt_row(rhymes));
                        assert(nk.0 == n1.0);
                        assert((w_pre + seq![warn(lang0, items@[k as int].start, items@[k as int].end, WarningMessage::Empty)]) + n1.1 =~= w_pre + nk.1);
                    }
                } else {
                    proof {
                        assert(nodes_wf(item.nodes@, src0.len()));
                        assert(node_wf(item.nodes@[0], src0.len()));
                    }
                    let ghost audio_pre = opt_row(audio);
                    let ghost ipa_pre = opt_row(ipa);
                    let ghost rhymes_pre = opt_row(rhymes);
                    let mut handled = false;
                    match &item.nodes[0] {
                        Node::Template { name, parameters, .. } => {
                            match parse_text(name.as_slice()) {
                                Some(n) => {
                                    let ns = n.as_str();
                                    if str_eq(ns, "H\u{f6}rbeispiele") {
                                        parse_audio(context, item, &item.nodes[0], parameters, &mut audio);
                                        handled = true;
                                    } else if str_eq(ns, "IPA") {
                                        parse_audio(context, item, &item.nodes[0], parameters, &mut ipa);
                                        handled = true;
                                    } else if str_eq(ns, "Reime") {
                                        parse_audio(context, item, &item.nodes[0], parameters, &mut rhymes);
                                        handled = true;
                                    }
                                },
                                None => {},
                            }
                        },
                        _ => {},
                    }
                    if !handled {
                        let start = item.nodes[0].start();
                        let end = item.nodes[0].end();
                        add_warning(context, start, end, WarningMessage::Unrecognized);
                    }
                    proof {
                        let nk = spec_pron_items(
                            src0,
                            lang0,
                            items@,
                            k as int,
                            audio_pre,
                            ipa_pre,
                            rhymes_pre,
                        );
                        let n1 = spec_pron_items(
                            src0,
                            lang0,
                            items@,
                            k as int + 1,
                            opt_row(audio),
                            opt_row(ipa),
                            opt_row(rhymes),
                        );
                        assert(nk.0 == n1.0 && context.warnings@ + n1.1 =~= w_pre + nk.1);
                    }
                }
                k += 1;
            }
            let result = Pronunciation {
                audio: match audio {
                    Some(v) => v,
                    None => Vec::new(),
                },
                ipa: match ipa {
                    Some(v) => v,
                    None => Vec::new(),
                },
                rhymes: match rhymes {
                    Some(v) => v,
                    None => Vec::new(),
                },
            };
            proof {
                let full = spec_pron_items(src0, lang0, items@, 0, None, None, None);
                let fin = spec_pron_items(
                    src0,
                    lang0,
                    items@,
                    items@.len() as int,
                    opt_row(audio),
                    opt_row(ipa),
                    opt_row(rhymes),
                );
                assert(fin.1 =~= Seq::<Warning>::empty());
                assert(context.warnings@ + Seq::<Warning>::empty() =~= context.warnings@);
                assert(row_view(Seq::<Flowing>::empty()) =~= Seq::<FlowingV>::empty());
                assert(result@ =~= full.0);
                assert(old(context).warnings@ + Seq::<Warning>::empty() =~= old(
                    context,
                ).warnings@);
            }
            *output = Some(result);
            consumed
        },
        None => {
            let empty_pron = Pronunciation {
                audio: Vec::new(),
                ipa: Vec::new(),
                rhymes: Vec::new(),
            };
            proof {
                assert(row_view(Seq::<Flowing>::empty()) =~= Seq::<FlowingV>::empty());
                assert(empty_pron@ =~= spec_pron_empty());
            }
            *output = Some(empty_pron);
            consumed
        },
    }
}

/// The viewed contents of an optional element vector.
pub open spec fn opt_row(o: Option<Vec<Flowing>>) -> Option<Seq<FlowingV>> {
    match o {
        Some(v) => Some(row_view(v@)),
        None => None,
    }
}

} // verus!
