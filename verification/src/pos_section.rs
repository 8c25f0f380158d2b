//! The section-body dispatcher for one part-of-speech entry: a linear scan
//! over the body nodes that recognizes the closed set of section markers,
//! hands each to its section parser, and folds the results plus
//! defaulted-empty fields into one entry.

use vstd::prelude::*;

use crate::examples::{parse_examples, spec_parse_examples};
use crate::languages::Language;
use crate::list::{parse_list, spec_parse_list};
use crate::node::{node_wf, nodes_wf, Node};
use crate::overview::{parse_overview, spec_parse_overview};
use crate::pronunciation::{
    parse_pronunciation, spec_parse_pronunciation, spec_pron_empty, Pronunciation, PronunciationV,
};
use crate::util::{
    add_warning, ctx_keeps, parse_text, spec_list_body, spec_parse_text, spec_text_equals,
    str_eq, text_equals, warn, Context,
};
use crate::{
    examples_view, lemma_pos_entries_view_push, pairs_view, pos_entries_view, row_view, rows_view,
    Example, ExampleV, Flowing, FlowingV, Overview, OverviewV, Pos, PosEntry, PosEntryV, Warning,
    WarningMessage,
};

verus! {

/// What a dispatcher step decides: go on past what it consumed, stop at a
/// heading that belongs to an outer level, or abandon the whole body.
pub enum SectionFlow {
    /// Go on at the returned index.
    Advance,
    /// Stop; the node at the current index belongs to the caller.
    Stop,
    /// Abandon the body; nothing more is consumed and no entry is made.
    Abort,
}

/// The mutable state of one body scan: one slot per section, each `None`
/// until its marker was seen, and whether a translations heading was seen.
#[verifier::ext_equal]
pub struct SectionStateV {
    /// The `abbreviations` slot.
    pub abbreviations: Option<Seq<Seq<FlowingV>>>,
    /// The `affectionate_forms` slot.
    pub affectionate_forms: Option<Seq<Seq<FlowingV>>>,
    /// The `antonyms` slot.
    pub antonyms: Option<Seq<Seq<FlowingV>>>,
    /// The `compound_words` slot.
    pub compound_words: Option<Seq<Seq<FlowingV>>>,
    /// The `definitions` slot.
    pub definitions: Option<Seq<Seq<FlowingV>>>,
    /// The `diminutives` slot.
    pub diminutives: Option<Seq<Seq<FlowingV>>>,
    /// The `etymology` slot.
    pub etymology: Option<Seq<Seq<FlowingV>>>,
    /// The `examples` slot.
    pub examples: Option<Seq<ExampleV>>,
    /// The `feminine_forms` slot.
    pub feminine_forms: Option<Seq<Seq<FlowingV>>>,
    /// The `hypernyms` slot.
    pub hypernyms: Option<Seq<Seq<FlowingV>>>,
    /// The `hyphenation` slot.
    pub hyphenation: Option<Seq<Seq<FlowingV>>>,
    /// The `hyponyms` slot.
    pub hyponyms: Option<Seq<Seq<FlowingV>>>,
    /// The `idioms` slot.
    pub idioms: Option<Seq<Seq<FlowingV>>>,
    /// The `masculine_forms` slot.
    pub masculine_forms: Option<Seq<Seq<FlowingV>>>,
    /// The `no_longer_valid_spellings` slot.
    pub no_longer_valid_spellings: Option<Seq<Seq<FlowingV>>>,
    /// The `overview` slot.
    pub overview: Option<Option<OverviewV>>,
    /// The `pronunciation` slot.
    pub pronunciation: Option<PronunciationV>,
    /// The `proverbs` slot.
    pub proverbs: Option<Seq<Seq<FlowingV>>>,
    /// The `related_words` slot.
    pub related_words: Option<Seq<Seq<FlowingV>>>,
    /// The `short_forms` slot.
    pub short_forms: Option<Seq<Seq<FlowingV>>>,
    /// The `similar_words` slot.
    pub similar_words: Option<Seq<Seq<FlowingV>>>,
    /// The `symbols` slot.
    pub symbols: Option<Seq<Seq<FlowingV>>>,
    /// The `synonyms` slot.
    pub synonyms: Option<Seq<Seq<FlowingV>>>,
    /// The `translations` slot.
    pub translations: bool,
    /// The `typical_word_combinations` slot.
    pub typical_word_combinations: Option<Seq<Seq<FlowingV>>>,
    /// The `variants` slot.
    pub variants: Option<Seq<Seq<FlowingV>>>,
}

/// The state before any node was seen.
pub open spec fn init_section_state() -> SectionStateV {
    SectionStateV {
        abbreviations: None,
        affectionate_forms: None,
        antonyms: None,
        compound_words: None,
        definitions: None,
        diminutives: None,
        etymology: None,
        examples: None,
        feminine_forms: None,
        hypernyms: None,
        hyphenation: None,
        hyponyms: None,
        idioms: None,
        masculine_forms: None,
        no_longer_valid_spellings: None,
        overview: None,
        pronunciation: None,
        proverbs: None,
        related_words: None,
        short_forms: None,
        similar_words: None,
        symbols: None,
        synonyms: None,
        translations: false,
        typical_word_combinations: None,
        variants: None,
    }
}

/// The viewed contents of an optional row-list slot.
pub open spec fn opt_rows(o: Option<Vec<Vec<Flowing>>>) -> Option<Seq<Seq<FlowingV>>> {
    match o {
        Some(v) => Some(rows_view(v@)),
        None => None,
    }
}

/// The viewed contents of an optional example slot.
pub open spec fn opt_examples(o: Option<Vec<Example>>) -> Option<Seq<ExampleV>> {
    match o {
        Some(v) => Some(examples_view(v@)),
        None => None,
    }
}

/// The viewed contents of the overview slot.
pub open spec fn opt_overview(o: Option<Option<Overview>>) -> Option<Option<OverviewV>> {
    match o {
        Some(Some(ov)) => Some(Some(ov@)),
        Some(None) => Some(None),
        None => None,
    }
}

/// The viewed contents of the pronunciation slot.
pub open spec fn opt_pron(o: Option<Pronunciation>) -> Option<PronunciationV> {
    match o {
        Some(p) => Some(p@),
        None => None,
    }
}

/// One step of the body scan on a heading node.
pub open spec fn spec_step_heading(
    src: Seq<char>,
    lang: Option<Language>,
    nodes: Seq<Node>,
    i: int,
    st: SectionStateV,
) -> (SectionStateV, int, Seq<Warning>, SectionFlow) {
    if i < 0 || i >= nodes.len() {
        (st, i, Seq::empty(), SectionFlow::Stop)
    } else {
        let node = nodes[i];
        match node {
            Node::Heading { level, nodes: children, .. } => {
                if level < 4 {
                    (st, i, Seq::empty(), SectionFlow::Stop)
                } else if level == 4 && children@.len() == 1 && children@[0] is Template
                    && spec_text_equals(
                    children@[0]->Template_name@,
                    "\u{dc}bersetzungen"@,
                ) {
                    if st.translations {
                        (
                            st,
                            i + 1,
                            seq![
                                warn(
                                    lang,
                                    node.spec_start(),
                                    node.spec_end(),
                                    WarningMessage::Duplicate,
                                ),
                            ],
                            SectionFlow::Abort,
                        )
                    } else {
                        let st1 = SectionStateV { translations: true, ..st };
                        if children@[0]->Template_parameters@.len() > 0 {
                            (
                                st1,
                                i + 1,
                                seq![
                                    warn(
                                        lang,
                                        node.spec_start(),
                                        node.spec_end(),
                                        WarningMessage::ValueUnrecognized,
                                    ),
                                ],
                                SectionFlow::Advance,
                            )
                        } else if i + 1 < nodes.len() && nodes[i + 1] is Template
                            && spec_parse_text(nodes[i + 1]->Template_name@) == Some(
                            "\u{dc}-Tabelle"@,
                        ) {
                            (
                                st1,
                                i + 2,
                                seq![
                                    warn(
                                        lang,
                                        nodes[i + 1].spec_start(),
                                        nodes[i + 1].spec_end(),
                                        WarningMessage::Supplementary,
                                    ),
                                ],
                                SectionFlow::Advance,
                            )
                        } else {
                            (
                                st1,
                                i + 1,
                                seq![
                                    warn(
                                        lang,
                                        node.spec_start(),
                                        node.spec_end(),
                                        WarningMessage::SectionEmpty,
                                    ),
                                ],
                                SectionFlow::Advance,
                            )
                        }
                    }
                } else {
                    (
                        st,
                        i + 1,
                        seq![
                            warn(
                                lang,
                                node.spec_start(),
                                node.spec_end(),
                                WarningMessage::Unrecognized,
                            ),
                        ],
                        SectionFlow::Advance,
                    )
                }
            },
            _ => (st, i, Seq::empty(), SectionFlow::Stop),
        }
    }
}

/// One step of the body scan on a section-marker template node.
pub open spec fn spec_step_template(
    src: Seq<char>,
    lang: Option<Language>,
    nodes: Seq<Node>,
    i: int,
    st: SectionStateV,
) -> (SectionStateV, int, Seq<Warning>, SectionFlow) {
    if i < 0 || i >= nodes.len() {
        (st, i, Seq::empty(), SectionFlow::Stop)
    } else {
        let node = nodes[i];
        match node {
            Node::Template { name, parameters, .. } => match spec_parse_text(name@) {
                None => (
                    st,
                    i + 1,
                    seq![
                        warn(
                            lang,
                            node.spec_start(),
                            node.spec_end(),
                            WarningMessage::Unrecognized,
                        ),
                    ],
                    SectionFlow::Advance,
                ),
                Some(n) => {
                    if n == "Abk\u{fc}rzungen"@ {
                        let (slot, c, w) = spec_parse_list(
                            src,
                            lang,
                            node,
                            parameters@,
                            nodes,
                            i + 1,
                            st.abbreviations is Some,
                        );
                        (
                            SectionStateV { abbreviations: slot, ..st },
                            i + 1 + c,
                            w,
                            SectionFlow::Advance,
                        )
                    } else if n == "Bedeutungen"@ {
                        let (slot, c, w) = spec_parse_list(
                            src,
                            lang,
                            node,
                            parameters@,
                            nodes,
                            i + 1,
                            st.definitions is Some,
                        );
                        (
                            SectionStateV { definitions: slot, ..st },
                            i + 1 + c,
                            w,
                            SectionFlow::Advance,
                        )
                    } else if n == "Charakteristische Wortkombinationen"@ {
                        let (slot, c, w) = spec_parse_list(
                            src,
                            lang,
                            node,
                            parameters@,
                            nodes,
                            i + 1,
                            st.typical_word_combinations is Some,
                        );
                        (
                            SectionStateV { typical_word_combinations: slot, ..st },
                            i + 1 + c,
                            w,
                            SectionFlow::Advance,
                        )
                    } else if n == "Gegenw\u{f6}rter"@ {
                        let (slot, c, w) = spec_parse_list(
                            src,
                            lang,
                            node,
                            parameters@,
                            nodes,
                            i + 1,
                            st.antonyms is Some,
                        );
                        (
                            SectionStateV { antonyms: slot, ..st },
                            i + 1 + c,
                            w,
                            SectionFlow::Advance,
                        )
                    } else if n == "Herkunft"@ {
                        let (slot, c, w) = spec_parse_list(
                            src,
                            lang,
                            node,
                            parameters@,
                            nodes,
                            i + 1,
                            st.etymology is Some,
                        );
                        (
                            SectionStateV { etymology: slot, ..st },
                            i + 1 + c,
                            w,
                            SectionFlow::Advance,
                        )
                    } else if n == "Koseformen"@ {
                        let (slot, c, w) = spec_parse_list(
                            src,
                            lang,
                            node,
                            parameters@,
                            nodes,
                            i + 1,
                            st.affectionate_forms is Some,
                        );
                        (
                            SectionStateV { affectionate_forms: slot, ..st },
                            i + 1 + c,
                            w,
                            SectionFlow::Advance,
                        )
                    } else if n == "Kurzformen"@ {
                        let (slot, c, w) = spec_parse_list(
                            src,
                            lang,
                            node,
                            parameters@,
                            nodes,
                            i + 1,
                            st.short_forms is Some,
                        );
                        (
                            SectionStateV { short_forms: slot, ..st },
                            i + 1 + c,
                            w,
                            SectionFlow::Advance,
                        )
                    } else if n == "M\u{e4}nnliche Wortformen"@ {
                        let (slot, c, w) = spec_parse_list(
                            src,
                            lang,
                            node,
                            parameters@,
                            nodes,
                            i + 1,
                            st.masculine_forms is Some,
                        );
                        (
                            SectionStateV { masculine_forms: slot, ..st },
                            i + 1 + c,
                            w,
                            SectionFlow::Advance,
                        )
                    } else if n == "Nebenformen"@ {
                        let (slot, c, w) = spec_parse_list(
                            src,
                            lang,
                            node,
                            parameters@,
                            nodes,
                            i + 1,
                            st.variants is Some,
                        );
                        (
                            SectionStateV { variants: slot, ..st },
                            i + 1 + c,
                            w,
                            SectionFlow::Advance,
                        )
                    } else if n == "Nicht mehr g\u{fc}ltige Schreibweisen"@ {
                        let (slot, c, w) = spec_parse_list(
                            src,
                            lang,
                            node,
                            parameters@,
                            nodes,
                            i + 1,
                            st.no_longer_valid_spellings is Some,
                        );
                        (
                            SectionStateV { no_longer_valid_spellings: slot, ..st },
                            i + 1 + c,
                            w,
                            SectionFlow::Advance,
                        )
                    } else if n == "Oberbegriffe"@ {
                        let (slot, c, w) = spec_parse_list(
                            src,
                            lang,
                            node,
                            parameters@,
                            nodes,
                            i + 1,
                            st.hypernyms is Some,
                        );
                        (
                            SectionStateV { hypernyms: slot, ..st },
                            i + 1 + c,
                            w,
                            SectionFlow::Advance,
                        )
                    } else if n == "Redewendungen"@ {
                        let (slot, c, w) = spec_parse_list(
                            src,
                            lang,
                            node,
                            parameters@,
                            nodes,
                            i + 1,
                            st.idioms is Some,
                        );
                        (
                            SectionStateV { idioms: slot, ..st },
                            i + 1 + c,
                            w,
                            SectionFlow::Advance,
                        )
                    } else if n == "Sinnverwandte W\u{f6}rter"@ {
                        let (slot, c, w) = spec_parse_list(
                            src,
                            lang,
                            node,
                            parameters@,
                            nodes,
                            i + 1,
                            st.related_words is Some,
                        );
                        (
                            SectionStateV { related_words: slot, ..st },
                            i + 1 + c,
                            w,
                            SectionFlow::Advance,
                        )
                    } else if n == "Sprichw\u{f6}rter"@ {
                        let (slot, c, w) = spec_parse_list(
                            src,
                            lang,
                            node,
                            parameters@,
                            nodes,
                            i + 1,
                            st.proverbs is Some,
                        );
                        (
                            SectionStateV { proverbs: slot, ..st },
                            i + 1 + c,
                            w,
                            SectionFlow::Advance,
                        )
                    } else if n == "Symbole"@ {
                        let (slot, c, w) = spec_parse_list(
                            src,
                            lang,
                            node,
                            parameters@,
                            nodes,
                            i + 1,
                            st.symbols is Some,
                        );
                        (
                            SectionStateV { symbols: slot, ..st },
                            i + 1 + c,
                            w,
                            SectionFlow::Advance,
                        )
                    } else if n == "Synonyme"@ {
                        let (slot, c, w) = spec_parse_list(
                            src,
                            lang,
                            node,
                            parameters@,
                            nodes,
                            i + 1,
                            st.synonyms is Some,
                        );
                        (
                            SectionStateV { synonyms: slot, ..st },
                            i + 1 + c,
                            w,
                            SectionFlow::Advance,
                        )
                    } else if n == "Unterbegriffe"@ {
                        let (slot, c, w) = spec_parse_list(
                            src,
                            lang,
                            node,
                            parameters@,
                            nodes,
                            i + 1,
                            st.hyponyms is Some,
                        );
                        (
                            SectionStateV { hyponyms: slot, ..st },
                            i + 1 + c,
                            w,
                            SectionFlow::Advance,
                        )
                    } else if n == "Verkleinerungsformen"@ {
                        let (slot, c, w) = spec_parse_list(
                            src,
                            lang,
                            node,
                            parameters@,
                            nodes,
                            i + 1,
                            st.diminutives is Some,
                        );
                        (
                            SectionStateV { diminutives: slot, ..st },
                            i + 1 + c,
                            w,
                            SectionFlow::Advance,
                        )
                    } else if n == "Weibliche Wortformen"@ {
                        let (slot, c, w) = spec_parse_list(
                            src,
                            lang,
                            node,
                            parameters@,
                            nodes,
                            i + 1,
                            st.feminine_forms is Some,
                        );
                        (
                            SectionStateV { feminine_forms: slot, ..st },
                            i + 1 + c,
                            w,
                            SectionFlow::Advance,
                        )
                    } else if n == "Wortbildungen"@ {
                        let (slot, c, w) = spec_parse_list(
                            src,
                            lang,
                            node,
                            parameters@,
                            nodes,
                            i + 1,
                            st.compound_words is Some,
                        );
                        (
                            SectionStateV { compound_words: slot, ..st },
                            i + 1 + c,
                            w,
                            SectionFlow::Advance,
                        )
                    } else if n == "Worttrennung"@ {
                        let (slot, c, w) = spec_parse_list(
                            src,
                            lang,
                            node,
                            parameters@,
                            nodes,
                            i + 1,
                            st.hyphenation is Some,
                        );
                        (
                            SectionStateV { hyphenation: slot, ..st },
                            i + 1 + c,
                            w,
                            SectionFlow::Advance,
                        )
                    } else if n == "\u{c4}hnlichkeiten"@ {
                        let (slot, c, w) = spec_parse_list(
                            src,
                            lang,
                            node,
                            parameters@,
                            nodes,
                            i + 1,
                            st.similar_words is Some,
                        );
                        (
                            SectionStateV { similar_words: slot, ..st },
                            i + 1 + c,
                            w,
                            SectionFlow::Advance,
                        )
                    } else if n == "Abschnitte fehlen"@ || n == "Quellen"@ || n
                        == "Referenzen pr\u{fc}fen"@ || n == "\u{c4}hnlichkeiten 1"@ || n
                        == "\u{c4}hnlichkeiten 2"@ {
                        (
                            st,
                            i + 1,
                            seq![
                                warn(
                                    lang,
                                    node.spec_start(),
                                    node.spec_end(),
                                    WarningMessage::Supplementary,
                                ),
                            ],
                            SectionFlow::Advance,
                        )
                    } else if n == "Aussprache"@ {
                        let (slot, c, w) = spec_parse_pronunciation(
                            src,
                            lang,
                            node,
                            parameters@,
                            nodes,
                            i + 1,
                            st.pronunciation is Some,
                        );
                        (
                            SectionStateV { pronunciation: slot, ..st },
                            i + 1 + c,
                            w,
                            SectionFlow::Advance,
                        )
                    } else if n == "Beispiele"@ {
                        let (slot, c, w) = spec_parse_examples(
                            src,
                            lang,
                            node,
                            parameters@,
                            nodes,
                            i + 1,
                            st.examples is Some,
                        );
                        (
                            SectionStateV { examples: slot, ..st },
                            i + 1 + c,
                            w,
                            SectionFlow::Advance,
                        )
                    } else if n == "Referenzen"@ {
                        if spec_list_body(nodes, i + 1) is Some {
                            (
                                st,
                                i + 2,
                                seq![
                                    warn(
                                        lang,
                                        nodes[i + 1].spec_start(),
                                        nodes[i + 1].spec_end(),
                                        WarningMessage::Supplementary,
                                    ),
                                ],
                                SectionFlow::Advance,
                            )
                        } else {
                            (
                                st,
                                i + 1,
                                seq![
                                    warn(
                                        lang,
                                        node.spec_start(),
                                        node.spec_end(),
                                        WarningMessage::SectionEmpty,
                                    ),
                                ],
                                SectionFlow::Advance,
                            )
                        }
                    } else {
                        let (rec, slot, w) = spec_parse_overview(
                            src,
                            lang->Some_0,
                            node,
                            n,
                            parameters@,
                            st.overview is Some,
                        );
                        if rec {
                            (
                                SectionStateV { overview: slot, ..st },
                                i + 2,
                                w,
                                SectionFlow::Advance,
                            )
                        } else {
                            (
                                st,
                                i + 1,
                                seq![
                                    warn(
                                        lang,
                                        node.spec_start(),
                                        node.spec_end(),
                                        WarningMessage::Unrecognized,
                                    ),
                                ],
                                SectionFlow::Advance,
                            )
                        }
                    }
                },
            },
            _ => (st, i, Seq::empty(), SectionFlow::Stop),
        }
    }
}

/// One step of the body scan at node `i`.
pub open spec fn spec_pos_section_step(
    src: Seq<char>,
    lang: Option<Language>,
    nodes: Seq<Node>,
    i: int,
    st: SectionStateV,
) -> (SectionStateV, int, Seq<Warning>, SectionFlow) {
    if i < 0 || i >= nodes.len() {
        (st, i, Seq::empty(), SectionFlow::Stop)
    } else {
        let node = nodes[i];
        match node {
            Node::Heading { .. } => spec_step_heading(src, lang, nodes, i, st),
            Node::Template { .. } => spec_step_template(src, lang, nodes, i, st),
            _ => (
                st,
                i + 1,
                seq![
                    warn(lang, node.spec_start(), node.spec_end(), WarningMessage::Unrecognized),
                ],
                SectionFlow::Advance,
            ),
        }
    }
}

/// The body scan from index `i` on: the final state, the index where the
/// scan stopped, the warnings, and whether the body was abandoned.
#[verifier::rlimit(100)]
pub open spec fn spec_pos_section_scan(
    src: Seq<char>,
    lang: Option<Language>,
    nodes: Seq<Node>,
    i: int,
    st: SectionStateV,
) -> (SectionStateV, int, Seq<Warning>, bool)
    decreases nodes.len() - i,
{
    if i < 0 || i >= nodes.len() {
        (st, i, Seq::empty(), false)
    } else {
        let (st1, i1, w1, flow) = spec_pos_section_step(src, lang, nodes, i, st);
        match flow {
            SectionFlow::Stop => (st1, i, w1, false),
            SectionFlow::Abort => (st1, i1, w1, true),
            SectionFlow::Advance => if i1 <= i || i1 > nodes.len() {
                (st1, i1, w1, false)
            } else {
                let (st2, i2, w2, ab) = spec_pos_section_scan(src, lang, nodes, i1, st1);
                (st2, i2, w1 + w2, ab)
            },
        }
    }
}

/// The rows of a filled slot, or the empty value.
pub open spec fn or_empty_rows(o: Option<Seq<Seq<FlowingV>>>) -> Seq<Seq<FlowingV>> {
    match o {
        Some(v) => v,
        None => Seq::empty(),
    }
}

/// The examples of a filled slot, or the empty value.
pub open spec fn or_empty_examples(o: Option<Seq<ExampleV>>) -> Seq<ExampleV> {
    match o {
        Some(v) => v,
        None => Seq::empty(),
    }
}

/// The pronunciation of a filled slot, or the empty value.
pub open spec fn or_empty_pron(o: Option<PronunciationV>) -> PronunciationV {
    match o {
        Some(v) => v,
        None => spec_pron_empty(),
    }
}

/// The entry folded from a final scan state: every unseen section becomes
/// the empty value.
pub open spec fn spec_entry_of(st: SectionStateV, pos: Pos, details: Seq<FlowingV>) -> PosEntryV {
    PosEntryV {
        abbreviations: or_empty_rows(st.abbreviations),
        affectionate_forms: or_empty_rows(st.affectionate_forms),
        antonyms: or_empty_rows(st.antonyms),
        compound_words: or_empty_rows(st.compound_words),
        definitions: or_empty_rows(st.definitions),
        diminutives: or_empty_rows(st.diminutives),
        etymology: or_empty_rows(st.etymology),
        feminine_forms: or_empty_rows(st.feminine_forms),
        hypernyms: or_empty_rows(st.hypernyms),
        hyphenation: or_empty_rows(st.hyphenation),
        hyponyms: or_empty_rows(st.hyponyms),
        idioms: or_empty_rows(st.idioms),
        masculine_forms: or_empty_rows(st.masculine_forms),
        no_longer_valid_spellings: or_empty_rows(st.no_longer_valid_spellings),
        proverbs: or_empty_rows(st.proverbs),
        related_words: or_empty_rows(st.related_words),
        short_forms: or_empty_rows(st.short_forms),
        similar_words: or_empty_rows(st.similar_words),
        symbols: or_empty_rows(st.symbols),
        synonyms: or_empty_rows(st.synonyms),
        typical_word_combinations: or_empty_rows(st.typical_word_combinations),
        variants: or_empty_rows(st.variants),
        audio: or_empty_pron(st.pronunciation).audio,
        details: details,
        examples: or_empty_examples(st.examples),
        ipa: or_empty_pron(st.pronunciation).ipa,
        overview: match st.overview {
            Some(Some(ov)) => Some(ov),
            _ => None,
        },
        pos: pos,
        rhymes: or_empty_pron(st.pronunciation).rhymes,
    }
}

/// The consumed count, warnings and produced entry of one part-of-speech
/// body: no entry is produced and nothing counts as consumed when the body
/// was abandoned on a duplicate translations heading.
pub open spec fn spec_parse_pos_section(
    src: Seq<char>,
    lang: Option<Language>,
    nodes: Seq<Node>,
    from: int,
    pos: Pos,
    details: Seq<FlowingV>,
) -> (int, Seq<Warning>, Option<PosEntryV>) {
    let (stf, i2, w, ab) = spec_pos_section_scan(src, lang, nodes, from, init_section_state());
    if ab {
        (0, w, None)
    } else {
        (i2 - from, w, Some(spec_entry_of(stf, pos, details)))
    }
}

/// The slots of one body scan, as the dispatcher fills them.
pub struct SectionState {
    /// The `abbreviations` slot.
    pub abbreviations: Option<Vec<Vec<Flowing>>>,
    /// The `affectionate_forms` slot.
    pub affectionate_forms: Option<Vec<Vec<Flowing>>>,
    /// The `antonyms` slot.
    pub antonyms: Option<Vec<Vec<Flowing>>>,
    /// The `compound_words` slot.
    pub compound_words: Option<Vec<Vec<Flowing>>>,
    /// The `definitions` slot.
    pub definitions: Option<Vec<Vec<Flowing>>>,
    /// The `diminutives` slot.
    pub diminutives: Option<Vec<Vec<Flowing>>>,
    /// The `etymology` slot.
    pub etymology: Option<Vec<Vec<Flowing>>>,
    /// The `examples` slot.
    pub examples: Option<Vec<Example>>,
    /// The `feminine_forms` slot.
    pub feminine_forms: Option<Vec<Vec<Flowing>>>,
    /// The `hypernyms` slot.
    pub hypernyms: Option<Vec<Vec<Flowing>>>,
    /// The `hyphenation` slot.
    pub hyphenation: Option<Vec<Vec<Flowing>>>,
    /// The `hyponyms` slot.
    pub hyponyms: Option<Vec<Vec<Flowing>>>,
    /// The `idioms` slot.
    pub idioms: Option<Vec<Vec<Flowing>>>,
    /// The `masculine_forms` slot.
    pub masculine_forms: Option<Vec<Vec<Flowing>>>,
    /// The `no_longer_valid_spellings` slot.
    pub no_longer_valid_spellings: Option<Vec<Vec<Flowing>>>,
    /// The `overview` slot.
    pub overview: Option<Option<Overview>>,
    /// The `pronunciation` slot.
    pub pronunciation: Option<Pronunciation>,
    /// The `proverbs` slot.
    pub proverbs: Option<Vec<Vec<Flowing>>>,
    /// The `related_words` slot.
    pub related_words: Option<Vec<Vec<Flowing>>>,
    /// The `short_forms` slot.
    pub short_forms: Option<Vec<Vec<Flowing>>>,
    /// The `similar_words` slot.
    pub similar_words: Option<Vec<Vec<Flowing>>>,
    /// The `symbols` slot.
    pub symbols: Option<Vec<Vec<Flowing>>>,
    /// The `synonyms` slot.
    pub synonyms: Option<Vec<Vec<Flowing>>>,
    /// The `translations` slot.
    pub translations: bool,
    /// The `typical_word_combinations` slot.
    pub typical_word_combinations: Option<Vec<Vec<Flowing>>>,
    /// The `variants` slot.
    pub variants: Option<Vec<Vec<Flowing>>>,
}

/// The viewed scan state.
pub open spec fn state_view(s: SectionState) -> SectionStateV {
    SectionStateV {
        abbreviations: opt_rows(s.abbreviations),
        affectionate_forms: opt_rows(s.affectionate_forms),
        antonyms: opt_rows(s.antonyms),
        compound_words: opt_rows(s.compound_words),
        definitions: opt_rows(s.definitions),
        diminutives: opt_rows(s.diminutives),
        etymology: opt_rows(s.etymology),
        examples: opt_examples(s.examples),
        feminine_forms: opt_rows(s.feminine_forms),
        hypernyms: opt_rows(s.hypernyms),
        hyphenation: opt_rows(s.hyphenation),
        hyponyms: opt_rows(s.hyponyms),
        idioms: opt_rows(s.idioms),
        masculine_forms: opt_rows(s.masculine_forms),
        no_longer_valid_spellings: opt_rows(s.no_longer_valid_spellings),
        overview: opt_overview(s.overview),
        pronunciation: opt_pron(s.pronunciation),
        proverbs: opt_rows(s.proverbs),
        related_words: opt_rows(s.related_words),
        short_forms: opt_rows(s.short_forms),
        similar_words: opt_rows(s.similar_words),
        symbols: opt_rows(s.symbols),
        synonyms: opt_rows(s.synonyms),
        translations: s.translations,
        typical_word_combinations: opt_rows(s.typical_word_combinations),
        variants: opt_rows(s.variants),
    }
}

/// One dispatcher step on a section-marker template node.
#[verifier::rlimit(100)]
fn pos_step_template(context: &mut Context, nodes: &[Node], i: usize, st: &mut SectionState) -> (r:
    (usize, SectionFlow))
    requires
        old(context).language is Some,
        nodes_wf(nodes@, old(context).wiki_text@.len()),
        i < nodes@.len(),
        nodes@.len() < usize::MAX,
        nodes@[i as int] is Template,
    ensures
        ctx_keeps(*old(context), *final(context)),
        ({
            let (st1, i1, w1, flow) = spec_pos_section_step(
                old(context).wiki_text@,
                old(context).language,
                nodes@,
                i as int,
                state_view(*old(st)),
            );
            &&& state_view(*final(st)) == st1
            &&& final(context).warnings@ == old(context).warnings@ + w1
            &&& r.1 == flow
            &&& r.0 as int == i1
            &&& (flow is Advance ==> i < i1 <= nodes@.len() + 1)
        }),
{
    proof {
        crate::list::lemma_push_concat_warning();
        assert(node_wf(nodes@[i as int], old(context).wiki_text@.len()));
    }
    match &nodes[i] {
        Node::Template { name, parameters, .. } => {
            match parse_text(name.as_slice()) {
                None => {
                    let start = nodes[i].start();
                    let end = nodes[i].end();
                    add_warning(context, start, end, WarningMessage::Unrecognized);
                    (i + 1, SectionFlow::Advance)
                },
                Some(n) => {
                    let ns = n.as_str();
                    if str_eq(ns, "Abk\u{fc}rzungen") {
                        let consumed = parse_list(
                            context,
                            &nodes[i],
                            parameters,
                            nodes,
                            i + 1,
                            &mut st.abbreviations,
                        );
                        (i + 1 + consumed, SectionFlow::Advance)
                    } else if str_eq(ns, "Bedeutungen") {
                        let consumed = parse_list(
                            context,
                            &nodes[i],
                            parameters,
                            nodes,
                            i + 1,
                            &mut st.definitions,
                        );
                        (i + 1 + consumed, SectionFlow::Advance)
                    } else if str_eq(ns, "Charakteristische Wortkombinationen") {
                        let consumed = parse_list(
                            context,
                            &nodes[i],
                            parameters,
                            nodes,
                            i + 1,
                            &mut st.typical_word_combinations,
                        );
                        (i + 1 + consumed, SectionFlow::Advance)
                    } else if str_eq(ns, "Gegenw\u{f6}rter") {
                        let consumed = parse_list(
                            context,
                            &nodes[i],
                            parameters,
                            nodes,
                            i + 1,
                            &mut st.antonyms,
                        );
                        (i + 1 + consumed, SectionFlow::Advance)
                    } else if str_eq(ns, "Herkunft") {
                        let consumed = parse_list(
                            context,
                            &nodes[i],
                            parameters,
                            nodes,
                            i + 1,
                            &mut st.etymology,
                        );
                        (i + 1 + consumed, SectionFlow::Advance)
                    } else if str_eq(ns, "Koseformen") {
                        let consumed = parse_list(
                            context,
                            &nodes[i],
                            parameters,
                            nodes,
                            i + 1,
                            &mut st.affectionate_forms,
                        );
                        (i + 1 + consumed, SectionFlow::Advance)
                    } else if str_eq(ns, "Kurzformen") {
                        let consumed = parse_list(
                            context,
                            &nodes[i],
                            parameters,
                            nodes,
                            i + 1,
                            &mut st.short_forms,
                        );
                        (i + 1 + consumed, SectionFlow::Advance)
                    } else if str_eq(ns, "M\u{e4}nnliche Wortformen") {
                        let consumed = parse_list(
                            context,
                            &nodes[i],
                            parameters,
                            nodes,
                            i + 1,
                            &mut st.masculine_forms,
                        );
                        (i + 1 + consumed, SectionFlow::Advance)
                    } else if str_eq(ns, "Nebenformen") {
                        let consumed = parse_list(
                            context,
                            &nodes[i],
                            parameters,
                            nodes,
                            i + 1,
                            &mut st.variants,
                        );
                        (i + 1 + consumed, SectionFlow::Advance)
                    } else if str_eq(ns, "Nicht mehr g\u{fc}ltige Schreibweisen") {
                        let consumed = parse_list(
                            context,
                            &nodes[i],
                            parameters,
                            nodes,
                            i + 1,
                            &mut st.no_longer_valid_spellings,
                        );
                        (i + 1 + consumed, SectionFlow::Advance)
                    } else if str_eq(ns, "Oberbegriffe") {
                        let consumed = parse_list(
                            context,
                            &nodes[i],
                            parameters,
                            nodes,
                            i + 1,
                            &mut st.hypernyms,
                        );
                        (i + 1 + consumed, SectionFlow::Advance)
                    } else if str_eq(ns, "Redewendungen") {
                        let consumed = parse_list(
                            context,
                            &nodes[i],
                            parameters,
                            nodes,
                            i + 1,
                            &mut st.idioms,
                        );
                        (i + 1 + consumed, SectionFlow::Advance)
                    } else if str_eq(ns, "Sinnverwandte W\u{f6}rter") {
                        let consumed = parse_list(
                            context,
                            &nodes[i],
                            parameters,
                            nodes,
                            i + 1,
                            &mut st.related_words,
                        );
                        (i + 1 + consumed, SectionFlow::Advance)
                    } else if str_eq(ns, "Sprichw\u{f6}rter") {
                        let consumed = parse_list(
                            context,
                            &nodes[i],
                            parameters,
                            nodes,
                            i + 1,
                            &mut st.proverbs,
                        );
                        (i + 1 + consumed, SectionFlow::Advance)
                    } else if str_eq(ns, "Symbole") {
                        let consumed = parse_list(
                            context,
                            &nodes[i],
                            parameters,
                            nodes,
                            i + 1,
                            &mut st.symbols,
                        );
                        (i + 1 + consumed, SectionFlow::Advance)
                    } else if str_eq(ns, "Synonyme") {
                        let consumed = parse_list(
                            context,
                            &nodes[i],
                            parameters,
                            nodes,
                            i + 1,
                            &mut st.synonyms,
                        );
                        (i + 1 + consumed, SectionFlow::Advance)
                    } else if str_eq(ns, "Unterbegriffe") {
                        let consumed = parse_list(
                            context,
                            &nodes[i],
                            parameters,
                            nodes,
                            i + 1,
                            &mut st.hyponyms,
                        );
                        (i + 1 + consumed, SectionFlow::Advance)
                    } else if str_eq(ns, "Verkleinerungsformen") {
                        let consumed = parse_list(
                            context,
                            &nodes[i],
                            parameters,
                            nodes,
                            i + 1,
                            &mut st.diminutives,
                        );
                        (i + 1 + consumed, SectionFlow::Advance)
                    } else if str_eq(ns, "Weibliche Wortformen") {
                        let consumed = parse_list(
                            context,
                            &nodes[i],
                            parameters,
                            nodes,
                            i + 1,
                            &mut st.feminine_forms,
                        );
                        (i + 1 + consumed, SectionFlow::Advance)
                    } else if str_eq(ns, "Wortbildungen") {
                        let consumed = parse_list(
                            context,
                            &nodes[i],
                            parameters,
                            nodes,
                            i + 1,
                            &mut st.compound_words,
                        );
                        (i + 1 + consumed, SectionFlow::Advance)
                    } else if str_eq(ns, "Worttrennung") {
                        let consumed = parse_list(
                            context,
                            &nodes[i],
                            parameters,
                            nodes,
                            i + 1,
                            &mut st.hyphenation,
                        );
                        (i + 1 + consumed, SectionFlow::Advance)
                    } else if str_eq(ns, "\u{c4}hnlichkeiten") {
                        let consumed = parse_list(
                            context,
                            &nodes[i],
                            parameters,
                            nodes,
                            i + 1,
                            &mut st.similar_words,
                        );
                        (i + 1 + consumed, SectionFlow::Advance)
                    } else if str_eq(ns, "Abschnitte fehlen") || str_eq(ns, "Quellen")
                        || str_eq(ns, "Referenzen pr\u{fc}fen") || str_eq(
                        ns,
                        "\u{c4}hnlichkeiten 1",
                    ) || str_eq(ns, "\u{c4}hnlichkeiten 2") {
                        let start = nodes[i].start();
                        let end = nodes[i].end();
                        add_warning(context, start, end, WarningMessage::Supplementary);
                        (i + 1, SectionFlow::Advance)
                    } else if str_eq(ns, "Aussprache") {
                        let consumed = parse_pronunciation(
                            context,
                            &nodes[i],
                            parameters,
                            nodes,
                            i + 1,
                            &mut st.pronunciation,
                        );
                        (i + 1 + consumed, SectionFlow::Advance)
                    } else if str_eq(ns, "Beispiele") {
                        let consumed = parse_examples(
                            context,
                            &nodes[i],
                            parameters,
                            nodes,
                            i + 1,
                            &mut st.examples,
                        );
                        (i + 1 + consumed, SectionFlow::Advance)
                    } else if str_eq(ns, "Referenzen") {
                        let mut found = false;
                        if i + 1 < nodes.len() {
                            if matches!(&nodes[i + 1], Node::DefinitionList { .. }) {
                                found = true;
                            }
                        }
                        if found {
                            let start = nodes[i + 1].start();
                            let end = nodes[i + 1].end();
                            add_warning(context, start, end, WarningMessage::Supplementary);
                            (i + 2, SectionFlow::Advance)
                        } else {
                            let start = nodes[i].start();
                            let end = nodes[i].end();
                            add_warning(context, start, end, WarningMessage::SectionEmpty);
                            (i + 1, SectionFlow::Advance)
                        }
                    } else {
                        let recognized = parse_overview(
                            context,
                            &nodes[i],
                            n,
                            parameters,
                            &mut st.overview,
                        );
                        if recognized {
                            (i + 2, SectionFlow::Advance)
                        } else {
                            let start = nodes[i].start();
                            let end = nodes[i].end();
                            add_warning(context, start, end, WarningMessage::Unrecognized);
                            (i + 1, SectionFlow::Advance)
                        }
                    }
                },
            }
        },
        _ => {
            proof {
                assert(false);
            }
            (i, SectionFlow::Stop)
        },
    }
}

/// One dispatcher step at node `i`.
#[verifier::rlimit(60)]
fn pos_step(context: &mut Context, nodes: &[Node], i: usize, st: &mut SectionState) -> (r: (
    usize,
    SectionFlow,
))
    requires
        old(context).language is Some,
        nodes_wf(nodes@, old(context).wiki_text@.len()),
        i < nodes@.len(),
        nodes@.len() < usize::MAX,
    ensures
        ctx_keeps(*old(context), *final(context)),
        ({
            let (st1, i1, w1, flow) = spec_pos_section_step(
                old(context).wiki_text@,
                old(context).language,
                nodes@,
                i as int,
                state_view(*old(st)),
            );
            &&& state_view(*final(st)) == st1
            &&& final(context).warnings@ == old(context).warnings@ + w1
            &&& r.1 == flow
            &&& r.0 as int == i1
            &&& (flow is Advance ==> i < i1 <= nodes@.len() + 1)
        }),
{
    proof {
        crate::list::lemma_push_concat_warning();
        assert(node_wf(nodes@[i as int], old(context).wiki_text@.len()));
    }
    match &nodes[i] {
        Node::Heading { level, nodes: children, .. } => {
            if *level < 4 {
                proof {
                    assert(old(context).warnings@ + Seq::<Warning>::empty() =~= old(
                        context,
                    ).warnings@);
                }
                (i, SectionFlow::Stop)
            } else {
                let mut translations_heading = false;
                if *level == 4 && children.len() == 1 {
                    if let Node::Template { name: tname, .. } = &children[0] {
                        if text_equals(tname.as_slice(), "\u{dc}bersetzungen") {
                            translations_heading = true;
                        }
                    }
                }
                if translations_heading {
                    if st.translations {
                        let start = nodes[i].start();
                        let end = nodes[i].end();
                        add_warning(context, start, end, WarningMessage::Duplicate);
                        (i + 1, SectionFlow::Abort)
                    } else {
                        st.translations = true;
                        let mut has_parameters = false;
                        if let Node::Template { parameters: tparams, .. } = &children[0] {
                            if tparams.len() > 0 {
                                has_parameters = true;
                            }
                        }
                        if has_parameters {
                            let start = nodes[i].start();
                            let end = nodes[i].end();
                            add_warning(context, start, end, WarningMessage::ValueUnrecognized);
                            (i + 1, SectionFlow::Advance)
                        } else {
                            let mut table = false;
                            if i + 1 < nodes.len() {
                                if let Node::Template { name: n2, .. } = &nodes[i + 1] {
                                    if text_equals(n2.as_slice(), "\u{dc}-Tabelle") {
                                        table = true;
                                    }
                                }
                            }
                            if table {
                                let start = nodes[i + 1].start();
                                let end = nodes[i + 1].end();
                                add_warning(context, start, end, WarningMessage::Supplementary);
                                (i + 2, SectionFlow::Advance)
                            } else {
                                let start = nodes[i].start();
                                let end = nodes[i].end();
                                add_warning(context, start, end, WarningMessage::SectionEmpty);
                                (i + 1, SectionFlow::Advance)
                            }
                        }
                    }
                } else {
                    let start = nodes[i].start();
                    let end = nodes[i].end();
                    add_warning(context, start, end, WarningMessage::Unrecognized);
                    (i + 1, SectionFlow::Advance)
                }
            }
        },
        Node::Template { .. } => pos_step_template(context, nodes, i, st),
        _ => {
            let start = nodes[i].start();
            let end = nodes[i].end();
            add_warning(context, start, end, WarningMessage::Unrecognized);
            (i + 1, SectionFlow::Advance)
        },
    }
}

/// The contents of a row-list slot, or the empty value.
fn unwrap_rows(o: Option<Vec<Vec<Flowing>>>) -> (r: Vec<Vec<Flowing>>)
    ensures
        rows_view(r@) == or_empty_rows(opt_rows(o)),
{
    match o {
        Some(v) => v,
        None => {
            let r: Vec<Vec<Flowing>> = Vec::new();
            proof {
                assert(rows_view(Seq::<Vec<Flowing>>::empty()) =~= Seq::<Seq<FlowingV>>::empty());
            }
            r
        },
    }
}

/// The contents of the example slot, or the empty value.
fn unwrap_examples(o: Option<Vec<Example>>) -> (r: Vec<Example>)
    ensures
        examples_view(r@) == or_empty_examples(opt_examples(o)),
{
    match o {
        Some(v) => v,
        None => {
            let r: Vec<Example> = Vec::new();
            proof {
                assert(examples_view(Seq::<Example>::empty()) =~= Seq::<ExampleV>::empty());
            }
            r
        },
    }
}

/// The contents of the pronunciation slot, or the empty value.
fn unwrap_pron(o: Option<Pronunciation>) -> (r: Pronunciation)
    ensures
        r@ == or_empty_pron(opt_pron(o)),
{
    match o {
        Some(p) => p,
        None => {
            let r = Pronunciation { audio: Vec::new(), ipa: Vec::new(), rhymes: Vec::new() };
            proof {
                assert(row_view(Seq::<Flowing>::empty()) =~= Seq::<FlowingV>::empty());
                assert(r@ =~= spec_pron_empty());
            }
            r
        },
    }
}

/// Folds a finished scan state into one entry; unseen sections become the
/// empty value.
#[verifier::rlimit(100)]
fn build_entry(st: SectionState, pos: Pos, details: Vec<Flowing>) -> (entry: PosEntry)
    ensures
        entry@ == spec_entry_of(state_view(st), pos, row_view(details@)),
{
    let ghost st_arg = st;
    let SectionState {
        abbreviations,
        affectionate_forms,
        antonyms,
        compound_words,
        definitions,
        diminutives,
        etymology,
        examples,
        feminine_forms,
        hypernyms,
        hyphenation,
        hyponyms,
        idioms,
        masculine_forms,
        no_longer_valid_spellings,
        overview,
        pronunciation,
        proverbs,
        related_words,
        short_forms,
        similar_words,
        symbols,
        synonyms,
        translations,
        typical_word_combinations,
        variants,
    } = st;
    let pron = unwrap_pron(pronunciation);
    let Pronunciation { audio, ipa, rhymes } = pron;
    let entry = PosEntry {
        abbreviations: unwrap_rows(abbreviations),
        affectionate_forms: unwrap_rows(affectionate_forms),
        antonyms: unwrap_rows(antonyms),
        compound_words: unwrap_rows(compound_words),
        definitions: unwrap_rows(definitions),
        diminutives: unwrap_rows(diminutives),
        etymology: unwrap_rows(etymology),
        feminine_forms: unwrap_rows(feminine_forms),
        hypernyms: unwrap_rows(hypernyms),
        hyphenation: unwrap_rows(hyphenation),
        hyponyms: unwrap_rows(hyponyms),
        idioms: unwrap_rows(idioms),
        masculine_forms: unwrap_rows(masculine_forms),
        no_longer_valid_spellings: unwrap_rows(no_longer_valid_spellings),
        proverbs: unwrap_rows(proverbs),
        related_words: unwrap_rows(related_words),
        short_forms: unwrap_rows(short_forms),
        similar_words: unwrap_rows(similar_words),
        symbols: unwrap_rows(symbols),
        synonyms: unwrap_rows(synonyms),
        typical_word_combinations: unwrap_rows(typical_word_combinations),
        variants: unwrap_rows(variants),
        audio: audio,
        details: details,
        examples: unwrap_examples(examples),
        ipa: ipa,
        overview: match overview {
            Some(o) => o,
            None => None,
        },
        pos: pos,
        rhymes: rhymes,
    };
    proof {
        let target = spec_entry_of(state_view(st_arg), pos, row_view(details@));
        assert(entry@ == target);
    }
    entry
}

/// Parses the body of one part-of-speech section starting at `from`: the
/// closed set of section markers fills the entry's slots, anything else is
/// flagged; a heading of level three or less stops the scan, and a second
/// translations heading abandons the body.  The finished entry is appended
/// to `pos_entries` unless the body was abandoned.
#[verifier::rlimit(100)]
pub fn parse_pos_section(
    context: &mut Context,
    nodes: &[Node],
    from: usize,
    pos_entries: &mut Vec<PosEntry>,
    pos: Pos,
    details: Vec<Flowing>,
) -> (consumed: usize)
    requires
        old(context).language is Some,
        nodes_wf(nodes@, old(context).wiki_text@.len()),
        from <= nodes@.len(),
        nodes@.len() < usize::MAX,
    ensures
        ctx_keeps(*old(context), *final(context)),
        ({
            let (consumed_s, w, entry) = spec_parse_pos_section(
                old(context).wiki_text@,
                old(context).language,
                nodes@,
                from as int,
                pos,
                row_view(details@),
            );
            consumed as int == consumed_s && consumed <= nodes@.len() + 1 - from
                && final(context).warnings@ == old(context).warnings@ + w && match entry {
                Some(ev) => pos_entries_view(final(pos_entries)@) == pos_entries_view(
                    old(pos_entries)@,
                ).push(ev),
                None => final(pos_entries)@ == old(pos_entries)@,
            }
        }),
{
    let ghost src0 = old(context).wiki_text@;
    let ghost lang0 = old(context).language;
    let mut st = SectionState {
        abbreviations: None,
        affectionate_forms: None,
        antonyms: None,
        compound_words: None,
        definitions: None,
        diminutives: None,
        etymology: None,
        examples: None,
        feminine_forms: None,
        hypernyms: None,
        hyphenation: None,
        hyponyms: None,
        idioms: None,
        masculine_forms: None,
        no_longer_valid_spellings: None,
        overview: None,
        pronunciation: None,
        proverbs: None,
        related_words: None,
        short_forms: None,
        similar_words: None,
        symbols: None,
        synonyms: None,
        translations: false,
        typical_word_combinations: None,
        variants: None,
    };
    proof {
        assert(state_view(st) =~= init_section_state());
    }
    let mut done = false;
    let mut i: usize = from;
    while i < nodes.len() && !done
        invariant
            from <= i,
            i <= nodes@.len() + 1,
            nodes@.len() < usize::MAX,
            nodes_wf(nodes@, src0.len()),
            lang0 is Some,
            ctx_keeps(*old(context), *context),
            context.wiki_text@ == src0,
            context.language == lang0,
            !done ==> ({
                let full = spec_pos_section_scan(
                    src0,
                    lang0,
                    nodes@,
                    from as int,
                    init_section_state(),
                );
                let rest = spec_pos_section_scan(src0, lang0, nodes@, i as int, state_view(st));
                &&& full.0 == rest.0
                &&& full.1 == rest.1
                &&& full.3 == rest.3
                &&& old(context).warnings@ + full.2 == context.warnings@ + rest.2
            }),
            done ==> ({
                let full = spec_pos_section_scan(
                    src0,
                    lang0,
                    nodes@,
                    from as int,
                    init_section_state(),
                );
                &&& full.0 == state_view(st)
                &&& full.1 == i as int
                &&& !full.3
                &&& context.warnings@ == old(context).warnings@ + full.2
            }),
        decreases nodes@.len() + 1 - i, (if done { 0int } else { 1int }),
    {
        let ghost stv_pre = state_view(st);
        let ghost w_pre = context.warnings@;
        let ghost g_i = i;
        let (ni, flow) = pos_step(context, nodes, i, &mut st);
        let ghost stp = spec_pos_section_step(src0, lang0, nodes@, g_i as int, stv_pre);
        match flow {
            SectionFlow::Advance => {
                proof {
                    let rest_pre = spec_pos_section_scan(src0, lang0, nodes@, g_i as int, stv_pre);
                    if stp.1 > nodes@.len() {
                        assert(rest_pre.0 == stp.0 && rest_pre.1 == stp.1 && rest_pre.2 == stp.2
                            && !rest_pre.3);
                        let rest_new = spec_pos_section_scan(src0, lang0, nodes@, stp.1, stp.0);
                        assert(rest_new.0 == stp.0 && rest_new.1 == stp.1 && rest_new.2
                            =~= Seq::<Warning>::empty() && !rest_new.3);
                        assert(context.warnings@ + Seq::<Warning>::empty() =~= context.warnings@);
                        assert(w_pre + rest_pre.2 =~= context.warnings@);
                    } else {
                        let rest_new = spec_pos_section_scan(src0, lang0, nodes@, stp.1, stp.0);
                        assert(rest_pre.0 == rest_new.0 && rest_pre.1 == rest_new.1 && rest_pre.3
                            == rest_new.3);
                        assert(rest_pre.2 == stp.2 + rest_new.2);
                        assert((w_pre + stp.2) + rest_new.2 =~= w_pre + rest_pre.2);
                    }
                }
                i = ni;
            },
            SectionFlow::Stop => {
                proof {
                    let rest_pre = spec_pos_section_scan(src0, lang0, nodes@, g_i as int, stv_pre);
                    assert(rest_pre.0 == stp.0 && rest_pre.1 == g_i as int && rest_pre.2 == stp.2
                        && !rest_pre.3);
                }
                done = true;
            },
            SectionFlow::Abort => {
                proof {
                    let rest_pre = spec_pos_section_scan(src0, lang0, nodes@, g_i as int, stv_pre);
                    assert(rest_pre.3 && rest_pre.2 == stp.2);
                }
                return 0;
            },
        }
    }
    proof {
        if !done {
            let rest = spec_pos_section_scan(src0, lang0, nodes@, i as int, state_view(st));
            assert(rest.0 == state_view(st) && rest.1 == i as int && rest.2
                =~= Seq::<Warning>::empty() && !rest.3);
            assert(context.warnings@ + Seq::<Warning>::empty() =~= context.warnings@);
        }
    }
    let entry = build_entry(st, pos, details);
    proof {
        lemma_pos_entries_view_push(old(pos_entries)@, entry);
    }
    pos_entries.push(entry);
    i - from
}

} // verus!
