//! The free-form overview template of a part-of-speech entry: a closed set of
//! template names per language, whose parameters are carried through with
//! minimal validation.

use vstd::prelude::*;

use crate::examples::{spec_translation_row, translation_row};
use crate::languages::Language;
use crate::node::{node_wf, nodes_wf, parameters_wf, Node, Parameter};
use crate::util::{
    add_warning, ctx_keeps, parse_parameter_name, parse_text, spec_parameter_name,
    spec_parse_text, str_eq, warn, Context,
};
use crate::{
    lemma_pairs_view_len, lemma_pairs_view_push, lemma_pairs_view_update, lemma_rows_view_push,
    pairs_view, row_view, rows_view, Flowing, FlowingV, Overview, OverviewV, Warning,
    WarningMessage,
};

verus! {

/// The closed set of overview template names recognized for each language.
pub open spec fn spec_overview_recognized(lang: Language, name: Seq<char>) -> bool {
    match lang {
        Language::De => name == "Bairisch Substantiv \u{dc}bersicht m"@ || name
            == "Bairisch Substantiv \u{dc}bersicht n"@ || name == "Bairisch Verb \u{dc}bersicht"@
            || name == "Deutsch Adjektiv \u{dc}bersicht"@ || name
            == "Deutsch Adverb \u{dc}bersicht"@ || name == "Deutsch Eigenname \u{dc}bersicht"@
            || name == "Deutsch Nachname \u{dc}bersicht"@ || name == "Deutsch Personalpronomen 1"@
            || name == "Deutsch Personalpronomen 2"@ || name == "Deutsch Personalpronomen 3"@
            || name == "Deutsch Personalpronomen Berliner Dialekt"@ || name
            == "Deutsch Pronomen \u{dc}bersicht"@ || name == "Deutsch Substantiv Dialekt"@ || name
            == "Deutsch Substantiv \u{dc}bersicht"@ || name
            == "Deutsch Substantiv \u{dc}bersicht -sch"@ || name
            == "Deutsch Toponym \u{dc}bersicht"@ || name == "Deutsch Verb \u{dc}bersicht"@ || name
            == "Deutsch adjektivisch \u{dc}bersicht"@ || name == "Kardinalzahl 2-12"@ || name
            == "Possessivpronomina-Tabelle"@ || name == "Pronomina-Tabelle"@,
        Language::En => name == "Englisch Adjektiv \u{dc}bersicht"@ || name
            == "Englisch Personalpronomen 2"@ || name == "Englisch Personalpronomen"@ || name
            == "Englisch Substantiv \u{dc}bersicht"@ || name == "Englisch Verb \u{dc}bersicht"@,
        _ => false,
    }
}

fn overview_recognized(lang: Language, name: &str) -> (r: bool)
    ensures
        r == spec_overview_recognized(lang, name@),
{
    match lang {
        Language::De => str_eq(name, "Bairisch Substantiv \u{dc}bersicht m") || str_eq(
            name,
            "Bairisch Substantiv \u{dc}bersicht n",
        ) || str_eq(name, "Bairisch Verb \u{dc}bersicht") || str_eq(
            name,
            "Deutsch Adjektiv \u{dc}bersicht",
        ) || str_eq(name, "Deutsch Adverb \u{dc}bersicht") || str_eq(
            name,
            "Deutsch Eigenname \u{dc}bersicht",
        ) || str_eq(name, "Deutsch Nachname \u{dc}bersicht") || str_eq(
            name,
            "Deutsch Personalpronomen 1",
        ) || str_eq(name, "Deutsch Personalpronomen 2") || str_eq(
            name,
            "Deutsch Personalpronomen 3",
        ) || str_eq(name, "Deutsch Personalpronomen Berliner Dialekt") || str_eq(
            name,
            "Deutsch Pronomen \u{dc}bersicht",
        ) || str_eq(name, "Deutsch Substantiv Dialekt") || str_eq(
            name,
            "Deutsch Substantiv \u{dc}bersicht",
        ) || str_eq(name, "Deutsch Substantiv \u{dc}bersicht -sch") || str_eq(
            name,
            "Deutsch Toponym \u{dc}bersicht",
        ) || str_eq(name, "Deutsch Verb \u{dc}bersicht") || str_eq(
            name,
            "Deutsch adjektivisch \u{dc}bersicht",
        ) || str_eq(name, "Kardinalzahl 2-12") || str_eq(name, "Possessivpronomina-Tabelle")
            || str_eq(name, "Pronomina-Tabelle"),
        Language::En => str_eq(name, "Englisch Adjektiv \u{dc}bersicht") || str_eq(
            name,
            "Englisch Personalpronomen 2",
        ) || str_eq(name, "Englisch Personalpronomen") || str_eq(
            name,
            "Englisch Substantiv \u{dc}bersicht",
        ) || str_eq(name, "Englisch Verb \u{dc}bersicht"),
        _ => false,
    }
}

/// The first index at or after `i` whose pair carries the key, or the length.
pub open spec fn spec_pairs_find(s: Seq<(Seq<char>, Seq<char>)>, k: Seq<char>, i: int) -> int
    decreases s.len() - i,
{
    if i < 0 || i >= s.len() {
        s.len() as int
    } else if s[i].0 == k {
        i
    } else {
        spec_pairs_find(s, k, i + 1)
    }
}

/// Whether some pair carries the key.
pub open spec fn spec_pairs_contains(s: Seq<(Seq<char>, Seq<char>)>, k: Seq<char>) -> bool {
    spec_pairs_find(s, k, 0) < s.len()
}

/// The pair sequence with the key bound to the value: the first pair with the
/// key is replaced in place, or a new pair is appended.
pub open spec fn spec_pairs_upsert(
    s: Seq<(Seq<char>, Seq<char>)>,
    k: Seq<char>,
    v: Seq<char>,
) -> Seq<(Seq<char>, Seq<char>)> {
    if spec_pairs_contains(s, k) {
        s.update(spec_pairs_find(s, k, 0), (k, v))
    } else {
        s.push((k, v))
    }
}

/// Finds the first pair carrying the key.
fn pairs_find(map: &Vec<(String, String)>, key: &str) -> (r: usize)
    ensures
        r == spec_pairs_find(pairs_view(map@), key@, 0),
        r <= map@.len(),
{
    proof {
        lemma_pairs_view_len(map@);
    }
    let mut i: usize = 0;
    while i < map.len()
        invariant
            0 <= i <= map@.len(),
            pairs_view(map@).len() == map@.len(),
            forall|j: int|
                0 <= j < map@.len() ==> pairs_view(map@)[j] == (#[trigger] map@[j].0@, map@[j].1@),
            spec_pairs_find(pairs_view(map@), key@, 0) == spec_pairs_find(
                pairs_view(map@),
                key@,
                i as int,
            ),
        decreases map@.len() - i,
    {
        if str_eq(map[i].0.as_str(), key) {
            return i;
        }
        i += 1;
    }
    i
}

/// The parameters of an overview template scanned from `p` on: named
/// parameters collect into the map, unnamed ones into the row list.
pub open spec fn spec_overview_params(
    src: Seq<char>,
    lang: Option<Language>,
    params: Seq<Parameter>,
    p: int,
    named: Seq<(Seq<char>, Seq<char>)>,
    unnamed: Seq<Seq<FlowingV>>,
) -> (Seq<(Seq<char>, Seq<char>)>, Seq<Seq<FlowingV>>, Seq<Warning>)
    decreases params.len() - p,
{
    if p < 0 || p >= params.len() {
        (named, unnamed, Seq::empty())
    } else {
        let param = params[p];
        match param.name {
            None => {
                let (row, w) = spec_translation_row(src, lang, param.value@, 0);
                let (n2, u2, w2) = spec_overview_params(
                    src,
                    lang,
                    params,
                    p + 1,
                    named,
                    unnamed.push(row),
                );
                (n2, u2, w + w2)
            },
            Some(_) => match spec_parameter_name(param) {
                None => {
                    let (n2, u2, w2) = spec_overview_params(src, lang, params, p + 1, named, unnamed);
                    (
                        n2,
                        u2,
                        seq![warn(lang, param.start, param.end, WarningMessage::Unrecognized)]
                            + w2,
                    )
                },
                Some(nm) => {
                    let w_dup: Seq<Warning> = if spec_pairs_contains(named, nm) {
                        seq![warn(lang, param.start, param.end, WarningMessage::Duplicate)]
                    } else {
                        Seq::empty()
                    };
                    match spec_parse_text(param.value@) {
                        None => {
                            let (n2, u2, w2) = spec_overview_params(
                                src,
                                lang,
                                params,
                                p + 1,
                                named,
                                unnamed,
                            );
                            (
                                n2,
                                u2,
                                w_dup + seq![
                                    warn(
                                        lang,
                                        param.start,
                                        param.end,
                                        WarningMessage::ValueUnrecognized,
                                    ),
                                ] + w2,
                            )
                        },
                        Some(v) => {
                            let (n2, u2, w2) = spec_overview_params(
                                src,
                                lang,
                                params,
                                p + 1,
                                spec_pairs_upsert(named, nm, v),
                                unnamed,
                            );
                            (n2, u2, w_dup + w2)
                        },
                    }
                },
            },
        }
    }
}

/// The outcome of an overview template: whether the name is recognized for
/// the active language, the new slot value if it is, and the warnings.
pub open spec fn spec_parse_overview(
    src: Seq<char>,
    lang: Language,
    node: Node,
    name: Seq<char>,
    params: Seq<Parameter>,
    filled: bool,
) -> (bool, Option<Option<OverviewV>>, Seq<Warning>) {
    if !spec_overview_recognized(lang, name) {
        (false, None, Seq::empty())
    } else if filled {
        (
            true,
            Some(None),
            seq![
                warn(
                    Some(lang),
                    node.spec_start(),
                    node.spec_end(),
                    WarningMessage::Duplicate,
                ),
            ],
        )
    } else {
        let (named, unnamed, w) = spec_overview_params(
            src,
            Some(lang),
            params,
            0,
            Seq::empty(),
            Seq::empty(),
        );
        (
            true,
            Some(
                Some(OverviewV { name, named_parameters: named, unnamed_parameters: unnamed }),
            ),
            w,
        )
    }
}

/// Decodes an overview template into its output slot if its name is
/// recognized for the active language.  Returns whether it was recognized.
pub fn parse_overview(
    context: &mut Context,
    template_node: &Node,
    name: String,
    parameters: &Vec<Parameter>,
    output: &mut Option<Option<Overview>>,
) -> (recognized: bool)
    requires
        old(context).language is Some,
        template_node.spec_start() <= template_node.spec_end() <= old(context).wiki_text@.len(),
        parameters_wf(parameters@, old(context).wiki_text@.len()),
    ensures
        ctx_keeps(*old(context), *final(context)),
        ({
            let (rec, slot, w) = spec_parse_overview(
                old(context).wiki_text@,
                old(context).language->Some_0,
                *template_node,
                name@,
                parameters@,
                *old(output) is Some,
            );
            recognized == rec && final(context).warnings@ == old(context).warnings@ + w && match (
                slot,
                *final(output),
            ) {
                (None, out_new) => out_new == *old(output),
                (Some(None), out_new) => out_new is Some && out_new->Some_0 is None,
                (Some(Some(ov)), out_new) => out_new is Some && out_new->Some_0 is Some && (
                out_new->Some_0)->Some_0@ == ov,
            }
        }),
{
    proof {
        crate::list::lemma_push_concat_warning();
    }
    let ghost src0 = old(context).wiki_text@;
    let ghost lang0 = old(context).language;
    let active = match context.language {
        Some(l) => l,
        None => {
            proof {
                assert(false);
            }
            Language::De
        },
    };
    if !overview_recognized(active, name.as_str()) {
        proof {
            assert(old(context).warnings@ + Seq::<Warning>::empty() =~= old(context).warnings@);
        }
        return false;
    }
    if output.is_some() {
        *output = Some(None);
        let start = template_node.start();
        let end = template_node.end();
        add_warning(context, start, end, WarningMessage::Duplicate);
        return true;
    }
    let mut named: Vec<(String, String)> = Vec::new();
    let mut unnamed: Vec<Vec<Flowing>> = Vec::new();
    let mut p: usize = 0;
    proof {
        assert(pairs_view(named@) =~= Seq::<(Seq<char>, Seq<char>)>::empty());
        assert(rows_view(unnamed@) =~= Seq::<Seq<FlowingV>>::empty());
    }
    while p < parameters.len()
        invariant
            0 <= p <= parameters@.len(),
            parameters_wf(parameters@, src0.len()),
            ctx_keeps(*old(context), *context),
            context.wiki_text@ == src0,
            context.language == lang0,
            ({
                let full = spec_overview_params(
                    src0,
                    lang0,
                    parameters@,
                    0,
                    Seq::empty(),
                    Seq::empty(),
                );
                let now = spec_overview_params(
                    src0,
                    lang0,
                    parameters@,
                    p as int,
                    pairs_view(named@),
                    rows_view(unnamed@),
                );
                full.0 == now.0 && full.1 == now.1 && old(context).warnings@ + full.2
                    == context.warnings@ + now.2
            }),
        decreases parameters@.len() - p,
    {
        let ghost w_pre = context.warnings@;
        let ghost named_pre = pairs_view(named@);
        let ghost unnamed_pre = rows_view(unnamed@);
        proof {
            assert(crate::node::parameter_wf(parameters@[p as int], src0.len()));
            crate::list::lemma_push_concat_warning();
        }
        let param = &parameters[p];
        let ghost nk = spec_overview_params(
            src0,
            lang0,
            parameters@,
            p as int,
            named_pre,
            unnamed_pre,
        );
        if param.name.is_none() {
            let row = translation_row(context, param.value.as_slice());
            let ghost unnamed_vec_pre = unnamed@;
            unnamed.push(row);
            proof {
                let (rrow, rw) = spec_translation_row(src0, lang0, parameters@[p as int].value@, 0);
                lemma_rows_view_push(unnamed_vec_pre, row);
                assert(rows_view(unnamed@) == unnamed_pre.push(rrow));
                let n1 = spec_overview_params(
                    src0,
                    lang0,
                    parameters@,
                    p as int + 1,
                    named_pre,
                    unnamed_pre.push(rrow),
                );
                assert(nk.0 == n1.0 && nk.1 == n1.1);
                assert((w_pre + rw) + n1.2 =~= w_pre + (rw + n1.2));
            }
        } else {
            match parse_parameter_name(param) {
                None => {
                    add_warning(context, param.start, param.end, WarningMessage::Unrecognized);
                    proof {
                        let n1 = spec_overview_params(
                            src0,
                            lang0,
                            parameters@,
                            p as int + 1,
                            named_pre,
                            unnamed_pre,
                        );
                        assert((w_pre + seq![
                            warn(
                                lang0,
                                parameters@[p as int].start,
                                parameters@[p as int].end,
                                WarningMessage::Unrecognized,
                            ),
                        ]) + n1.2 =~= w_pre + nk.2);
                    }
                },
                Some(nm) => {
                    let key = nm.to_owned();
                    let ghost named_vec_pre = named@;
                    proof {
                        lemma_pairs_view_len(named@);
                    }
                    if pairs_find(&named, key.as_str()) < named.len() {
                        add_warning(context, param.start, param.end, WarningMessage::Duplicate);
                    }
                    match parse_text(param.value.as_slice()) {
                        None => {
                            add_warning(
                                context,
                                param.start,
                                param.end,
                                WarningMessage::ValueUnrecognized,
                            );
                            proof {
                                let n1 = spec_overview_params(
                                    src0,
                                    lang0,
                                    parameters@,
                                    p as int + 1,
                                    named_pre,
                                    unnamed_pre,
                                );
                                let w_dup: Seq<Warning> = if spec_pairs_contains(
                                    named_pre,
                                    nm@,
                                ) {
                                    seq![
                                        warn(
                                            lang0,
                                            parameters@[p as int].start,
                                            parameters@[p as int].end,
                                            WarningMessage::Duplicate,
                                        ),
                                    ]
                                } else {
                                    Seq::empty()
                                };
                                assert(context.warnings@ =~= w_pre + (w_dup + seq![
                                    warn(
                                        lang0,
                                        parameters@[p as int].start,
                                        parameters@[p as int].end,
                                        WarningMessage::ValueUnrecognized,
                                    ),
                                ]));
                                assert(context.warnings@ + n1.2 =~= w_pre + nk.2);
                            }
                        },
                        Some(value) => {
                            let idx = pairs_find(&named, key.as_str());
                            let pair = (key, value);
                            let ghost pair_view = (pair.0@, pair.1@);
                            if idx < named.len() {
                                named.set(idx, pair);
                                proof {
                                    lemma_pairs_view_update(named_vec_pre, idx as int, named@[idx as int]);
                                    assert(named@ == named_vec_pre.update(idx as int, named@[idx as int]));
                                }
                            } else {
                                named.push(pair);
                                proof {
                                    lemma_pairs_view_push(named_vec_pre, named@[named@.len() - 1]);
                                    assert(named@ == named_vec_pre.push(named@[named@.len() - 1]));
                                }
                            }
                            proof {
                                let v = spec_parse_text(parameters@[p as int].value@)->Some_0;
                                assert(pairs_view(named@) =~= spec_pairs_upsert(named_pre, pair_view.0, v));
                                let n1 = spec_overview_params(
                                    src0,
                                    lang0,
                                    parameters@,
                                    p as int + 1,
                                    spec_pairs_upsert(named_pre, pair_view.0, v),
                                    unnamed_pre,
                                );
                                assert(nk.0 == n1.0 && nk.1 == n1.1);
                                assert(context.warnings@ + n1.2 =~= w_pre + nk.2);
                            }
                        },
                    }
                },
            }
        }
        p += 1;
    }
    let result = Overview { name, named_parameters: named, unnamed_parameters: unnamed };
    proof {
        let full = spec_overview_params(src0, lang0, parameters@, 0, Seq::empty(), Seq::empty());
        let fin = spec_overview_params(
            src0,
            lang0,
            parameters@,
            parameters@.len() as int,
            pairs_view(result.named_parameters@),
            rows_view(result.unnamed_parameters@),
        );
        assert(fin.2 =~= Seq::<Warning>::empty());
        assert(context.warnings@ + Seq::<Warning>::empty() =~= context.warnings@);
        assert(result@ =~= OverviewV {
            name: result.name@,
            named_parameters: full.0,
            unnamed_parameters: full.1,
        });
    }
    *output = Some(Some(result));
    true
}

} // verus!
