//! Shared primitives: the parse context, warning emission, text coercion of
//! node sequences, the fallback element, and the generic section-body
//! extractor.

use vstd::prelude::*;

use crate::languages::Language;
use crate::node::{DefinitionListItem, Node, Parameter};
use crate::{flowing_view, Flowing, FlowingV, Warning, WarningMessage};

verus! {

/// Mutable state of one parse: the active language, the warning log and the
/// source text the node positions refer to.
pub struct Context<'a> {
    /// The language of the language section currently being traversed.
    pub language: Option<Language>,
    /// The warnings recorded so far.
    pub warnings: Vec<Warning>,
    /// The source text of the page, used to recover verbatim spans.
    pub wiki_text: &'a str,
}

/// A warning with the given span and kind, tagged with the active language.
pub open spec fn warn(
    lang: Option<Language>,
    start: usize,
    end: usize,
    message: WarningMessage,
) -> Warning {
    Warning { end, language: lang, message, start }
}

/// The context keeps its language and source text.
pub open spec fn ctx_keeps(old_c: Context, new_c: Context) -> bool {
    &&& new_c.language == old_c.language
    &&& new_c.wiki_text@ == old_c.wiki_text@
}

/// Appends one warning with the given span and kind to the log.
pub fn add_warning(context: &mut Context, start: usize, end: usize, message: WarningMessage)
    ensures
        ctx_keeps(*old(context), *final(context)),
        final(context).warnings@ == old(context).warnings@.push(
            warn(old(context).language, start, end, message),
        ),
{
    let w = Warning { end, language: context.language, message, start };
    context.warnings.push(w);
}

/// The fallback element preserving the source text of the span.
pub open spec fn spec_unknown(src: Seq<char>, start: usize, end: usize) -> FlowingV {
    FlowingV::Unknown { value: src.subrange(start as int, end as int) }
}

/// Records a warning at the node's span and returns an unknown element
/// holding the exact source text of that span.
pub fn create_unknown(context: &mut Context, node: &Node, message: WarningMessage) -> (r: Flowing)
    requires
        node.spec_start() <= node.spec_end() <= old(context).wiki_text@.len(),
    ensures
        ctx_keeps(*old(context), *final(context)),
        final(context).warnings@ == old(context).warnings@.push(
            warn(old(context).language, node.spec_start(), node.spec_end(), message),
        ),
        r@ == spec_unknown(old(context).wiki_text@, node.spec_start(), node.spec_end()),
{
    let start = node.start();
    let end = node.end();
    create_unknown2(context, node, start, end, message)
}

/// Records a warning at the given span and returns an unknown element holding
/// the exact source text of the node's span.
pub fn create_unknown2(
    context: &mut Context,
    unknown_node: &Node,
    warning_start: usize,
    warning_end: usize,
    message: WarningMessage,
) -> (r: Flowing)
    requires
        unknown_node.spec_start() <= unknown_node.spec_end() <= old(context).wiki_text@.len(),
    ensures
        ctx_keeps(*old(context), *final(context)),
        final(context).warnings@ == old(context).warnings@.push(
            warn(old(context).language, warning_start, warning_end, message),
        ),
        r@ == spec_unknown(
            old(context).wiki_text@,
            unknown_node.spec_start(),
            unknown_node.spec_end(),
        ),
{
    add_warning(context, warning_start, warning_end, message);
    let piece = context.wiki_text.substring_char(unknown_node.start(), unknown_node.end());
    Flowing::Unknown { value: piece.to_owned() }
}

/// Compares two string slices character by character.
pub fn str_eq(a: &str, b: &str) -> (r: bool)
    ensures
        r == (a@ == b@),
{
    let x = a.to_owned();
    let y = b.to_owned();
    x == y
}

/// Relies on `String::push`: appends exactly the given character.
#[verifier::external_body]
pub(crate) fn string_push(s: &mut String, c: char)
    ensures
        final(s)@ == old(s)@.push(c),
{
    s.push(c);
}

/// The flat text of a node sequence: the concatenation of its plain text and
/// character references, defined only if the sequence holds nothing else.
/// The scan starts at index `i`.
pub open spec fn spec_parse_text_from(nodes: Seq<Node>, i: int) -> Option<Seq<char>>
    decreases nodes.len() - i,
{
    if i < 0 || i >= nodes.len() {
        Some(Seq::empty())
    } else {
        match nodes[i] {
            Node::Text { value, .. } => match spec_parse_text_from(nodes, i + 1) {
                Some(r) => Some(value@ + r),
                None => None,
            },
            Node::CharacterEntity { character, .. } => match spec_parse_text_from(nodes, i + 1) {
                Some(r) => Some(seq![character] + r),
                None => None,
            },
            _ => None,
        }
    }
}

/// The flat text of a node sequence, if it is representable as flat text.
pub open spec fn spec_parse_text(nodes: Seq<Node>) -> Option<Seq<char>> {
    spec_parse_text_from(nodes, 0)
}

/// Coerces a node sequence to flat text: succeeds only if every node is plain
/// text or a character reference, and concatenates them.  The empty sequence
/// yields the empty string.
pub fn parse_text(nodes: &[Node]) -> (r: Option<String>)
    ensures
        match r {
            Some(s) => spec_parse_text(nodes@) == Some(s@),
            None => spec_parse_text(nodes@) is None,
        },
{
    let mut acc = String::new();
    let mut i: usize = 0;
    while i < nodes.len()
        invariant
            0 <= i <= nodes@.len(),
            spec_parse_text(nodes@) == match spec_parse_text_from(nodes@, i as int) {
                Some(r) => Some(acc@ + r),
                None => None::<Seq<char>>,
            },
        decreases nodes@.len() - i,
    {
        let ghost prev = acc@;
        match &nodes[i] {
            Node::Text { value, .. } => {
                acc.append(value.as_str());
                proof {
                    if spec_parse_text_from(nodes@, i as int + 1) is Some {
                        let rest = spec_parse_text_from(nodes@, i as int + 1)->Some_0;
                        assert((prev + value@) + rest =~= prev + (value@ + rest));
                    }
                }
            },
            Node::CharacterEntity { character, .. } => {
                string_push(&mut acc, *character);
                proof {
                    if spec_parse_text_from(nodes@, i as int + 1) is Some {
                        let rest = spec_parse_text_from(nodes@, i as int + 1)->Some_0;
                        assert(prev.push(nodes@[i as int]->CharacterEntity_character) =~= prev
                            + seq![nodes@[i as int]->CharacterEntity_character]);
                        assert((prev + seq![nodes@[i as int]->CharacterEntity_character]) + rest
                            =~= prev + (seq![nodes@[i as int]->CharacterEntity_character] + rest));
                    }
                }
            },
            _ => {
                return None;
            },
        }
        i += 1;
    }
    proof {
        assert(acc@ + Seq::<char>::empty() =~= acc@);
    }
    Some(acc)
}

/// The flat text of a node sequence, if it is representable and non-empty.
pub open spec fn spec_parse_text_not_empty(nodes: Seq<Node>) -> Option<Seq<char>> {
    match spec_parse_text(nodes) {
        Some(t) => if t.len() > 0 {
            Some(t)
        } else {
            None
        },
        None => None,
    }
}

/// As [`parse_text`], but additionally fails on an empty result.
pub fn parse_text_not_empty(nodes: &[Node]) -> (r: Option<String>)
    ensures
        match r {
            Some(s) => spec_parse_text_not_empty(nodes@) == Some(s@),
            None => spec_parse_text_not_empty(nodes@) is None,
        },
{
    match parse_text(nodes) {
        Some(s) => {
            if s.as_str().is_empty() {
                None
            } else {
                Some(s)
            }
        },
        None => None,
    }
}

/// Whether the node sequence coerces to flat text equal to the literal.
pub open spec fn spec_text_equals(nodes: Seq<Node>, text: Seq<char>) -> bool {
    spec_parse_text(nodes) == Some(text)
}

/// True iff the node sequence coerces to flat text equal to `text`.
pub fn text_equals(nodes: &[Node], text: &str) -> (r: bool)
    ensures
        r == spec_text_equals(nodes@, text@),
{
    match parse_text(nodes) {
        None => false,
        Some(value) => str_eq(value.as_str(), text),
    }
}

/// The name of a template parameter, defined if the parameter is named by a
/// single plain text node.
pub open spec fn spec_parameter_name(p: Parameter) -> Option<Seq<char>> {
    match p.name {
        Some(name) => if name@.len() == 1 {
            match name@[0] {
                Node::Text { value, .. } => Some(value@),
                _ => None,
            }
        } else {
            None
        },
        None => None,
    }
}

/// Returns the name of the parameter if it is a single plain text node.
pub fn parse_parameter_name<'p>(parameter: &'p Parameter) -> (r: Option<&'p str>)
    ensures
        match r {
            Some(s) => spec_parameter_name(*parameter) == Some(s@),
            None => spec_parameter_name(*parameter) is None,
        },
{
    match &parameter.name {
        Some(name) => {
            if name.len() == 1 {
                match &name[0] {
                    Node::Text { value, .. } => Some(value.as_str()),
                    _ => None,
                }
            } else {
                None
            }
        },
        None => None,
    }
}

/// The outcome of a simple zero-parameter marker: the given element if the
/// parameter list is empty, else the fallback element with a warning.
pub open spec fn spec_simple_template(
    src: Seq<char>,
    lang: Option<Language>,
    node: Node,
    params_empty: bool,
    out: FlowingV,
) -> (FlowingV, Seq<Warning>) {
    if params_empty {
        (out, Seq::empty())
    } else {
        (
            spec_unknown(src, node.spec_start(), node.spec_end()),
            seq![
                warn(lang, node.spec_start(), node.spec_end(), WarningMessage::ValueUnrecognized),
            ],
        )
    }
}

/// Decodes a marker that is valid only with zero parameters: returns `output`
/// if no parameter is present, else the fallback element.
pub fn parse_simple_template(
    context: &mut Context,
    node: &Node,
    parameters: &Vec<Parameter>,
    output: Flowing,
) -> (r: Flowing)
    requires
        node.spec_start() <= node.spec_end() <= old(context).wiki_text@.len(),
    ensures
        ctx_keeps(*old(context), *final(context)),
        ({
            let (e, w) = spec_simple_template(
                old(context).wiki_text@,
                old(context).language,
                *node,
                parameters@.len() == 0,
                flowing_view(output),
            );
            r@ == e && final(context).warnings@ == old(context).warnings@ + w
        }),
{
    if parameters.len() == 0 {
        proof {
            assert(old(context).warnings@ + Seq::<Warning>::empty() =~= old(context).warnings@);
        }
        output
    } else {
        let r = create_unknown(context, node, WarningMessage::ValueUnrecognized);
        proof {
            assert(old(context).warnings@.push(
                warn(
                    old(context).language,
                    node.spec_start(),
                    node.spec_end(),
                    WarningMessage::ValueUnrecognized,
                ),
            ) =~= old(context).warnings@ + seq![
                warn(
                    old(context).language,
                    node.spec_start(),
                    node.spec_end(),
                    WarningMessage::ValueUnrecognized,
                ),
            ]);
        }
        r
    }
}

/// The outcome of decoding a link: a link element if the text coerces to flat
/// text, else the fallback element with a warning.
pub open spec fn spec_parse_link(
    src: Seq<char>,
    lang: Option<Language>,
    node: Node,
    target: Seq<char>,
    text: Seq<Node>,
) -> (FlowingV, Seq<Warning>) {
    match spec_parse_text(text) {
        None => (
            spec_unknown(src, node.spec_start(), node.spec_end()),
            seq![
                warn(lang, node.spec_start(), node.spec_end(), WarningMessage::ValueUnrecognized),
            ],
        ),
        Some(t) => (FlowingV::Link { target, text: t }, Seq::empty()),
    }
}

/// Decodes a link node into a link element, or the fallback element if the
/// link text is not representable as flat text.
pub fn parse_link(context: &mut Context, node: &Node, target: &str, text: &[Node]) -> (r: Flowing)
    requires
        node.spec_start() <= node.spec_end() <= old(context).wiki_text@.len(),
    ensures
        ctx_keeps(*old(context), *final(context)),
        ({
            let (e, w) = spec_parse_link(
                old(context).wiki_text@,
                old(context).language,
                *node,
                target@,
                text@,
            );
            r@ == e && final(context).warnings@ == old(context).warnings@ + w
        }),
{
    match parse_text(text) {
        None => {
            let r = create_unknown(context, node, WarningMessage::ValueUnrecognized);
            proof {
                lemma_push_is_concat(
                    old(context).warnings@,
                    warn(
                        old(context).language,
                        node.spec_start(),
                        node.spec_end(),
                        WarningMessage::ValueUnrecognized,
                    ),
                );
            }
            r
        },
        Some(text) => {
            proof {
                assert(old(context).warnings@ + Seq::<Warning>::empty() =~= old(
                    context,
                ).warnings@);
            }
            Flowing::Link { target: target.to_owned(), text }
        },
    }
}

/// The characters with the Unicode white-space property.
pub open spec fn spec_is_ws(c: char) -> bool {
    c == '\u{9}' || c == '\u{a}' || c == '\u{b}' || c == '\u{c}' || c == '\u{d}' || c == ' ' || c
        == '\u{85}' || c == '\u{a0}' || c == '\u{1680}' || c == '\u{2000}' || c == '\u{2001}' || c
        == '\u{2002}' || c == '\u{2003}' || c == '\u{2004}' || c == '\u{2005}' || c == '\u{2006}'
        || c == '\u{2007}' || c == '\u{2008}' || c == '\u{2009}' || c == '\u{200a}' || c
        == '\u{2028}' || c == '\u{2029}' || c == '\u{202f}' || c == '\u{205f}' || c == '\u{3000}'
}

fn is_ws(c: char) -> (r: bool)
    ensures
        r == spec_is_ws(c),
{
    c == '\u{9}' || c == '\u{a}' || c == '\u{b}' || c == '\u{c}' || c == '\u{d}' || c == ' ' || c
        == '\u{85}' || c == '\u{a0}' || c == '\u{1680}' || c == '\u{2000}' || c == '\u{2001}' || c
        == '\u{2002}' || c == '\u{2003}' || c == '\u{2004}' || c == '\u{2005}' || c == '\u{2006}'
        || c == '\u{2007}' || c == '\u{2008}' || c == '\u{2009}' || c == '\u{200a}' || c
        == '\u{2028}' || c == '\u{2029}' || c == '\u{202f}' || c == '\u{205f}' || c == '\u{3000}'
}

/// The text with its leading white-space characters removed.
pub open spec fn spec_trim_start(s: Seq<char>) -> Seq<char>
    decreases s.len(),
{
    if s.len() == 0 {
        s
    } else if spec_is_ws(s[0]) {
        spec_trim_start(s.subrange(1, s.len() as int))
    } else {
        s
    }
}

/// Trimming removes exactly the white-space prefix ending at `i`.
proof fn lemma_trim_start_at(s: Seq<char>, i: int)
    requires
        0 <= i <= s.len(),
        forall|j: int| 0 <= j < i ==> spec_is_ws(s[j]),
        i == s.len() || !spec_is_ws(s[i]),
    ensures
        spec_trim_start(s) == s.subrange(i, s.len() as int),
    decreases i,
{
    if i == 0 {
        assert(s.subrange(0, s.len() as int) =~= s);
    } else {
        let rest = s.subrange(1, s.len() as int);
        lemma_trim_start_at(rest, i - 1);
        assert(rest.subrange(i - 1, rest.len() as int) =~= s.subrange(i, s.len() as int));
    }
}

/// Removes the leading white-space characters of a string.
pub fn trim_start(s: &str) -> (r: String)
    ensures
        r@ == spec_trim_start(s@),
{
    let n = s.unicode_len();
    let mut i: usize = 0;
    loop
        invariant_except_break
            0 <= i <= n,
            n == s@.len(),
            forall|j: int| 0 <= j < i ==> spec_is_ws(s@[j]),
        ensures
            0 <= i <= n,
            n == s@.len(),
            forall|j: int| 0 <= j < i ==> spec_is_ws(s@[j]),
            i == n || !spec_is_ws(s@[i as int]),
        decreases n - i,
    {
        if i >= n {
            break ;
        }
        let c = s.get_char(i);
        if !is_ws(c) {
            break ;
        }
        i += 1;
    }
    proof {
        lemma_trim_start_at(s@, i as int);
    }
    let piece = s.substring_char(i, n);
    piece.to_owned()
}

/// The munged first text of a details row: leading white space is removed,
/// then one leading comma and the white space after it.
pub open spec fn spec_details_text(v: Seq<char>) -> Seq<char> {
    let t = spec_trim_start(v);
    if t.len() > 0 && t[0] == ',' {
        spec_trim_start(t.subrange(1, t.len() as int))
    } else {
        t
    }
}

/// The body of a section: the items of the definition list standing at
/// `from`, if a definition list stands there.
pub open spec fn spec_list_body(nodes: Seq<Node>, from: int) -> Option<Seq<DefinitionListItem>> {
    if 0 <= from < nodes.len() {
        match nodes[from] {
            Node::DefinitionList { items, .. } => Some(items@),
            _ => None,
        }
    } else {
        None
    }
}

/// The control decision of the generic section-body extractor: whether the
/// body was found, how many nodes were consumed, and the warnings recorded.
/// A filled slot or a marker with parameters consumes nothing; a found body
/// consumes exactly one node.
pub open spec fn spec_list_section(
    lang: Option<Language>,
    start: usize,
    end: usize,
    params_empty: bool,
    nodes: Seq<Node>,
    from: int,
    filled: bool,
) -> (bool, usize, Seq<Warning>) {
    if filled {
        (false, 0, seq![warn(lang, start, end, WarningMessage::Duplicate)])
    } else if !params_empty {
        (false, 0, seq![warn(lang, start, end, WarningMessage::ValueUnrecognized)])
    } else if spec_list_body(nodes, from) is Some {
        (true, 1, Seq::empty())
    } else {
        (false, 0, seq![warn(lang, start, end, WarningMessage::SectionEmpty)])
    }
}

/// Extracts the section body following a marker at the given span: the
/// definition list standing at `from`, unless the slot was already filled,
/// the marker carried parameters, or no definition list stands there.
/// Returns the items when found, and the consumed node count (0 or 1).
pub fn parse_list_generic<'n>(
    context: &mut Context,
    start: usize,
    end: usize,
    parameters: &Vec<Parameter>,
    nodes: &'n [Node],
    from: usize,
    filled: bool,
) -> (r: (Option<&'n Vec<DefinitionListItem>>, usize))
    ensures
        ctx_keeps(*old(context), *final(context)),
        ({
            let (found, consumed, w) = spec_list_section(
                old(context).language,
                start,
                end,
                parameters@.len() == 0,
                nodes@,
                from as int,
                filled,
            );
            r.1 == consumed && final(context).warnings@ == old(context).warnings@ + w && match r.0 {
                Some(items) => found && spec_list_body(nodes@, from as int) == Some(items@),
                None => !found,
            }
        }),
{
    proof {
        lemma_push_is_concat(
            old(context).warnings@,
            warn(old(context).language, start, end, WarningMessage::Duplicate),
        );
        lemma_push_is_concat(
            old(context).warnings@,
            warn(old(context).language, start, end, WarningMessage::ValueUnrecognized),
        );
        lemma_push_is_concat(
            old(context).warnings@,
            warn(old(context).language, start, end, WarningMessage::SectionEmpty),
        );
        assert(old(context).warnings@ + Seq::<Warning>::empty() =~= old(context).warnings@);
    }
    if filled {
        add_warning(context, start, end, WarningMessage::Duplicate);
        return (None, 0);
    }
    if parameters.len() > 0 {
        add_warning(context, start, end, WarningMessage::ValueUnrecognized);
        return (None, 0);
    }
    if from < nodes.len() {
        if let Node::DefinitionList { items, .. } = &nodes[from] {
            return (Some(items), 1);
        }
    }
    add_warning(context, start, end, WarningMessage::SectionEmpty);
    (None, 0)
}

/// Idempotence of the generic extractor: a section marker whose slot is
/// already filled never re-parses a body, whatever the section kind: nothing
/// is consumed, no body is found, and exactly one duplicate warning is
/// recorded.
pub proof fn lemma_extractor_duplicate(
    lang: Option<Language>,
    start: usize,
    end: usize,
    params_empty: bool,
    nodes: Seq<Node>,
    from: int,
)
    ensures
        ({
            let (found, consumed, w) = spec_list_section(
                lang,
                start,
                end,
                params_empty,
                nodes,
                from,
                true,
            );
            !found && consumed == 0 && w == seq![
                warn(lang, start, end, WarningMessage::Duplicate),
            ]
        }),
{
}

/// Round-trip of the fallback element: its stored text is exactly the source
/// substring spanned by the node's start and end positions.
pub proof fn lemma_fallback_round_trip(src: Seq<char>, start: usize, end: usize)
    ensures
        spec_unknown(src, start, end)->Unknown_value == src.subrange(start as int, end as int),
{
}

/// Pushing one warning equals appending a singleton.
pub proof fn lemma_push_is_concat(s: Seq<Warning>, w: Warning)
    ensures
        s.push(w) == s + seq![w],
{
    assert(s.push(w) =~= s + seq![w]);
}

} // verus!
