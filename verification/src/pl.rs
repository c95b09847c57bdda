//! Recognition of procedural-language blocks: `DO` blocks and function
//! definitions, and the language that each declares.
//!
//! The parser's syntax tree is held here as plain values: of each node only
//! what recognition reads.

use crate::failure::Failure;
use crate::language::{identify_language, language_of_name, Language};
use crate::statement::Statement;
use crate::text::same_text;
use vstd::prelude::*;
use vstd::string::StringExecFns;

verus! {

/// The argument of an option.
#[derive(Clone, Debug)]
pub enum OptionValue {
    /// The option has no argument, or the argument is an empty node.
    Absent,
    /// The argument is a string node with this content.
    Text(String),
    /// The argument is a node of another kind.
    Other,
}

/// One entry of the option list of a `DO` block or a function definition.
#[derive(Clone, Debug)]
pub enum OptionNode {
    /// A definition: the option's name and its argument.
    Definition { name: String, value: OptionValue },
    /// A node of another kind, or one without content.
    Other,
}

/// One top-level entry of a syntax tree.
#[derive(Clone, Debug)]
pub enum StatementNode {
    /// The entry holds no statement.
    Absent,
    /// The entry holds a node without content.
    Empty,
    /// A `DO` block, with its arguments.
    Do(Vec<OptionNode>),
    /// A function or procedure definition, with its options.
    CreateFunction(Vec<OptionNode>),
    /// Any other statement; the text says which.
    Other(String),
}

/// What the parser made of one text: its top-level entries, in order.
#[derive(Clone, Debug)]
pub struct ParseTree {
    pub stmts: Vec<StatementNode>,
}

/// The argument of an option, as plain values.
pub enum OptionValueView {
    Absent,
    Text(Seq<char>),
    Other,
}

/// An option, as plain values.
pub enum OptionNodeView {
    Definition { name: Seq<char>, value: OptionValueView },
    Other,
}

/// A top-level entry of a syntax tree, as plain values.
pub enum StatementNodeView {
    Absent,
    Empty,
    Do(Seq<OptionNodeView>),
    CreateFunction(Seq<OptionNodeView>),
    Other(Seq<char>),
}

impl View for OptionValue {
    type V = OptionValueView;

    open spec fn view(&self) -> OptionValueView {
        match self {
            OptionValue::Absent => OptionValueView::Absent,
            OptionValue::Text(s) => OptionValueView::Text(s@),
            OptionValue::Other => OptionValueView::Other,
        }
    }
}

impl View for OptionNode {
    type V = OptionNodeView;

    open spec fn view(&self) -> OptionNodeView {
        match self {
            OptionNode::Definition { name, value } => OptionNodeView::Definition {
                name: name@,
                value: value@,
            },
            OptionNode::Other => OptionNodeView::Other,
        }
    }
}

/// The options of a list, each as plain values.
pub open spec fn options_view(options: Seq<OptionNode>) -> Seq<OptionNodeView> {
    options.map_values(|o: OptionNode| o@)
}

impl View for StatementNode {
    type V = StatementNodeView;

    open spec fn view(&self) -> StatementNodeView {
        match self {
            StatementNode::Absent => StatementNodeView::Absent,
            StatementNode::Empty => StatementNodeView::Empty,
            StatementNode::Do(args) => StatementNodeView::Do(options_view(args@)),
            StatementNode::CreateFunction(options) => StatementNodeView::CreateFunction(
                options_view(options@),
            ),
            StatementNode::Other(kind) => StatementNodeView::Other(kind@),
        }
    }
}

impl View for ParseTree {
    type V = Seq<StatementNodeView>;

    open spec fn view(&self) -> Seq<StatementNodeView> {
        self.stmts@.map_values(|s: StatementNode| s@)
    }
}

/// True of a definition of the option `language`.
pub open spec fn names_language(option: OptionNodeView) -> bool {
    option matches OptionNodeView::Definition { name, .. } && name == "language"@
}

/// True of an option from which the declared language can be read: where
/// it defines `language`, its argument is a string.
pub open spec fn option_is_readable(option: OptionNodeView) -> bool {
    match option {
        OptionNodeView::Definition { name, value } => name == "language"@
            ==> value is Text,
        OptionNodeView::Other => true,
    }
}

/// True when every option of the list is readable.
pub open spec fn options_readable(options: Seq<OptionNodeView>) -> bool {
    forall|i: int| 0 <= i < options.len() ==> option_is_readable(#[trigger] options[i])
}

/// The language that an option list declares: the argument of its last
/// `language` option, and `plpgsql` where it has none.
pub open spec fn declared_language(options: Seq<OptionNodeView>) -> Seq<char>
    decreases options.len(),
{
    if options.len() == 0 {
        "plpgsql"@
    } else {
        match options.last() {
            OptionNodeView::Definition { name, value: OptionValueView::Text(language) } => {
                if name == "language"@ {
                    language
                } else {
                    declared_language(options.drop_last())
                }
            },
            _ => declared_language(options.drop_last()),
        }
    }
}

/// The two shapes of statement that are recognized.
#[derive(Debug, Clone, Copy, PartialEq, Eq, Structural)]
pub enum PlShape {
    /// An anonymous code block: `DO`.
    DoBlock,
    /// The definition of a function or a procedure.
    FunctionDefinition,
}

/// What recognition makes of a syntax tree.
#[derive(Debug, Clone)]
pub enum Recognition {
    /// The first statement has one of the two shapes, and declares its
    /// body to be in `language`.
    Recognized { shape: PlShape, language: String },
    /// Anything else. This is no error: the tree is just no
    /// procedural-language block.
    Unrecognized,
}

/// What recognition makes of a tree, as plain values.
pub enum RecognitionView {
    Recognized { shape: PlShape, language: Seq<char> },
    Unrecognized,
}

impl View for Recognition {
    type V = RecognitionView;

    open spec fn view(&self) -> RecognitionView {
        match self {
            Recognition::Recognized { shape, language } => RecognitionView::Recognized {
                shape: *shape,
                language: language@,
            },
            Recognition::Unrecognized => RecognitionView::Unrecognized,
        }
    }
}

/// What an option list of the given shape is recognized as.
pub open spec fn recognition_of_options(shape: PlShape, options: Seq<OptionNodeView>) -> RecognitionView {
    if options_readable(options) {
        RecognitionView::Recognized { shape, language: declared_language(options) }
    } else {
        RecognitionView::Unrecognized
    }
}

/// What a tree is recognized as. Only the first statement counts, and only
/// where it is a `DO` block or a function definition with readable options.
pub open spec fn recognition(tree: Seq<StatementNodeView>) -> RecognitionView {
    if tree.len() == 0 {
        RecognitionView::Unrecognized
    } else {
        match tree[0] {
            StatementNodeView::Do(options) => recognition_of_options(PlShape::DoBlock, options),
            StatementNodeView::CreateFunction(options) => recognition_of_options(
                PlShape::FunctionDefinition,
                options,
            ),
            _ => RecognitionView::Unrecognized,
        }
    }
}

/// The name of the language in which a recognized tree declares its body;
/// `None` for every other tree.
pub open spec fn pl_language(tree: Seq<StatementNodeView>) -> Option<Seq<char>> {
    match recognition(tree) {
        RecognitionView::Recognized { language, .. } => Some(language),
        RecognitionView::Unrecognized => None,
    }
}

/// Why a tree declares no language, in words.
pub open spec fn pl_failure_message(tree: Seq<StatementNodeView>) -> Seq<char> {
    if tree.len() == 0 {
        "empty stmt (comment-only?)"@
    } else {
        match tree[0] {
            StatementNodeView::Absent => "empty stmt"@,
            StatementNodeView::Empty => "missing statement-node"@,
            StatementNodeView::Other(kind) => "unexpected node type "@ + kind,
            _ => "unexpected option shape"@,
        }
    }
}

/// The tag that recognition gives the statement `id`, from what the parser
/// made of its text: the parser's tree, or `None` where it failed.
pub open spec fn pl_tag(id: i64, parsed: Option<Seq<StatementNodeView>>) -> Option<
    (i64, Language),
> {
    match parsed {
        Some(tree) => match pl_language(tree) {
            Some(name) => Some((id, language_of_name(name))),
            None => None,
        },
        None => None,
    }
}

/// The tree of a parser outcome, as plain values; `None` for a failure.
pub open spec fn parsed_view(parsed: Result<ParseTree, Failure>) -> Option<Seq<StatementNodeView>> {
    match parsed {
        Ok(tree) => Some(tree@),
        Err(_) => None,
    }
}

/// The content of a string argument; `None` for any other argument.
pub fn extract_protobuf_string(value: &OptionValue) -> (content: Option<String>)
    ensures
        match value@ {
            OptionValueView::Text(s) => content matches Some(c) && c@ == s,
            _ => content is None,
        },
{
    match value {
        OptionValue::Text(s) => Some(s.clone()),
        _ => None,
    }
}

/// Reads the declared language off an option list: the argument of the last
/// `language` option, `plpgsql` where there is none. `None` where an option
/// is not readable.
pub fn parse_pl(nodes: &Vec<OptionNode>) -> (language: Option<String>)
    ensures
        language is Some <==> options_readable(options_view(nodes@)),
        language matches Some(l) ==> l@ == declared_language(options_view(nodes@)),
{
    let ghost all = options_view(nodes@);
    let mut lang: String = String::from_str("plpgsql");
    let mut i: usize = 0;
    assert(all.take(0) =~= Seq::<OptionNodeView>::empty());
    while i < nodes.len()
        invariant
            i <= nodes.len(),
            all == options_view(nodes@),
            options_readable(all.take(i as int)),
            lang@ == declared_language(all.take(i as int)),
        decreases nodes.len() - i,
    {
        let ghost before = all.take(i as int);
        let ghost after = all.take(i + 1);
        assert(after.drop_last() =~= before);
        assert(after.last() == nodes@[i as int]@);
        match &nodes[i] {
            OptionNode::Definition { name, value } => {
                if same_text(name.as_str(), "language") {
                    match extract_protobuf_string(value) {
                        Some(content) => {
                            lang = content;
                        },
                        None => {
                            assert(!option_is_readable(all[i as int]));
                            return None;
                        },
                    }
                }
            },
            OptionNode::Other => {},
        }
        assert forall|j: int| 0 <= j < after.len() implies option_is_readable(
            #[trigger] after[j],
        ) by {
            if j < i {
                assert(after[j] == before[j]);
            }
        }
        i = i + 1;
    }
    assert(all.take(nodes.len() as int) =~= all);
    Some(lang)
}

/// The language that a `DO` block declares.
pub fn parse_do_stmt(args: &Vec<OptionNode>) -> (language: Option<String>)
    ensures
        language is Some <==> options_readable(options_view(args@)),
        language matches Some(l) ==> l@ == declared_language(options_view(args@)),
{
    parse_pl(args)
}

/// The language that a function definition declares.
pub fn parse_fn_stmt(options: &Vec<OptionNode>) -> (language: Option<String>)
    ensures
        language is Some <==> options_readable(options_view(options@)),
        language matches Some(l) ==> l@ == declared_language(options_view(options@)),
{
    parse_pl(options)
}

/// What an option list of the given shape is recognized as.
fn recognize_options(shape: PlShape, declared: Option<String>) -> (outcome: Recognition)
    ensures
        match declared {
            Some(l) => outcome@ == (RecognitionView::Recognized { shape, language: l@ }),
            None => outcome@ == RecognitionView::Unrecognized,
        },
{
    match declared {
        Some(language) => Recognition::Recognized { shape, language },
        None => Recognition::Unrecognized,
    }
}

/// Recognizes the shape of a syntax tree and the language that it declares.
/// Every tree has an answer: one with an unforeseen shape is `Unrecognized`.
pub fn recognize(tree: &ParseTree) -> (outcome: Recognition)
    ensures
        outcome@ == recognition(tree@),
{
    // an empty query, such as a lone comment, has no statement at all
    if tree.stmts.len() == 0 {
        return Recognition::Unrecognized;
    }
    assert(tree@[0] == tree.stmts@[0]@);
    match &tree.stmts[0] {
        StatementNode::Do(args) => recognize_options(PlShape::DoBlock, parse_do_stmt(args)),
        StatementNode::CreateFunction(options) => recognize_options(
            PlShape::FunctionDefinition,
            parse_fn_stmt(options),
        ),
        _ => Recognition::Unrecognized,
    }
}

/// Says in words why a tree declares no language.
fn why_unrecognized(tree: &ParseTree) -> (message: String)
    ensures
        message@ == pl_failure_message(tree@),
{
    if tree.stmts.len() == 0 {
        return String::from_str("empty stmt (comment-only?)");
    }
    assert(tree@[0] == tree.stmts@[0]@);
    match &tree.stmts[0] {
        StatementNode::Absent => String::from_str("empty stmt"),
        StatementNode::Empty => String::from_str("missing statement-node"),
        StatementNode::Other(kind) => String::from_str("unexpected node type ").concat(
            kind.as_str(),
        ),
        _ => String::from_str("unexpected option shape"),
    }
}

/// The name of the language in which the first statement of a parsed text
/// declares its body. `parsed` is what the parser made of the text: a
/// parser failure is handed on as it is.
pub fn extract_pl(parsed: Result<ParseTree, Failure>) -> (language: Result<String, Failure>)
    ensures
        match parsed {
            Err(e) => language == Err::<String, Failure>(e),
            Ok(tree) => match pl_language(tree@) {
                Some(name) => language matches Ok(l) && l@ == name,
                None => language matches Err(Failure::Other(m)) && m@ == pl_failure_message(
                    tree@,
                ),
            },
        },
{
    match parsed {
        Ok(tree) => match recognize(&tree) {
            Recognition::Recognized { shape: _, language } => Ok(language),
            Recognition::Unrecognized => Err(Failure::Other(why_unrecognized(&tree))),
        },
        Err(e) => Err(e),
    }
}

/// Tags a statement with the language of its body, where the statement is a
/// `DO` block or a function definition. `parsed` is what the parser made of
/// the statement's text. No tag is given where the parser failed or the
/// statement has another shape.
pub fn recognize_pl_statement(s: &Statement, parsed: &Result<ParseTree, Failure>) -> (tag: Option<
    (i64, Language),
>)
    ensures
        tag == pl_tag(s@.id, parsed_view(*parsed)),
{
    match parsed {
        Ok(tree) => match recognize(tree) {
            Recognition::Recognized { shape: _, language } => Some(
                (s.id(), identify_language(language.as_str())),
            ),
            Recognition::Unrecognized => None,
        },
        Err(_) => None,
    }
}

} // verus!
