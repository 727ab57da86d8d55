//! Reading the settings from a configuration document written in KDL. The
//! document is parsed by the `kdl` crate; what is read out of it, and what
//! the settings make of that, is the engine's own.

use crate::config::{default_config, Config, ConfigManager};
use crate::settings::{
    entries_text, sectioned_all, sections_text, Entry, EntryText, Section, SectionText,
    SettingValue,
};
use crate::depth::{
    has_reserved_annotation, is_parsable, is_shallow, reserved_annotation, within_parse_limit,
};
use crate::text::{chars_of, push_text};
use kdl::{KdlDocument, KdlValue};
use vstd::prelude::*;

verus! {

/// `kdl::KdlDocument`: a parsed document, or the block of nodes nested in a
/// node.
#[verifier::external_type_specification]
#[verifier::external_body]
pub struct ExKdlDocument(KdlDocument);

/// The nodes of a document as sections, in order: of each node its name, its
/// first positional argument, and the same of the nodes nested in it.
pub uninterp spec fn document_sections(document: KdlDocument) -> Seq<SectionText>;

/// What parsing a text as KDL gives: the sections of the document, or the
/// parser's error in words.
pub uninterp spec fn parsed_sections(content: Seq<char>) -> Result<Seq<SectionText>, Seq<char>>;

/// The entries of sections, without what is nested in them.
pub open spec fn headings(sections: Seq<SectionText>) -> Seq<EntryText> {
    sections.map_values(|s: SectionText| s.entry)
}

/// `KdlDocument::from_str`, reached through `str::parse`: parses a text. An
/// error is handed back as the text that its `Display` writes. The outcome
/// is a function of the text alone, named [`parsed_sections`]. The parser
/// calls itself as deep as the text nests, and it slices its input out of
/// range where a reserved word stands as a type annotation, so only texts
/// that are shallow and hold no such annotation are handed to it.
#[verifier::external_body]
fn parse_document(content: &str) -> (outcome: Result<KdlDocument, String>)
    requires
        is_parsable(content@),
    ensures
        match outcome {
            Ok(document) => parsed_sections(content@) == Ok::<Seq<SectionText>, Seq<char>>(
                document_sections(document),
            ),
            Err(message) => parsed_sections(content@) == Err::<Seq<SectionText>, Seq<char>>(
                message@,
            ),
        },
{
    content.parse::<KdlDocument>().map_err(|e| e.to_string())
}

/// `KdlDocument::nodes`, its length: the number of nodes of the document.
#[verifier::external_body]
fn node_count(document: &KdlDocument) -> (count: usize)
    ensures
        count == document_sections(*document).len(),
{
    document.nodes().len()
}

/// `KdlNode::name` and `KdlIdentifier::value`: the name of a node of the
/// document.
#[verifier::external_body]
fn node_name(document: &KdlDocument, index: usize) -> (name: String)
    requires
        index < document_sections(*document).len(),
    ensures
        name@ == document_sections(*document)[index as int].entry.name,
{
    document.nodes()[index].name().value().to_string()
}

/// `KdlNode::get` with index 0 and `KdlEntry::value`: the first positional
/// argument of a node of the document, if it has one. Strings of both
/// notations are text, numbers of all four bases are whole numbers.
#[verifier::external_body]
fn node_argument(document: &KdlDocument, index: usize) -> (argument: Option<SettingValue>)
    requires
        index < document_sections(*document).len(),
    ensures
        match argument {
            Some(value) => document_sections(*document)[index as int].entry.argument == Some(
                value@,
            ),
            None => document_sections(*document)[index as int].entry.argument is None,
        },
{
    Some(match document.nodes()[index].get(0)?.value() {
        KdlValue::RawString(text) => SettingValue::Text(text.clone()),
        KdlValue::String(text) => SettingValue::Text(text.clone()),
        KdlValue::Base2(number) => SettingValue::Integer(*number),
        KdlValue::Base8(number) => SettingValue::Integer(*number),
        KdlValue::Base10(number) => SettingValue::Integer(*number),
        KdlValue::Base10Float(_) => SettingValue::Other,
        KdlValue::Base16(number) => SettingValue::Integer(*number),
        KdlValue::Bool(truth) => SettingValue::Bool(*truth),
        KdlValue::Null => SettingValue::Other,
    })
}

/// `KdlNode::children`: the block of nodes nested in a node of the document,
/// if it has one. A node without a block has no nested entries.
#[verifier::external_body]
fn node_children(document: &KdlDocument, index: usize) -> (children: Option<&KdlDocument>)
    requires
        index < document_sections(*document).len(),
    ensures
        match children {
            Some(block) => document_sections(*document)[index as int].children == headings(
                document_sections(*block),
            ),
            None => document_sections(*document)[index as int].children.len() == 0,
        },
{
    document.nodes()[index].children()
}

/// The nodes of a document as entries: of each its name and first argument.
pub fn read_entries(document: &KdlDocument) -> (entries: Vec<Entry>)
    ensures
        entries_text(entries@) == headings(document_sections(*document)),
{
    let count = node_count(document);
    let mut entries: Vec<Entry> = Vec::new();
    let mut i: usize = 0;
    while i < count
        invariant
            i <= count,
            count == document_sections(*document).len(),
            entries_text(entries@) =~= headings(document_sections(*document)).take(i as int),
        decreases count - i,
    {
        let entry = Entry { name: node_name(document, i), argument: node_argument(document, i) };
        let ghost read = entries_text(entries@);
        assert(entry@ == headings(document_sections(*document))[i as int]);
        entries.push(entry);
        assert(entries_text(entries@) =~= read.push(entry@));
        i += 1;
    }
    assert(headings(document_sections(*document)).take(count as int) =~= headings(
        document_sections(*document),
    ));
    entries
}

/// The nodes of a document as sections: of each its entry and the entries
/// nested in it.
pub fn read_sections(document: &KdlDocument) -> (sections: Vec<Section>)
    ensures
        sections_text(sections@) == document_sections(*document),
{
    let count = node_count(document);
    let mut sections: Vec<Section> = Vec::new();
    let mut i: usize = 0;
    while i < count
        invariant
            i <= count,
            count == document_sections(*document).len(),
            sections_text(sections@) =~= document_sections(*document).take(i as int),
        decreases count - i,
    {
        let entry = Entry { name: node_name(document, i), argument: node_argument(document, i) };
        let children = match node_children(document, i) {
            Some(block) => read_entries(block),
            None => Vec::new(),
        };
        assert(entries_text(children@) =~= document_sections(*document)[i as int].children);
        let section = Section { entry, children };
        let ghost read = sections_text(sections@);
        assert(section@ == document_sections(*document)[i as int]);
        sections.push(section);
        assert(sections_text(sections@) =~= read.push(section@));
        i += 1;
    }
    assert(document_sections(*document).take(count as int) =~= document_sections(*document));
    sections
}

impl ConfigManager {
    /// Reads the settings from a configuration document written in KDL. A
    /// text that nests deeper than the parser is trusted with, or in which a
    /// reserved word stands as a type annotation, is refused unparsed. A text
    /// that does not parse gives the parser's error; a document gives the
    /// default settings with its sections applied in order.
    pub fn parse_kdl(&self, content: &str) -> (outcome: Result<Config, String>)
        ensures
            !is_shallow(content@) ==> (outcome matches Err(message) && message@
                == "KDL parse error: the document nests too deeply"@),
            is_shallow(content@) && has_reserved_annotation(content@) ==> (outcome matches Err(
                message,
            ) && message@ == "KDL parse error: a reserved word stands as a type annotation"@),
            is_parsable(content@) ==> match parsed_sections(content@) {
                Err(parser_message) => outcome matches Err(message) && message@
                    == "KDL parse error: "@ + parser_message,
                Ok(sections) => outcome matches Ok(config) && config@ == sectioned_all(
                    default_config(),
                    sections,
                ),
            },
    {
        let chars = chars_of(content);
        if !within_parse_limit(&chars) {
            return Err("KDL parse error: the document nests too deeply".to_string());
        }
        if reserved_annotation(&chars) {
            return Err(
                "KDL parse error: a reserved word stands as a type annotation".to_string(),
            );
        }
        match parse_document(content) {
            Err(parser_message) => {
                let mut message = String::new();
                push_text(&mut message, "KDL parse error: ");
                push_text(&mut message, parser_message.as_str());
                assert(message@ =~= "KDL parse error: "@ + parser_message@);
                Err(message)
            },
            Ok(document) => {
                let sections = read_sections(&document);
                Config::from_settings(&sections)
            },
        }
    }
}

} // verus!
