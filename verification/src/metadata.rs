//! Metadata documents.
//!
//! Metadata is written in YAML.  A metadata document is a mapping from
//! texture symbols to the attributes of each texture; the attributes
//! `tlut` and `tlut_symbol` name the palette of a palette-indexed
//! texture.  The configuration is a YAML document too: a mapping of
//! sections, one of which gives, under `path`, the directory in which the
//! metadata lies.
//!
//! Reading YAML is left to the crate `yaml_rust2`.  What it returns is
//! not proved here: this module states it as the three functions
//! `yaml_documents`, `yaml_text` and `yaml_entries`, and proves what it
//! makes of the documents over them.

use vstd::prelude::*;
use yaml_rust2::ScanError;
use yaml_rust2::Yaml;
use crate::names::{name_bytes, names_equal};
use crate::palette::{entry_views, optional_bytes, EntryView, MetadataEntry};
use crate::search::{first_index, first_index_found, first_index_missing};

verus! {

/// A node of a YAML document, as `yaml_rust2` holds it.  Nothing is known
/// of it but what `yaml_text` and `yaml_entries` say.
#[verifier::external_type_specification]
#[verifier::external_body]
pub struct ExYaml(Yaml);

/// The error with which `yaml_rust2` refuses a text.
#[verifier::external_type_specification]
#[verifier::external_body]
pub struct ExScanError(ScanError);

/// The documents that `yaml_rust2::YamlLoader::load_from_str` reads from
/// a text, `None` where it refuses the text.
pub uninterp spec fn yaml_documents(text: Seq<char>) -> Option<Seq<Yaml>>;

/// The text of a node that is a string, as `Yaml::as_str` gives it;
/// `None` for a node of any other kind.
pub uninterp spec fn yaml_text(node: Yaml) -> Option<Seq<char>>;

/// The entries of a node that is a mapping, each a key and its value, in
/// the order in which the map of `Yaml::as_hash` is walked: the order in
/// which the entries were put in, which for a document that was read
/// from a text is the order of the text.  `None` for a node of any other
/// kind.
pub uninterp spec fn yaml_entries(node: Yaml) -> Option<Seq<(Yaml, Yaml)>>;

/// The nodes behind a sequence of pairs of references.
pub open spec fn pairs_of(entries: Seq<(&Yaml, &Yaml)>) -> Seq<(Yaml, Yaml)> {
    entries.map_values(|entry: (&Yaml, &Yaml)| (*entry.0, *entry.1))
}

/// Calls `yaml_rust2::YamlLoader::load_from_str`, which reads every
/// document of the text or fails on the first fault.  Claimed: the result
/// is a function of the text alone, named `yaml_documents`.
#[verifier::external_body]
fn load_documents(text: &str) -> (r: Result<Vec<Yaml>, ScanError>)
    ensures
        match r {
            Ok(documents) => yaml_documents(text@) == Some(documents@),
            Err(_) => yaml_documents(text@) is None,
        },
{
    yaml_rust2::YamlLoader::load_from_str(text)
}

/// Calls `yaml_rust2::Yaml::as_str`, which gives the text of a string
/// node and nothing for any other node.  Claimed: the result is what
/// `yaml_text` names.
#[verifier::external_body]
fn node_text<'a>(node: &'a Yaml) -> (r: Option<&'a str>)
    ensures
        match r {
            Some(text) => yaml_text(*node) == Some(text@),
            None => yaml_text(*node) is None,
        },
{
    node.as_str()
}

/// Calls `yaml_rust2::Yaml::as_hash`, which gives the map of a mapping
/// node and nothing for any other node, and walks the map with
/// `hashlink::LinkedHashMap::iter`, which goes in order of insertion.
/// Claimed: the result is what `yaml_entries` names.
#[verifier::external_body]
fn node_entries<'a>(node: &'a Yaml) -> (r: Option<Vec<(&'a Yaml, &'a Yaml)>>)
    ensures
        match r {
            Some(entries) => yaml_entries(*node) == Some(pairs_of(entries@)),
            None => yaml_entries(*node) is None,
        },
{
    node.as_hash().map(|table| table.iter().collect())
}

/// Why metadata or configuration could not be read.
#[derive(Clone, Copy, Debug, PartialEq, Eq, Structural)]
pub enum MetadataError {
    /// The text is no YAML.
    Malformed,
    /// The text holds no document.
    NoDocument,
    /// The first document is no mapping.
    RootNotTable,
    /// A section of the configuration is no mapping.
    SectionNotTable,
    /// The value of `path` is no text.
    PathNotText,
    /// The symbol of a texture that declares a palette is no text.
    SymbolNotText,
}

/// The bytes of the text of a node.
pub open spec fn text_bytes(node: Yaml) -> Option<Seq<u8>> {
    match yaml_text(node) {
        Some(text) => Some(name_bytes(text)),
        None => None,
    }
}

/// The bytes of the text of a node that may be missing.
pub open spec fn optional_text(node: Option<Yaml>) -> Option<Seq<u8>> {
    match node {
        Some(node) => text_bytes(node),
        None => None,
    }
}

/// The condition that the key of an entry is the text `name`.
pub open spec fn keyed(name: Seq<u8>) -> spec_fn((Yaml, Yaml)) -> bool {
    |entry: (Yaml, Yaml)| text_bytes(entry.0) == Some(name)
}

/// The value that a mapping holds under the key `name`.
pub open spec fn attribute(entries: Seq<(Yaml, Yaml)>, name: Seq<u8>) -> Option<Yaml> {
    match first_index(entries, keyed(name)) {
        Some(i) => Some(entries[i].1),
        None => None,
    }
}

/// What one entry of a metadata document says.  An entry whose value is
/// no mapping, or names no palette, or names it by something that is no
/// text, says nothing.  The palette is named by `tlut` or, where that
/// attribute is missing, by `tlut_symbol`.  An entry that names a palette
/// must have a text for its key.
pub open spec fn reading(key: Yaml, value: Yaml) -> Option<Result<EntryView, MetadataError>> {
    match yaml_entries(value) {
        None => None,
        Some(attributes) => {
            let tlut = attribute(attributes, name_bytes("tlut"@));
            let tlut_symbol = attribute(attributes, name_bytes("tlut_symbol"@));
            let palette = if tlut is Some {
                tlut
            } else {
                tlut_symbol
            };
            if optional_text(palette) is None {
                None
            } else {
                match text_bytes(key) {
                    None => Some(Err(MetadataError::SymbolNotText)),
                    Some(symbol) => Some(
                        Ok(
                            EntryView {
                                symbol,
                                tlut: optional_text(tlut),
                                tlut_symbol: optional_text(tlut_symbol),
                            },
                        ),
                    ),
                }
            }
        },
    }
}

/// Every entry that is read from a metadata document declares a palette.
pub proof fn reading_declares_palette(key: Yaml, value: Yaml)
    ensures
        reading(key, value) matches Some(Ok(entry)) ==> entry.declared() is Some,
{
}

/// What the entries of one metadata document say, in their order, or the
/// error of the first entry that is at fault.
pub open spec fn table_readings(table: Seq<(Yaml, Yaml)>) -> Result<Seq<EntryView>, MetadataError>
    decreases table.len(),
{
    if table.len() == 0 {
        Ok(Seq::empty())
    } else {
        match table_readings(table.drop_last()) {
            Err(e) => Err(e),
            Ok(earlier) => match reading(table.last().0, table.last().1) {
                None => Ok(earlier),
                Some(Ok(entry)) => Ok(earlier.push(entry)),
                Some(Err(e)) => Err(e),
            },
        }
    }
}

/// What a sequence of documents says.  Documents that are no mappings
/// say nothing.
pub open spec fn document_readings(documents: Seq<Yaml>) -> Result<Seq<EntryView>, MetadataError>
    decreases documents.len(),
{
    if documents.len() == 0 {
        Ok(Seq::empty())
    } else {
        match document_readings(documents.drop_last()) {
            Err(e) => Err(e),
            Ok(earlier) => match yaml_entries(documents.last()) {
                None => Ok(earlier),
                Some(table) => match table_readings(table) {
                    Ok(more) => Ok(earlier + more),
                    Err(e) => Err(e),
                },
            },
        }
    }
}

/// What a metadata text says.
pub open spec fn text_readings(text: Seq<char>) -> Result<Seq<EntryView>, MetadataError> {
    match yaml_documents(text) {
        None => Err(MetadataError::Malformed),
        Some(documents) => document_readings(documents),
    }
}

/// What a sequence of metadata texts says.  A text that is no YAML is
/// passed over; any other error ends the reading.
pub open spec fn collected_readings(texts: Seq<Seq<char>>) -> Result<
    Seq<EntryView>,
    MetadataError,
>
    decreases texts.len(),
{
    if texts.len() == 0 {
        Ok(Seq::empty())
    } else {
        match collected_readings(texts.drop_last()) {
            Err(e) => Err(e),
            Ok(earlier) => match text_readings(texts.last()) {
                Ok(more) => Ok(earlier + more),
                Err(MetadataError::Malformed) => Ok(earlier),
                Err(e) => Err(e),
            },
        }
    }
}

/// Finds the value that a mapping holds under a key.
pub fn find_attribute<'a>(entries: &Vec<(&'a Yaml, &'a Yaml)>, name: &str) -> (r: Option<&'a Yaml>)
    ensures
        match r {
            Some(node) => attribute(pairs_of(entries@), name_bytes(name@)) == Some(*node),
            None => attribute(pairs_of(entries@), name_bytes(name@)) is None,
        },
{
    let ghost pairs = pairs_of(entries@);
    let ghost wanted = keyed(name_bytes(name@));
    let mut i: usize = 0;
    while i < entries.len()
        invariant
            i <= entries.len(),
            pairs == pairs_of(entries@),
            wanted == keyed(name_bytes(name@)),
            forall|k: int| 0 <= k < i ==> !wanted(#[trigger] pairs[k]),
        decreases entries.len() - i,
    {
        let found = match node_text(entries[i].0) {
            Some(text) => names_equal(text, name),
            None => false,
        };
        if found {
            proof {
                first_index_found(pairs, wanted, i as int);
            }
            return Some(entries[i].1);
        }
        i += 1;
    }
    proof {
        first_index_missing(pairs, wanted);
    }
    None
}

/// The text of a node that may be missing, as an owned string.
fn owned_text(node: Option<&Yaml>) -> (r: Option<String>)
    ensures
        optional_bytes(r) == optional_text(
            match node {
                Some(node) => Some(*node),
                None => None,
            },
        ),
{
    match node {
        Some(node) => match node_text(node) {
            Some(text) => Some(text.to_owned()),
            None => None,
        },
        None => None,
    }
}

/// Reads one entry of a metadata document.
pub fn read_entry(key: &Yaml, value: &Yaml) -> (r: Option<Result<MetadataEntry, MetadataError>>)
    ensures
        match r {
            None => reading(*key, *value) is None,
            Some(Ok(entry)) => reading(*key, *value) == Some(
                Ok::<EntryView, MetadataError>(entry@),
            ),
            Some(Err(e)) => reading(*key, *value) == Some(Err::<EntryView, MetadataError>(e)),
        },
{
    let attributes = match node_entries(value) {
        Some(attributes) => attributes,
        None => {
            return None;
        },
    };
    let tlut_node = find_attribute(&attributes, "tlut");
    let tlut_symbol_node = find_attribute(&attributes, "tlut_symbol");
    let tlut = owned_text(tlut_node);
    let tlut_symbol = owned_text(tlut_symbol_node);
    let named = match tlut_node {
        Some(_) => tlut.is_some(),
        None => tlut_symbol.is_some(),
    };
    if !named {
        return None;
    }
    match node_text(key) {
        Some(symbol) => Some(Ok(MetadataEntry::new(symbol.to_owned(), tlut, tlut_symbol))),
        None => Some(Err(MetadataError::SymbolNotText)),
    }
}

/// Reads the entries of one metadata document.
pub fn read_table(table: &Vec<(&Yaml, &Yaml)>) -> (r: Result<Vec<MetadataEntry>, MetadataError>)
    ensures
        match r {
            Ok(entries) => table_readings(pairs_of(table@)) == Ok::<Seq<EntryView>, MetadataError>(
                entry_views(entries@),
            ),
            Err(e) => table_readings(pairs_of(table@)) == Err::<Seq<EntryView>, MetadataError>(e),
        },
{
    let ghost pairs = pairs_of(table@);
    let mut entries: Vec<MetadataEntry> = Vec::new();
    let mut i: usize = 0;
    proof {
        assert(entry_views(entries@) =~= Seq::empty());
    }
    while i < table.len()
        invariant
            i <= table.len(),
            pairs == pairs_of(table@),
            table_readings(pairs.take(i as int)) == Ok::<Seq<EntryView>, MetadataError>(
                entry_views(entries@),
            ),
        decreases table.len() - i,
    {
        let ghost before = entry_views(entries@);
        proof {
            assert(pairs.take(i + 1).drop_last() =~= pairs.take(i as int));
        }
        match read_entry(table[i].0, table[i].1) {
            None => {},
            Some(Ok(entry)) => {
                entries.push(entry);
                proof {
                    assert(entry_views(entries@) =~= before.push(entry@));
                }
            },
            Some(Err(e)) => {
                proof {
                    table_readings_fail(pairs, i + 1);
                }
                return Err(e);
            },
        }
        i += 1;
    }
    proof {
        assert(pairs.take(table@.len() as int) =~= pairs);
    }
    Ok(entries)
}

/// An error among the first entries of a document is the error of the
/// whole document.
proof fn table_readings_fail(table: Seq<(Yaml, Yaml)>, n: int)
    requires
        0 <= n <= table.len(),
        table_readings(table.take(n)) is Err,
    ensures
        table_readings(table) == table_readings(table.take(n)),
    decreases table.len() - n,
{
    if n < table.len() {
        assert(table.take(n + 1).drop_last() =~= table.take(n));
        table_readings_fail(table, n + 1);
    } else {
        assert(table.take(n) =~= table);
    }
}

/// The one error of a document is a symbol that is no text.
proof fn table_readings_error(table: Seq<(Yaml, Yaml)>)
    ensures
        table_readings(table) matches Err(e) ==> e == MetadataError::SymbolNotText,
    decreases table.len(),
{
    if table.len() > 0 {
        table_readings_error(table.drop_last());
    }
}

/// The one error of a sequence of documents is a symbol that is no text.
pub proof fn document_readings_error(documents: Seq<Yaml>)
    ensures
        document_readings(documents) matches Err(e) ==> e == MetadataError::SymbolNotText,
    decreases documents.len(),
{
    if documents.len() > 0 {
        document_readings_error(documents.drop_last());
        if yaml_entries(documents.last()) is Some {
            table_readings_error(yaml_entries(documents.last())->Some_0);
        }
    }
}

/// An error among the first documents is the error of all of them.
proof fn document_readings_fail(documents: Seq<Yaml>, n: int)
    requires
        0 <= n <= documents.len(),
        document_readings(documents.take(n)) is Err,
    ensures
        document_readings(documents) == document_readings(documents.take(n)),
    decreases documents.len() - n,
{
    if n < documents.len() {
        assert(documents.take(n + 1).drop_last() =~= documents.take(n));
        document_readings_fail(documents, n + 1);
    } else {
        assert(documents.take(n) =~= documents);
    }
}

/// An error among the first texts, unless it is that of a text that is
/// no YAML, is the error of all of them.
proof fn collected_readings_fail(texts: Seq<Seq<char>>, n: int)
    requires
        0 <= n <= texts.len(),
        collected_readings(texts.take(n)) is Err,
    ensures
        collected_readings(texts) == collected_readings(texts.take(n)),
    decreases texts.len() - n,
{
    if n < texts.len() {
        assert(texts.take(n + 1).drop_last() =~= texts.take(n));
        collected_readings_fail(texts, n + 1);
    } else {
        assert(texts.take(n) =~= texts);
    }
}

/// Reads metadata documents: what their entries say of textures and
/// their palettes, in the order of the documents.
pub fn read_documents(documents: &Vec<Yaml>) -> (r: Result<Vec<MetadataEntry>, MetadataError>)
    ensures
        match r {
            Ok(entries) => document_readings(documents@) == Ok::<Seq<EntryView>, MetadataError>(
                entry_views(entries@),
            ),
            Err(e) => document_readings(documents@) == Err::<Seq<EntryView>, MetadataError>(e),
        },
{
    let mut entries: Vec<MetadataEntry> = Vec::new();
    let mut i: usize = 0;
    proof {
        assert(entry_views(entries@) =~= Seq::empty());
    }
    while i < documents.len()
        invariant
            i <= documents.len(),
            document_readings(documents@.take(i as int)) == Ok::<Seq<EntryView>, MetadataError>(
                entry_views(entries@),
            ),
        decreases documents.len() - i,
    {
        let ghost earlier = entry_views(entries@);
        proof {
            assert(documents@.take(i + 1).drop_last() =~= documents@.take(i as int));
        }
        match node_entries(&documents[i]) {
            None => {},
            Some(table) => {
                match read_table(&table) {
                    Ok(mut more) => {
                        let ghost added = entry_views(more@);
                        entries.append(&mut more);
                        proof {
                            assert(entry_views(entries@) =~= earlier + added);
                        }
                    },
                    Err(e) => {
                        proof {
                            document_readings_fail(documents@, i + 1);
                        }
                        return Err(e);
                    },
                }
            },
        }
        i += 1;
    }
    proof {
        assert(documents@.take(documents@.len() as int) =~= documents@);
    }
    Ok(entries)
}

/// Reads one metadata text: what its entries say of textures and their
/// palettes, in the order of the text.
pub fn metadata_entries(text: &str) -> (r: Result<Vec<MetadataEntry>, MetadataError>)
    ensures
        match r {
            Ok(entries) => text_readings(text@) == Ok::<Seq<EntryView>, MetadataError>(
                entry_views(entries@),
            ),
            Err(e) => text_readings(text@) == Err::<Seq<EntryView>, MetadataError>(e),
        },
{
    match load_documents(text) {
        Ok(documents) => read_documents(&documents),
        Err(_) => Err(MetadataError::Malformed),
    }
}

/// Reads all metadata texts, each as `metadata_entries` reads it.  A
/// text that is no YAML is passed over.
pub fn collect_metadata(texts: &Vec<String>) -> (r: Result<Vec<MetadataEntry>, MetadataError>)
    ensures
        match r {
            Ok(entries) => collected_readings(text_views(texts@)) == Ok::<
                Seq<EntryView>,
                MetadataError,
            >(entry_views(entries@)),
            Err(e) => collected_readings(text_views(texts@)) == Err::<
                Seq<EntryView>,
                MetadataError,
            >(e),
        },
{
    let ghost views = text_views(texts@);
    let mut entries: Vec<MetadataEntry> = Vec::new();
    let mut i: usize = 0;
    proof {
        assert(entry_views(entries@) =~= Seq::empty());
    }
    while i < texts.len()
        invariant
            i <= texts.len(),
            views == text_views(texts@),
            collected_readings(views.take(i as int)) == Ok::<Seq<EntryView>, MetadataError>(
                entry_views(entries@),
            ),
        decreases texts.len() - i,
    {
        let ghost earlier = entry_views(entries@);
        proof {
            assert(views.take(i + 1).drop_last() =~= views.take(i as int));
        }
        match metadata_entries(texts[i].as_str()) {
            Ok(mut more) => {
                let ghost added = entry_views(more@);
                entries.append(&mut more);
                proof {
                    assert(entry_views(entries@) =~= earlier + added);
                }
            },
            Err(MetadataError::Malformed) => {},
            Err(e) => {
                proof {
                    collected_readings_fail(views, i + 1);
                }
                return Err(e);
            },
        }
        i += 1;
    }
    proof {
        assert(views.take(texts@.len() as int) =~= views);
    }
    Ok(entries)
}

/// The texts of a sequence of strings.
pub open spec fn text_views(texts: Seq<String>) -> Seq<Seq<char>> {
    texts.map_values(|text: String| text@)
}

/// The metadata directory that the sections of a configuration give,
/// from section `from` on: the text under `path` in the first section
/// that has such a key, the empty text where none has.  Every section up
/// to that one must be a mapping.
pub open spec fn path_in(sections: Seq<(Yaml, Yaml)>, from: int) -> Result<
    Seq<char>,
    MetadataError,
>
    decreases sections.len() - from,
{
    if from < 0 || from >= sections.len() {
        Ok(Seq::empty())
    } else {
        match yaml_entries(sections[from].1) {
            None => Err(MetadataError::SectionNotTable),
            Some(section) => match attribute(section, name_bytes("path"@)) {
                Some(node) => match yaml_text(node) {
                    Some(text) => Ok(text),
                    None => Err(MetadataError::PathNotText),
                },
                None => path_in(sections, from + 1),
            },
        }
    }
}

/// The metadata directory that a configuration text gives.  The
/// configuration is the first document of the text.
pub open spec fn configured_root(text: Seq<char>) -> Result<Seq<char>, MetadataError> {
    match yaml_documents(text) {
        None => Err(MetadataError::Malformed),
        Some(documents) => if documents.len() == 0 {
            Err(MetadataError::NoDocument)
        } else {
            match yaml_entries(documents[0]) {
                None => Err(MetadataError::RootNotTable),
                Some(sections) => path_in(sections, 0),
            }
        },
    }
}

/// Finds the metadata directory among the sections of a configuration.
pub fn find_root(sections: &Vec<(&Yaml, &Yaml)>) -> (r: Result<String, MetadataError>)
    ensures
        match r {
            Ok(path) => path_in(pairs_of(sections@), 0) == Ok::<Seq<char>, MetadataError>(path@),
            Err(e) => path_in(pairs_of(sections@), 0) == Err::<Seq<char>, MetadataError>(e),
        },
{
    let ghost pairs = pairs_of(sections@);
    let mut i: usize = 0;
    while i < sections.len()
        invariant
            i <= sections.len(),
            pairs == pairs_of(sections@),
            path_in(pairs, 0) == path_in(pairs, i as int),
        decreases sections.len() - i,
    {
        let section = match node_entries(sections[i].1) {
            Some(section) => section,
            None => {
                return Err(MetadataError::SectionNotTable);
            },
        };
        match find_attribute(&section, "path") {
            Some(node) => {
                return match node_text(node) {
                    Some(text) => Ok(text.to_owned()),
                    None => Err(MetadataError::PathNotText),
                };
            },
            None => {},
        }
        i += 1;
    }
    Ok(String::new())
}

/// Reads from a configuration text the directory in which the metadata
/// lies.  A configuration without a `path` gives the empty path.
pub fn metadata_root(config: &str) -> (r: Result<String, MetadataError>)
    ensures
        match r {
            Ok(path) => configured_root(config@) == Ok::<Seq<char>, MetadataError>(path@),
            Err(e) => configured_root(config@) == Err::<Seq<char>, MetadataError>(e),
        },
{
    let documents = match load_documents(config) {
        Ok(documents) => documents,
        Err(_) => {
            return Err(MetadataError::Malformed);
        },
    };
    if documents.len() == 0 {
        return Err(MetadataError::NoDocument);
    }
    match node_entries(&documents[0]) {
        Some(sections) => find_root(&sections),
        None => Err(MetadataError::RootNotTable),
    }
}

} // verus!
