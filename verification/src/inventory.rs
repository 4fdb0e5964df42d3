//! The inventory: the tracked document that pins one version per chart.
//!
//! The document is kept as the editing library holds it, so that a change of
//! one field leaves the rest of the text alone. The updater only ever reads
//! string fields of top-level entries and writes the `version` field of one.

use crate::error::AdelieError;
use crate::helm::opt_text;
use crate::helm::Chart;
use std::str::FromStr;
use toml_edit::value;
use toml_edit::Document;
use toml_edit::TomlError;
use vstd::prelude::*;

verus! {

/// `toml_edit::Document`, an editable document. What the updater needs of
/// its contents goes by the names below.
#[verifier::external_type_specification]
#[verifier::external_body]
pub struct ExDocument(Document);

/// `toml_edit::TomlError`, carried through and never looked into.
#[verifier::external_type_specification]
#[verifier::external_body]
pub struct ExTomlError(TomlError);

/// What a document holds under `(entry, field)`, for every top-level entry that
/// is a table and every field that it has: the field's text where the field
/// is a string, `None` where it is of another kind.
pub type Fields = Map<(Seq<char>, Seq<char>), Option<Seq<char>>>;

/// The keys of a document's top-level entries, in document order.
pub uninterp spec fn document_keys(doc: Document) -> Seq<Seq<char>>;

/// The fields of a document's top-level entries.
pub uninterp spec fn document_fields(doc: Document) -> Fields;

/// The text that a document is written out as.
pub uninterp spec fn document_text(doc: Document) -> Seq<char>;

/// Whether the root of a document is a table, as it is in every document that
/// the parser gives. The editing library reads, indexes and writes out such
/// documents only; on any other it panics.
pub uninterp spec fn document_is_rooted(doc: Document) -> bool;

/// Keys and fields of the document that `text` is read as, or `None` where
/// `text` is not a well-formed document.
pub uninterp spec fn parsed_document(text: Seq<char>) -> Option<(Seq<Seq<char>>, Fields)>;

/// What is found under `(entry, field)`: `None` where there is no such
/// field, otherwise the field's text if it is a string.
pub open spec fn lookup(fields: Fields, entry: Seq<char>, field: Seq<char>) -> Option<
    Option<Seq<char>>,
> {
    if fields.contains_key((entry, field)) {
        Some(fields[(entry, field)])
    } else {
        None
    }
}

/// The characters of the outcome of a field read.
pub open spec fn read_text(found: Option<Option<String>>) -> Option<Option<Seq<char>>> {
    match found {
        Some(Some(text)) => Some(Some(text@)),
        Some(None) => Some(None),
        None => None,
    }
}

/// The characters of each string of a list.
pub open spec fn texts(list: Seq<String>) -> Seq<Seq<char>> {
    Seq::new(list.len(), |i: int| list[i]@)
}

/// `Document::from_str`, the parser of the editing library.
///
/// Trusted: whether a text is accepted, and the keys and fields of the
/// document read from it, depend on the text alone. The root of a document
/// that was read is a table.
#[verifier::external_body]
fn parse_document(text: &str) -> (r: Result<Document, TomlError>)
    ensures
        match r {
            Ok(doc) => {
                &&& document_is_rooted(doc)
                &&& parsed_document(text@) == Some((document_keys(doc), document_fields(doc)))
            },
            Err(_) => parsed_document(text@) is None,
        },
{
    Document::from_str(text)
}

/// `Document::iter`, with each key copied out.
///
/// Trusted: the keys of the top-level entries come out in document order.
#[verifier::external_body]
fn top_level_keys(doc: &Document) -> (keys: Vec<String>)
    requires
        document_is_rooted(*doc),
    ensures
        texts(keys@) == document_keys(*doc),
{
    doc.iter().map(|(key, _)| String::from(key)).collect()
}

/// `Table::get` on the document's root, then `Item::get` and `Item::as_str` on
/// what was found.
///
/// Trusted: the outer `None` means that the document has no entry `entry` with
/// a field `field`; the inner one that the field is not a string.
#[verifier::external_body]
fn read_field(doc: &Document, entry: &str, field: &str) -> (found: Option<Option<String>>)
    requires
        document_is_rooted(*doc),
    ensures
        read_text(found) == lookup(document_fields(*doc), entry@, field@),
{
    let item = doc.get(entry)?.get(field)?;
    Some(item.as_str().map(String::from))
}

/// Assignment through `IndexMut` of `Document` and of `Item`: the field
/// `field` of the entry `entry` becomes the string that `toml_edit::value`
/// makes of `text`.
///
/// Trusted: an existing field is replaced in place. No entry is added, removed
/// or moved, and no other field changes. Indexing panics on an entry that is
/// not a table, which the precondition leaves out.
#[verifier::external_body]
fn write_field(doc: &mut Document, entry: &str, field: &str, text: &str)
    requires
        document_is_rooted(*old(doc)),
        document_fields(*old(doc)).contains_key((entry@, field@)),
    ensures
        document_is_rooted(*final(doc)),
        document_keys(*final(doc)) == document_keys(*old(doc)),
        document_fields(*final(doc)) == document_fields(*old(doc)).insert(
            (entry@, field@),
            Some(text@),
        ),
{
    doc[entry][field] = value(text);
}

/// `Display` of `Document`, through `to_string`.
#[verifier::external_body]
fn write_out(doc: &Document) -> (text: String)
    requires
        document_is_rooted(*doc),
    ensures
        text@ == document_text(*doc),
{
    doc.to_string()
}

/// `Clone` of `Document` gives a document that cannot be told from the first.
pub assume_specification[ <Document as Clone>::clone ](doc: &Document) -> (copy: Document)
    ensures
        copy == *doc,
;

/// One tracked entry of the inventory.
#[derive(Clone, Debug)]
pub struct PackageReference {
    /// The entry's key in the inventory, unique within it.
    pub key: String,
    /// The chart's name in its repository: the entry's `chart` field, or the
    /// key where the entry has none.
    pub chart: String,
    /// The base URL of the chart's repository.
    pub repo: String,
    /// The version that the inventory pins.
    pub version: String,
    /// The application version that the inventory records, if any.
    pub app_version: Option<String>,
}

/// A tracked entry as plain text.
pub struct ReferenceView {
    pub key: Seq<char>,
    pub chart: Seq<char>,
    pub repo: Seq<char>,
    pub version: Seq<char>,
    pub app_version: Option<Seq<char>>,
}

impl View for PackageReference {
    type V = ReferenceView;

    open spec fn view(&self) -> ReferenceView {
        ReferenceView {
            key: self.key@,
            chart: self.chart@,
            repo: self.repo@,
            version: self.version@,
            app_version: match self.app_version {
                Some(text) => Some(text@),
                None => None,
            },
        }
    }
}

impl PackageReference {
    /// The chart that this reference pins.
    pub fn pinned_chart(&self) -> (chart: Chart)
        ensures
            chart.name@ == self.chart@,
            chart.repo@ == self.repo@,
            opt_text(chart.version) == Some(self.version@),
            opt_text(chart.app_version) == self@.app_version,
    {
        Chart {
            name: self.chart.clone(),
            repo: self.repo.clone(),
            version: Some(self.version.clone()),
            app_version: match &self.app_version {
                Some(text) => Some(text.clone()),
                None => None,
            },
        }
    }
}

/// The views of a list of references.
pub open spec fn reference_views(list: Seq<PackageReference>) -> Seq<ReferenceView> {
    Seq::new(list.len(), |i: int| list[i]@)
}

/// The reference that an entry stands for, given what was found under its
/// four fields, or `None` where the entry is not tracked.
///
/// An entry is tracked when its repository and its version are strings and
/// its chart name, if it gives one, is a string too. The application version
/// is informational: anything but a string counts as absent.
pub open spec fn entry_reference(
    key: Seq<char>,
    chart: Option<Option<Seq<char>>>,
    helm: Option<Option<Seq<char>>>,
    version: Option<Option<Seq<char>>>,
    app_version: Option<Option<Seq<char>>>,
) -> Option<ReferenceView> {
    if chart == Some(None::<Seq<char>>) {
        None
    } else if let (Some(Some(repo)), Some(Some(pinned))) = (helm, version) {
        Some(
            ReferenceView {
                key,
                chart: match chart {
                    Some(Some(name)) => name,
                    _ => key,
                },
                repo,
                version: pinned,
                app_version: match app_version {
                    Some(Some(text)) => Some(text),
                    _ => None,
                },
            },
        )
    } else {
        None
    }
}

/// The reference that the entry `key` of a document with these fields stands
/// for.
pub open spec fn tracked_entry(fields: Fields, key: Seq<char>) -> Option<ReferenceView> {
    entry_reference(
        key,
        lookup(fields, key, "chart"@),
        lookup(fields, key, "helm"@),
        lookup(fields, key, "version"@),
        lookup(fields, key, "appVersion"@),
    )
}

/// The references of a document: those of its tracked entries, in document
/// order.
pub open spec fn references_of(keys: Seq<Seq<char>>, fields: Fields) -> Seq<ReferenceView>
    decreases keys.len(),
{
    if keys.len() == 0 {
        Seq::empty()
    } else {
        let before = references_of(keys.drop_last(), fields);
        match tracked_entry(fields, keys.last()) {
            Some(reference) => before.push(reference),
            None => before,
        }
    }
}

/// Builds the reference of one entry from what was read of its fields.
pub fn reference_from_fields(
    key: String,
    chart: Option<Option<String>>,
    helm: Option<Option<String>>,
    version: Option<Option<String>>,
    app_version: Option<Option<String>>,
) -> (r: Option<PackageReference>)
    ensures
        match r {
            Some(reference) => Some(reference@) == entry_reference(
                key@,
                read_text(chart),
                read_text(helm),
                read_text(version),
                read_text(app_version),
            ),
            None => entry_reference(
                key@,
                read_text(chart),
                read_text(helm),
                read_text(version),
                read_text(app_version),
            ) is None,
        },
{
    let name = match chart {
        None => key.clone(),
        Some(Some(name)) => name,
        Some(None) => {
            return None;
        },
    };
    let repo = match helm {
        Some(Some(repo)) => repo,
        _ => {
            return None;
        },
    };
    let pinned = match version {
        Some(Some(pinned)) => pinned,
        _ => {
            return None;
        },
    };
    let recorded = match app_version {
        Some(Some(text)) => Some(text),
        _ => None,
    };
    Some(PackageReference { key, chart: name, repo, version: pinned, app_version: recorded })
}

/// The inventory document.
pub struct Inventory {
    document: Document,
}

impl Inventory {
    #[verifier::type_invariant]
    spec fn rooted(self) -> bool {
        document_is_rooted(self.document)
    }

    /// The keys of the top-level entries, in document order.
    pub closed spec fn keys(&self) -> Seq<Seq<char>> {
        document_keys(self.document)
    }

    /// The fields of the top-level entries.
    pub closed spec fn fields(&self) -> Fields {
        document_fields(self.document)
    }

    /// The text that the document is written out as.
    pub closed spec fn text(&self) -> Seq<char> {
        document_text(self.document)
    }

    /// The tracked entries, in document order.
    pub open spec fn references_spec(&self) -> Seq<ReferenceView> {
        references_of(self.keys(), self.fields())
    }

    /// Whether this inventory is `base` with the entry `key` pinned to
    /// `version`: the same entries in the same order, and the same fields but
    /// for that one.
    pub open spec fn is_patch_of(&self, base: &Inventory, key: Seq<char>, version: Seq<char>) -> bool {
        &&& self.keys() == base.keys()
        &&& self.fields() == base.fields().insert((key, "version"@), Some(version))
    }

    /// Reads the inventory from its text.
    pub fn parse(text: &str) -> (r: Result<Inventory, AdelieError>)
        ensures
            match r {
                Ok(inventory) => parsed_document(text@) == Some(
                    (inventory.keys(), inventory.fields()),
                ),
                Err(e) => e == AdelieError::Decode && parsed_document(text@) is None,
            },
    {
        match parse_document(text) {
            Ok(document) => Ok(Inventory { document }),
            Err(_) => Err(AdelieError::Decode),
        }
    }

    /// Reads one field of one entry.
    pub fn field(&self, key: &str, name: &str) -> (found: Option<Option<String>>)
        ensures
            read_text(found) == lookup(self.fields(), key@, name@),
    {
        proof {
            use_type_invariant(self);
        }
        read_field(&self.document, key, name)
    }

    /// Lists the tracked entries.
    pub fn references(&self) -> (list: Vec<PackageReference>)
        ensures
            reference_views(list@) == self.references_spec(),
    {
        proof {
            use_type_invariant(self);
        }
        let keys = top_level_keys(&self.document);
        let ghost all = self.keys();
        let ghost fields = self.fields();
        let mut list: Vec<PackageReference> = Vec::new();
        let mut i: usize = 0;
        assert(all.take(0) =~= Seq::<Seq<char>>::empty());
        assert(reference_views(list@) =~= Seq::<ReferenceView>::empty());
        while i < keys.len()
            invariant
                i <= keys.len(),
                texts(keys@) == all,
                all == self.keys(),
                fields == self.fields(),
                document_is_rooted(self.document),
                reference_views(list@) == references_of(all.take(i as int), fields),
            decreases keys.len() - i,
        {
            let key = keys[i].clone();
            assert(key@ == all[i as int]) by {
                assert(texts(keys@)[i as int] == keys@[i as int]@);
            }
            let chart = read_field(&self.document, key.as_str(), "chart");
            let helm = read_field(&self.document, key.as_str(), "helm");
            let version = read_field(&self.document, key.as_str(), "version");
            let app_version = read_field(&self.document, key.as_str(), "appVersion");
            let ghost before = reference_views(list@);
            proof {
                let upto = all.take(i as int + 1);
                assert(upto.drop_last() =~= all.take(i as int));
                assert(upto.last() == all[i as int]);
            }
            match reference_from_fields(key, chart, helm, version, app_version) {
                Some(reference) => {
                    list.push(reference);
                    assert(reference_views(list@) =~= before.push(reference@));
                },
                None => {},
            }
            i = i + 1;
        }
        assert(all.take(i as int) =~= all);
        list
    }

    /// Pins the entry `key` to `version` in a copy of the inventory.
    ///
    /// Only an entry that has a `version` field can be pinned. Nothing else
    /// in the copy differs from this inventory.
    pub fn with_version(&self, key: &str, version: &str) -> (r: Option<Inventory>)
        ensures
            r is Some <==> self.fields().contains_key((key@, "version"@)),
            r matches Some(patched) ==> patched.is_patch_of(self, key@, version@),
    {
        proof {
            use_type_invariant(self);
        }
        match read_field(&self.document, key, "version") {
            Some(_) => {
                let mut document = self.document.clone();
                write_field(&mut document, key, "version", version);
                Some(Inventory { document })
            },
            None => None,
        }
    }

    /// Writes the inventory out as text.
    pub fn render(&self) -> (out: String)
        ensures
            out@ == self.text(),
    {
        proof {
            use_type_invariant(self);
        }
        write_out(&self.document)
    }
}

/// Pinning one entry to a version changes what is read under that entry's
/// `version` field and nothing else: every other field of every entry reads
/// as before, and the entries stay in their order.
pub proof fn law_patch_keeps_other_fields(
    base: Inventory,
    patched: Inventory,
    key: Seq<char>,
    version: Seq<char>,
    other_key: Seq<char>,
    other_field: Seq<char>,
)
    requires
        patched.is_patch_of(&base, key, version),
        (other_key, other_field) != (key, "version"@),
    ensures
        lookup(patched.fields(), other_key, other_field) == lookup(
            base.fields(),
            other_key,
            other_field,
        ),
        lookup(patched.fields(), key, "version"@) == Some(Some(version)),
        patched.keys() == base.keys(),
{
}

/// Every reference of a document can be pinned: the document has a `version`
/// field under the reference's key, and that field holds the version that
/// the reference gives as pinned.
pub proof fn law_references_can_be_pinned(keys: Seq<Seq<char>>, fields: Fields, i: int)
    requires
        0 <= i < references_of(keys, fields).len(),
    ensures
        lookup(fields, references_of(keys, fields)[i].key, "version"@) == Some(
            Some(references_of(keys, fields)[i].version),
        ),
    decreases keys.len(),
{
    if keys.len() > 0 {
        let before = references_of(keys.drop_last(), fields);
        if i < before.len() {
            law_references_can_be_pinned(keys.drop_last(), fields, i);
        }
    }
}

} // verus!
