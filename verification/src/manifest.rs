//! A manifest that was parsed, and the one edit made to it.

use vstd::prelude::*;
use crate::document::{
    assign_value, can_hold_keys, has_table_root, is_table_like, item_entry, item_value,
    parse_document, render, root_entry, string_value, toml_assign, toml_entry, toml_item_entry,
    toml_item_value, toml_parse, toml_render, toml_root_is_table, toml_string_value,
    toml_value_decor, toml_with_decor, value_decor, with_decor,
};
use crate::version::{Version, VersionView};

verus! {

/// Whether `package.version` can be set in a document: the root holds a table
/// under `package`, or nothing.
pub open spec fn accepts_version(doc: toml_edit::DocumentMut) -> bool {
    can_hold_keys(doc, "package"@)
}

/// The decoration of the value that a document holds at `package.version`:
/// the spaces and comments written around it. `None` where the document holds
/// no value there.
pub open spec fn version_decor(doc: toml_edit::DocumentMut) -> Option<toml_edit::Decor> {
    match toml_entry(doc, "package"@) {
        None => None,
        Some(package) => match toml_item_entry(package, "version"@) {
            None => None,
            Some(item) => match toml_item_value(item) {
                None => None,
                Some(value) => Some(toml_value_decor(value)),
            },
        },
    }
}

/// The value that an update puts at `package.version`: the string that holds
/// the text of `version`. It takes over the decoration of the value it
/// replaces, and has the default decoration where it replaces none.
pub open spec fn version_value(doc: toml_edit::DocumentMut, version: VersionView) -> toml_edit::Value {
    match version_decor(doc) {
        Some(decor) => toml_with_decor(toml_string_value(version.text()), decor),
        None => toml_string_value(version.text()),
    }
}

/// The document with `package.version` set to the text of `version`.
pub open spec fn with_version(
    doc: toml_edit::DocumentMut,
    version: VersionView,
) -> toml_edit::DocumentMut {
    toml_assign(doc, "package"@, "version"@, version_value(doc, version))
}

/// A manifest as an editable document. Its root is a table: a manifest is made
/// by parsing, or from a document whose root was tested.
pub struct Manifest {
    doc: toml_edit::DocumentMut,
}

impl Manifest {
    /// The document that the manifest holds.
    pub closed spec fn document(&self) -> toml_edit::DocumentMut {
        self.doc
    }

    /// The manifest's invariant: the root of its document is a table.
    pub open spec fn wf(&self) -> bool {
        toml_root_is_table(self.document())
    }

    /// Parses a manifest's text. Fails, with the parser's report, exactly where
    /// the text is not valid TOML.
    pub fn parse(text: &str) -> (r: Result<Manifest, toml_edit::TomlError>)
        ensures
            match r {
                Ok(manifest) => manifest.wf() && toml_parse(text@) == Some(manifest.document()),
                Err(_) => toml_parse(text@) is None,
            },
    {
        match parse_document(text) {
            Ok(doc) => Ok(Manifest { doc }),
            Err(cause) => Err(cause),
        }
    }

    /// Takes a document made elsewhere as a manifest, if its root is a table.
    pub fn from_document(doc: toml_edit::DocumentMut) -> (r: Option<Manifest>)
        ensures
            match r {
                Some(manifest) => manifest.wf() && manifest.document() == doc,
                None => !toml_root_is_table(doc),
            },
    {
        if has_table_root(&doc) {
            Some(Manifest { doc })
        } else {
            None
        }
    }

    /// Tells whether `package.version` can be set in the manifest.
    pub fn can_set_version(&self) -> (r: bool)
        requires
            self.wf(),
        ensures
            r == accepts_version(self.document()),
    {
        match root_entry(&self.doc, "package") {
            Some(item) => is_table_like(item),
            None => true,
        }
    }

    /// Copies the decoration of the value at `package.version`, if the
    /// manifest holds one.
    pub fn current_decor(&self) -> (r: Option<toml_edit::Decor>)
        requires
            self.wf(),
        ensures
            r == version_decor(self.document()),
    {
        let package = match root_entry(&self.doc, "package") {
            Some(package) => package,
            None => { return None; },
        };
        let item = match item_entry(package, "version") {
            Some(item) => item,
            None => { return None; },
        };
        match item_value(item) {
            Some(value) => Some(value_decor(value)),
            None => None,
        }
    }

    /// Sets `package.version` to the canonical text of `version`, creating the
    /// key, and the table, where the manifest has none. The spaces and
    /// comments around the value that was there stay around the new one.
    pub fn set_version(&mut self, version: &Version)
        requires
            old(self).wf(),
            accepts_version(old(self).document()),
        ensures
            final(self).wf(),
            final(self).document() == with_version(old(self).document(), version@),
    {
        let fresh = string_value(version.to_text());
        let value = match self.current_decor() {
            Some(decor) => with_decor(fresh, decor),
            None => fresh,
        };
        assign_value(&mut self.doc, "package", "version", value);
    }

    /// Prints the manifest.
    pub fn to_text(&self) -> (r: String)
        requires
            self.wf(),
        ensures
            r@ == toml_render(self.document()),
    {
        render(&self.doc)
    }
}

} // verus!
