//! The calls into `toml_edit`, which parses, edits and prints a manifest and
//! keeps its comments, spacing and order of keys.
//!
//! A document is opaque here: the contracts below give each operation's result
//! a name and say nothing of its inside.

use vstd::prelude::*;

verus! {

/// `toml_edit::DocumentMut`: a parsed document that can be edited and printed.
#[verifier::external_type_specification]
#[verifier::external_body]
pub struct ExDocumentMut(toml_edit::DocumentMut);

/// `toml_edit::Item`: what a table holds under a key.
#[verifier::external_type_specification]
#[verifier::external_body]
pub struct ExItem(toml_edit::Item);

/// `toml_edit::Value`: a value, with the decoration written around it.
#[verifier::external_type_specification]
#[verifier::external_body]
pub struct ExValue(toml_edit::Value);

/// `toml_edit::Decor`: the text before and after a value, spaces and comments.
#[verifier::external_type_specification]
#[verifier::external_body]
pub struct ExDecor(toml_edit::Decor);

/// `toml_edit::TomlError`: why a text is not valid TOML.
#[verifier::external_type_specification]
#[verifier::external_body]
pub struct ExTomlError(toml_edit::TomlError);

/// The document that `toml_edit` reads from a text, or `None` where the text is
/// not valid TOML.
pub uninterp spec fn toml_parse(text: Seq<char>) -> Option<toml_edit::DocumentMut>;

/// Whether the root item of a document is a table. It is one in every parsed
/// document; the root of a document can be replaced by hand with another item,
/// and looking up, assigning and printing then fail.
pub uninterp spec fn toml_root_is_table(doc: toml_edit::DocumentMut) -> bool;

/// The item that a document's root table holds under a key, or `None` where it
/// holds nothing there.
pub uninterp spec fn toml_entry(doc: toml_edit::DocumentMut, key: Seq<char>) -> Option<
    toml_edit::Item,
>;

/// Whether an item is a table, written with a header or inline.
pub uninterp spec fn toml_table_like(item: toml_edit::Item) -> bool;

/// The item that a table, of either form, holds under a key; `None` where it
/// holds nothing there, or where the item is no table.
pub uninterp spec fn toml_item_entry(item: toml_edit::Item, key: Seq<char>) -> Option<
    toml_edit::Item,
>;

/// The value that an item is, or `None` where it is a table, an array of
/// tables, or nothing.
pub uninterp spec fn toml_item_value(item: toml_edit::Item) -> Option<toml_edit::Value>;

/// The decoration of a value: what is written before and after it, spaces and
/// comments.
pub uninterp spec fn toml_value_decor(value: toml_edit::Value) -> toml_edit::Decor;

/// The string value that holds a text, with the default decoration.
pub uninterp spec fn toml_string_value(text: Seq<char>) -> toml_edit::Value;

/// A value with its decoration replaced by `decor`.
pub uninterp spec fn toml_with_decor(
    value: toml_edit::Value,
    decor: toml_edit::Decor,
) -> toml_edit::Value;

/// The document after `doc[table][key]` was given a value.
pub uninterp spec fn toml_assign(
    doc: toml_edit::DocumentMut,
    table: Seq<char>,
    key: Seq<char>,
    value: toml_edit::Value,
) -> toml_edit::DocumentMut;

/// The text that a document prints as.
pub uninterp spec fn toml_render(doc: toml_edit::DocumentMut) -> Seq<char>;

/// Whether `doc[table]` can be given keys: nothing stands under `table` in the
/// root, or a table does.
pub open spec fn can_hold_keys(doc: toml_edit::DocumentMut, table: Seq<char>) -> bool {
    match toml_entry(doc, table) {
        Some(item) => toml_table_like(item),
        None => true,
    }
}

/// Calls `str::parse` for `toml_edit::DocumentMut`. The result is the document
/// that `toml_edit` reads from the text, and an error exactly where it reads
/// none. The parser starts every document from a root table.
#[verifier::external_body]
pub(crate) fn parse_document(text: &str) -> (r: Result<
    toml_edit::DocumentMut,
    toml_edit::TomlError,
>)
    ensures
        match r {
            Ok(doc) => toml_parse(text@) == Some(doc) && toml_root_is_table(doc),
            Err(_) => toml_parse(text@) is None,
        },
{
    text.parse::<toml_edit::DocumentMut>()
}

/// Calls `toml_edit::Item::is_table` on the document's root item, which
/// `as_item` hands out: whether the root is a table.
#[verifier::external_body]
pub(crate) fn has_table_root(doc: &toml_edit::DocumentMut) -> (r: bool)
    ensures
        r == toml_root_is_table(*doc),
{
    doc.as_item().is_table()
}

/// Calls `toml_edit::Table::get` on the document's root table. The result is
/// the item under `key`, and `None` where the root holds nothing there. The
/// call goes through the root as a table, which the precondition asks for.
#[verifier::external_body]
pub(crate) fn root_entry<'a>(doc: &'a toml_edit::DocumentMut, key: &str) -> (r: Option<
    &'a toml_edit::Item,
>)
    requires
        toml_root_is_table(*doc),
    ensures
        match r {
            Some(item) => toml_entry(*doc, key@) == Some(*item),
            None => toml_entry(*doc, key@) is None,
        },
{
    doc.get(key)
}

/// Calls `toml_edit::Item::is_table_like`: whether the item is a table or an
/// inline table.
#[verifier::external_body]
pub(crate) fn is_table_like(item: &toml_edit::Item) -> (r: bool)
    ensures
        r == toml_table_like(*item),
{
    item.is_table_like()
}

/// Calls `toml_edit::Item::get` with a key. The result is the item that a
/// table or inline table holds under `key`, and `None` where it holds nothing
/// there or `item` is neither.
#[verifier::external_body]
pub(crate) fn item_entry<'a>(item: &'a toml_edit::Item, key: &str) -> (r: Option<
    &'a toml_edit::Item,
>)
    ensures
        match r {
            Some(found) => toml_item_entry(*item, key@) == Some(*found),
            None => toml_item_entry(*item, key@) is None,
        },
{
    item.get(key)
}

/// Calls `toml_edit::Item::as_value`: the value that the item is, if it is
/// one.
#[verifier::external_body]
pub(crate) fn item_value<'a>(item: &'a toml_edit::Item) -> (r: Option<&'a toml_edit::Value>)
    ensures
        match r {
            Some(value) => toml_item_value(*item) == Some(*value),
            None => toml_item_value(*item) is None,
        },
{
    item.as_value()
}

/// Calls `toml_edit::Value::decor` and copies what it returns: the decoration
/// of the value.
#[verifier::external_body]
pub(crate) fn value_decor(value: &toml_edit::Value) -> (r: toml_edit::Decor)
    ensures
        r == toml_value_decor(*value),
{
    value.decor().clone()
}

/// Calls `toml_edit::Value::from` on a `String`: the string value that holds
/// the text.
#[verifier::external_body]
pub(crate) fn string_value(text: String) -> (r: toml_edit::Value)
    ensures
        r == toml_string_value(text@),
{
    toml_edit::Value::from(text)
}

/// Replaces a value's decoration through `toml_edit::Value::decor_mut` and
/// hands the value back.
#[verifier::external_body]
pub(crate) fn with_decor(value: toml_edit::Value, decor: toml_edit::Decor) -> (r: toml_edit::Value)
    ensures
        r == toml_with_decor(value, decor),
{
    let mut value = value;
    *value.decor_mut() = decor;
    value
}

/// Assigns `toml_edit::value(value)` to `doc[table][key]`. Indexing goes
/// through the root as an item and creates `table` where the root holds
/// nothing under it. It fails where the root is no table, or where something
/// other than a table stands under `table`, which the precondition leaves
/// out. The document afterwards is the named result of the assignment; its
/// root is the same table, with the entry changed.
#[verifier::external_body]
pub(crate) fn assign_value(
    doc: &mut toml_edit::DocumentMut,
    table: &str,
    key: &str,
    value: toml_edit::Value,
)
    requires
        toml_root_is_table(*old(doc)),
        can_hold_keys(*old(doc), table@),
    ensures
        *final(doc) == toml_assign(*old(doc), table@, key@, value),
        toml_root_is_table(*final(doc)),
{
    doc[table][key] = toml_edit::value(value);
}

/// Calls `to_string` on the document: the text it prints as. Printing reads
/// the root as a table, which the precondition asks for.
#[verifier::external_body]
pub(crate) fn render(doc: &toml_edit::DocumentMut) -> (r: String)
    requires
        toml_root_is_table(*doc),
    ensures
        r@ == toml_render(*doc),
{
    doc.to_string()
}

} // verus!
