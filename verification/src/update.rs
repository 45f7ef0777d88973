//! The update itself: from the manifest's text to the text to write back.

use vstd::prelude::*;
use crate::document::{toml_parse, toml_render};
use crate::error::{attribute, attribute_parse, Step, UpdateError};
use crate::manifest::{accepts_version, with_version, Manifest};
use crate::version::{Version, VersionView};

verus! {

/// What to update: the manifest's path and the version to set in it.
#[derive(Clone, Debug)]
pub struct Args {
    pub path: String,
    pub new_version: Version,
}

/// What an update makes of a manifest's text: `None` where the text is not
/// valid TOML; `Some(None)` where it is, but `package` is not a table;
/// otherwise the text of the manifest with the version set.
pub open spec fn updated_text(text: Seq<char>, version: VersionView) -> Option<Option<Seq<char>>> {
    match toml_parse(text) {
        None => None,
        Some(doc) => Some(
            if accepts_version(doc) {
                Some(toml_render(with_version(doc, version)))
            } else {
                None
            },
        ),
    }
}

/// Computes the new text of the manifest at `args.path` from what was read of
/// it: `contents` is the manifest's text, or `None` where it could not be read.
///
/// Fails with the read step where nothing was read, and with the parse step
/// and the parser's report where the text is not valid TOML. Otherwise returns
/// the text to write back: the manifest with `package.version` set to
/// `args.new_version`. Where `package` is there and is not a table, the
/// version has no place to go, and the result is `Ok(None)`: nothing is to be
/// written.
pub fn update_version(args: Args, contents: Option<&str>) -> (r: Result<
    Option<String>,
    UpdateError,
>)
    ensures
        match contents {
            None => r is Err && r->Err_0.step == Step::Read && r->Err_0.path@ == args.path@
                && r->Err_0.cause is None,
            Some(text) => match updated_text(text@, args.new_version@) {
                None => r is Err && r->Err_0.step == Step::Parse && r->Err_0.path@ == args.path@
                    && r->Err_0.cause is Some,
                Some(None) => r is Ok && r->Ok_0 is None,
                Some(Some(new_text)) => r is Ok && r->Ok_0 is Some && r->Ok_0->Some_0@
                    == new_text,
            },
        },
{
    let text = match attribute(contents, Step::Read, args.path.as_str()) {
        Ok(text) => text,
        Err(e) => { return Err(e); },
    };
    let mut manifest = match attribute_parse(Manifest::parse(text), args.path.as_str()) {
        Ok(manifest) => manifest,
        Err(e) => { return Err(e); },
    };
    if !manifest.can_set_version() {
        return Ok(None);
    }
    manifest.set_version(&args.new_version);
    Ok(Some(manifest.to_text()))
}

/// Closes an update once the new text was handed to the file system:
/// `written` tells whether the manifest at `args.path` took it. Fails with the
/// write step where it did not.
pub fn confirm_write(args: &Args, written: bool) -> (r: Result<(), UpdateError>)
    ensures
        written ==> r is Ok,
        !written ==> r is Err && r->Err_0.step == Step::Write && r->Err_0.path@ == args.path@
            && r->Err_0.cause is None,
{
    let outcome = if written {
        Some(())
    } else {
        None
    };
    attribute(outcome, Step::Write, args.path.as_str())
}

} // verus!
