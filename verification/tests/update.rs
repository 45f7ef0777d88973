use cargo_verbump::{confirm_write, update_version, Args, Manifest, Step, Version};

const MANIFEST: &str = "[package]\nname = \"test\"\nversion = \"0.0.0\"\n";

fn args_for(path: &str, major: u64, minor: u64, patch: u64) -> Args {
    Args { path: path.to_string(), new_version: Version::new(major, minor, patch) }
}

#[test]
fn read_fail() {
    let temp = tempfile::tempdir().expect("Failed to create a temporary test directory");

    let path = temp.path().join("Cargo.toml");

    let args = Args { path: path.display().to_string(), new_version: Version::new(0, 1, 0) };

    let result = update_version(args, None)
        .expect_err("Expected update_version() to fail due to missing file, but it succeeded");

    assert_eq!(
        format!("Failed to read the `{}` file", path.display()),
        result.message(),
        "Expected update_version() to fail due to file read operation",
    );
}

#[test]
fn parse_fail() {
    let temp = tempfile::tempdir().expect("Failed to create a temporary test directory");

    let path = temp.path().join("Cargo.toml");

    let args = Args { path: path.display().to_string(), new_version: Version::new(0, 1, 0) };

    let result = update_version(args, Some("this is not a good TOML contents btw"))
        .expect_err("Expected update_version() to fail due to parsing error, but it succeeded");

    assert_eq!(
        format!("Failed to parse the `{}` file", path.display()),
        result.message(),
        "Expected update_version() to fail due to file read operation",
    );
}

#[test]
fn write_fail() {
    let temp = tempfile::tempdir().expect("Failed to create a temporary test directory");

    let path = temp.path().join("Cargo.toml");

    let args = Args { path: path.display().to_string(), new_version: Version::new(0, 1, 0) };

    let new_text = update_version(args.clone(), Some(MANIFEST))
        .expect("Expected the manifest to be updated")
        .expect("Expected a text to write");
    assert_eq!("[package]\nname = \"test\"\nversion = \"0.1.0\"\n", new_text);

    let result = confirm_write(&args, false)
        .expect_err("Expected update_version() to fail due to parsing error, but it succeeded");

    assert_eq!(
        format!("Failed to write the `{}` file", path.display()),
        result.message(),
        "Expected update_version() to fail due to file read operation",
    );
}

#[test]
fn success() {
    let temp = tempfile::tempdir().expect("Failed to create a temporary test directory");

    let path = temp.path().join("Cargo.toml");

    let args = Args { path: path.display().to_string(), new_version: Version::new(0, 1, 0) };

    let result = update_version(args.clone(), Some("[package]\nname = \"test\"\nversion = \"0.0.0\"\n"))
        .expect("Expected update_version() to fail due to parsing error, but it succeeded")
        .expect("Expected a text to write");

    confirm_write(&args, true).expect("Expected the write to be accepted");

    assert_eq!(
        "[package]\nname = \"test\"\nversion = \"0.1.0\"\n",
        result,
        "The resulting Cargo.toml file is incorrect",
    );
}

#[test]
fn read_failure_names_the_path_given() {
    let e = update_version(args_for("some/where/else.toml", 1, 2, 3), None).unwrap_err();
    assert_eq!(Step::Read, e.step);
    assert_eq!("some/where/else.toml", e.path);
    assert_eq!("Failed to read the `some/where/else.toml` file", e.message());
}

#[test]
fn parse_failure_names_the_path_given() {
    let e = update_version(args_for("a.toml", 1, 2, 3), Some("[package\nname = ")).unwrap_err();
    assert_eq!(Step::Parse, e.step);
    assert_eq!("a.toml", e.path);
    assert_eq!("Failed to parse the `a.toml` file", e.message());
}

#[test]
fn write_failure_names_the_path_given() {
    let args = args_for("b.toml", 1, 2, 3);
    let e = confirm_write(&args, false).unwrap_err();
    assert_eq!(Step::Write, e.step);
    assert_eq!("b.toml", e.path);
    assert_eq!("Failed to write the `b.toml` file", e.message());
    assert_eq!(Ok(()), confirm_write(&args, true));
}

#[test]
fn second_update_changes_nothing() {
    let once = update_version(args_for("Cargo.toml", 2, 0, 1), Some(MANIFEST)).unwrap().unwrap();
    let twice = update_version(args_for("Cargo.toml", 2, 0, 1), Some(&once)).unwrap().unwrap();
    assert_eq!("[package]\nname = \"test\"\nversion = \"2.0.1\"\n", once);
    assert_eq!(once, twice);
}

#[test]
fn comments_order_and_spacing_stay() {
    let before = "# top comment\n[workspace]\nmembers = [ \"a\",   \"b\" ]\n\n[package]\nversion   =   \"0.3.9\"   # the version\nname = 'kept'   # a name\n\n[dependencies]\n  serde = { version = \"1\", features = [\"derive\"] }\n# the end\n";
    let after = update_version(args_for("Cargo.toml", 0, 4, 0), Some(before)).unwrap().unwrap();
    let expected = "# top comment\n[workspace]\nmembers = [ \"a\",   \"b\" ]\n\n[package]\nversion   =   \"0.4.0\"   # the version\nname = 'kept'   # a name\n\n[dependencies]\n  serde = { version = \"1\", features = [\"derive\"] }\n# the end\n";
    assert_eq!(expected, after);
}

#[test]
fn version_with_tags_is_written_whole() {
    let version = Version::parse("1.0.0-rc.1+build.5").unwrap();
    let args = Args { path: "Cargo.toml".to_string(), new_version: version };
    let after = update_version(args, Some(MANIFEST)).unwrap().unwrap();
    assert_eq!("[package]\nname = \"test\"\nversion = \"1.0.0-rc.1+build.5\"\n", after);
}

#[test]
fn missing_version_key_is_added_to_the_package() {
    let after = update_version(args_for("Cargo.toml", 0, 1, 0), Some("[package]\nname = \"test\"\n"))
        .unwrap()
        .unwrap();
    assert_eq!("[package]\nname = \"test\"\nversion = \"0.1.0\"\n", after);
}

#[test]
fn missing_package_table_is_created() {
    let after = update_version(args_for("Cargo.toml", 0, 1, 0), Some("")).unwrap().unwrap();
    assert_eq!("package = { version = \"0.1.0\" }\n", after);
}

#[test]
fn inline_package_table_is_updated() {
    let after = update_version(
        args_for("Cargo.toml", 3, 2, 1),
        Some("package = { name = \"test\", version = \"0.0.0\" }\n"),
    )
    .unwrap()
    .unwrap();
    assert_eq!("package = { name = \"test\", version = \"3.2.1\" }\n", after);
}

#[test]
fn package_that_is_no_table_gives_nothing_to_write() {
    assert_eq!(Ok(None), update_version(args_for("Cargo.toml", 0, 1, 0), Some("package = 1\n")));
    assert_eq!(
        Ok(None),
        update_version(args_for("Cargo.toml", 0, 1, 0), Some("[[package]]\nname = \"test\"\n"))
    );
}

#[test]
fn comment_on_the_version_line_stays() {
    let after = update_version(
        args_for("Cargo.toml", 1, 0, 0),
        Some("[package]\nversion=\t\"0.9.9\"# soon\nname = \"test\"\n"),
    )
    .unwrap()
    .unwrap();
    assert_eq!("[package]\nversion=\t\"1.0.0\"# soon\nname = \"test\"\n", after);
}

#[test]
fn version_of_another_type_becomes_a_string() {
    let after = update_version(
        args_for("Cargo.toml", 0, 1, 0),
        Some("[package]\nversion =  7  # seven\n"),
    )
    .unwrap()
    .unwrap();
    assert_eq!("[package]\nversion =  \"0.1.0\"  # seven\n", after);
}

#[test]
fn version_that_was_a_table_becomes_a_string() {
    let after = update_version(
        args_for("Cargo.toml", 0, 1, 0),
        Some("[package]\nname = \"test\"\nversion.workspace = true\n"),
    )
    .unwrap()
    .unwrap();
    assert_eq!("[package]\nname = \"test\"\nversion = \"0.1.0\"\n", after);
}

#[test]
fn set_version_edits_a_parsed_manifest() {
    let mut manifest = Manifest::parse(MANIFEST).unwrap();
    assert!(manifest.can_set_version());
    manifest.set_version(&Version::new(10, 20, 30));
    assert_eq!("[package]\nname = \"test\"\nversion = \"10.20.30\"\n", manifest.to_text());
}

#[test]
fn manifest_prints_as_it_was_written() {
    let text = "# a comment\n[package]\nname   = \"test\"\n\n[dependencies]\n";
    assert_eq!(text, Manifest::parse(text).unwrap().to_text());
}

#[test]
fn manifest_parse_reports_what_is_wrong() {
    assert!(Manifest::parse("this is not a good TOML contents btw").is_err());
    assert!(Manifest::parse("[package\n").is_err());
    assert!(Manifest::parse("").is_ok());
}

#[test]
fn can_set_version_tells_tables_from_values() {
    assert!(Manifest::parse("[package]\n").unwrap().can_set_version());
    assert!(Manifest::parse("package = {}\n").unwrap().can_set_version());
    assert!(Manifest::parse("[other]\n").unwrap().can_set_version());
    assert!(!Manifest::parse("package = \"no\"\n").unwrap().can_set_version());
    assert!(!Manifest::parse("package = [1, 2]\n").unwrap().can_set_version());
    assert!(!Manifest::parse("[[package]]\n").unwrap().can_set_version());
}

#[test]
fn current_decor_is_what_stands_around_the_version() {
    let manifest = Manifest::parse("[package]\nversion =   \"1.0.0\" # one\n").unwrap();
    let decor = manifest.current_decor().expect("the version is a value");
    assert_eq!(Some("   "), decor.prefix().and_then(|raw| raw.as_str()));
    assert_eq!(Some(" # one"), decor.suffix().and_then(|raw| raw.as_str()));

    let no_package = Manifest::parse("[other]\nversion = \"1.0.0\"\n").unwrap();
    let no_version = Manifest::parse("[package]\nname = \"test\"\n").unwrap();
    let table = Manifest::parse("[package.version]\nworkspace = true\n").unwrap();
    assert!(no_package.current_decor().is_none());
    assert!(no_version.current_decor().is_none());
    assert!(table.current_decor().is_none());
}

#[test]
fn document_with_a_table_root_is_taken() {
    let doc: toml_edit::DocumentMut = MANIFEST.parse().unwrap();
    let mut manifest = Manifest::from_document(doc).expect("the root is a table");
    manifest.set_version(&Version::new(0, 2, 0));
    assert_eq!("[package]\nname = \"test\"\nversion = \"0.2.0\"\n", manifest.to_text());
    assert!(Manifest::from_document(toml_edit::DocumentMut::new()).is_some());
}

#[test]
fn document_with_another_root_is_refused() {
    let mut value_root = toml_edit::DocumentMut::new();
    *value_root.as_item_mut() = toml_edit::value(1);
    assert!(Manifest::from_document(value_root).is_none());

    let mut array_root = toml_edit::DocumentMut::new();
    *array_root.as_item_mut() = toml_edit::array();
    assert!(Manifest::from_document(array_root).is_none());
}

#[test]
fn parse_failure_keeps_the_parser_report() {
    let text = "[package]\nname = \n";
    let e = update_version(args_for("Cargo.toml", 0, 1, 0), Some(text)).unwrap_err();
    let theirs = text.parse::<toml_edit::DocumentMut>().unwrap_err();
    assert_eq!(Step::Parse, e.step);
    assert_eq!(Some(theirs), e.cause);
}

#[test]
fn read_and_write_failures_have_no_cause() {
    let args = args_for("Cargo.toml", 0, 1, 0);
    assert_eq!(None, update_version(args.clone(), None).unwrap_err().cause);
    assert_eq!(None, confirm_write(&args, false).unwrap_err().cause);
}
