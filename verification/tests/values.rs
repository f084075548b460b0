use ferrule_zed::failure::UnknownServerError;
use ferrule_zed::launch::LaunchSpec;
use ferrule_zed::text::same_text;

#[test]
fn same_text_on_equal_slices() {
    assert!(same_text("", ""));
    assert!(same_text("ferrule-lsp", "ferrule-lsp"));
    assert!(same_text("\u{e9}t\u{e9} \u{1f980}", "\u{e9}t\u{e9} \u{1f980}"));
    let owned = String::from("ferrule") + "-lsp";
    assert!(same_text(&owned, "ferrule-lsp"));
}

#[test]
fn same_text_on_different_slices() {
    assert!(!same_text("", "a"));
    assert!(!same_text("a", ""));
    assert!(!same_text("ferrule-lsp", "ferrule-lsq"));
    assert!(!same_text("ferrule-lsp", "gerrule-lsp"));
    assert!(!same_text("ferrule-lsp", "ferrule-ls"));
    assert!(!same_text("ferrule-lsp", "ferrule-lspp"));
    assert!(!same_text("Ferrule-lsp", "ferrule-lsp"));
    assert!(!same_text("e\u{301}", "\u{e9}"));
}

#[test]
fn same_text_agrees_with_equality() {
    let samples = ["", "a", "ab", "ba", "ferrule-lsp", "clangd", "\u{e9}", "\u{1f980}"];
    for left in samples {
        for right in samples {
            assert_eq!(same_text(left, right), left == right);
        }
    }
}

#[test]
fn bare_launch_holds_only_the_program() {
    let launch = LaunchSpec::bare(String::from("/opt/bin/server"));
    assert_eq!(launch.program, "/opt/bin/server");
    assert!(launch.args.is_empty());
    assert!(launch.env.is_empty());
    assert_eq!(
        launch,
        LaunchSpec { program: String::from("/opt/bin/server"), args: vec![], env: vec![] }
    );
}

#[test]
fn error_records_the_identifier() {
    let error = UnknownServerError::new("pyright");
    assert_eq!(error.identifier, "pyright");
    assert_eq!(error, UnknownServerError { identifier: String::from("pyright") });
    assert_eq!(error.clone(), error);
}

#[test]
fn message_is_prefix_then_identifier() {
    assert_eq!(UnknownServerError::new("pyright").message(), "unknown language server: pyright");
    assert_eq!(UnknownServerError::new("").message(), "unknown language server: ");
    assert_eq!(
        UnknownServerError::new("a b\tc").message(),
        "unknown language server: a b\tc"
    );
    assert_eq!(
        UnknownServerError::new("\u{1f980}").message(),
        "unknown language server: \u{1f980}"
    );
}

#[test]
fn messages_differ_for_different_identifiers() {
    let first = UnknownServerError::new("clangd").message();
    let second = UnknownServerError::new("clangd ").message();
    assert_ne!(first, second);
}
