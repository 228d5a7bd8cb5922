use cargopal::cli::Cli;
use cargopal::cli::Commands;
use cargopal::scaffold::handle;
use cargopal::scaffold::FileBody;
use cargopal::scaffold::ScaffoldError;
use cargopal::scaffold::TemplateFile;

fn file(path: &str, data: &[u8]) -> TemplateFile {
    TemplateFile { path: String::from(path), data: data.to_vec() }
}

/// A small template store of the shape the tool embeds: a cli and a web
/// template, each with a rendered manifest and a static source file.
fn store() -> Vec<TemplateFile> {
    vec![
        file(
            "cli/Cargo.toml.hbs",
            b"[package]\nname = \"{{name}}\"\nversion = \"0.1.0\"\nedition = \"2021\"\n",
        ),
        file("cli/src/main.rs", b"fn main() { println!(\"Hello, World!\"); }\n"),
        file(
            "web/Cargo.toml.hbs",
            b"[package]\nname = \"{{name}}\"\nversion = \"0.1.0\"\nedition = \"2021\"\n",
        ),
        file("web/src/main.rs", b"fn main() { serve(); }\n"),
        file("web/.cargopal.toml", b"template = \"web\"\n"),
    ]
}

#[test]
fn runs_new_cli_command() {
    let files = store();
    let plan = handle("cli", "myapp", &files).expect("the cli template must scaffold");
    assert_eq!(plan.len(), 2);

    assert_eq!(plan[0].path, "Cargo.toml");
    match &plan[0].body {
        FileBody::Rendered(text) => {
            assert!(text.contains("[package]"));
            assert!(text.contains("name = \"myapp\""));
            assert!(!text.contains("{{name}}"));
        }
        FileBody::Copied(_) => panic!("the manifest template must be rendered"),
    }

    assert_eq!(plan[1].path, "src/main.rs");
    match &plan[1].body {
        FileBody::Copied(bytes) => {
            assert_eq!(bytes.as_slice(), b"fn main() { println!(\"Hello, World!\"); }\n");
        }
        FileBody::Rendered(_) => panic!("a static file must be copied, not rendered"),
    }
}

#[test]
fn runs_new_web_command() {
    let files = store();
    let plan = handle("web", "myapp", &files).expect("the web template must scaffold");
    assert_eq!(plan.len(), 3);
    assert_eq!(plan[0].path, "Cargo.toml");
    match &plan[0].body {
        FileBody::Rendered(text) => {
            assert!(text.contains("name = \"myapp\""));
        }
        FileBody::Copied(_) => panic!("the manifest template must be rendered"),
    }
    assert_eq!(plan[1].path, "src/main.rs");
    assert_eq!(plan[2].path, ".cargopal.toml");
    match &plan[2].body {
        FileBody::Copied(bytes) => assert_eq!(bytes.as_slice(), b"template = \"web\"\n"),
        FileBody::Rendered(_) => panic!("the descriptor is a static file"),
    }
}

#[test]
fn fails_on_invalid_template() {
    let files = store();
    let e = handle("invalid", "myapp", &files).expect_err("an unknown template must be refused");
    assert_eq!(e, ScaffoldError::TemplateNotFound(String::from("invalid")));
    assert_eq!(
        e.message(),
        "Template 'invalid' not found. Available templates are: cli, web."
    );
}

#[test]
fn template_prefix_must_be_a_whole_directory() {
    // The store holds files under "cli/", but the template "cl" is matched
    // as "cl/" with its separator, so those files do not answer for it.
    let files = store();
    let e = handle("cl", "myapp", &files).expect_err("a prefix of a template name is not a template");
    assert_eq!(e, ScaffoldError::TemplateNotFound(String::from("cl")));
}

#[test]
fn files_of_other_templates_are_left_out() {
    let files = store();
    let plan = handle("cli", "other_name", &files).expect("the cli template must scaffold");
    for p in &plan {
        assert!(p.path == "Cargo.toml" || p.path == "src/main.rs");
    }
}

#[test]
fn hbs_file_that_is_not_utf8_is_refused() {
    let files = vec![
        file("cli/ok.txt", b"fine"),
        file("cli/broken.txt.hbs", &[0xff, 0xfe, 0x00, 0x41]),
    ];
    let e = handle("cli", "myapp", &files).expect_err("a non-UTF-8 template file must be refused");
    assert_eq!(e, ScaffoldError::BadEncoding(String::from("cli/broken.txt.hbs")));
    assert_eq!(
        e.message(),
        "Template file 'cli/broken.txt.hbs' is not valid UTF-8 text."
    );
}

#[test]
fn hbs_file_the_engine_refuses_is_reported() {
    let files = vec![file("cli/bad.hbs", b"{{#if name}} never closed")];
    let e = handle("cli", "myapp", &files).expect_err("a malformed template must be refused");
    assert_eq!(e, ScaffoldError::RenderFailed(String::from("cli/bad.hbs")));
    assert_eq!(
        e.message(),
        "Template file 'cli/bad.hbs' could not be rendered."
    );
}

#[test]
fn partial_inclusion_is_refused_before_rendering() {
    let files = vec![file("cli/page.html.hbs", b"<html>{{> header}}</html>")];
    let e = handle("cli", "myapp", &files).expect_err("partial inclusion must be refused");
    assert_eq!(e, ScaffoldError::UnsupportedSyntax(String::from("cli/page.html.hbs")));
    assert_eq!(
        e.message(),
        "Template file 'cli/page.html.hbs' uses unsupported template syntax."
    );
}

#[test]
fn self_including_inline_partial_is_refused() {
    // An inline partial that includes itself would make the rendering
    // engine recurse without bound; the scan refuses it, so this call
    // returns at all.
    let files = vec![file(
        "cli/loop.hbs",
        b"{{#*inline \"a\"}}{{> a}}{{/inline}}{{> a}}",
    )];
    let e = handle("cli", "myapp", &files).expect_err("a self-including partial must be refused");
    assert!(matches!(e, ScaffoldError::UnsupportedSyntax(_)));
}

#[test]
fn quoted_arguments_are_refused() {
    let files = vec![file("cli/q.hbs", b"{{lookup this \"name\"}}")];
    let e = handle("cli", "myapp", &files).expect_err("quoted arguments must be refused");
    assert!(matches!(e, ScaffoldError::UnsupportedSyntax(_)));
}

#[test]
fn block_helpers_still_render() {
    // Plain block helpers are within the accepted syntax; markup with `>`
    // outside the braces is too.
    let files = vec![file(
        "cli/cond.html.hbs",
        b"<p>{{#if name}}hello {{name}}{{/if}}</p>",
    )];
    let plan = handle("cli", "myapp", &files).expect("block helpers must render");
    match &plan[0].body {
        FileBody::Rendered(text) => assert_eq!(text.as_str(), "<p>hello myapp</p>"),
        FileBody::Copied(_) => panic!("a template file must be rendered"),
    }
}

#[test]
fn too_many_blocks_are_refused() {
    let mut text = String::new();
    for _ in 0..65 {
        text.push_str("{{#if name}}");
    }
    text.push('x');
    for _ in 0..65 {
        text.push_str("{{/if}}");
    }
    let files = vec![file("cli/deep.hbs", text.as_bytes())];
    let e = handle("cli", "myapp", &files).expect_err("too many blocks must be refused");
    assert!(matches!(e, ScaffoldError::UnsupportedSyntax(_)));
}

#[test]
fn unclosed_mustache_is_refused() {
    let files = vec![file("cli/open.hbs", b"{{name")];
    let e = handle("cli", "myapp", &files).expect_err("an unclosed mustache must be refused");
    assert!(matches!(e, ScaffoldError::UnsupportedSyntax(_)));
}

#[test]
fn hidden_hbs_file_keeps_its_name() {
    // A file whose bare name is exactly ".hbs" has no stem to strip: it is
    // rendered and written under its own hidden name.
    let files = vec![file("cli/.hbs", b"{{name}}")];
    let plan = handle("cli", "myapp", &files).expect("a hidden template file must scaffold");
    assert_eq!(plan.len(), 1);
    assert_eq!(plan[0].path, ".hbs");
    match &plan[0].body {
        FileBody::Rendered(text) => assert_eq!(text.as_str(), "myapp"),
        FileBody::Copied(_) => panic!("a template file must be rendered"),
    }
}

#[test]
fn first_refusal_wins() {
    let files = vec![
        file("cli/one.hbs", &[0xff, 0xff]),
        file("cli/two.hbs", b"{{#if name}} never closed"),
    ];
    let e = handle("cli", "myapp", &files).expect_err("a broken store must be refused");
    assert!(matches!(e, ScaffoldError::BadEncoding(_)));
}

#[test]
fn non_utf8_static_files_are_copied_untouched() {
    let blob: Vec<u8> = vec![0x00, 0xff, 0x10, 0x80];
    let files = vec![file("cli/logo.bin", &blob)];
    let plan = handle("cli", "myapp", &files).expect("static bytes must pass through");
    assert_eq!(plan.len(), 1);
    assert_eq!(plan[0].path, "logo.bin");
    match &plan[0].body {
        FileBody::Copied(bytes) => assert_eq!(bytes, &blob),
        FileBody::Rendered(_) => panic!("a static file must be copied"),
    }
}

#[test]
fn nested_template_paths_keep_their_shape() {
    let files = vec![file("web/src/routes/index.rs.hbs", b"// {{name}}\n")];
    let plan = handle("web", "site", &files).expect("nested paths must scaffold");
    assert_eq!(plan[0].path, "src/routes/index.rs");
    match &plan[0].body {
        FileBody::Rendered(text) => assert_eq!(text.as_str(), "// site\n"),
        FileBody::Copied(_) => panic!("a template file must be rendered"),
    }
}

#[test]
fn parsed_command_line_keeps_its_fields() {
    let cli = Cli {
        command: Commands::New { template: String::from("cli"), name: String::from("myapp") },
        verbose: true,
    };
    assert!(cli.verbose);
    match cli.command {
        Commands::New { template, name } => {
            assert_eq!(template, "cli");
            assert_eq!(name, "myapp");
        }
        Commands::Dev => panic!("the parsed command must be preserved"),
    }
}
