use readme_wizard::form::{App, Key};
use readme_wizard::template::{generate_readme, render};
use readme_wizard::text::{format_list, split_semicolons, ListStyle};

fn fill_all(app: &mut App, values: &[&str]) {
    app.handle_key(Key::Enter);
    for v in values {
        for c in v.chars() {
            app.handle_key(Key::Char(c));
        }
        app.handle_key(Key::Enter);
    }
}

#[test]
fn split_keeps_empty_pieces() {
    assert_eq!(split_semicolons(""), vec![""]);
    assert_eq!(split_semicolons("a; b ;c"), vec!["a", " b ", "c"]);
    assert_eq!(split_semicolons(";x;"), vec!["", "x", ""]);
}

#[test]
fn lists_trim_each_item() {
    assert_eq!(format_list("a; b ;c", ListStyle::Bulleted), "- a\n- b\n- c");
    assert_eq!(format_list("a; b ;c", ListStyle::Numbered), "1. a\n2. b\n3. c");
}

#[test]
fn numbered_list_counts_past_nine() {
    let out = format_list("a;b;c;d;e;f;g;h;i;j;k", ListStyle::Numbered);
    assert!(out.ends_with("\n9. i\n10. j\n11. k"));
}

#[test]
fn render_twice_gives_same_text() {
    let mut app = App::default();
    fill_all(&mut app, &["me/proj", "Title", "short"]);
    assert_eq!(app.generate_preview(), app.generate_preview());
    assert_eq!(generate_readme(&app), generate_readme(&app));
}

#[test]
fn minimal_final_document() {
    let mut app = App::minimal();
    fill_all(&mut app, &["me/proj", "desc", "npm i", "npm run", "alice"]);
    let doc = generate_readme(&app);
    assert!(doc.starts_with("# me/proj\n"));
    assert!(doc.contains("```bash\nnpm run\n```"));
    assert!(doc.contains("MIT License"));
    assert!(doc.contains("1. npm i"));
    assert!(doc.contains("- alice"));
    assert!(doc.contains("https://img.shields.io/github/stars/me/proj?style=flat-square"));
}

#[test]
fn unnamed_repository_preview() {
    let mut app = App::minimal();
    app.handle_key(Key::Down);
    fill_all(&mut app, &["desc", "npm i", "npm run", "alice"]);
    let doc = app.generate_preview();
    assert!(doc.starts_with("# <Repository Name>\n"));
    assert!(!doc.contains("Stars"));
    assert!(!doc.contains("Forks"));
    assert!(!doc.contains("img.shields.io/github"));
}

#[test]
fn unnamed_repository_extended_preview() {
    let mut app = App::default();
    app.handle_key(Key::Down);
    fill_all(&mut app, &["Title"]);
    let doc = app.generate_preview();
    assert!(doc.contains("# Title\n"));
    assert!(!doc.contains("Stars"));
    assert!(!doc.contains("Forks"));
    assert!(doc.contains("[Report Bug](https://github.com/<Repository Name>/issues)"));
}

#[test]
fn extended_preview_placeholders() {
    let app = App::default();
    let doc = app.generate_preview();
    assert!(doc.contains("# <Project Title>"));
    assert!(doc.contains("<Technology badges>"));
    assert!(doc.contains("- <Features of your project>"));
    assert!(doc.contains("1. <Installation steps>"));
    assert!(doc.contains("1. <Test instructions>"));
    assert!(doc.contains("- <Project authors>"));
    assert!(doc.contains("licensed under the MIT License - see"));
}

#[test]
fn extended_document_with_every_field() {
    let mut app = App::default();
    fill_all(
        &mut app,
        &[
            "me/proj", "Proj", "Short", "Long", "fast; small", "React; Node.js;", "node",
            "git clone;npm i", "npm start", "GET /", "Open a PR", "npm test", "alice; bob",
        ],
    );
    assert!(app.all_fields_filled());
    assert!(app.select_license(1));
    let doc = generate_readme(&app);
    assert!(doc.contains("# Proj\n\nShort\n\n[![Stars](https://img.shields.io/github/stars/me/proj?style=flat-square)](https://github.com/me/proj/stargazers)\n"));
    assert!(doc.contains("[![License](https://img.shields.io/github/license/me/proj?style=flat-square)](https://github.com/me/proj/blob/main/LICENSE)\n\n[Documentation](#me/proj)"));
    assert!(doc.contains("![react](https://img.shields.io/badge/-react-informational?style=flat-square&logo=react&logoColor=white) ![node.js]("));
    assert!(doc.contains("- fast\n- small"));
    assert!(doc.contains("- React\n- Node.js\n- \n"));
    assert!(doc.contains("1. git clone\n2. npm i"));
    assert!(doc.contains("```bash\nnpm start\n```"));
    assert!(doc.contains("```\nGET /\n```"));
    assert!(doc.contains("1. npm test"));
    assert!(doc.contains("Open a PR"));
    assert!(doc.contains("Apache License 2.0"));
    assert!(doc.contains("- alice\n- bob"));
}

#[test]
fn final_pass_leaves_empty_values_empty() {
    let app = App::minimal();
    let doc = render(&app.fields, "ISC License", true);
    assert!(doc.starts_with("# \n\n"));
    assert!(!doc.contains('<'));
    assert!(doc.contains("ISC License"));
}
