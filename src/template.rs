use vstd::prelude::*;

use crate::form::{values_of, App, Field, EXTENDED_FIELDS, MINIMAL_FIELDS};
use crate::text::{
    format_list, join, list_text, lowercased, split_on_semicolons, split_semicolons, to_lower, trim,
    trimmed, lemma_join_push, ListStyle,
};

verus! {

/// A single value: as it is, or, on a preview, the placeholder when it is empty.
pub open spec fn scalar(value: Seq<char>, placeholder: Seq<char>, final_pass: bool) -> Seq<char> {
    if value.len() == 0 && !final_pass {
        placeholder
    } else {
        value
    }
}

/// A `;`-separated value as a list; an empty value gives the placeholder on a
/// preview and nothing on the final pass.
pub open spec fn list_or(
    value: Seq<char>,
    style: ListStyle,
    placeholder: Seq<char>,
    final_pass: bool,
) -> Seq<char> {
    if value.len() == 0 {
        if final_pass {
            Seq::empty()
        } else {
            placeholder
        }
    } else {
        list_text(value, style)
    }
}

/// A shields.io badge for a repository: `label` is the alt text, `metric` the
/// statistic shown and `page` the repository page that the badge links to.
pub open spec fn repo_badge(
    label: Seq<char>,
    metric: Seq<char>,
    page: Seq<char>,
    repo: Seq<char>,
) -> Seq<char> {
    "[!["@ + label + "](https://img.shields.io/github/"@ + metric + "/"@ + repo
        + "?style=flat-square)](https://github.com/"@ + repo + page + ")"@
}

/// The stars, forks, issues and license badges on four lines, or nothing for
/// an unnamed repository.
pub open spec fn repo_badges(repo: Seq<char>) -> Seq<char> {
    if repo.len() == 0 {
        Seq::empty()
    } else {
        repo_badge("Stars"@, "stars"@, "/stargazers"@, repo) + "\n"@
            + repo_badge("Forks"@, "forks"@, "/network/members"@, repo) + "\n"@
            + repo_badge("Issues"@, "issues"@, "/issues"@, repo) + "\n"@
            + repo_badge("License"@, "license"@, "/blob/main/LICENSE"@, repo)
    }
}

/// The repository badges followed by a blank line, or nothing at all for an
/// unnamed repository.
pub open spec fn badge_block(repo: Seq<char>) -> Seq<char> {
    if repo.len() == 0 {
        Seq::empty()
    } else {
        repo_badges(repo) + "\n\n"@
    }
}

/// The badge of one technology, whose name is given lower-cased.
pub open spec fn tech_badge(t: Seq<char>) -> Seq<char> {
    "!["@ + t + "](https://img.shields.io/badge/-"@ + t + "-informational?style=flat-square&logo="@
        + t + "&logoColor=white)"@
}

/// One badge per non-empty token, trimmed and lower-cased, in order.
pub open spec fn tech_badges(tokens: Seq<Seq<char>>) -> Seq<Seq<char>>
    decreases tokens.len(),
{
    if tokens.len() == 0 {
        Seq::empty()
    } else {
        let r = tech_badges(tokens.drop_last());
        if tokens.last().len() > 0 {
            r.push(tech_badge(lowercased(trimmed(tokens.last()))))
        } else {
            r
        }
    }
}

/// The technology badges separated by spaces; without any, a placeholder on
/// a preview and nothing on the final pass.
pub open spec fn tech_badge_text(raw: Seq<char>, final_pass: bool) -> Seq<char> {
    let badges = tech_badges(split_on_semicolons(raw));
    if badges.len() == 0 {
        if final_pass {
            Seq::empty()
        } else {
            "<Technology badges>"@
        }
    } else {
        join(badges, " "@)
    }
}

/// The document of the full form, from its thirteen values.
pub open spec fn extended_document(v: Seq<Seq<char>>, license: Seq<char>, final_pass: bool) -> Seq<char> {
    "<div align=\"center\">\n\n# "@
        + scalar(v[1], "<Project Title>"@, final_pass)
        + "\n\n"@
        + scalar(v[2], "<Short Description>"@, final_pass)
        + "\n\n"@
        + repo_badges(v[0])
        + "\n\n[Documentation](#"@
        + scalar(v[0], "<Repository Name>"@, final_pass)
        + ") · [Report Bug](https://github.com/"@
        + scalar(v[0], "<Repository Name>"@, final_pass)
        + "/issues) · [Request Feature](https://github.com/"@
        + scalar(v[0], "<Repository Name>"@, final_pass)
        + "/issues)\n\n"@
        + tech_badge_text(v[5], final_pass)
        + "</div>\n\n## 📋 Table of Contents\n- [About](#about)\n- [Features](#features)\n- [Built With](#built-with)\n- [Getting Started](#getting-started)\n  - [Prerequisites](#prerequisites)\n  - [Installation](#installation)\n- [Usage](#usage)\n- [API Documentation](#api-documentation)\n- [Testing](#testing)\n- [Contributing](#contributing)\n- [License](#license)\n- [Contact](#contact)\n\n## 🔍 About\n"@
        + scalar(v[3], "<Detailed Description>"@, final_pass)
        + "\n\n## ✨ Features\n"@
        + list_or(v[4], ListStyle::Bulleted, "- <Features of your project>"@, final_pass)
        + "\n\n## 🛠️ Built With\n"@
        + list_or(v[5], ListStyle::Bulleted, "- <Technologies used>"@, final_pass)
        + "\n\n## 🚀 Getting Started\n\n### Prerequisites\n"@
        + list_or(v[6], ListStyle::Bulleted, "- <Prerequisites>"@, final_pass)
        + "\n\n### Installation\n"@
        + list_or(v[7], ListStyle::Numbered, "1. <Installation steps>"@, final_pass)
        + "\n\n## 💡 Usage\n```bash\n"@
        + scalar(v[8], "<Usage Example>"@, final_pass)
        + "\n```\n\n## 📚 API Documentation\n```\n"@
        + scalar(v[9], "<API Documentation>"@, final_pass)
        + "\n```\n\n## 🧪 Testing\n"@
        + list_or(v[11], ListStyle::Numbered, "1. <Test instructions>"@, final_pass)
        + "\n\n## 🤝 Contributing\n"@
        + scalar(v[10], "<Contributing Guidelines>"@, final_pass)
        + "\n\n## 📝 License\nThis project is licensed under the "@
        + license
        + " - see the [LICENSE](LICENSE) file for details.\n\n## 👥 Authors\n"@
        + list_or(v[12], ListStyle::Bulleted, "- <Project authors>"@, final_pass)
        + "\n\n---\n<div align=\"center\">\nMade with ❤️ by contributors\n</div>"@
}

/// The document of the short form, from its five values.
pub open spec fn minimal_document(v: Seq<Seq<char>>, license: Seq<char>, final_pass: bool) -> Seq<char> {
    "# "@
        + scalar(v[0], "<Repository Name>"@, final_pass)
        + "\n\n"@
        + badge_block(v[0])
        + scalar(v[1], "<Description>"@, final_pass)
        + "\n\n## Installation\n"@
        + list_or(v[2], ListStyle::Numbered, "1. <Installation steps>"@, final_pass)
        + "\n\n## Usage\n```bash\n"@
        + scalar(v[3], "<Usage>"@, final_pass)
        + "\n```\n\n## License\nThis project is licensed under the "@
        + license
        + ".\n\n## Authors\n"@
        + list_or(v[4], ListStyle::Bulleted, "- <Project authors>"@, final_pass)
        + "\n"@
}

/// The document for the values of a form of either size.
pub open spec fn document(v: Seq<Seq<char>>, license: Seq<char>, final_pass: bool) -> Seq<char> {
    if v.len() == MINIMAL_FIELDS {
        minimal_document(v, license, final_pass)
    } else {
        extended_document(v, license, final_pass)
    }
}

fn append_scalar(out: &mut String, value: &str, placeholder: &str, final_pass: bool)
    ensures
        final(out)@ == old(out)@ + scalar(value@, placeholder@, final_pass),
{
    if value.is_empty() && !final_pass {
        out.append(placeholder);
    } else {
        out.append(value);
    }
}

fn append_list(out: &mut String, value: &str, style: ListStyle, placeholder: &str, final_pass: bool)
    ensures
        final(out)@ == old(out)@ + list_or(value@, style, placeholder@, final_pass),
{
    if value.is_empty() {
        if !final_pass {
            out.append(placeholder);
        } else {
            assert(old(out)@ + Seq::<char>::empty() =~= old(out)@);
        }
    } else {
        let list = format_list(value, style);
        out.append(list.as_str());
    }
}

fn append_repo_badge(out: &mut String, label: &str, metric: &str, page: &str, repo: &str)
    ensures
        final(out)@ == old(out)@ + repo_badge(label@, metric@, page@, repo@),
{
    let ghost start = out@;
    out.append("[![");
    out.append(label);
    out.append("](https://img.shields.io/github/");
    out.append(metric);
    out.append("/");
    out.append(repo);
    out.append("?style=flat-square)](https://github.com/");
    out.append(repo);
    out.append(page);
    out.append(")");
    assert(out@ =~= start + repo_badge(label@, metric@, page@, repo@));
}

fn append_repo_badges(out: &mut String, repo: &str)
    ensures
        final(out)@ == old(out)@ + repo_badges(repo@),
{
    if repo.is_empty() {
        assert(old(out)@ + Seq::<char>::empty() =~= old(out)@);
    } else {
        let ghost start = out@;
        append_repo_badge(out, "Stars", "stars", "/stargazers", repo);
        out.append("\n");
        append_repo_badge(out, "Forks", "forks", "/network/members", repo);
        out.append("\n");
        append_repo_badge(out, "Issues", "issues", "/issues", repo);
        out.append("\n");
        append_repo_badge(out, "License", "license", "/blob/main/LICENSE", repo);
        assert(out@ =~= start + repo_badges(repo@));
    }
}

fn append_badge_block(out: &mut String, repo: &str)
    ensures
        final(out)@ == old(out)@ + badge_block(repo@),
{
    if repo.is_empty() {
        assert(old(out)@ + Seq::<char>::empty() =~= old(out)@);
    } else {
        let ghost start = out@;
        append_repo_badges(out, repo);
        out.append("\n\n");
        assert(out@ =~= start + badge_block(repo@));
    }
}

fn append_tech_badge(out: &mut String, t: &str)
    ensures
        final(out)@ == old(out)@ + tech_badge(t@),
{
    let ghost start = out@;
    out.append("![");
    out.append(t);
    out.append("](https://img.shields.io/badge/-");
    out.append(t);
    out.append("-informational?style=flat-square&logo=");
    out.append(t);
    out.append("&logoColor=white)");
    assert(out@ =~= start + tech_badge(t@));
}

fn append_tech_badges(out: &mut String, raw: &str, final_pass: bool)
    ensures
        final(out)@ == old(out)@ + tech_badge_text(raw@, final_pass),
{
    let pieces = split_semicolons(raw);
    let ghost items = pieces@.map_values(|p: &str| p@);
    let mut badges = String::new();
    let mut count: usize = 0;
    let mut k: usize = 0;
    while k < pieces.len()
        invariant
            items == split_on_semicolons(raw@),
            items == pieces@.map_values(|p: &str| p@),
            k <= pieces.len(),
            count == tech_badges(items.take(k as int)).len(),
            count <= k,
            badges@ == join(tech_badges(items.take(k as int)), " "@),
        decreases pieces.len() - k,
    {
        let ghost prev = badges@;
        let ghost done = tech_badges(items.take(k as int));
        proof {
            assert(items.take(k + 1).drop_last() =~= items.take(k as int));
            assert(items.take(k + 1).last() == items[k as int]);
        }
        if !pieces[k].is_empty() {
            if count > 0 {
                badges.append(" ");
            }
            let name = to_lower(trim(pieces[k]));
            append_tech_badge(&mut badges, name.as_str());
            proof {
                let b = tech_badge(lowercased(trimmed(items[k as int])));
                lemma_join_push(done, " "@, b);
                if count == 0 {
                    assert(badges@ =~= b);
                } else {
                    assert(badges@ =~= prev + " "@ + b);
                }
            }
            count = count + 1;
        }
        k = k + 1;
    }
    assert(items.take(k as int) =~= items);
    if count == 0 {
        if !final_pass {
            out.append("<Technology badges>");
        } else {
            assert(old(out)@ + Seq::<char>::empty() =~= old(out)@);
        }
    } else {
        out.append(badges.as_str());
    }
}

fn render_extended(fields: &Vec<Field>, license: &str, final_pass: bool) -> (r: String)
    requires
        fields@.len() == EXTENDED_FIELDS,
    ensures
        r@ == extended_document(values_of(fields@), license@, final_pass),
{
    let ghost v = values_of(fields@);
    let mut out = String::new();
    out.append("<div align=\"center\">\n\n# ");
    append_scalar(&mut out, fields[1].value.as_str(), "<Project Title>", final_pass);
    out.append("\n\n");
    append_scalar(&mut out, fields[2].value.as_str(), "<Short Description>", final_pass);
    out.append("\n\n");
    append_repo_badges(&mut out, fields[0].value.as_str());
    out.append("\n\n[Documentation](#");
    append_scalar(&mut out, fields[0].value.as_str(), "<Repository Name>", final_pass);
    out.append(") · [Report Bug](https://github.com/");
    append_scalar(&mut out, fields[0].value.as_str(), "<Repository Name>", final_pass);
    out.append("/issues) · [Request Feature](https://github.com/");
    append_scalar(&mut out, fields[0].value.as_str(), "<Repository Name>", final_pass);
    out.append("/issues)\n\n");
    append_tech_badges(&mut out, fields[5].value.as_str(), final_pass);
    out.append("</div>\n\n## 📋 Table of Contents\n- [About](#about)\n- [Features](#features)\n- [Built With](#built-with)\n- [Getting Started](#getting-started)\n  - [Prerequisites](#prerequisites)\n  - [Installation](#installation)\n- [Usage](#usage)\n- [API Documentation](#api-documentation)\n- [Testing](#testing)\n- [Contributing](#contributing)\n- [License](#license)\n- [Contact](#contact)\n\n## 🔍 About\n");
    append_scalar(&mut out, fields[3].value.as_str(), "<Detailed Description>", final_pass);
    out.append("\n\n## ✨ Features\n");
    append_list(&mut out, fields[4].value.as_str(), ListStyle::Bulleted, "- <Features of your project>", final_pass);
    out.append("\n\n## 🛠️ Built With\n");
    append_list(&mut out, fields[5].value.as_str(), ListStyle::Bulleted, "- <Technologies used>", final_pass);
    out.append("\n\n## 🚀 Getting Started\n\n### Prerequisites\n");
    append_list(&mut out, fields[6].value.as_str(), ListStyle::Bulleted, "- <Prerequisites>", final_pass);
    out.append("\n\n### Installation\n");
    append_list(&mut out, fields[7].value.as_str(), ListStyle::Numbered, "1. <Installation steps>", final_pass);
    out.append("\n\n## 💡 Usage\n```bash\n");
    append_scalar(&mut out, fields[8].value.as_str(), "<Usage Example>", final_pass);
    out.append("\n```\n\n## 📚 API Documentation\n```\n");
    append_scalar(&mut out, fields[9].value.as_str(), "<API Documentation>", final_pass);
    out.append("\n```\n\n## 🧪 Testing\n");
    append_list(&mut out, fields[11].value.as_str(), ListStyle::Numbered, "1. <Test instructions>", final_pass);
    out.append("\n\n## 🤝 Contributing\n");
    append_scalar(&mut out, fields[10].value.as_str(), "<Contributing Guidelines>", final_pass);
    out.append("\n\n## 📝 License\nThis project is licensed under the ");
    out.append(license);
    out.append(" - see the [LICENSE](LICENSE) file for details.\n\n## 👥 Authors\n");
    append_list(&mut out, fields[12].value.as_str(), ListStyle::Bulleted, "- <Project authors>", final_pass);
    out.append("\n\n---\n<div align=\"center\">\nMade with ❤️ by contributors\n</div>");
    assert(out@ =~= extended_document(v, license@, final_pass));
    out
}

fn render_minimal(fields: &Vec<Field>, license: &str, final_pass: bool) -> (r: String)
    requires
        fields@.len() == MINIMAL_FIELDS,
    ensures
        r@ == minimal_document(values_of(fields@), license@, final_pass),
{
    let ghost v = values_of(fields@);
    let mut out = String::new();
    out.append("# ");
    append_scalar(&mut out, fields[0].value.as_str(), "<Repository Name>", final_pass);
    out.append("\n\n");
    append_badge_block(&mut out, fields[0].value.as_str());
    append_scalar(&mut out, fields[1].value.as_str(), "<Description>", final_pass);
    out.append("\n\n## Installation\n");
    append_list(&mut out, fields[2].value.as_str(), ListStyle::Numbered, "1. <Installation steps>", final_pass);
    out.append("\n\n## Usage\n```bash\n");
    append_scalar(&mut out, fields[3].value.as_str(), "<Usage>", final_pass);
    out.append("\n```\n\n## License\nThis project is licensed under the ");
    out.append(license);
    out.append(".\n\n## Authors\n");
    append_list(&mut out, fields[4].value.as_str(), ListStyle::Bulleted, "- <Project authors>", final_pass);
    out.append("\n");
    assert(out@ =~= minimal_document(v, license@, final_pass));
    out
}

/// The document for the fields' values and the license name: on a preview
/// (`final_pass` false) empty values show placeholders, on the final pass
/// they are left empty.
pub fn render(fields: &Vec<Field>, license: &str, final_pass: bool) -> (r: String)
    requires
        fields@.len() == MINIMAL_FIELDS || fields@.len() == EXTENDED_FIELDS,
    ensures
        r@ == document(values_of(fields@), license@, final_pass),
{
    if fields.len() == MINIMAL_FIELDS {
        render_minimal(fields, license, final_pass)
    } else {
        render_extended(fields, license, final_pass)
    }
}

/// The name of the selected license.
pub open spec fn selected_license_name(app: &App) -> Seq<char> {
    app.license_options@[app.selected_license as int]@
}

impl App {
    /// The live preview: the document with placeholders for empty values.
    pub fn generate_preview(&self) -> (r: String)
        requires
            self.wf(),
        ensures
            r@ == document(self@.values, selected_license_name(self), false),
    {
        render(&self.fields, self.license_options[self.selected_license].as_str(), false)
    }
}

/// The final document, written once the form is complete.
pub fn generate_readme(app: &App) -> (r: String)
    requires
        app.wf(),
    ensures
        r@ == document(app@.values, selected_license_name(app), true),
{
    render(&app.fields, app.license_options[app.selected_license].as_str(), true)
}

} // verus!
