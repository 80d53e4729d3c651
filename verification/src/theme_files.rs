//! Theme files: custom colour themes, one file per theme.
//!
//! Reading and writing the files is the caller's part. This module holds the
//! rules: how a theme gets its identifier, which file carries it, and what a
//! parsed file is turned into.

use vstd::prelude::*;
use vstd::string::StringExecFns;
use crate::account_id::{id_less, id_precedes, lemma_id_irreflexive, lemma_id_transitive};
use crate::text::{
    ascii_lowercase, char_is_ascii_alphanumeric, char_to_ascii_lowercase, chars_of,
    is_ascii_alphanumeric, join_path, joined_path, lowered, string_of, trim_text, trimmed,
};

verus! {

/// The colours of a theme. A colour that is absent is taken from the
/// built-in theme.
#[derive(Clone, Debug, Default, PartialEq)]
pub struct ThemeColors {
    pub primary: Option<String>,
    pub secondary: Option<String>,
    pub background: Option<String>,
    pub foreground: Option<String>,
    pub border: Option<String>,
    pub border_focused: Option<String>,
    pub selection: Option<String>,
    pub cursor: Option<String>,
    pub success: Option<String>,
    pub warning: Option<String>,
    pub error: Option<String>,
    pub info: Option<String>,
    pub text: Option<String>,
    pub text_dim: Option<String>,
    pub text_bright: Option<String>,
    pub keyword: Option<String>,
    pub string: Option<String>,
    pub comment: Option<String>,
    pub function: Option<String>,
    pub spinner: Option<String>,
    pub progress: Option<String>,
}

/// A theme as the application uses it.
#[derive(Clone, Debug, PartialEq)]
pub struct ThemeFileSpec {
    pub id: String,
    pub name: String,
    pub description: String,
    pub is_dark: bool,
    pub colors: ThemeColors,
}

/// A theme file as it was parsed: only the name is mandatory.
#[derive(Clone, Debug, PartialEq)]
pub struct ThemeFileDoc {
    pub id: Option<String>,
    pub name: String,
    pub description: Option<String>,
    pub is_dark: Option<bool>,
    pub colors: ThemeColors,
}

/// The text of the identifier of a theme that has none of its own.
pub open spec fn default_theme_id() -> Seq<char> {
    "custom-theme"@
}

/// The text of the description of a theme that has none of its own.
pub open spec fn default_theme_description() -> Seq<char> {
    "Custom theme"@
}

/// The ending of a theme file's name.
pub open spec fn theme_file_ending() -> Seq<char> {
    ".toml"@
}

/// The input with every ASCII letter and digit kept, in lower case, and
/// every run of other characters turned into one dash.
pub open spec fn dashed(input: Seq<char>) -> Seq<char>
    decreases input.len(),
{
    if input.len() == 0 {
        Seq::empty()
    } else {
        let before = dashed(input.drop_last());
        let c = input.last();
        if is_ascii_alphanumeric(c) {
            before.push(ascii_lowercase(c))
        } else if before.len() > 0 && before.last() == '-' {
            before
        } else {
            before.push('-')
        }
    }
}

/// `text` without the dashes at its end.
pub open spec fn without_trailing_dashes(text: Seq<char>) -> Seq<char>
    decreases text.len(),
{
    if text.len() > 0 && text.last() == '-' {
        without_trailing_dashes(text.drop_last())
    } else {
        text
    }
}

/// `text` without the dashes at its start.
pub open spec fn without_leading_dashes(text: Seq<char>) -> Seq<char>
    decreases text.len(),
{
    if text.len() > 0 && text.first() == '-' {
        without_leading_dashes(text.drop_first())
    } else {
        text
    }
}

/// The identifier made from `input`: its letters and digits in lower case,
/// its other characters as single dashes between them, and the default
/// identifier where nothing is left.
pub open spec fn slug_of(input: Seq<char>) -> Seq<char> {
    let slug = without_leading_dashes(without_trailing_dashes(dashed(input)));
    if slug.len() == 0 {
        default_theme_id()
    } else {
        slug
    }
}

/// A character that an identifier is made of: a lower-case ASCII letter, a
/// digit, or a dash.
pub open spec fn is_slug_char(c: char) -> bool {
    ('0' <= c && c <= '9') || ('a' <= c && c <= 'z') || c == '-'
}

proof fn lemma_dashed_chars(input: Seq<char>)
    ensures
        forall|i: int| 0 <= i < dashed(input).len() ==> is_slug_char(#[trigger] dashed(input)[i]),
    decreases input.len(),
{
    if input.len() > 0 {
        lemma_dashed_chars(input.drop_last());
        let before = dashed(input.drop_last());
        let c = input.last();
        if is_ascii_alphanumeric(c) {
            lemma_lowercase_is_slug_char(c);
        }
        assert forall|i: int| 0 <= i < dashed(input).len() implies is_slug_char(
            #[trigger] dashed(input)[i],
        ) by {
            if i < before.len() {
                assert(dashed(input)[i] == before[i]);
            }
        }
    }
}

proof fn lemma_lowercase_is_slug_char(c: char)
    requires
        is_ascii_alphanumeric(c),
    ensures
        is_slug_char(ascii_lowercase(c)),
        ascii_lowercase(c) != '-',
{
    if 'A' <= c && c <= 'Z' {
        let code = c as u8;
        assert(65 <= code <= 90);
        let lower = (code + 32) as u8;
        assert(97 <= lower <= 122);
        assert('a' <= (lower as char) && (lower as char) <= 'z');
    }
}

proof fn lemma_without_trailing(text: Seq<char>)
    ensures
        without_trailing_dashes(text).len() <= text.len(),
        without_trailing_dashes(text) == text.take(without_trailing_dashes(text).len() as int),
        without_trailing_dashes(text).len() > 0 ==> without_trailing_dashes(text).last() != '-',
    decreases text.len(),
{
    if text.len() > 0 && text.last() == '-' {
        lemma_without_trailing(text.drop_last());
        let n = without_trailing_dashes(text).len() as int;
        assert(text.drop_last().take(n) =~= text.take(n));
    } else {
        assert(text.take(text.len() as int) =~= text);
    }
}

proof fn lemma_without_leading(text: Seq<char>)
    ensures
        without_leading_dashes(text).len() <= text.len(),
        without_leading_dashes(text) == text.skip(
            text.len() - without_leading_dashes(text).len(),
        ),
        without_leading_dashes(text).len() > 0 ==> without_leading_dashes(text).first() != '-',
    decreases text.len(),
{
    if text.len() > 0 && text.first() == '-' {
        lemma_without_leading(text.drop_first());
        let n = text.len() - without_leading_dashes(text).len();
        assert(text.drop_first().skip(n - 1) =~= text.skip(n));
    } else {
        assert(text.skip(0) =~= text);
    }
}

/// An identifier is never empty, holds nothing but lower-case ASCII letters,
/// digits and dashes, and neither starts nor ends with a dash.
pub proof fn lemma_slug_is_well_formed(input: Seq<char>)
    ensures
        slug_of(input).len() > 0,
        forall|i: int| 0 <= i < slug_of(input).len() ==> is_slug_char(#[trigger] slug_of(input)[i]),
        slug_of(input).first() != '-',
        slug_of(input).last() != '-',
{
    reveal_strlit("custom-theme");
    let all = dashed(input);
    let cut = without_trailing_dashes(all);
    let slug = without_leading_dashes(cut);
    lemma_dashed_chars(input);
    lemma_without_trailing(all);
    lemma_without_leading(cut);
    if slug.len() > 0 {
        let offset = cut.len() - slug.len();
        assert forall|i: int| 0 <= i < slug.len() implies is_slug_char(#[trigger] slug[i]) by {
            assert(slug[i] == cut[i + offset]);
            assert(cut[i + offset] == all[i + offset]);
        }
        assert(slug.last() == cut.last());
    } else {
        let text = default_theme_id();
        assert(text.len() == 12);
        assert forall|i: int| 0 <= i < text.len() implies is_slug_char(#[trigger] text[i]) by {
            assert(text =~= seq!['c', 'u', 's', 't', 'o', 'm', '-', 't', 'h', 'e', 'm', 'e']);
        }
    }
}

/// The name of the directory that holds the theme files.
pub const THEMES_DIR_NAME: &'static str = "themes";

/// Returns the directory that holds the theme files of the home directory
/// `code_home`.
pub fn themes_dir(code_home: &str) -> (dir: String)
    ensures
        dir@ == joined_path(code_home@, THEMES_DIR_NAME@),
{
    join_path(code_home, THEMES_DIR_NAME)
}

/// Makes an identifier from `input`: letters and digits are kept in lower
/// case, every run of other characters becomes one dash, and dashes at
/// either end are dropped. Where nothing is left, the identifier is
/// `custom-theme`.
pub fn slugify_theme_id(input: &str) -> (slug: String)
    ensures
        slug@ == slug_of(input@),
{
    let mut out: Vec<char> = Vec::new();
    for ch in it: input.chars()
        invariant
            it.seq() == input@,
            out@ == dashed(it.seq().take(it.index() as int)),
    {
        proof {
            let grown = it.seq().take(it.index() + 1);
            assert(grown.drop_last() =~= it.seq().take(it.index() as int));
            assert(grown.last() == ch);
        }
        if char_is_ascii_alphanumeric(ch) {
            out.push(char_to_ascii_lowercase(ch));
        } else if !(out.len() > 0 && out[out.len() - 1] == '-') {
            out.push('-');
        }
    }
    proof {
        assert(input@.take(input@.len() as int) =~= input@);
        assert(out@.take(out.len() as int) =~= out@);
    }
    let mut end: usize = out.len();
    while end > 0 && out[end - 1] == '-'
        invariant
            end <= out.len(),
            without_trailing_dashes(out@) == without_trailing_dashes(out@.take(end as int)),
        decreases end,
    {
        assert(out@.take(end as int).drop_last() =~= out@.take(end - 1));
        end = end - 1;
    }
    let ghost kept = out@.take(end as int);
    let mut start: usize = 0;
    proof {
        assert(kept.subrange(0, end as int) =~= kept);
    }
    while start < end && out[start] == '-'
        invariant
            start <= end <= out.len(),
            kept == out@.take(end as int),
            without_leading_dashes(kept) == without_leading_dashes(
                kept.subrange(start as int, end as int),
            ),
        decreases end - start,
    {
        assert(kept.subrange(start as int, end as int).drop_first() =~= kept.subrange(
            start + 1,
            end as int,
        ));
        start = start + 1;
    }
    assert(kept.subrange(start as int, end as int) =~= out@.subrange(start as int, end as int));
    if start == end {
        String::from_str("custom-theme")
    } else {
        string_of(&out, start, end)
    }
}

/// Returns the name of the file that carries the theme `id`: the identifier
/// made from it, with the ending of theme files.
pub fn theme_file_name(id: &str) -> (name: String)
    ensures
        name@ == slug_of(id@) + theme_file_ending(),
{
    slugify_theme_id(id).concat(".toml")
}

/// What a parsed theme file named `file_stem` is listed as.
///
/// The identifier is made from the identifier in the file, and from the
/// file's name where the file holds none. Name and description lose the
/// white space around them; a file without a name is not listed, and a
/// theme without a description is a custom theme. A theme is light unless
/// the file says otherwise.
pub open spec fn listed_theme(file_stem: Option<Seq<char>>, doc: ThemeFileDoc, theme: Option<
    ThemeFileSpec,
>) -> bool {
    if trimmed(doc.name@).len() == 0 {
        theme is None
    } else {
        &&& theme matches Some(t)
        &&& t.id@ == match doc.id {
            Some(id) => slug_of(id@),
            None => match file_stem {
                Some(stem) => slug_of(stem),
                None => default_theme_id(),
            },
        }
        &&& t.name@ == trimmed(doc.name@)
        &&& t.description@ == match doc.description {
            Some(d) => if trimmed(d@).len() > 0 {
                trimmed(d@)
            } else {
                default_theme_description()
            },
            None => default_theme_description(),
        }
        &&& t.is_dark == match doc.is_dark {
            Some(dark) => dark,
            None => false,
        }
        &&& t.colors == doc.colors
    }
}

/// Turns a parsed theme file into the theme it is listed as, or into nothing
/// where the file names no theme.
pub fn theme_from_doc(file_stem: Option<&str>, doc: ThemeFileDoc) -> (theme: Option<ThemeFileSpec>)
    ensures
        listed_theme(crate::account_id::str_view(file_stem), doc, theme),
{
    let name = trim_text(doc.name.as_str());
    if name.as_str().is_empty() {
        return None;
    }
    let id = match &doc.id {
        Some(id) => slugify_theme_id(id.as_str()),
        None => match file_stem {
            Some(stem) => slugify_theme_id(stem),
            None => String::from_str("custom-theme"),
        },
    };
    let description = match &doc.description {
        Some(text) => {
            let kept = trim_text(text.as_str());
            if kept.as_str().is_empty() {
                String::from_str("Custom theme")
            } else {
                kept
            }
        },
        None => String::from_str("Custom theme"),
    };
    let is_dark = match doc.is_dark {
        Some(dark) => dark,
        None => false,
    };
    Some(ThemeFileSpec { id, name, description, is_dark, colors: doc.colors })
}

/// Tells whether a file with the ending `extension` is a theme file: its
/// ending is `toml`, in whatever case.
pub fn is_theme_file_extension(extension: &str) -> (r: bool)
    ensures
        r == (lowered(extension@) == "toml"@),
{
    let chars = chars_of(extension);
    proof {
        reveal_strlit("toml");
        let low = lowered(extension@);
        if low == "toml"@ {
            assert(low.len() == 4);
            assert(low[0] == 't' && low[1] == 'o' && low[2] == 'm' && low[3] == 'l');
        }
        if chars.len() == 4 && low[0] == 't' && low[1] == 'o' && low[2] == 'm' && low[3] == 'l' {
            assert(low =~= "toml"@);
        }
    }
    chars.len() == 4 && char_to_ascii_lowercase(chars[0]) == 't' && char_to_ascii_lowercase(
        chars[1],
    ) == 'o' && char_to_ascii_lowercase(chars[2]) == 'm' && char_to_ascii_lowercase(chars[3]) == 'l'
}

/// Whether an existing theme file is to be left as it is.
pub fn keeps_existing_file(file_exists: bool, overwrite_existing: bool) -> (keep: bool)
    ensures
        keep == (file_exists && !overwrite_existing),
{
    file_exists && !overwrite_existing
}

/// What is written for one colour: its key and its value without the white
/// space around it, or nothing where the colour is absent or blank.
pub open spec fn written_color(key: Seq<char>, value: Option<String>) -> Seq<
    (Seq<char>, Seq<char>),
> {
    match value {
        Some(v) => if trimmed(v@).len() > 0 {
            seq![(key, trimmed(v@))]
        } else {
            Seq::empty()
        },
        None => Seq::empty(),
    }
}

/// What is written for the colours of a theme, in the order of the file.
pub open spec fn written_colors(colors: ThemeColors) -> Seq<(Seq<char>, Seq<char>)> {
    written_color("primary"@, colors.primary) + written_color("secondary"@, colors.secondary)
        + written_color("background"@, colors.background) + written_color(
        "foreground"@,
        colors.foreground,
    ) + written_color("border"@, colors.border) + written_color(
        "border_focused"@,
        colors.border_focused,
    ) + written_color("selection"@, colors.selection) + written_color("cursor"@, colors.cursor)
        + written_color("success"@, colors.success) + written_color("warning"@, colors.warning)
        + written_color("error"@, colors.error) + written_color("info"@, colors.info)
        + written_color("text"@, colors.text) + written_color("text_dim"@, colors.text_dim)
        + written_color("text_bright"@, colors.text_bright) + written_color(
        "keyword"@,
        colors.keyword,
    ) + written_color("string"@, colors.string) + written_color("comment"@, colors.comment)
        + written_color("function"@, colors.function) + written_color("spinner"@, colors.spinner)
        + written_color("progress"@, colors.progress)
}

/// The entries as mathematical values, in order.
pub open spec fn entry_views(entries: Seq<(String, String)>) -> Seq<(Seq<char>, Seq<char>)> {
    entries.map_values(|e: (String, String)| (e.0@, e.1@))
}

/// What a theme file holds once it is written.
#[derive(Clone, Debug, PartialEq)]
pub struct ThemeDocument {
    pub id: String,
    pub name: String,
    pub description: String,
    pub is_dark: bool,
    /// The table of colours: key and value of each colour that is set.
    pub colors: Vec<(String, String)>,
}

/// Adds the entry of one colour, where the colour is set.
fn set_theme_color_value(table: &mut Vec<(String, String)>, key: &str, value: &Option<String>)
    ensures
        entry_views(final(table)@) == entry_views(old(table)@) + written_color(key@, *value),
{
    let ghost before = entry_views(table@);
    if let Some(color) = value {
        let kept = trim_text(color.as_str());
        if !kept.as_str().is_empty() {
            table.push((String::from_str(key), kept));
            assert(entry_views(table@) =~= before.push((key@, trimmed(color@))));
        }
    }
    assert(entry_views(table@) =~= before + written_color(key@, *value));
}

/// Returns what the file of the theme `spec` holds: the identifier made from
/// the theme's own, name and description without the white space around
/// them, and an entry for each colour that is set and not blank.
pub fn theme_document(spec: &ThemeFileSpec) -> (doc: ThemeDocument)
    ensures
        doc.id@ == slug_of(spec.id@),
        doc.name@ == trimmed(spec.name@),
        doc.description@ == trimmed(spec.description@),
        doc.is_dark == spec.is_dark,
        entry_views(doc.colors@) == written_colors(spec.colors),
{
    let mut table: Vec<(String, String)> = Vec::new();
    assert(entry_views(table@) =~= Seq::empty());
    set_theme_color_value(&mut table, "primary", &spec.colors.primary);
    set_theme_color_value(&mut table, "secondary", &spec.colors.secondary);
    set_theme_color_value(&mut table, "background", &spec.colors.background);
    set_theme_color_value(&mut table, "foreground", &spec.colors.foreground);
    set_theme_color_value(&mut table, "border", &spec.colors.border);
    set_theme_color_value(&mut table, "border_focused", &spec.colors.border_focused);
    set_theme_color_value(&mut table, "selection", &spec.colors.selection);
    set_theme_color_value(&mut table, "cursor", &spec.colors.cursor);
    set_theme_color_value(&mut table, "success", &spec.colors.success);
    set_theme_color_value(&mut table, "warning", &spec.colors.warning);
    set_theme_color_value(&mut table, "error", &spec.colors.error);
    set_theme_color_value(&mut table, "info", &spec.colors.info);
    set_theme_color_value(&mut table, "text", &spec.colors.text);
    set_theme_color_value(&mut table, "text_dim", &spec.colors.text_dim);
    set_theme_color_value(&mut table, "text_bright", &spec.colors.text_bright);
    set_theme_color_value(&mut table, "keyword", &spec.colors.keyword);
    set_theme_color_value(&mut table, "string", &spec.colors.string);
    set_theme_color_value(&mut table, "comment", &spec.colors.comment);
    set_theme_color_value(&mut table, "function", &spec.colors.function);
    set_theme_color_value(&mut table, "spinner", &spec.colors.spinner);
    set_theme_color_value(&mut table, "progress", &spec.colors.progress);
    assert(entry_views(table@) =~= written_colors(spec.colors));
    ThemeDocument {
        id: slugify_theme_id(spec.id.as_str()),
        name: trim_text(spec.name.as_str()),
        description: trim_text(spec.description.as_str()),
        is_dark: spec.is_dark,
        colors: table,
    }
}

/// The text of a document, as `toml_edit` writes it: first the entries of
/// `texts`, then those of `flags`, then the table `table_key` with the
/// entries of `table`, each in the order given.
pub uninterp spec fn toml_document_text(
    texts: Seq<(Seq<char>, Seq<char>)>,
    flags: Seq<(Seq<char>, bool)>,
    table_key: Seq<char>,
    table: Seq<(Seq<char>, Seq<char>)>,
) -> Seq<char>;

/// The flags as mathematical values, in order.
pub open spec fn flag_views(flags: Seq<(String, bool)>) -> Seq<(Seq<char>, bool)> {
    flags.map_values(|f: (String, bool)| (f.0@, f.1))
}

/// Writes a document with `toml_edit`: a `DocumentMut` is filled with the
/// entries, the table is made explicit, and the document is turned into text
/// by its `to_string`.
///
/// Trusted: the text is a function of the entries alone, and the contract
/// gives it its name. Nothing is claimed about what the text looks like.
#[verifier::external_body]
fn write_toml_document(
    texts: &Vec<(String, String)>,
    flags: &Vec<(String, bool)>,
    table_key: &str,
    table: &Vec<(String, String)>,
) -> (text: String)
    ensures
        text@ == toml_document_text(
            entry_views(texts@),
            flag_views(flags@),
            table_key@,
            entry_views(table@),
        ),
{
    let mut doc = toml_edit::DocumentMut::new();
    for (key, text) in texts {
        doc[key.as_str()] = toml_edit::value(text.as_str());
    }
    for (key, flag) in flags {
        doc[key.as_str()] = toml_edit::value(*flag);
    }
    let mut rows = toml_edit::Table::new();
    rows.set_implicit(false);
    for (key, text) in table {
        rows.insert(key, toml_edit::value(text.as_str()));
    }
    doc[table_key] = toml_edit::Item::Table(rows);
    doc.to_string()
}

/// The entries of text that a theme's file opens with.
pub open spec fn theme_texts(spec: ThemeFileSpec) -> Seq<(Seq<char>, Seq<char>)> {
    seq![
        ("id"@, slug_of(spec.id@)),
        ("name"@, trimmed(spec.name@)),
        ("description"@, trimmed(spec.description@)),
    ]
}

/// Returns the text of the file of the theme `spec`: identifier, name,
/// description and darkness, then the table of the colours that are set.
pub fn theme_file_text(spec: &ThemeFileSpec) -> (text: String)
    ensures
        text@ == toml_document_text(
            theme_texts(*spec),
            seq![("is_dark"@, spec.is_dark)],
            "colors"@,
            written_colors(spec.colors),
        ),
{
    let doc = theme_document(spec);
    let mut texts: Vec<(String, String)> = Vec::new();
    texts.push((String::from_str("id"), doc.id));
    texts.push((String::from_str("name"), doc.name));
    texts.push((String::from_str("description"), doc.description));
    let mut flags: Vec<(String, bool)> = Vec::new();
    flags.push((String::from_str("is_dark"), doc.is_dark));
    assert(entry_views(texts@) =~= theme_texts(*spec));
    assert(flag_views(flags@) =~= seq![("is_dark"@, spec.is_dark)]);
    write_toml_document(&texts, &flags, "colors", &doc.colors)
}

/// A theme file that was read and parsed: the file's name, the name without
/// its ending, where it has one that is text, and what the file holds.
#[derive(Clone, Debug, PartialEq)]
pub struct ParsedThemeFile {
    pub file_name: String,
    pub file_stem: Option<String>,
    pub doc: ThemeFileDoc,
}

impl ParsedThemeFile {
    /// The file names a theme: its name is more than white space.
    pub open spec fn names_theme(self) -> bool {
        trimmed(self.doc.name@).len() > 0
    }

    /// The name of the file as a mathematical value.
    pub open spec fn stem(self) -> Option<Seq<char>> {
        match self.file_stem {
            Some(stem) => Some(stem@),
            None => None,
        }
    }
}

/// The files among the first `upto` that name a theme, in order.
pub open spec fn naming_files(files: Seq<ParsedThemeFile>, upto: int) -> Seq<ParsedThemeFile>
    decreases upto,
{
    if upto <= 0 {
        Seq::empty()
    } else {
        let before = naming_files(files, upto - 1);
        if files[upto - 1].names_theme() {
            before.push(files[upto - 1])
        } else {
            before
        }
    }
}

/// `themes` is what the files are listed as: one theme for each file that
/// names one, in the order of the files.
pub open spec fn lists_themes(files: Seq<ParsedThemeFile>, upto: int, themes: Seq<ThemeFileSpec>)
    -> bool {
    let kept = naming_files(files, upto);
    &&& themes.len() == kept.len()
    &&& forall|k: int|
        0 <= k < themes.len() ==> listed_theme(kept[k].stem(), kept[k].doc, Some(#[trigger] themes[k]))
}

/// The files stand in ascending order of their names. Names are ordered as
/// identifiers are: character by character, by code point.
pub open spec fn ordered_by_name(files: Seq<ParsedThemeFile>) -> bool {
    forall|i: int, j: int|
        0 <= i < j < files.len() ==> !id_precedes(
            (#[trigger] files[j]).file_name@,
            (#[trigger] files[i]).file_name@,
        )
}

/// `themes` is what the files are listed as, whatever the order in which
/// they were read: one theme for each file that names one, in ascending
/// order of the files' names.
pub open spec fn lists_themes_by_name(files: Seq<ParsedThemeFile>, themes: Seq<ThemeFileSpec>)
    -> bool {
    exists|ordered: Seq<ParsedThemeFile>|
        {
            &&& #[trigger] ordered_by_name(ordered)
            &&& ordered.to_multiset() == files.to_multiset()
            &&& lists_themes(ordered, ordered.len() as int, themes)
        }
}

/// Puts the files in ascending order of their names.
pub fn sort_by_file_name(files: Vec<ParsedThemeFile>) -> (sorted: Vec<ParsedThemeFile>)
    ensures
        ordered_by_name(sorted@),
        sorted@.to_multiset() == files@.to_multiset(),
{
    let ghost all = files@;
    let mut rest = files;
    let mut sorted: Vec<ParsedThemeFile> = Vec::new();
    assert(sorted@ + rest@ =~= all);
    while rest.len() > 0
        invariant
            ordered_by_name(sorted@),
            (sorted@ + rest@).to_multiset() == all.to_multiset(),
        decreases rest.len(),
    {
        let ghost rest_before = rest@;
        let ghost sorted_before = sorted@;
        let file = rest.remove(0);
        let ghost moved = file;
        let mut at: usize = 0;
        while at < sorted.len() && !id_less(file.file_name.as_str(), sorted[at].file_name.as_str())
            invariant
                sorted@ == sorted_before,
                at <= sorted.len(),
                forall|k: int|
                    0 <= k < at ==> !id_precedes(file.file_name@, (#[trigger] sorted[k]).file_name@),
            decreases sorted.len() - at,
        {
            at = at + 1;
        }
        sorted.insert(at, file);
        proof {
            lemma_insert_keeps_order(sorted_before, at as int, moved);
            lemma_moving_keeps_members(sorted_before, rest_before, at as int);
        }
    }
    assert(sorted@ + rest@ =~= sorted@);
    sorted
}

/// A file that is put in behind the files that do not come after it, and in
/// front of one that does, leaves the order as it was.
proof fn lemma_insert_keeps_order(files: Seq<ParsedThemeFile>, at: int, file: ParsedThemeFile)
    requires
        ordered_by_name(files),
        0 <= at <= files.len(),
        forall|k: int| 0 <= k < at ==> !id_precedes(file.file_name@, (#[trigger] files[k]).file_name@),
        at < files.len() ==> id_precedes(file.file_name@, files[at].file_name@),
    ensures
        ordered_by_name(files.insert(at, file)),
{
    let grown = files.insert(at, file);
    assert forall|i: int, j: int| 0 <= i < j < grown.len() implies !id_precedes(
        (#[trigger] grown[j]).file_name@,
        (#[trigger] grown[i]).file_name@,
    ) by {
        if j == at {
            assert(grown[i] == files[i]);
        } else if i == at {
            assert(grown[j] == files[j - 1]);
            let high = files[j - 1].file_name@;
            let next = files[at].file_name@;
            if id_precedes(high, file.file_name@) {
                lemma_id_transitive(high, file.file_name@, next);
                lemma_id_irreflexive(next);
            }
        } else {
            let a = if i < at {
                i
            } else {
                i - 1
            };
            let b = if j < at {
                j
            } else {
                j - 1
            };
            assert(grown[i] == files[a]);
            assert(grown[j] == files[b]);
        }
    }
}

/// Moving the first of the files that are left to a place among the files
/// that are done neither adds a file nor loses one.
proof fn lemma_moving_keeps_members(
    done: Seq<ParsedThemeFile>,
    left: Seq<ParsedThemeFile>,
    at: int,
)
    requires
        left.len() > 0,
        0 <= at <= done.len(),
    ensures
        (done.insert(at, left[0]) + left.remove(0)).to_multiset() == (done + left).to_multiset(),
{
    broadcast use {
        vstd::seq_lib::to_multiset_remove,
        vstd::seq_lib::to_multiset_insert,
        vstd::seq_lib::to_multiset_contains,
        vstd::multiset::group_multiset_axioms,
    };

    let whole = done + left;
    let file = left[0];
    let without = whole.remove(done.len() as int);
    assert(whole[done.len() as int] == file);
    assert(without =~= done + left.remove(0));
    assert(without.insert(at, file) =~= done.insert(at, file) + left.remove(0));
    assert(whole.contains(file));
    assert(whole.to_multiset().count(file) > 0);
    assert(without.to_multiset() == whole.to_multiset().remove(file));
    assert(without.insert(at, file).to_multiset() == without.to_multiset().insert(file));
    assert(whole.to_multiset().remove(file).insert(file) =~= whole.to_multiset());
}

/// Lists the themes of the parsed files in ascending order of the files'
/// names, whatever the order in which the files were read. A file without a
/// name is left out.
pub fn list_theme_files(files: Vec<ParsedThemeFile>) -> (themes: Vec<ThemeFileSpec>)
    ensures
        lists_themes_by_name(files@, themes@),
{
    let ordered = sort_by_file_name(files);
    let ghost witness = ordered@;
    let themes = list_in_order(ordered);
    assert(ordered_by_name(witness));
    themes
}

/// Lists the themes of the files in the order of the files.
fn list_in_order(files: Vec<ParsedThemeFile>) -> (themes: Vec<ThemeFileSpec>)
    ensures
        lists_themes(files@, files.len() as int, themes@),
{
    let ghost all = files@;
    let mut themes: Vec<ThemeFileSpec> = Vec::new();
    let mut rest = files;
    let mut done: usize = 0;
    let total = rest.len();
    while done < total
        invariant
            done <= total,
            total == all.len(),
            rest.len() == total - done,
            forall|k: int| 0 <= k < rest.len() ==> rest[k] == all[done + k],
            lists_themes(all, done as int, themes@),
        decreases total - done,
    {
        let ghost before = themes@;
        let file = rest.remove(0);
        assert(file == all[done as int]);
        let stem = match &file.file_stem {
            Some(stem) => Some(stem.as_str()),
            None => None,
        };
        match theme_from_doc(stem, file.doc) {
            Some(theme) => {
                themes.push(theme);
                assert forall|k: int| 0 <= k < themes.len() implies listed_theme(
                    naming_files(all, done + 1)[k].stem(),
                    naming_files(all, done + 1)[k].doc,
                    Some(#[trigger] themes[k]),
                ) by {
                    if k < before.len() {
                        assert(themes[k] == before[k]);
                    }
                }
            },
            None => {},
        }
        done = done + 1;
    }
    themes
}

/// What writing a theme comes to: the name of its file, and the text to
/// write unless the file is to be left as it is.
#[derive(Clone, Debug, PartialEq)]
pub struct ThemeFileWrite {
    pub file_name: String,
    pub contents: Option<String>,
}

/// Decides what is written for the theme `spec`. An existing file is left as
/// it is unless it may be overwritten.
pub fn write_theme_file(spec: &ThemeFileSpec, file_exists: bool, overwrite_existing: bool) -> (write:
    ThemeFileWrite)
    ensures
        write.file_name@ == slug_of(spec.id@) + theme_file_ending(),
        file_exists && !overwrite_existing ==> write.contents is None,
        !(file_exists && !overwrite_existing) ==> (write.contents matches Some(text) && text@
            == toml_document_text(
            theme_texts(*spec),
            seq![("is_dark"@, spec.is_dark)],
            "colors"@,
            written_colors(spec.colors),
        )),
{
    let file_name = theme_file_name(spec.id.as_str());
    if keeps_existing_file(file_exists, overwrite_existing) {
        ThemeFileWrite { file_name, contents: None }
    } else {
        ThemeFileWrite { file_name, contents: Some(theme_file_text(spec)) }
    }
}

} // verus!
