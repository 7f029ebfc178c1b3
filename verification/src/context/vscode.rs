//! VS Code enricher: reads what the window title shows (the active file, a
//! language guess from its extension, and the workspace name).

use vstd::prelude::*;
use crate::context::enricher::{ContextEnricher, PluginInfo, WindowProbe};
use crate::text::{
    ascii_lower, chars_eq, chars_eq_ignore_ascii_case, chars_of, contains_seq, ends_with, ends_with_chars,
    eq_ignore_ascii_case, find_chars, lower_ascii_char, occurs_at, opt_view, slice_chars, string_from_chars,
    trim_start_char, trim_start_char_chars, trim_ws, trim_ws_chars,
};
use crate::types::{lookup, ContexaError, ContextSnapshot, SnapshotView};

verus! {

pub const VSCODE_PROCESS_NAME: &'static str = "Code.exe";
pub const VSCODE_PRIORITY: u32 = 100;
/// The marker VS Code puts before the name of an unsaved file ("●").
pub const UNSAVED_MARKER: char = '\u{25cf}';

/// Title suffix with an ASCII hyphen.
pub open spec fn suffix_hyphen() -> Seq<char> {
    " - Visual Studio Code"@
}

/// Title suffix with an em dash.
pub open spec fn suffix_em_dash() -> Seq<char> {
    " — Visual Studio Code"@
}

/// Separator between file and workspace, ASCII hyphen.
pub open spec fn sep_hyphen() -> Seq<char> {
    " - "@
}

/// Separator between file and workspace, em dash.
pub open spec fn sep_em_dash() -> Seq<char> {
    " — "@
}

/// `s` without `suffix`, when it ends with it (`str::strip_suffix`).
pub open spec fn strip_suffix(s: Seq<char>, suffix: Seq<char>) -> Option<Seq<char>> {
    if ends_with(s, suffix) {
        Some(s.subrange(0, s.len() - suffix.len()))
    } else {
        None
    }
}

/// The title without the VS Code suffix; the hyphen form is tried first.
pub open spec fn title_body(title: Seq<char>) -> Option<Seq<char>> {
    match strip_suffix(title, suffix_hyphen()) {
        Some(b) => Some(b),
        None => strip_suffix(title, suffix_em_dash()),
    }
}

/// The position of the first occurrence of `needle` in `hay`.
pub open spec fn first_occurrence(hay: Seq<char>, needle: Seq<char>) -> int {
    choose|i: int| occurs_at(hay, needle, i) && forall|j: int| 0 <= j < i ==> !occurs_at(hay, needle, j)
}

/// `hay` split around the first occurrence of `sep` (`str::splitn(2, sep)`).
pub open spec fn split_once(hay: Seq<char>, sep: Seq<char>) -> (Seq<char>, Seq<char>) {
    let i = first_occurrence(hay, sep);
    (hay.subrange(0, i), hay.subrange(i + sep.len(), hay.len() as int))
}

/// File part and workspace of a title body: split at the first separator
/// that occurs, the hyphen form tried first.
pub open spec fn file_and_workspace(body: Seq<char>) -> (Seq<char>, Option<Seq<char>>) {
    if contains_seq(body, sep_hyphen()) {
        (split_once(body, sep_hyphen()).0, Some(split_once(body, sep_hyphen()).1))
    } else if contains_seq(body, sep_em_dash()) {
        (split_once(body, sep_em_dash()).0, Some(split_once(body, sep_em_dash()).1))
    } else {
        (body, None)
    }
}

/// The file name and workspace a VS Code window title shows, if it is one.
pub open spec fn parsed_title(title: Seq<char>) -> Option<(Seq<char>, Option<Seq<char>>)> {
    match title_body(title) {
        None => None,
        Some(body) => {
            let f = trim_ws(trim_start_char(file_and_workspace(body).0, UNSAVED_MARKER));
            if f.len() == 0 {
                None
            } else {
                Some((f, file_and_workspace(body).1))
            }
        },
    }
}

/// The text after the last `.` of `s`, or all of `s` when it has none
/// (`s.rsplit('.').next()`).
pub open spec fn extension(s: Seq<char>) -> Seq<char>
    decreases s.len(),
{
    if s.len() == 0 {
        Seq::empty()
    } else if s.last() == '.' {
        Seq::empty()
    } else {
        extension(s.drop_last()).push(s.last())
    }
}

/// ASCII-lowercased characters.
pub open spec fn lower_seq(s: Seq<char>) -> Seq<char> {
    s.map_values(|c: char| ascii_lower(c))
}

/// The language a lowercase file extension denotes, if known.
pub open spec fn language_for_extension(e: Seq<char>) -> Option<Seq<char>> {
    if e == "rs"@ {
        Some("rust"@)
    } else if e == "ts"@ || e == "tsx"@ {
        Some("typescript"@)
    } else if e == "js"@ || e == "jsx"@ {
        Some("javascript"@)
    } else if e == "py"@ {
        Some("python"@)
    } else if e == "go"@ {
        Some("go"@)
    } else if e == "java"@ {
        Some("java"@)
    } else if e == "c"@ {
        Some("c"@)
    } else if e == "cpp"@ || e == "cc"@ || e == "cxx"@ || e == "h"@ || e == "hpp"@ {
        Some("cpp"@)
    } else if e == "cs"@ {
        Some("csharp"@)
    } else if e == "json"@ {
        Some("json"@)
    } else if e == "md"@ {
        Some("markdown"@)
    } else if e == "toml"@ {
        Some("toml"@)
    } else if e == "yaml"@ || e == "yml"@ {
        Some("yaml"@)
    } else if e == "html"@ {
        Some("html"@)
    } else if e == "css"@ {
        Some("css"@)
    } else if e == "sql"@ {
        Some("sql"@)
    } else {
        None
    }
}

/// The language guessed from a file name's extension; a name without a
/// `.` has no extension and gets no guess.
pub open spec fn language_of_file(file_name: Seq<char>) -> Option<Seq<char>> {
    if file_name.contains('.') {
        language_for_extension(lower_seq(extension(file_name)))
    } else {
        None
    }
}

/// Whether `v` holds a `.`.
fn has_dot(v: &Vec<char>) -> (b: bool)
    ensures
        b == v@.contains('.'),
{
    let mut i: usize = 0;
    while i < v.len()
        invariant
            i <= v.len(),
            forall|j: int| 0 <= j < i ==> v@[j] != '.',
        decreases v.len() - i,
    {
        if v[i] == '.' {
            assert(v@[i as int] == '.');
            return true;
        }
        i += 1;
    }
    false
}

/// The file name and workspace read from a VS Code window title.
pub struct ParsedTitle {
    pub file_name: String,
    pub workspace: Option<String>,
}

/// The smallest occurrence position is the one `first_occurrence` picks.
proof fn lemma_first_occurrence(hay: Seq<char>, needle: Seq<char>, i: int)
    requires
        occurs_at(hay, needle, i),
        forall|j: int| 0 <= j < i ==> !occurs_at(hay, needle, j),
    ensures
        first_occurrence(hay, needle) == i,
{
    let k = first_occurrence(hay, needle);
    assert(occurs_at(hay, needle, k) && forall|j: int| 0 <= j < k ==> !occurs_at(hay, needle, j));
    if k < i {
        assert(!occurs_at(hay, needle, k));
    }
    if i < k {
        assert(!occurs_at(hay, needle, i));
    }
}

/// `v` split around the first occurrence of `sep`, if it occurs.
fn split_once_chars(v: &Vec<char>, sep: &Vec<char>) -> (r: Option<(Vec<char>, Vec<char>)>)
    ensures
        match r {
            Some((a, b)) => contains_seq(v@, sep@) && a@ == split_once(v@, sep@).0 && b@ == split_once(v@, sep@).1,
            None => !contains_seq(v@, sep@),
        },
{
    match find_chars(v, sep) {
        Some(i) => {
            proof {
                lemma_first_occurrence(v@, sep@, i as int);
                assert(i + sep.len() <= v.len());
            }
            let a = slice_chars(v, 0, i);
            let b = slice_chars(v, i + sep.len(), v.len());
            Some((a, b))
        },
        None => None,
    }
}

/// The title without its VS Code suffix, if it has one.
fn strip_suffix_chars(v: &Vec<char>, suffix: &Vec<char>) -> (r: Option<Vec<char>>)
    ensures
        match r {
            Some(b) => strip_suffix(v@, suffix@) == Some(b@),
            None => strip_suffix(v@, suffix@).is_none(),
        },
{
    if ends_with_chars(v, suffix) {
        Some(slice_chars(v, 0, v.len() - suffix.len()))
    } else {
        None
    }
}

/// Reads the active file name and workspace from a VS Code window title,
/// such as `main.rs - Contexa - Visual Studio Code`. Titles of other windows,
/// and titles whose file part is empty, give `None`. The unsaved-file marker
/// and surrounding white space are removed from the file name.
pub fn parse_title(title: &str) -> (r: Option<ParsedTitle>)
    ensures
        match r {
            Some(p) => parsed_title(title@) == Some((p.file_name@, opt_view(p.workspace))),
            None => parsed_title(title@).is_none(),
        },
{
    let t = chars_of(title);
    let body = match strip_suffix_chars(&t, &chars_of(" - Visual Studio Code")) {
        Some(b) => b,
        None => match strip_suffix_chars(&t, &chars_of(" — Visual Studio Code")) {
            Some(b) => b,
            None => {
                return None;
            },
        },
    };
    let (file_part, workspace) = match split_once_chars(&body, &chars_of(" - ")) {
        Some((a, b)) => (a, Some(string_from_chars(&b))),
        None => match split_once_chars(&body, &chars_of(" — ")) {
            Some((a, b)) => (a, Some(string_from_chars(&b))),
            None => (body, None),
        },
    };
    let stripped = trim_start_char_chars(&file_part, UNSAVED_MARKER);
    let file = trim_ws_chars(&stripped);
    if file.len() == 0 {
        return None;
    }
    Some(ParsedTitle { file_name: string_from_chars(&file), workspace })
}

/// The characters after the last `.`, or all characters when there is none.
fn extension_chars(v: &Vec<char>) -> (r: Vec<char>)
    ensures
        r@ == extension(v@),
{
    let n = v.len();
    let mut i: usize = n;
    assert(v@.take(n as int) == v@);
    assert(v@.subrange(n as int, n as int) == Seq::<char>::empty());
    while i > 0 && v[i - 1] != '.'
        invariant
            i <= n == v.len(),
            extension(v@) == extension(v@.take(i as int)) + v@.subrange(i as int, n as int),
        decreases i,
    {
        assert(v@.take(i as int).drop_last() == v@.take(i - 1));
        assert(v@.subrange(i - 1, n as int) == seq![v@[i - 1]] + v@.subrange(i as int, n as int));
        i -= 1;
    }
    if i > 0 {
        assert(v@.take(i as int).last() == '.');
    }
    slice_chars(v, i, n)
}

/// ASCII-lowercased copy of `v`.
fn lower_chars(v: &Vec<char>) -> (r: Vec<char>)
    ensures
        r@ == lower_seq(v@),
{
    let mut r: Vec<char> = Vec::new();
    let mut i: usize = 0;
    while i < v.len()
        invariant
            i <= v.len(),
            r@ == lower_seq(v@.take(i as int)),
        decreases v.len() - i,
    {
        r.push(lower_ascii_char(v[i]));
        assert(lower_seq(v@.take(i + 1)) == lower_seq(v@.take(i as int)).push(ascii_lower(v@[i as int])));
        i += 1;
    }
    assert(v@.take(v.len() as int) == v@);
    r
}

/// Whether `e` is the literal `lit`.
fn is_lit(e: &Vec<char>, lit: &str) -> (b: bool)
    ensures
        b == (e@ == lit@),
{
    chars_eq(e, &chars_of(lit))
}

/// Guesses a language from a file name's extension (case-insensitive); a
/// name without an extension gets none.
pub fn language_from_extension(file_name: &str) -> (r: Option<&'static str>)
    ensures
        match r {
            Some(l) => language_of_file(file_name@) == Some(l@),
            None => language_of_file(file_name@).is_none(),
        },
{
    let name = chars_of(file_name);
    if !has_dot(&name) {
        return None;
    }
    let e = lower_chars(&extension_chars(&name));
    if is_lit(&e, "rs") {
        Some("rust")
    } else if is_lit(&e, "ts") || is_lit(&e, "tsx") {
        Some("typescript")
    } else if is_lit(&e, "js") || is_lit(&e, "jsx") {
        Some("javascript")
    } else if is_lit(&e, "py") {
        Some("python")
    } else if is_lit(&e, "go") {
        Some("go")
    } else if is_lit(&e, "java") {
        Some("java")
    } else if is_lit(&e, "c") {
        Some("c")
    } else if is_lit(&e, "cpp") || is_lit(&e, "cc") || is_lit(&e, "cxx") || is_lit(&e, "h") || is_lit(
        &e,
        "hpp",
    ) {
        Some("cpp")
    } else if is_lit(&e, "cs") {
        Some("csharp")
    } else if is_lit(&e, "json") {
        Some("json")
    } else if is_lit(&e, "md") {
        Some("markdown")
    } else if is_lit(&e, "toml") {
        Some("toml")
    } else if is_lit(&e, "yaml") || is_lit(&e, "yml") {
        Some("yaml")
    } else if is_lit(&e, "html") {
        Some("html")
    } else if is_lit(&e, "css") {
        Some("css")
    } else if is_lit(&e, "sql") {
        Some("sql")
    } else {
        None
    }
}

/// Enricher for VS Code windows.
#[derive(Clone, Copy, Debug)]
pub struct VsCodeEnricher;

/// What the VS Code enricher does to a snapshot: with a title that does not
/// parse, nothing; otherwise the file name becomes the document path,
/// `language_hint` is set when the extension is known and `workspace` when
/// the title names one, the rest of the snapshot staying as it was.
pub open spec fn vscode_enriched(before: SnapshotView, after: SnapshotView) -> bool {
    match parsed_title(before.window_title) {
        None => after == before,
        Some((file, workspace)) => {
            &&& after.document_path == Some(file)
            &&& lookup(after.metadata, "language_hint"@) == match language_of_file(file) {
                Some(l) => Some(l),
                None => lookup(before.metadata, "language_hint"@),
            }
            &&& lookup(after.metadata, "workspace"@) == match workspace {
                Some(w) => Some(w),
                None => lookup(before.metadata, "workspace"@),
            }
            &&& forall|k: Seq<char>|
                k != "language_hint"@ && k != "workspace"@ ==> lookup(after.metadata, k) == lookup(
                    before.metadata,
                    k,
                )
            &&& after.id == before.id
            &&& after.timestamp == before.timestamp
            &&& after.window_title == before.window_title
            &&& after.process_name == before.process_name
            &&& after.process_id == before.process_id
            &&& after.hwnd == before.hwnd
            &&& after.url == before.url
            &&& after.visible_text == before.visible_text
            &&& after.selected_text == before.selected_text
            &&& after.language == before.language
            &&& after.capture_method == before.capture_method
        },
    }
}

/// The descriptive information of the VS Code enricher.
pub open spec fn vscode_info(i: PluginInfo) -> bool {
    &&& i.id@ == "enricher.vscode"@
    &&& i.name@ == "VS Code Enricher"@
    &&& i.version@ == "0.1.0"@
    &&& i.author@ == "Contexa Team"@
    &&& i.description@ == "Extracts file name and workspace from the VS Code window title"@
}

impl ContextEnricher for VsCodeEnricher {
    open spec fn enriches(
        &self,
        before: SnapshotView,
        address_bar: Option<Seq<char>>,
        succeeded: bool,
        after: SnapshotView,
    ) -> bool {
        succeeded && vscode_enriched(before, after)
    }

    open spec fn describes(&self, info: PluginInfo) -> bool {
        vscode_info(info)
    }

    open spec fn spec_matches(&self, process_name: Seq<char>) -> bool {
        eq_ignore_ascii_case(process_name, VSCODE_PROCESS_NAME@)
    }

    open spec fn spec_priority(&self) -> u32 {
        VSCODE_PRIORITY
    }

    fn matches(&self, process_name: &str) -> (r: bool) {
        chars_eq_ignore_ascii_case(&chars_of(process_name), &chars_of(VSCODE_PROCESS_NAME))
    }

    /// A title that does not parse leaves the snapshot as it is. Otherwise
    /// the file name becomes the document path, `language_hint` is set when
    /// the extension is known and `workspace` when the title names one.
    fn enrich(&self, snapshot: &mut ContextSnapshot, probe: &WindowProbe) -> (r: Result<(), ContexaError>)
        ensures
            r is Ok,
            parsed_title(old(snapshot).window_title@).is_none() ==> final(snapshot)@ == old(snapshot)@,
            parsed_title(old(snapshot).window_title@) matches Some((file, workspace)) ==> {
                &&& opt_view(final(snapshot).document_path) == Some(file)
                &&& final(snapshot).metadata.spec_get("language_hint"@) == match language_of_file(file) {
                    Some(l) => Some(l),
                    None => old(snapshot).metadata.spec_get("language_hint"@),
                }
                &&& final(snapshot).metadata.spec_get("workspace"@) == match workspace {
                    Some(w) => Some(w),
                    None => old(snapshot).metadata.spec_get("workspace"@),
                }
                &&& forall|k: Seq<char>| k != "language_hint"@ && k != "workspace"@
                    ==> final(snapshot).metadata.spec_get(k) == old(snapshot).metadata.spec_get(k)
                &&& final(snapshot).id == old(snapshot).id
                &&& final(snapshot).window_title == old(snapshot).window_title
                &&& final(snapshot).process_name == old(snapshot).process_name
                &&& final(snapshot).url == old(snapshot).url
                &&& final(snapshot).visible_text == old(snapshot).visible_text
                &&& final(snapshot).selected_text == old(snapshot).selected_text
            },
    {
        let parsed = match parse_title(snapshot.window_title.as_str()) {
            Some(p) => p,
            None => {
                return Ok(());
            },
        };
        proof {
            reveal_strlit("language_hint");
            reveal_strlit("workspace");
            assert("language_hint"@ != "workspace"@) by {
                assert("language_hint"@.len() != "workspace"@.len());
            }
        }
        match language_from_extension(parsed.file_name.as_str()) {
            Some(lang) => {
                snapshot.metadata.insert(String::from_str("language_hint"), String::from_str(lang));
            },
            None => {},
        }
        match parsed.workspace {
            Some(w) => {
                snapshot.metadata.insert(String::from_str("workspace"), w);
            },
            None => {},
        }
        snapshot.document_path = Some(parsed.file_name);
        proof {
            assert forall|k: Seq<char>| k != "language_hint"@ && k != "workspace"@ implies lookup(
                snapshot.metadata@,
                k,
            ) == lookup(old(snapshot).metadata@, k) by {
                assert(snapshot.metadata.spec_get(k) == old(snapshot).metadata.spec_get(k));
            }
        }
        Ok(())
    }

    fn priority(&self) -> (p: u32) {
        VSCODE_PRIORITY
    }

    fn info(&self) -> (i: PluginInfo)
        ensures
            vscode_info(i),
    {
        PluginInfo {
            id: String::from_str("enricher.vscode"),
            name: String::from_str("VS Code Enricher"),
            version: String::from_str("0.1.0"),
            author: String::from_str("Contexa Team"),
            description: String::from_str("Extracts file name and workspace from the VS Code window title"),
        }
    }
}


/// The text after the last `.` of `stem` followed by `.` and `ext` is
/// `ext`, when `ext` holds no `.`.
proof fn lemma_extension_after_dot(stem: Seq<char>, ext: Seq<char>)
    requires
        !ext.contains('.'),
    ensures
        extension(stem.push('.') + ext) == ext,
    decreases ext.len(),
{
    if ext.len() == 0 {
        assert(stem.push('.') + ext =~= stem.push('.'));
    } else {
        let init = ext.drop_last();
        assert(!init.contains('.')) by {
            if init.contains('.') {
                let i = choose|i: int| 0 <= i < init.len() && init[i] == '.';
                assert(ext[i] == '.');
            }
        }
        lemma_extension_after_dot(stem, init);
        assert((stem.push('.') + ext).drop_last() =~= stem.push('.') + init);
        assert(ext[ext.len() - 1] != '.');
    }
}

/// A name made of `stem` and `dotted` (a `.` followed by lowercase ASCII
/// letters) gets the language of those letters.
proof fn lemma_language_after_dot(stem: Seq<char>, dotted: Seq<char>)
    requires
        dotted.len() >= 1,
        dotted[0] == '.',
        forall|i: int| 1 <= i < dotted.len() ==> 'a' <= #[trigger] dotted[i] <= 'z',
    ensures
        language_of_file(stem + dotted) == language_for_extension(dotted.skip(1)),
{
    let ext = dotted.skip(1);
    assert(!ext.contains('.')) by {
        if ext.contains('.') {
            let i = choose|i: int| 0 <= i < ext.len() && ext[i] == '.';
            assert(dotted[i + 1] == '.');
        }
    }
    assert(stem + dotted =~= stem.push('.') + ext);
    lemma_extension_after_dot(stem, ext);
    assert(lower_seq(ext) =~= ext) by {
        assert forall|i: int| 0 <= i < ext.len() implies lower_seq(ext)[i] == ext[i] by {
            assert(ext[i] == dotted[i + 1]);
        }
    }
    assert((stem + dotted)[stem.len() as int] == '.');
}

/// The table of [`language_for_extension`], entry by entry.
proof fn lemma_extension_table()
    ensures
        language_for_extension("rs"@) == Some("rust"@),
        language_for_extension("ts"@) == Some("typescript"@),
        language_for_extension("tsx"@) == Some("typescript"@),
        language_for_extension("js"@) == Some("javascript"@),
        language_for_extension("jsx"@) == Some("javascript"@),
        language_for_extension("py"@) == Some("python"@),
        language_for_extension("go"@) == Some("go"@),
        language_for_extension("java"@) == Some("java"@),
        language_for_extension("c"@) == Some("c"@),
        language_for_extension("cpp"@) == Some("cpp"@),
        language_for_extension("cc"@) == Some("cpp"@),
        language_for_extension("cxx"@) == Some("cpp"@),
        language_for_extension("h"@) == Some("cpp"@),
        language_for_extension("hpp"@) == Some("cpp"@),
        language_for_extension("cs"@) == Some("csharp"@),
        language_for_extension("json"@) == Some("json"@),
        language_for_extension("md"@) == Some("markdown"@),
        language_for_extension("toml"@) == Some("toml"@),
        language_for_extension("yaml"@) == Some("yaml"@),
        language_for_extension("yml"@) == Some("yaml"@),
        language_for_extension("html"@) == Some("html"@),
        language_for_extension("css"@) == Some("css"@),
        language_for_extension("sql"@) == Some("sql"@),
{
    reveal_strlit("rs");
    assert("rs"@.len() == 2 && "rs"@[0] == 'r' && "rs"@[1] == 's');
    reveal_strlit("ts");
    assert("ts"@.len() == 2 && "ts"@[0] == 't' && "ts"@[1] == 's');
    reveal_strlit("tsx");
    assert("tsx"@.len() == 3 && "tsx"@[0] == 't' && "tsx"@[1] == 's' && "tsx"@[2] == 'x');
    reveal_strlit("js");
    assert("js"@.len() == 2 && "js"@[0] == 'j' && "js"@[1] == 's');
    reveal_strlit("jsx");
    assert("jsx"@.len() == 3 && "jsx"@[0] == 'j' && "jsx"@[1] == 's' && "jsx"@[2] == 'x');
    reveal_strlit("py");
    assert("py"@.len() == 2 && "py"@[0] == 'p' && "py"@[1] == 'y');
    reveal_strlit("go");
    assert("go"@.len() == 2 && "go"@[0] == 'g' && "go"@[1] == 'o');
    reveal_strlit("java");
    assert("java"@.len() == 4 && "java"@[0] == 'j' && "java"@[1] == 'a' && "java"@[2] == 'v' && "java"@[3] == 'a');
    reveal_strlit("c");
    assert("c"@.len() == 1 && "c"@[0] == 'c');
    reveal_strlit("cpp");
    assert("cpp"@.len() == 3 && "cpp"@[0] == 'c' && "cpp"@[1] == 'p' && "cpp"@[2] == 'p');
    reveal_strlit("cc");
    assert("cc"@.len() == 2 && "cc"@[0] == 'c' && "cc"@[1] == 'c');
    reveal_strlit("cxx");
    assert("cxx"@.len() == 3 && "cxx"@[0] == 'c' && "cxx"@[1] == 'x' && "cxx"@[2] == 'x');
    reveal_strlit("h");
    assert("h"@.len() == 1 && "h"@[0] == 'h');
    reveal_strlit("hpp");
    assert("hpp"@.len() == 3 && "hpp"@[0] == 'h' && "hpp"@[1] == 'p' && "hpp"@[2] == 'p');
    reveal_strlit("cs");
    assert("cs"@.len() == 2 && "cs"@[0] == 'c' && "cs"@[1] == 's');
    reveal_strlit("json");
    assert("json"@.len() == 4 && "json"@[0] == 'j' && "json"@[1] == 's' && "json"@[2] == 'o' && "json"@[3] == 'n');
    reveal_strlit("md");
    assert("md"@.len() == 2 && "md"@[0] == 'm' && "md"@[1] == 'd');
    reveal_strlit("toml");
    assert("toml"@.len() == 4 && "toml"@[0] == 't' && "toml"@[1] == 'o' && "toml"@[2] == 'm' && "toml"@[3] == 'l');
    reveal_strlit("yaml");
    assert("yaml"@.len() == 4 && "yaml"@[0] == 'y' && "yaml"@[1] == 'a' && "yaml"@[2] == 'm' && "yaml"@[3] == 'l');
    reveal_strlit("yml");
    assert("yml"@.len() == 3 && "yml"@[0] == 'y' && "yml"@[1] == 'm' && "yml"@[2] == 'l');
    reveal_strlit("html");
    assert("html"@.len() == 4 && "html"@[0] == 'h' && "html"@[1] == 't' && "html"@[2] == 'm' && "html"@[3] == 'l');
    reveal_strlit("css");
    assert("css"@.len() == 3 && "css"@[0] == 'c' && "css"@[1] == 's' && "css"@[2] == 's');
    reveal_strlit("sql");
    assert("sql"@.len() == 3 && "sql"@[0] == 's' && "sql"@[1] == 'q' && "sql"@[2] == 'l');
}

/// The extension table: a file name ending in `.` and one of the known
/// extensions gets that extension's language, whatever comes before; a
/// name without a `.` gets none.
pub proof fn law_extensions_name_languages(stem: Seq<char>)
    ensures
        language_of_file(stem + ".rs"@) == Some("rust"@),
        language_of_file(stem + ".ts"@) == Some("typescript"@),
        language_of_file(stem + ".tsx"@) == Some("typescript"@),
        language_of_file(stem + ".js"@) == Some("javascript"@),
        language_of_file(stem + ".jsx"@) == Some("javascript"@),
        language_of_file(stem + ".py"@) == Some("python"@),
        language_of_file(stem + ".go"@) == Some("go"@),
        language_of_file(stem + ".java"@) == Some("java"@),
        language_of_file(stem + ".c"@) == Some("c"@),
        language_of_file(stem + ".cpp"@) == Some("cpp"@),
        language_of_file(stem + ".cc"@) == Some("cpp"@),
        language_of_file(stem + ".cxx"@) == Some("cpp"@),
        language_of_file(stem + ".h"@) == Some("cpp"@),
        language_of_file(stem + ".hpp"@) == Some("cpp"@),
        language_of_file(stem + ".cs"@) == Some("csharp"@),
        language_of_file(stem + ".json"@) == Some("json"@),
        language_of_file(stem + ".md"@) == Some("markdown"@),
        language_of_file(stem + ".toml"@) == Some("toml"@),
        language_of_file(stem + ".yaml"@) == Some("yaml"@),
        language_of_file(stem + ".yml"@) == Some("yaml"@),
        language_of_file(stem + ".html"@) == Some("html"@),
        language_of_file(stem + ".css"@) == Some("css"@),
        language_of_file(stem + ".sql"@) == Some("sql"@),
        !stem.contains('.') ==> language_of_file(stem).is_none(),
{
    lemma_extension_table();
    assert(language_of_file(stem + ".rs"@) == Some("rust"@)) by {
        reveal_strlit(".rs");
        reveal_strlit("rs");
        assert(".rs"@.skip(1) =~= "rs"@);
        lemma_language_after_dot(stem, ".rs"@);
    }
    assert(language_of_file(stem + ".ts"@) == Some("typescript"@)) by {
        reveal_strlit(".ts");
        reveal_strlit("ts");
        assert(".ts"@.skip(1) =~= "ts"@);
        lemma_language_after_dot(stem, ".ts"@);
    }
    assert(language_of_file(stem + ".tsx"@) == Some("typescript"@)) by {
        reveal_strlit(".tsx");
        reveal_strlit("tsx");
        assert(".tsx"@.skip(1) =~= "tsx"@);
        lemma_language_after_dot(stem, ".tsx"@);
    }
    assert(language_of_file(stem + ".js"@) == Some("javascript"@)) by {
        reveal_strlit(".js");
        reveal_strlit("js");
        assert(".js"@.skip(1) =~= "js"@);
        lemma_language_after_dot(stem, ".js"@);
    }
    assert(language_of_file(stem + ".jsx"@) == Some("javascript"@)) by {
        reveal_strlit(".jsx");
        reveal_strlit("jsx");
        assert(".jsx"@.skip(1) =~= "jsx"@);
        lemma_language_after_dot(stem, ".jsx"@);
    }
    assert(language_of_file(stem + ".py"@) == Some("python"@)) by {
        reveal_strlit(".py");
        reveal_strlit("py");
        assert(".py"@.skip(1) =~= "py"@);
        lemma_language_after_dot(stem, ".py"@);
    }
    assert(language_of_file(stem + ".go"@) == Some("go"@)) by {
        reveal_strlit(".go");
        reveal_strlit("go");
        assert(".go"@.skip(1) =~= "go"@);
        lemma_language_after_dot(stem, ".go"@);
    }
    assert(language_of_file(stem + ".java"@) == Some("java"@)) by {
        reveal_strlit(".java");
        reveal_strlit("java");
        assert(".java"@.skip(1) =~= "java"@);
        lemma_language_after_dot(stem, ".java"@);
    }
    assert(language_of_file(stem + ".c"@) == Some("c"@)) by {
        reveal_strlit(".c");
        reveal_strlit("c");
        assert(".c"@.skip(1) =~= "c"@);
        lemma_language_after_dot(stem, ".c"@);
    }
    assert(language_of_file(stem + ".cpp"@) == Some("cpp"@)) by {
        reveal_strlit(".cpp");
        reveal_strlit("cpp");
        assert(".cpp"@.skip(1) =~= "cpp"@);
        lemma_language_after_dot(stem, ".cpp"@);
    }
    assert(language_of_file(stem + ".cc"@) == Some("cpp"@)) by {
        reveal_strlit(".cc");
        reveal_strlit("cc");
        assert(".cc"@.skip(1) =~= "cc"@);
        lemma_language_after_dot(stem, ".cc"@);
    }
    assert(language_of_file(stem + ".cxx"@) == Some("cpp"@)) by {
        reveal_strlit(".cxx");
        reveal_strlit("cxx");
        assert(".cxx"@.skip(1) =~= "cxx"@);
        lemma_language_after_dot(stem, ".cxx"@);
    }
    assert(language_of_file(stem + ".h"@) == Some("cpp"@)) by {
        reveal_strlit(".h");
        reveal_strlit("h");
        assert(".h"@.skip(1) =~= "h"@);
        lemma_language_after_dot(stem, ".h"@);
    }
    assert(language_of_file(stem + ".hpp"@) == Some("cpp"@)) by {
        reveal_strlit(".hpp");
        reveal_strlit("hpp");
        assert(".hpp"@.skip(1) =~= "hpp"@);
        lemma_language_after_dot(stem, ".hpp"@);
    }
    assert(language_of_file(stem + ".cs"@) == Some("csharp"@)) by {
        reveal_strlit(".cs");
        reveal_strlit("cs");
        assert(".cs"@.skip(1) =~= "cs"@);
        lemma_language_after_dot(stem, ".cs"@);
    }
    assert(language_of_file(stem + ".json"@) == Some("json"@)) by {
        reveal_strlit(".json");
        reveal_strlit("json");
        assert(".json"@.skip(1) =~= "json"@);
        lemma_language_after_dot(stem, ".json"@);
    }
    assert(language_of_file(stem + ".md"@) == Some("markdown"@)) by {
        reveal_strlit(".md");
        reveal_strlit("md");
        assert(".md"@.skip(1) =~= "md"@);
        lemma_language_after_dot(stem, ".md"@);
    }
    assert(language_of_file(stem + ".toml"@) == Some("toml"@)) by {
        reveal_strlit(".toml");
        reveal_strlit("toml");
        assert(".toml"@.skip(1) =~= "toml"@);
        lemma_language_after_dot(stem, ".toml"@);
    }
    assert(language_of_file(stem + ".yaml"@) == Some("yaml"@)) by {
        reveal_strlit(".yaml");
        reveal_strlit("yaml");
        assert(".yaml"@.skip(1) =~= "yaml"@);
        lemma_language_after_dot(stem, ".yaml"@);
    }
    assert(language_of_file(stem + ".yml"@) == Some("yaml"@)) by {
        reveal_strlit(".yml");
        reveal_strlit("yml");
        assert(".yml"@.skip(1) =~= "yml"@);
        lemma_language_after_dot(stem, ".yml"@);
    }
    assert(language_of_file(stem + ".html"@) == Some("html"@)) by {
        reveal_strlit(".html");
        reveal_strlit("html");
        assert(".html"@.skip(1) =~= "html"@);
        lemma_language_after_dot(stem, ".html"@);
    }
    assert(language_of_file(stem + ".css"@) == Some("css"@)) by {
        reveal_strlit(".css");
        reveal_strlit("css");
        assert(".css"@.skip(1) =~= "css"@);
        lemma_language_after_dot(stem, ".css"@);
    }
    assert(language_of_file(stem + ".sql"@) == Some("sql"@)) by {
        reveal_strlit(".sql");
        reveal_strlit("sql");
        assert(".sql"@.skip(1) =~= "sql"@);
        lemma_language_after_dot(stem, ".sql"@);
    }
}

} // verus!
