//! Project metadata gathered from manifest files, and the context block it
//! gives the prompt.
use vstd::prelude::*;
use vstd::utf8::encode_utf8;
use crate::diff_filter::{split_lines, split_lines_chars, vec_views};
use crate::manifest::{
    is_json, is_toml, json_items, json_items_at, json_parses, json_text, json_text_at, opt_views,
    toml_items, toml_items_at, toml_parses, toml_text, toml_text_at,
};
use crate::text::{
    chars_of, occurs_at, find, find_chars, index_of, index_of_char, index_of_from,
    is_white, is_white_space, leading_white, lemma_find_from, slice_chars, starts_with,
    starts_with_chars, string_of, trim, trim_chars, trim_start,
};

verus! {

/// What is known of the project in the working directory.
#[derive(Clone, Debug)]
pub struct ProjectInfo {
    pub name: Option<String>,
    pub version: Option<String>,
    pub description: Option<String>,
    pub project_type: Option<String>,
    pub keywords: Option<String>,
    pub group: Option<String>,
    pub go_version: Option<String>,
    pub has_docker: bool,
    pub has_docker_compose: bool,
    pub has_github_actions: bool,
}

impl ProjectInfo {
    /// Nothing is known.
    pub open spec fn is_blank(&self) -> bool {
        &&& self.name is None
        &&& self.version is None
        &&& self.description is None
        &&& self.project_type is None
        &&& self.keywords is None
        &&& self.group is None
        &&& self.go_version is None
        &&& !self.has_docker
        &&& !self.has_docker_compose
        &&& !self.has_github_actions
    }
}

/// `label`, the value and a line feed, when there is a value.
pub open spec fn value_line(label: Seq<char>, v: Option<String>) -> Seq<char> {
    match v {
        Some(s) => label + s@ + "\n"@,
        None => Seq::empty(),
    }
}

/// `line` when `flag` holds.
pub open spec fn flag_line(flag: bool, line: Seq<char>) -> Seq<char> {
    if flag {
        line
    } else {
        Seq::empty()
    }
}

/// The context block: one `- Label: value` line per known item, in a fixed
/// order, then a blank line; nothing when nothing is known.
pub open spec fn context_text(info: ProjectInfo) -> Seq<char> {
    if info.is_blank() {
        Seq::empty()
    } else {
        value_line("- Name: "@, info.name) + value_line("- Version: "@, info.version) + value_line(
            "- Description: "@,
            info.description,
        ) + value_line("- Type: "@, info.project_type) + value_line(
            "- Keywords: "@,
            info.keywords,
        ) + value_line("- Group: "@, info.group) + value_line("- Go Version: "@, info.go_version)
            + flag_line(info.has_docker, "- Has Docker: true\n"@) + flag_line(
            info.has_docker_compose,
            "- Has Docker Compose: true\n"@,
        ) + flag_line(info.has_github_actions, "- Has GitHub Actions: true\n"@) + "\n"@
    }
}

fn push_value_line(out: &mut String, label: &str, v: &Option<String>)
    ensures
        final(out)@ == old(out)@ + value_line(label@, *v),
{
    match v {
        Some(s) => {
            out.append(label);
            out.append(s.as_str());
            out.append("\n");
        },
        None => {
            assert(old(out)@ + Seq::<char>::empty() =~= old(out)@);
        },
    }
}

fn push_flag_line(out: &mut String, flag: bool, line: &str)
    ensures
        final(out)@ == old(out)@ + flag_line(flag, line@),
{
    if flag {
        out.append(line);
    } else {
        assert(old(out)@ + Seq::<char>::empty() =~= old(out)@);
    }
}

/// The context block for the prompt.
pub fn build_context(project_info: &ProjectInfo) -> (r: String)
    ensures
        r@ == context_text(*project_info),
{
    let info = project_info;
    let mut out = String::new();
    let blank = info.name.is_none() && info.version.is_none() && info.description.is_none()
        && info.project_type.is_none() && info.keywords.is_none() && info.group.is_none()
        && info.go_version.is_none() && !info.has_docker && !info.has_docker_compose
        && !info.has_github_actions;
    if !blank {
        push_value_line(&mut out, "- Name: ", &info.name);
        push_value_line(&mut out, "- Version: ", &info.version);
        push_value_line(&mut out, "- Description: ", &info.description);
        push_value_line(&mut out, "- Type: ", &info.project_type);
        push_value_line(&mut out, "- Keywords: ", &info.keywords);
        push_value_line(&mut out, "- Group: ", &info.group);
        push_value_line(&mut out, "- Go Version: ", &info.go_version);
        push_flag_line(&mut out, info.has_docker, "- Has Docker: true\n");
        push_flag_line(&mut out, info.has_docker_compose, "- Has Docker Compose: true\n");
        push_flag_line(&mut out, info.has_github_actions, "- Has GitHub Actions: true\n");
        out.append("\n");
        assert(out@ =~= context_text(*info));
    }
    out
}

/// The files of the working directory that describe the project: the text
/// of each manifest that could be read, and whether some other files exist.
pub struct ProjectFiles {
    pub cargo_toml: Option<String>,
    pub package_json: Option<String>,
    pub build_gradle: Option<String>,
    pub pom_xml: Option<String>,
    pub pyproject_toml: Option<String>,
    pub has_requirements_txt: bool,
    pub go_mod: Option<String>,
    pub composer_json: Option<String>,
    pub has_gemfile: bool,
    pub has_dockerfile: bool,
    pub has_docker_compose: bool,
    pub has_github_workflows: bool,
    pub readme: Option<String>,
}

// ---------------------------------------------------------------------------
// Line-oriented manifests
// ---------------------------------------------------------------------------

/// `s` without leading `c` characters.
pub open spec fn strip_start_char(s: Seq<char>, c: char) -> Seq<char>
    decreases s.len(),
{
    if s.len() > 0 && s[0] == c {
        strip_start_char(s.drop_first(), c)
    } else {
        s
    }
}

/// `s` without trailing `c` characters.
pub open spec fn strip_end_char(s: Seq<char>, c: char) -> Seq<char>
    decreases s.len(),
{
    if s.len() > 0 && s.last() == c {
        strip_end_char(s.drop_last(), c)
    } else {
        s
    }
}

/// `s` without leading and trailing `c` characters.
pub open spec fn strip_char(s: Seq<char>, c: char) -> Seq<char> {
    strip_end_char(strip_start_char(s, c), c)
}

/// The text between the first `=` of a line and the next one.
pub open spec fn second_segment(l: Seq<char>) -> Seq<char> {
    if index_of_char(l, '=') < l.len() {
        let rest = l.skip(index_of_char(l, '=') + 1);
        rest.take(index_of_char(rest, '='))
    } else {
        Seq::empty()
    }
}

/// The value of a `key = "value"` line of a Gradle build.
pub open spec fn gradle_value(l: Seq<char>) -> Seq<char> {
    strip_char(strip_char(trim(second_segment(l)), '"'), '\'')
}

/// Group, version and description set by the lines of a Gradle build; a
/// later line overrides an earlier one.
pub open spec fn gradle_fields(lines: Seq<Seq<char>>) -> (
    Option<Seq<char>>,
    Option<Seq<char>>,
    Option<Seq<char>>,
)
    decreases lines.len(),
{
    if lines.len() == 0 {
        (None, None, None)
    } else {
        let (g, v, d) = gradle_fields(lines.drop_last());
        let l = trim(lines.last());
        if starts_with(l, "group ="@) || starts_with(l, "group="@) {
            (Some(gradle_value(l)), v, d)
        } else if starts_with(l, "version ="@) || starts_with(l, "version="@) {
            (g, Some(gradle_value(l)), d)
        } else if starts_with(l, "description ="@) || starts_with(l, "description="@) {
            (g, v, Some(gradle_value(l)))
        } else {
            (g, v, d)
        }
    }
}

/// Position of the first white-space character, or the length.
pub open spec fn first_white(s: Seq<char>) -> int
    decreases s.len(),
{
    if s.len() == 0 {
        0
    } else if is_white(s[0]) {
        0
    } else {
        1 + first_white(s.drop_first())
    }
}

/// The word that follows the first `k` characters and the white space after them.
pub open spec fn word_after(l: Seq<char>, k: int) -> Option<Seq<char>> {
    let rest = trim_start(l.skip(k));
    if rest.len() == 0 {
        None
    } else {
        Some(rest.take(first_white(rest)))
    }
}

/// Module path and Go version named by the lines of a `go.mod`.
pub open spec fn go_fields(lines: Seq<Seq<char>>) -> (Option<Seq<char>>, Option<Seq<char>>)
    decreases lines.len(),
{
    if lines.len() == 0 {
        (None, None)
    } else {
        let (m, g) = go_fields(lines.drop_last());
        let l = trim(lines.last());
        if starts_with(l, "module "@) {
            match word_after(l, 6) {
                Some(w) => (Some(w), g),
                None => (m, g),
            }
        } else if starts_with(l, "go "@) {
            match word_after(l, 2) {
                Some(w) => (m, Some(w)),
                None => (m, g),
            }
        } else {
            (m, g)
        }
    }
}

/// The trimmed text between the first `open` tag and the first `close` tag
/// after it.
pub open spec fn tag_value(c: Seq<char>, open: Seq<char>, close: Seq<char>) -> Option<Seq<char>> {
    match find(c, open) {
        Some(a) => match find(c.skip(a + open.len()), close) {
            Some(e) => Some(trim(c.subrange(a + open.len(), a + open.len() + e))),
            None => None,
        },
        None => None,
    }
}

/// The title on the first line of a README: the line without leading `#`
/// characters, trimmed.
pub open spec fn readme_title(content: Seq<char>) -> Option<Seq<char>> {
    let lines = split_lines(content);
    if lines.len() == 0 {
        None
    } else {
        Some(trim(strip_start_char(lines[0], '#')))
    }
}

/// Whether a README title is used as the project name: it is not empty and
/// its UTF-8 form is under 100 bytes.
pub open spec fn usable_title(t: Option<Seq<char>>) -> bool {
    t is Some && t->0.len() > 0 && (encode_utf8(t->0).len() as usize) < 100
}

pub open spec fn opt_view(o: Option<String>) -> Option<Seq<char>> {
    match o {
        Some(s) => Some(s@),
        None => None,
    }
}

/// Which manifest describes the project: the first of them found, in a
/// fixed order.
pub enum ManifestKind {
    Cargo,
    Npm,
    Gradle,
    Maven,
    PyProject,
    Requirements,
    GoModule,
    Composer,
    Gemfile,
    NoManifest,
}

pub open spec fn manifest_kind(f: ProjectFiles) -> ManifestKind {
    if f.cargo_toml is Some {
        ManifestKind::Cargo
    } else if f.package_json is Some {
        ManifestKind::Npm
    } else if f.build_gradle is Some {
        ManifestKind::Gradle
    } else if f.pom_xml is Some {
        ManifestKind::Maven
    } else if f.pyproject_toml is Some {
        ManifestKind::PyProject
    } else if f.has_requirements_txt {
        ManifestKind::Requirements
    } else if f.go_mod is Some {
        ManifestKind::GoModule
    } else if f.composer_json is Some {
        ManifestKind::Composer
    } else if f.has_gemfile {
        ManifestKind::Gemfile
    } else {
        ManifestKind::NoManifest
    }
}

/// The project type that the files give.
pub open spec fn project_kind(f: ProjectFiles) -> Option<Seq<char>> {
    match manifest_kind(f) {
        ManifestKind::Cargo => if toml_parses(f.cargo_toml->0@) {
            Some("rust"@)
        } else {
            None
        },
        ManifestKind::Npm => if json_parses(f.package_json->0@) {
            Some("nodejs"@)
        } else {
            None
        },
        ManifestKind::Gradle => {
            let (g, v, d) = gradle_fields(split_lines(f.build_gradle->0@));
            if g is Some || v is Some || d is Some {
                Some("java"@)
            } else {
                None
            }
        },
        ManifestKind::Maven => {
            let c = f.pom_xml->0@;
            if tag_value(c, "<name>"@, "</name>"@) is Some || tag_value(
                c,
                "<version>"@,
                "</version>"@,
            ) is Some || tag_value(c, "<description>"@, "</description>"@) is Some {
                Some("java"@)
            } else {
                None
            }
        },
        ManifestKind::PyProject => if toml_parses(f.pyproject_toml->0@) {
            Some("python"@)
        } else {
            None
        },
        ManifestKind::Requirements => Some("python"@),
        ManifestKind::GoModule => {
            let (m, g) = go_fields(split_lines(f.go_mod->0@));
            if m is Some || g is Some {
                Some("go"@)
            } else {
                None
            }
        },
        ManifestKind::Composer => if json_parses(f.composer_json->0@) {
            Some("php"@)
        } else {
            None
        },
        ManifestKind::Gemfile => Some("ruby"@),
        ManifestKind::NoManifest => None,
    }
}

/// The strings among the items, in order.
pub open spec fn only_strings(items: Seq<Option<Seq<char>>>) -> Seq<Seq<char>>
    decreases items.len(),
{
    if items.len() == 0 {
        Seq::empty()
    } else {
        let rest = only_strings(items.drop_last());
        match items.last() {
            Some(w) => rest.push(w),
            None => rest,
        }
    }
}

/// Keywords from an array: its strings joined with `, `, or nothing when it
/// holds none.
pub open spec fn keywords_from(items: Option<Seq<Option<Seq<char>>>>) -> Option<Seq<char>> {
    match items {
        Some(s) => if only_strings(s).len() > 0 {
            Some(joined(only_strings(s)))
        } else {
            None
        },
        None => None,
    }
}

/// The name the manifest gives.
pub open spec fn manifest_name(f: ProjectFiles) -> Option<Seq<char>> {
    match manifest_kind(f) {
        ManifestKind::Cargo => {
            let c = f.cargo_toml->0@;
            if toml_parses(c) { toml_text_at(c, "package"@, "name"@) } else { None }
        },
        ManifestKind::Npm => {
            let c = f.package_json->0@;
            if json_parses(c) { json_text_at(c, "name"@) } else { None }
        },
        ManifestKind::Maven => tag_value(f.pom_xml->0@, "<name>"@, "</name>"@),
        ManifestKind::PyProject => {
            let c = f.pyproject_toml->0@;
            if toml_parses(c) { toml_text_at(c, "project"@, "name"@) } else { None }
        },
        ManifestKind::GoModule => go_fields(split_lines(f.go_mod->0@)).0,
        ManifestKind::Composer => {
            let c = f.composer_json->0@;
            if json_parses(c) { json_text_at(c, "name"@) } else { None }
        },
        _ => None,
    }
}

/// The version the manifest gives.
pub open spec fn version_of(f: ProjectFiles) -> Option<Seq<char>> {
    match manifest_kind(f) {
        ManifestKind::Cargo => {
            let c = f.cargo_toml->0@;
            if toml_parses(c) { toml_text_at(c, "package"@, "version"@) } else { None }
        },
        ManifestKind::Npm => {
            let c = f.package_json->0@;
            if json_parses(c) { json_text_at(c, "version"@) } else { None }
        },
        ManifestKind::Gradle => gradle_fields(split_lines(f.build_gradle->0@)).1,
        ManifestKind::Maven => tag_value(f.pom_xml->0@, "<version>"@, "</version>"@),
        ManifestKind::PyProject => {
            let c = f.pyproject_toml->0@;
            if toml_parses(c) { toml_text_at(c, "project"@, "version"@) } else { None }
        },
        _ => None,
    }
}

/// The description the manifest gives.
pub open spec fn description_of(f: ProjectFiles) -> Option<Seq<char>> {
    match manifest_kind(f) {
        ManifestKind::Cargo => {
            let c = f.cargo_toml->0@;
            if toml_parses(c) { toml_text_at(c, "package"@, "description"@) } else { None }
        },
        ManifestKind::Npm => {
            let c = f.package_json->0@;
            if json_parses(c) { json_text_at(c, "description"@) } else { None }
        },
        ManifestKind::Gradle => gradle_fields(split_lines(f.build_gradle->0@)).2,
        ManifestKind::Maven => tag_value(f.pom_xml->0@, "<description>"@, "</description>"@),
        ManifestKind::PyProject => {
            let c = f.pyproject_toml->0@;
            if toml_parses(c) { toml_text_at(c, "project"@, "description"@) } else { None }
        },
        ManifestKind::Composer => {
            let c = f.composer_json->0@;
            if json_parses(c) { json_text_at(c, "description"@) } else { None }
        },
        _ => None,
    }
}

/// The keywords the manifest gives.
pub open spec fn keywords_of(f: ProjectFiles) -> Option<Seq<char>> {
    match manifest_kind(f) {
        ManifestKind::Cargo => {
            let c = f.cargo_toml->0@;
            if toml_parses(c) {
                keywords_from(toml_items_at(c, "package"@, "keywords"@))
            } else {
                None
            }
        },
        ManifestKind::Npm => {
            let c = f.package_json->0@;
            if json_parses(c) { keywords_from(json_items_at(c, "keywords"@)) } else { None }
        },
        _ => None,
    }
}

/// The group a Gradle build gives.
pub open spec fn group_of(f: ProjectFiles) -> Option<Seq<char>> {
    match manifest_kind(f) {
        ManifestKind::Gradle => gradle_fields(split_lines(f.build_gradle->0@)).0,
        _ => None,
    }
}

/// The Go version a `go.mod` gives.
pub open spec fn go_version_of(f: ProjectFiles) -> Option<Seq<char>> {
    match manifest_kind(f) {
        ManifestKind::GoModule => go_fields(split_lines(f.go_mod->0@)).1,
        _ => None,
    }
}

pub open spec fn readme_from(f: ProjectFiles) -> Option<Seq<char>> {
    match f.readme {
        Some(r) => readme_title(r@),
        None => None,
    }
}

/// The name from the manifest, else the README title when it is usable.
pub open spec fn name_with_readme(from_manifest: Option<Seq<char>>, f: ProjectFiles) -> Option<
    Seq<char>,
> {
    if from_manifest is Some {
        from_manifest
    } else if usable_title(readme_from(f)) {
        readme_from(f)
    } else {
        None
    }
}

/// `info` is what the files say of the project: each field from the
/// manifest that describes it, the name falling back on the README title,
/// and the three flags from the files that exist.
pub open spec fn project_info_ok(f: ProjectFiles, info: ProjectInfo) -> bool {
    &&& opt_view(info.project_type) == project_kind(f)
    &&& opt_view(info.name) == name_with_readme(manifest_name(f), f)
    &&& opt_view(info.version) == version_of(f)
    &&& opt_view(info.description) == description_of(f)
    &&& opt_view(info.keywords) == keywords_of(f)
    &&& opt_view(info.group) == group_of(f)
    &&& opt_view(info.go_version) == go_version_of(f)
    &&& info.has_docker == f.has_dockerfile
    &&& info.has_docker_compose == f.has_docker_compose
    &&& info.has_github_actions == f.has_github_workflows
}

/// Two descriptions whose fields read the same give the same context block.
proof fn lemma_context_by_views(a: ProjectInfo, b: ProjectInfo)
    requires
        opt_view(a.name) == opt_view(b.name),
        opt_view(a.version) == opt_view(b.version),
        opt_view(a.description) == opt_view(b.description),
        opt_view(a.project_type) == opt_view(b.project_type),
        opt_view(a.keywords) == opt_view(b.keywords),
        opt_view(a.group) == opt_view(b.group),
        opt_view(a.go_version) == opt_view(b.go_version),
        a.has_docker == b.has_docker,
        a.has_docker_compose == b.has_docker_compose,
        a.has_github_actions == b.has_github_actions,
    ensures
        context_text(a) == context_text(b),
{
    assert(value_line("- Name: "@, a.name) == value_line("- Name: "@, b.name));
    assert(value_line("- Version: "@, a.version) == value_line("- Version: "@, b.version));
    assert(value_line("- Description: "@, a.description) == value_line(
        "- Description: "@,
        b.description,
    ));
    assert(value_line("- Type: "@, a.project_type) == value_line("- Type: "@, b.project_type));
    assert(value_line("- Keywords: "@, a.keywords) == value_line("- Keywords: "@, b.keywords));
    assert(value_line("- Group: "@, a.group) == value_line("- Group: "@, b.group));
    assert(value_line("- Go Version: "@, a.go_version) == value_line(
        "- Go Version: "@,
        b.go_version,
    ));
    assert(a.is_blank() == b.is_blank());
}

// ---------------------------------------------------------------------------
// Executable functions
// ---------------------------------------------------------------------------

/// `s` without leading and trailing `c` characters.
fn strip_char_chars(s: &Vec<char>, c: char) -> (r: Vec<char>)
    ensures
        r@ == strip_char(s@, c),
{
    let mut a: usize = 0;
    assert(s@.skip(0) =~= s@);
    while a < s.len() && s[a] == c
        invariant
            a <= s.len(),
            strip_start_char(s@, c) == strip_start_char(s@.skip(a as int), c),
        decreases s.len() - a,
    {
        assert(s@.skip(a as int).drop_first() =~= s@.skip(a + 1));
        a += 1;
    }
    let ghost rest = s@.skip(a as int);
    let mut b: usize = s.len();
    assert(rest.take(rest.len() as int) =~= rest);
    while b > a && s[b - 1] == c
        invariant
            a <= b <= s.len(),
            rest == s@.skip(a as int),
            strip_end_char(rest, c) == strip_end_char(rest.take(b - a), c),
        decreases b,
    {
        assert(rest.take(b - a).drop_last() =~= rest.take(b - a - 1));
        b -= 1;
    }
    assert(rest.take(b - a) =~= s@.subrange(a as int, b as int));
    slice_chars(s, a, b)
}

fn gradle_value_chars(l: &Vec<char>) -> (r: Vec<char>)
    ensures
        r@ == gradle_value(l@),
{
    let eq = index_of(l, '=');
    let seg = if eq < l.len() {
        let start = eq + 1;
        let end = index_of_from(l, '=', start);
        slice_chars(l, start, end)
    } else {
        Vec::new()
    };
    assert(seg@ =~= second_segment(l@));
    strip_char_chars(&strip_char_chars(&trim_chars(&seg), '"'), '\'')
}

fn starts_either(l: &Vec<char>, a: &str, b: &str) -> (r: bool)
    ensures
        r == (starts_with(l@, a@) || starts_with(l@, b@)),
{
    starts_with_chars(l, &chars_of(a)) || starts_with_chars(l, &chars_of(b))
}

/// Group, version and description set in a Gradle build.
pub fn gradle_info(content: &str) -> (r: (Option<String>, Option<String>, Option<String>))
    ensures
        (opt_view(r.0), opt_view(r.1), opt_view(r.2)) == gradle_fields(split_lines(content@)),
{
    let lines = split_lines_chars(&chars_of(content));
    let mut group: Option<String> = None;
    let mut version: Option<String> = None;
    let mut description: Option<String> = None;
    let mut i: usize = 0;
    assert(vec_views(lines@).take(0) =~= Seq::<Seq<char>>::empty());
    while i < lines.len()
        invariant
            i <= lines.len(),
            vec_views(lines@) == split_lines(content@),
            (opt_view(group), opt_view(version), opt_view(description)) == gradle_fields(
                vec_views(lines@).take(i as int),
            ),
        decreases lines.len() - i,
    {
        assert(vec_views(lines@).take(i + 1).drop_last() =~= vec_views(lines@).take(i as int));
        assert(vec_views(lines@).take(i + 1).last() == lines@[i as int]@);
        let l = trim_chars(&lines[i]);
        if starts_either(&l, "group =", "group=") {
            group = Some(string_of(&gradle_value_chars(&l)));
        } else if starts_either(&l, "version =", "version=") {
            version = Some(string_of(&gradle_value_chars(&l)));
        } else if starts_either(&l, "description =", "description=") {
            description = Some(string_of(&gradle_value_chars(&l)));
        }
        i += 1;
    }
    assert(vec_views(lines@).take(lines.len() as int) =~= vec_views(lines@));
    (group, version, description)
}

proof fn lemma_first_white(s: Seq<char>)
    ensures
        0 <= first_white(s) <= s.len(),
    decreases s.len(),
{
    if s.len() > 0 && !is_white(s[0]) {
        lemma_first_white(s.drop_first());
    }
}

/// Position of the first white-space character of `s`, or its length.
pub fn first_white_at(s: &Vec<char>) -> (r: usize)
    ensures
        r == first_white(s@),
        r <= s.len(),
{
    assert(s@.skip(0) =~= s@);
    first_white_chars(s, 0)
}

/// The word after the first `k` characters and the white space after them.
pub fn word_after_at(l: &Vec<char>, k: usize) -> (r: Option<Vec<char>>)
    requires
        k <= l.len(),
    ensures
        match r {
            Some(w) => word_after(l@, k as int) == Some(w@),
            None => word_after(l@, k as int) is None,
        },
{
    word_after_chars(l, k)
}

fn first_white_chars(s: &Vec<char>, start: usize) -> (r: usize)
    requires
        start <= s.len(),
    ensures
        r == start + first_white(s@.skip(start as int)),
        r <= s.len(),
{
    let mut i = start;
    while i < s.len() && !is_white_space(s[i])
        invariant
            start <= i <= s.len(),
            first_white(s@.skip(start as int)) == (i - start) + first_white(s@.skip(i as int)),
        decreases s.len() - i,
    {
        assert(s@.skip(i as int).drop_first() =~= s@.skip(i + 1));
        i += 1;
    }
    i
}

fn word_after_chars(l: &Vec<char>, k: usize) -> (r: Option<Vec<char>>)
    requires
        k <= l.len(),
    ensures
        match r {
            Some(w) => word_after(l@, k as int) == Some(w@),
            None => word_after(l@, k as int) is None,
        },
{
    let tail = slice_chars(l, k, l.len());
    assert(tail@ =~= l@.skip(k as int));
    let a = leading_white(&tail);
    if a == tail.len() {
        return None;
    }
    let e = first_white_chars(&tail, a);
    proof {
        lemma_first_white(tail@.skip(a as int));
    }
    assert(tail@.skip(a as int).take(e - a) =~= tail@.subrange(a as int, e as int));
    Some(slice_chars(&tail, a, e))
}

/// Module path and Go version named in a `go.mod`.
pub fn go_info(content: &str) -> (r: (Option<String>, Option<String>))
    ensures
        (opt_view(r.0), opt_view(r.1)) == go_fields(split_lines(content@)),
{
    let lines = split_lines_chars(&chars_of(content));
    let mut module: Option<String> = None;
    let mut go_version: Option<String> = None;
    let mut i: usize = 0;
    assert(vec_views(lines@).take(0) =~= Seq::<Seq<char>>::empty());
    proof {
        reveal_strlit("module ");
        reveal_strlit("go ");
    }
    while i < lines.len()
        invariant
            i <= lines.len(),
            vec_views(lines@) == split_lines(content@),
            (opt_view(module), opt_view(go_version)) == go_fields(vec_views(lines@).take(i as int)),
        decreases lines.len() - i,
    {
        assert(vec_views(lines@).take(i + 1).drop_last() =~= vec_views(lines@).take(i as int));
        assert(vec_views(lines@).take(i + 1).last() == lines@[i as int]@);
        let l = trim_chars(&lines[i]);
        proof {
            reveal_strlit("module ");
            reveal_strlit("go ");
        }
        if starts_with_chars(&l, &chars_of("module ")) {
            match word_after_chars(&l, 6) {
                Some(w) => {
                    module = Some(string_of(&w));
                },
                None => {},
            }
        } else if starts_with_chars(&l, &chars_of("go ")) {
            match word_after_chars(&l, 2) {
                Some(w) => {
                    go_version = Some(string_of(&w));
                },
                None => {},
            }
        }
        i += 1;
    }
    assert(vec_views(lines@).take(lines.len() as int) =~= vec_views(lines@));
    (module, go_version)
}

/// The trimmed text between the first `open` tag and the next `close` tag.
pub fn tag_text(content: &str, open: &str, close: &str) -> (r: Option<String>)
    ensures
        opt_view(r) == tag_value(content@, open@, close@),
{
    let c = chars_of(content);
    let o = chars_of(open);
    let cl = chars_of(close);
    proof {
        lemma_find_from(c@, o@, 0);
    }
    match find_chars(&c, &o) {
        None => None,
        Some(a) => {
            assert(occurs_at(c@, o@, a as int));
            assert(a + o.len() <= c.len());
            let start = a + o.len();
            let rest = slice_chars(&c, start, c.len());
            assert(rest@ =~= c@.skip(start as int));
            proof {
                lemma_find_from(rest@, cl@, 0);
            }
            match find_chars(&rest, &cl) {
                None => None,
                Some(e) => {
                    assert(occurs_at(rest@, cl@, e as int));
                    assert(start + e <= c.len());
                    let inner = slice_chars(&c, start, start + e);
                    Some(string_of(&trim_chars(&inner)))
                },
            }
        },
    }
}

/// The title on the first line of a README.
pub fn readme_title_of(content: &str) -> (r: Option<String>)
    ensures
        opt_view(r) == readme_title(content@),
{
    let lines = split_lines_chars(&chars_of(content));
    if lines.len() == 0 {
        return None;
    }
    let first = &lines[0];
    let mut a: usize = 0;
    assert(first@.skip(0) =~= first@);
    while a < first.len() && first[a] == '#'
        invariant
            a <= first.len(),
            strip_start_char(first@, '#') == strip_start_char(first@.skip(a as int), '#'),
        decreases first.len() - a,
    {
        assert(first@.skip(a as int).drop_first() =~= first@.skip(a + 1));
        a += 1;
    }
    let rest = slice_chars(first, a, first.len());
    assert(rest@ =~= first@.skip(a as int));
    assert(vec_views(lines@)[0] == lines@[0]@);
    Some(string_of(&trim_chars(&rest)))
}

/// Keywords from an array read item by item: its strings joined with `, `.
fn keywords_from_items(items: Option<Vec<Option<String>>>) -> (r: Option<String>)
    ensures
        opt_view(r) == keywords_from(
            match items {
                Some(v) => Some(opt_views(v@)),
                None => None,
            },
        ),
{
    match items {
        None => None,
        Some(v) => {
            let ghost all = opt_views(v@);
            let mut words: Vec<String> = Vec::new();
            let mut i: usize = 0;
            assert(all.take(0) =~= Seq::<Option<Seq<char>>>::empty());
            assert(words@.map_values(|w: String| w@) =~= Seq::<Seq<char>>::empty());
            while i < v.len()
                invariant
                    i <= v.len(),
                    all == opt_views(v@),
                    words@.map_values(|w: String| w@) == only_strings(all.take(i as int)),
                decreases v.len() - i,
            {
                assert(all.take(i + 1).drop_last() =~= all.take(i as int));
                let ghost before = words@;
                match &v[i] {
                    Some(w) => {
                        assert(all.take(i + 1).last() == Some(w@));
                        words.push(w.clone());
                        assert(words@.map_values(|x: String| x@) =~= before.map_values(
                            |x: String| x@,
                        ).push(w@));
                    },
                    None => {
                        assert(all.take(i + 1).last() is None);
                    },
                }
                i += 1;
            }
            assert(all.take(v.len() as int) =~= all);
            join_words(&words)
        },
    }
}

/// The words joined with `, `.
pub open spec fn joined(words: Seq<Seq<char>>) -> Seq<char>
    decreases words.len(),
{
    if words.len() == 0 {
        Seq::empty()
    } else if words.len() == 1 {
        words[0]
    } else {
        joined(words.drop_last()) + ", "@ + words.last()
    }
}

/// The words joined with `, `; nothing when there are none.
fn join_words(words: &Vec<String>) -> (r: Option<String>)
    ensures
        words.len() == 0 <==> r is None,
        r is Some ==> r->0@ == joined(words@.map_values(|w: String| w@)),
{
    if words.len() == 0 {
        return None;
    }
    let ghost views = words@.map_values(|w: String| w@);
    let mut out = String::new();
    let mut i: usize = 0;
    assert(views.take(0) =~= Seq::<Seq<char>>::empty());
    while i < words.len()
        invariant
            i <= words.len(),
            views == words@.map_values(|w: String| w@),
            out@ == joined(views.take(i as int)),
        decreases words.len() - i,
    {
        assert(views.take(i + 1).drop_last() =~= views.take(i as int));
        assert(views.take(i + 1).last() == words@[i as int]@);
        if i > 0 {
            out.append(", ");
        } else {
            assert(views.take(1)[0] == words@[0]@);
        }
        out.append(words[i].as_str());
        i += 1;
    }
    assert(views.take(words.len() as int) =~= views);
    Some(out)
}

/// An empty description.
pub fn empty_info() -> (r: ProjectInfo)
    ensures
        r.is_blank(),
{
    ProjectInfo {
        name: None,
        version: None,
        description: None,
        project_type: None,
        keywords: None,
        group: None,
        go_version: None,
        has_docker: false,
        has_docker_compose: false,
        has_github_actions: false,
    }
}

/// What the project's files say of it: the first manifest found, in a fixed
/// order, gives the fields and the type; Docker, Compose and workflow files
/// are flagged; the README title names a project that has no name yet.
pub fn get_project_info(files: &ProjectFiles) -> (info: ProjectInfo)
    ensures
        project_info_ok(*files, info),
{
    let mut info = empty_info();
    proof {
        reveal_strlit("<name>");
        reveal_strlit("<version>");
        reveal_strlit("<description>");
    }
    if let Some(content) = &files.cargo_toml {
        let c = content.as_str();
        if is_toml(c) {
            info.name = toml_text(c, "package", "name");
            info.version = toml_text(c, "package", "version");
            info.description = toml_text(c, "package", "description");
            info.keywords = keywords_from_items(toml_items(c, "package", "keywords"));
            info.project_type = Some(String::from_str("rust"));
        }
    } else if let Some(content) = &files.package_json {
        let c = content.as_str();
        if is_json(c) {
            info.name = json_text(c, "name");
            info.version = json_text(c, "version");
            info.description = json_text(c, "description");
            info.keywords = keywords_from_items(json_items(c, "keywords"));
            info.project_type = Some(String::from_str("nodejs"));
        }
    } else if let Some(content) = &files.build_gradle {
        let (group, version, description) = gradle_info(content.as_str());
        if group.is_some() || version.is_some() || description.is_some() {
            info.project_type = Some(String::from_str("java"));
        }
        info.group = group;
        info.version = version;
        info.description = description;
    } else if let Some(content) = &files.pom_xml {
        info.name = tag_text(content.as_str(), "<name>", "</name>");
        info.version = tag_text(content.as_str(), "<version>", "</version>");
        info.description = tag_text(content.as_str(), "<description>", "</description>");
        if info.name.is_some() || info.version.is_some() || info.description.is_some() {
            info.project_type = Some(String::from_str("java"));
        }
    } else if let Some(content) = &files.pyproject_toml {
        let c = content.as_str();
        if is_toml(c) {
            info.name = toml_text(c, "project", "name");
            info.version = toml_text(c, "project", "version");
            info.description = toml_text(c, "project", "description");
            info.project_type = Some(String::from_str("python"));
        }
    } else if files.has_requirements_txt {
        info.project_type = Some(String::from_str("python"));
    } else if let Some(content) = &files.go_mod {
        let (module, go_version) = go_info(content.as_str());
        if module.is_some() || go_version.is_some() {
            info.project_type = Some(String::from_str("go"));
        }
        info.name = module;
        info.go_version = go_version;
    } else if let Some(content) = &files.composer_json {
        let c = content.as_str();
        if is_json(c) {
            info.name = json_text(c, "name");
            info.description = json_text(c, "description");
            info.project_type = Some(String::from_str("php"));
        }
    } else if files.has_gemfile {
        info.project_type = Some(String::from_str("ruby"));
    }
    info.has_docker = files.has_dockerfile;
    info.has_docker_compose = files.has_docker_compose;
    info.has_github_actions = files.has_github_workflows;
    if info.name.is_none() {
        if let Some(readme) = &files.readme {
            if let Some(title) = readme_title_of(readme.as_str()) {
                if !title.as_str().is_empty() && title.as_str().len() < 100 {
                    info.name = Some(title);
                }
            }
        }
    }
    info
}

/// The context block for the project that the files describe.
pub fn get_project_context(files: &ProjectFiles) -> (r: String)
    ensures
        forall|info: ProjectInfo| project_info_ok(*files, info) ==> r@ == context_text(info),
{
    let info = get_project_info(files);
    let r = build_context(&info);
    assert forall|other: ProjectInfo| project_info_ok(*files, other) implies r@ == context_text(
        other,
    ) by {
        lemma_context_by_views(info, other);
    }
    r
}

} // verus!
