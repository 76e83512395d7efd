//! Turns a unified diff into a bounded, noise-reduced text for prompting.
//!
//! Each file section is dropped when its path matches an ignored pattern,
//! truncated to a per-file ceiling, and kept only while the whole output stays
//! within a total ceiling.
use vstd::prelude::*;
use crate::text::{
    append_chars, chars_of, contains, contains_chars, ends_with, ends_with_chars, find,
    find_chars, index_of_char, index_of_from, lemma_find_from, lemma_index_of_char, occurs_at,
    slice_chars, starts_with, starts_with_chars, string_of,
};

verus! {

/// Marks the start of a file section.
pub const DIFF_HEADER: &'static str = "diff --git";

/// Appended to a file section cut at the per-file ceiling.
pub const FILE_TRUNCATION_MARKER: &'static str = "\n... (file truncated)";

/// Emitted once when the total ceiling stops the filter.
pub const DIFF_TRUNCATION_MARKER: &'static str = "... (diff truncated due to size limit)";

/// Put between two emitted sections.
pub const ENTRY_SEPARATOR: &'static str = "\n\n";

/// The two size ceilings, in characters.
#[derive(Clone, Copy, Debug, PartialEq, Eq)]
pub struct FilterBudget {
    /// Largest size of one file section before it is cut.
    pub per_file: usize,
    /// Largest size of everything emitted before the diff truncation marker.
    pub total: usize,
}

// ---------------------------------------------------------------------------
// Specification
// ---------------------------------------------------------------------------

/// `l` without one trailing carriage return.
pub open spec fn strip_cr(l: Seq<char>) -> Seq<char> {
    if l.len() > 0 && l.last() == '\r' {
        l.drop_last()
    } else {
        l
    }
}

/// The lines of `s`, as `str::lines` splits them: at each line feed, with a
/// carriage return before it dropped, and no empty line after a final feed.
pub open spec fn split_lines(s: Seq<char>) -> Seq<Seq<char>>
    decreases s.len(),
{
    if s.len() == 0 {
        Seq::empty()
    } else {
        let i = index_of_char(s, '\n');
        if i >= s.len() || i < 0 {
            seq![s]
        } else {
            seq![strip_cr(s.take(i))] + split_lines(s.skip(i + 1))
        }
    }
}

/// Whether `path` matches one pattern: a pattern ending in `/` matches paths
/// that begin with it less the slash, one beginning with `*` matches paths
/// that end with the rest, any other one matches paths that contain it.
pub open spec fn pattern_matches(path: Seq<char>, pattern: Seq<char>) -> bool {
    if pattern.len() > 0 && pattern.last() == '/' {
        starts_with(path, pattern.drop_last())
    } else if pattern.len() > 0 && pattern[0] == '*' {
        ends_with(path, pattern.drop_first())
    } else {
        contains(path, pattern)
    }
}

/// Whether some pattern matches `path`.
pub open spec fn is_ignored(path: Seq<char>, patterns: Seq<Seq<char>>) -> bool {
    exists|i: int| 0 <= i < patterns.len() && pattern_matches(path, patterns[i])
}

/// The path of a header `... a/<path> b/...`, when it has that shape.
pub open spec fn header_path(h: Seq<char>) -> Option<Seq<char>> {
    match find(h, "a/"@) {
        Some(a) => match find(h.skip(a + 2), " b/"@) {
            Some(e) => Some(h.subrange(a + 2, a + 2 + e)),
            None => None,
        },
        None => None,
    }
}

/// Whether the section that begins with header `h` is kept; a header whose
/// path cannot be read is kept.
pub open spec fn keeps_section(h: Seq<char>, patterns: Seq<Seq<char>>) -> bool {
    match header_path(h) {
        Some(p) => !is_ignored(p, patterns),
        None => true,
    }
}

/// A section cut to `max` characters and marked, when longer than `max`.
pub open spec fn truncate_entry(e: Seq<char>, max: nat) -> Seq<char> {
    if e.len() > max {
        e.take(max as int) + FILE_TRUNCATION_MARKER@
    } else {
        e
    }
}

/// The sections joined with the separator.
pub open spec fn join(entries: Seq<Seq<char>>) -> Seq<char>
    decreases entries.len(),
{
    if entries.len() == 0 {
        Seq::empty()
    } else if entries.len() == 1 {
        entries[0]
    } else {
        join(entries.drop_last()) + ENTRY_SEPARATOR@ + entries.last()
    }
}

/// What appending `e` after `entries` adds to the joined length.
pub open spec fn entry_cost(entries: Seq<Seq<char>>, e: Seq<char>) -> nat {
    if entries.len() == 0 {
        e.len()
    } else {
        ENTRY_SEPARATOR@.len() + e.len()
    }
}

/// The filter's state between two lines.
pub struct FilterState {
    pub entries: Seq<Seq<char>>,
    pub used: nat,
    pub current: Seq<char>,
    pub keep: bool,
    pub stopped: bool,
}

pub open spec fn initial_state() -> FilterState {
    FilterState { entries: Seq::empty(), used: 0, current: Seq::empty(), keep: true, stopped: false }
}

/// Closes the pending section when a new header arrives: it is emitted when
/// it fits with room left for the separator that a later truncation marker
/// would need, else the diff truncation marker is emitted and the filter
/// stops.
pub open spec fn close_section(st: FilterState, b: FilterBudget) -> FilterState {
    if st.keep && st.current.len() > 0 {
        let e = truncate_entry(st.current, b.per_file as nat);
        let cost = entry_cost(st.entries, e);
        if st.used + cost + ENTRY_SEPARATOR@.len() > b.total {
            FilterState { entries: st.entries.push(DIFF_TRUNCATION_MARKER@), stopped: true, ..st }
        } else {
            FilterState { entries: st.entries.push(e), used: st.used + cost, ..st }
        }
    } else {
        st
    }
}

/// One line of the diff.
pub open spec fn step_line(
    st: FilterState,
    line: Seq<char>,
    patterns: Seq<Seq<char>>,
    b: FilterBudget,
) -> FilterState {
    if st.stopped {
        st
    } else if starts_with(line, DIFF_HEADER@) {
        let closed = close_section(st, b);
        if closed.stopped {
            closed
        } else {
            FilterState { current: line, keep: keeps_section(line, patterns), ..closed }
        }
    } else if st.keep {
        FilterState { current: st.current + "\n"@ + line, ..st }
    } else {
        st
    }
}

/// The state after the given lines.
pub open spec fn run_lines(
    lines: Seq<Seq<char>>,
    patterns: Seq<Seq<char>>,
    b: FilterBudget,
) -> FilterState
    decreases lines.len(),
{
    if lines.len() == 0 {
        initial_state()
    } else {
        step_line(run_lines(lines.drop_last(), patterns, b), lines.last(), patterns, b)
    }
}

/// The sections emitted once input ends: the last pending one is added when
/// it fits, with no marker otherwise.
pub open spec fn final_entries(st: FilterState, b: FilterBudget) -> Seq<Seq<char>> {
    if !st.stopped && st.keep && st.current.len() > 0 {
        let e = truncate_entry(st.current, b.per_file as nat);
        if st.used + entry_cost(st.entries, e) <= b.total {
            st.entries.push(e)
        } else {
            st.entries
        }
    } else {
        st.entries
    }
}

/// The filtered diff.
pub open spec fn filter_output(
    raw: Seq<char>,
    patterns: Seq<Seq<char>>,
    b: FilterBudget,
) -> Seq<char> {
    join(final_entries(run_lines(split_lines(raw), patterns, b), b))
}

/// The views of a sequence of string slices.
pub open spec fn views(v: Seq<&str>) -> Seq<Seq<char>> {
    v.map_values(|p: &str| p@)
}

/// The views of a sequence of character vectors.
pub open spec fn vec_views(v: Seq<Vec<char>>) -> Seq<Seq<char>> {
    v.map_values(|l: Vec<char>| l@)
}

// ---------------------------------------------------------------------------
// Executable functions
// ---------------------------------------------------------------------------

proof fn lemma_vec_views_push(v: Seq<Vec<char>>, x: Vec<char>)
    ensures
        vec_views(v.push(x)) == vec_views(v).push(x@),
{
    assert(vec_views(v.push(x)) =~= vec_views(v).push(x@));
}

/// The lines of `s`, split as `str::lines` does.
pub fn split_lines_chars(s: &Vec<char>) -> (r: Vec<Vec<char>>)
    ensures
        vec_views(r@) == split_lines(s@),
{
    let mut r: Vec<Vec<char>> = Vec::new();
    let mut i: usize = 0;
    assert(s@.skip(0) =~= s@);
    assert(vec_views(r@) =~= Seq::<Seq<char>>::empty());
    while i < s.len()
        invariant
            i <= s.len(),
            split_lines(s@) == vec_views(r@) + split_lines(s@.skip(i as int)),
        decreases s.len() - i,
    {
        let ghost rest = s@.skip(i as int);
        let j = index_of_from(s, '\n', i);
        proof {
            lemma_index_of_char(rest, '\n');
        }
        if j == s.len() {
            let line = slice_chars(s, i, s.len());
            assert(line@ =~= rest);
            proof {
                lemma_vec_views_push(r@, line);
            }
            r.push(line);
            i = s.len();
            assert(s@.skip(i as int) =~= Seq::<char>::empty());
            assert(vec_views(r@) + split_lines(s@.skip(i as int)) =~= vec_views(r@));
        } else {
            let end = if j > i && s[j - 1] == '\r' {
                j - 1
            } else {
                j
            };
            let line = slice_chars(s, i, end);
            assert(rest.take(j - i) =~= s@.subrange(i as int, j as int));
            assert(line@ == strip_cr(rest.take(j - i))) by {
                if j > i && s@[j - 1] == '\r' {
                    assert(s@.subrange(i as int, j as int).drop_last() =~= s@.subrange(
                        i as int,
                        j - 1,
                    ));
                }
            }
            assert(rest.skip(j - i + 1) =~= s@.skip(j + 1));
            proof {
                lemma_vec_views_push(r@, line);
            }
            r.push(line);
            i = j + 1;
            assert(vec_views(r@) + split_lines(s@.skip(i as int)) =~= vec_views(r@).drop_last()
                + (seq![line@] + split_lines(s@.skip(i as int))));
        }
    }
    assert(s@.skip(i as int) =~= Seq::<char>::empty());
    assert(vec_views(r@) + Seq::<Seq<char>>::empty() =~= vec_views(r@));
    r
}

/// The bounds of the path in a header `... a/<path> b/...`.
fn header_path_range(h: &Vec<char>) -> (r: Option<(usize, usize)>)
    ensures
        match r {
            Some((a, b)) => a <= b <= h.len() && header_path(h@) == Some(h@.subrange(a as int, b as int)),
            None => header_path(h@) is None,
        },
{
    let first = chars_of("a/");
    let second = chars_of(" b/");
    proof {
        reveal_strlit("a/");
        reveal_strlit(" b/");
        lemma_find_from(h@, first@, 0);
    }
    match find_chars(h, &first) {
        None => None,
        Some(a) => {
            assert(first@.len() == 2);
            assert(occurs_at(h@, first@, a as int));
            assert(a + 2 <= h@.len());
            assert(a + 2 <= h.len());
            let rest = slice_chars(h, a + 2, h.len());
            assert(rest@ =~= h@.skip(a + 2));
            proof {
                lemma_find_from(rest@, second@, 0);
            }
            match find_chars(&rest, &second) {
                None => None,
                Some(e) => Some((a + 2, a + 2 + e)),
            }
        },
    }
}

/// The path named by a `diff --git a/<path> b/<path>` header.
pub fn extract_filename_from_diff_header(header: &str) -> (r: Option<&str>)
    ensures
        match r {
            Some(p) => header_path(header@) == Some(p@),
            None => header_path(header@) is None,
        },
{
    let h = chars_of(header);
    match header_path_range(&h) {
        Some((a, b)) => Some(header.substring_char(a, b)),
        None => None,
    }
}

/// Whether one pattern matches `path`.
pub fn pattern_matches_chars(path: &Vec<char>, pattern: &Vec<char>) -> (r: bool)
    ensures
        r == pattern_matches(path@, pattern@),
{
    let n = pattern.len();
    if n > 0 && pattern[n - 1] == '/' {
        let dir = slice_chars(pattern, 0, n - 1);
        assert(dir@ =~= pattern@.drop_last());
        starts_with_chars(path, &dir)
    } else if n > 0 && pattern[0] == '*' {
        let suffix = slice_chars(pattern, 1, n);
        assert(suffix@ =~= pattern@.drop_first());
        ends_with_chars(path, &suffix)
    } else {
        contains_chars(path, pattern)
    }
}

/// Whether some pattern matches `path`.
pub fn is_ignored_path(path: &Vec<char>, patterns: &[&str]) -> (r: bool)
    ensures
        r == is_ignored(path@, views(patterns@)),
{
    let mut i: usize = 0;
    while i < patterns.len()
        invariant
            i <= patterns.len(),
            forall|j: int| 0 <= j < i ==> !pattern_matches(path@, views(patterns@)[j]),
        decreases patterns.len() - i,
    {
        let pattern = chars_of(patterns[i]);
        if pattern_matches_chars(path, &pattern) {
            assert(pattern_matches(path@, views(patterns@)[i as int]));
            return true;
        }
        i += 1;
    }
    false
}

/// Whether the section that begins with header `h` is kept.
fn section_kept(h: &Vec<char>, patterns: &[&str]) -> (r: bool)
    ensures
        r == keeps_section(h@, views(patterns@)),
{
    match header_path_range(h) {
        Some((a, b)) => {
            let path = slice_chars(h, a, b);
            !is_ignored_path(&path, patterns)
        },
        None => true,
    }
}

/// A file section cut to `max` characters, with the file truncation marker
/// after the cut, when it is longer than `max`.
pub fn truncate_file_entry(e: &Vec<char>, max: usize) -> (r: Vec<char>)
    ensures
        r@ == truncate_entry(e@, max as nat),
        e@.len() > max ==> ends_with(r@, FILE_TRUNCATION_MARKER@) && r@.len()
            - FILE_TRUNCATION_MARKER@.len() == max && r@.take(max as int) == e@.take(max as int),
        e@.len() <= max ==> r@ == e@,
{
    if e.len() > max {
        let mut r = slice_chars(e, 0, max);
        let marker = chars_of(FILE_TRUNCATION_MARKER);
        append_chars(&mut r, &marker);
        assert(r@.skip(r@.len() - FILE_TRUNCATION_MARKER@.len()) =~= FILE_TRUNCATION_MARKER@);
        assert(r@.take(max as int) =~= e@.take(max as int));
        r
    } else {
        e.clone()
    }
}

/// The sections joined with the separator.
pub fn join_entries(entries: &Vec<Vec<char>>) -> (r: Vec<char>)
    ensures
        r@ == join(vec_views(entries@)),
{
    let sep = chars_of(ENTRY_SEPARATOR);
    let mut r: Vec<char> = Vec::new();
    let mut i: usize = 0;
    assert(vec_views(entries@.take(0)) =~= Seq::<Seq<char>>::empty());
    while i < entries.len()
        invariant
            i <= entries.len(),
            sep@ == ENTRY_SEPARATOR@,
            r@ == join(vec_views(entries@.take(i as int))),
        decreases entries.len() - i,
    {
        assert(vec_views(entries@.take(i + 1)).drop_last() =~= vec_views(entries@.take(i as int)));
        assert(vec_views(entries@.take(i + 1)).last() == entries@[i as int]@);
        if i > 0 {
            append_chars(&mut r, &sep);
        } else {
            assert(vec_views(entries@.take(1))[0] == entries@[0]@);
        }
        append_chars(&mut r, &entries[i]);
        i += 1;
    }
    assert(entries@.take(entries.len() as int) =~= entries@);
    r
}

/// Filters a raw unified diff: sections whose path matches one of `patterns`
/// are dropped, each kept section is cut to `budget.per_file` characters, and
/// sections are emitted while the output stays within `budget.total`.
pub fn filter_diff(raw: &str, patterns: &[&str], budget: FilterBudget) -> (r: String)
    ensures
        r@ == filter_output(raw@, views(patterns@), budget),
{
    let ghost pats = views(patterns@);
    let text = chars_of(raw);
    let lines = split_lines_chars(&text);
    let header = chars_of(DIFF_HEADER);
    let marker = chars_of(DIFF_TRUNCATION_MARKER);
    let sep_len = ENTRY_SEPARATOR.unicode_len();
    let mut entries: Vec<Vec<char>> = Vec::new();
    let mut used: usize = 0;
    let mut current: Vec<char> = Vec::new();
    let mut keep = true;
    let mut stopped = false;
    let mut i: usize = 0;
    assert(lines@.take(0) =~= Seq::<Vec<char>>::empty());
    assert(vec_views(lines@.take(0)) =~= Seq::<Seq<char>>::empty());
    assert(vec_views(entries@) =~= Seq::<Seq<char>>::empty());
    while i < lines.len()
        invariant
            i <= lines.len(),
            vec_views(lines@) == split_lines(text@),
            text@ == raw@,
            header@ == DIFF_HEADER@,
            marker@ == DIFF_TRUNCATION_MARKER@,
            sep_len == ENTRY_SEPARATOR@.len(),
            pats == views(patterns@),
            used <= budget.total,
            (FilterState {
                entries: vec_views(entries@),
                used: used as nat,
                current: current@,
                keep,
                stopped,
            }) == run_lines(vec_views(lines@).take(i as int), pats, budget),
        decreases lines.len() - i,
    {
        let ghost before = run_lines(vec_views(lines@).take(i as int), pats, budget);
        assert(vec_views(lines@).take(i + 1).drop_last() =~= vec_views(lines@).take(i as int));
        assert(vec_views(lines@).take(i + 1).last() == lines@[i as int]@);
        let line = &lines[i];
        if stopped {
        } else if starts_with_chars(line, &header) {
            if keep && current.len() > 0 {
                let e = truncate_file_entry(&current, budget.per_file);
                let extra = if entries.len() == 0 {
                    0
                } else {
                    sep_len
                };
                assert(extra == entry_cost(vec_views(entries@), e@) - e@.len());
                if e.len() > budget.total - used || extra > budget.total - used - e.len()
                    || sep_len > budget.total - used - e.len() - extra {
                    let m = marker.clone();
                    proof {
                        lemma_vec_views_push(entries@, m);
                    }
                    entries.push(m);
                    stopped = true;
                } else {
                    proof {
                        lemma_vec_views_push(entries@, e);
                    }
                    used = used + e.len() + extra;
                    entries.push(e);
                }
            }
            if !stopped {
                keep = section_kept(line, patterns);
                current = line.clone();
                assert(current@ == line@);
            }
        } else if keep {
            current.push('\n');
            append_chars(&mut current, line);
            proof {
                reveal_strlit("\n");
            }
            assert(current@ =~= before.current + "\n"@ + lines@[i as int]@);
        }
        assert(run_lines(vec_views(lines@).take(i + 1), pats, budget) == step_line(
            before,
            lines@[i as int]@,
            pats,
            budget,
        ));
        assert((FilterState {
            entries: vec_views(entries@),
            used: used as nat,
            current: current@,
            keep,
            stopped,
        }) == step_line(before, lines@[i as int]@, pats, budget));
        i += 1;
    }
    assert(vec_views(lines@).take(lines.len() as int) =~= vec_views(lines@));
    if !stopped && keep && current.len() > 0 {
        let e = truncate_file_entry(&current, budget.per_file);
        let extra = if entries.len() == 0 {
            0
        } else {
            sep_len
        };
        if e.len() <= budget.total - used && extra <= budget.total - used - e.len() {
            proof {
                lemma_vec_views_push(entries@, e);
            }
            entries.push(e);
        }
    }
    string_of(&join_entries(&entries))
}

// ---------------------------------------------------------------------------
// Laws
// ---------------------------------------------------------------------------

proof fn lemma_join_push(entries: Seq<Seq<char>>, e: Seq<char>)
    ensures
        join(entries.push(e)).len() == join(entries).len() + entry_cost(entries, e),
{
    assert(entries.push(e).drop_last() =~= entries);
    assert(entries.push(e).last() == e);
    if entries.len() == 0 {
        assert(entries.push(e)[0] == e);
    }
}

/// What the filter keeps between lines: until it stops, the joined sections
/// are exactly `used` long and leave room for a separator within the total
/// ceiling; once stopped, they exceed it by at most the diff truncation
/// marker.
pub open spec fn state_bounded(st: FilterState, b: FilterBudget) -> bool {
    &&& !st.stopped ==> join(st.entries).len() == st.used && st.used <= b.total
    &&& !st.stopped && st.entries.len() > 0 ==> st.used + ENTRY_SEPARATOR@.len() <= b.total
    &&& st.stopped ==> join(st.entries).len() <= b.total + DIFF_TRUNCATION_MARKER@.len()
}

proof fn lemma_run_lines_bounded(lines: Seq<Seq<char>>, patterns: Seq<Seq<char>>, b: FilterBudget)
    ensures
        state_bounded(run_lines(lines, patterns, b), b),
    decreases lines.len(),
{
    if lines.len() > 0 {
        lemma_run_lines_bounded(lines.drop_last(), patterns, b);
        let st = run_lines(lines.drop_last(), patterns, b);
        if !st.stopped && starts_with(lines.last(), DIFF_HEADER@) && st.keep && st.current.len()
            > 0 {
            let e = truncate_entry(st.current, b.per_file as nat);
            lemma_join_push(st.entries, e);
            lemma_join_push(st.entries, DIFF_TRUNCATION_MARKER@);
        }
    }
}

/// The filtered diff is never longer than the total ceiling plus one diff
/// truncation marker; without that marker it is within the total ceiling.
pub proof fn lemma_filter_output_bounded(
    raw: Seq<char>,
    patterns: Seq<Seq<char>>,
    b: FilterBudget,
)
    ensures
        filter_output(raw, patterns, b).len() <= b.total + DIFF_TRUNCATION_MARKER@.len(),
        !run_lines(split_lines(raw), patterns, b).stopped ==> filter_output(raw, patterns, b).len()
            <= b.total,
{
    let st = run_lines(split_lines(raw), patterns, b);
    lemma_run_lines_bounded(split_lines(raw), patterns, b);
    if !st.stopped && st.keep && st.current.len() > 0 {
        let e = truncate_entry(st.current, b.per_file as nat);
        lemma_join_push(st.entries, e);
    }
}

/// A section longer than the per-file ceiling is emitted as its first
/// `per_file` characters followed by the file truncation marker.
pub proof fn lemma_long_entry_truncated(e: Seq<char>, per_file: nat)
    requires
        e.len() > per_file,
    ensures
        ends_with(truncate_entry(e, per_file), FILE_TRUNCATION_MARKER@),
        truncate_entry(e, per_file).len() - FILE_TRUNCATION_MARKER@.len() == per_file,
        truncate_entry(e, per_file).take(per_file as int) == e.take(per_file as int),
{
    let r = truncate_entry(e, per_file);
    assert(r.skip(r.len() - FILE_TRUNCATION_MARKER@.len()) =~= FILE_TRUNCATION_MARKER@);
    assert(r.take(per_file as int) =~= e.take(per_file as int));
}

/// A pattern ending in `/` drops every section whose path begins with the
/// pattern less its slash.
pub proof fn lemma_dir_pattern_excludes(h: Seq<char>, patterns: Seq<Seq<char>>, i: int)
    requires
        0 <= i < patterns.len(),
        patterns[i].len() > 0,
        patterns[i].last() == '/',
        header_path(h) is Some,
        starts_with(header_path(h)->0, patterns[i].drop_last()),
    ensures
        !keeps_section(h, patterns),
{
    assert(pattern_matches(header_path(h)->0, patterns[i]));
}

/// The patterns dropped by default: dependency manifests and lock files,
/// build output, editor and OS files, logs, binaries, media and reports.
pub open spec fn default_ignored_patterns() -> Seq<Seq<char>> {
    seq![
        ".lock"@, ".lockfile"@, "package-lock.json"@, "yarn.lock"@, "pnpm-lock.yaml"@,
        "Cargo.lock"@, "Gemfile.lock"@, "composer.lock"@, "poetry.lock"@, "Pipfile.lock"@,
        "requirements.txt"@, "requirements-dev.txt"@, "pyproject.toml"@, "setup.py"@,
        "setup.cfg"@, "package.json"@, "bun.lockb"@, "go.mod"@, "go.sum"@, "Pipfile"@,
        "mix.lock"@, "Gemfile"@, "composer.json"@, "pubspec.lock"@, "Podfile.lock"@,
        "Cartfile.resolved"@, "Pods/"@, "node_modules/"@, "vendor/"@, "bower_components/"@,
        "jspm_packages/"@, "target/"@, "dist/"@, "build/"@, "out/"@, "bin/"@, "obj/"@,
        "Debug/"@, "Release/"@, "x64/"@, "x86/"@, "*.o"@, "*.obj"@, "*.exe"@, "*.dll"@, "*.so"@,
        "*.dylib"@, "*.a"@, "*.lib"@, "*.class"@, "*.jar"@, "*.war"@, "*.ear"@, "*.pyc"@,
        "__pycache__/"@, "*.pyo"@, "*.pyd"@, "*.egg"@, "*.egg-info/"@, "*.whl"@, "*.tar.gz"@,
        "*.zip"@, "*.rar"@, "*.7z"@, ".vscode/"@, ".idea/"@, "*.swp"@, "*.swo"@, "*~"@,
        ".DS_Store"@, "Thumbs.db"@, "desktop.ini"@, ".vs/"@, "*.suo"@, "*.user"@,
        "*.userosscache"@, "*.sln.docstates"@, "*.userprefs"@, "*.pidb"@, "*.booproj"@,
        "*.svd"@, "*.pdb"@, "*.mdb"@, "*.opendb"@, "*.VC.db"@, "*.VC.VC.opendb"@, "*.log"@,
        "*.tmp"@, "*.temp"@, "*.cache"@, "*.bak"@, "*.backup"@, "*.old"@, "*.orig"@, "*.rej"@,
        ".fuse_hidden*"@, ".Trash-*"@, ".nfs*"@, ".env"@, ".env.local"@, ".env.development"@,
        ".env.test"@, ".env.production"@, ".env.example"@, ".env.template"@, "config.local.*"@,
        "settings.local.*"@, "models/"@, "*.gguf"@, "*.bin"@, "*.safetensors"@, "*.pt"@,
        "*.pth"@, "*.onnx"@, "*.tflite"@, "*.h5"@, "*.pb"@, "*.ckpt"@, "*.weights"@, "*.model"@,
        "*.db"@, "*.sqlite"@, "*.sqlite3"@, "*.mdb"@, "*.accdb"@, ".git/"@, ".gitignore"@,
        ".gitattributes"@, ".gitmodules"@, ".gitkeep"@, ".git-blame*"@, "*.pdf"@, "*.doc"@,
        "*.docx"@, "*.xls"@, "*.xlsx"@, "*.ppt"@, "*.pptx"@, "*.jpg"@, "*.jpeg"@, "*.png"@,
        "*.gif"@, "*.bmp"@, "*.svg"@, "*.ico"@, "*.mp3"@, "*.mp4"@, "*.avi"@, "*.mov"@,
        "*.wmv"@, "*.flv"@, "*.webm"@, "*.mkv"@, "*.tar"@, "*.gz"@, ".DS_Store?"@, "._*"@,
        ".Spotlight-V100"@, ".Trashes"@, "ehthumbs.db"@, "$RECYCLE.BIN/"@, "*.lnk"@,
        "coverage/"@, "*.lcov"@, "*.coverage"@, "htmlcov/"@, ".coverage"@, "coverage.xml"@,
        "junit.xml"@, "test-results/"@, "reports/"@, "*.report"@, "*.out"@, "packages/"@,
        "lib/"@, "libs/"@, "deps/"@, "dependencies/"@, "third_party/"@, "third-party/"@,
        "external/"@, "externals/"@,
    ]
}

/// The default patterns, as string slices.
pub fn ignored_patterns() -> (r: Vec<&'static str>)
    ensures
        views(r@) == default_ignored_patterns(),
{
    let r = vec![
        ".lock", ".lockfile", "package-lock.json", "yarn.lock", "pnpm-lock.yaml", "Cargo.lock",
        "Gemfile.lock", "composer.lock", "poetry.lock", "Pipfile.lock", "requirements.txt",
        "requirements-dev.txt", "pyproject.toml", "setup.py", "setup.cfg", "package.json",
        "bun.lockb", "go.mod", "go.sum", "Pipfile", "mix.lock", "Gemfile", "composer.json",
        "pubspec.lock", "Podfile.lock", "Cartfile.resolved", "Pods/", "node_modules/",
        "vendor/", "bower_components/", "jspm_packages/", "target/", "dist/", "build/", "out/",
        "bin/", "obj/", "Debug/", "Release/", "x64/", "x86/", "*.o", "*.obj", "*.exe", "*.dll",
        "*.so", "*.dylib", "*.a", "*.lib", "*.class", "*.jar", "*.war", "*.ear", "*.pyc",
        "__pycache__/", "*.pyo", "*.pyd", "*.egg", "*.egg-info/", "*.whl", "*.tar.gz", "*.zip",
        "*.rar", "*.7z", ".vscode/", ".idea/", "*.swp", "*.swo", "*~", ".DS_Store", "Thumbs.db",
        "desktop.ini", ".vs/", "*.suo", "*.user", "*.userosscache", "*.sln.docstates",
        "*.userprefs", "*.pidb", "*.booproj", "*.svd", "*.pdb", "*.mdb", "*.opendb", "*.VC.db",
        "*.VC.VC.opendb", "*.log", "*.tmp", "*.temp", "*.cache", "*.bak", "*.backup", "*.old",
        "*.orig", "*.rej", ".fuse_hidden*", ".Trash-*", ".nfs*", ".env", ".env.local",
        ".env.development", ".env.test", ".env.production", ".env.example", ".env.template",
        "config.local.*", "settings.local.*", "models/", "*.gguf", "*.bin", "*.safetensors",
        "*.pt", "*.pth", "*.onnx", "*.tflite", "*.h5", "*.pb", "*.ckpt", "*.weights", "*.model",
        "*.db", "*.sqlite", "*.sqlite3", "*.mdb", "*.accdb", ".git/", ".gitignore",
        ".gitattributes", ".gitmodules", ".gitkeep", ".git-blame*", "*.pdf", "*.doc", "*.docx",
        "*.xls", "*.xlsx", "*.ppt", "*.pptx", "*.jpg", "*.jpeg", "*.png", "*.gif", "*.bmp",
        "*.svg", "*.ico", "*.mp3", "*.mp4", "*.avi", "*.mov", "*.wmv", "*.flv", "*.webm",
        "*.mkv", "*.tar", "*.gz", ".DS_Store?", "._*", ".Spotlight-V100", ".Trashes",
        "ehthumbs.db", "$RECYCLE.BIN/", "*.lnk", "coverage/", "*.lcov", "*.coverage",
        "htmlcov/", ".coverage", "coverage.xml", "junit.xml", "test-results/", "reports/",
        "*.report", "*.out", "packages/", "lib/", "libs/", "deps/", "dependencies/",
        "third_party/", "third-party/", "external/", "externals/",
    ];
    assert(views(r@) =~= default_ignored_patterns());
    r
}

} // verus!
