//! Normalization of generated text into a one-line conventional commit
//! message, with optional glyph decoration.
use vstd::prelude::*;
use crate::text::{
    chars_of, contains, contains_char, first_line, has_char, index_of, index_of_char,
    leading_white, lemma_index_of_char, lemma_index_of_char_unique, lemma_remove_all_absent, lemma_remove_all_len,
    lemma_remove_all_same_len, lemma_trim_keeps_absent_text,
    lemma_remove_all_keeps_absent, lemma_trim_idempotent, lemma_trim_keeps_absent, occurs_at,
    remove_all, remove_all_chars, same_chars, slice_chars, starts_with, starts_with_chars,
    string_of, trim, trim_chars, trim_start,
};

verus! {

/// Text of the message used when the generated text holds no usable line.
pub const FALLBACK_MESSAGE: &'static str = "chore: update code";

/// Glyph put in front of a message whose type has no glyph list.
pub const DEFAULT_GLYPH: &'static str = "\u{1F527}";

/// Name for the value of std's `DefaultHasher` (the hasher
/// `DefaultHasher::new` builds) on a string.
pub uninterp spec fn message_hash(s: Seq<char>) -> u64;

/// `c` lies in one of the symbol ranges that mark a message as decorated.
pub open spec fn is_glyph_code(c: char) -> bool {
    let n = c as u32;
    (0x1F600 <= n && n <= 0x1F64F) || (0x1F300 <= n && n <= 0x1F5FF) || (0x1F680 <= n && n
        <= 0x1F6FF) || (0x1F1E0 <= n && n <= 0x1F1FF) || (0x2600 <= n && n <= 0x26FF) || (0x2700
        <= n && n <= 0x27BF)
}

/// The message, once leading white space is skipped, begins with a glyph.
pub open spec fn starts_with_glyph(s: Seq<char>) -> bool {
    trim_start(s).len() > 0 && is_glyph_code(trim_start(s)[0])
}

/// The text before the first `:`.
pub open spec fn type_part(s: Seq<char>) -> Seq<char> {
    s.take(index_of_char(s, ':'))
}

/// The type without its parenthesised scope.
pub open spec fn base_type(type_part: Seq<char>) -> Seq<char> {
    type_part.take(index_of_char(type_part, '('))
}

/// The type part begins with one of the eight commit types.
pub open spec fn has_valid_type(s: Seq<char>) -> bool {
    let t = type_part(s);
    starts_with(t, "feat"@) || starts_with(t, "fix"@) || starts_with(t, "chore"@) || starts_with(
        t,
        "docs"@,
    ) || starts_with(t, "style"@) || starts_with(t, "refactor"@) || starts_with(t, "test"@)
        || starts_with(t, "perf"@)
}

/// The glyphs that may decorate a message of the given base type.
pub open spec fn glyph_options(base: Seq<char>) -> Seq<Seq<char>> {
    if base == "feat"@ {
        seq!["\u{1F680}"@, "\u{1F389}"@, "\u{1F4AB}"@, "\u{1F31F}"@]
    } else if base == "fix"@ {
        seq!["\u{1F41B}"@, "\u{1F691}\u{FE0F}"@, "\u{1FA79}"@, "\u{1F527}"@, "\u{1F528}"@]
    } else if base == "chore"@ {
        seq!["\u{1F527}"@, "\u{1F528}"@, "\u{2699}\u{FE0F}"@, "\u{1F527}"@, "\u{1F4E6}\u{FE0F}"@]
    } else if base == "docs"@ {
        seq!["\u{1F4DD}"@, "\u{1F4DA}"@, "\u{1F4D6}"@, "\u{1F4C4}"@, "\u{1F4CB}"@]
    } else if base == "style"@ {
        seq!["\u{1F3A8}"@, "\u{1F484}"@, "\u{1F3AD}"@, "\u{2728}"@, "\u{1F485}"@]
    } else if base == "refactor"@ {
        seq!["\u{267B}\u{FE0F}"@, "\u{1F504}"@, "\u{1F6E0}\u{FE0F}"@, "\u{1F528}"@, "\u{26A1}"@]
    } else if base == "test"@ {
        seq!["\u{1F9EA}"@, "\u{2705}"@, "\u{1F52C}"@, "\u{1F9EA}"@, "\u{1F3AF}"@]
    } else if base == "perf"@ {
        seq!["\u{26A1}"@, "\u{1F680}"@, "\u{1F4A8}"@, "\u{1F525}"@, "\u{26A1}\u{FE0F}"@]
    } else if base == "security"@ {
        seq!["\u{1F512}\u{FE0F}"@, "\u{1F510}"@, "\u{1F6E1}\u{FE0F}"@, "\u{1F512}"@, "\u{1F510}"@]
    } else if base == "ci"@ {
        seq!["\u{1F477}"@, "\u{1F6A7}"@, "\u{1F527}"@, "\u{2699}\u{FE0F}"@, "\u{1F528}"@]
    } else if base == "build"@ {
        seq!["\u{1F4E6}\u{FE0F}"@, "\u{1F528}"@, "\u{2699}\u{FE0F}"@, "\u{1F527}"@, "\u{1F3D7}\u{FE0F}"@]
    } else if base == "deps"@ {
        seq!["\u{2B06}\u{FE0F}"@, "\u{2B07}\u{FE0F}"@, "\u{1F4CC}"@, "\u{2795}"@, "\u{2796}"@]
    } else if base == "revert"@ {
        seq!["\u{23EA}\u{FE0F}"@, "\u{21A9}\u{FE0F}"@, "\u{1F504}"@, "\u{23EE}\u{FE0F}"@, "\u{21AA}\u{FE0F}"@]
    } else if base == "breaking"@ {
        seq!["\u{1F4A5}"@, "\u{1F6A8}"@, "\u{26A0}\u{FE0F}"@, "\u{1F4A3}"@, "\u{1F525}"@]
    } else {
        seq![]
    }
}

/// The glyph chosen for `message`: an entry of its type's list picked by the
/// message's hash, or the default glyph.
pub open spec fn chosen_glyph(message: Seq<char>) -> Seq<char> {
    let opts = glyph_options(base_type(type_part(message)));
    if contains_char(message, ':') && opts.len() > 0 {
        opts[(message_hash(message) as int) % (opts.len() as int)]
    } else {
        DEFAULT_GLYPH@
    }
}

/// `message` with its glyph and a space in front.
pub open spec fn decorated(message: Seq<char>) -> Seq<char> {
    chosen_glyph(message) + " "@ + message
}

/// `s` with every noise token removed, in the fixed order.
pub open spec fn strip_noise(s: Seq<char>) -> Seq<char> {
    remove_all(
        remove_all(
            remove_all(
                remove_all(
                    remove_all(remove_all(remove_all(s, "commit"@), "Commit:"@), "Commit message:"@),
                    "\""@,
                ),
                "'"@,
            ),
            "```"@,
        ),
        "`"@,
    )
}

/// None of the noise tokens occurs in `s`.
pub open spec fn noise_free(s: Seq<char>) -> bool {
    !contains(s, "commit"@) && !contains(s, "Commit:"@) && !contains(s, "Commit message:"@)
        && !contains(s, "\""@) && !contains(s, "'"@) && !contains(s, "```"@) && !contains(s, "`"@)
}

/// `s` with the noise tokens removed pass after pass, until a pass removes
/// nothing (a removal can bring the parts of another token together).
pub open spec fn strip_all_noise(s: Seq<char>) -> Seq<char>
    decreases s.len(),
{
    if strip_noise(s).len() < s.len() {
        strip_all_noise(strip_noise(s))
    } else {
        s
    }
}

/// The first line of `raw`, trimmed, without noise tokens, trimmed again.
pub open spec fn cleaned(raw: Seq<char>) -> Seq<char> {
    trim(strip_all_noise(trim(first_line(raw))))
}

/// The normalized message for `raw`: the fallback (decorated when asked) if
/// the cleaned line is empty or has no `:`; the empty sentinel if its type is
/// not one of the eight; else the cleaned line, decorated when asked and not
/// already decorated.
pub open spec fn normalize(raw: Seq<char>, decorate: bool) -> Seq<char> {
    let c = cleaned(raw);
    if c.len() == 0 || !contains_char(c, ':') {
        if decorate {
            DEFAULT_GLYPH@ + " "@ + FALLBACK_MESSAGE@
        } else {
            FALLBACK_MESSAGE@
        }
    } else if !has_valid_type(c) {
        Seq::empty()
    } else if decorate && !starts_with_glyph(c) {
        decorated(c)
    } else {
        c
    }
}

/// Normalizing depends on the text and the decoration flag alone: equal
/// inputs give equal messages, chosen glyph included.
pub proof fn lemma_normalize_deterministic(x: Seq<char>, y: Seq<char>, decorate: bool)
    requires
        x == y,
    ensures
        normalize(x, decorate) == normalize(y, decorate),
{
}

/// A one-line, trimmed text without noise tokens is its own cleaned form.
proof fn lemma_cleaned_stable(y: Seq<char>)
    requires
        !contains_char(y, '\n'),
        trim(y) == y,
        noise_free(y),
    ensures
        cleaned(y) == y,
{
    lemma_index_of_char(y, '\n');
    assert(y.take(y.len() as int) =~= y);
    assert(first_line(y) == y);
    lemma_remove_all_absent(y, "commit"@);
    lemma_remove_all_absent(y, "Commit:"@);
    lemma_remove_all_absent(y, "Commit message:"@);
    lemma_remove_all_absent(y, "\""@);
    lemma_remove_all_absent(y, "'"@);
    lemma_remove_all_absent(y, "```"@);
    lemma_remove_all_absent(y, "`"@);
    assert(strip_noise(y) == y);
    assert(strip_all_noise(y) == y);
}

/// One pass never lengthens the text, and a pass that keeps the length finds
/// no token at all.
proof fn lemma_strip_noise_len(s: Seq<char>)
    ensures
        strip_noise(s).len() <= s.len(),
        strip_noise(s).len() == s.len() ==> noise_free(s) && strip_noise(s) == s,
{
    reveal_strlit("commit");
    reveal_strlit("Commit:");
    reveal_strlit("Commit message:");
    reveal_strlit("\"");
    reveal_strlit("'");
    reveal_strlit("```");
    reveal_strlit("`");
    let s1 = remove_all(s, "commit"@);
    let s2 = remove_all(s1, "Commit:"@);
    let s3 = remove_all(s2, "Commit message:"@);
    let s4 = remove_all(s3, "\""@);
    let s5 = remove_all(s4, "'"@);
    let s6 = remove_all(s5, "```"@);
    let s7 = remove_all(s6, "`"@);
    lemma_remove_all_len(s, "commit"@);
    lemma_remove_all_len(s1, "Commit:"@);
    lemma_remove_all_len(s2, "Commit message:"@);
    lemma_remove_all_len(s3, "\""@);
    lemma_remove_all_len(s4, "'"@);
    lemma_remove_all_len(s5, "```"@);
    lemma_remove_all_len(s6, "`"@);
    assert(s7 == strip_noise(s));
    if s7.len() == s.len() {
        lemma_remove_all_same_len(s, "commit"@);
        lemma_remove_all_same_len(s1, "Commit:"@);
        lemma_remove_all_same_len(s2, "Commit message:"@);
        lemma_remove_all_same_len(s3, "\""@);
        lemma_remove_all_same_len(s4, "'"@);
        lemma_remove_all_same_len(s5, "```"@);
        lemma_remove_all_same_len(s6, "`"@);
    }
}

/// One pass keeps an absent character absent.
proof fn lemma_strip_noise_keeps_absent(s: Seq<char>, c: char)
    requires
        !contains_char(s, c),
    ensures
        !contains_char(strip_noise(s), c),
{
    let s1 = remove_all(s, "commit"@);
    let s2 = remove_all(s1, "Commit:"@);
    let s3 = remove_all(s2, "Commit message:"@);
    let s4 = remove_all(s3, "\""@);
    let s5 = remove_all(s4, "'"@);
    let s6 = remove_all(s5, "```"@);
    lemma_remove_all_keeps_absent(s, "commit"@, c);
    lemma_remove_all_keeps_absent(s1, "Commit:"@, c);
    lemma_remove_all_keeps_absent(s2, "Commit message:"@, c);
    lemma_remove_all_keeps_absent(s3, "\""@, c);
    lemma_remove_all_keeps_absent(s4, "'"@, c);
    lemma_remove_all_keeps_absent(s5, "```"@, c);
    lemma_remove_all_keeps_absent(s6, "`"@, c);
}

/// Stripping to the end leaves no token, and keeps an absent character absent.
proof fn lemma_strip_all_noise(s: Seq<char>, c: char)
    requires
        !contains_char(s, c),
    ensures
        noise_free(strip_all_noise(s)),
        !contains_char(strip_all_noise(s), c),
    decreases s.len(),
{
    lemma_strip_noise_len(s);
    if strip_noise(s).len() < s.len() {
        lemma_strip_noise_keeps_absent(s, c);
        lemma_strip_all_noise(strip_noise(s), c);
    }
}

/// The cleaned line holds no line feed and no noise token, and is trimmed.
proof fn lemma_cleaned_one_line(raw: Seq<char>)
    ensures
        !contains_char(cleaned(raw), '\n'),
        trim(cleaned(raw)) == cleaned(raw),
        noise_free(cleaned(raw)),
{
    let l = first_line(raw);
    lemma_index_of_char(raw, '\n');
    assert(!contains_char(l, '\n'));
    lemma_trim_keeps_absent(l, '\n');
    let s0 = trim(l);
    lemma_strip_all_noise(s0, '\n');
    let s7 = strip_all_noise(s0);
    lemma_trim_keeps_absent(s7, '\n');
    lemma_trim_idempotent(s7);
    lemma_trim_keeps_absent_text(s7, "commit"@);
    lemma_trim_keeps_absent_text(s7, "Commit:"@);
    lemma_trim_keeps_absent_text(s7, "Commit message:"@);
    lemma_trim_keeps_absent_text(s7, "\""@);
    lemma_trim_keeps_absent_text(s7, "'"@);
    lemma_trim_keeps_absent_text(s7, "```"@);
    lemma_trim_keeps_absent_text(s7, "`"@);
}

/// The undecorated fallback message normalizes to itself.
proof fn lemma_fallback_stable()
    ensures
        normalize(FALLBACK_MESSAGE@, false) == FALLBACK_MESSAGE@,
{
    let f = FALLBACK_MESSAGE@;
    reveal_strlit("chore: update code");
    reveal_strlit("chore");
    reveal_strlit("commit");
    reveal_strlit("Commit:");
    reveal_strlit("Commit message:");
    reveal_strlit("\"");
    reveal_strlit("'");
    reveal_strlit("```");
    reveal_strlit("`");
    assert(!contains_char(f, '\n'));
    assert(trim_start(f) == f);
    assert(trim(f) == f);
    assert forall|i: int| !occurs_at(f, "commit"@, i) by {
        if occurs_at(f, "commit"@, i) {
            assert(f.subrange(i, i + 6)[1] == 'o');
            assert(f.subrange(i, i + 6)[0] == 'c');
        }
    }
    assert forall|i: int| !occurs_at(f, "Commit:"@, i) by {
        if occurs_at(f, "Commit:"@, i) {
            assert(f.subrange(i, i + 7)[0] == 'C');
        }
    }
    assert forall|i: int| !occurs_at(f, "Commit message:"@, i) by {
        if occurs_at(f, "Commit message:"@, i) {
            assert(f.subrange(i, i + 15)[0] == 'C');
        }
    }
    assert forall|i: int| !occurs_at(f, "\""@, i) by {
        if occurs_at(f, "\""@, i) {
            assert(f.subrange(i, i + 1)[0] == '"');
        }
    }
    assert forall|i: int| !occurs_at(f, "'"@, i) by {
        if occurs_at(f, "'"@, i) {
            assert(f.subrange(i, i + 1)[0] == '\'');
        }
    }
    assert forall|i: int| !occurs_at(f, "```"@, i) by {
        if occurs_at(f, "```"@, i) {
            assert(f.subrange(i, i + 3)[0] == '`');
        }
    }
    assert forall|i: int| !occurs_at(f, "`"@, i) by {
        if occurs_at(f, "`"@, i) {
            assert(f.subrange(i, i + 1)[0] == '`');
        }
    }
    lemma_cleaned_stable(f);
    lemma_index_of_char_unique(f, ':', 5);
    assert(f[5] == ':');
    assert(contains_char(f, ':'));
    assert(type_part(f).take(5) =~= "chore"@);
}

/// Normalizing an undecorated message a second time changes nothing,
/// whenever the first result is a message (not the empty sentinel).
pub proof fn lemma_normalize_idempotent(x: Seq<char>)
    requires
        normalize(x, false).len() > 0,
    ensures
        normalize(normalize(x, false), false) == normalize(x, false),
{
    let c = cleaned(x);
    if c.len() == 0 || !contains_char(c, ':') {
        lemma_fallback_stable();
    } else {
        lemma_cleaned_one_line(x);
        lemma_cleaned_stable(c);
    }
}

/// Relies on `BuildHasher::hash_one` over std's `DefaultHasher`, whose keys
/// are fixed: the value depends on the text alone.
#[verifier::external_body]
fn hash_text(s: &str) -> (r: u64)
    ensures
        r == message_hash(s@),
{
    std::hash::BuildHasher::hash_one(
        &std::hash::BuildHasherDefault::<std::collections::hash_map::DefaultHasher>::default(),
        s,
    )
}

fn is_glyph_char(c: char) -> (r: bool)
    ensures
        r == is_glyph_code(c),
{
    let n = c as u32;
    (0x1F600 <= n && n <= 0x1F64F) || (0x1F300 <= n && n <= 0x1F5FF) || (0x1F680 <= n && n
        <= 0x1F6FF) || (0x1F1E0 <= n && n <= 0x1F1FF) || (0x2600 <= n && n <= 0x26FF) || (0x2700
        <= n && n <= 0x27BF)
}

/// Whether the message, after leading white space, begins with a glyph.
pub fn has_emoji(message: &str) -> (r: bool)
    ensures
        r == starts_with_glyph(message@),
{
    let s = chars_of(message);
    let a = leading_white(&s);
    a < s.len() && is_glyph_char(s[a])
}

fn is_text(s: &Vec<char>, lit: &str) -> (r: bool)
    ensures
        r == (s@ == lit@),
{
    same_chars(s, &chars_of(lit))
}

/// The glyph list for a base type.
fn glyphs_for(base: &Vec<char>) -> (r: Vec<&'static str>)
    ensures
        r.len() == glyph_options(base@).len(),
        forall|i: int| 0 <= i < r.len() ==> r@[i]@ == glyph_options(base@)[i],
{
    if is_text(base, "feat") {
        vec!["\u{1F680}", "\u{1F389}", "\u{1F4AB}", "\u{1F31F}"]
    } else if is_text(base, "fix") {
        vec!["\u{1F41B}", "\u{1F691}\u{FE0F}", "\u{1FA79}", "\u{1F527}", "\u{1F528}"]
    } else if is_text(base, "chore") {
        vec!["\u{1F527}", "\u{1F528}", "\u{2699}\u{FE0F}", "\u{1F527}", "\u{1F4E6}\u{FE0F}"]
    } else if is_text(base, "docs") {
        vec!["\u{1F4DD}", "\u{1F4DA}", "\u{1F4D6}", "\u{1F4C4}", "\u{1F4CB}"]
    } else if is_text(base, "style") {
        vec!["\u{1F3A8}", "\u{1F484}", "\u{1F3AD}", "\u{2728}", "\u{1F485}"]
    } else if is_text(base, "refactor") {
        vec!["\u{267B}\u{FE0F}", "\u{1F504}", "\u{1F6E0}\u{FE0F}", "\u{1F528}", "\u{26A1}"]
    } else if is_text(base, "test") {
        vec!["\u{1F9EA}", "\u{2705}", "\u{1F52C}", "\u{1F9EA}", "\u{1F3AF}"]
    } else if is_text(base, "perf") {
        vec!["\u{26A1}", "\u{1F680}", "\u{1F4A8}", "\u{1F525}", "\u{26A1}\u{FE0F}"]
    } else if is_text(base, "security") {
        vec!["\u{1F512}\u{FE0F}", "\u{1F510}", "\u{1F6E1}\u{FE0F}", "\u{1F512}", "\u{1F510}"]
    } else if is_text(base, "ci") {
        vec!["\u{1F477}", "\u{1F6A7}", "\u{1F527}", "\u{2699}\u{FE0F}", "\u{1F528}"]
    } else if is_text(base, "build") {
        vec!["\u{1F4E6}\u{FE0F}", "\u{1F528}", "\u{2699}\u{FE0F}", "\u{1F527}", "\u{1F3D7}\u{FE0F}"]
    } else if is_text(base, "deps") {
        vec!["\u{2B06}\u{FE0F}", "\u{2B07}\u{FE0F}", "\u{1F4CC}", "\u{2795}", "\u{2796}"]
    } else if is_text(base, "revert") {
        vec!["\u{23EA}\u{FE0F}", "\u{21A9}\u{FE0F}", "\u{1F504}", "\u{23EE}\u{FE0F}", "\u{21AA}\u{FE0F}"]
    } else if is_text(base, "breaking") {
        vec!["\u{1F4A5}", "\u{1F6A8}", "\u{26A0}\u{FE0F}", "\u{1F4A3}", "\u{1F525}"]
    } else {
        Vec::new()
    }
}

/// Puts the glyph chosen for the message's type, and a space, in front of it.
pub fn add_gitmoji_to_commit(message: &str) -> (r: String)
    ensures
        r@ == decorated(message@),
{
    let s = chars_of(message);
    let colon = index_of(&s, ':');
    let head = slice_chars(&s, 0, colon);
    let paren = index_of(&head, '(');
    let base = slice_chars(&head, 0, paren);
    let options = glyphs_for(&base);
    let glyph: &str = if colon < s.len() && options.len() > 0 {
        let h = hash_text(message);
        options[(h % (options.len() as u64)) as usize]
    } else {
        DEFAULT_GLYPH
    };
    proof {
        lemma_index_of_char(s@, ':');
    }
    let mut r = String::from_str(glyph);
    r.append(" ");
    r.append(message);
    r
}

fn strip_noise_chars(s: &Vec<char>) -> (r: Vec<char>)
    ensures
        r@ == strip_noise(s@),
{
    let s1 = remove_all_chars(s, &chars_of("commit"));
    let s2 = remove_all_chars(&s1, &chars_of("Commit:"));
    let s3 = remove_all_chars(&s2, &chars_of("Commit message:"));
    let s4 = remove_all_chars(&s3, &chars_of("\""));
    let s5 = remove_all_chars(&s4, &chars_of("'"));
    let s6 = remove_all_chars(&s5, &chars_of("```"));
    remove_all_chars(&s6, &chars_of("`"))
}

fn strip_all_noise_chars(s: &Vec<char>) -> (r: Vec<char>)
    ensures
        r@ == strip_all_noise(s@),
{
    let mut cur = s.clone();
    loop
        invariant
            strip_all_noise(cur@) == strip_all_noise(s@),
        decreases cur.len(),
    {
        let next = strip_noise_chars(&cur);
        proof {
            lemma_strip_noise_len(cur@);
        }
        if next.len() < cur.len() {
            cur = next;
        } else {
            return cur;
        }
    }
}

fn valid_type_chars(c: &Vec<char>) -> (r: bool)
    ensures
        r == has_valid_type(c@),
{
    let t = slice_chars(c, 0, index_of(c, ':'));
    starts_with_chars(&t, &chars_of("feat")) || starts_with_chars(&t, &chars_of("fix"))
        || starts_with_chars(&t, &chars_of("chore")) || starts_with_chars(&t, &chars_of("docs"))
        || starts_with_chars(&t, &chars_of("style")) || starts_with_chars(
        &t,
        &chars_of("refactor"),
    ) || starts_with_chars(&t, &chars_of("test")) || starts_with_chars(&t, &chars_of("perf"))
}

fn fallback(use_gitmoji: bool) -> (r: String)
    ensures
        use_gitmoji ==> r@ == DEFAULT_GLYPH@ + " "@ + FALLBACK_MESSAGE@,
        !use_gitmoji ==> r@ == FALLBACK_MESSAGE@,
{
    if use_gitmoji {
        let mut r = String::from_str(DEFAULT_GLYPH);
        r.append(" ");
        r.append(FALLBACK_MESSAGE);
        r
    } else {
        String::from_str(FALLBACK_MESSAGE)
    }
}

/// Normalizes generated text into a conventional commit message, decorated
/// with a glyph when `use_gitmoji` is set.
pub fn clean_commit_message_from_ai(message: &str, use_gitmoji: bool) -> (r: String)
    ensures
        r@ == normalize(message@, use_gitmoji),
{
    let raw = chars_of(message);
    let line = slice_chars(&raw, 0, index_of(&raw, '\n'));
    let c = trim_chars(&strip_all_noise_chars(&trim_chars(&line)));
    if c.len() == 0 || !has_char(&c, ':') {
        return fallback(use_gitmoji);
    }
    if !valid_type_chars(&c) {
        return String::new();
    }
    let text = string_of(&c);
    if use_gitmoji && !has_emoji(text.as_str()) {
        return add_gitmoji_to_commit(text.as_str());
    }
    text
}

/// Normalizes text into an undecorated conventional commit message.
pub fn clean_commit_message(message: &str) -> (r: String)
    ensures
        r@ == normalize(message@, false),
{
    clean_commit_message_from_ai(message, false)
}

} // verus!
