//! Machine description and the performance tier that sizes prompts.
use vstd::prelude::*;
use crate::diff_filter::FilterBudget;
use crate::diff_filter::{split_lines, split_lines_chars, vec_views};
use crate::project::{first_white, word_after};
use crate::text::{
    chars_of, contains, contains_chars, index_of, index_of_char, remove_all, remove_all_chars,
    slice_chars, starts_with, starts_with_chars, string_of, trim, trim_chars,
};

verus! {

/// How capable the machine is, from very slow to very fast.
#[derive(Clone, Copy, Debug, PartialEq, Eq, Structural)]
pub enum PerformanceLevel {
    VeryLow,
    Low,
    Medium,
    Good,
    High,
    VeryHigh,
}

/// What is known of the machine, and the tier derived from it.
#[derive(Clone, Debug)]
pub struct SystemSpecs {
    pub cpu_cores: Option<u32>,
    pub cpu_model: Option<String>,
    pub memory_gb: Option<u32>,
    pub gpu_model: Option<String>,
    pub os_info: Option<String>,
    pub performance_level: PerformanceLevel,
}

/// Name for the value of `str::to_lowercase` on a string.
pub uninterp spec fn lower_of(s: Seq<char>) -> Seq<char>;

/// Relies on `str::to_lowercase`: the result depends on the characters alone.
#[verifier::external_body]
fn lowercase(s: &str) -> (r: String)
    ensures
        r@ == lower_of(s@),
{
    s.to_lowercase()
}

pub open spec fn very_high_end_cpu(m: Seq<char>) -> bool {
    contains(m, "i9"@) || contains(m, "ryzen 9"@) || contains(m, "m2 pro"@) || contains(
        m,
        "m2 max"@,
    ) || contains(m, "m3 pro"@) || contains(m, "m3 max"@) || contains(m, "threadripper"@)
}

pub open spec fn high_end_cpu(m: Seq<char>) -> bool {
    contains(m, "i7"@) || contains(m, "ryzen 7"@) || contains(m, "m1"@) || contains(m, "m2"@)
        || contains(m, "m3"@)
}

pub open spec fn good_cpu(m: Seq<char>) -> bool {
    contains(m, "i5"@) || contains(m, "ryzen 5"@) || contains(m, "fx"@)
}

pub open spec fn low_end_cpu(m: Seq<char>) -> bool {
    contains(m, "celeron"@) || contains(m, "atom"@) || contains(m, "pentium"@) || contains(
        m,
        "athlon"@,
    ) || contains(m, "sempron"@)
}

pub open spec fn very_low_end_cpu(m: Seq<char>) -> bool {
    contains(m, "atom"@) || contains(m, "sempron"@)
}

/// The tier for a core count, a memory size in GB and a lower-case CPU model.
pub open spec fn level_for(cores: u32, memory_gb: u32, m: Seq<char>) -> PerformanceLevel {
    if cores >= 12 && memory_gb >= 32 && very_high_end_cpu(m) {
        PerformanceLevel::VeryHigh
    } else if cores >= 8 && memory_gb >= 16 && high_end_cpu(m) {
        PerformanceLevel::High
    } else if cores >= 6 && memory_gb >= 12 && (good_cpu(m) || high_end_cpu(m)) {
        PerformanceLevel::Good
    } else if cores >= 4 && memory_gb >= 8 && !low_end_cpu(m) {
        PerformanceLevel::Medium
    } else if cores >= 2 && memory_gb >= 4 && !very_low_end_cpu(m) {
        PerformanceLevel::Low
    } else {
        PerformanceLevel::VeryLow
    }
}

/// Total diff ceiling, in characters, for a tier.
pub open spec fn max_total_for(level: PerformanceLevel) -> usize {
    match level {
        PerformanceLevel::VeryLow => 1500,
        PerformanceLevel::Low => 2000,
        PerformanceLevel::Medium => 3000,
        PerformanceLevel::Good => 4000,
        PerformanceLevel::High => 5000,
        PerformanceLevel::VeryHigh => 6000,
    }
}

/// Per-file diff ceiling, in characters, for a tier.
pub open spec fn max_file_for(level: PerformanceLevel) -> usize {
    match level {
        PerformanceLevel::VeryLow => 200,
        PerformanceLevel::Low => 500,
        PerformanceLevel::Medium => 700,
        PerformanceLevel::Good => 1000,
        PerformanceLevel::High => 1200,
        PerformanceLevel::VeryHigh => 1500,
    }
}

/// Recommended prompt length, in characters, for a tier.
pub open spec fn prompt_length_for(level: PerformanceLevel) -> usize {
    match level {
        PerformanceLevel::VeryLow => 500,
        PerformanceLevel::Low => 1000,
        PerformanceLevel::Medium => 2000,
        PerformanceLevel::Good => 3000,
        PerformanceLevel::High => 4000,
        PerformanceLevel::VeryHigh => 6000,
    }
}

fn has(m: &Vec<char>, lit: &str) -> (r: bool)
    ensures
        r == contains(m@, lit@),
{
    contains_chars(m, &chars_of(lit))
}

/// The tier for a core count, a memory size in GB and a CPU model that is
/// already in lower case.
pub fn level_from_lowered(cpu_cores: u32, memory_gb: u32, lowered: &str) -> (r: PerformanceLevel)
    ensures
        r == level_for(cpu_cores, memory_gb, lowered@),
{
    let m = chars_of(lowered);
    let very_high = has(&m, "i9") || has(&m, "ryzen 9") || has(&m, "m2 pro") || has(&m, "m2 max")
        || has(&m, "m3 pro") || has(&m, "m3 max") || has(&m, "threadripper");
    let high = has(&m, "i7") || has(&m, "ryzen 7") || has(&m, "m1") || has(&m, "m2") || has(
        &m,
        "m3",
    );
    let good = has(&m, "i5") || has(&m, "ryzen 5") || has(&m, "fx");
    let low_end = has(&m, "celeron") || has(&m, "atom") || has(&m, "pentium") || has(&m, "athlon")
        || has(&m, "sempron");
    let very_low_end = has(&m, "atom") || has(&m, "sempron");
    if cpu_cores >= 12 && memory_gb >= 32 && very_high {
        PerformanceLevel::VeryHigh
    } else if cpu_cores >= 8 && memory_gb >= 16 && high {
        PerformanceLevel::High
    } else if cpu_cores >= 6 && memory_gb >= 12 && (good || high) {
        PerformanceLevel::Good
    } else if cpu_cores >= 4 && memory_gb >= 8 && !low_end {
        PerformanceLevel::Medium
    } else if cpu_cores >= 2 && memory_gb >= 4 && !very_low_end {
        PerformanceLevel::Low
    } else {
        PerformanceLevel::VeryLow
    }
}

/// The tier for a core count, a memory size in GB and a CPU model, matched
/// without regard to case.
pub fn determine_performance_level(cpu_cores: u32, memory_gb: u32, cpu_model: &str) -> (r:
    PerformanceLevel)
    ensures
        r == level_for(cpu_cores, memory_gb, lower_of(cpu_model@)),
{
    let lowered = lowercase(cpu_model);
    level_from_lowered(cpu_cores, memory_gb, lowered.as_str())
}

impl SystemSpecs {
    /// A description from probed values, with the tier they give.
    pub fn new(
        cpu_cores: u32,
        cpu_model: String,
        memory_gb: u32,
        gpu_model: Option<String>,
        os_info: String,
    ) -> (r: SystemSpecs)
        ensures
            r.cpu_cores == Some(cpu_cores),
            r.cpu_model == Some(cpu_model),
            r.memory_gb == Some(memory_gb),
            r.gpu_model == gpu_model,
            r.os_info == Some(os_info),
            r.performance_level == level_for(cpu_cores, memory_gb, lower_of(cpu_model@)),
    {
        let performance_level = determine_performance_level(
            cpu_cores,
            memory_gb,
            cpu_model.as_str(),
        );
        SystemSpecs {
            cpu_cores: Some(cpu_cores),
            cpu_model: Some(cpu_model),
            memory_gb: Some(memory_gb),
            gpu_model,
            os_info: Some(os_info),
            performance_level,
        }
    }

    /// A description of a machine that could not be probed: medium tier.
    pub fn unknown() -> (r: SystemSpecs)
        ensures
            r.cpu_cores is None,
            r.cpu_model is None,
            r.memory_gb is None,
            r.gpu_model is None,
            r.os_info is None,
            r.performance_level == PerformanceLevel::Medium,
    {
        SystemSpecs {
            cpu_cores: None,
            cpu_model: None,
            memory_gb: None,
            gpu_model: None,
            os_info: None,
            performance_level: PerformanceLevel::Medium,
        }
    }

    /// Total diff ceiling for this machine's tier.
    pub fn get_max_total_content(&self) -> (r: usize)
        ensures
            r == max_total_for(self.performance_level),
    {
        match self.performance_level {
            PerformanceLevel::VeryLow => 1500,
            PerformanceLevel::Low => 2000,
            PerformanceLevel::Medium => 3000,
            PerformanceLevel::Good => 4000,
            PerformanceLevel::High => 5000,
            PerformanceLevel::VeryHigh => 6000,
        }
    }

    /// Per-file diff ceiling for this machine's tier.
    pub fn get_max_file_content(&self) -> (r: usize)
        ensures
            r == max_file_for(self.performance_level),
    {
        match self.performance_level {
            PerformanceLevel::VeryLow => 200,
            PerformanceLevel::Low => 500,
            PerformanceLevel::Medium => 700,
            PerformanceLevel::Good => 1000,
            PerformanceLevel::High => 1200,
            PerformanceLevel::VeryHigh => 1500,
        }
    }

    /// Recommended prompt length for this machine's tier.
    pub fn get_recommended_prompt_length(&self) -> (r: usize)
        ensures
            r == prompt_length_for(self.performance_level),
    {
        match self.performance_level {
            PerformanceLevel::VeryLow => 500,
            PerformanceLevel::Low => 1000,
            PerformanceLevel::Medium => 2000,
            PerformanceLevel::Good => 3000,
            PerformanceLevel::High => 4000,
            PerformanceLevel::VeryHigh => 6000,
        }
    }

    /// Recommended number of tokens to generate: half the prompt length.
    pub fn get_recommended_max_tokens(&self) -> (r: usize)
        ensures
            r == prompt_length_for(self.performance_level) / 2,
    {
        self.get_recommended_prompt_length() / 2
    }

    /// The diff filter's ceilings for this machine's tier.
    pub fn filter_budget(&self) -> (r: FilterBudget)
        ensures
            r.per_file == max_file_for(self.performance_level),
            r.total == max_total_for(self.performance_level),
    {
        FilterBudget { per_file: self.get_max_file_content(), total: self.get_max_total_content() }
    }
}

/// A machine description from probed values: `None` when the CPU model, the
/// memory size or the operating system could not be found.
pub fn get_system_info(
    cpu_cores: u32,
    cpu_model: Option<String>,
    memory_gb: Option<u32>,
    gpu_model: Option<String>,
    os_info: Option<String>,
) -> (r: Option<SystemSpecs>)
    ensures
        (cpu_model is Some && memory_gb is Some && os_info is Some) <==> r is Some,
        r is Some ==> r->0.cpu_cores == Some(cpu_cores) && r->0.cpu_model == cpu_model
            && r->0.memory_gb == memory_gb && r->0.gpu_model == gpu_model && r->0.os_info
            == os_info && r->0.performance_level == level_for(
            cpu_cores,
            memory_gb->0,
            lower_of(cpu_model->0@),
        ),
{
    match (cpu_model, memory_gb, os_info) {
        (Some(model), Some(memory), Some(os)) => Some(
            SystemSpecs::new(cpu_cores, model, memory, gpu_model, os),
        ),
        _ => None,
    }
}

// ---------------------------------------------------------------------------
// Reading probe outputs
// ---------------------------------------------------------------------------

/// The `n`-th piece of `l` split at `c`, when there are that many.
pub open spec fn nth_segment(l: Seq<char>, c: char, n: nat) -> Option<Seq<char>>
    decreases n,
{
    let i = index_of_char(l, c);
    if n == 0 {
        Some(l.take(i))
    } else if i < l.len() {
        nth_segment(l.skip(i + 1), c, (n - 1) as nat)
    } else {
        None
    }
}

/// The CPU model on the first `model name` line of `/proc/cpuinfo` that has
/// a `:`.
pub open spec fn cpu_model_in(lines: Seq<Seq<char>>) -> Option<Seq<char>>
    decreases lines.len(),
{
    if lines.len() == 0 {
        None
    } else if starts_with(lines[0], "model name"@) && nth_segment(lines[0], ':', 1) is Some {
        Some(trim(nth_segment(lines[0], ':', 1)->0))
    } else {
        cpu_model_in(lines.drop_first())
    }
}

/// The value of a decimal numeral, digits only.
pub open spec fn digits_value(s: Seq<char>) -> int
    decreases s.len(),
{
    if s.len() == 0 {
        0
    } else {
        10 * digits_value(s.drop_last()) + (s.last() as int - '0' as int)
    }
}

pub open spec fn all_digits(s: Seq<char>) -> bool {
    forall|i: int| 0 <= i < s.len() ==> '0' <= #[trigger] s[i] <= '9'
}

/// What `str::parse::<u32>` gives: an optional `+`, then at least one digit,
/// with a value that fits.
/// The text after an optional leading `+`.
pub open spec fn unsigned_digits(s: Seq<char>) -> Seq<char> {
    if s.len() > 0 && s[0] == '+' {
        s.drop_first()
    } else {
        s
    }
}

pub open spec fn parse_u32_of(s: Seq<char>) -> Option<u32> {
    let d = unsigned_digits(s);
    if d.len() == 0 || !all_digits(d) || digits_value(d) > u32::MAX {
        None
    } else {
        Some(digits_value(d) as u32)
    }
}

/// What `str::parse::<u64>` gives: an optional `+`, then at least one digit,
/// with a value that fits.
pub open spec fn parse_u64_of(s: Seq<char>) -> Option<u64> {
    let d = unsigned_digits(s);
    if d.len() == 0 || !all_digits(d) || digits_value(d) > u64::MAX {
        None
    } else {
        Some(digits_value(d) as u64)
    }
}

/// Whole gigabytes in a byte count, kept to its low 32 bits as a `u32` cast does.
pub open spec fn gb_of_bytes(b: u64) -> u32 {
    ((b / 1073741824) % 4294967296) as u32
}

/// The value on the first line that begins with `key`: the line with every
/// `key` removed, trimmed.
pub open spec fn line_value_in(lines: Seq<Seq<char>>, key: Seq<char>) -> Option<Seq<char>>
    decreases lines.len(),
{
    if lines.len() == 0 {
        None
    } else if starts_with(lines[0], key) {
        Some(trim(remove_all(lines[0], key)))
    } else {
        line_value_in(lines.drop_first(), key)
    }
}

/// The chipset on the first `Chipset Model:` line of `system_profiler`.
pub open spec fn chipset_in(lines: Seq<Seq<char>>) -> Option<Seq<char>>
    decreases lines.len(),
{
    if lines.len() == 0 {
        None
    } else if contains(lines[0], "Chipset Model:"@) && nth_segment(lines[0], ':', 1) is Some {
        Some(trim(nth_segment(lines[0], ':', 1)->0))
    } else {
        chipset_in(lines.drop_first())
    }
}

/// What the `MemTotal:` line of `/proc/meminfo` gives.
pub enum MemoryReading {
    /// The total, in kB.
    Kilobytes(u32),
    /// The line's amount is not a number.
    Unreadable,
    /// No line gives an amount.
    Absent,
}

/// The reading of the first `MemTotal:` line with a second word.
pub open spec fn memory_in(lines: Seq<Seq<char>>) -> MemoryReading
    decreases lines.len(),
{
    if lines.len() == 0 {
        MemoryReading::Absent
    } else {
        let l = lines[0];
        let w = word_after(l, first_white(l));
        if starts_with(l, "MemTotal:"@) && w is Some {
            match parse_u32_of(w->0) {
                Some(kb) => MemoryReading::Kilobytes(kb),
                None => MemoryReading::Unreadable,
            }
        } else {
            memory_in(lines.drop_first())
        }
    }
}

/// Memory in GB from `/proc/meminfo`: the total in kB divided by 1024 twice;
/// 8 when no line gives it; `None` when the amount is not a number.
pub open spec fn memory_gb_of(text: Seq<char>) -> Option<u32> {
    match memory_in(split_lines(text)) {
        MemoryReading::Kilobytes(kb) => Some(kb / 1024 / 1024),
        MemoryReading::Unreadable => None,
        MemoryReading::Absent => Some(8),
    }
}

/// The GPU on the first display-controller line of `lspci` that has three
/// `:`-separated pieces.
pub open spec fn lspci_gpu_in(lines: Seq<Seq<char>>) -> Option<Seq<char>>
    decreases lines.len(),
{
    if lines.len() == 0 {
        None
    } else {
        let l = lines[0];
        if (contains(l, "VGA"@) || contains(l, "3D"@) || contains(l, "Display"@)) && nth_segment(
            l,
            ':',
            2,
        ) is Some {
            Some(trim(nth_segment(l, ':', 2)->0))
        } else {
            lspci_gpu_in(lines.drop_first())
        }
    }
}

/// The renderer named by `glxinfo`.
pub open spec fn glx_gpu_in(lines: Seq<Seq<char>>) -> Option<Seq<char>>
    decreases lines.len(),
{
    if lines.len() == 0 {
        None
    } else if starts_with(lines[0], "OpenGL renderer string:"@) && nth_segment(lines[0], ':', 1) is Some {
        Some(trim(nth_segment(lines[0], ':', 1)->0))
    } else {
        glx_gpu_in(lines.drop_first())
    }
}

/// The pretty name on the first `PRETTY_NAME=` line of `/etc/os-release`.
pub open spec fn os_name_in(lines: Seq<Seq<char>>) -> Option<Seq<char>>
    decreases lines.len(),
{
    if lines.len() == 0 {
        None
    } else if starts_with(lines[0], "PRETTY_NAME="@) {
        Some(trim(remove_all(remove_all(lines[0], "PRETTY_NAME="@), "\""@)))
    } else {
        os_name_in(lines.drop_first())
    }
}

fn nth_segment_chars(l: &Vec<char>, c: char, n: usize) -> (r: Option<Vec<char>>)
    ensures
        match r {
            Some(v) => nth_segment(l@, c, n as nat) == Some(v@),
            None => nth_segment(l@, c, n as nat) is None,
        },
{
    let mut rest = l.clone();
    let mut k: usize = n;
    assert(rest@ == l@);
    loop
        invariant
            k <= n,
            nth_segment(l@, c, n as nat) == nth_segment(rest@, c, k as nat),
        decreases k,
    {
        let i = index_of(&rest, c);
        if k == 0 {
            return Some(slice_chars(&rest, 0, i));
        }
        if i == rest.len() {
            return None;
        }
        let next = slice_chars(&rest, i + 1, rest.len());
        assert(next@ =~= rest@.skip(i + 1));
        rest = next;
        k = k - 1;
    }
}

/// The CPU model in the text of `/proc/cpuinfo`, or `Unknown CPU`.
pub fn cpu_model_from_cpuinfo(text: &str) -> (r: String)
    ensures
        match cpu_model_in(split_lines(text@)) {
            Some(m) => r@ == m,
            None => r@ == "Unknown CPU"@,
        },
{
    let lines = split_lines_chars(&chars_of(text));
    let prefix = chars_of("model name");
    let mut i: usize = 0;
    assert(vec_views(lines@).skip(0) =~= vec_views(lines@));
    while i < lines.len()
        invariant
            i <= lines.len(),
            prefix@ == "model name"@,
            cpu_model_in(vec_views(lines@)) == cpu_model_in(vec_views(lines@).skip(i as int)),
            vec_views(lines@) == split_lines(text@),
        decreases lines.len() - i,
    {
        assert(vec_views(lines@).skip(i as int)[0] == lines@[i as int]@);
        assert(vec_views(lines@).skip(i as int).drop_first() =~= vec_views(lines@).skip(i + 1));
        if starts_with_chars(&lines[i], &prefix) {
            match nth_segment_chars(&lines[i], ':', 1) {
                Some(seg) => {
                    return string_of(&trim_chars(&seg));
                },
                None => {},
            }
        }
        i += 1;
    }
    String::from_str("Unknown CPU")
}

proof fn lemma_digits_bound(s: Seq<char>, k: int)
    requires
        all_digits(s),
        0 <= k <= s.len(),
    ensures
        digits_value(s) >= digits_value(s.take(k)) >= 0,
    decreases s.len(),
{
    if s.len() > 0 {
        assert(all_digits(s.drop_last()));
        if k < s.len() {
            lemma_digits_bound(s.drop_last(), k);
            assert(s.drop_last().take(k) =~= s.take(k));
        } else {
            assert(s.take(k) =~= s);
            lemma_digits_bound(s.drop_last(), 0);
        }
    } else {
        assert(s.take(k) =~= s);
    }
}

/// `str::parse::<u32>` on a sequence of characters.
pub fn parse_u32(s: &Vec<char>) -> (r: Option<u32>)
    ensures
        r == parse_u32_of(s@),
{
    let start: usize = if s.len() > 0 && s[0] == '+' {
        1
    } else {
        0
    };
    let ghost d = s@.skip(start as int);
    assert(d =~= unsigned_digits(s@));
    if start == s.len() {
        return None;
    }
    let mut i = start;
    let mut value: u32 = 0;
    assert(d.take(0) =~= Seq::<char>::empty());
    while i < s.len()
        invariant
            start <= i <= s.len(),
            d == s@.skip(start as int),
            d == unsigned_digits(s@),
            all_digits(d.take(i - start)),
            value as int == digits_value(d.take(i - start)),
        decreases s.len() - i,
    {
        let c = s[i];
        if c < '0' || c > '9' {
            assert(d[i - start] == c);
            assert(!all_digits(d));
            return None;
        }
        let digit = (c as u32) - ('0' as u32);
        assert(d.take(i - start + 1).drop_last() =~= d.take(i - start));
        assert(d.take(i - start + 1).last() == c);
        assert(all_digits(d.take(i - start + 1))) by {
            assert forall|j: int| 0 <= j < d.take(i - start + 1).len() implies '0' <= #[trigger] d.take(
                i - start + 1,
            )[j] <= '9' by {
                if j < i - start {
                    assert(d.take(i - start)[j] == d.take(i - start + 1)[j]);
                }
            }
        }
        assert(digits_value(d.take(i - start + 1)) == 10 * value + digit);
        if value > (u32::MAX - digit) / 10 {
            assert(digits_value(d.take(i - start + 1)) > u32::MAX) by (nonlinear_arith)
                requires
                    value > (u32::MAX - digit) / 10,
                    digits_value(d.take(i - start + 1)) == 10 * value + digit,
                    digit <= 9,
            ;
            proof {
                if all_digits(d) {
                    lemma_digits_bound(d, i - start + 1);
                    assert(digits_value(d) > u32::MAX);
                }
            }
            return None;
        }
        value = value * 10 + digit;
        i += 1;
    }
    assert(d.take(i - start) =~= d);
    Some(value)
}

/// `str::parse::<u64>` on a sequence of characters.
pub fn parse_u64(s: &Vec<char>) -> (r: Option<u64>)
    ensures
        r == parse_u64_of(s@),
{
    let start: usize = if s.len() > 0 && s[0] == '+' {
        1
    } else {
        0
    };
    let ghost d = s@.skip(start as int);
    assert(d =~= unsigned_digits(s@));
    if start == s.len() {
        return None;
    }
    let mut i = start;
    let mut value: u64 = 0;
    assert(d.take(0) =~= Seq::<char>::empty());
    while i < s.len()
        invariant
            start <= i <= s.len(),
            d == s@.skip(start as int),
            d == unsigned_digits(s@),
            all_digits(d.take(i - start)),
            value as int == digits_value(d.take(i - start)),
        decreases s.len() - i,
    {
        let c = s[i];
        if c < '0' || c > '9' {
            assert(d[i - start] == c);
            assert(!all_digits(d));
            return None;
        }
        let digit = (c as u64) - ('0' as u64);
        assert(d.take(i - start + 1).drop_last() =~= d.take(i - start));
        assert(d.take(i - start + 1).last() == c);
        assert(all_digits(d.take(i - start + 1))) by {
            assert forall|j: int| 0 <= j < d.take(i - start + 1).len() implies '0' <= #[trigger] d.take(
                i - start + 1,
            )[j] <= '9' by {
                if j < i - start {
                    assert(d.take(i - start)[j] == d.take(i - start + 1)[j]);
                }
            }
        }
        assert(digits_value(d.take(i - start + 1)) == 10 * value + digit);
        if value > (u64::MAX - digit) / 10 {
            assert(digits_value(d.take(i - start + 1)) > u64::MAX) by (nonlinear_arith)
                requires
                    value > (u64::MAX - digit) / 10,
                    digits_value(d.take(i - start + 1)) == 10 * value + digit,
                    digit <= 9,
            ;
            proof {
                if all_digits(d) {
                    lemma_digits_bound(d, i - start + 1);
                    assert(digits_value(d) > u64::MAX);
                }
            }
            return None;
        }
        value = value * 10 + digit;
        i += 1;
    }
    assert(d.take(i - start) =~= d);
    Some(value)
}

fn gb_from_bytes(b: u64) -> (r: u32)
    ensures
        r == gb_of_bytes(b),
{
    ((b / 1073741824) % 4294967296) as u32
}

/// Memory in GB from a byte count printed alone (`sysctl -n hw.memsize`);
/// `None` when the trimmed text is not a number.
pub fn memory_gb_from_bytes_text(text: &str) -> (r: Option<u32>)
    ensures
        r == match parse_u64_of(trim(text@)) {
            Some(b) => Some(gb_of_bytes(b)),
            None => None,
        },
{
    match parse_u64(&trim_chars(&chars_of(text))) {
        Some(b) => Some(gb_from_bytes(b)),
        None => None,
    }
}

/// The value on the first line of `text` that begins with `key`, with every
/// `key` removed and trimmed (the `Name=value` lines of `wmic`).
pub fn line_value(text: &str, key: &str) -> (r: Option<String>)
    ensures
        match r {
            Some(v) => line_value_in(split_lines(text@), key@) == Some(v@),
            None => line_value_in(split_lines(text@), key@) is None,
        },
{
    let lines = split_lines_chars(&chars_of(text));
    let k = chars_of(key);
    let mut i: usize = 0;
    assert(vec_views(lines@).skip(0) =~= vec_views(lines@));
    while i < lines.len()
        invariant
            i <= lines.len(),
            k@ == key@,
            line_value_in(vec_views(lines@), key@) == line_value_in(
                vec_views(lines@).skip(i as int),
                key@,
            ),
            vec_views(lines@) == split_lines(text@),
        decreases lines.len() - i,
    {
        assert(vec_views(lines@).skip(i as int)[0] == lines@[i as int]@);
        assert(vec_views(lines@).skip(i as int).drop_first() =~= vec_views(lines@).skip(i + 1));
        if starts_with_chars(&lines[i], &k) {
            return Some(string_of(&trim_chars(&remove_all_chars(&lines[i], &k))));
        }
        i += 1;
    }
    None
}

/// The CPU model in `wmic cpu get name /format:list` output, or `Unknown CPU`.
pub fn cpu_model_from_wmic(text: &str) -> (r: String)
    ensures
        match line_value_in(split_lines(text@), "Name="@) {
            Some(v) => r@ == v,
            None => r@ == "Unknown CPU"@,
        },
{
    match line_value(text, "Name=") {
        Some(v) => v,
        None => String::from_str("Unknown CPU"),
    }
}

/// The GPU in `wmic path win32_VideoController get name /format:list`
/// output, or `Unknown GPU`.
pub fn gpu_from_wmic(text: &str) -> (r: String)
    ensures
        match line_value_in(split_lines(text@), "Name="@) {
            Some(v) => r@ == v,
            None => r@ == "Unknown GPU"@,
        },
{
    match line_value(text, "Name=") {
        Some(v) => v,
        None => String::from_str("Unknown GPU"),
    }
}

/// Memory in GB from `wmic computersystem get TotalPhysicalMemory` output:
/// the byte count in whole gigabytes, 8 when no line gives it, `None` when it
/// is not a number.
pub fn memory_gb_from_wmic(text: &str) -> (r: Option<u32>)
    ensures
        r == match line_value_in(split_lines(text@), "TotalPhysicalMemory="@) {
            Some(v) => match parse_u64_of(v) {
                Some(b) => Some(gb_of_bytes(b)),
                None => None,
            },
            None => Some(8),
        },
{
    match line_value(text, "TotalPhysicalMemory=") {
        Some(v) => match parse_u64(&chars_of(v.as_str())) {
            Some(b) => Some(gb_from_bytes(b)),
            None => None,
        },
        None => Some(8),
    }
}

/// The GPU in `system_profiler SPDisplaysDataType` output, or `Unknown GPU`.
pub fn gpu_from_system_profiler(text: &str) -> (r: String)
    ensures
        match chipset_in(split_lines(text@)) {
            Some(g) => r@ == g,
            None => r@ == "Unknown GPU"@,
        },
{
    let lines = split_lines_chars(&chars_of(text));
    let key = chars_of("Chipset Model:");
    let mut i: usize = 0;
    assert(vec_views(lines@).skip(0) =~= vec_views(lines@));
    while i < lines.len()
        invariant
            i <= lines.len(),
            key@ == "Chipset Model:"@,
            chipset_in(vec_views(lines@)) == chipset_in(vec_views(lines@).skip(i as int)),
            vec_views(lines@) == split_lines(text@),
        decreases lines.len() - i,
    {
        assert(vec_views(lines@).skip(i as int)[0] == lines@[i as int]@);
        assert(vec_views(lines@).skip(i as int).drop_first() =~= vec_views(lines@).skip(i + 1));
        if contains_chars(&lines[i], &key) {
            match nth_segment_chars(&lines[i], ':', 1) {
                Some(seg) => {
                    return string_of(&trim_chars(&seg));
                },
                None => {},
            }
        }
        i += 1;
    }
    String::from_str("Unknown GPU")
}

/// The text of a tool's output without surrounding white space (the CPU
/// model `sysctl` prints).
pub fn trimmed_output(text: &str) -> (r: String)
    ensures
        r@ == trim(text@),
{
    string_of(&trim_chars(&chars_of(text)))
}

/// The system named by `sw_vers`: `macOS`, the product name and the version.
pub fn macos_description(product: &str, version: &str) -> (r: String)
    ensures
        r@ == "macOS "@ + trim(product@) + " "@ + trim(version@),
{
    let mut r = String::from_str("macOS ");
    r.append(trimmed_output(product).as_str());
    r.append(" ");
    r.append(trimmed_output(version).as_str());
    r
}

/// The system named by `ver`: `Windows` and the version text.
pub fn windows_description(version: &str) -> (r: String)
    ensures
        r@ == "Windows "@ + trim(version@),
{
    let mut r = String::from_str("Windows ");
    r.append(trimmed_output(version).as_str());
    r
}

/// Memory in GB from the text of `/proc/meminfo`.
pub fn memory_gb_from_meminfo(text: &str) -> (r: Option<u32>)
    ensures
        r == memory_gb_of(text@),
{
    let lines = split_lines_chars(&chars_of(text));
    let prefix = chars_of("MemTotal:");
    let mut i: usize = 0;
    assert(vec_views(lines@).skip(0) =~= vec_views(lines@));
    while i < lines.len()
        invariant
            i <= lines.len(),
            prefix@ == "MemTotal:"@,
            memory_in(vec_views(lines@)) == memory_in(vec_views(lines@).skip(i as int)),
            vec_views(lines@) == split_lines(text@),
        decreases lines.len() - i,
    {
        assert(vec_views(lines@).skip(i as int)[0] == lines@[i as int]@);
        assert(vec_views(lines@).skip(i as int).drop_first() =~= vec_views(lines@).skip(i + 1));
        let l = &lines[i];
        if starts_with_chars(l, &prefix) {
            let k = crate::project::first_white_at(l);
            match crate::project::word_after_at(l, k) {
                Some(w) => {
                    return match parse_u32(&w) {
                        Some(kb) => Some(kb / 1024 / 1024),
                        None => None,
                    };
                },
                None => {},
            }
        }
        i += 1;
    }
    Some(8)
}

/// The GPU named in the output of `lspci -v`.
pub fn gpu_from_lspci(text: &str) -> (r: Option<String>)
    ensures
        match r {
            Some(g) => lspci_gpu_in(split_lines(text@)) == Some(g@),
            None => lspci_gpu_in(split_lines(text@)) is None,
        },
{
    let lines = split_lines_chars(&chars_of(text));
    let vga = chars_of("VGA");
    let three_d = chars_of("3D");
    let display = chars_of("Display");
    let mut i: usize = 0;
    assert(vec_views(lines@).skip(0) =~= vec_views(lines@));
    while i < lines.len()
        invariant
            i <= lines.len(),
            vga@ == "VGA"@,
            three_d@ == "3D"@,
            display@ == "Display"@,
            lspci_gpu_in(vec_views(lines@)) == lspci_gpu_in(vec_views(lines@).skip(i as int)),
            vec_views(lines@) == split_lines(text@),
        decreases lines.len() - i,
    {
        assert(vec_views(lines@).skip(i as int)[0] == lines@[i as int]@);
        assert(vec_views(lines@).skip(i as int).drop_first() =~= vec_views(lines@).skip(i + 1));
        let l = &lines[i];
        if contains_chars(l, &vga) || contains_chars(l, &three_d) || contains_chars(l, &display) {
            match nth_segment_chars(l, ':', 2) {
                Some(seg) => {
                    return Some(string_of(&trim_chars(&seg)));
                },
                None => {},
            }
        }
        i += 1;
    }
    None
}

/// The renderer named in the output of `glxinfo -B`.
pub fn gpu_from_glxinfo(text: &str) -> (r: Option<String>)
    ensures
        match r {
            Some(g) => glx_gpu_in(split_lines(text@)) == Some(g@),
            None => glx_gpu_in(split_lines(text@)) is None,
        },
{
    let lines = split_lines_chars(&chars_of(text));
    let prefix = chars_of("OpenGL renderer string:");
    let mut i: usize = 0;
    assert(vec_views(lines@).skip(0) =~= vec_views(lines@));
    while i < lines.len()
        invariant
            i <= lines.len(),
            prefix@ == "OpenGL renderer string:"@,
            glx_gpu_in(vec_views(lines@)) == glx_gpu_in(vec_views(lines@).skip(i as int)),
            vec_views(lines@) == split_lines(text@),
        decreases lines.len() - i,
    {
        assert(vec_views(lines@).skip(i as int)[0] == lines@[i as int]@);
        assert(vec_views(lines@).skip(i as int).drop_first() =~= vec_views(lines@).skip(i + 1));
        if starts_with_chars(&lines[i], &prefix) {
            match nth_segment_chars(&lines[i], ':', 1) {
                Some(seg) => {
                    return Some(string_of(&trim_chars(&seg)));
                },
                None => {},
            }
        }
        i += 1;
    }
    None
}

/// The operating system described by `/etc/os-release`: `Linux - ` and its
/// pretty name, or `Linux`.
pub fn os_from_os_release(text: &str) -> (r: String)
    ensures
        match os_name_in(split_lines(text@)) {
            Some(n) => r@ == "Linux - "@ + n,
            None => r@ == "Linux"@,
        },
{
    let lines = split_lines_chars(&chars_of(text));
    let prefix = chars_of("PRETTY_NAME=");
    let quote = chars_of("\"");
    let mut i: usize = 0;
    assert(vec_views(lines@).skip(0) =~= vec_views(lines@));
    while i < lines.len()
        invariant
            i <= lines.len(),
            prefix@ == "PRETTY_NAME="@,
            quote@ == "\""@,
            os_name_in(vec_views(lines@)) == os_name_in(vec_views(lines@).skip(i as int)),
            vec_views(lines@) == split_lines(text@),
        decreases lines.len() - i,
    {
        assert(vec_views(lines@).skip(i as int)[0] == lines@[i as int]@);
        assert(vec_views(lines@).skip(i as int).drop_first() =~= vec_views(lines@).skip(i + 1));
        if starts_with_chars(&lines[i], &prefix) {
            let name = trim_chars(&remove_all_chars(&remove_all_chars(&lines[i], &prefix), &quote));
            let mut r = String::from_str("Linux - ");
            r.append(string_of(&name).as_str());
            return r;
        }
        i += 1;
    }
    String::from_str("Linux")
}

} // verus!
