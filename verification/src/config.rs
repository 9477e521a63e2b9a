//! Configuration resolution: validating the user-supplied CPU and memory
//! constraints and the workspace directory, and assembling them into a
//! resolved, well-formed `ContainerConfig`.
use vstd::prelude::*;
use vstd::string::StrSliceExecFns;
use vstd::string::StringExecFns;

verus! {

/// A decimal digit.
pub open spec fn is_digit_char(c: char) -> bool {
    '0' <= c && c <= '9'
}

/// A separator accepted between core indices: a comma or a space.
pub open spec fn is_sep_char(c: char) -> bool {
    c == ',' || c == ' '
}

/// A memory unit letter: kilo, mega or giga (case-sensitive, one letter).
pub open spec fn is_mem_unit_char(c: char) -> bool {
    c == 'K' || c == 'M' || c == 'G'
}

/// The CPU-list grammar: one non-negative integer, then any number of
/// (separator, integer) groups. Stated over characters, that is: non-empty,
/// every character a digit or a separator, the first and the last characters
/// digits, and no separator directly followed by another separator.
pub open spec fn cpu_spec_valid(s: Seq<char>) -> bool {
    &&& s.len() > 0
    &&& is_digit_char(s[0])
    &&& is_digit_char(s[s.len() - 1])
    &&& forall|i: int| 0 <= i < s.len() ==> is_digit_char(#[trigger] s[i]) || is_sep_char(s[i])
    &&& forall|i: int|
        0 <= i < s.len() - 1 && is_sep_char(#[trigger] s[i]) ==> is_digit_char(s[i + 1])
}

/// The memory-limit grammar: a positive integer followed by exactly one
/// unit letter. Over characters: at least two of them, all but the last
/// digits, at least one digit non-zero, and the last a unit letter.
pub open spec fn memory_spec_valid(s: Seq<char>) -> bool {
    &&& s.len() >= 2
    &&& forall|i: int| 0 <= i < s.len() - 1 ==> is_digit_char(#[trigger] s[i])
    &&& exists|i: int| 0 <= i < s.len() - 1 && #[trigger] s[i] != '0'
    &&& is_mem_unit_char(s[s.len() - 1])
}

fn char_is_digit(c: char) -> (r: bool)
    ensures
        r == is_digit_char(c),
{
    '0' <= c && c <= '9'
}

fn char_is_sep(c: char) -> (r: bool)
    ensures
        r == is_sep_char(c),
{
    c == ',' || c == ' '
}

fn char_is_mem_unit(c: char) -> (r: bool)
    ensures
        r == is_mem_unit_char(c),
{
    c == 'K' || c == 'M' || c == 'G'
}

/// Whether `s` matches the CPU-list grammar.
pub fn validate_cpu_spec(s: &str) -> (r: bool)
    ensures
        r == cpu_spec_valid(s@),
{
    let n = s.unicode_len();
    if n == 0 {
        return false;
    }
    let first = s.get_char(0);
    if !char_is_digit(first) {
        return false;
    }
    let mut prev = first;
    let mut i: usize = 1;
    while i < n
        invariant
            1 <= i <= n,
            n == s@.len(),
            prev == s@[i - 1],
            is_digit_char(s@[0]),
            forall|j: int| 0 <= j < i ==> is_digit_char(#[trigger] s@[j]) || is_sep_char(s@[j]),
            forall|j: int|
                0 <= j < i - 1 && is_sep_char(#[trigger] s@[j]) ==> is_digit_char(s@[j + 1]),
        decreases n - i,
    {
        let c = s.get_char(i);
        if !char_is_digit(c) && !char_is_sep(c) {
            return false;
        }
        if char_is_sep(prev) && char_is_sep(c) {
            return false;
        }
        prev = c;
        i = i + 1;
    }
    char_is_digit(prev)
}

/// Whether `s` matches the memory-limit grammar.
pub fn validate_memory_spec(s: &str) -> (r: bool)
    ensures
        r == memory_spec_valid(s@),
{
    let n = s.unicode_len();
    if n < 2 {
        return false;
    }
    let mut nonzero_seen = false;
    let mut i: usize = 0;
    while i < n - 1
        invariant
            0 <= i <= n - 1,
            n == s@.len(),
            n >= 2,
            forall|j: int| 0 <= j < i ==> is_digit_char(#[trigger] s@[j]),
            nonzero_seen == exists|j: int| 0 <= j < i && #[trigger] s@[j] != '0',
        decreases n - 1 - i,
    {
        let c = s.get_char(i);
        if !char_is_digit(c) {
            return false;
        }
        if c != '0' {
            nonzero_seen = true;
        }
        i = i + 1;
    }
    if !nonzero_seen {
        return false;
    }
    let last = s.get_char(n - 1);
    char_is_mem_unit(last)
}

/// A non-empty run of decimal digits: one integer token of the CPU list.
pub open spec fn is_digit_run(s: Seq<char>) -> bool {
    s.len() > 0 && forall|i: int| 0 <= i < s.len() ==> is_digit_char(#[trigger] s[i])
}

/// The CPU-list grammar as the rule reads: one leading integer, followed by
/// zero or more (separator, integer) groups.
pub open spec fn matches_cpu_grammar(s: Seq<char>) -> bool
    decreases s.len(),
{
    ||| is_digit_run(s)
    ||| exists|k: int|
        {
            &&& 0 < k < s.len()
            &&& is_digit_run(#[trigger] s.take(k))
            &&& is_sep_char(s[k])
            &&& matches_cpu_grammar(s.skip(k + 1))
        }
}

/// The index of the first separator in a string whose characters are all
/// digits or separators, scanning from a position that only digits precede.
proof fn first_sep_from(s: Seq<char>, j: int) -> (k: int)
    requires
        0 <= j < s.len(),
        forall|i: int| 0 <= i < s.len() ==> is_digit_char(#[trigger] s[i]) || is_sep_char(s[i]),
        forall|i: int| 0 <= i < j ==> is_digit_char(#[trigger] s[i]),
        exists|i: int| j <= i < s.len() && is_sep_char(#[trigger] s[i]),
    ensures
        j <= k < s.len(),
        is_sep_char(s[k]),
        forall|i: int| 0 <= i < k ==> is_digit_char(#[trigger] s[i]),
    decreases s.len() - j,
{
    if is_sep_char(s[j]) {
        j
    } else {
        let w = choose|i: int| j <= i < s.len() && is_sep_char(#[trigger] s[i]);
        assert(w != j);
        first_sep_from(s, j + 1)
    }
}

/// The two readings of the CPU-list grammar agree: the character-level
/// conditions that `validate_cpu_spec` decides hold exactly of the strings
/// the recursive grammar derives.
pub proof fn lemma_cpu_grammar_equivalence(s: Seq<char>)
    ensures
        cpu_spec_valid(s) <==> matches_cpu_grammar(s),
    decreases s.len(),
{
    if cpu_spec_valid(s) {
        if forall|i: int| 0 <= i < s.len() ==> is_digit_char(#[trigger] s[i]) {
            assert(is_digit_run(s));
        } else {
            let w = choose|i: int| !(0 <= i < s.len() ==> is_digit_char(#[trigger] s[i]));
            assert(is_sep_char(s[w]));
            let k = first_sep_from(s, 0);
            let rest = s.skip(k + 1);
            assert(is_digit_char(s[s.len() - 1]));
            assert(k < s.len() - 1);
            assert(is_digit_run(s.take(k)));
            assert(rest[0] == s[k + 1] && is_digit_char(rest[0]));
            assert(rest[rest.len() - 1] == s[s.len() - 1]);
            assert forall|i: int|
                0 <= i < rest.len() - 1 && is_sep_char(#[trigger] rest[i]) implies is_digit_char(
                rest[i + 1],
            ) by {
                assert(rest[i] == s[k + 1 + i] && rest[i + 1] == s[k + 1 + i + 1]);
            }
            assert(cpu_spec_valid(rest));
            lemma_cpu_grammar_equivalence(rest);
            assert(matches_cpu_grammar(s));
        }
    }
    if matches_cpu_grammar(s) {
        if is_digit_run(s) {
            assert(cpu_spec_valid(s));
        } else {
            let k = choose|k: int|
                {
                    &&& 0 < k < s.len()
                    &&& is_digit_run(#[trigger] s.take(k))
                    &&& is_sep_char(s[k])
                    &&& matches_cpu_grammar(s.skip(k + 1))
                };
            let rest = s.skip(k + 1);
            lemma_cpu_grammar_equivalence(rest);
            assert(cpu_spec_valid(rest));
            assert forall|i: int|
                0 <= i < s.len() implies is_digit_char(#[trigger] s[i]) || is_sep_char(s[i]) by {
                if i < k {
                    assert(is_digit_char(s.take(k)[i]));
                } else if i > k {
                    assert(s[i] == rest[i - k - 1]);
                }
            }
            assert(s[0] == s.take(k)[0] && is_digit_char(s[0]));
            assert(s[s.len() - 1] == rest[rest.len() - 1]);
            assert forall|i: int|
                0 <= i < s.len() - 1 && is_sep_char(#[trigger] s[i]) implies is_digit_char(
                s[i + 1],
            ) by {
                if i < k {
                    assert(is_digit_char(s.take(k)[i]));
                } else if i == k {
                    assert(s[i + 1] == rest[0] && is_digit_char(rest[0]));
                } else {
                    assert(s[i] == rest[i - k - 1]);
                    assert(s[i + 1] == rest[i - k]);
                }
            }
            assert(cpu_spec_valid(s));
        }
    }
}

/// The number that a run of decimal digits denotes.
pub open spec fn decimal_value(digits: Seq<char>) -> int
    decreases digits.len(),
{
    if digits.len() == 0 {
        0
    } else {
        decimal_value(digits.drop_last()) * 10 + (digits.last() as int - '0' as int)
    }
}

proof fn lemma_decimal_value_nonneg(digits: Seq<char>)
    requires
        forall|i: int| 0 <= i < digits.len() ==> is_digit_char(#[trigger] digits[i]),
    ensures
        decimal_value(digits) >= 0,
    decreases digits.len(),
{
    if digits.len() > 0 {
        lemma_decimal_value_nonneg(digits.drop_last());
    }
}

proof fn lemma_decimal_value_positive(digits: Seq<char>)
    requires
        forall|i: int| 0 <= i < digits.len() ==> is_digit_char(#[trigger] digits[i]),
        exists|i: int| 0 <= i < digits.len() && #[trigger] digits[i] != '0',
    ensures
        decimal_value(digits) > 0,
    decreases digits.len(),
{
    lemma_decimal_value_nonneg(digits.drop_last());
    if digits.last() == '0' {
        let i = choose|i: int| 0 <= i < digits.len() && #[trigger] digits[i] != '0';
        assert(digits.drop_last()[i] != '0');
        lemma_decimal_value_positive(digits.drop_last());
    }
}

/// A memory limit in the grammar denotes a positive quantity: the number
/// its digit run stands for is greater than zero.
pub proof fn lemma_memory_quantity_positive(s: Seq<char>)
    requires
        memory_spec_valid(s),
    ensures
        decimal_value(s.take(s.len() - 1)) > 0,
{
    let digits = s.take(s.len() - 1);
    let w = choose|i: int| 0 <= i < s.len() - 1 && #[trigger] s[i] != '0';
    assert(digits[w] != '0');
    lemma_decimal_value_positive(digits);
}

/// The CPU input that asks for all available threads.
pub open spec fn cpu_sentinel() -> Seq<char> {
    "All Threads"@
}

/// The memory input that asks for no memory ceiling.
pub open spec fn memory_sentinel() -> Seq<char> {
    "No Limit"@
}

/// An accepted CPU input: the sentinel, or a string in the CPU-list grammar.
pub open spec fn cpu_input_ok(cpus: Seq<char>) -> bool {
    cpus == cpu_sentinel() || cpu_spec_valid(cpus)
}

/// An accepted memory input: the sentinel, or a string in the memory-limit
/// grammar.
pub open spec fn memory_input_ok(memory: Seq<char>) -> bool {
    memory == memory_sentinel() || memory_spec_valid(memory)
}

/// The CPU cores a session may run on: every available thread, or the
/// validated list the user gave.
#[derive(Debug)]
pub enum CpuConstraint {
    Unrestricted,
    Cores(String),
}

impl CpuConstraint {
    /// A resolved CPU constraint: a restricted one carries a string in the
    /// CPU-list grammar.
    pub open spec fn wf(&self) -> bool {
        match self {
            CpuConstraint::Unrestricted => true,
            CpuConstraint::Cores(s) => cpu_spec_valid(s@),
        }
    }

    /// The constraint that resolving the given CPU input must produce.
    pub open spec fn resolves(&self, cpus: Seq<char>) -> bool {
        if cpus == cpu_sentinel() {
            self is Unrestricted
        } else {
            self matches CpuConstraint::Cores(s) && s@ == cpus
        }
    }
}

/// The memory ceiling of a session: none, or the validated quantity the
/// user gave.
#[derive(Debug)]
pub enum MemoryConstraint {
    Unrestricted,
    Limit(String),
}

impl MemoryConstraint {
    /// A resolved memory constraint: a restricted one carries a string in
    /// the memory-limit grammar.
    pub open spec fn wf(&self) -> bool {
        match self {
            MemoryConstraint::Unrestricted => true,
            MemoryConstraint::Limit(s) => memory_spec_valid(s@),
        }
    }

    /// The constraint that resolving the given memory input must produce.
    pub open spec fn resolves(&self, memory: Seq<char>) -> bool {
        if memory == memory_sentinel() {
            self is Unrestricted
        } else {
            self matches MemoryConstraint::Limit(s) && s@ == memory
        }
    }
}

/// Why configuration resolution rejected its input.
#[derive(Clone, Copy, Debug, PartialEq, Eq, Structural)]
pub enum ConfigError {
    InvalidCpu,
    InvalidMemory,
}

impl ConfigError {
    /// The human-readable report for this rejection.
    pub open spec fn message_spec(&self) -> Seq<char> {
        match self {
            ConfigError::InvalidCpu => "Invalid CPU format. Use a list of numbers separated by commas or spaces."@,
            ConfigError::InvalidMemory => "Invalid memory format. Use a number followed by K, M, or G."@,
        }
    }

    /// The human-readable report for this rejection.
    pub fn message(&self) -> (m: String)
        ensures
            m@ == self.message_spec(),
    {
        match self {
            ConfigError::InvalidCpu => String::from_str(
                "Invalid CPU format. Use a list of numbers separated by commas or spaces.",
            ),
            ConfigError::InvalidMemory => String::from_str(
                "Invalid memory format. Use a number followed by K, M, or G.",
            ),
        }
    }
}

/// Whether two string slices hold the same characters.
pub fn str_eq(a: &str, b: &str) -> (r: bool)
    ensures
        r == (a@ == b@),
{
    let na = a.unicode_len();
    let nb = b.unicode_len();
    if na != nb {
        return false;
    }
    let mut i: usize = 0;
    while i < na
        invariant
            0 <= i <= na,
            na == a@.len(),
            na == b@.len(),
            forall|j: int| 0 <= j < i ==> a@[j] == b@[j],
        decreases na - i,
    {
        if a.get_char(i) != b.get_char(i) {
            return false;
        }
        i = i + 1;
    }
    proof {
        assert(a@ =~= b@);
    }
    true
}

/// The workspace directory that a directory input resolves to: the input
/// verbatim, or `<cwd>/container` when the input is empty.
pub open spec fn resolved_directory(cwd: Seq<char>, directory: Seq<char>) -> Seq<char> {
    if directory.len() == 0 {
        cwd + "/container"@
    } else {
        directory
    }
}

/// The settings one session runs under, immutable once resolved.
#[derive(Debug)]
pub struct ContainerConfig {
    /// Absolute or relative path of the directory backing the session.
    pub workspace_path: String,
    /// Cores the session may run on.
    pub cpu: CpuConstraint,
    /// Memory ceiling of the session.
    pub memory: MemoryConstraint,
    /// Name of the transient service unit that runs the session.
    pub unit_name: String,
}

impl ContainerConfig {
    /// A resolved configuration: a non-empty workspace path, a non-empty
    /// unit name, and validated constraints. Only such a configuration may
    /// reach the session launcher.
    pub open spec fn wf(&self) -> bool {
        &&& self.workspace_path@.len() > 0
        &&& self.cpu.wf()
        &&& self.memory.wf()
        &&& self.unit_name@.len() > 0
    }

    /// Replace the default service-unit name, so that later callers can
    /// derive a distinct name per invocation.
    pub fn set_unit_name(&mut self, name: String)
        requires
            name@.len() > 0,
        ensures
            final(self).unit_name == name,
            final(self).workspace_path == old(self).workspace_path,
            final(self).cpu == old(self).cpu,
            final(self).memory == old(self).memory,
            old(self).wf() ==> final(self).wf(),
    {
        self.unit_name = name;
    }
}

/// How the session is isolated from the host filesystem: namespaces alone,
/// or namespaces plus a pivot of the filesystem root to the workspace, whose
/// content is first seeded from the given template directory.
#[derive(Debug)]
pub enum IsolationMode {
    NamespaceOnly,
    PivotRoot(String),
}

impl IsolationMode {
    /// The template directory this mode seeds the workspace from, if any.
    pub open spec fn template(&self) -> Option<Seq<char>> {
        match self {
            IsolationMode::NamespaceOnly => None,
            IsolationMode::PivotRoot(t) => Some(t@),
        }
    }
}

/// The default name under which the transient service unit runs.
pub open spec fn default_unit_name() -> Seq<char> {
    "rustainer"@
}

/// Resolve the raw user inputs into a validated configuration, or reject
/// them. The memory input is examined first, then the CPU input; nothing
/// outside the returned value is touched, so a rejected input leaves no
/// partial state anywhere.
pub fn resolve_config(cwd: String, directory: String, cpus: String, memory: String) -> (r: Result<
    ContainerConfig,
    ConfigError,
>)
    ensures
        r is Ok <==> cpu_input_ok(cpus@) && memory_input_ok(memory@),
        !memory_input_ok(memory@) ==> r == Err::<ContainerConfig, ConfigError>(
            ConfigError::InvalidMemory,
        ),
        memory_input_ok(memory@) && !cpu_input_ok(cpus@) ==> r == Err::<
            ContainerConfig,
            ConfigError,
        >(ConfigError::InvalidCpu),
        r matches Ok(c) ==> {
            &&& c.wf()
            &&& c.workspace_path@ == resolved_directory(cwd@, directory@)
            &&& c.cpu.resolves(cpus@)
            &&& c.memory.resolves(memory@)
            &&& c.unit_name@ == default_unit_name()
        },
{
    let memory_constraint = if str_eq(memory.as_str(), "No Limit") {
        MemoryConstraint::Unrestricted
    } else {
        if !validate_memory_spec(memory.as_str()) {
            return Err(ConfigError::InvalidMemory);
        }
        MemoryConstraint::Limit(memory)
    };
    let cpu_constraint = if str_eq(cpus.as_str(), "All Threads") {
        CpuConstraint::Unrestricted
    } else {
        if !validate_cpu_spec(cpus.as_str()) {
            return Err(ConfigError::InvalidCpu);
        }
        CpuConstraint::Cores(cpus)
    };
    let workspace_path = if directory.as_str().is_empty() {
        proof {
            reveal_strlit("/container");
        }
        cwd.concat("/container")
    } else {
        directory
    };
    proof {
        reveal_strlit("rustainer");
    }
    Ok(
        ContainerConfig {
            workspace_path,
            cpu: cpu_constraint,
            memory: memory_constraint,
            unit_name: String::from_str("rustainer"),
        },
    )
}

} // verus!
