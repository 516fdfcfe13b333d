//! Ownership and memory-access rules for the local tosu process.
use vstd::prelude::*;

use crate::auth::client::text;
use crate::auth::loopback::{line_end, skip_space, skip_spaces, word_end, word_ends};
use crate::tosu::model::text_view;
use crate::text::{
    chars_range, trim, trim_bounds, chars_contain, chars_of, chars_occur_at, concat_chars, contains, is_space, lower,
    lower_chars, occurs_at, space, string_of,
};

verus! {

/// Whether tosu can read osu!'s memory on this system.
#[derive(Clone, Copy, Debug, PartialEq, Eq, Structural)]
pub enum TosuMemoryAccess {
    Unknown,
    NotApplicable,
    Available,
    PossiblyRequired,
    Unavailable,
}

impl Default for TosuMemoryAccess {
    fn default() -> (r: Self)
        ensures
            r == TosuMemoryAccess::Unknown,
    {
        TosuMemoryAccess::Unknown
    }
}

/// Why tosu could not be given access to osu!'s memory.
#[derive(Clone, Debug, PartialEq, Eq)]
pub enum MemoryAccessError {
    /// tosu was not found on `PATH`.
    NotInstalled,
    /// The installed tosu launcher does not expose a native binary.
    UnsupportedLauncher,
    /// pkexec or the libcap tools are missing.
    ToolsUnavailable,
    /// The system authorization prompt was cancelled or denied.
    AuthorizationDenied,
    /// The system authorization prompt could not be started; the text says why.
    Prompt(String),
    /// Memory access was not present after authorization.
    VerificationFailed,
    /// This platform does not use Linux ptrace access.
    UnsupportedPlatform,
}

/// Why tosu could not be launched or stopped.
#[derive(Clone, Debug, PartialEq, Eq)]
pub enum ProcessError {
    NotInstalled,
    AlreadyRunning,
    /// Launching or stopping the process failed; the text says why.
    Launch(String),
    NotOwned,
}

/// Who started the running tosu process.
#[derive(Clone, Copy, Debug, PartialEq, Eq, Structural)]
pub enum ProcessOwnership {
    External,
    CompanionOwned,
}

impl ProcessOwnership {
    /// Only a process that Companion launched may be terminated by it.
    pub fn may_terminate(self) -> (r: bool)
        ensures
            r == (self == ProcessOwnership::CompanionOwned),
    {
        match self {
            ProcessOwnership::CompanionOwned => true,
            ProcessOwnership::External => false,
        }
    }
}

/// The sentence describing a process error.
pub open spec fn process_error_text(error: ProcessError) -> Seq<char> {
    match error {
        ProcessError::NotInstalled => "tosu was not found on PATH"@,
        ProcessError::AlreadyRunning => "Companion already owns a running tosu process"@,
        ProcessError::Launch(reason) => "failed to launch tosu: "@ + reason@,
        ProcessError::NotOwned => "the running tosu process was not launched by Companion"@,
    }
}

impl ProcessError {
    /// The sentence describing this error.
    pub fn message(&self) -> (r: String)
        ensures
            r@ == process_error_text(*self),
    {
        match self {
            ProcessError::NotInstalled => text("tosu was not found on PATH"),
            ProcessError::AlreadyRunning => text("Companion already owns a running tosu process"),
            ProcessError::Launch(reason) => {
                let v = concat_chars(&chars_of("failed to launch tosu: "), &chars_of(reason.as_str()));
                string_of(&v)
            },
            ProcessError::NotOwned => text("the running tosu process was not launched by Companion"),
        }
    }
}

/// The sentence shown when tosu could not be given memory access.
pub open spec fn memory_access_text(error: MemoryAccessError) -> Seq<char> {
    match error {
        MemoryAccessError::NotInstalled => "Install tosu before granting osu! memory access."@,
        MemoryAccessError::UnsupportedLauncher => "Companion could not locate the native binary behind the installed tosu launcher."@,
        MemoryAccessError::ToolsUnavailable => "Install pkexec and libcap to grant tosu memory access securely."@,
        MemoryAccessError::AuthorizationDenied => "Memory access was not granted. The system authorization prompt was cancelled or denied."@,
        MemoryAccessError::Prompt(_) => "The system authorization prompt could not be opened."@,
        MemoryAccessError::VerificationFailed => "The system reported success, but tosu still lacks memory access."@,
        MemoryAccessError::UnsupportedPlatform => "This platform does not require Linux ptrace access."@,
    }
}

/// The sentence shown when tosu could not be given memory access.
pub fn memory_access_message(error: &MemoryAccessError) -> (r: String)
    ensures
        r@ == memory_access_text(*error),
{
    match error {
        MemoryAccessError::NotInstalled => text("Install tosu before granting osu! memory access."),
        MemoryAccessError::UnsupportedLauncher => text(
            "Companion could not locate the native binary behind the installed tosu launcher.",
        ),
        MemoryAccessError::ToolsUnavailable => text(
            "Install pkexec and libcap to grant tosu memory access securely.",
        ),
        MemoryAccessError::AuthorizationDenied => text(
            "Memory access was not granted. The system authorization prompt was cancelled or denied.",
        ),
        MemoryAccessError::Prompt(_) => text("The system authorization prompt could not be opened."),
        MemoryAccessError::VerificationFailed => text(
            "The system reported success, but tosu still lacks memory access.",
        ),
        MemoryAccessError::UnsupportedPlatform => text(
            "This platform does not require Linux ptrace access.",
        ),
    }
}

/// Whether a line that tosu printed reports that it could not read osu!'s
/// memory: ignoring ASCII case, it mentions a failed address read or the
/// ptrace capability, or both ptrace and a permission.
pub open spec fn reports_memory_access_failure(line: Seq<char>) -> bool {
    let l = lower(line);
    contains(l, "failed to read address"@) || contains(l, "cap_sys_ptrace"@) || (contains(
        l,
        "ptrace"@,
    ) && contains(l, "permission"@))
}

/// Whether a line that tosu printed reports that it could not read osu!'s
/// memory.
pub fn indicates_memory_access_failure(line: &str) -> (r: bool)
    ensures
        r == reports_memory_access_failure(line@),
{
    let l = lower_chars(&chars_of(line));
    chars_contain(&l, &chars_of("failed to read address")) || chars_contain(
        &l,
        &chars_of("cap_sys_ptrace"),
    ) || (chars_contain(&l, &chars_of("ptrace")) && chars_contain(&l, &chars_of("permission")))
}

/// Whether `c` ends an entry of a `getcap` listing: white space or a comma.
pub open spec fn entry_separator(c: char) -> bool {
    is_space(c) || c == ','
}

/// Whether a word of `s` ends before position `i`: some non-space character
/// is followed, still before `i`, by white space.
pub open spec fn past_first_word(s: Seq<char>, i: int) -> bool {
    exists|p: int, q: int| 0 <= p < q < i && !is_space(#[trigger] s[p]) && is_space(#[trigger] s[q])
}

/// Whether `s[a..b)` is a whole entry of a `getcap` listing: it is bounded
/// by separators (or the ends of `s`) and holds none.
pub open spec fn capability_entry(s: Seq<char>, a: int, b: int) -> bool {
    &&& 0 <= a <= b <= s.len()
    &&& (a == 0 || entry_separator(s[a - 1]))
    &&& (b == s.len() || entry_separator(s[b]))
    &&& forall|k: int| a <= k < b ==> !entry_separator(#[trigger] s[k])
}

/// Whether a capability entry grants `cap_sys_ptrace` with the effective
/// flag: its name, up to the first `=` or `+`, is `cap_sys_ptrace`, and the
/// flags after that sign include `e`.
pub open spec fn grants_effective_ptrace(entry: Seq<char>) -> bool {
    let n = "cap_sys_ptrace"@.len() as int;
    &&& entry.len() > n
    &&& occurs_at(entry, "cap_sys_ptrace"@, 0)
    &&& (entry[n] == '=' || entry[n] == '+')
    &&& exists|k: int| n + 1 <= k < entry.len() && entry[k] == 'e'
}

/// Whether `getcap` output lists the effective ptrace capability: some
/// entry after the first word (the file name) grants it.
pub open spec fn lists_effective_ptrace(output: Seq<char>) -> bool {
    exists|a: int, b: int|
        capability_entry(output, a, b) && past_first_word(output, a) && grants_effective_ptrace(
            #[trigger] output.subrange(a, b),
        )
}

/// The end of the entry that starts at `a`: the first separator at or after
/// `a`, or the end of `v`.
fn entry_end(v: &Vec<char>, a: usize) -> (b: usize)
    requires
        a <= v.len(),
    ensures
        a <= b <= v.len(),
        b == v.len() || entry_separator(v@[b as int]),
        forall|k: int| a <= k < b ==> !entry_separator(#[trigger] v@[k]),
{
    let mut b = a;
    while b < v.len() && !(space(v[b]) || v[b] == ',')
        invariant
            a <= b <= v.len(),
            forall|k: int| a <= k < b ==> !entry_separator(#[trigger] v@[k]),
        decreases v.len() - b,
    {
        b = b + 1;
    }
    b
}

/// Whether `c` occurs in `v[from..to)`.
fn holds_char(v: &Vec<char>, c: char, from: usize, to: usize) -> (r: bool)
    requires
        from <= to <= v.len(),
    ensures
        r == exists|k: int| from <= k < to && v@[k] == c,
{
    let mut k = from;
    while k < to
        invariant
            from <= k <= to <= v.len(),
            forall|m: int| from <= m < k ==> v@[m] != c,
        decreases to - k,
    {
        if v[k] == c {
            return true;
        }
        k = k + 1;
    }
    false
}

/// Whether `getcap` output lists `cap_sys_ptrace` with the effective flag
/// for the file it names.
pub fn has_effective_ptrace_capability(output: &str) -> (r: bool)
    ensures
        r == lists_effective_ptrace(output@),
{
    let v = chars_of(output);
    let ghost s = v@;
    let needle = chars_of("cap_sys_ptrace");
    let n = needle.len();
    let mut seen_word = false;
    let mut past_first = false;
    let mut a: usize = 0;
    while a < v.len()
        invariant
            s == v@,
            s == output@,
            n == "cap_sys_ptrace"@.len(),
            needle@ == "cap_sys_ptrace"@,
            a <= v.len(),
            seen_word == exists|p: int| 0 <= p < a && !is_space(#[trigger] s[p]),
            past_first == past_first_word(s, a as int),
            forall|x: int, b: int|
                0 <= x < a ==> !(capability_entry(s, x, b) && past_first_word(s, x)
                    && grants_effective_ptrace(#[trigger] s.subrange(x, b))),
        decreases v.len() - a,
    {
        let b = entry_end(&v, a);
        let starts = a == 0 || space(v[a - 1]) || v[a - 1] == ',';
        let ghost e = s.subrange(a as int, b as int);
        if starts && past_first && b - a > n {
            if chars_occur_at(&v, &needle, a) && (v[a + n] == '=' || v[a + n] == '+') {
                if holds_char(&v, 'e', a + n + 1, b) {
                    assert(e.subrange(0, n as int) == s.subrange(a as int, a + n));
                    assert(occurs_at(e, "cap_sys_ptrace"@, 0));
                    let ghost k = choose|k: int| a + n + 1 <= k < b && s[k] == 'e';
                    assert(e[k - a] == 'e');
                    assert(capability_entry(s, a as int, b as int));
                    assert(grants_effective_ptrace(s.subrange(a as int, b as int)));
                    assert(past_first_word(s, a as int));
                    assert(lists_effective_ptrace(s));
                    return true;
                }
            }
        }
        proof {
            assert forall|x: int, bb: int|
                0 <= x < a + 1 implies !(capability_entry(s, x, bb) && past_first_word(s, x)
                && grants_effective_ptrace(#[trigger] s.subrange(x, bb))) by {
                if x == a && capability_entry(s, x, bb) && past_first_word(s, x)
                    && grants_effective_ptrace(s.subrange(x, bb)) {
                    if bb < b {
                        assert(!entry_separator(s[bb]));
                    } else if bb > b {
                        assert(!entry_separator(s[b as int]));
                    }
                    assert(bb == b);
                    assert(starts);
                    assert(past_first);
                    assert(e.subrange(0, n as int) == s.subrange(a as int, a + n));
                    assert(occurs_at(s, needle@, a as int));
                    let k = choose|k: int| n + 1 <= k < e.len() && e[k] == 'e';
                    assert(s[a + k] == 'e');
                    assert(false);
                }
            }
        }
        let sp = space(v[a]);
        proof {
            if seen_word && sp {
                let p = choose|p: int| 0 <= p < a && !is_space(#[trigger] s[p]);
                assert(!is_space(s[p]) && is_space(s[a as int]));
                assert(past_first_word(s, a + 1));
            }
            if past_first_word(s, a + 1) && !past_first {
                let (p, q) = choose|p: int, q: int|
                    0 <= p < q < a + 1 && !is_space(#[trigger] s[p]) && is_space(#[trigger] s[q]);
                assert(q == a);
            }
            if past_first {
                let (p, q) = choose|p: int, q: int|
                    0 <= p < q < a && !is_space(#[trigger] s[p]) && is_space(#[trigger] s[q]);
                assert(past_first_word(s, a + 1));
            }
        }
        past_first = past_first || (seen_word && sp);
        seen_word = seen_word || !sp;
        a = a + 1;
    }
    false
}

/// Whether `c` is a quote character.
pub open spec fn is_quote(c: char) -> bool {
    c == '\'' || c == '"'
}

/// `w` without its leading quote characters.
pub open spec fn strip_leading_quotes(w: Seq<char>) -> Seq<char>
    decreases w.len(),
{
    if w.len() > 0 && is_quote(w[0]) {
        strip_leading_quotes(w.subrange(1, w.len() as int))
    } else {
        w
    }
}

/// `w` without its trailing quote characters.
pub open spec fn strip_trailing_quotes(w: Seq<char>) -> Seq<char>
    decreases w.len(),
{
    if w.len() > 0 && is_quote(w.last()) {
        strip_trailing_quotes(w.drop_last())
    } else {
        w
    }
}

/// `w` without leading and trailing quote characters
/// (`str::trim_matches(['\'', '"'])`).
pub open spec fn strip_quotes(w: Seq<char>) -> Seq<char> {
    strip_trailing_quotes(strip_leading_quotes(w))
}

/// The program that a line of a shell wrapper runs: after white space is
/// trimmed the line starts with `exec `, and the first word after it,
/// without quotes, is an absolute path.
pub open spec fn exec_target(line: Seq<char>) -> Option<Seq<char>> {
    let t = trim(line);
    let prefix = "exec "@;
    if t.len() >= prefix.len() && occurs_at(t, prefix, 0) {
        let rest = t.subrange(prefix.len() as int, t.len() as int);
        let a = skip_space(rest, 0);
        if a >= rest.len() {
            None
        } else {
            let token = strip_quotes(rest.subrange(a, word_end(rest, a)));
            if token.len() > 0 && token[0] == '/' {
                Some(token)
            } else {
                None
            }
        }
    } else {
        None
    }
}

/// The program run by the first line of `script`, from position `i` on,
/// that execs an absolute path.
pub open spec fn wrapper_target_from(script: Seq<char>, i: int) -> Option<Seq<char>>
    decreases script.len() - i,
{
    if i < 0 || i >= script.len() {
        None
    } else {
        let e = line_end(script, i);
        match exec_target(script.subrange(i, e)) {
            Some(t) => Some(t),
            None => if i <= e < script.len() {
                wrapper_target_from(script, e + 1)
            } else {
                None
            },
        }
    }
}

/// The bounds of `v[from..to)` without its leading and trailing quotes.
fn unquoted_bounds(v: &Vec<char>, from: usize, to: usize) -> (r: (usize, usize))
    requires
        from <= to <= v.len(),
    ensures
        from <= r.0 <= r.1 <= to,
        v@.subrange(r.0 as int, r.1 as int) == strip_quotes(v@.subrange(from as int, to as int)),
{
    let mut x = from;
    while x < to && (v[x] == '\'' || v[x] == '"')
        invariant
            from <= x <= to <= v.len(),
            strip_leading_quotes(v@.subrange(from as int, to as int)) == strip_leading_quotes(
                v@.subrange(x as int, to as int),
            ),
        decreases to - x,
    {
        assert(v@.subrange(x as int, to as int).subrange(1, to - x) =~= v@.subrange(
            x + 1,
            to as int,
        ));
        x = x + 1;
    }
    let mut y = to;
    assert(strip_leading_quotes(v@.subrange(x as int, to as int)) == v@.subrange(
        x as int,
        to as int,
    ));
    while y > x && (v[y - 1] == '\'' || v[y - 1] == '"')
        invariant
            from <= x <= y <= to <= v.len(),
            strip_quotes(v@.subrange(from as int, to as int)) == strip_trailing_quotes(
                v@.subrange(x as int, y as int),
            ),
        decreases y - x,
    {
        assert(v@.subrange(x as int, y as int).drop_last() =~= v@.subrange(x as int, y - 1));
        y = y - 1;
    }
    (x, y)
}

/// The end of the line of `v` that starts at `i`.
fn line_ends(v: &Vec<char>, i: usize) -> (r: usize)
    requires
        i <= v.len(),
    ensures
        i <= r <= v.len(),
        r as int == line_end(v@, i as int),
{
    let mut e = i;
    while e < v.len() && v[e] != '\n'
        invariant
            i <= e <= v.len(),
            line_end(v@, i as int) == line_end(v@, e as int),
        decreases v.len() - e,
    {
        e = e + 1;
    }
    e
}

/// The program that one line of a shell wrapper runs with `exec`, where it
/// is an absolute path.
fn line_exec_target(line: &Vec<char>) -> (r: Option<String>)
    ensures
        text_view(r) == exec_target(line@),
{
    let (a, b) = trim_bounds(line);
    let t = chars_range(line, a, b);
    let prefix = chars_of("exec ");
    if t.len() < prefix.len() || !chars_occur_at(&t, &prefix, 0) {
        return None;
    }
    let rest = chars_range(&t, prefix.len(), t.len());
    assert(rest@.subrange(0, rest@.len() as int) =~= rest@);
    let x = skip_spaces(&rest, 0, rest.len());
    if x >= rest.len() {
        return None;
    }
    let y = word_ends(&rest, x, rest.len());
    let (p, q) = unquoted_bounds(&rest, x, y);
    if p < q && rest[p] == '/' {
        Some(string_of(&chars_range(&rest, p, q)))
    } else {
        None
    }
}

/// The absolute path that a shell-script tosu launcher runs with `exec`: the
/// first line that execs an absolute path names it.
pub fn parse_wrapper_exec_target(script: &str) -> (r: Option<String>)
    ensures
        text_view(r) == wrapper_target_from(script@, 0),
{
    let v = chars_of(script);
    let mut i: usize = 0;
    while i < v.len()
        invariant
            v@ == script@,
            i <= v.len(),
            wrapper_target_from(v@, 0) == wrapper_target_from(v@, i as int),
        decreases v.len() - i,
    {
        let e = line_ends(&v, i);
        let line = chars_range(&v, i, e);
        match line_exec_target(&line) {
            Some(t) => return Some(t),
            None => {
                if e >= v.len() {
                    return None;
                }
                i = e + 1;
            },
        }
    }
    None
}

/// What was learned about tosu's capabilities on this system.
#[derive(Clone, Debug, PartialEq, Eq)]
pub enum CapabilityProbe {
    /// This is not Linux: ptrace access does not apply.
    NotLinux,
    /// No native tosu binary was found to inspect.
    NoTarget,
    /// No trusted `getcap` tool was found.
    NoTool,
    /// `getcap` could not be run or reported failure.
    Failed,
    /// `getcap` succeeded and printed this listing.
    Listed(String),
}

/// Whether tosu can read osu!'s memory, from what was learned of its
/// capabilities.
pub open spec fn access_of(probe: CapabilityProbe) -> TosuMemoryAccess {
    match probe {
        CapabilityProbe::NotLinux => TosuMemoryAccess::NotApplicable,
        CapabilityProbe::Listed(listing) => if lists_effective_ptrace(listing@) {
            TosuMemoryAccess::Available
        } else {
            TosuMemoryAccess::Unknown
        },
        _ => TosuMemoryAccess::Unavailable,
    }
}

/// Whether tosu can read osu!'s memory, from what was learned of its
/// capabilities.
pub fn memory_access_status(probe: &CapabilityProbe) -> (r: TosuMemoryAccess)
    ensures
        r == access_of(*probe),
{
    match probe {
        CapabilityProbe::NotLinux => TosuMemoryAccess::NotApplicable,
        CapabilityProbe::Listed(listing) => if has_effective_ptrace_capability(listing.as_str()) {
            TosuMemoryAccess::Available
        } else {
            TosuMemoryAccess::Unknown
        },
        _ => TosuMemoryAccess::Unavailable,
    }
}

/// The memory access shown for tosu: a failure that the running process
/// reported makes access possibly required, unless access is known to be
/// available.
pub fn observed_memory_access(status: TosuMemoryAccess, failure_reported: bool) -> (r:
    TosuMemoryAccess)
    ensures
        r == if failure_reported && status != TosuMemoryAccess::Available {
            TosuMemoryAccess::PossiblyRequired
        } else {
            status
        },
{
    if failure_reported && status != TosuMemoryAccess::Available {
        TosuMemoryAccess::PossiblyRequired
    } else {
        status
    }
}

/// The capability granted to tosu, in `setcap`'s notation: `cap_sys_ptrace`,
/// effective, inheritable and permitted.
pub open spec fn ptrace_capability() -> Seq<char> {
    "cap_sys_ptrace=eip"@
}

/// One argument of the authorization prompt that grants tosu the ptrace
/// capability.
#[derive(Clone, Debug, PartialEq, Eq)]
pub enum GrantArgument {
    /// The trusted `setcap` program, run by `pkexec`.
    Setcap,
    /// This text.
    Text(String),
    /// The native tosu binary.
    Target,
}

/// The arguments handed to `pkexec` to grant tosu memory access:
/// `setcap cap_sys_ptrace=eip <target>`.
pub fn grant_arguments() -> (r: Vec<GrantArgument>)
    ensures
        r@.len() == 3,
        r@[0] == GrantArgument::Setcap,
        r@[1] matches GrantArgument::Text(t) && t@ == ptrace_capability(),
        r@[2] == GrantArgument::Target,
{
    let mut arguments: Vec<GrantArgument> = Vec::new();
    arguments.push(GrantArgument::Setcap);
    arguments.push(GrantArgument::Text(text("cap_sys_ptrace=eip")));
    arguments.push(GrantArgument::Target);
    arguments
}

/// How far an attempt to grant tosu the ptrace capability got.
#[derive(Clone, Debug, PartialEq, Eq)]
pub enum GrantAttempt {
    /// This is not Linux.
    NotLinux,
    /// No native tosu binary was found; `launcher_found` tells whether a
    /// launcher was.
    NoTarget { launcher_found: bool },
    /// pkexec or setcap was not found among the trusted tools.
    NoTools,
    /// The authorization prompt could not be started; the text says why.
    PromptFailed(String),
    /// The prompt ran; `approved` is whether it succeeded and `access_after`
    /// the memory access found afterwards.
    Prompted { approved: bool, access_after: TosuMemoryAccess },
}

/// The result of an attempt to grant tosu memory access.
pub open spec fn grant_outcome(attempt: GrantAttempt) -> Result<(), MemoryAccessError> {
    match attempt {
        GrantAttempt::NotLinux => Err(MemoryAccessError::UnsupportedPlatform),
        GrantAttempt::NoTarget { launcher_found } => Err(
            if launcher_found {
                MemoryAccessError::UnsupportedLauncher
            } else {
                MemoryAccessError::NotInstalled
            },
        ),
        GrantAttempt::NoTools => Err(MemoryAccessError::ToolsUnavailable),
        GrantAttempt::PromptFailed(reason) => Err(MemoryAccessError::Prompt(reason)),
        GrantAttempt::Prompted { approved, access_after } => if !approved {
            Err(MemoryAccessError::AuthorizationDenied)
        } else if access_after != TosuMemoryAccess::Available {
            Err(MemoryAccessError::VerificationFailed)
        } else {
            Ok(())
        },
    }
}

/// The result of an attempt to grant tosu memory access: it succeeds only
/// when the prompt was approved and access is present afterwards.
pub fn grant_memory_access(attempt: GrantAttempt) -> (r: Result<(), MemoryAccessError>)
    ensures
        r == grant_outcome(attempt),
{
    match attempt {
        GrantAttempt::NotLinux => Err(MemoryAccessError::UnsupportedPlatform),
        GrantAttempt::NoTarget { launcher_found } => Err(
            if launcher_found {
                MemoryAccessError::UnsupportedLauncher
            } else {
                MemoryAccessError::NotInstalled
            },
        ),
        GrantAttempt::NoTools => Err(MemoryAccessError::ToolsUnavailable),
        GrantAttempt::PromptFailed(reason) => Err(MemoryAccessError::Prompt(reason)),
        GrantAttempt::Prompted { approved, access_after } => if !approved {
            Err(MemoryAccessError::AuthorizationDenied)
        } else if access_after != TosuMemoryAccess::Available {
            Err(MemoryAccessError::VerificationFailed)
        } else {
            Ok(())
        },
    }
}

/// Who owns the running tosu process, from whether Companion's own child
/// is still running.
pub fn ownership(owned_running: bool) -> (r: ProcessOwnership)
    ensures
        r == if owned_running {
            ProcessOwnership::CompanionOwned
        } else {
            ProcessOwnership::External
        },
{
    if owned_running {
        ProcessOwnership::CompanionOwned
    } else {
        ProcessOwnership::External
    }
}

/// Whether tosu may be launched: not while Companion's own process runs, and
/// only with an executable to run, which is returned.
pub fn launch_target(owned_running: bool, executable: Option<String>) -> (r: Result<
    String,
    ProcessError,
>)
    ensures
        r == if owned_running {
            Err::<String, ProcessError>(ProcessError::AlreadyRunning)
        } else {
            match executable {
                Some(path) => Ok::<String, ProcessError>(path),
                None => Err::<String, ProcessError>(ProcessError::NotInstalled),
            }
        },
{
    if owned_running {
        return Err(ProcessError::AlreadyRunning);
    }
    match executable {
        Some(path) => Ok(path),
        None => Err(ProcessError::NotInstalled),
    }
}

/// Whether tosu may be stopped: only a process that Companion launched and
/// that still runs.
pub fn stop_permitted(owned_running: bool) -> (r: Result<(), ProcessError>)
    ensures
        r == if ownership_spec(owned_running) == ProcessOwnership::CompanionOwned {
            Ok::<(), ProcessError>(())
        } else {
            Err::<(), ProcessError>(ProcessError::NotOwned)
        },
{
    if ownership(owned_running).may_terminate() {
        Ok(())
    } else {
        Err(ProcessError::NotOwned)
    }
}

/// Who owns the running tosu process.
pub open spec fn ownership_spec(owned_running: bool) -> ProcessOwnership {
    if owned_running {
        ProcessOwnership::CompanionOwned
    } else {
        ProcessOwnership::External
    }
}

} // verus!
