//! Plain records the benchmark passes between its stages: a model turn, its
//! cost, the corpus split, and the sandbox's containment policy.

use vstd::prelude::*;
use crate::text::{push_char, push_str, string_of};
use crate::scan::chars_of;

verus! {

/// One model turn: the text it returned, what it cost, and how long it took.
pub struct Completion {
    pub text: String,
    pub prompt_tokens: u32,
    pub completion_tokens: u32,
    pub finish_reason: String,
    /// Total wall time of the request.
    pub elapsed_ms: u64,
}

/// What one graded unit cost: tokens in and out, and the time spent
/// generating and grading.
#[derive(Clone, Copy, Debug, PartialEq, Eq, Structural)]
pub struct Cost {
    pub prompt_tokens: u32,
    pub completion_tokens: u32,
    pub gen_ms: u64,
    pub grade_ms: u64,
}

/// The canonical corpus split: five core categories of forty families and
/// six probe categories of twelve, of which two probe categories are mined.
#[derive(Clone, Copy, Debug, PartialEq, Eq, Structural)]
pub struct Corpus {
    pub total: u32,
    pub synthetic: u32,
    pub mined: u32,
}

/// The canonical corpus split.
pub fn corpus() -> (c: Corpus)
    ensures
        c.total == 5 * 40 + 4 * 12 + 2 * 12,
        c.synthetic == 5 * 40 + 4 * 12,
        c.mined == 2 * 12,
        c.synthetic + c.mined == c.total,
{
    let core: u32 = 5 * 40;
    let probe_synth: u32 = 4 * 12;
    let probe_mined: u32 = 2 * 12;
    Corpus { total: core + probe_synth + probe_mined, synthetic: core + probe_synth, mined: probe_mined }
}

/// What containment a platform can apply to the code it grades.
#[derive(Clone, Copy, Debug, PartialEq, Eq, Structural)]
pub enum Containment {
    /// macOS seatbelt: network denied, writes confined to the workspace.
    Seatbelt,
    /// No containment on this platform: the caller must record that grading
    /// ran unsandboxed.
    Unsupported,
}

/// The containment for the operating system that `os` names (as
/// `std::env::consts::OS` names it): seatbelt on macOS, none elsewhere.
pub fn containment_for(os: &str) -> (r: Containment)
    ensures
        r == (if os@ == "macos"@ { Containment::Seatbelt } else { Containment::Unsupported }),
{
    let name = String::from_str(os);
    if crate::vocab::string_eq_str(&name, "macos") {
        Containment::Seatbelt
    } else {
        Containment::Unsupported
    }
}

/// A containment policy bound to one grading workspace: the canonical paths
/// a contained command may write under.
pub struct Policy {
    /// The workspace root.
    pub workspace: String,
    /// Cargo's home, writable so offline builds can lock the package cache.
    pub cargo_home: String,
}

/// The seatbelt profile of `ws` and `ch`: permit by default, then deny all
/// network and every write outside the workspace, cargo's home and the
/// temporary directories a build needs.
pub open spec fn profile_text(ws: Seq<char>, ch: Seq<char>) -> Seq<char> {
    "(version 1)\n(allow default)\n(deny network*)\n(deny file-write*)\n(allow file-write* (subpath \""@ + ws
        + "\"))\n(allow file-write* (subpath \""@ + ch
        + "\"))\n(allow file-write* (subpath \"/private/tmp\"))\n(allow file-write* (subpath \"/private/var/folders\"))\n(allow file-write-data (literal \"/dev/null\") (literal \"/dev/dtracehelper\") (literal \"/dev/urandom\"))\n"@
}

fn has_quote(s: &str) -> (r: bool)
    ensures
        r == s@.contains('"'),
{
    let v = crate::scan::chars_of(s);
    let mut i: usize = 0;
    while i < v.len()
        invariant
            i <= v.len(),
            v@ == s@,
            forall|k: int| 0 <= k < i ==> v@[k] != '"',
        decreases v.len() - i,
    {
        if v[i] == '"' {
            assert(s@[i as int] == '"');
            return true;
        }
        i = i + 1;
    }
    false
}

impl Policy {
    /// The seatbelt profile of this policy; `None` when a path holds a double
    /// quote, which would break out of the profile's string syntax.
    pub fn seatbelt_profile(&self) -> (r: Option<String>)
        ensures
            match r {
                Some(p) => !self.workspace@.contains('"') && !self.cargo_home@.contains('"') && p@
                    == profile_text(self.workspace@, self.cargo_home@),
                None => self.workspace@.contains('"') || self.cargo_home@.contains('"'),
            },
    {
        if has_quote(self.workspace.as_str()) || has_quote(self.cargo_home.as_str()) {
            return None;
        }
        let mut p = string_of(
            "(version 1)\n(allow default)\n(deny network*)\n(deny file-write*)\n(allow file-write* (subpath \"",
        );
        push_str(&mut p, self.workspace.as_str());
        push_str(&mut p, "\"))\n(allow file-write* (subpath \"");
        push_str(&mut p, self.cargo_home.as_str());
        push_str(
            &mut p,
            "\"))\n(allow file-write* (subpath \"/private/tmp\"))\n(allow file-write* (subpath \"/private/var/folders\"))\n(allow file-write-data (literal \"/dev/null\") (literal \"/dev/dtracehelper\") (literal \"/dev/urandom\"))\n",
        );
        Some(p)
    }
}

/// `s` without its trailing slashes.
pub open spec fn strip_slashes(s: Seq<char>) -> Seq<char>
    decreases s.len(),
{
    if s.len() > 0 && s.last() == '/' {
        strip_slashes(s.drop_last())
    } else {
        s
    }
}

/// The chat-completions endpoint of a server origin.
pub open spec fn chat_url_text(base: Seq<char>) -> Seq<char> {
    strip_slashes(base) + "/v1/chat/completions"@
}

/// The first `n` characters of `v`, as a string.
fn prefix_string(v: &Vec<char>, n: usize) -> (r: String)
    requires
        n <= v.len(),
    ensures
        r@ == v@.take(n as int),
{
    let mut s = String::new();
    let mut i: usize = 0;
    while i < n
        invariant
            i <= n <= v.len(),
            s@ == v@.take(i as int),
        decreases n - i,
    {
        push_char(&mut s, v[i]);
        assert(v@.take(i + 1) =~= v@.take(i as int).push(v@[i as int]));
        i = i + 1;
    }
    s
}

/// The chat-completions endpoint of the server at `base` (an origin such as
/// `http://localhost:8080`, with or without trailing slashes).
pub fn chat_url(base: &str) -> (r: String)
    ensures
        r@ == chat_url_text(base@),
{
    let v = chars_of(base);
    let mut n: usize = v.len();
    assert(v@.take(n as int) =~= v@);
    while n > 0 && v[n - 1] == '/'
        invariant
            n <= v.len(),
            strip_slashes(v@) == strip_slashes(v@.take(n as int)),
        decreases n,
    {
        assert(v@.take(n as int).drop_last() =~= v@.take(n - 1));
        n = n - 1;
    }
    let mut s = prefix_string(&v, n);
    push_str(&mut s, "/v1/chat/completions");
    s
}

/// The model turn a chat response describes: the first choice's text and
/// finish reason (`unknown` when the server gave none), with the usage and
/// the wall time; `None` when the response had no choices.
pub fn completion_of(
    first_choice: Option<(String, Option<String>)>,
    prompt_tokens: u32,
    completion_tokens: u32,
    elapsed_ms: u64,
) -> (r: Option<Completion>)
    ensures
        match first_choice {
            None => r is None,
            Some((text, reason)) => r matches Some(c) && c.text@ == text@ && c.finish_reason@ == (match reason {
                Some(f) => f@,
                None => "unknown"@,
            }) && c.prompt_tokens == prompt_tokens && c.completion_tokens == completion_tokens && c.elapsed_ms
                == elapsed_ms,
        },
{
    match first_choice {
        None => None,
        Some((text, reason)) => {
            let finish_reason = match reason {
                Some(f) => f,
                None => string_of("unknown"),
            };
            Some(Completion { text, prompt_tokens, completion_tokens, finish_reason, elapsed_ms })
        },
    }
}

/// The family part of a task id: everything before the first `/` (generated
/// ids are `family/seed`), or the whole id when it has none.
pub open spec fn family_part_text(task_id: Seq<char>) -> Seq<char>
    decreases task_id.len(),
{
    if task_id.len() == 0 || task_id[0] == '/' {
        Seq::empty()
    } else {
        seq![task_id[0]] + family_part_text(task_id.drop_first())
    }
}

/// The family part of a task id.
pub fn family_part(task_id: &str) -> (r: String)
    ensures
        r@ == family_part_text(task_id@),
{
    let v = chars_of(task_id);
    let mut n: usize = 0;
    while n < v.len() && v[n] != '/'
        invariant
            n <= v.len(),
            forall|k: int| 0 <= k < n ==> v@[k] != '/',
        decreases v.len() - n,
    {
        n = n + 1;
    }
    proof {
        lemma_family_part(v@, n as int);
    }
    prefix_string(&v, n)
}

proof fn lemma_family_part(t: Seq<char>, n: int)
    requires
        0 <= n <= t.len(),
        forall|k: int| 0 <= k < n ==> t[k] != '/',
        n == t.len() || t[n] == '/',
    ensures
        family_part_text(t) == t.take(n),
    decreases n,
{
    if n == 0 {
        assert(t.take(0) =~= Seq::<char>::empty());
    } else {
        lemma_family_part(t.drop_first(), n - 1);
        assert(seq![t[0]] + t.drop_first().take(n - 1) =~= t.take(n));
    }
}

} // verus!
