//! The tunnel: how it is launched, what the host keeps of it while it runs,
//! and how its public URL is read from what it prints.

use crate::error::{Failure, SupervisorError};
use crate::launch::{LaunchKind, LaunchPlan, LaunchPlanView, Service};
use crate::text::{copy_strings, decimal, decimal_string, texts};
use vstd::prelude::*;
use vstd::string::*;

verus! {

/// A running tunnel: the process and, once it has been seen in the process's
/// output, the public URL.
#[derive(Debug, PartialEq, Eq)]
pub struct TunnelHandle<H> {
    pub child: H,
    pub url: Option<String>,
}

/// The launch of the tunnel for the local port `port`:
/// `npx localtunnel --port <port>`, with its output piped back.
pub open spec fn tunnel_plan(port: u16) -> LaunchPlanView {
    LaunchPlanView {
        kind: LaunchKind::Tunnel,
        program: "npx"@,
        args: seq!["localtunnel"@, "--port"@, decimal(port as nat)],
        env: Seq::empty(),
        working_dir: None,
        capture_output: true,
        kill_on_drop: false,
    }
}

/// Whether `c` ends a word.
pub open spec fn is_space(c: char) -> bool {
    c == ' ' || c == '\t' || c == '\n' || c == '\r'
}

/// Whether `pattern` stands in `line` at `i`.
pub open spec fn stands_at(line: Seq<char>, i: int, pattern: Seq<char>) -> bool {
    0 <= i && i + pattern.len() <= line.len() && line.subrange(i, i + pattern.len()) == pattern
}

/// The length of the URL scheme that stands in `line` at `i`; 0 where none
/// does.
pub open spec fn scheme_len(line: Seq<char>, i: int) -> int {
    if stands_at(line, i, "https://"@) {
        8
    } else if stands_at(line, i, "http://"@) {
        7
    } else {
        0
    }
}

/// Whether a URL starts in `line` at `i`: a scheme stands there and at least
/// one character that is no space follows it.
pub open spec fn url_starts_at(line: Seq<char>, i: int) -> bool {
    scheme_len(line, i) > 0 && i + scheme_len(line, i) < line.len() && !is_space(
        line[i + scheme_len(line, i)],
    )
}

/// Whether the word that holds position `i` of `line` ends just before `j`.
pub open spec fn word_ends_at(line: Seq<char>, i: int, j: int) -> bool {
    &&& i <= j <= line.len()
    &&& j == line.len() || is_space(line[j])
    &&& forall|k: int| i <= k < j ==> !is_space(line[k])
}

/// Whether `url` is the first URL in `line`: the word from the first place
/// at which a URL starts.
pub open spec fn is_first_url(line: Seq<char>, url: Seq<char>) -> bool {
    exists|i: int, j: int|
        {
            &&& url_starts_at(line, i)
            &&& forall|k: int| 0 <= k < i ==> !url_starts_at(line, k)
            &&& word_ends_at(line, i, j)
            &&& url == line.subrange(i, j)
        }
}

/// Whether `line` holds no URL.
pub open spec fn has_no_url(line: Seq<char>) -> bool {
    forall|i: int| !url_starts_at(line, i)
}

/// The URL that a tunnel knows after it has printed `line`: the one it knew,
/// or else the first in `line`.
pub open spec fn url_after(known: Option<String>, line: Seq<char>, now: Option<String>) -> bool {
    match known {
        Some(url) => now == Some(url),
        None => match now {
            Some(url) => is_first_url(line, url@),
            None => has_no_url(line),
        },
    }
}

fn space(c: char) -> (r: bool)
    ensures
        r == is_space(c),
{
    c == ' ' || c == '\t' || c == '\n' || c == '\r'
}

fn pattern_stands_at(line: &str, len: usize, i: usize, pattern: &str) -> (r: bool)
    requires
        len == line@.len(),
        i <= len,
    ensures
        r == stands_at(line@, i as int, pattern@),
{
    let n = pattern.unicode_len();
    if n > len - i {
        return false;
    }
    let mut k: usize = 0;
    while k < n
        invariant
            k <= n,
            n == pattern@.len(),
            len == line@.len(),
            i + n <= len,
            forall|m: int| 0 <= m < k ==> line@[i + m] == pattern@[m],
        decreases n - k,
    {
        if line.get_char(i + k) != pattern.get_char(k) {
            assert(line@.subrange(i as int, i + n)[k as int] != pattern@[k as int]);
            return false;
        }
        k += 1;
    }
    assert(line@.subrange(i as int, i + n) =~= pattern@);
    true
}

fn scheme_len_at(line: &str, len: usize, i: usize) -> (n: usize)
    requires
        len == line@.len(),
        i <= len,
    ensures
        n == scheme_len(line@, i as int),
        i + n <= len,
{
    proof {
        reveal_strlit("https://");
        reveal_strlit("http://");
    }
    if pattern_stands_at(line, len, i, "https://") {
        8
    } else if pattern_stands_at(line, len, i, "http://") {
        7
    } else {
        0
    }
}

/// Reads the first URL in `line`, if it holds one.
pub fn extract_url(line: &str) -> (r: Option<String>)
    ensures
        r matches Some(url) ==> is_first_url(line@, url@),
        r is None ==> has_no_url(line@),
{
    let len = line.unicode_len();
    let mut i: usize = 0;
    while i < len
        invariant
            i <= len,
            len == line@.len(),
            forall|k: int| 0 <= k < i ==> !url_starts_at(line@, k),
        decreases len - i,
    {
        let n = scheme_len_at(line, len, i);
        if n > 0 && i + n < len && !space(line.get_char(i + n)) {
            assert(url_starts_at(line@, i as int));
            let mut j: usize = i + n;
            while j < len && !space(line.get_char(j))
                invariant
                    i + n <= j <= len,
                    len == line@.len(),
                    forall|k: int| i + n <= k < j ==> !is_space(line@[k]),
                decreases len - j,
            {
                j += 1;
            }
            proof {
                reveal_strlit("https://");
                reveal_strlit("http://");
                assert forall|k: int| i <= k < i + n implies !is_space(line@[k]) by {
                    if n == 8 {
                        assert(line@.subrange(i as int, i + 8)[k - i] == line@[k]);
                    } else {
                        assert(line@.subrange(i as int, i + 7)[k - i] == line@[k]);
                    }
                }
                assert(word_ends_at(line@, i as int, j as int));
            }
            let url = line.substring_char(i, j).to_owned();
            return Some(url);
        }
        i += 1;
    }
    None
}

/// Plans the launch of the tunnel for the local port `port`.
pub fn start(port: u16) -> (plan: LaunchPlan)
    ensures
        plan@ == tunnel_plan(port),
{
    let mut args: Vec<String> = Vec::new();
    args.push("localtunnel".to_owned());
    args.push("--port".to_owned());
    args.push(decimal_string(port));
    let plan = LaunchPlan {
        kind: LaunchKind::Tunnel,
        program: "npx".to_owned(),
        args,
        env: Vec::new(),
        working_dir: None,
        capture_output: true,
        kill_on_drop: false,
    };
    assert(plan@.args =~= seq!["localtunnel"@, "--port"@, decimal(port as nat)]);
    assert(plan@.env =~= Seq::empty());
    plan
}

/// Takes up what the host's attempt to create the tunnel's process came to:
/// the handle of the running tunnel, whose URL is not known yet, or the
/// failure with the system's reason and the command that was attempted.
pub fn started<H>(plan: &LaunchPlan, outcome: Result<H, String>) -> (r: Result<
    TunnelHandle<H>,
    SupervisorError,
>)
    ensures
        match outcome {
            Ok(child) => r == Ok::<TunnelHandle<H>, SupervisorError>(
                TunnelHandle { child, url: None },
            ),
            Err(reason) => r matches Err(e) && e@ == (Failure::Spawn {
                kind: plan.kind,
                reason: reason@,
                program: plan@.program,
                args: plan@.args,
            }),
        },
{
    match outcome {
        Ok(child) => Ok(TunnelHandle { child, url: None }),
        Err(reason) => {
            let args = copy_strings(&plan.args);
            assert(texts(args@) =~= plan@.args);
            Err(
                SupervisorError::Spawn {
                    kind: plan.kind,
                    reason,
                    program: plan.program.clone(),
                    args,
                },
            )
        },
    }
}

/// Takes up what the host's attempt to end the tunnel's process came to.
pub fn stop(outcome: Result<(), String>) -> (r: Result<(), SupervisorError>)
    ensures
        match outcome {
            Ok(_) => r is Ok,
            Err(reason) => r matches Err(e) && e@ == (Failure::Stop {
                service: Service::Tunnel,
                reason: reason@,
            }),
        },
{
    match outcome {
        Ok(_) => Ok(()),
        Err(reason) => Err(SupervisorError::Stop { service: Service::Tunnel, reason }),
    }
}

/// The public URL of the tunnel, once it has been seen.
pub fn get_url<H>(handle: &TunnelHandle<H>) -> (r: Option<String>)
    ensures
        r == handle.url,
{
    match &handle.url {
        Some(url) => Some(url.clone()),
        None => None,
    }
}

impl<H> TunnelHandle<H> {
    /// Takes up one line of the tunnel's output. The first URL seen is kept
    /// for good; later lines change nothing. Returns whether this line gave
    /// the URL.
    pub fn observe_line(&mut self, line: &str) -> (learned: bool)
        ensures
            final(self).child == old(self).child,
            url_after(old(self).url, line@, final(self).url),
            learned == (old(self).url is None && final(self).url is Some),
    {
        if self.url.is_some() {
            return false;
        }
        match extract_url(line) {
            Some(url) => {
                self.url = Some(url);
                true
            },
            None => false,
        }
    }
}

} // verus!
