//! Tool probing results and command templates: placeholder substitution on
//! shell-like words.
use vstd::prelude::*;

use crate::errors::{descriptor_error_text, DescriptorError};
use crate::text::{
    blank, concat, is_blank, lines_of, opt_chars, owned, replace_all, replace_str, split_lines,
    split_whitespace, trim, trim_start_matches, trim_start_str, trim_ws, views, ws_words,
};

verus! {

/// Result of probing whether a tool is installed and recent enough.
#[derive(Debug, Clone)]
pub enum ProbeResult {
    /// Tool is present and meets the version constraint.
    Available { version: String },
    /// Tool is present but older than required.
    Outdated { found: String, required: String },
    /// Tool binary not found in PATH.
    Missing,
    /// The probe failed or produced unrecognisable output.
    Error(String),
}

/// The words of a command line as `shlex::split` splits it (POSIX shell
/// quoting rules), or `None` when the line is not well quoted.
pub uninterp spec fn shlex_words(line: Seq<char>) -> Option<Seq<Seq<char>>>;

/// `shlex::split`: splits a command line into words. Its result is named
/// [`shlex_words`]; nothing more is claimed of it.
#[verifier::external_body]
fn shlex_split(line: &str) -> (r: Option<Vec<String>>)
    ensures
        match r {
            Some(v) => shlex_words(line@) == Some(views(v@)),
            None => shlex_words(line@) is None,
        },
{
    shlex::split(line)
}

/// The placeholder `{{key}}`.
pub open spec fn placeholder(key: Seq<char>) -> Seq<char> {
    "{{"@ + key + "}}"@
}

/// A word with every `{{key}}` replaced by its value, the variables taken
/// in order.
pub open spec fn substitute(word: Seq<char>, vars: Seq<(Seq<char>, Seq<char>)>) -> Seq<char>
    decreases vars.len(),
{
    if vars.len() == 0 {
        word
    } else {
        substitute(replace_all(word, placeholder(vars[0].0), vars[0].1), vars.skip(1))
    }
}

/// The characters of each variable name and value.
pub open spec fn var_views(vars: Seq<(&str, &str)>) -> Seq<(Seq<char>, Seq<char>)> {
    vars.map_values(|p: (&str, &str)| (p.0@, p.1@))
}

/// The outcome of building a command from a template: empty templates and
/// empty word lists are `EmptyCommand`, badly quoted templates are
/// `InvalidCommandTemplate`, otherwise the words with placeholders filled in.
pub open spec fn command_result_ok(
    template: Seq<char>,
    vars: Seq<(Seq<char>, Seq<char>)>,
    r: Result<Vec<String>, DescriptorError>,
) -> bool {
    if blank(template) {
        r matches Err(DescriptorError::EmptyCommand)
    } else {
        match shlex_words(template) {
            None => r matches Err(DescriptorError::InvalidCommandTemplate(m)) && m@
                == "shlex could not parse: "@ + template,
            Some(ws) => if ws.len() == 0 {
                r matches Err(DescriptorError::EmptyCommand)
            } else {
                r matches Ok(v) && views(v@) == ws.map_values(|w: Seq<char>| substitute(w, vars))
            },
        }
    }
}

fn substitute_word(word: &String, vars: &[(&str, &str)]) -> (r: String)
    ensures
        r@ == substitute(word@, var_views(vars@)),
{
    let mut out = word.clone();
    let n = vars.len();
    assert(var_views(vars@).skip(0) =~= var_views(vars@));
    for i in 0..n
        invariant
            n == vars@.len(),
            substitute(word@, var_views(vars@)) == substitute(out@, var_views(vars@).skip(i as int)),
    {
        let (key, value) = vars[i];
        let open = concat("{{", key);
        let ph = concat(open.as_str(), "}}");
        proof {
            reveal_strlit("{{");
            assert(ph@.len() > 0);
            assert(var_views(vars@).skip(i as int).skip(1) =~= var_views(vars@).skip(i + 1));
            assert(var_views(vars@).skip(i as int)[0] == (key@, value@));
        }
        out = replace_str(out.as_str(), ph.as_str(), value);
    }
    assert(var_views(vars@).skip(n as int) =~= Seq::<(Seq<char>, Seq<char>)>::empty());
    out
}

/// Builds an argument vector from a command template: the template is split
/// into shell-like words first, then each `{{key}}` placeholder is replaced
/// by its value inside each word, so values with spaces or shell
/// metacharacters stay single, verbatim arguments.
pub fn build_command(cmd_template: &str, vars: &[(&str, &str)]) -> (r: Result<
    Vec<String>,
    DescriptorError,
>)
    ensures
        command_result_ok(cmd_template@, var_views(vars@), r),
{
    if is_blank(cmd_template) {
        return Err(DescriptorError::EmptyCommand);
    }
    let tokens = match shlex_split(cmd_template) {
        Some(t) => t,
        None => {
            return Err(
                DescriptorError::InvalidCommandTemplate(
                    concat("shlex could not parse: ", cmd_template),
                ),
            );
        },
    };
    if tokens.len() == 0 {
        return Err(DescriptorError::EmptyCommand);
    }
    let mut result: Vec<String> = Vec::new();
    let n = tokens.len();
    let ghost ws = views(tokens@);
    for i in 0..n
        invariant
            n == tokens@.len(),
            ws == views(tokens@),
            views(result@) == ws.take(i as int).map_values(
                |w: Seq<char>| substitute(w, var_views(vars@)),
            ),
    {
        let w = substitute_word(&tokens[i], vars);
        proof {
            assert(views(result@.push(w)) =~= views(result@).push(w@));
            assert(ws.take(i + 1).map_values(|w: Seq<char>| substitute(w, var_views(vars@)))
                =~= ws.take(i as int).map_values(|w: Seq<char>| substitute(w, var_views(vars@))).push(
                w@,
            ));
        }
        result.push(w);
    }
    assert(ws.take(n as int) =~= ws);
    Ok(result)
}

/// The words a template builds into, or `None` when it builds into an
/// error.
pub open spec fn built_words(template: Seq<char>, vars: Seq<(Seq<char>, Seq<char>)>) -> Option<
    Seq<Seq<char>>,
> {
    if blank(template) {
        None
    } else {
        match shlex_words(template) {
            None => None,
            Some(ws) => if ws.len() == 0 {
                None
            } else {
                Some(ws.map_values(|w: Seq<char>| substitute(w, vars)))
            },
        }
    }
}

/// The message of the error a template that does not build into words
/// gives.
pub open spec fn build_error_text(template: Seq<char>) -> Seq<char> {
    if !blank(template) && shlex_words(template) is None {
        "Invalid command template: shlex could not parse: "@ + template
    } else {
        "Empty command in descriptor"@
    }
}

/// Values never split or merge words: a template builds into exactly as
/// many words as it splits into, each word with its placeholders filled
/// in, so a value holding spaces or shell metacharacters stays inside its
/// one word.
pub proof fn lemma_values_stay_in_their_words(template: Seq<char>, vars: Seq<(Seq<char>, Seq<char>)>)
    ensures
        built_words(template, vars) matches Some(ws) ==> {
            &&& shlex_words(template) is Some
            &&& ws.len() == shlex_words(template)->0.len()
            &&& forall|i: int|
                0 <= i < ws.len() ==> #[trigger] ws[i] == substitute(shlex_words(template)->0[i], vars)
        },
{
}

/// What a built command is, in words and in error message.
pub proof fn lemma_command_result(
    template: Seq<char>,
    vars: Seq<(Seq<char>, Seq<char>)>,
    r: Result<Vec<String>, DescriptorError>,
)
    requires
        command_result_ok(template, vars, r),
    ensures
        r is Ok <==> built_words(template, vars) is Some,
        r matches Ok(v) ==> built_words(template, vars) == Some(views(v@)),
        r matches Err(e) ==> descriptor_error_text(e) == build_error_text(template),
{
    reveal_strlit("Invalid command template: ");
    reveal_strlit("shlex could not parse: ");
    reveal_strlit("Invalid command template: shlex could not parse: ");
    if let Err(DescriptorError::InvalidCommandTemplate(m)) = r {
        assert("Invalid command template: "@ + ("shlex could not parse: "@ + template)
            =~= "Invalid command template: shlex could not parse: "@ + template);
    }
}

/// The canonical text of the semantic version `text` parses into
/// (`semver::Version::parse`, then its display), or `None` when it does
/// not parse.
pub uninterp spec fn semver_display(text: Seq<char>) -> Option<Seq<char>>;

/// Whether `semver::VersionReq::parse` accepts a requirement.
pub uninterp spec fn semver_req_parses(req: Seq<char>) -> bool;

/// Whether a version satisfies a requirement (`semver::VersionReq::matches`).
pub uninterp spec fn semver_req_matches(req: Seq<char>, version: Seq<char>) -> bool;

/// `semver::Version::parse` followed by the version's display, its result
/// named [`semver_display`].
#[verifier::external_body]
fn parse_semver(text: &str) -> (r: Option<String>)
    ensures
        opt_chars(r) == semver_display(text@),
{
    match semver::Version::parse(text) {
        Ok(v) => Some(v.to_string()),
        Err(_) => None,
    }
}

/// `semver::VersionReq::parse` of `req` and, when it parses,
/// `VersionReq::matches` of the version `version` parses into; their
/// results named [`semver_req_parses`] and [`semver_req_matches`].
#[verifier::external_body]
fn req_matches(req: &str, version: &str) -> (r: Option<bool>)
    requires
        semver_display(version@) is Some,
    ensures
        r is Some <==> semver_req_parses(req@),
        r matches Some(b) ==> b == semver_req_matches(req@, version@),
{
    let v = match semver::Version::parse(version) {
        Ok(v) => v,
        Err(_) => return None,
    };
    match semver::VersionReq::parse(req) {
        Ok(q) => Some(q.matches(&v)),
        Err(_) => None,
    }
}

/// A word with its leading `v`s removed (`v1.2.3` is version `1.2.3`).
pub open spec fn unprefixed(word: Seq<char>) -> Seq<char> {
    trim_start_str(word, "v"@)
}

/// The first word that is a semantic version once its leading `v`s are
/// removed, without them.
pub open spec fn first_version(words: Seq<Seq<char>>) -> Option<Seq<char>>
    decreases words.len(),
{
    if words.len() == 0 {
        None
    } else if semver_display(unprefixed(words[0])) is Some {
        Some(unprefixed(words[0]))
    } else {
        first_version(words.skip(1))
    }
}

/// The probe result for a tool's version output: with no version in it,
/// the tool counts as available with the output's first line (or
/// `unknown`) as its version; else the version found is checked against
/// the requirement (an unreadable requirement accepts every version).
pub open spec fn version_probe_ok(output: Seq<char>, req: Seq<char>, r: ProbeResult) -> bool {
    match first_version(ws_words(output)) {
        None => r matches ProbeResult::Available { version } && version@ == (if lines_of(
            output,
        ).len() > 0 {
            lines_of(output)[0]
        } else {
            "unknown"@
        }),
        Some(vs) => {
            let canon = semver_display(vs)->0;
            if !semver_req_parses(req) || semver_req_matches(req, vs) {
                r matches ProbeResult::Available { version } && version@ == canon
            } else {
                r matches ProbeResult::Outdated { found, required } && found@ == canon
                    && required@ == req
            }
        },
    }
}

/// Finds the version in a tool's output and compares it with the
/// requirement (e.g. `>=1.60`).
pub fn parse_version_result(output: &str, version_req: &str) -> (r: ProbeResult)
    ensures
        version_probe_ok(output@, version_req@, r),
{
    let words = split_whitespace(output);
    let n = words.len();
    let mut i: usize = 0;
    let ghost ws = views(words@);
    assert(ws.skip(0) =~= ws);
    while i < n
        invariant
            n == words@.len(),
            ws == views(words@),
            i <= n,
            first_version(ws.skip(i as int)) == first_version(ws_words(output@)),
        decreases n - i,
    {
        let cleaned = trim_start_matches(words[i].as_str(), "v");
        assert(ws.skip(i as int)[0] == words@[i as int]@);
        match parse_semver(cleaned.as_str()) {
            Some(canon) => {
                let ghost vs = cleaned@;
                assert(first_version(ws_words(output@)) == Some(vs));
                return match req_matches(version_req, cleaned.as_str()) {
                    None => ProbeResult::Available { version: canon },
                    Some(true) => ProbeResult::Available { version: canon },
                    Some(false) => ProbeResult::Outdated { found: canon, required: owned(version_req) },
                };
            },
            None => {
                assert(ws.skip(i as int).skip(1) =~= ws.skip(i + 1));
            },
        }
        i = i + 1;
    }
    assert(ws.skip(n as int) =~= Seq::<Seq<char>>::empty());
    let lines = split_lines(output);
    proof {
        reveal_strlit("unknown");
    }
    if lines.len() > 0 {
        ProbeResult::Available { version: lines[0].clone() }
    } else {
        ProbeResult::Available { version: owned("unknown") }
    }
}

/// The words of a probe's check command, or the message of why it cannot
/// be run (not well quoted, or no words).
pub fn probe_check_words(check: &str) -> (r: Result<Vec<String>, String>)
    ensures
        match shlex_words(check@) {
            Some(ws) if ws.len() > 0 => r matches Ok(v) && views(v@) == ws,
            _ => r matches Err(m) && m@ == "invalid check command: "@ + check@,
        },
{
    match shlex_split(check) {
        Some(t) => {
            if t.len() > 0 {
                Ok(t)
            } else {
                Err(concat("invalid check command: ", check))
            }
        },
        None => Err(concat("invalid check command: ", check)),
    }
}

/// How running a scanner's check command went.
pub enum CheckRun {
    /// The program was not found.
    NotFound,
    /// It could not be run for another reason.
    Failed(String),
    /// It ran; its output streams, decoded.
    Ran { stdout: String, stderr: String },
}

/// The probe result of a scanner from how its check command ran: missing
/// when not found, an error when it failed to run, else the version check
/// on its trimmed stdout followed by stderr.
pub fn scanner_probe_result(run: CheckRun, version_req: &str) -> (r: ProbeResult)
    ensures
        match run {
            CheckRun::NotFound => r is Missing,
            CheckRun::Failed(m) => r matches ProbeResult::Error(e) && e@ == m@,
            CheckRun::Ran { stdout, stderr } => version_probe_ok(
                trim_ws(stdout@ + stderr@),
                version_req@,
                r,
            ),
        },
{
    match run {
        CheckRun::NotFound => ProbeResult::Missing,
        CheckRun::Failed(m) => ProbeResult::Error(m),
        CheckRun::Ran { stdout, stderr } => {
            let raw = concat(stdout.as_str(), stderr.as_str());
            let t = trim(raw.as_str());
            parse_version_result(t.as_str(), version_req)
        },
    }
}

/// The probe result of a fixer step: available (with no version) when its
/// program is on the `PATH`, missing otherwise.
pub fn fixer_probe_result(found: bool) -> (r: ProbeResult)
    ensures
        found ==> (r matches ProbeResult::Available { version } && version@.len() == 0),
        !found ==> r is Missing,
{
    if found {
        ProbeResult::Available { version: String::new() }
    } else {
        ProbeResult::Missing
    }
}

} // verus!
