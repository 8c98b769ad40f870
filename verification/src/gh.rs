//! The `gh` command: what it is called with, and what is made of its answers.
use crate::error::{fault_of, Error, Fault};
use crate::numeral::{decimal, i64_of, parse_i64, push_i64, push_u32};
use crate::outside::{json_strings, lossy_text, read_json_strings, utf8_lossy};
use crate::text::{has_text, text_of, texts, trim, trimmed};
use vstd::prelude::*;
use vstd::string::*;

verus! {

/// What a finished run of `gh` left behind.
pub struct GhOutput {
    /// Whether it ended with exit status zero.
    pub success: bool,
    pub stdout: Vec<u8>,
    pub stderr: Vec<u8>,
}

/// A run of `gh`: its output, or the system's reason why it could not be run.
pub type GhReply = Result<GhOutput, String>;

/// A call of `gh`.
pub struct GhCall {
    /// The arguments behind the command's name.
    pub args: Vec<String>,
}

impl View for GhCall {
    type V = Seq<Seq<char>>;

    open spec fn view(&self) -> Seq<Seq<char>> {
        texts(self.args@)
    }
}

/// The text of a result, and its failure, by their views.
pub open spec fn text_result(r: Result<String, Error>) -> Result<Seq<char>, Fault<Seq<char>>> {
    match r {
        Ok(s) => Ok(s@),
        Err(e) => Err(e@),
    }
}

/// What was printed, as text, without white space round it.
pub open spec fn printed(bytes: Seq<u8>) -> Seq<char> {
    trimmed(lossy_text(bytes))
}

/// What was printed, as text, without white space round it.
fn print_of(bytes: &Vec<u8>) -> (r: String)
    ensures
        r@ == printed(bytes@),
{
    let text = utf8_lossy(bytes.as_slice());
    trim(text.as_str()).to_owned()
}

// ---------------------------------------------------------------------------
// Calls
// ---------------------------------------------------------------------------

/// The arguments that ask the API for `endpoint` and filter the answer by `jq`.
pub open spec fn api_args(endpoint: Seq<char>, jq: Seq<char>) -> Seq<Seq<char>> {
    seq!["api"@, endpoint, "--jq"@, jq]
}

/// The arguments that ask for the repository of the working directory.
pub open spec fn repo_view_args() -> Seq<Seq<char>> {
    seq![
        "repo"@,
        "view"@,
        "--json"@,
        "nameWithOwner"@,
        "--jq"@,
        ".nameWithOwner"@,
    ]
}

/// The endpoint of one of the things that a repository numbers.
pub open spec fn numbered(repo: Seq<char>, things: Seq<char>, number: i64) -> Seq<char> {
    "repos/"@ + repo + things + decimal(number as int)
}

/// The endpoint of a pull request.
pub open spec fn pull_endpoint(repo: Seq<char>, number: i64) -> Seq<char> {
    numbered(repo, "/pulls/"@, number)
}

/// The endpoint of an issue, and of a pull request as an issue.
pub open spec fn issue_endpoint(repo: Seq<char>, number: i64) -> Seq<char> {
    numbered(repo, "/issues/"@, number)
}

/// The endpoint of a run of the actions.
pub open spec fn run_endpoint(repo: Seq<char>, number: i64) -> Seq<char> {
    numbered(repo, "/actions/runs/"@, number)
}

/// The endpoint of one page of the check runs of a commit, a hundred to a page.
pub open spec fn checks_endpoint(repo: Seq<char>, sha: Seq<char>, page: u32) -> Seq<char> {
    "repos/"@ + repo + "/commits/"@ + sha + "/check-runs?per_page=100&page="@ + decimal(page as int)
}

/// The endpoint of one page of the reviews of a pull request, a hundred to a page.
pub open spec fn reviews_endpoint(repo: Seq<char>, number: i64, page: u32) -> Seq<char> {
    pull_endpoint(repo, number) + "/reviews?per_page=100&page="@ + decimal(page as int)
}

/// Asks the API for `endpoint` and filters the answer by `jq`.
pub fn api_call(endpoint: &str, jq: &str) -> (r: GhCall)
    ensures
        r@ == api_args(endpoint@, jq@),
{
    let mut args: Vec<String> = Vec::new();
    args.push("api".to_owned());
    args.push(endpoint.to_owned());
    args.push("--jq".to_owned());
    args.push(jq.to_owned());
    proof {
        assert(texts(args@) =~= api_args(endpoint@, jq@));
    }
    GhCall { args }
}

/// Asks for the repository of the working directory.
pub fn repo_view_call() -> (r: GhCall)
    ensures
        r@ == repo_view_args(),
{
    let mut args: Vec<String> = Vec::new();
    args.push("repo".to_owned());
    args.push("view".to_owned());
    args.push("--json".to_owned());
    args.push("nameWithOwner".to_owned());
    args.push("--jq".to_owned());
    args.push(".nameWithOwner".to_owned());
    proof {
        assert(texts(args@) =~= repo_view_args());
    }
    GhCall { args }
}

fn numbered_call(repo: &str, things: &str, number: i64, jq: &str) -> (r: GhCall)
    ensures
        r@ == api_args(numbered(repo@, things@, number), jq@),
{
    let mut endpoint: String = "repos/".to_owned().concat(repo).concat(things);
    push_i64(&mut endpoint, number);
    api_call(endpoint.as_str(), jq)
}

/// Asks for a pull request.
pub fn pull_call(repo: &str, number: i64, jq: &str) -> (r: GhCall)
    ensures
        r@ == api_args(pull_endpoint(repo@, number), jq@),
{
    numbered_call(repo, "/pulls/", number, jq)
}

/// Asks for an issue, or for a pull request as an issue.
pub fn issue_call(repo: &str, number: i64, jq: &str) -> (r: GhCall)
    ensures
        r@ == api_args(issue_endpoint(repo@, number), jq@),
{
    numbered_call(repo, "/issues/", number, jq)
}

/// Asks for a run of the actions.
pub fn run_call(repo: &str, number: i64, jq: &str) -> (r: GhCall)
    ensures
        r@ == api_args(run_endpoint(repo@, number), jq@),
{
    numbered_call(repo, "/actions/runs/", number, jq)
}

/// Asks for one page of the check runs of a commit.
pub fn checks_call(repo: &str, sha: &str, page: u32) -> (r: GhCall)
    ensures
        r@ == api_args(checks_endpoint(repo@, sha@, page), "."@),
{
    let mut endpoint: String = "repos/".to_owned().concat(repo).concat("/commits/").concat(
        sha,
    ).concat("/check-runs?per_page=100&page=");
    push_u32(&mut endpoint, page);
    api_call(endpoint.as_str(), ".")
}

/// Asks for the states of one page of the reviews of a pull request.
pub fn reviews_call(repo: &str, number: i64, page: u32) -> (r: GhCall)
    ensures
        r@ == api_args(reviews_endpoint(repo@, number, page), "[.[].state]"@),
{
    let mut pull: String = "repos/".to_owned().concat(repo).concat("/pulls/");
    push_i64(&mut pull, number);
    let mut endpoint: String = pull.concat("/reviews?per_page=100&page=");
    push_u32(&mut endpoint, page);
    api_call(endpoint.as_str(), "[.[].state]")
}

// ---------------------------------------------------------------------------
// Answers
// ---------------------------------------------------------------------------

/// What an API call answered: what `gh` printed, or the failure.
pub open spec fn api_answer(reply: GhReply) -> Result<Seq<char>, Fault<Seq<char>>> {
    match reply {
        Err(reason) => Err(Fault::GhNotRun(reason@)),
        Ok(output) => if output.success {
            Ok(printed(output.stdout@))
        } else {
            Err(Fault::GhApiFailed(lossy_text(output.stderr@)))
        },
    }
}

/// What an API call answered: what `gh` printed, or the failure.
pub fn gh_api(reply: &GhReply) -> (r: Result<String, Error>)
    ensures
        text_result(r) == api_answer(*reply),
{
    match reply {
        Err(reason) => Err(Fault::GhNotRun(reason.clone())),
        Ok(output) => {
            if output.success {
                Ok(print_of(&output.stdout))
            } else {
                Err(Fault::GhApiFailed(utf8_lossy(output.stderr.as_slice())))
            }
        },
    }
}

/// The repository that `gh repo view` names; none where it fails.
pub open spec fn detected_repo(reply: GhReply) -> Option<Seq<char>> {
    match reply {
        Err(_) => None,
        Ok(output) => if output.success {
            Some(printed(output.stdout@))
        } else {
            None
        },
    }
}

/// The repository that `gh repo view` names; none where it fails.
pub fn detect_repo(reply: &GhReply) -> (r: Option<String>)
    ensures
        text_of(r) == detected_repo(*reply),
{
    match reply {
        Err(_) => None,
        Ok(output) => {
            if output.success {
                Some(print_of(&output.stdout))
            } else {
                None
            }
        },
    }
}

/// Whether `label` is among `labels`, where these could be read.
pub open spec fn names_label(labels: Option<Seq<Seq<char>>>, label: Seq<char>) -> bool {
    labels matches Some(names) && names.contains(label)
}

/// Whether `label` is among `labels`, where these could be read.
pub fn has_label(labels: &Option<Vec<String>>, label: &str) -> (r: bool)
    ensures
        r == names_label(
            match *labels {
                Some(v) => Some(texts(v@)),
                None => None,
            },
            label@,
        ),
{
    match labels {
        None => false,
        Some(names) => has_text(names, label),
    }
}

/// Whether a label is set at subscription: `gh` prints a JSON array of the names, and
/// anything else counts as no name.
pub open spec fn label_present(reply: GhReply, label: Seq<char>) -> Result<
    bool,
    Fault<Seq<char>>,
> {
    match reply {
        Err(reason) => Err(Fault::GhNotRun(reason@)),
        Ok(output) => if output.success {
            Ok(names_label(json_strings(printed(output.stdout@)), label))
        } else {
            Err(Fault::LabelCheckFailed)
        },
    }
}

/// Whether a label is set at subscription.
pub fn check_label_present(reply: &GhReply, label: &str) -> (r: Result<bool, Error>)
    ensures
        fault_of(r) == label_present(*reply, label@),
{
    match reply {
        Err(reason) => Err(Fault::GhNotRun(reason.clone())),
        Ok(output) => {
            if output.success {
                let labels = read_json_strings(print_of(&output.stdout).as_str());
                Ok(has_label(&labels, label))
            } else {
                Err(Fault::LabelCheckFailed)
            }
        },
    }
}

/// The number of comments at subscription: what `gh` prints has to be a number.
pub open spec fn comment_count(reply: GhReply) -> Result<i64, Fault<Seq<char>>> {
    match reply {
        Err(reason) => Err(Fault::GhNotRun(reason@)),
        Ok(output) => if output.success {
            match i64_of(printed(output.stdout@)) {
                Ok(count) => Ok(count),
                Err(e) => Err(Fault::InvalidCommentCount(e)),
            }
        } else {
            Err(Fault::CommentCountFailed)
        },
    }
}

/// The number of comments at subscription.
pub fn get_comment_count(reply: &GhReply) -> (r: Result<i64, Error>)
    ensures
        fault_of(r) == comment_count(*reply),
{
    match reply {
        Err(reason) => Err(Fault::GhNotRun(reason.clone())),
        Ok(output) => {
            if output.success {
                match parse_i64(print_of(&output.stdout).as_str()) {
                    Ok(count) => Ok(count),
                    Err(e) => Err(Fault::InvalidCommentCount(e)),
                }
            } else {
                Err(Fault::CommentCountFailed)
            }
        },
    }
}

} // verus!
