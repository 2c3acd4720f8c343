//! Feedback: the issue filed for a bug report or a feature request, and the
//! command's report.
use vstd::prelude::*;
use crate::commands::{CommandOutput, failure};
use crate::text::{concat2, same_text, views};

verus! {

/// The issue to file.
pub struct FeedbackIssue {
    pub title: String,
    pub body: String,
    pub labels: Vec<String>,
}

/// The answer given for `key`: the first pair with that key.
pub open spec fn answer(answers: Seq<(String, String)>, key: Seq<char>) -> Option<Seq<char>>
    decreases answers.len(),
{
    if answers.len() == 0 {
        None
    } else if answers[0].0@ == key {
        Some(answers[0].1@)
    } else {
        answer(answers.drop_first(), key)
    }
}

/// The answer for `key`, or `default` when there is none.
pub open spec fn answer_or(answers: Seq<(String, String)>, key: Seq<char>, default: Seq<char>) -> Seq<char> {
    match answer(answers, key) {
        Some(v) => v,
        None => default,
    }
}

fn lookup_or(answers: &Vec<(String, String)>, key: &str, default: &str) -> (r: String)
    ensures
        r@ == answer_or(answers@, key@, default@),
{
    let mut i: usize = 0;
    proof {
        assert(answers@.subrange(0, answers@.len() as int) =~= answers@);
    }
    while i < answers.len()
        invariant
            i <= answers.len(),
            answer(answers@, key@) == answer(answers@.subrange(i as int, answers@.len() as int), key@),
        decreases answers.len() - i,
    {
        proof {
            let rest = answers@.subrange(i as int, answers@.len() as int);
            assert(rest.drop_first() =~= answers@.subrange(i + 1, answers@.len() as int));
            assert(rest[0] == answers@[i as int]);
        }
        if same_text(answers[i].0.as_str(), key) {
            return answers[i].1.clone();
        }
        i += 1;
    }
    proof {
        assert(answers@.subrange(i as int, answers@.len() as int) =~= Seq::<(String, String)>::empty());
    }
    String::from_str(default)
}

/// The title of the issue.
pub open spec fn issue_title(kind: Seq<char>, answers: Seq<(String, String)>) -> Seq<char> {
    if kind == "bug"@ {
        "[Bug]: "@ + answer_or(answers, "title"@, "Untitled bug"@)
    } else {
        "[Feature]: "@ + answer_or(answers, "title"@, "Untitled feature"@)
    }
}

/// The body of the issue.
pub open spec fn issue_body(kind: Seq<char>, answers: Seq<(String, String)>) -> Seq<char> {
    if kind == "bug"@ {
        "## Description\n"@ + answer_or(answers, "description"@, ""@) + "\n\n## Steps to Reproduce\n"@
            + answer_or(answers, "steps_to_reproduce"@, ""@) + "\n\n## Expected Behavior\n"@ + answer_or(
            answers,
            "expected_behavior"@,
            ""@,
        )
    } else {
        "## Problem Statement\n"@ + answer_or(answers, "problem"@, ""@) + "\n\n## Proposed Solution\n"@
            + answer_or(answers, "solution"@, ""@) + "\n\n## Relevant Platforms\n"@ + answer_or(
            answers,
            "platforms"@,
            "all"@,
        )
    }
}

/// The labels of the issue.
pub open spec fn issue_labels(kind: Seq<char>) -> Seq<Seq<char>> {
    if kind == "bug"@ {
        seq!["bug"@, "triage"@]
    } else {
        seq!["feature"@, "enhancement"@]
    }
}

/// Builds the issue for a bug report (`kind` is `bug`) or else a feature
/// request from the answers given.
pub fn build_feedback_issue(kind: &str, answers: &Vec<(String, String)>) -> (r: FeedbackIssue)
    ensures
        r.title@ == issue_title(kind@, answers@),
        r.body@ == issue_body(kind@, answers@),
        views(r.labels@) == issue_labels(kind@),
{
    if same_text(kind, "bug") {
        let title = concat2("[Bug]: ", lookup_or(answers, "title", "Untitled bug").as_str());
        let mut body = concat2("## Description\n", lookup_or(answers, "description", "").as_str());
        body.append("\n\n## Steps to Reproduce\n");
        body.append(lookup_or(answers, "steps_to_reproduce", "").as_str());
        body.append("\n\n## Expected Behavior\n");
        body.append(lookup_or(answers, "expected_behavior", "").as_str());
        let labels = vec![String::from_str("bug"), String::from_str("triage")];
        proof {
            assert(views(labels@) =~= issue_labels(kind@));
        }
        FeedbackIssue { title, body, labels }
    } else {
        let title = concat2("[Feature]: ", lookup_or(answers, "title", "Untitled feature").as_str());
        let mut body = concat2("## Problem Statement\n", lookup_or(answers, "problem", "").as_str());
        body.append("\n\n## Proposed Solution\n");
        body.append(lookup_or(answers, "solution", "").as_str());
        body.append("\n\n## Relevant Platforms\n");
        body.append(lookup_or(answers, "platforms", "all").as_str());
        let labels = vec![String::from_str("feature"), String::from_str("enhancement")];
        proof {
            assert(views(labels@) =~= issue_labels(kind@));
        }
        FeedbackIssue { title, body, labels }
    }
}

/// The issue-form link for a bug report or else a feature request.
pub open spec fn template_url(kind: Seq<char>) -> Seq<char> {
    "https://github.com/prometheas/zen-browser-profile-snapshots/issues/new?template="@ + if kind
        == "bug"@ {
        "bug-report.yml"@
    } else {
        "feature-request.yml"@
    }
}

/// The issue-form link for a bug report or else a feature request.
pub fn feedback_template_url(kind: &str) -> (r: String)
    ensures
        r@ == template_url(kind@),
{
    let template = if same_text(kind, "bug") {
        "bug-report.yml"
    } else {
        "feature-request.yml"
    };
    concat2("https://github.com/prometheas/zen-browser-profile-snapshots/issues/new?template=", template)
}

/// The kinds of feedback.
pub open spec fn feedback_kind(kind: Seq<char>) -> bool {
    kind == "bug"@ || kind == "request"@
}

/// Whether `kind` names a kind of feedback.
pub fn is_feedback_kind(kind: &str) -> (r: bool)
    ensures
        r == feedback_kind(kind@),
{
    same_text(kind, "bug") || same_text(kind, "request")
}

/// How the feedback was delivered.
pub enum FeedbackDelivery {
    /// No GitHub client: the issue form was opened in a browser, or not.
    Browser { opened: bool },
    /// The GitHub client filed the issue (its link) or failed (its error).
    Issue(Result<String, String>),
}

/// The output of `feedback <kind>`, given the answers collected (or why
/// they could not be) and how the feedback was delivered.
pub fn run_feedback(kind: &str, answers: Result<(), String>, delivery: FeedbackDelivery) -> (r: CommandOutput)
    ensures
        !feedback_kind(kind@) ==> r.exit_code == 1 && r.stdout@.len() == 0 && r.stderr@
            == "Usage: zen-backup feedback <bug|request>"@,
        feedback_kind(kind@) ==> match answers {
            Err(e) => r.exit_code == 1 && r.stdout@.len() == 0 && r.stderr@ == e@,
            Ok(_) => match delivery {
                FeedbackDelivery::Browser { opened } => if opened {
                    r.exit_code == 0 && r.stderr@.len() == 0 && r.stdout@ == "Opened feedback URL: "@ + template_url(kind@)
                } else {
                    r.exit_code == 1 && r.stdout@.len() == 0 && r.stderr@ == "Failed to open browser.\nOpen this URL manually: "@
                        + template_url(kind@)
                },
                FeedbackDelivery::Issue(Ok(url)) => r.exit_code == 0 && r.stderr@.len() == 0 && r.stdout@
                    == "Created issue: "@ + url@,
                FeedbackDelivery::Issue(Err(e)) => r.exit_code == 1 && r.stdout@.len() == 0 && r.stderr@ == e@,
            },
        },
{
    if !is_feedback_kind(kind) {
        return failure("Usage: zen-backup feedback <bug|request>");
    }
    if let Err(e) = answers {
        return CommandOutput { exit_code: 1, stdout: String::new(), stderr: e };
    }
    match delivery {
        FeedbackDelivery::Browser { opened } => {
            let url = feedback_template_url(kind);
            if opened {
                CommandOutput {
                    exit_code: 0,
                    stdout: concat2("Opened feedback URL: ", url.as_str()),
                    stderr: String::new(),
                }
            } else {
                CommandOutput {
                    exit_code: 1,
                    stdout: String::new(),
                    stderr: concat2("Failed to open browser.\nOpen this URL manually: ", url.as_str()),
                }
            }
        },
        FeedbackDelivery::Issue(Ok(url)) => CommandOutput {
            exit_code: 0,
            stdout: concat2("Created issue: ", url.as_str()),
            stderr: String::new(),
        },
        FeedbackDelivery::Issue(Err(e)) => CommandOutput { exit_code: 1, stdout: String::new(), stderr: e },
    }
}

/// What serde_json reads from a text: `None` when it is not JSON, else the
/// members of the object it holds (none when it holds another value), in
/// the map's order, each with its text when the member is a JSON string.
pub uninterp spec fn json_members(s: Seq<char>) -> Option<Seq<(Seq<char>, Option<Seq<char>>)>>;

/// The contents of decoded members.
pub open spec fn member_views(v: Seq<(String, Option<String>)>) -> Seq<(Seq<char>, Option<Seq<char>>)> {
    v.map_values(
        |p: (String, Option<String>)|
            (
                p.0@,
                match p.1 {
                    Some(t) => Some(t@),
                    None => None,
                },
            ),
    )
}

/// The contents of answer pairs.
pub open spec fn pair_views(v: Seq<(String, String)>) -> Seq<(Seq<char>, Seq<char>)> {
    v.map_values(|p: (String, String)| (p.0@, p.1@))
}

/// Relies on `serde_json::from_str` into a `Value`, and on `Value::as_object`
/// and `Value::as_str`: what is read depends on the text alone, and the
/// members come from a map, so each key once.
#[verifier::external_body]
fn decode_members(text: &str) -> (r: Option<Vec<(String, Option<String>)>>)
    ensures
        match json_members(text@) {
            None => r is None,
            Some(m) => r is Some && member_views(r->0@) == m,
        },
        r matches Some(v) ==> distinct_keys(v@),
{
    let value: serde_json::Value = serde_json::from_str(text).ok()?;
    Some(match value.as_object() {
        Some(obj) => obj.iter().map(|(k, v)| (k.clone(), v.as_str().map(str::to_string))).collect(),
        None => Vec::new(),
    })
}

/// The answers among decoded members: those whose value is a string, in
/// order.
pub open spec fn string_answers(m: Seq<(Seq<char>, Option<Seq<char>>)>) -> Seq<(Seq<char>, Seq<char>)>
    decreases m.len(),
{
    if m.len() == 0 {
        Seq::empty()
    } else {
        let rest = string_answers(m.drop_last());
        match m.last().1 {
            Some(t) => rest.push((m.last().0, t)),
            None => rest,
        }
    }
}

/// Keys that occur once each.
pub open spec fn distinct_keys<V>(v: Seq<(String, V)>) -> bool {
    forall|a: int, b: int| 0 <= a < b < v.len() ==> (#[trigger] v[a]).0@ != (#[trigger] v[b]).0@
}

/// The answers among decoded members: those whose value is a string, in
/// order. Keys that occur once among the members occur once among the
/// answers.
pub fn answers_from_members(members: &Vec<(String, Option<String>)>) -> (r: Vec<(String, String)>)
    ensures
        pair_views(r@) == string_answers(member_views(members@)),
        distinct_keys(members@) ==> distinct_keys(r@),
{
    let ghost mv = member_views(members@);
    let mut out: Vec<(String, String)> = Vec::new();
    let mut i: usize = 0;
    proof {
        assert(mv.take(0) =~= Seq::<(Seq<char>, Option<Seq<char>>)>::empty());
        assert(pair_views(out@) =~= Seq::<(Seq<char>, Seq<char>)>::empty());
    }
    while i < members.len()
        invariant
            i <= members.len(),
            mv == member_views(members@),
            mv.len() == members@.len(),
            pair_views(out@) == string_answers(mv.take(i as int)),
            forall|a: int| 0 <= a < out@.len() ==> exists|b: int| 0 <= b < i && (#[trigger] out@[a]).0@ == members@[b].0@,
            distinct_keys(members@) ==> distinct_keys(out@),
        decreases members.len() - i,
    {
        let ghost t = mv.take(i as int + 1);
        let ghost before = pair_views(out@);
        let ghost old_out = out@;
        proof {
            assert(t.drop_last() =~= mv.take(i as int));
            assert(t.last() == mv[i as int]);
        }
        let (key, value) = &members[i];
        match value {
            Some(text) => {
                out.push((key.clone(), text.clone()));
                proof {
                    assert(pair_views(out@) =~= before.push((key@, text@)));
                    assert forall|a: int| 0 <= a < out@.len() implies exists|b: int|
                        0 <= b < i + 1 && (#[trigger] out@[a]).0@ == members@[b].0@ by {
                        if a < old_out.len() {
                            assert(out@[a] == old_out[a]);
                        } else {
                            assert(out@[a].0@ == members@[i as int].0@);
                        }
                    }
                    if distinct_keys(members@) {
                        assert forall|a: int, b: int| 0 <= a < b < out@.len() implies (#[trigger] out@[a]).0@
                            != (#[trigger] out@[b]).0@ by {
                            if b < old_out.len() {
                                assert(out@[a] == old_out[a] && out@[b] == old_out[b]);
                            } else {
                                assert(out@[a] == old_out[a]);
                                let c = choose|c: int| 0 <= c < i && old_out[a].0@ == members@[c].0@;
                                assert(members@[c].0@ != members@[i as int].0@);
                            }
                        }
                    }
                }
            },
            None => {},
        }
        i += 1;
    }
    proof {
        assert(mv.take(members.len() as int) =~= mv);
    }
    out
}

/// Reads prefilled answers from a JSON text: the string members of the
/// object it holds, each key once; an error when the text is not JSON.
pub fn feedback_answers(text: &str) -> (r: Result<Vec<(String, String)>, String>)
    ensures
        match (json_members(text@), r) {
            (None, Err(e)) => e@ == "invalid feedback answers json"@,
            (Some(m), Ok(v)) => pair_views(v@) == string_answers(m) && distinct_keys(v@),
            _ => false,
        },
{
    match decode_members(text) {
        Some(m) => Ok(answers_from_members(&m)),
        None => Err(String::from_str("invalid feedback answers json")),
    }
}

} // verus!
