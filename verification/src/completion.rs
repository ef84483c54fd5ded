use vstd::prelude::*;

use crate::text::{
    blank, contains_seq, decimal, drop_newlines, is_blank, lemma_drop_newlines_free,
    lemma_drop_newlines_noop, lemma_trim_leading_subrange, lemma_trim_trailing_subrange,
    lemma_trimmed_idempotent, lemma_trimmed_no_newline, trimmed,
    u16_to_decimal,
};
use vstd::string::StrSliceExecFns;
use vstd::string::StringExecFns;

verus! {

/// One request to the completion service: the first command for an
/// instruction, a revision of an earlier command, or an explanation request.
pub enum Prompt {
    Command(String, String, String),
    Revision(String, String, String, String),
    Explain(String),
}

/// The instruction text rendered for an initial request, over the shell
/// name, the operating system name and the operator's instruction.
pub open spec fn command_text(shell: Seq<char>, os: Seq<char>, instruction: Seq<char>) -> Seq<
    char,
> {
    "I will give you a prompt to create a single line command that one can enter in a terminal and run, based on what is asked in the prompt.\nThe target terminal is "@
        + shell
        + ".\nPlease only reply with the single line command in plain text without Markdown formatting. It should be able to be directly run in a terminal. Do not include any other text.\nPlease make sure the script runs on "@
        + os + " operating system.\nPrompt: "@ + instruction
}

/// The instruction text rendered for a revision request, over the shell and
/// operating system names, the new instruction and the previous command.
pub open spec fn revision_text(
    shell: Seq<char>,
    os: Seq<char>,
    instruction: Seq<char>,
    command: Seq<char>,
) -> Seq<char> {
    "Update the following command based on what is asked in the following prompt\nThe target terminal is "@
        + shell
        + ".\nPlease only reply with the single line command in plain text without Markdown formatting. It should be able to be directly run in a terminal. Do not include any other text.\nPlease make sure the script runs on "@
        + os + " operating system.\nCommand: "@ + command + "\nPrompt: "@ + instruction
}

/// The instruction text rendered for an explanation request.
pub open spec fn explain_text(command: Seq<char>) -> Seq<char> {
    "Describe the command in plain english, step by step, what exactly it does.\n\nPlease describe succinctly, use as few words as possible, do not be verbose.\nIf there are multiple steps, display them as a list.\n\n                This is the script: "@
        + command
}

impl Prompt {
    /// The text this request renders to, as a sequence of characters.
    pub open spec fn text(&self) -> Seq<char> {
        match self {
            Prompt::Command(shell, os, instruction) => command_text(shell@, os@, instruction@),
            Prompt::Revision(shell, os, instruction, command) => revision_text(
                shell@,
                os@,
                instruction@,
                command@,
            ),
            Prompt::Explain(command) => explain_text(command@),
        }
    }

    /// Renders the instruction text sent to the completion service.
    pub fn value(&self) -> (r: String)
        ensures
            r@ == self.text(),
    {
        match self {
            Prompt::Command(shell, os, instruction) => {
                let mut s =
                    "I will give you a prompt to create a single line command that one can enter in a terminal and run, based on what is asked in the prompt.\nThe target terminal is ".to_owned();
                s.append(shell.as_str());
                s.append(
                    ".\nPlease only reply with the single line command in plain text without Markdown formatting. It should be able to be directly run in a terminal. Do not include any other text.\nPlease make sure the script runs on ",
                );
                s.append(os.as_str());
                s.append(" operating system.\nPrompt: ");
                s.append(instruction.as_str());
                s
            },
            Prompt::Revision(shell, os, instruction, command) => {
                let mut s =
                    "Update the following command based on what is asked in the following prompt\nThe target terminal is ".to_owned();
                s.append(shell.as_str());
                s.append(
                    ".\nPlease only reply with the single line command in plain text without Markdown formatting. It should be able to be directly run in a terminal. Do not include any other text.\nPlease make sure the script runs on ",
                );
                s.append(os.as_str());
                s.append(" operating system.\nCommand: ");
                s.append(command.as_str());
                s.append("\nPrompt: ");
                s.append(instruction.as_str());
                s
            },
            Prompt::Explain(command) => {
                let mut s =
                    "Describe the command in plain english, step by step, what exactly it does.\n\nPlease describe succinctly, use as few words as possible, do not be verbose.\nIf there are multiple steps, display them as a list.\n\n                This is the script: ".to_owned();
                s.append(command.as_str());
                s
            },
        }
    }
}

/// Law: prompt rendering is deterministic — equal requests render to the
/// same instruction text.
pub proof fn lemma_value_deterministic(a: Prompt, b: Prompt)
    requires
        a == b,
    ensures
        a.text() == b.text(),
{
}

/// Law: the text of an initial request carries the shell name, the operating
/// system name and the instruction verbatim.
pub proof fn lemma_command_text_contains(shell: Seq<char>, os: Seq<char>, instruction: Seq<char>)
    ensures
        contains_seq(command_text(shell, os, instruction), shell),
        contains_seq(command_text(shell, os, instruction), os),
        contains_seq(command_text(shell, os, instruction), instruction),
{
    let t = command_text(shell, os, instruction);
    let i1 =
        "I will give you a prompt to create a single line command that one can enter in a terminal and run, based on what is asked in the prompt.\nThe target terminal is "@.len() as int;
    assert(t.subrange(i1, i1 + shell.len()) =~= shell);
    let i2 = i1 + shell.len()
        + ".\nPlease only reply with the single line command in plain text without Markdown formatting. It should be able to be directly run in a terminal. Do not include any other text.\nPlease make sure the script runs on "@.len();
    assert(t.subrange(i2, i2 + os.len()) =~= os);
    let i3 = t.len() - instruction.len();
    assert(t.subrange(i3, i3 + instruction.len()) =~= instruction);
}

/// Law: the text of a revision request carries the previous command and the
/// new instruction verbatim.
pub proof fn lemma_revision_text_contains(
    shell: Seq<char>,
    os: Seq<char>,
    instruction: Seq<char>,
    command: Seq<char>,
)
    ensures
        contains_seq(revision_text(shell, os, instruction, command), command),
        contains_seq(revision_text(shell, os, instruction, command), instruction),
{
    let t = revision_text(shell, os, instruction, command);
    let i1: int =
        "Update the following command based on what is asked in the following prompt\nThe target terminal is "@.len() as int
        + shell.len()
        + ".\nPlease only reply with the single line command in plain text without Markdown formatting. It should be able to be directly run in a terminal. Do not include any other text.\nPlease make sure the script runs on "@.len()
        + os.len() + " operating system.\nCommand: "@.len();
    assert(t.subrange(i1, i1 + command.len()) =~= command);
    let i2 = t.len() - instruction.len();
    assert(t.subrange(i2, i2 + instruction.len()) =~= instruction);
}

/// `s` begins with a triple-backtick fence.
pub open spec fn starts_with_fence(s: Seq<char>) -> bool {
    s.len() >= 3 && s[0] == '`' && s[1] == '`' && s[2] == '`'
}

/// `s` ends with a triple-backtick fence.
pub open spec fn ends_with_fence(s: Seq<char>) -> bool {
    s.len() >= 3 && s[s.len() - 3] == '`' && s[s.len() - 2] == '`' && s[s.len() - 1] == '`'
}

/// `s` without a leading fence, when one is present.
pub open spec fn strip_leading_fence(s: Seq<char>) -> Seq<char> {
    if starts_with_fence(s) {
        s.subrange(3, s.len() as int)
    } else {
        s
    }
}

/// `s` without a trailing fence, when one is present.
pub open spec fn strip_trailing_fence(s: Seq<char>) -> Seq<char> {
    if ends_with_fence(s) {
        s.subrange(0, s.len() - 3)
    } else {
        s
    }
}

/// What command extraction yields on raw completion text: trim the ends,
/// strip one leading and one trailing fence, drop every newline, trim again.
pub open spec fn extracted(s: Seq<char>) -> Seq<char> {
    trimmed(drop_newlines(strip_trailing_fence(strip_leading_fence(trimmed(s)))))
}

/// Law: extraction is idempotent on any text whose extraction does not
/// itself still begin or end with a fence. (Where it does — "`````` ls"
/// extracts to "``` ls" — a second pass strips that fence too, and the two
/// passes differ.)
pub proof fn lemma_extract_idempotent(s: Seq<char>)
    requires
        !starts_with_fence(extracted(s)),
        !ends_with_fence(extracted(s)),
    ensures
        extracted(extracted(s)) == extracted(s),
{
    let t = trimmed(s);
    let f = strip_trailing_fence(strip_leading_fence(t));
    let d = drop_newlines(f);
    let r = extracted(s);
    lemma_trimmed_idempotent(d);
    assert(trimmed(r) == r);
    lemma_drop_newlines_free(f);
    lemma_trimmed_no_newline(d);
    lemma_drop_newlines_noop(r);
    assert(strip_leading_fence(trimmed(r)) == r);
    assert(strip_trailing_fence(r) == r);
}

/// The bounds of the trimmed middle of `s`: everything before `lo` and from
/// `hi` on is blank, and `s[lo..hi]` is exactly what trimming leaves.
fn trim_bounds(s: &str) -> (r: (usize, usize))
    ensures
        r.0 <= r.1 <= s@.len(),
        trimmed(s@) == s@.subrange(r.0 as int, r.1 as int),
{
    let n = s.unicode_len();
    let mut lo: usize = 0;
    while lo < n && blank(s.get_char(lo))
        invariant
            lo <= n,
            n == s@.len(),
            forall|i: int| 0 <= i < lo ==> is_blank(s@[i]),
        decreases n - lo,
    {
        lo += 1;
    }
    let mut hi: usize = n;
    while hi > lo && blank(s.get_char(hi - 1))
        invariant
            lo <= hi <= n,
            n == s@.len(),
            forall|i: int| hi <= i < n ==> is_blank(s@[i]),
        decreases hi,
    {
        hi -= 1;
    }
    proof {
        lemma_trim_leading_subrange(s@, lo as int);
        let t = s@.subrange(lo as int, n as int);
        lemma_trim_trailing_subrange(t, hi - lo);
        assert(t.subrange(0, hi - lo) =~= s@.subrange(lo as int, hi as int));
    }
    (lo, hi)
}

/// Normalizes raw completion text into a single-line command: the text
/// trimmed, unfenced and freed of newlines, or an error when nothing is left.
pub fn get_cli_command_from_prompt(prompt: &str) -> (r: Result<String, String>)
    ensures
        match r {
            Ok(c) => extracted(prompt@).len() > 0 && c@ == extracted(prompt@),
            Err(e) => extracted(prompt@).len() == 0 && e@ == "No command found in prompt"@,
        },
{
    let (lo, hi) = trim_bounds(prompt);
    let ghost t = trimmed(prompt@);
    let mut lo2: usize = lo;
    let mut hi2: usize = hi;
    if hi - lo >= 3 && prompt.get_char(lo) == '`' && prompt.get_char(lo + 1) == '`'
        && prompt.get_char(lo + 2) == '`' {
        lo2 = lo + 3;
    }
    proof {
        assert(strip_leading_fence(t) =~= prompt@.subrange(lo2 as int, hi as int));
    }
    let ghost f1 = strip_leading_fence(t);
    if hi - lo2 >= 3 && prompt.get_char(hi - 3) == '`' && prompt.get_char(hi - 2) == '`'
        && prompt.get_char(hi - 1) == '`' {
        hi2 = hi - 3;
    }
    proof {
        assert(strip_trailing_fence(f1) =~= prompt@.subrange(lo2 as int, hi2 as int));
    }
    let ghost f2 = strip_trailing_fence(f1);

    let mut mid = String::new();
    let mut j: usize = lo2;
    proof {
        assert(prompt@.subrange(lo2 as int, lo2 as int) =~= Seq::<char>::empty());
    }
    while j < hi2
        invariant
            lo2 <= j <= hi2 <= prompt@.len(),
            mid@ == drop_newlines(prompt@.subrange(lo2 as int, j as int)),
        decreases hi2 - j,
    {
        let c = prompt.get_char(j);
        proof {
            let pre = prompt@.subrange(lo2 as int, j as int);
            let ext = prompt@.subrange(lo2 as int, j + 1);
            assert(ext.drop_last() =~= pre);
            assert(pre.push(prompt@[j as int]) =~= ext);
        }
        if c != '\n' {
            let piece = prompt.substring_char(j, j + 1);
            proof {
                assert(mid@ + piece@ =~= mid@.push(prompt@[j as int]));
            }
            mid.append(piece);
        }
        j += 1;
    }
    proof {
        assert(prompt@.subrange(lo2 as int, hi2 as int) == f2);
        assert(mid@ == drop_newlines(f2));
    }

    let (lo3, hi3) = trim_bounds(mid.as_str());
    if lo3 == hi3 {
        Err("No command found in prompt".to_owned())
    } else {
        Ok(mid.as_str().substring_char(lo3, hi3).to_owned())
    }
}

/// One role/content pair inside a completion response.
pub struct Message {
    pub role: String,
    pub content: String,
}

/// One candidate completion returned by the service.
pub struct Choice {
    pub message: Message,
    pub finish_reason: String,
    pub index: u32,
}

/// The token accounting a completion response reports.
pub struct Usage {
    pub prompt_tokens: u32,
    pub completion_tokens: u32,
    pub total_tokens: u32,
}

/// The success shape of a completion response; the core reads only the first
/// choice's message content.
pub struct ChatCompletionResponse {
    pub id: String,
    pub object: String,
    pub created: i64,
    pub model: String,
    pub usage: Usage,
    pub choices: Vec<Choice>,
}

impl ChatCompletionResponse {
    /// The message content of the first candidate, when one is there.
    pub fn first_content(&self) -> (r: Option<&String>)
        ensures
            self.choices@.len() > 0 ==> r == Some(&self.choices@[0].message.content),
            self.choices@.len() == 0 ==> r is None,
    {
        if self.choices.len() > 0 {
            Some(&self.choices[0].message.content)
        } else {
            None
        }
    }
}

/// The single user-role message a completion request carries: the rendered
/// instruction text of the given request.
pub fn request_message(prompt: &Prompt) -> (r: Message)
    ensures
        r.role@ == "user"@,
        r.content@ == prompt.text(),
{
    Message { role: "user".to_owned(), content: prompt.value() }
}

/// The classified outcome of one completion request: a usable response, or
/// one of the failure kinds the loop distinguishes.
pub enum CompletionResult {
    Success(ChatCompletionResponse),
    ServiceRejection { status: u16, message: String, code: Option<String> },
    ConnectivityFailure(String),
    ParseFailure(String),
}

impl CompletionResult {
    /// The line reported to the operator for this outcome.
    pub open spec fn describe_spec(&self) -> Seq<char> {
        match self {
            CompletionResult::Success(_) => Seq::<char>::empty(),
            CompletionResult::ServiceRejection { status, message, .. } => "Error: "@ + decimal(
                *status as nat,
            ) + " - "@ + message@,
            CompletionResult::ConnectivityFailure(detail) => "Error: "@ + detail@,
            CompletionResult::ParseFailure(_) => "Failed to parse response from OpenAI API"@,
        }
    }

    /// Writes the line reported to the operator for this outcome.
    pub fn describe(&self) -> (r: String)
        ensures
            r@ == self.describe_spec(),
    {
        match self {
            CompletionResult::Success(_) => String::new(),
            CompletionResult::ServiceRejection { status, message, .. } => {
                let mut s = "Error: ".to_owned();
                s.append(u16_to_decimal(*status).as_str());
                s.append(" - ");
                s.append(message.as_str());
                s
            },
            CompletionResult::ConnectivityFailure(detail) => {
                let mut s = "Error: ".to_owned();
                s.append(detail.as_str());
                s
            },
            CompletionResult::ParseFailure(_) => "Failed to parse response from OpenAI API".to_owned(),
        }
    }
}

/// The text of `error.message` in `body`, when `body` is a JSON document
/// whose `error.message` member is a string; `None` otherwise. A function of
/// the body text alone.
pub uninterp spec fn json_error_message_of(body: Seq<char>) -> Option<Seq<char>>;

/// The text of `error.code` in `body`, when `body` is a JSON document whose
/// `error.code` member is a string; `None` otherwise. A function of the body
/// text alone.
pub uninterp spec fn json_error_code_of(body: Seq<char>) -> Option<Seq<char>>;

/// Relies on serde_json's `from_str::<Value>`, `Value::get` and
/// `Value::as_str`: reads the `error.message` and `error.code` strings of a
/// JSON document. Parsing is deterministic and member lookup goes by key, so
/// each field is a function of the body text, named above.
#[verifier::external_body]
fn json_error_fields(body: &str) -> (r: Option<(String, Option<String>)>)
    ensures
        match r {
            Some(fields) => json_error_message_of(body@) == Some(fields.0@)
                && json_error_code_of(body@) == match fields.1 {
                    Some(c) => Some(c@),
                    None => None::<Seq<char>>,
                },
            None => json_error_message_of(body@) is None,
        },
{
    let v: serde_json::Value = serde_json::from_str(body).ok()?;
    let error = v.get("error")?;
    let message = error.get("message")?.as_str()?.to_owned();
    let code = match error.get("code") {
        Some(c) => match c.as_str() {
            Some(s) => Some(s.to_owned()),
            None => None,
        },
        None => None,
    };
    Some((message, code))
}

/// Best-effort read of the `{error: {message, code}}` shape from a failure
/// body: `Some` exactly when the body's `error.message` is a string, carrying
/// that message, with the code falling back to "unknown" where `error.code`
/// is absent or not text.
pub fn extract_error_details(body: &str) -> (r: Option<(String, String)>)
    ensures
        match r {
            Some(details) => json_error_message_of(body@) == Some(details.0@)
                && details.1@ == match json_error_code_of(body@) {
                    Some(code) => code,
                    None => "unknown"@,
                },
            None => json_error_message_of(body@) is None,
        },
{
    match json_error_fields(body) {
        Some((message, code)) => {
            let code = match code {
                Some(c) => c,
                None => "unknown".to_owned(),
            };
            Some((message, code))
        },
        None => None,
    }
}

/// `r` reports a service rejection of `status`: where the body's
/// `error.message` is a string, `r` carries it, with `error.code` or its
/// "unknown" fallback; everywhere else `r` carries the raw `body` verbatim
/// and no code.
pub open spec fn is_rejection_of(r: &CompletionResult, status: u16, body: Seq<char>) -> bool {
    match r {
        CompletionResult::ServiceRejection { status: st, message, code } => *st == status
            && match json_error_message_of(body) {
            Some(m) => message@ == m && match code {
                Some(c) => c@ == match json_error_code_of(body) {
                    Some(k) => k,
                    None => "unknown"@,
                },
                None => false,
            },
            None => message@ == body && code is None,
        },
        _ => false,
    }
}

/// Classifies a non-success response: a service rejection carrying the
/// status and the error details read from the body, or the raw body where
/// no detail could be read.
pub fn service_rejection_from_body(status: u16, body: String) -> (r: CompletionResult)
    ensures
        is_rejection_of(&r, status, body@),
{
    match extract_error_details(body.as_str()) {
        Some((message, code)) => CompletionResult::ServiceRejection {
            status,
            message,
            code: Some(code),
        },
        None => CompletionResult::ServiceRejection { status, message: body, code: None },
    }
}

/// Classifies one response from the completion service. `status` is the
/// response status, `parsed` is what the success shape parsed to when it
/// did, and `body` is the raw response text. A success status with a body
/// that does not carry the success shape — or carries no candidate at all —
/// is a parse failure; any other status is a service rejection.
pub fn classify_response(status: u16, parsed: Option<ChatCompletionResponse>, body: String) -> (r:
    CompletionResult)
    ensures
        status != 200 ==> is_rejection_of(&r, status, body@),
        status == 200 ==> match parsed {
            Some(p) => if p.choices@.len() > 0 {
                r == CompletionResult::Success(p)
            } else {
                r matches CompletionResult::ParseFailure(b) && b@ == body@
            },
            None => r matches CompletionResult::ParseFailure(b) && b@ == body@,
        },
{
    if status != 200 {
        return service_rejection_from_body(status, body);
    }
    match parsed {
        Some(p) => {
            if p.choices.len() > 0 {
                CompletionResult::Success(p)
            } else {
                CompletionResult::ParseFailure(body)
            }
        },
        None => CompletionResult::ParseFailure(body),
    }
}

} // verus!
