//! A response written out as text, for diagnostics and error messages.
use crate::decimal::{decimal, to_decimal};
use crate::response::{Response, ResponseView};
use vstd::prelude::*;

verus! {

/// An exit code as text: `Some(3)`, or `None` where there is no code.
pub open spec fn code_text(code: Option<i32>) -> Seq<char> {
    match code {
        Some(c) => "Some("@ + decimal(c as int) + ")"@,
        None => "None"@,
    }
}

/// A flag as text.
pub open spec fn flag_text(flag: bool) -> Seq<char> {
    if flag {
        "true"@
    } else {
        "false"@
    }
}

/// A response on one line, every field by name. The command and the two
/// streams stand between double quotes as they are, without escapes.
pub open spec fn description(r: ResponseView) -> Seq<char> {
    "Response { command: \""@ + r.command + "\", code: "@ + code_text(r.code) + ", success: "@
        + flag_text(r.success) + ", stdout: \""@ + r.stdout + "\", stderr: \""@ + r.stderr
        + "\" }"@
}

/// The message of the error that stands for a command that did not succeed.
pub open spec fn failure_text(r: ResponseView) -> Seq<char> {
    "Unsuccessful call: "@ + description(r)
}

/// `needle` stands somewhere in `text`, in one piece.
pub open spec fn occurs_in(needle: Seq<char>, text: Seq<char>) -> bool {
    exists|i: int|
        0 <= i && i + needle.len() <= text.len() && #[trigger] text.subrange(i, i + needle.len())
            == needle
}

/// What stands between a prefix and a suffix occurs in the whole.
pub proof fn lemma_occurs_between(before: Seq<char>, needle: Seq<char>, after: Seq<char>)
    ensures
        occurs_in(needle, before + needle + after),
{
    let text = before + needle + after;
    let i = before.len() as int;
    assert(text.subrange(i, i + needle.len()) =~= needle);
}

/// What occurs in a text still occurs when more is put around the text.
pub proof fn lemma_occurs_widen(
    needle: Seq<char>,
    before: Seq<char>,
    text: Seq<char>,
    after: Seq<char>,
)
    requires
        occurs_in(needle, text),
    ensures
        occurs_in(needle, before + text + after),
{
    let i = choose|i: int|
        0 <= i && i + needle.len() <= text.len() && #[trigger] text.subrange(i, i + needle.len())
            == needle;
    let whole = before + text + after;
    let j = before.len() + i;
    assert(whole.subrange(j, j + needle.len()) =~= text.subrange(i, i + needle.len()));
}

/// The failure message shows the command text, the exit code where there is
/// one, and both streams, each in one piece.
pub proof fn lemma_failure_text_mentions(r: ResponseView)
    ensures
        occurs_in(r.command, failure_text(r)),
        r.code matches Some(c) ==> occurs_in(decimal(c as int), failure_text(r)),
        occurs_in(r.stdout, failure_text(r)),
        occurs_in(r.stderr, failure_text(r)),
{
    let head = "Unsuccessful call: "@;
    let a = "Response { command: \""@;
    let b = "\", code: "@;
    let c = ", success: "@;
    let d = ", stdout: \""@;
    let e = "\", stderr: \""@;
    let f = "\" }"@;
    let code = code_text(r.code);
    let flag = flag_text(r.success);
    let whole = failure_text(r);
    assert(whole =~= (head + a) + r.command + (b + code + c + flag + d + r.stdout + e + r.stderr
        + f));
    lemma_occurs_between(
        head + a,
        r.command,
        b + code + c + flag + d + r.stdout + e + r.stderr + f,
    );
    assert(whole =~= (head + a + r.command + b + code + c + flag + d) + r.stdout + (e + r.stderr
        + f));
    lemma_occurs_between(
        head + a + r.command + b + code + c + flag + d,
        r.stdout,
        e + r.stderr + f,
    );
    assert(whole =~= (head + a + r.command + b + code + c + flag + d + r.stdout + e) + r.stderr
        + f);
    lemma_occurs_between(
        head + a + r.command + b + code + c + flag + d + r.stdout + e,
        r.stderr,
        f,
    );
    if let Some(n) = r.code {
        lemma_occurs_between("Some("@, decimal(n as int), ")"@);
        assert(whole =~= (head + a + r.command + b) + code + (c + flag + d + r.stdout + e
            + r.stderr + f));
        lemma_occurs_widen(
            decimal(n as int),
            head + a + r.command + b,
            code,
            c + flag + d + r.stdout + e + r.stderr + f,
        );
    }
}

fn code_string(code: Option<i32>) -> (text: String)
    ensures
        text@ == code_text(code),
{
    match code {
        Some(c) => {
            let mut text = String::from_str("Some(");
            text.append(to_decimal(c).as_str());
            text.append(")");
            text
        },
        None => String::from_str("None"),
    }
}

impl Response {
    /// Writes the response out on one line, every field by name.
    pub fn describe(&self) -> (text: String)
        ensures
            text@ == description(self@),
    {
        let mut text = String::from_str("Response { command: \"");
        text.append(self.command.as_str());
        text.append("\", code: ");
        text.append(code_string(self.code).as_str());
        text.append(", success: ");
        text.append(
            if self.success {
                "true"
            } else {
                "false"
            },
        );
        text.append(", stdout: \"");
        text.append(self.stdout.as_str());
        text.append("\", stderr: \"");
        text.append(self.stderr.as_str());
        text.append("\" }");
        text
    }

    /// The message of the error that stands for this response where the
    /// command did not succeed.
    pub fn failure_message(&self) -> (text: String)
        ensures
            text@ == failure_text(self@),
    {
        let mut text = String::from_str("Unsuccessful call: ");
        text.append(self.describe().as_str());
        text
    }
}

} // verus!
