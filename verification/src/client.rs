//! The data model of the completion capability contract: requests,
//! responses, the wire message shape shared by the providers, the error
//! taxonomy and the terminal state of one stream.

use vstd::prelude::*;

verus! {

/// Which kind of model a configuration selects; the streaming layer itself
/// never inspects this.
#[derive(Debug, Clone)]
pub enum ModelType {
    Cloud(String),
    Local(String),
}

/// One completion request, built fresh per call and never mutated after
/// construction.
#[derive(Debug)]
pub struct CompletionRequest {
    pub system_prompt: String,
    pub user_query: String,
    /// `(file name, content)` pairs, ordered by relevance.
    pub context_files: Vec<(String, String)>,
    /// Recent shell commands, most recent first.
    pub history: Vec<String>,
}

/// A finished, non-streaming completion.
#[derive(Debug, Clone)]
pub struct CompletionResponse {
    pub content: String,
    pub finish_reason: Option<String>,
}

/// One message of a provider's chat schema: a role tag and its text.
#[derive(Debug)]
pub struct ProviderMessage {
    pub role: String,
    pub content: String,
}

impl View for ProviderMessage {
    type V = (Seq<char>, Seq<char>);

    open spec fn view(&self) -> (Seq<char>, Seq<char>) {
        (self.role@, self.content@)
    }
}

impl DeepView for ProviderMessage {
    type V = (Seq<char>, Seq<char>);

    open spec fn deep_view(&self) -> (Seq<char>, Seq<char>) {
        self.view()
    }
}

/// Appends one message to a message list being built for a provider.
pub fn push_message(msgs: &mut Vec<ProviderMessage>, role: &str, content: String)
    ensures
        final(msgs).deep_view() == old(msgs).deep_view().push((role@, content@)),
{
    let ghost prevv = msgs@;
    msgs.push(ProviderMessage { role: role.to_owned(), content });
    proof {
        let target = old(msgs).deep_view().push((role@, content@));
        assert(old(msgs).deep_view().len() == prevv.len());
        assert forall|j: int| 0 <= j < msgs@.len() implies msgs.deep_view()[j] == target[j] by {
            assert(msgs.deep_view()[j] == msgs@[j].deep_view());
            if j < prevv.len() {
                assert(msgs@[j] == prevv[j]);
                assert(old(msgs).deep_view()[j] == prevv[j].deep_view());
            } else {
                assert(msgs@[j].deep_view() == (role@, content@));
            }
        }
        assert(msgs.deep_view() =~= target);
    }
}

/// Everything that can go wrong between issuing a request and exhausting
/// its fragment sequence.
#[derive(Debug)]
pub enum ErrorKind {
    /// Transport-level failure; holds the composed, user-facing message.
    Connection { message: String },
    /// Non-success status; the body is kept verbatim for diagnosability.
    Provider { status: u16, body: String },
    /// A complete frame was assembled but could not be decoded.
    Decode,
    /// A credential was missing at construction; names the variable.
    Configuration { variable: String },
}

/// The terminal state of one completion stream.  Abandoning a stream is
/// `Cancelled`, which is distinct from `Failed`.
#[derive(Debug)]
pub enum StreamOutcome {
    Completed,
    Failed(ErrorKind),
    Cancelled,
}

/// The decimal digit character for `d`.
pub open spec fn digit_char(d: int) -> char {
    if d == 0 {
        '0'
    } else if d == 1 {
        '1'
    } else if d == 2 {
        '2'
    } else if d == 3 {
        '3'
    } else if d == 4 {
        '4'
    } else if d == 5 {
        '5'
    } else if d == 6 {
        '6'
    } else if d == 7 {
        '7'
    } else if d == 8 {
        '8'
    } else {
        '9'
    }
}

/// The decimal rendering of `n`, most significant digit first.
pub open spec fn dec_seq(n: nat) -> Seq<char>
    decreases n,
{
    if n < 10 {
        seq![digit_char(n as int)]
    } else {
        dec_seq(n / 10).push(digit_char((n % 10) as int))
    }
}

fn digit_str(d: u16) -> (r: &'static str)
    requires
        d < 10,
    ensures
        r@ == seq![digit_char(d as int)],
{
    proof {
        reveal_strlit("0");
        reveal_strlit("1");
        reveal_strlit("2");
        reveal_strlit("3");
        reveal_strlit("4");
        reveal_strlit("5");
        reveal_strlit("6");
        reveal_strlit("7");
        reveal_strlit("8");
        reveal_strlit("9");
    }
    let r = match d {
        0 => "0",
        1 => "1",
        2 => "2",
        3 => "3",
        4 => "4",
        5 => "5",
        6 => "6",
        7 => "7",
        8 => "8",
        _ => "9",
    };
    proof {
        assert(r@ =~= seq![digit_char(d as int)]);
    }
    r
}

/// Renders a status code (or any small number) in decimal, for error
/// messages that must quote the response status.
pub fn dec_string(n: u16) -> (r: String)
    ensures
        r@ == dec_seq(n as nat),
    decreases n,
{
    let mut r = if n >= 10 {
        dec_string(n / 10)
    } else {
        String::new()
    };
    r.append(digit_str(n % 10));
    proof {
        if n >= 10 {
            assert(dec_seq(n as nat) =~= dec_seq((n as nat) / 10) + seq![
                digit_char(((n as nat) % 10) as int),
            ]);
        } else {
            assert(dec_seq(n as nat) =~= Seq::<char>::empty() + seq![digit_char(n as int)]);
        }
    }
    r
}

impl ErrorKind {
    /// The user-facing text of an error, with the status code and body kept
    /// verbatim for provider failures.
    pub fn message(&self) -> (r: String)
        ensures
            self matches ErrorKind::Connection { message } ==> r@ == message@,
            self matches ErrorKind::Provider { status, body } ==> r@ == "provider error (status "@
                + dec_seq(*status as nat) + "): "@ + body@,
            self is Decode ==> r@ == "malformed frame in the response stream"@,
            self matches ErrorKind::Configuration { variable } ==> r@ == variable@
                + " not set"@,
    {
        match self {
            ErrorKind::Connection { message } => message.clone(),
            ErrorKind::Provider { status, body } => {
                let mut r = String::new();
                r.append("provider error (status ");
                let d = dec_string(*status);
                r.append(d.as_str());
                r.append("): ");
                r.append(body.as_str());
                r
            },
            ErrorKind::Decode => {
                let mut r = String::new();
                r.append("malformed frame in the response stream");
                r
            },
            ErrorKind::Configuration { variable } => {
                let mut r = variable.clone();
                r.append(" not set");
                r
            },
        }
    }
}

} // verus!
