//! The extraction protocol: the retry decision on an overloaded provider, the
//! tag that primes a page, and how a provider reply becomes a fragment.

use vstd::prelude::*;
use crate::error::PipelineError;

verus! {

/// The status by which the provider says that it is overloaded.
pub const STATUS_OVERLOADED: u16 = 529;

/// How many times one request is sent again after an overloaded reply.
pub const MAX_RETRIES: u32 = 5;

/// The pause before a request is sent again, in milliseconds.
pub const RETRY_DELAY_MS: u64 = 200;

pub open spec fn should_retry(retries: nat, status: u16) -> bool {
    status == STATUS_OVERLOADED && retries < MAX_RETRIES
}

/// How many requests are sent when the provider answers with `statuses`, in
/// order, starting after `retries` retries.
pub open spec fn attempts_made(retries: nat, statuses: Seq<u16>) -> nat
    decreases statuses.len(),
{
    if statuses.len() == 0 {
        0
    } else if should_retry(retries, statuses[0]) {
        1 + attempts_made(retries + 1, statuses.drop_first())
    } else {
        1
    }
}

/// What to do once a reply has come.
#[derive(Debug, Clone, Copy, PartialEq, Eq, Structural)]
pub enum Attempt {
    /// Wait `RETRY_DELAY_MS` and send the same request again.
    Retry,
    /// Hand this reply on: it is the result of the call.
    Conclude,
}

/// The retry state of one page's request.
#[derive(Debug, Clone, Copy)]
pub struct RetryState {
    pub retries: u32,
}

impl RetryState {
    pub fn new() -> (r: RetryState)
        ensures
            r.retries == 0,
    {
        RetryState { retries: 0 }
    }

    /// Decides on a reply's status: an overloaded reply is retried while
    /// retries are left; every other reply, and the last overloaded one,
    /// concludes.
    pub fn on_status(&mut self, status: u16) -> (r: Attempt)
        requires
            old(self).retries <= MAX_RETRIES,
        ensures
            (r == Attempt::Retry) == should_retry(old(self).retries as nat, status),
            final(self).retries == if r == Attempt::Retry {
                old(self).retries + 1
            } else {
                old(self).retries as int
            },
            final(self).retries <= MAX_RETRIES,
    {
        if status == STATUS_OVERLOADED && self.retries < MAX_RETRIES {
            self.retries = self.retries + 1;
            Attempt::Retry
        } else {
            Attempt::Conclude
        }
    }
}

/// A provider that answers every request as overloaded gets the first request
/// and exactly `MAX_RETRIES` more, and its last reply is the result.
pub proof fn lemma_retry_bound(statuses: Seq<u16>)
    requires
        statuses.len() > MAX_RETRIES,
        forall|i: int| 0 <= i < statuses.len() ==> statuses[i] == STATUS_OVERLOADED,
    ensures
        attempts_made(0, statuses) == MAX_RETRIES + 1,
        !should_retry(MAX_RETRIES as nat, statuses[MAX_RETRIES as int]),
        !is_success_status(statuses[MAX_RETRIES as int]),
{
    lemma_attempts_overloaded(0, statuses);
}

proof fn lemma_attempts_overloaded(retries: nat, statuses: Seq<u16>)
    requires
        retries <= MAX_RETRIES,
        statuses.len() > MAX_RETRIES - retries,
        forall|i: int| 0 <= i < statuses.len() ==> statuses[i] == STATUS_OVERLOADED,
    ensures
        attempts_made(retries, statuses) == MAX_RETRIES - retries + 1,
    decreases MAX_RETRIES - retries,
{
    if retries < MAX_RETRIES {
        let rest = statuses.drop_first();
        assert forall|i: int| 0 <= i < rest.len() implies rest[i] == STATUS_OVERLOADED by {
            assert(rest[i] == statuses[i + 1]);
        }
        lemma_attempts_overloaded(retries + 1, rest);
    }
}

pub open spec fn is_success_status(status: u16) -> bool {
    200 <= status < 300
}

/// A 2xx status.
pub fn is_success(status: u16) -> (r: bool)
    ensures
        r == is_success_status(status),
{
    200 <= status && status < 300
}

pub open spec fn open_tag(key: Seq<char>) -> Seq<char> {
    "<page number=\""@ + key + "\">"@
}

/// The opening tag of a page element, with which the assistant's turn is
/// seeded and the reply is completed.
pub fn page_open_tag(key: &str) -> (r: String)
    ensures
        r@ == open_tag(key@),
{
    String::from_str("<page number=\"").concat(key).concat("\">")
}

/// A reply body, as read from the provider's JSON.
pub enum ReplyBody {
    /// The text of each content block, in order.
    Content(Vec<String>),
    /// The structured error of a failed request.
    ProviderError { error_type: String, message: String },
    /// A body that held no JSON of the expected shape.
    Unreadable,
}

pub open spec fn provider_error_message(error_type: Seq<char>, message: Seq<char>) -> Seq<char> {
    "Anthropic request error: type:"@ + error_type + ", message:"@ + message
}

/// The fragment for a concluded request: on success, the seeded tag followed
/// by the text of the last content block; otherwise the provider's error, as
/// an overload where the provider was overloaded.
pub fn conclude_reply(status: u16, body: ReplyBody, prefill: &str) -> (r: Result<String, PipelineError>)
    ensures
        is_success_status(status) ==> match body {
            ReplyBody::Content(texts) => if texts@.len() > 0 {
                r is Ok && r->Ok_0@ == prefill@ + texts@.last()@
            } else {
                r matches Err(PipelineError::Transport(_))
            },
            _ => r matches Err(PipelineError::Transport(_)),
        },
        !is_success_status(status) ==> match body {
            ReplyBody::ProviderError { error_type, message } => {
                &&& r is Err
                &&& r->Err_0.spec_message()@ == provider_error_message(error_type@, message@)
                &&& (status == STATUS_OVERLOADED) == (r->Err_0 is Overload)
                &&& (status != STATUS_OVERLOADED) == (r->Err_0 is Transport)
            },
            _ => r matches Err(PipelineError::Transport(_)),
        },
{
    if is_success(status) {
        match body {
            ReplyBody::Content(texts) => {
                if texts.len() > 0 {
                    let last = &texts[texts.len() - 1];
                    Ok(String::from_str(prefill).concat(last.as_str()))
                } else {
                    Err(PipelineError::Transport(String::from_str("the provider's reply lacks content")))
                }
            },
            _ => Err(PipelineError::Transport(String::from_str("the provider's reply holds no content JSON"))),
        }
    } else {
        match body {
            ReplyBody::ProviderError { error_type, message } => {
                let m = String::from_str("Anthropic request error: type:").concat(
                    error_type.as_str(),
                ).concat(", message:").concat(message.as_str());
                if status == STATUS_OVERLOADED {
                    Err(PipelineError::Overload(m))
                } else {
                    Err(PipelineError::Transport(m))
                }
            },
            _ => Err(PipelineError::Transport(String::from_str("the provider's error reply holds no JSON"))),
        }
    }
}


/// The provider credentials, handed to the client rather than read by it.
pub struct ProviderConfig {
    pub api_key: String,
}

/// The configuration for an API key that may be missing.
pub fn provider_config(api_key: Option<String>) -> (r: Result<ProviderConfig, PipelineError>)
    ensures
        r is Ok <==> api_key is Some,
        r is Ok ==> r->Ok_0.api_key == api_key->Some_0,
        r is Err ==> r->Err_0 is Config,
{
    match api_key {
        Some(k) => Ok(ProviderConfig { api_key: k }),
        None => Err(PipelineError::Config(String::from_str("the provider's API key is not set"))),
    }
}

} // verus!
