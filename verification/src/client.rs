//! Preparing one full wire request: destination URL, request body, bearer
//! token and extra headers.  The transport that sends it lives outside the
//! library.

use vstd::prelude::*;
use vstd::string::StrSliceExecFns;
use vstd::string::StringExecFns;
use crate::model::{ChatCompletionsData, ClientError, OpenAIResponsesClient, RequestData};
use crate::request::{openai_build_responses_body, spec_build_body};

verus! {

/// The endpoint base used when the configuration names none.
pub open spec fn spec_default_api_base() -> Seq<char> {
    "https://api.openai.com/v1"@
}

fn default_api_base() -> (r: &'static str)
    ensures
        r@ == spec_default_api_base(),
{
    "https://api.openai.com/v1"
}

/// `s` with every trailing `/` removed.
pub open spec fn spec_trim_trailing_slashes(s: Seq<char>) -> Seq<char>
    decreases s.len(),
{
    if s.len() > 0 && s.last() == '/' {
        spec_trim_trailing_slashes(s.drop_last())
    } else {
        s
    }
}

/// The URL of the endpoint under a configured base.
pub open spec fn spec_responses_url(base: Seq<char>) -> Seq<char> {
    spec_trim_trailing_slashes(base) + "/responses"@
}

proof fn lemma_trim_slashes(s: Seq<char>, e: int)
    requires
        0 <= e <= s.len(),
        forall|k: int| e <= k < s.len() ==> s[k] == '/',
        e > 0 ==> s[e - 1] != '/',
    ensures
        spec_trim_trailing_slashes(s) =~= s.take(e),
    decreases s.len(),
{
    if e == s.len() {
        if s.len() > 0 && s.last() == '/' {
            assert(false);
        } else {
            assert(spec_trim_trailing_slashes(s) =~= s.take(e));
        }
    } else {
        assert(s.last() == '/');
        lemma_trim_slashes(s.drop_last(), e);
        assert(s.drop_last().take(e) =~= s.take(e));
    }
}

fn responses_url(base: &str) -> (r: String)
    ensures
        r@ == spec_responses_url(base@),
{
    let len = base.unicode_len();
    let mut e: usize = len;
    while e > 0 && base.get_char(e - 1) == '/'
        invariant
            e <= len,
            len == base@.len(),
            forall|k: int| e <= k < len ==> base@[k] == '/',
        decreases e,
    {
        e = e - 1;
    }
    proof {
        lemma_trim_slashes(base@, e as int);
    }
    let mut url = base.substring_char(0, e).to_owned();
    url.append("/responses");
    url
}

/// Prepare a full request for one exchange: resolve the API key, join the
/// configured or default base with the endpoint path, build the body, and
/// attach the bearer token and the organization header when configured.
pub fn prepare_chat_completions(self_: &OpenAIResponsesClient, data: ChatCompletionsData) -> (r:
    Result<RequestData, ClientError>)
    ensures
        r is Err <==> self_.config.api_key is None,
        r matches Err(e) ==> e is MissingCredential,
        r matches Ok(rd) ==> {
            &&& self_.config.api_key matches Some(k) && rd.bearer_token matches Some(t) && t@
                == k@
            &&& rd.url@ == spec_responses_url(
                match self_.config.api_base {
                    Some(b) => b@,
                    None => spec_default_api_base(),
                },
            )
            &&& rd.body@ == spec_build_body(data, self_.model)
            &&& match self_.config.organization_id {
                Some(org) => rd.headers@.len() == 1 && rd.headers@[0].0@
                    == "OpenAI-Organization"@ && rd.headers@[0].1@ == org@,
                None => rd.headers@.len() == 0,
            }
        },
{
    let api_key = match self_.get_api_key() {
        Ok(k) => k,
        Err(e) => {
            return Err(e);
        },
    };
    let url = match self_.get_api_base() {
        Some(b) => responses_url(b.as_str()),
        None => responses_url(default_api_base()),
    };
    let body = openai_build_responses_body(data, &self_.model);
    let mut request_data = RequestData::new(url, body);
    request_data.bearer_auth(api_key);
    match &self_.config.organization_id {
        Some(org) => {
            request_data.header("OpenAI-Organization", org.as_str());
        },
        None => {},
    }
    Ok(request_data)
}

} // verus!
