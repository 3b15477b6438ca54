use vstd::prelude::*;
use vstd::string::StringExecFns;

verus! {

/// A failed text-generation call: the credential was missing, the
/// response carried no generated text, or the transport failed.
#[derive(Debug)]
pub enum LlmError {
    MissingApiKey,
    MissingContent,
    RemoteCallFailed { cause: String },
}

pub enum LlmErrorModel {
    MissingApiKey,
    MissingContent,
    RemoteCallFailed { cause: Seq<char> },
}

impl View for LlmError {
    type V = LlmErrorModel;

    open spec fn view(&self) -> LlmErrorModel {
        match self {
            LlmError::MissingApiKey => LlmErrorModel::MissingApiKey,
            LlmError::MissingContent => LlmErrorModel::MissingContent,
            LlmError::RemoteCallFailed { cause } => LlmErrorModel::RemoteCallFailed {
                cause: cause@,
            },
        }
    }
}

/// The failure as a short human-readable sentence.
pub open spec fn spec_llm_error_message(e: LlmErrorModel) -> Seq<char> {
    match e {
        LlmErrorModel::MissingApiKey => "Missing OpenAI API Key"@,
        LlmErrorModel::MissingContent => "Missing content in LLM response"@,
        LlmErrorModel::RemoteCallFailed { cause } => "Remote call failed: "@ + cause,
    }
}

impl LlmError {
    /// Renders the failure as a short human-readable sentence.
    pub fn message(&self) -> (r: String)
        ensures
            r@ == spec_llm_error_message(self@),
    {
        match self {
            LlmError::MissingApiKey => String::from_str("Missing OpenAI API Key"),
            LlmError::MissingContent => String::from_str("Missing content in LLM response"),
            LlmError::RemoteCallFailed { cause } => {
                let mut m = String::from_str("Remote call failed: ");
                m.append(cause.as_str());
                assert(m@ =~= "Remote call failed: "@ + cause@);
                m
            },
        }
    }
}

/// Everything one chat round-trip sends: where, the bearer credential,
/// the model, and the two instructions.
pub struct ChatRequest {
    pub url: String,
    pub authorization: String,
    pub model: String,
    pub system_message: String,
    pub user_message: String,
}

/// Assembles the chat request for one generation call, or refuses when
/// no credential is at hand: exactly then the call cannot be
/// authenticated.
pub fn prepare_chat_request(
    api_key: Option<&str>,
    model: &str,
    system_message: &str,
    user_message: &str,
) -> (r: Result<ChatRequest, LlmError>)
    ensures
        api_key is None <==> r is Err,
        r matches Err(e) ==> e@ == LlmErrorModel::MissingApiKey,
        api_key matches Some(k) ==> (r matches Ok(q) ==> {
            &&& q.url@ == "https://api.openai.com/v1/chat/completions"@
            &&& q.authorization@ == "Bearer "@ + k@
            &&& q.model@ == model@
            &&& q.system_message@ == system_message@
            &&& q.user_message@ == user_message@
        }),
{
    let key = match api_key {
        Some(k) => k,
        None => {
            return Err(LlmError::MissingApiKey);
        },
    };
    let mut authorization = String::from_str("Bearer ");
    authorization.append(key);
    assert(authorization@ =~= "Bearer "@ + key@);
    Ok(
        ChatRequest {
            url: String::from_str("https://api.openai.com/v1/chat/completions"),
            authorization,
            model: String::from_str(model),
            system_message: String::from_str(system_message),
            user_message: String::from_str(user_message),
        },
    )
}

/// Turns the text a chat response carried into the call's outcome: the
/// text when there is one, and the missing-content failure exactly when
/// there is none.
pub fn extract_chat_content(content: Option<String>) -> (r: Result<String, LlmError>)
    ensures
        content matches Some(s) ==> (r matches Ok(t) && t == s),
        content is None ==> (r matches Err(e) && e@ == LlmErrorModel::MissingContent),
{
    match content {
        Some(s) => Ok(s),
        None => Err(LlmError::MissingContent),
    }
}

} // verus!
