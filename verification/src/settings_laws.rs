//! What making and asking a client promises: its settings, and the choice of the API.
use vstd::prelude::*;

use crate::address;
use crate::builder::{EmbeddingBuilder, LLMBuilder, OpenAIConfig};
use crate::chat::{CompletionResponse, FunctionCall, FunctionTool, ToolCall, ToolChoice};
use crate::error::LLMError;
use crate::json;
use crate::openai::OpenAI;
use crate::request::F32Bits;
use crate::response::{OpenAIResponsesResponse, OpenAIWebSearchChatResponse};
use crate::text;
use std::sync::Arc;

verus! {

/// A client is made exactly where there is a key, and has each of the given settings under
/// its own name. Without an address it speaks to OpenAI, without a model it uses a small
/// one, and it is told nothing about the API and chained to nothing.
pub proof fn law_new_client(
    api_key: &str,
    base_url: Option<String>,
    model: Option<String>,
    max_tokens: Option<u32>,
    temperature: Option<F32Bits>,
    timeout_seconds: Option<u64>,
    top_p: Option<F32Bits>,
    top_k: Option<u32>,
    embedding_encoding_format: Option<String>,
    embedding_dimensions: Option<u32>,
    tool_choice: Option<ToolChoice>,
    normalize_response: Option<bool>,
    reasoning_effort: Option<String>,
    voice: Option<String>,
    extra_body: Option<serde_json::Value>,
    enable_web_search: Option<bool>,
    context_size: Option<String>,
    location_type: Option<String>,
    country: Option<String>,
    city: Option<String>,
    region: Option<String>,
    r: Result<OpenAI, LLMError>,
)
    requires
        call_ensures(
            OpenAI::new,
            (
                api_key,
                base_url,
                model,
                max_tokens,
                temperature,
                timeout_seconds,
                top_p,
                top_k,
                embedding_encoding_format,
                embedding_dimensions,
                tool_choice,
                normalize_response,
                reasoning_effort,
                voice,
                extra_body,
                enable_web_search,
                context_size,
                location_type,
                country,
                city,
                region,
            ),
            r,
        ),
    ensures
        r is Ok <==> api_key@.len() > 0,
        r matches Err(error) ==> {
            &&& error matches LLMError::AuthError(message)
            &&& message@ == "Missing OpenAI API key"@
        },
        r matches Ok(client) ==> {
            &&& client.provider.api_key@ == api_key@
            &&& base_url is None ==> client.provider.base_url@ == "https://api.openai.com/v1/"@
            &&& base_url matches Some(given) ==> {
                &&& address::parsed_url(given@) matches Ok(read) ==> client.provider.base_url@
                    == read
                &&& address::parsed_url(given@) is Err ==> client.provider.base_url@ == given@
            }
            &&& model is None ==> client.provider.model@ == "gpt-4.1-nano"@
            &&& model matches Some(name) ==> client.provider.model@ == name@
            &&& client.provider.max_tokens == max_tokens
            &&& client.provider.temperature == temperature
            &&& client.provider.timeout_seconds == timeout_seconds
            &&& client.provider.top_p == top_p
            &&& client.provider.top_k == top_k
            &&& client.provider.embedding_encoding_format == embedding_encoding_format
            &&& client.provider.embedding_dimensions == embedding_dimensions
            &&& client.provider.tool_choice == tool_choice
            &&& client.provider.normalize_response == normalize_response
            &&& client.provider.reasoning_effort == reasoning_effort
            &&& client.provider.voice == voice
            &&& extra_body is Some && json::object_members(extra_body->0) is Some ==> Some(
                json::map_members(client.provider.extra_body),
            ) == json::object_members(extra_body->0)
            &&& extra_body is None || json::object_members(extra_body->0) is None
                ==> json::map_members(client.provider.extra_body) == Map::<
                Seq<char>,
                serde_json::Value,
            >::empty()
            &&& client.use_responses_api is None
            &&& client.previous_response_id is None
            &&& client.enable_web_search <==> enable_web_search == Some(true)
            &&& client.web_search_context_size == context_size
            &&& client.web_search_user_location_type == location_type
            &&& client.web_search_user_location_approximate_country == country
            &&& client.web_search_user_location_approximate_city == city
            &&& client.web_search_user_location_approximate_region == region
        },
{
}

/// A client tells its own settings.
pub proof fn law_client_tells_its_settings(
    client: OpenAI,
    api_key: &str,
    model: &str,
    base_url: &str,
    timeout_seconds: Option<u64>,
    answer: Result<CompletionResponse, LLMError>,
)
    requires
        call_ensures(OpenAI::api_key, (&client,), api_key),
        call_ensures(OpenAI::model, (&client,), model),
        call_ensures(OpenAI::base_url, (&client,), base_url),
        call_ensures(OpenAI::timeout_seconds, (&client,), timeout_seconds),
        call_ensures(OpenAI::complete, (&client,), answer),
    ensures
        api_key@ == client.provider.api_key@,
        model@ == client.provider.model@,
        base_url@ == client.provider.base_url@,
        timeout_seconds == client.provider.timeout_seconds,
        answer matches Ok(completion) && completion.text@ == "OpenAI completion not implemented."@,
{
}

/// Setting the answer to continue sets that and nothing else.
pub proof fn law_setting_the_answer_to_continue(client: &mut OpenAI, id: Option<String>)
    requires
        call_ensures(OpenAI::set_previous_response_id, (client, id), ()),
    ensures
        final(client).previous_response_id == id,
        final(client).provider == old(client).provider,
        final(client).use_responses_api == old(client).use_responses_api,
        final(client).enable_web_search == old(client).enable_web_search,
        final(client).web_search_context_size == old(client).web_search_context_size,
        final(client).web_search_user_location_type == old(client).web_search_user_location_type,
        final(client).web_search_user_location_approximate_country == old(
            client,
        ).web_search_user_location_approximate_country,
        final(client).web_search_user_location_approximate_city == old(
            client,
        ).web_search_user_location_approximate_city,
        final(client).web_search_user_location_approximate_region == old(
            client,
        ).web_search_user_location_approximate_region,
{
}

/// Chaining to an answer of the Responses API makes its id the one to continue, whatever was
/// to be continued before, and changes nothing else.
#[allow(dead_code)]
fn chaining_continues_the_answer(client: &mut OpenAI, answer: &OpenAIResponsesResponse)
    ensures
        final(client).previous_response_id matches Some(id) && id@ == answer.id@,
        *final(client) == (OpenAI {
            previous_response_id: final(client).previous_response_id,
            ..*old(client)
        }),
{
    client.chain_response(answer);
}

/// Chaining to an answer without an id leaves nothing to continue, and changes nothing else.
#[allow(dead_code)]
fn chaining_without_an_id_continues_nothing(
    client: &mut OpenAI,
    answer: &OpenAIWebSearchChatResponse,
)
    ensures
        final(client).previous_response_id is None,
        *final(client) == (OpenAI { previous_response_id: None, ..*old(client) }),
{
    client.chain_response(answer);
}

/// Whether the part stands somewhere in the text.
pub open spec fn holds(whole: Seq<char>, part: Seq<char>) -> bool {
    exists|before: Seq<char>, after: Seq<char>| whole == #[trigger] (before + part + after)
}

proof fn lemma_holds(whole: Seq<char>, part: Seq<char>)
    ensures
        holds(whole, part) == text::has_substring(whole, part),
{
    if text::has_substring(whole, part) {
        let i = choose|i: int| text::occurs_at(whole, part, i);
        let before = whole.take(i);
        let after = whole.skip(i + part.len());
        assert(whole.subrange(i, i + part.len()) == part);
        assert(whole =~= before + part + after);
    }
    if holds(whole, part) {
        let (before, after) = choose|before: Seq<char>, after: Seq<char>|
            whole == #[trigger] (before + part + after);
        let i = before.len() as int;
        assert(whole.subrange(i, i + part.len()) =~= part);
        assert(text::occurs_at(whole, part, i));
    }
}

/// Whether the name is that of the family, goes on behind it with a `-` or a `.`, or holds it
/// behind a `/` or a `:`.
pub open spec fn is_of_family(name: Seq<char>, family: Seq<char>) -> bool {
    ||| name == family
    ||| exists|rest: Seq<char>| name == #[trigger] (family + seq!['-'] + rest)
    ||| exists|rest: Seq<char>| name == #[trigger] (family + seq!['.'] + rest)
    ||| holds(name, seq!['/'] + family)
    ||| holds(name, seq![':'] + family)
}

/// A model is of a family exactly where its name says so.
pub proof fn law_model_families(model: &str, family: &str, r: bool)
    requires
        call_ensures(OpenAI::model_has_family, (model, family), r),
    ensures
        r <==> is_of_family(model@, family@),
{
    lemma_family_by_name(model@, family@);
}

proof fn lemma_family_by_name(model: Seq<char>, family: Seq<char>)
    ensures
        is_of_family(model, family) == crate::openai::has_family(model, family),
{
    lemma_holds(model, seq!['/'] + family);
    lemma_holds(model, seq![':'] + family);
    lemma_begins_with(model, family, '-');
    lemma_begins_with(model, family, '.');
}

proof fn lemma_begins_with(model: Seq<char>, family: Seq<char>, mark: char)
    ensures
        (exists|rest: Seq<char>| model == #[trigger] (family + seq![mark] + rest))
            == family.push(mark).is_prefix_of(model),
{
    let head = family.push(mark);
    assert(head =~= family + seq![mark]);
    if head.is_prefix_of(model) {
        let rest = model.skip(head.len() as int);
        assert(model =~= family + seq![mark] + rest);
    }
    if exists|rest: Seq<char>| model == #[trigger] (family + seq![mark] + rest) {
        let rest = choose|rest: Seq<char>| model == #[trigger] (family + seq![mark] + rest);
        assert(model.take(head.len() as int) =~= head);
        assert(head.is_prefix_of(model));
    }
}

/// Whether a model of this name, in lower case, is one for the Responses API.
pub open spec fn is_for_responses_api(name: Seq<char>) -> bool {
    ||| holds(name, "codex"@)
    ||| is_of_family(name, "o1"@)
    ||| is_of_family(name, "o3"@)
    ||| is_of_family(name, "o4"@)
    ||| is_of_family(name, "gpt-5"@)
}

/// Models with `codex` in their name and those of four families want the Responses API, and
/// no others.
pub proof fn law_models_for_the_responses_api(model: &str, r: bool)
    requires
        call_ensures(OpenAI::model_wants_responses_api, (model,), r),
    ensures
        r <==> is_for_responses_api(model@),
{
    lemma_responses_models(model@);
}

proof fn lemma_responses_models(model: Seq<char>)
    ensures
        is_for_responses_api(model) == crate::openai::wants_responses_api(model),
{
    lemma_holds(model, "codex"@);
    lemma_family_by_name(model, "o1"@);
    lemma_family_by_name(model, "o3"@);
    lemma_family_by_name(model, "o4"@);
    lemma_family_by_name(model, "gpt-5"@);
}

/// A client does as it is told. Else it goes by the name of the model, whatever white space
/// stands around it and in whatever case its letters are.
pub proof fn law_choice_of_the_api(
    client: OpenAI,
    r: bool,
    before: Seq<char>,
    name: Seq<char>,
    after: Seq<char>,
)
    requires
        call_ensures(OpenAI::should_use_responses_api, (&client,), r),
        client.provider.model@ == before + name + after,
        forall|i: int| 0 <= i < before.len() ==> text::is_white(#[trigger] before[i]),
        forall|i: int| 0 <= i < after.len() ==> text::is_white(#[trigger] after[i]),
        name.len() > 0 ==> !text::is_white(name[0]) && !text::is_white(name.last()),
    ensures
        client.use_responses_api matches Some(told) ==> r == told,
        client.use_responses_api is None ==> r == is_for_responses_api(text::lowercase(name)),
        client.use_responses_api is None && (forall|i: int|
            0 <= i < name.len() ==> (#[trigger] name[i] as u32) < 0x80) ==> r
            == is_for_responses_api(text::ascii_lower(name)),
{
    text::lemma_trim_ignores_space(before, name, after);
    assert(text::trim(client.provider.model@) == name);
    lemma_responses_models(text::lowercase(name));
    lemma_responses_models(text::ascii_lower(name));
}

/// ASCII letters are lowered one by one, and nothing else changes.
pub proof fn law_ascii_lower_case(s: Seq<char>, i: int)
    requires
        0 <= i < s.len(),
    ensures
        text::ascii_lower(s).len() == s.len(),
        'A' <= s[i] <= 'Z' ==> text::ascii_lower(s)[i] as u32 == s[i] as u32 + 32,
        !('A' <= s[i] <= 'Z') ==> text::ascii_lower(s)[i] == s[i],
{
}

/// Whether a report, in lower case, says that the Responses API is not offered: it speaks of
/// that API and holds one of the six phrases by which services say so.
pub open spec fn says_not_offered(report: Seq<char>) -> bool {
    &&& holds(report, "responses api"@) || holds(report, "v1/responses"@) || holds(
        report,
        "/responses"@,
    )
    &&& {
        ||| holds(report, "responses api is enabled only for api-version"@)
        ||| holds(report, "api-version 2025-03-01-preview"@)
        ||| holds(report, "responses api is not supported"@)
        ||| holds(report, "does not support the responses api"@)
        ||| holds(report, "not supported in v1/responses"@)
        ||| holds(report, "v1/responses is not supported"@)
    }
}

/// A client falls back from an error exactly where it was not told to use the Responses API
/// and the error, in any case of its letters, says that it is not offered. Errors of the
/// key or of the request are no reason.
pub proof fn law_falling_back(client: OpenAI, error: LLMError, r: bool)
    requires
        call_ensures(
            OpenAI::should_fallback_from_responses_api_error,
            (&client, &error),
            r,
        ),
    ensures
        client.use_responses_api == Some(true) ==> !r,
        client.use_responses_api != Some(true) ==> r == match error {
            LLMError::HttpError(message) => says_not_offered(text::ascii_lower(message@)),
            LLMError::ProviderError(message) => says_not_offered(text::ascii_lower(message@)),
            LLMError::ResponseFormatError { message, raw_response } => says_not_offered(
                text::ascii_lower(message@ + seq!['\n'] + raw_response@),
            ),
            LLMError::AuthError(_) => false,
            LLMError::InvalidRequest(_) => false,
        },
{
    match error {
        LLMError::HttpError(message) => lemma_says_not_offered(text::ascii_lower(message@)),
        LLMError::ProviderError(message) => lemma_says_not_offered(text::ascii_lower(message@)),
        LLMError::ResponseFormatError { message, raw_response } => {
            assert(message@.push('\n') + raw_response@ =~= message@ + seq!['\n'] + raw_response@);
            lemma_says_not_offered(text::ascii_lower(message@ + seq!['\n'] + raw_response@));
        },
        _ => {},
    }
}

proof fn lemma_says_not_offered(report: Seq<char>)
    ensures
        says_not_offered(report) == (crate::openai::concerns_responses_api(report)
            && crate::openai::tells_of_missing_api(report)),
{
    lemma_holds(report, "responses api"@);
    lemma_holds(report, "v1/responses"@);
    lemma_holds(report, "/responses"@);
    lemma_holds(report, "responses api is enabled only for api-version"@);
    lemma_holds(report, "api-version 2025-03-01-preview"@);
    lemma_holds(report, "responses api is not supported"@);
    lemma_holds(report, "does not support the responses api"@);
    lemma_holds(report, "not supported in v1/responses"@);
    lemma_holds(report, "v1/responses is not supported"@);
}

/// A new builder was told nothing.
pub proof fn law_new_builder(
    builder: LLMBuilder<OpenAI>,
    config: OpenAIConfig,
    embedding: EmbeddingBuilder<OpenAI>,
)
    requires
        call_ensures(LLMBuilder::<OpenAI>::new, (), builder),
        call_ensures(OpenAIConfig::default, (), config),
        call_ensures(EmbeddingBuilder::<OpenAI>::new, (), embedding),
    ensures
        builder.api_key is None && builder.base_url is None && builder.model is None,
        builder.max_tokens is None && builder.temperature is None && builder.top_p is None,
        builder.top_k is None && builder.timeout_seconds is None && builder.tool_choice is None,
        builder.embedding_encoding_format is None && builder.embedding_dimensions is None,
        builder.normalize_response is None && builder.reasoning_effort is None,
        builder.extra_body is None && builder.use_responses_api is None,
        builder.config.voice is None,
        config.voice is None,
        embedding.api_key is None && embedding.base_url is None && embedding.model is None,
        embedding.timeout_seconds is None && embedding.embedding_encoding_format is None,
        embedding.embedding_dimensions is None,
{
}

/// Whether two builders have the same settings but for the key, the model, the length of
/// answers, the voice and the choice of the API.
pub open spec fn same_other_settings(a: LLMBuilder<OpenAI>, b: LLMBuilder<OpenAI>) -> bool {
    &&& a.base_url == b.base_url
    &&& a.temperature == b.temperature
    &&& a.timeout_seconds == b.timeout_seconds
    &&& a.top_p == b.top_p
    &&& a.top_k == b.top_k
    &&& a.embedding_encoding_format == b.embedding_encoding_format
    &&& a.embedding_dimensions == b.embedding_dimensions
    &&& a.tool_choice == b.tool_choice
    &&& a.normalize_response == b.normalize_response
    &&& a.reasoning_effort == b.reasoning_effort
    &&& a.extra_body == b.extra_body
}

/// Each setting of a builder sets what it is named after and nothing else.
pub proof fn law_builder_settings(
    builder: LLMBuilder<OpenAI>,
    value: &str,
    count: u32,
    flag: bool,
    with_key: LLMBuilder<OpenAI>,
    with_model: LLMBuilder<OpenAI>,
    with_length: LLMBuilder<OpenAI>,
    with_api: LLMBuilder<OpenAI>,
    with_voice: LLMBuilder<OpenAI>,
)
    requires
        call_ensures(LLMBuilder::<OpenAI>::api_key, (builder, value), with_key),
        call_ensures(LLMBuilder::<OpenAI>::model, (builder, value), with_model),
        call_ensures(LLMBuilder::<OpenAI>::max_tokens, (builder, count), with_length),
        call_ensures(LLMBuilder::<OpenAI>::use_responses_api, (builder, flag), with_api),
        call_ensures(LLMBuilder::<OpenAI>::voice, (builder, value), with_voice),
    ensures
        with_key.api_key is Some && with_key.api_key->0@ == value@,
        with_key.model == builder.model && with_key.max_tokens == builder.max_tokens,
        with_key.config == builder.config && with_key.use_responses_api
            == builder.use_responses_api,
        same_other_settings(with_key, builder),
        with_model.model is Some && with_model.model->0@ == value@,
        with_model.api_key == builder.api_key && with_model.max_tokens == builder.max_tokens,
        with_model.config == builder.config && with_model.use_responses_api
            == builder.use_responses_api,
        same_other_settings(with_model, builder),
        with_length.max_tokens == Some(count),
        with_length.api_key == builder.api_key && with_length.model == builder.model,
        with_length.config == builder.config && with_length.use_responses_api
            == builder.use_responses_api,
        same_other_settings(with_length, builder),
        with_api.use_responses_api == Some(flag),
        with_api.api_key == builder.api_key && with_api.model == builder.model,
        with_api.config == builder.config && with_api.max_tokens == builder.max_tokens,
        same_other_settings(with_api, builder),
        with_voice.config.voice is Some && with_voice.config.voice->0@ == value@,
        with_voice.api_key == builder.api_key && with_voice.model == builder.model,
        with_voice.use_responses_api == builder.use_responses_api && with_voice.max_tokens
            == builder.max_tokens,
        same_other_settings(with_voice, builder),
{
}

/// A builder builds a client exactly where it has a key that is not empty, and the client has
/// each of its settings under its own name.
pub proof fn law_built_client(builder: LLMBuilder<OpenAI>, r: Result<Arc<OpenAI>, LLMError>)
    requires
        call_ensures(LLMBuilder::<OpenAI>::build, (builder,), r),
    ensures
        r is Ok <==> builder.api_key is Some && builder.api_key->0@.len() > 0,
        r matches Err(error) ==> if builder.api_key is None {
            error matches LLMError::InvalidRequest(message) && message@
                == "No API key provided for OpenAI"@
        } else {
            error matches LLMError::AuthError(message) && message@ == "Missing OpenAI API key"@
        },
        r matches Ok(client) ==> {
            &&& client.provider.api_key@ == builder.api_key->0@
            &&& builder.base_url is None ==> client.provider.base_url@
                == "https://api.openai.com/v1/"@
            &&& builder.base_url matches Some(given) ==> {
                &&& address::parsed_url(given@) matches Ok(read) ==> client.provider.base_url@
                    == read
                &&& address::parsed_url(given@) is Err ==> client.provider.base_url@ == given@
            }
            &&& builder.model is None ==> client.provider.model@ == "gpt-4.1-nano"@
            &&& builder.model matches Some(name) ==> client.provider.model@ == name@
            &&& client.provider.max_tokens == builder.max_tokens
            &&& client.provider.temperature == builder.temperature
            &&& client.provider.timeout_seconds == builder.timeout_seconds
            &&& client.provider.top_p == builder.top_p
            &&& client.provider.top_k == builder.top_k
            &&& client.provider.embedding_encoding_format == builder.embedding_encoding_format
            &&& client.provider.embedding_dimensions == builder.embedding_dimensions
            &&& client.provider.tool_choice == builder.tool_choice
            &&& client.provider.normalize_response == builder.normalize_response
            &&& client.provider.reasoning_effort == builder.reasoning_effort
            &&& client.provider.voice == builder.config.voice
            &&& builder.extra_body is Some && json::object_members(builder.extra_body->0) is Some
                ==> Some(json::map_members(client.provider.extra_body)) == json::object_members(
                builder.extra_body->0,
            )
            &&& builder.extra_body is None || json::object_members(builder.extra_body->0) is None
                ==> json::map_members(client.provider.extra_body) == Map::<
                Seq<char>,
                serde_json::Value,
            >::empty()
            &&& client.use_responses_api == builder.use_responses_api
            &&& client.previous_response_id is None
            &&& !client.enable_web_search
            &&& client.web_search_context_size is None
            &&& client.web_search_user_location_type is None
            &&& client.web_search_user_location_approximate_country is None
            &&& client.web_search_user_location_approximate_city is None
            &&& client.web_search_user_location_approximate_region is None
        },
{
}

/// A builder for embeddings builds a client exactly where it has a key that is not empty. The
/// client has its settings, a small model for embeddings where none is set, and no others.
pub proof fn law_built_embedding_client(
    builder: EmbeddingBuilder<OpenAI>,
    r: Result<Arc<OpenAI>, LLMError>,
)
    requires
        call_ensures(EmbeddingBuilder::<OpenAI>::build, (builder,), r),
    ensures
        r is Ok <==> builder.api_key is Some && builder.api_key->0@.len() > 0,
        r matches Err(error) ==> if builder.api_key is None {
            error matches LLMError::InvalidRequest(message) && message@
                == "No API key provided for OpenAI"@
        } else {
            error matches LLMError::AuthError(message) && message@ == "Missing OpenAI API key"@
        },
        r matches Ok(client) ==> {
            &&& client.provider.api_key@ == builder.api_key->0@
            &&& builder.base_url is None ==> client.provider.base_url@
                == "https://api.openai.com/v1/"@
            &&& builder.base_url matches Some(given) ==> {
                &&& address::parsed_url(given@) matches Ok(read) ==> client.provider.base_url@
                    == read
                &&& address::parsed_url(given@) is Err ==> client.provider.base_url@ == given@
            }
            &&& builder.model is None ==> client.provider.model@ == "text-embedding-3-small"@
            &&& builder.model matches Some(name) ==> client.provider.model@ == name@
            &&& client.provider.timeout_seconds == builder.timeout_seconds
            &&& client.provider.embedding_encoding_format == builder.embedding_encoding_format
            &&& client.provider.embedding_dimensions == builder.embedding_dimensions
            &&& client.provider.max_tokens is None
            &&& client.provider.temperature is None
            &&& client.provider.top_p is None
            &&& client.provider.top_k is None
            &&& client.provider.tool_choice is None
            &&& client.provider.normalize_response is None
            &&& client.provider.reasoning_effort is None
            &&& client.provider.voice is None
            &&& json::map_members(client.provider.extra_body) == Map::<
                Seq<char>,
                serde_json::Value,
            >::empty()
            &&& client.use_responses_api is None
            &&& client.previous_response_id is None
            &&& !client.enable_web_search
            &&& client.web_search_context_size is None
            &&& client.web_search_user_location_type is None
            &&& client.web_search_user_location_approximate_country is None
            &&& client.web_search_user_location_approximate_city is None
            &&& client.web_search_user_location_approximate_region is None
        },
{
}

/// A copy is what it is a copy of.
pub proof fn law_copies(
    function: FunctionCall,
    function_copy: FunctionCall,
    call: ToolCall,
    call_copy: ToolCall,
    tool: FunctionTool,
    tool_copy: FunctionTool,
    choice: ToolChoice,
    choice_copy: ToolChoice,
)
    requires
        call_ensures(FunctionCall::clone, (&function,), function_copy),
        call_ensures(ToolCall::clone, (&call,), call_copy),
        call_ensures(FunctionTool::clone, (&tool,), tool_copy),
        call_ensures(ToolChoice::clone, (&choice,), choice_copy),
    ensures
        function_copy == function,
        call_copy == call,
        tool_copy == tool,
        choice_copy == choice,
{
}

} // verus!
