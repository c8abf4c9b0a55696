use crate::address::Address;
use crate::text::byte_len;
use crate::validation::contexts::{CloseValidation, RequestValidation, RespondToValidation};
use crate::validation::error::ValidationError;
use crate::validation::state::{agent_header, AgentHeader, ValidationRequest};
use crate::validation::{
    close_validation_rejection, config_after_response, is_agent_record, recorded_owner,
    request_after_response, request_validation_rejection, respond_rejection, MAX_RESPONSE,
};
use vstd::bytes::{lemma_auto_spec_u64_to_from_le_bytes, spec_u64_to_le_bytes};
use vstd::prelude::*;

verus! {

/// What `respond_to_validation` leaves behind when it accepts.
pub open spec fn after_response(
    ctx: RespondToValidation,
    response: u8,
    response_hash: [u8; 32],
    now: i64,
) -> RespondToValidation
    recommends
        ctx.validation_request is Some,
{
    let request = ctx.validation_request.unwrap();
    RespondToValidation {
        config: config_after_response(ctx.config, request),
        validation_request: Some(request_after_response(request, response, response_hash, now)),
        ..ctx
    }
}

/// The validator may respond: a pending request with the caller as
/// validator, a response of at most 100, a URI of at most 200 bytes and room
/// in the counter are all it takes.
pub proof fn lemma_first_response_accepted(
    ctx: RespondToValidation,
    response: u8,
    response_uri: Seq<char>,
)
    requires
        ctx.validation_request matches Some(request) && request.validator_address
            == ctx.validator,
        response <= MAX_RESPONSE,
        byte_len(response_uri) <= ValidationRequest::MAX_URI_LENGTH,
        ctx.config.total_responses < u64::MAX,
    ensures
        respond_rejection(ctx, response, response_uri) is None,
{
}

/// Request, response, update: a first response at a time after 0 takes a
/// pending request to a responded one and counts one response; an update
/// after it is accepted as well, replaces the response and its hash, and
/// leaves the count as it is.
pub proof fn lemma_response_round_trip(
    ctx: RespondToValidation,
    response: u8,
    response_uri: Seq<char>,
    response_hash: [u8; 32],
    now: i64,
    update: u8,
    update_uri: Seq<char>,
    update_hash: [u8; 32],
    later: i64,
)
    requires
        ctx.validation_request matches Some(request) && request.responded_at == 0,
        respond_rejection(ctx, response, response_uri) is None,
        now > 0,
        update <= MAX_RESPONSE,
        byte_len(update_uri) <= ValidationRequest::MAX_URI_LENGTH,
    ensures
        ({
            let first = after_response(ctx, response, response_hash, now);
            let second = after_response(first, update, update_hash, later);
            &&& first.validation_request.unwrap().responded_at == now
            &&& first.validation_request.unwrap().response == response
            &&& first.validation_request.unwrap().response_hash == response_hash
            &&& first.config.total_responses == ctx.config.total_responses + 1
            &&& respond_rejection(first, update, update_uri) is None
            &&& second.validation_request.unwrap().response == update
            &&& second.validation_request.unwrap().response_hash == update_hash
            &&& second.validation_request.unwrap().responded_at == later
            &&& second.config.total_responses == first.config.total_responses
            &&& second.config.total_requests == ctx.config.total_requests
        }),
{
}

/// A response over 100 from the request's validator is refused as invalid;
/// one of at most 100 is never refused as invalid.
pub proof fn lemma_response_limit(ctx: RespondToValidation, response: u8, response_uri: Seq<char>)
    requires
        ctx.validation_request matches Some(request) && request.validator_address
            == ctx.validator,
    ensures
        response > MAX_RESPONSE <==> respond_rejection(ctx, response, response_uri) == Some(
            ValidationError::InvalidResponse,
        ),
{
}

/// Only the request's validator responds: any other caller is refused as
/// no authorized validator.
pub proof fn lemma_only_validator_responds(
    ctx: RespondToValidation,
    response: u8,
    response_uri: Seq<char>,
)
    requires
        ctx.validation_request matches Some(request) && request.validator_address
            != ctx.validator,
    ensures
        respond_rejection(ctx, response, response_uri) == Some(
            ValidationError::UnauthorizedValidator,
        ),
{
}

/// Only the agent's owner requests a validation: any other caller is
/// refused, as no authorized requester when the URI is in order and the
/// agent's record is at hand.
pub proof fn lemma_only_owner_requests(
    ctx: RequestValidation,
    agent_id: u64,
    request_uri: Seq<char>,
)
    requires
        is_agent_record(ctx.agent_account, ctx.config.identity_registry, agent_id),
        recorded_owner(ctx.agent_account) != ctx.requester@,
    ensures
        request_validation_rejection(ctx, agent_id, request_uri) is Some,
        byte_len(request_uri) <= ValidationRequest::MAX_URI_LENGTH ==> request_validation_rejection(
            ctx,
            agent_id,
            request_uri,
        ) == Some(ValidationError::UnauthorizedRequester),
{
}

/// Only the registry authority and the agent's owner close a request: any
/// other caller is refused as no authorized requester.
pub proof fn lemma_only_owner_or_authority_closes(ctx: CloseValidation)
    requires
        ctx.validation_request matches Some(request) && ctx.authority != ctx.config.authority
            && !(is_agent_record(ctx.agent_account, ctx.config.identity_registry, request.agent_id)
            && recorded_owner(ctx.agent_account) == ctx.authority@),
    ensures
        close_validation_rejection(ctx) == Some(ValidationError::UnauthorizedRequester),
{
}

/// The response of a request is always in range: an accepted response
/// leaves one of at most 100, in the request and in nothing else.
pub proof fn lemma_response_in_range(
    ctx: RespondToValidation,
    response: u8,
    response_uri: Seq<char>,
    response_hash: [u8; 32],
    now: i64,
)
    requires
        respond_rejection(ctx, response, response_uri) is None,
    ensures
        ({
            let before = ctx.validation_request.unwrap();
            let after = after_response(ctx, response, response_hash, now).validation_request.unwrap();
            &&& after.response <= MAX_RESPONSE
            &&& after.agent_id == before.agent_id
            &&& after.validator_address == before.validator_address
            &&& after.nonce == before.nonce
            &&& after.request_hash == before.request_hash
            &&& after.created_at == before.created_at
        }),
{
}

/// The layout that the agent's record is read by: a record that starts
/// with 8 bytes of discriminator, the agent id as 8 bytes little-endian
/// and the 32 bytes of the owner is read as that agent id and that owner,
/// whatever follows.
pub proof fn lemma_agent_header_layout(
    discriminator: Seq<u8>,
    agent_id: u64,
    owner: Address,
    rest: Seq<u8>,
)
    requires
        discriminator.len() == 8,
    ensures
        agent_header(discriminator + spec_u64_to_le_bytes(agent_id) + owner@ + rest) == Some(
            AgentHeader { agent_id, owner: owner@ },
        ),
{
    lemma_auto_spec_u64_to_from_le_bytes();
    let id_bytes = spec_u64_to_le_bytes(agent_id);
    let data = discriminator + id_bytes + owner@ + rest;
    assert(data.subrange(8, 16) =~= id_bytes);
    assert(data.subrange(16, 48) =~= owner@);
}

/// The counters only go up: an accepted request adds one to
/// `total_requests` and leaves `total_responses`; an accepted response
/// leaves `total_requests` and adds one to `total_responses` when the
/// request was pending, and nothing otherwise.
pub proof fn lemma_counters_only_go_up(
    ctx: RespondToValidation,
    response: u8,
    response_uri: Seq<char>,
)
    requires
        respond_rejection(ctx, response, response_uri) is None,
    ensures
        ({
            let request = ctx.validation_request.unwrap();
            let after = config_after_response(ctx.config, request);
            &&& after.total_requests == ctx.config.total_requests
            &&& after.total_responses == ctx.config.total_responses + if request.responded_at == 0 {
                1int
            } else {
                0int
            }
            &&& after.authority == ctx.config.authority
            &&& after.identity_registry == ctx.config.identity_registry
        }),
{
}

} // verus!
