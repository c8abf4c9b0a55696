use crate::address::Address;
use crate::text::{byte_len, stored_len};
use crate::validation::contexts::{
    CloseValidation, Initialize, RequestValidation, RespondToValidation,
};
use crate::validation::error::ValidationError;
use crate::validation::events::{ValidationRequested, ValidationResponded};
use crate::validation::state::{
    agent_header, no_response_hash, read_agent_header, StoredRecord, ValidationConfig,
    ValidationRequest,
};
use vstd::prelude::*;

pub mod contexts;
pub mod error;
pub mod events;
pub mod laws;
pub mod state;

verus! {

/// Largest response that a validator may give.
pub const MAX_RESPONSE: u8 = 100;

/// Creates the configuration record, with the caller as authority, the
/// given identity ledger and both counters at 0. Refused when the record
/// already exists.
pub fn initialize(ctx: &mut Initialize, identity_registry: Address) -> (r: Result<(), ValidationError>)
    ensures
        r is Ok <==> old(ctx).config is None,
        r is Err ==> r == Err::<(), ValidationError>(ValidationError::AlreadyInitialized)
            && *final(ctx) == *old(ctx),
        r is Ok ==> *final(ctx) == (Initialize {
            config: Some(
                ValidationConfig {
                    authority: old(ctx).authority,
                    identity_registry,
                    total_requests: 0,
                    total_responses: 0,
                    bump: old(ctx).config_bump,
                },
            ),
            ..*old(ctx)
        }),
{
    if ctx.config.is_some() {
        return Err(ValidationError::AlreadyInitialized);
    }
    ctx.config = Some(
        ValidationConfig {
            authority: ctx.authority,
            identity_registry,
            total_requests: 0,
            total_responses: 0,
            bump: ctx.config_bump,
        },
    );
    Ok(())
}

/// The stored record is the record of agent `agent_id` in the ledger
/// `identity_registry`.
pub open spec fn is_agent_record(
    record: StoredRecord,
    identity_registry: Address,
    agent_id: u64,
) -> bool {
    &&& record.owner == identity_registry
    &&& agent_header(record.data@) matches Some(header)
    &&& header.agent_id == agent_id
}

/// The owner that a stored agent record names.
pub open spec fn recorded_owner(record: StoredRecord) -> Seq<u8>
    recommends
        agent_header(record.data@) is Some,
{
    agent_header(record.data@).unwrap().owner
}

/// Why a validation request is refused, if it is. The checks come in this
/// order.
pub open spec fn request_validation_rejection(
    ctx: RequestValidation,
    agent_id: u64,
    request_uri: Seq<char>,
) -> Option<ValidationError> {
    if ctx.agent_account.owner != ctx.config.identity_registry {
        Some(ValidationError::AgentNotFound)
    } else if byte_len(request_uri) > ValidationRequest::MAX_URI_LENGTH {
        Some(ValidationError::RequestUriTooLong)
    } else if !is_agent_record(ctx.agent_account, ctx.config.identity_registry, agent_id) {
        Some(ValidationError::AgentNotFound)
    } else if recorded_owner(ctx.agent_account) != ctx.requester@ {
        Some(ValidationError::UnauthorizedRequester)
    } else if ctx.config.total_requests == u64::MAX {
        Some(ValidationError::Overflow)
    } else if ctx.validation_request is Some {
        Some(ValidationError::AlreadyInitialized)
    } else {
        None
    }
}

/// Requests a validation of an agent by a validator.
///
/// The URI must be at most 200 bytes, and the caller must be the owner that
/// the agent's record in the identity ledger names. Then the request record
/// is created pending (`response` 0, `responded_at` 0, response hash zero)
/// and `total_requests` goes up by one. On refusal nothing changes.
pub fn request_validation(
    ctx: &mut RequestValidation,
    agent_id: u64,
    validator_address: Address,
    nonce: u32,
    request_uri: String,
    request_hash: [u8; 32],
    now: i64,
) -> (r: Result<ValidationRequested, ValidationError>)
    ensures
        match r {
            Ok(event) => {
                &&& request_validation_rejection(*old(ctx), agent_id, request_uri@) is None
                &&& *final(ctx) == (RequestValidation {
                    config: ValidationConfig {
                        total_requests: (old(ctx).config.total_requests + 1) as u64,
                        ..old(ctx).config
                    },
                    validation_request: Some(
                        ValidationRequest {
                            agent_id,
                            validator_address,
                            nonce,
                            request_hash,
                            response_hash: no_response_hash(),
                            response: 0,
                            created_at: now,
                            responded_at: 0,
                            bump: old(ctx).validation_request_bump,
                        },
                    ),
                    ..*old(ctx)
                })
                &&& event == (ValidationRequested {
                    agent_id,
                    validator_address,
                    nonce,
                    request_uri,
                    request_hash,
                    requester: old(ctx).requester,
                    created_at: now,
                })
            },
            Err(e) => {
                &&& request_validation_rejection(*old(ctx), agent_id, request_uri@) == Some(e)
                &&& *final(ctx) == *old(ctx)
            },
        },
{
    if ctx.agent_account.owner != ctx.config.identity_registry {
        return Err(ValidationError::AgentNotFound);
    }
    if stored_len(request_uri.as_str()) > ValidationRequest::MAX_URI_LENGTH {
        return Err(ValidationError::RequestUriTooLong);
    }
    match read_agent_header(ctx.agent_account.data.as_slice()) {
        None => {
            return Err(ValidationError::AgentNotFound);
        },
        Some((stored_agent_id, stored_owner)) => {
            if stored_agent_id != agent_id {
                return Err(ValidationError::AgentNotFound);
            }
            if stored_owner != ctx.requester {
                proof {
                    if stored_owner@ == ctx.requester@ {
                        Address::lemma_view_injective(stored_owner, ctx.requester);
                    }
                }
                return Err(ValidationError::UnauthorizedRequester);
            }
        },
    }
    if ctx.config.total_requests == u64::MAX {
        return Err(ValidationError::Overflow);
    }
    if ctx.validation_request.is_some() {
        return Err(ValidationError::AlreadyInitialized);
    }
    let event = ValidationRequested {
        agent_id,
        validator_address,
        nonce,
        request_uri,
        request_hash,
        requester: ctx.requester,
        created_at: now,
    };
    ctx.validation_request = Some(
        ValidationRequest {
            agent_id,
            validator_address,
            nonce,
            request_hash,
            response_hash: [0u8; 32],
            response: 0,
            created_at: now,
            responded_at: 0,
            bump: ctx.validation_request_bump,
        },
    );
    ctx.config.total_requests = ctx.config.total_requests + 1;
    Ok(event)
}

/// Why a response is refused, if it is. The checks come in this order.
pub open spec fn respond_rejection(
    ctx: RespondToValidation,
    response: u8,
    response_uri: Seq<char>,
) -> Option<ValidationError> {
    match ctx.validation_request {
        None => Some(ValidationError::RequestNotFound),
        Some(request) => if request.validator_address != ctx.validator {
            Some(ValidationError::UnauthorizedValidator)
        } else if response > MAX_RESPONSE {
            Some(ValidationError::InvalidResponse)
        } else if byte_len(response_uri) > ValidationRequest::MAX_URI_LENGTH {
            Some(ValidationError::ResponseUriTooLong)
        } else if request.responded_at == 0 && ctx.config.total_responses == u64::MAX {
            Some(ValidationError::Overflow)
        } else {
            None
        },
    }
}

/// The request after a response: its response, response hash and response
/// time are replaced.
pub open spec fn request_after_response(
    request: ValidationRequest,
    response: u8,
    response_hash: [u8; 32],
    now: i64,
) -> ValidationRequest {
    ValidationRequest { response, response_hash, responded_at: now, ..request }
}

/// The configuration after a response to `request`: a first response is
/// counted, a later one is not.
pub open spec fn config_after_response(
    config: ValidationConfig,
    request: ValidationRequest,
) -> ValidationConfig
    recommends
        request.responded_at == 0 ==> config.total_responses < u64::MAX,
{
    if request.responded_at == 0 {
        ValidationConfig { total_responses: (config.total_responses + 1) as u64, ..config }
    } else {
        config
    }
}

/// Records the validator's response to a request.
///
/// Only the request's validator may respond, with a response of at most 100
/// and a URI of at most 200 bytes. The request takes the response, its hash
/// and `now` as response time; `total_responses` goes up by one when the
/// request was pending and stays when it was responded to before. On
/// refusal nothing changes.
pub fn respond_to_validation(
    ctx: &mut RespondToValidation,
    response: u8,
    response_uri: String,
    response_hash: [u8; 32],
    tag: [u8; 32],
    now: i64,
) -> (r: Result<ValidationResponded, ValidationError>)
    ensures
        match r {
            Ok(event) => {
                &&& respond_rejection(*old(ctx), response, response_uri@) is None
                &&& old(ctx).validation_request matches Some(request)
                &&& *final(ctx) == (RespondToValidation {
                    config: config_after_response(old(ctx).config, request),
                    validation_request: Some(
                        request_after_response(request, response, response_hash, now),
                    ),
                    ..*old(ctx)
                })
                &&& event == (ValidationResponded {
                    agent_id: request.agent_id,
                    validator_address: request.validator_address,
                    nonce: request.nonce,
                    response,
                    response_uri,
                    response_hash,
                    tag,
                    responded_at: now,
                })
            },
            Err(e) => {
                &&& respond_rejection(*old(ctx), response, response_uri@) == Some(e)
                &&& *final(ctx) == *old(ctx)
            },
        },
{
    let request = match ctx.validation_request {
        Some(request) => request,
        None => {
            return Err(ValidationError::RequestNotFound);
        },
    };
    if request.validator_address != ctx.validator {
        return Err(ValidationError::UnauthorizedValidator);
    }
    if response > MAX_RESPONSE {
        return Err(ValidationError::InvalidResponse);
    }
    if stored_len(response_uri.as_str()) > ValidationRequest::MAX_URI_LENGTH {
        return Err(ValidationError::ResponseUriTooLong);
    }
    let is_first_response = request.responded_at == 0;
    if is_first_response {
        if ctx.config.total_responses == u64::MAX {
            return Err(ValidationError::Overflow);
        }
        ctx.config.total_responses = ctx.config.total_responses + 1;
    }
    ctx.validation_request = Some(
        ValidationRequest {
            agent_id: request.agent_id,
            validator_address: request.validator_address,
            nonce: request.nonce,
            request_hash: request.request_hash,
            response_hash,
            response,
            created_at: request.created_at,
            responded_at: now,
            bump: request.bump,
        },
    );
    Ok(
        ValidationResponded {
            agent_id: request.agent_id,
            validator_address: request.validator_address,
            nonce: request.nonce,
            response,
            response_uri,
            response_hash,
            tag,
            responded_at: now,
        },
    )
}

/// Replaces the validator's response to a request: the same as
/// `respond_to_validation`.
pub fn update_validation(
    ctx: &mut RespondToValidation,
    response: u8,
    response_uri: String,
    response_hash: [u8; 32],
    tag: [u8; 32],
    now: i64,
) -> (r: Result<ValidationResponded, ValidationError>)
    ensures
        match r {
            Ok(event) => {
                &&& respond_rejection(*old(ctx), response, response_uri@) is None
                &&& old(ctx).validation_request matches Some(request)
                &&& *final(ctx) == (RespondToValidation {
                    config: config_after_response(old(ctx).config, request),
                    validation_request: Some(
                        request_after_response(request, response, response_hash, now),
                    ),
                    ..*old(ctx)
                })
                &&& event == (ValidationResponded {
                    agent_id: request.agent_id,
                    validator_address: request.validator_address,
                    nonce: request.nonce,
                    response,
                    response_uri,
                    response_hash,
                    tag,
                    responded_at: now,
                })
            },
            Err(e) => {
                &&& respond_rejection(*old(ctx), response, response_uri@) == Some(e)
                &&& *final(ctx) == *old(ctx)
            },
        },
{
    respond_to_validation(ctx, response, response_uri, response_hash, tag, now)
}

/// The caller may close a request on agent `agent_id`: the registry
/// authority, or the owner that the agent's record names.
pub open spec fn may_close(ctx: CloseValidation, agent_id: u64) -> bool {
    ||| ctx.authority == ctx.config.authority
    ||| (is_agent_record(ctx.agent_account, ctx.config.identity_registry, agent_id)
        && recorded_owner(ctx.agent_account) == ctx.authority@)
}

/// Why closing a request is refused, if it is.
pub open spec fn close_validation_rejection(ctx: CloseValidation) -> Option<ValidationError> {
    match ctx.validation_request {
        None => Some(ValidationError::RequestNotFound),
        Some(request) => if !may_close(ctx, request.agent_id) {
            Some(ValidationError::UnauthorizedRequester)
        } else {
            None
        },
    }
}

/// Removes a request record.
///
/// Only the registry authority or the agent's owner may close a request.
/// The record is removed, and the address returned is the receiver of what
/// the record reserved. The counters are not touched. On refusal nothing
/// changes.
pub fn close_validation(ctx: &mut CloseValidation) -> (r: Result<Address, ValidationError>)
    ensures
        match r {
            Ok(receiver) => {
                &&& close_validation_rejection(*old(ctx)) is None
                &&& *final(ctx) == (CloseValidation { validation_request: None, ..*old(ctx) })
                &&& receiver == old(ctx).rent_receiver
            },
            Err(e) => {
                &&& close_validation_rejection(*old(ctx)) == Some(e)
                &&& *final(ctx) == *old(ctx)
            },
        },
{
    let request = match ctx.validation_request {
        Some(request) => request,
        None => {
            return Err(ValidationError::RequestNotFound);
        },
    };
    if ctx.authority != ctx.config.authority {
        if ctx.agent_account.owner != ctx.config.identity_registry {
            return Err(ValidationError::UnauthorizedRequester);
        }
        match read_agent_header(ctx.agent_account.data.as_slice()) {
            None => {
                return Err(ValidationError::UnauthorizedRequester);
            },
            Some((stored_agent_id, stored_owner)) => {
                if stored_agent_id != request.agent_id {
                    return Err(ValidationError::UnauthorizedRequester);
                }
                if stored_owner != ctx.authority {
                    proof {
                        if stored_owner@ == ctx.authority@ {
                            Address::lemma_view_injective(stored_owner, ctx.authority);
                        }
                    }
                    return Err(ValidationError::UnauthorizedRequester);
                }
            },
        }
    }
    ctx.validation_request = None;
    Ok(ctx.rent_receiver)
}

} // verus!
