use crate::address::Address;
use crate::reputation::contexts::{AppendResponse, GiveFeedback, Initialize, RevokeFeedback};
use crate::reputation::error::ReputationError;
use crate::reputation::events::{FeedbackRevoked, NewFeedback, ResponseAppended};
use crate::reputation::state::{
    AgentReputationMetadata, ClientIndexAccount, FeedbackAccount, ResponseAccount,
    ResponseIndexAccount,
};
use crate::text::{byte_len, stored_len};
use vstd::prelude::*;

pub mod contexts;
pub mod error;
pub mod events;
pub mod laws;
pub mod ledger;
pub mod message;
pub mod state;

verus! {

/// Largest score that feedback may carry.
pub const MAX_SCORE: u8 = 100;

/// The reputation ledger needs no setup: this does nothing and succeeds.
pub fn initialize(ctx: &Initialize) -> (r: Result<(), ReputationError>)
    ensures
        r is Ok,
{
    Ok(())
}

/// The index that the next feedback of a client must carry: 0 without a
/// sequence record, else the record's `last_index`.
pub open spec fn next_feedback_index(client_index: Option<ClientIndexAccount>) -> u64 {
    match client_index {
        Some(sequence) => sequence.last_index,
        None => 0,
    }
}

/// Why a feedback is refused, if it is. The checks come in this order.
pub open spec fn give_feedback_rejection(
    ctx: GiveFeedback,
    agent_id: u64,
    score: u8,
    file_uri: Seq<char>,
    feedback_index: u64,
) -> Option<ReputationError> {
    if score > MAX_SCORE {
        Some(ReputationError::InvalidScore)
    } else if byte_len(file_uri) > FeedbackAccount::MAX_URI_LENGTH {
        Some(ReputationError::UriTooLong)
    } else if !(ctx.agent_account matches Some(agent) && agent.agent_id == agent_id) {
        Some(ReputationError::AgentNotFound)
    } else if ctx.client_index matches Some(sequence) && (sequence.agent_id != agent_id
        || sequence.client_address != ctx.client) {
        Some(ReputationError::InvalidFeedbackIndex)
    } else if feedback_index != next_feedback_index(ctx.client_index) {
        Some(ReputationError::InvalidFeedbackIndex)
    } else if feedback_index == u64::MAX {
        Some(ReputationError::Overflow)
    } else if ctx.agent_reputation matches Some(stats) && stats.agent_id != agent_id {
        Some(ReputationError::AgentNotFound)
    } else if ctx.agent_reputation matches Some(stats) && !stats.can_add(score) {
        Some(ReputationError::Overflow)
    } else if ctx.feedback_account is Some {
        Some(ReputationError::AlreadyInitialized)
    } else {
        None
    }
}

/// The sequence record of a client after a feedback at `feedback_index`.
pub open spec fn sequence_after_feedback(
    ctx: GiveFeedback,
    agent_id: u64,
    feedback_index: u64,
) -> ClientIndexAccount
    recommends
        feedback_index < u64::MAX,
{
    ClientIndexAccount {
        agent_id,
        client_address: ctx.client,
        last_index: (feedback_index + 1) as u64,
        bump: match ctx.client_index {
            Some(sequence) => sequence.bump,
            None => ctx.client_index_bump,
        },
    }
}

/// The statistics of an agent after one more feedback.
pub open spec fn aggregate_after_feedback(
    ctx: GiveFeedback,
    agent_id: u64,
    score: u8,
    now: i64,
) -> AgentReputationMetadata {
    match ctx.agent_reputation {
        Some(stats) => stats.with_feedback(score, now),
        None => AgentReputationMetadata::first(agent_id, score, now, ctx.agent_reputation_bump),
    }
}

/// The feedback record that a feedback creates: unrevoked, with `now` as
/// creation time.
pub open spec fn created_feedback(
    ctx: GiveFeedback,
    agent_id: u64,
    score: u8,
    tag1: [u8; 32],
    tag2: [u8; 32],
    file_uri: String,
    file_hash: [u8; 32],
    feedback_index: u64,
    now: i64,
) -> FeedbackAccount {
    FeedbackAccount {
        agent_id,
        client_address: ctx.client,
        feedback_index,
        score,
        tag1,
        tag2,
        file_uri,
        file_hash,
        is_revoked: false,
        created_at: now,
        bump: ctx.feedback_account_bump,
    }
}

/// What `give_feedback` leaves behind when it accepts.
pub open spec fn after_give_feedback(
    ctx: GiveFeedback,
    agent_id: u64,
    score: u8,
    tag1: [u8; 32],
    tag2: [u8; 32],
    file_uri: String,
    file_hash: [u8; 32],
    feedback_index: u64,
    now: i64,
) -> GiveFeedback {
    GiveFeedback {
        client_index: Some(sequence_after_feedback(ctx, agent_id, feedback_index)),
        feedback_account: Some(
            created_feedback(
                ctx,
                agent_id,
                score,
                tag1,
                tag2,
                file_uri,
                file_hash,
                feedback_index,
                now,
            ),
        ),
        agent_reputation: Some(aggregate_after_feedback(ctx, agent_id, score, now)),
        ..ctx
    }
}

/// Gives feedback on an agent.
///
/// The score must be at most 100, the URI at most 200 bytes, the agent must
/// exist, and `feedback_index` must be the caller's next index on this
/// agent. Then the caller's sequence advances by one, the feedback record is
/// created unrevoked, and the agent's statistics count one more feedback
/// with this score. On refusal nothing changes.
pub fn give_feedback(
    ctx: &mut GiveFeedback,
    agent_id: u64,
    score: u8,
    tag1: [u8; 32],
    tag2: [u8; 32],
    file_uri: String,
    file_hash: [u8; 32],
    feedback_index: u64,
    now: i64,
) -> (r: Result<NewFeedback, ReputationError>)
    ensures
        match r {
            Ok(event) => {
                &&& give_feedback_rejection(*old(ctx), agent_id, score, file_uri@, feedback_index)
                    is None
                &&& *final(ctx) == after_give_feedback(
                    *old(ctx),
                    agent_id,
                    score,
                    tag1,
                    tag2,
                    file_uri,
                    file_hash,
                    feedback_index,
                    now,
                )
                &&& event == (NewFeedback {
                    agent_id,
                    client_address: old(ctx).client,
                    feedback_index,
                    score,
                    tag1,
                    tag2,
                    file_uri,
                    file_hash,
                })
            },
            Err(e) => {
                &&& give_feedback_rejection(*old(ctx), agent_id, score, file_uri@, feedback_index)
                    == Some(e)
                &&& *final(ctx) == *old(ctx)
            },
        },
{
    if score > MAX_SCORE {
        return Err(ReputationError::InvalidScore);
    }
    if stored_len(file_uri.as_str()) > FeedbackAccount::MAX_URI_LENGTH {
        return Err(ReputationError::UriTooLong);
    }
    match ctx.agent_account {
        Some(agent) => {
            if agent.agent_id != agent_id {
                return Err(ReputationError::AgentNotFound);
            }
        },
        None => {
            return Err(ReputationError::AgentNotFound);
        },
    }
    let (expected, sequence_bump) = match ctx.client_index {
        Some(sequence) => {
            if sequence.agent_id != agent_id || sequence.client_address != ctx.client {
                return Err(ReputationError::InvalidFeedbackIndex);
            }
            (sequence.last_index, sequence.bump)
        },
        None => (0u64, ctx.client_index_bump),
    };
    if feedback_index != expected {
        return Err(ReputationError::InvalidFeedbackIndex);
    }
    if feedback_index == u64::MAX {
        return Err(ReputationError::Overflow);
    }
    let stats = match ctx.agent_reputation {
        Some(stats) => {
            if stats.agent_id != agent_id {
                return Err(ReputationError::AgentNotFound);
            }
            if stats.total_feedbacks == u64::MAX || stats.total_score_sum > u64::MAX - (score as u64) {
                return Err(ReputationError::Overflow);
            }
            let count = stats.total_feedbacks + 1;
            let sum = stats.total_score_sum + (score as u64);
            AgentReputationMetadata {
                agent_id: stats.agent_id,
                total_feedbacks: count,
                total_score_sum: sum,
                average_score: AgentReputationMetadata::average(sum, count),
                last_updated: now,
                bump: stats.bump,
            }
        },
        None => AgentReputationMetadata {
            agent_id,
            total_feedbacks: 1,
            total_score_sum: score as u64,
            average_score: AgentReputationMetadata::average(score as u64, 1),
            last_updated: now,
            bump: ctx.agent_reputation_bump,
        },
    };
    if ctx.feedback_account.is_some() {
        return Err(ReputationError::AlreadyInitialized);
    }
    let event = NewFeedback {
        agent_id,
        client_address: ctx.client,
        feedback_index,
        score,
        tag1,
        tag2,
        file_uri: file_uri.clone(),
        file_hash,
    };
    ctx.client_index = Some(
        ClientIndexAccount {
            agent_id,
            client_address: ctx.client,
            last_index: feedback_index + 1,
            bump: sequence_bump,
        },
    );
    ctx.feedback_account = Some(
        FeedbackAccount {
            agent_id,
            client_address: ctx.client,
            feedback_index,
            score,
            tag1,
            tag2,
            file_uri,
            file_hash,
            is_revoked: false,
            created_at: now,
            bump: ctx.feedback_account_bump,
        },
    );
    ctx.agent_reputation = Some(stats);
    Ok(event)
}

/// Why a revocation is refused, if it is. The checks come in this order.
pub open spec fn revoke_feedback_rejection(
    ctx: RevokeFeedback,
    agent_id: u64,
    feedback_index: u64,
) -> Option<ReputationError> {
    match ctx.feedback_account {
        None => Some(ReputationError::FeedbackNotFound),
        Some(feedback) => if feedback.agent_id != agent_id || feedback.feedback_index
            != feedback_index {
            Some(ReputationError::FeedbackNotFound)
        } else if feedback.client_address != ctx.client {
            Some(ReputationError::Unauthorized)
        } else if feedback.is_revoked {
            Some(ReputationError::AlreadyRevoked)
        } else if ctx.agent_reputation.agent_id != agent_id {
            Some(ReputationError::AgentNotFound)
        } else if !ctx.agent_reputation.can_remove(feedback.score) {
            Some(ReputationError::Overflow)
        } else {
            None
        },
    }
}

/// What `revoke_feedback` leaves behind when it accepts: the record is
/// marked, and the statistics count it no more.
pub open spec fn after_revoke_feedback(ctx: RevokeFeedback, now: i64) -> RevokeFeedback
    recommends
        ctx.feedback_account is Some,
{
    let feedback = ctx.feedback_account.unwrap();
    RevokeFeedback {
        feedback_account: Some(feedback.revoked()),
        agent_reputation: ctx.agent_reputation.without_feedback(feedback.score, now),
        ..ctx
    }
}

/// Revokes a feedback.
///
/// Only the client who gave the feedback may revoke it, and only once. The
/// record stays, with its revocation mark set, and the agent's statistics
/// count one feedback less, without its score; the average is 0 when no
/// feedback is left. On refusal nothing changes.
pub fn revoke_feedback(
    ctx: &mut RevokeFeedback,
    agent_id: u64,
    feedback_index: u64,
    now: i64,
) -> (r: Result<FeedbackRevoked, ReputationError>)
    ensures
        match r {
            Ok(event) => {
                &&& revoke_feedback_rejection(*old(ctx), agent_id, feedback_index) is None
                &&& *final(ctx) == after_revoke_feedback(*old(ctx), now)
                &&& event == (FeedbackRevoked {
                    agent_id,
                    client_address: old(ctx).client,
                    feedback_index,
                })
            },
            Err(e) => {
                &&& revoke_feedback_rejection(*old(ctx), agent_id, feedback_index) == Some(e)
                &&& *final(ctx) == *old(ctx)
            },
        },
{
    let stats = ctx.agent_reputation;
    let client = ctx.client;
    match &mut ctx.feedback_account {
        None => Err(ReputationError::FeedbackNotFound),
        Some(feedback) => {
            if feedback.agent_id != agent_id || feedback.feedback_index != feedback_index {
                return Err(ReputationError::FeedbackNotFound);
            }
            if feedback.client_address != client {
                return Err(ReputationError::Unauthorized);
            }
            if feedback.is_revoked {
                return Err(ReputationError::AlreadyRevoked);
            }
            if stats.agent_id != agent_id {
                return Err(ReputationError::AgentNotFound);
            }
            let score = feedback.score as u64;
            if stats.total_feedbacks == 0 || stats.total_score_sum < score {
                return Err(ReputationError::Overflow);
            }
            feedback.is_revoked = true;
            let count = stats.total_feedbacks - 1;
            let sum = stats.total_score_sum - score;
            ctx.agent_reputation = AgentReputationMetadata {
                agent_id: stats.agent_id,
                total_feedbacks: count,
                total_score_sum: sum,
                average_score: AgentReputationMetadata::average(sum, count),
                last_updated: now,
                bump: stats.bump,
            };
            Ok(FeedbackRevoked { agent_id, client_address: client, feedback_index })
        },
    }
}

/// The index that the next response to a feedback gets: 0 without a
/// sequence record, else the record's `next_index`.
pub open spec fn next_response_index(response_index: Option<ResponseIndexAccount>) -> u64 {
    match response_index {
        Some(sequence) => sequence.next_index,
        None => 0,
    }
}

/// Why a response is refused, if it is. The checks come in this order.
pub open spec fn append_response_rejection(
    ctx: AppendResponse,
    agent_id: u64,
    client_address: Address,
    feedback_index: u64,
    response_uri: Seq<char>,
) -> Option<ReputationError> {
    if byte_len(response_uri) > ResponseAccount::MAX_URI_LENGTH {
        Some(ReputationError::ResponseUriTooLong)
    } else if !(ctx.feedback_account matches Some(feedback) && feedback.agent_id == agent_id
        && feedback.client_address == client_address && feedback.feedback_index
        == feedback_index) {
        Some(ReputationError::FeedbackNotFound)
    } else if ctx.response_index matches Some(sequence) && (sequence.agent_id != agent_id
        || sequence.client_address != client_address || sequence.feedback_index
        != feedback_index) {
        Some(ReputationError::ResponseNotFound)
    } else if next_response_index(ctx.response_index) == u64::MAX {
        Some(ReputationError::Overflow)
    } else if ctx.response_account is Some {
        Some(ReputationError::AlreadyInitialized)
    } else {
        None
    }
}

/// Appends a response to a feedback. Any caller may respond.
///
/// The URI must be at most 200 bytes and the feedback must exist. The
/// response gets the feedback's next response index, counted from 0, the
/// sequence advances by one, and the response record is created. The agent's
/// statistics are not touched. On refusal nothing changes.
pub fn append_response(
    ctx: &mut AppendResponse,
    agent_id: u64,
    client_address: Address,
    feedback_index: u64,
    response_uri: String,
    response_hash: [u8; 32],
    now: i64,
) -> (r: Result<ResponseAppended, ReputationError>)
    ensures
        match r {
            Ok(event) => {
                &&& append_response_rejection(
                    *old(ctx),
                    agent_id,
                    client_address,
                    feedback_index,
                    response_uri@,
                ) is None
                &&& *final(ctx) == (AppendResponse {
                    response_index: Some(
                        ResponseIndexAccount {
                            agent_id,
                            client_address,
                            feedback_index,
                            next_index: (next_response_index(old(ctx).response_index) + 1) as u64,
                            bump: match old(ctx).response_index {
                                Some(sequence) => sequence.bump,
                                None => old(ctx).response_index_bump,
                            },
                        },
                    ),
                    response_account: Some(
                        ResponseAccount {
                            agent_id,
                            client_address,
                            feedback_index,
                            response_index: next_response_index(old(ctx).response_index),
                            responder: old(ctx).responder,
                            response_uri,
                            response_hash,
                            created_at: now,
                            bump: old(ctx).response_account_bump,
                        },
                    ),
                    ..*old(ctx)
                })
                &&& event == (ResponseAppended {
                    agent_id,
                    client_address,
                    feedback_index,
                    response_index: next_response_index(old(ctx).response_index),
                    responder: old(ctx).responder,
                    response_uri,
                })
            },
            Err(e) => {
                &&& append_response_rejection(
                    *old(ctx),
                    agent_id,
                    client_address,
                    feedback_index,
                    response_uri@,
                ) == Some(e)
                &&& *final(ctx) == *old(ctx)
            },
        },
{
    if stored_len(response_uri.as_str()) > ResponseAccount::MAX_URI_LENGTH {
        return Err(ReputationError::ResponseUriTooLong);
    }
    match &ctx.feedback_account {
        Some(feedback) => {
            if feedback.agent_id != agent_id || feedback.client_address != client_address
                || feedback.feedback_index != feedback_index {
                return Err(ReputationError::FeedbackNotFound);
            }
        },
        None => {
            return Err(ReputationError::FeedbackNotFound);
        },
    }
    let (index, sequence_bump) = match ctx.response_index {
        Some(sequence) => {
            if sequence.agent_id != agent_id || sequence.client_address != client_address
                || sequence.feedback_index != feedback_index {
                return Err(ReputationError::ResponseNotFound);
            }
            (sequence.next_index, sequence.bump)
        },
        None => (0u64, ctx.response_index_bump),
    };
    if index == u64::MAX {
        return Err(ReputationError::Overflow);
    }
    if ctx.response_account.is_some() {
        return Err(ReputationError::AlreadyInitialized);
    }
    let event = ResponseAppended {
        agent_id,
        client_address,
        feedback_index,
        response_index: index,
        responder: ctx.responder,
        response_uri: response_uri.clone(),
    };
    ctx.response_index = Some(
        ResponseIndexAccount {
            agent_id,
            client_address,
            feedback_index,
            next_index: index + 1,
            bump: sequence_bump,
        },
    );
    ctx.response_account = Some(
        ResponseAccount {
            agent_id,
            client_address,
            feedback_index,
            response_index: index,
            responder: ctx.responder,
            response_uri,
            response_hash,
            created_at: now,
            bump: ctx.response_account_bump,
        },
    );
    Ok(event)
}

} // verus!
