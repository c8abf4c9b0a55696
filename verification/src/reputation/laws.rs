use crate::address::Address;
use crate::reputation::contexts::{AppendResponse, GiveFeedback, RevokeFeedback};
use crate::reputation::error::ReputationError;
use crate::reputation::state::{AgentReputationMetadata, FeedbackAccount, ResponseAccount};
use crate::reputation::{
    after_give_feedback, after_revoke_feedback, append_response_rejection, created_feedback,
    give_feedback_rejection, next_feedback_index, next_response_index, revoke_feedback_rejection,
    MAX_SCORE,
};
use crate::text::byte_len;
use vstd::prelude::*;

verus! {

/// A feedback whose index is not the caller's next index is refused: for
/// the index when score and URI are in order and the agent exists, for one
/// of those otherwise.
pub proof fn lemma_wrong_index_refused(
    ctx: GiveFeedback,
    agent_id: u64,
    score: u8,
    file_uri: Seq<char>,
    feedback_index: u64,
)
    requires
        feedback_index != next_feedback_index(ctx.client_index),
    ensures
        give_feedback_rejection(ctx, agent_id, score, file_uri, feedback_index) is Some,
        score <= MAX_SCORE && byte_len(file_uri) <= FeedbackAccount::MAX_URI_LENGTH && (
        ctx.agent_account matches Some(agent) && agent.agent_id == agent_id)
            ==> give_feedback_rejection(ctx, agent_id, score, file_uri, feedback_index) == Some(
            ReputationError::InvalidFeedbackIndex,
        ),
{
}

/// An accepted feedback carries the caller's next index, and moves the
/// next index up by one.
pub proof fn lemma_accepted_index_advances(
    ctx: GiveFeedback,
    agent_id: u64,
    score: u8,
    tag1: [u8; 32],
    tag2: [u8; 32],
    file_uri: String,
    file_hash: [u8; 32],
    feedback_index: u64,
    now: i64,
)
    requires
        give_feedback_rejection(ctx, agent_id, score, file_uri@, feedback_index) is None,
    ensures
        feedback_index == next_feedback_index(ctx.client_index),
        next_feedback_index(
            after_give_feedback(
                ctx,
                agent_id,
                score,
                tag1,
                tag2,
                file_uri,
                file_hash,
                feedback_index,
                now,
            ).client_index,
        ) == feedback_index + 1,
{
}

/// A score over 100 is refused as invalid, whatever else holds; a score of
/// at most 100 is never refused as invalid.
pub proof fn lemma_score_limit(
    ctx: GiveFeedback,
    agent_id: u64,
    score: u8,
    file_uri: Seq<char>,
    feedback_index: u64,
)
    ensures
        score > MAX_SCORE <==> give_feedback_rejection(ctx, agent_id, score, file_uri, feedback_index)
            == Some(ReputationError::InvalidScore),
{
}

/// Only the client who gave a feedback revokes it: any other caller is
/// refused as unauthorized.
pub proof fn lemma_only_author_revokes(ctx: RevokeFeedback, agent_id: u64, feedback_index: u64)
    requires
        ctx.feedback_account matches Some(feedback) && feedback.agent_id == agent_id
            && feedback.feedback_index == feedback_index && feedback.client_address != ctx.client,
    ensures
        revoke_feedback_rejection(ctx, agent_id, feedback_index) == Some(
            ReputationError::Unauthorized,
        ),
{
}

/// Revoking the same feedback twice: the author's second attempt on the
/// record that the first one left is refused as already revoked, whatever
/// the statistics are by then.
pub proof fn lemma_revoke_twice_refused(
    ctx: RevokeFeedback,
    agent_id: u64,
    feedback_index: u64,
    now: i64,
    statistics: AgentReputationMetadata,
)
    requires
        revoke_feedback_rejection(ctx, agent_id, feedback_index) is None,
    ensures
        revoke_feedback_rejection(
            RevokeFeedback { agent_reputation: statistics, ..after_revoke_feedback(ctx, now) },
            agent_id,
            feedback_index,
        ) == Some(ReputationError::AlreadyRevoked),
{
}

/// A revocation undoes what the feedback added to the statistics: the
/// count and the sum are what they were before the feedback.
pub proof fn lemma_revoke_undoes_feedback(
    stats: AgentReputationMetadata,
    score: u8,
    now: i64,
    later: i64,
)
    requires
        stats.can_add(score),
    ensures
        stats.with_feedback(score, now).can_remove(score),
        stats.with_feedback(score, now).without_feedback(score, later).total_feedbacks
            == stats.total_feedbacks,
        stats.with_feedback(score, now).without_feedback(score, later).total_score_sum
            == stats.total_score_sum,
{
}

/// A feedback record is created within its limits and fits the space that
/// is set aside for it; a revocation keeps both.
pub proof fn lemma_feedback_fits_its_space(
    ctx: GiveFeedback,
    agent_id: u64,
    score: u8,
    tag1: [u8; 32],
    tag2: [u8; 32],
    file_uri: String,
    file_hash: [u8; 32],
    feedback_index: u64,
    now: i64,
)
    requires
        give_feedback_rejection(ctx, agent_id, score, file_uri@, feedback_index) is None,
    ensures
        ({
            let record = created_feedback(
                ctx,
                agent_id,
                score,
                tag1,
                tag2,
                file_uri,
                file_hash,
                feedback_index,
                now,
            );
            &&& record.within_limits()
            &&& record.stored_size() <= FeedbackAccount::MAX_SIZE
            &&& record.revoked().within_limits()
            &&& record.revoked().stored_size() == record.stored_size()
        }),
{
}

/// A response record with a URI of at most 200 bytes fits the space that
/// is set aside for it, and an accepted response has such a URI.
pub proof fn lemma_response_fits_its_space(
    ctx: AppendResponse,
    agent_id: u64,
    client_address: Address,
    feedback_index: u64,
    record: ResponseAccount,
)
    requires
        append_response_rejection(ctx, agent_id, client_address, feedback_index, record.response_uri@)
            is None,
    ensures
        record.stored_size() <= ResponseAccount::MAX_SIZE,
        next_response_index(ctx.response_index) < u64::MAX,
{
}

/// A response gets the index 0 when it is the first to its feedback, and
/// else the index that the sequence record holds; a response whose
/// feedback is at hand is refused for nothing about the caller.
pub proof fn lemma_anyone_may_respond(
    ctx: AppendResponse,
    other: Address,
    agent_id: u64,
    client_address: Address,
    feedback_index: u64,
    response_uri: Seq<char>,
)
    ensures
        append_response_rejection(
            AppendResponse { responder: other, ..ctx },
            agent_id,
            client_address,
            feedback_index,
            response_uri,
        ) == append_response_rejection(ctx, agent_id, client_address, feedback_index, response_uri),
        ctx.response_index is None ==> next_response_index(ctx.response_index) == 0,
{
}

} // verus!
