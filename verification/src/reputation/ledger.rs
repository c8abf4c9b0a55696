use crate::address::Address;
use crate::reputation::contexts::{GiveFeedback, RevokeFeedback};
use crate::reputation::state::{AgentReputationMetadata, ClientIndexAccount, FeedbackAccount};
use crate::reputation::{
    after_give_feedback, after_revoke_feedback, created_feedback, give_feedback_rejection,
    next_feedback_index, revoke_feedback_rejection, MAX_SCORE,
};
use vstd::prelude::*;

verus! {

/// The record counts toward the statistics of the agent: it is a feedback
/// on the agent and not revoked.
pub open spec fn is_live(record: FeedbackAccount, agent_id: u64) -> bool {
    record.agent_id == agent_id && !record.is_revoked
}

/// The record is a feedback of the client on the agent, revoked or not.
pub open spec fn is_of_pair(record: FeedbackAccount, agent_id: u64, client: Address) -> bool {
    record.agent_id == agent_id && record.client_address == client
}

/// How many of the records count toward the statistics of the agent.
pub open spec fn live_count(records: Seq<FeedbackAccount>, agent_id: u64) -> nat
    decreases records.len(),
{
    if records.len() == 0 {
        0
    } else {
        live_count(records.drop_last(), agent_id) + if is_live(records.last(), agent_id) {
            1nat
        } else {
            0nat
        }
    }
}

/// The sum of the scores of the records that count toward the statistics
/// of the agent.
pub open spec fn live_score_sum(records: Seq<FeedbackAccount>, agent_id: u64) -> nat
    decreases records.len(),
{
    if records.len() == 0 {
        0
    } else {
        live_score_sum(records.drop_last(), agent_id) + if is_live(records.last(), agent_id) {
            records.last().score as nat
        } else {
            0nat
        }
    }
}

/// How many of the records are feedbacks of the client on the agent.
pub open spec fn pair_count(records: Seq<FeedbackAccount>, agent_id: u64, client: Address) -> nat
    decreases records.len(),
{
    if records.len() == 0 {
        0
    } else {
        pair_count(records.drop_last(), agent_id, client) + if is_of_pair(
            records.last(),
            agent_id,
            client,
        ) {
            1nat
        } else {
            0nat
        }
    }
}

/// The reputation ledger as a whole: what the storage behind it holds.
pub ghost struct ReputationLedger {
    /// Every feedback record, in the order of creation. None is ever removed.
    pub records: Seq<FeedbackAccount>,
    /// The sequence records, by agent and client.
    pub sequences: Map<(u64, Address), ClientIndexAccount>,
    /// The statistics records, by agent.
    pub aggregates: Map<u64, AgentReputationMetadata>,
}

/// A request to the reputation ledger that touches the statistics.
pub ghost enum ReputationRequest {
    /// A call of `give_feedback`. Of `ctx` the caller, the agent record and
    /// the bump seeds count; the ledger fills in the three records.
    Give {
        ctx: GiveFeedback,
        agent_id: u64,
        score: u8,
        tag1: [u8; 32],
        tag2: [u8; 32],
        file_uri: String,
        file_hash: [u8; 32],
        feedback_index: u64,
        now: i64,
    },
    /// A call of `revoke_feedback` by `caller`, on the feedback that
    /// `author` gave on the agent under the index.
    Revoke { caller: Address, author: Address, agent_id: u64, feedback_index: u64, now: i64 },
}

impl ReputationLedger {
    /// The ledger before any request.
    pub open spec fn empty() -> ReputationLedger {
        ReputationLedger { records: Seq::empty(), sequences: Map::empty(), aggregates: Map::empty() }
    }

    /// Record `p` is the feedback of the client on the agent under the index.
    pub open spec fn is_feedback_at(
        self,
        p: int,
        agent_id: u64,
        client: Address,
        feedback_index: u64,
    ) -> bool {
        &&& 0 <= p < self.records.len()
        &&& is_of_pair(self.records[p], agent_id, client)
        &&& self.records[p].feedback_index == feedback_index
    }

    /// Where the feedback of the client on the agent under the index
    /// stands, if it exists.
    pub open spec fn position(
        self,
        agent_id: u64,
        client: Address,
        feedback_index: u64,
    ) -> Option<int> {
        if exists|p: int| self.is_feedback_at(p, agent_id, client, feedback_index) {
            Some(choose|p: int| self.is_feedback_at(p, agent_id, client, feedback_index))
        } else {
            None
        }
    }

    /// The feedback record of the client on the agent under the index.
    pub open spec fn feedback(self, agent_id: u64, client: Address, feedback_index: u64) -> Option<FeedbackAccount> {
        match self.position(agent_id, client, feedback_index) {
            Some(p) => Some(self.records[p]),
            None => None,
        }
    }

    /// The sequence record of the client on the agent.
    pub open spec fn sequence(self, agent_id: u64, client: Address) -> Option<ClientIndexAccount> {
        if self.sequences.contains_key((agent_id, client)) {
            Some(self.sequences[(agent_id, client)])
        } else {
            None
        }
    }

    /// The statistics record of the agent.
    pub open spec fn aggregate(self, agent_id: u64) -> Option<AgentReputationMetadata> {
        if self.aggregates.contains_key(agent_id) {
            Some(self.aggregates[agent_id])
        } else {
            None
        }
    }

    /// What `give_feedback` is handed for a request: the three records
    /// come from the ledger.
    pub open spec fn load_give(
        self,
        ctx: GiveFeedback,
        agent_id: u64,
        feedback_index: u64,
    ) -> GiveFeedback {
        GiveFeedback {
            client_index: self.sequence(agent_id, ctx.client),
            feedback_account: self.feedback(agent_id, ctx.client, feedback_index),
            agent_reputation: self.aggregate(agent_id),
            ..ctx
        }
    }

    /// The ledger after a request: an accepted request stores what the
    /// function leaves behind, a refused one changes nothing.
    pub open spec fn step(self, request: ReputationRequest) -> ReputationLedger {
        match request {
            ReputationRequest::Give {
                ctx,
                agent_id,
                score,
                tag1,
                tag2,
                file_uri,
                file_hash,
                feedback_index,
                now,
            } => {
                let loaded = self.load_give(ctx, agent_id, feedback_index);
                if give_feedback_rejection(loaded, agent_id, score, file_uri@, feedback_index)
                    is Some {
                    self
                } else {
                    let after = after_give_feedback(
                        loaded,
                        agent_id,
                        score,
                        tag1,
                        tag2,
                        file_uri,
                        file_hash,
                        feedback_index,
                        now,
                    );
                    ReputationLedger {
                        records: self.records.push(after.feedback_account.unwrap()),
                        sequences: self.sequences.insert(
                            (agent_id, ctx.client),
                            after.client_index.unwrap(),
                        ),
                        aggregates: self.aggregates.insert(agent_id, after.agent_reputation.unwrap()),
                    }
                }
            },
            ReputationRequest::Revoke { caller, author, agent_id, feedback_index, now } => {
                match (self.position(agent_id, author, feedback_index), self.aggregate(agent_id)) {
                    (Some(p), Some(stats)) => {
                        let loaded = RevokeFeedback {
                            client: caller,
                            feedback_account: Some(self.records[p]),
                            agent_reputation: stats,
                        };
                        if revoke_feedback_rejection(loaded, agent_id, feedback_index) is Some {
                            self
                        } else {
                            let after = after_revoke_feedback(loaded, now);
                            ReputationLedger {
                                records: self.records.update(p, after.feedback_account.unwrap()),
                                sequences: self.sequences,
                                aggregates: self.aggregates.insert(agent_id, after.agent_reputation),
                            }
                        }
                    },
                    _ => self,
                }
            },
        }
    }

    /// The statistics of the agent are those of its records: the count and
    /// the sum are over the feedbacks that are not revoked, and the average
    /// is the quotient rounded down, 0 for no feedback. Without a
    /// statistics record the agent has no feedback.
    pub open spec fn aggregate_ok(self, agent_id: u64) -> bool {
        match self.aggregate(agent_id) {
            Some(stats) => {
                &&& stats.agent_id == agent_id
                &&& stats.total_feedbacks == live_count(self.records, agent_id)
                &&& stats.total_score_sum == live_score_sum(self.records, agent_id)
                &&& stats.average_score == if stats.total_feedbacks == 0 {
                    0
                } else {
                    stats.total_score_sum as int / stats.total_feedbacks as int
                }
            },
            None => forall|p: int|
                0 <= p < self.records.len() ==> (#[trigger] self.records[p]).agent_id != agent_id,
        }
    }

    /// The next index of the client on the agent is the number of feedbacks
    /// that the client gave on the agent so far.
    pub open spec fn sequence_ok(self, agent_id: u64, client: Address) -> bool {
        match self.sequence(agent_id, client) {
            Some(sequence) => {
                &&& sequence.agent_id == agent_id
                &&& sequence.client_address == client
                &&& sequence.last_index == pair_count(self.records, agent_id, client)
            },
            None => pair_count(self.records, agent_id, client) == 0,
        }
    }

    /// The index of record `p` is the number of feedbacks that its client
    /// gave on its agent before it, and its score is at most 100.
    pub open spec fn record_ok(self, p: int) -> bool {
        let record = self.records[p];
        &&& record.feedback_index == pair_count(
            self.records.take(p),
            record.agent_id,
            record.client_address,
        )
        &&& record.score <= MAX_SCORE
    }

    /// What holds of the ledger after every request.
    pub open spec fn consistent(self) -> bool {
        &&& forall|agent_id: u64| #[trigger] self.aggregate_ok(agent_id)
        &&& forall|agent_id: u64, client: Address| #[trigger] self.sequence_ok(agent_id, client)
        &&& forall|p: int| 0 <= p < self.records.len() ==> #[trigger] self.record_ok(p)
    }
}

/// The ledger after a list of requests, made one after another on the
/// empty ledger.
pub open spec fn replay(requests: Seq<ReputationRequest>) -> ReputationLedger
    decreases requests.len(),
{
    if requests.len() == 0 {
        ReputationLedger::empty()
    } else {
        replay(requests.drop_last()).step(requests.last())
    }
}

/// One more record adds what it counts for.
pub proof fn lemma_counts_push(
    records: Seq<FeedbackAccount>,
    record: FeedbackAccount,
    agent_id: u64,
    client: Address,
)
    ensures
        live_count(records.push(record), agent_id) == live_count(records, agent_id) + if is_live(
            record,
            agent_id,
        ) {
            1nat
        } else {
            0nat
        },
        live_score_sum(records.push(record), agent_id) == live_score_sum(records, agent_id)
            + if is_live(record, agent_id) {
            record.score as nat
        } else {
            0nat
        },
        pair_count(records.push(record), agent_id, client) == pair_count(records, agent_id, client)
            + if is_of_pair(record, agent_id, client) {
            1nat
        } else {
            0nat
        },
{
    assert(records.push(record).drop_last() =~= records);
}

/// Replacing record `i` takes out what the old one counted for and adds
/// what the new one counts for.
pub proof fn lemma_counts_update(
    records: Seq<FeedbackAccount>,
    i: int,
    record: FeedbackAccount,
    agent_id: u64,
    client: Address,
)
    requires
        0 <= i < records.len(),
    ensures
        live_count(records.update(i, record), agent_id) + (if is_live(records[i], agent_id) {
            1nat
        } else {
            0nat
        }) == live_count(records, agent_id) + (if is_live(record, agent_id) {
            1nat
        } else {
            0nat
        }),
        live_score_sum(records.update(i, record), agent_id) + (if is_live(records[i], agent_id) {
            records[i].score as nat
        } else {
            0nat
        }) == live_score_sum(records, agent_id) + (if is_live(record, agent_id) {
            record.score as nat
        } else {
            0nat
        }),
        pair_count(records.update(i, record), agent_id, client) + (if is_of_pair(
            records[i],
            agent_id,
            client,
        ) {
            1nat
        } else {
            0nat
        }) == pair_count(records, agent_id, client) + (if is_of_pair(record, agent_id, client) {
            1nat
        } else {
            0nat
        }),
    decreases records.len(),
{
    let updated = records.update(i, record);
    if i == records.len() - 1 {
        assert(updated.drop_last() =~= records.drop_last());
    } else {
        assert(updated.drop_last() =~= records.drop_last().update(i, record));
        lemma_counts_update(records.drop_last(), i, record, agent_id, client);
    }
}

/// Without a record of the agent nothing counts for it.
pub proof fn lemma_counts_none(records: Seq<FeedbackAccount>, agent_id: u64)
    requires
        forall|p: int| 0 <= p < records.len() ==> (#[trigger] records[p]).agent_id != agent_id,
    ensures
        live_count(records, agent_id) == 0,
        live_score_sum(records, agent_id) == 0,
    decreases records.len(),
{
    if records.len() > 0 {
        assert forall|p: int| 0 <= p < records.drop_last().len() implies (
        #[trigger] records.drop_last()[p]).agent_id != agent_id by {
            assert(records.drop_last()[p] == records[p]);
        }
        lemma_counts_none(records.drop_last(), agent_id);
    }
}

/// With scores of at most 100 the sum is at most 100 times the count.
pub proof fn lemma_sum_bound(records: Seq<FeedbackAccount>, agent_id: u64)
    requires
        forall|p: int| 0 <= p < records.len() ==> (#[trigger] records[p]).score <= MAX_SCORE,
    ensures
        live_score_sum(records, agent_id) <= 100 * live_count(records, agent_id),
    decreases records.len(),
{
    if records.len() > 0 {
        assert forall|p: int| 0 <= p < records.drop_last().len() implies (
        #[trigger] records.drop_last()[p]).score <= MAX_SCORE by {
            assert(records.drop_last()[p] == records[p]);
        }
        lemma_sum_bound(records.drop_last(), agent_id);
    }
}

/// A quotient of a sum of scores of at most 100 each is at most 100.
pub proof fn lemma_average_bound(sum: int, count: int)
    requires
        0 <= sum <= 100 * count,
        0 < count,
    ensures
        0 <= sum / count <= 100,
{
    assert(0 <= sum / count <= 100) by (nonlinear_arith)
        requires
            0 <= sum <= 100 * count,
            0 < count,
    ;
}

/// The statistics record `stats` of the agent goes with the records.
pub open spec fn tracks(
    stats: AgentReputationMetadata,
    records: Seq<FeedbackAccount>,
    agent_id: u64,
) -> bool {
    &&& stats.agent_id == agent_id
    &&& stats.total_feedbacks == live_count(records, agent_id)
    &&& stats.total_score_sum == live_score_sum(records, agent_id)
    &&& stats.average_score == if stats.total_feedbacks == 0 {
        0
    } else {
        stats.total_score_sum as int / stats.total_feedbacks as int
    }
}

/// Statistics with the count and the sum of the records have the average
/// of the records, when no score is over 100.
proof fn lemma_average_tracks(
    stats: AgentReputationMetadata,
    records: Seq<FeedbackAccount>,
    agent_id: u64,
)
    requires
        stats.agent_id == agent_id,
        stats.total_feedbacks == live_count(records, agent_id),
        stats.total_score_sum == live_score_sum(records, agent_id),
        stats.average_score == AgentReputationMetadata::average_of(
            stats.total_score_sum,
            stats.total_feedbacks,
        ),
        forall|p: int| 0 <= p < records.len() ==> (#[trigger] records[p]).score <= MAX_SCORE,
    ensures
        tracks(stats, records, agent_id),
{
    lemma_sum_bound(records, agent_id);
    if stats.total_feedbacks != 0 {
        lemma_average_bound(stats.total_score_sum as int, stats.total_feedbacks as int);
    }
}

impl ReputationLedger {
    /// The empty ledger is consistent.
    pub proof fn lemma_empty_consistent()
        ensures
            Self::empty().consistent(),
    {
        let s = Self::empty();
        assert forall|agent_id: u64| #[trigger] s.aggregate_ok(agent_id) by {}
        assert forall|agent_id: u64, client: Address| #[trigger] s.sequence_ok(agent_id, client) by {}
    }

    /// An accepted feedback keeps the ledger consistent.
    proof fn lemma_give_consistent(
        self,
        ctx: GiveFeedback,
        agent_id: u64,
        score: u8,
        tag1: [u8; 32],
        tag2: [u8; 32],
        file_uri: String,
        file_hash: [u8; 32],
        feedback_index: u64,
        now: i64,
    )
        requires
            self.consistent(),
            give_feedback_rejection(
                self.load_give(ctx, agent_id, feedback_index),
                agent_id,
                score,
                file_uri@,
                feedback_index,
            ) is None,
        ensures
            self.step(
                ReputationRequest::Give {
                    ctx,
                    agent_id,
                    score,
                    tag1,
                    tag2,
                    file_uri,
                    file_hash,
                    feedback_index,
                    now,
                },
            ).consistent(),
    {
        let loaded = self.load_give(ctx, agent_id, feedback_index);
        let client = ctx.client;
        let next = self.step(
            ReputationRequest::Give {
                ctx,
                agent_id,
                score,
                tag1,
                tag2,
                file_uri,
                file_hash,
                feedback_index,
                now,
            },
        );
        let record = created_feedback(
            loaded,
            agent_id,
            score,
            tag1,
            tag2,
            file_uri,
            file_hash,
            feedback_index,
            now,
        );
        assert(self.sequence_ok(agent_id, client));
        assert forall|p: int| 0 <= p < next.records.len() implies #[trigger] next.record_ok(p) by {
            if p < self.records.len() {
                assert(self.record_ok(p));
                assert(next.records.take(p) =~= self.records.take(p));
            } else {
                assert(next.records.take(p) =~= self.records);
            }
        }
        assert forall|p: int| 0 <= p < next.records.len() implies (#[trigger] next.records[p]).score
            <= MAX_SCORE by {
            assert(next.record_ok(p));
        }
        assert forall|x: u64| #[trigger] next.aggregate_ok(x) by {
            assert(self.aggregate_ok(x));
            lemma_counts_push(self.records, record, x, client);
            if x == agent_id {
                if self.aggregate(agent_id) is None {
                    lemma_counts_none(self.records, agent_id);
                }
                let stats = next.aggregates[agent_id];
                lemma_average_tracks(stats, next.records, agent_id);
            }
        }
        assert forall|x: u64, y: Address| #[trigger] next.sequence_ok(x, y) by {
            assert(self.sequence_ok(x, y));
            lemma_counts_push(self.records, record, x, y);
        }
    }

    /// An accepted revocation keeps the ledger consistent.
    proof fn lemma_revoke_consistent(
        self,
        caller: Address,
        author: Address,
        agent_id: u64,
        feedback_index: u64,
        now: i64,
    )
        requires
            self.consistent(),
        ensures
            self.step(
                ReputationRequest::Revoke { caller, author, agent_id, feedback_index, now },
            ).consistent(),
    {
        let next = self.step(
            ReputationRequest::Revoke { caller, author, agent_id, feedback_index, now },
        );
        if next != self {
            let p = self.position(agent_id, author, feedback_index).unwrap();
            let before = self.records[p];
            let after = before.revoked();
            assert forall|q: int| 0 <= q < next.records.len() implies #[trigger] next.record_ok(
                q,
            ) by {
                assert(self.record_ok(q));
                let record = self.records[q];
                if p < q {
                    assert(next.records.take(q) =~= self.records.take(q).update(p, after));
                    lemma_counts_update(
                        self.records.take(q),
                        p,
                        after,
                        record.agent_id,
                        record.client_address,
                    );
                } else {
                    assert(next.records.take(q) =~= self.records.take(q));
                }
            }
            assert forall|q: int| 0 <= q < next.records.len() implies (
            #[trigger] next.records[q]).score <= MAX_SCORE by {
                assert(next.record_ok(q));
            }
            assert forall|x: u64| #[trigger] next.aggregate_ok(x) by {
                assert(self.aggregate_ok(x));
                lemma_counts_update(self.records, p, after, x, author);
                if x == agent_id {
                    let stats = next.aggregates[agent_id];
                    lemma_average_tracks(stats, next.records, agent_id);
                }
            }
            assert forall|x: u64, y: Address| #[trigger] next.sequence_ok(x, y) by {
                assert(self.sequence_ok(x, y));
                lemma_counts_update(self.records, p, after, x, y);
            }
        }
    }

    /// Every request, accepted or refused, keeps the ledger consistent.
    pub proof fn lemma_step_consistent(self, request: ReputationRequest)
        requires
            self.consistent(),
        ensures
            self.step(request).consistent(),
    {
        match request {
            ReputationRequest::Give {
                ctx,
                agent_id,
                score,
                tag1,
                tag2,
                file_uri,
                file_hash,
                feedback_index,
                now,
            } => {
                if give_feedback_rejection(
                    self.load_give(ctx, agent_id, feedback_index),
                    agent_id,
                    score,
                    file_uri@,
                    feedback_index,
                ) is None {
                    self.lemma_give_consistent(
                        ctx,
                        agent_id,
                        score,
                        tag1,
                        tag2,
                        file_uri,
                        file_hash,
                        feedback_index,
                        now,
                    );
                }
            },
            ReputationRequest::Revoke { caller, author, agent_id, feedback_index, now } => {
                self.lemma_revoke_consistent(caller, author, agent_id, feedback_index, now);
            },
        }
    }
}

/// After any requests in any order the ledger is consistent.
pub proof fn lemma_replay_consistent(requests: Seq<ReputationRequest>)
    ensures
        replay(requests).consistent(),
    decreases requests.len(),
{
    if requests.len() == 0 {
        ReputationLedger::lemma_empty_consistent();
    } else {
        lemma_replay_consistent(requests.drop_last());
        replay(requests.drop_last()).lemma_step_consistent(requests.last());
    }
}

/// After any feedbacks and revocations in any order, the statistics of
/// every agent are those of its feedbacks that are not revoked: their
/// count, the sum of their scores, and the quotient of the two rounded
/// down (0 without such a feedback).
pub proof fn lemma_aggregate_is_live_sum(requests: Seq<ReputationRequest>, agent_id: u64)
    ensures
        match replay(requests).aggregate(agent_id) {
            Some(stats) => tracks(stats, replay(requests).records, agent_id),
            None => live_count(replay(requests).records, agent_id) == 0 && live_score_sum(
                replay(requests).records,
                agent_id,
            ) == 0,
        },
{
    lemma_replay_consistent(requests);
    let ledger = replay(requests);
    assert(ledger.aggregate_ok(agent_id));
    if ledger.aggregate(agent_id) is None {
        lemma_counts_none(ledger.records, agent_id);
    }
}

/// After any feedbacks and revocations in any order, the next index of
/// every client on every agent is the number of feedbacks that the client
/// gave on the agent, revoked or not: no index is skipped and none is used
/// twice.
pub proof fn lemma_sequence_counts_feedbacks(
    requests: Seq<ReputationRequest>,
    agent_id: u64,
    client: Address,
)
    ensures
        next_feedback_index(replay(requests).sequence(agent_id, client)) == pair_count(
            replay(requests).records,
            agent_id,
            client,
        ),
{
    lemma_replay_consistent(requests);
    assert(replay(requests).sequence_ok(agent_id, client));
}

/// A longer start of the records holds at least as many feedbacks of a
/// pair as a shorter one, and one more when it adds one of the pair.
pub proof fn lemma_pair_count_prefix(
    records: Seq<FeedbackAccount>,
    p: int,
    q: int,
    agent_id: u64,
    client: Address,
)
    requires
        0 <= p <= q <= records.len(),
    ensures
        pair_count(records.take(p), agent_id, client) <= pair_count(
            records.take(q),
            agent_id,
            client,
        ),
        p < q && is_of_pair(records[p], agent_id, client) ==> pair_count(
            records.take(p),
            agent_id,
            client,
        ) < pair_count(records.take(q), agent_id, client),
    decreases q - p,
{
    if p < q {
        assert(records.take(q).drop_last() =~= records.take(q - 1));
        lemma_pair_count_prefix(records, p, q - 1, agent_id, client);
    }
}

impl ReputationLedger {
    /// In a consistent ledger no two records are the feedback of one
    /// client on one agent under one index.
    pub proof fn lemma_feedback_unique(self, p: int, q: int)
        requires
            self.consistent(),
            0 <= p < self.records.len(),
            0 <= q < self.records.len(),
            self.records[p].agent_id == self.records[q].agent_id,
            self.records[p].client_address == self.records[q].client_address,
            self.records[p].feedback_index == self.records[q].feedback_index,
        ensures
            p == q,
    {
        let agent_id = self.records[p].agent_id;
        let client = self.records[p].client_address;
        assert(self.record_ok(p));
        assert(self.record_ok(q));
        if p < q {
            lemma_pair_count_prefix(self.records, p, q, agent_id, client);
        } else if q < p {
            lemma_pair_count_prefix(self.records, q, p, agent_id, client);
        }
    }

    /// In a consistent ledger the feedbacks of a client on an agent carry
    /// the indices from 0 up to, and without, the client's next index:
    /// every index of a record is below the next index, and under every
    /// index below it there is a record.
    pub proof fn lemma_indices_contiguous(self, agent_id: u64, client: Address)
        requires
            self.consistent(),
        ensures
            forall|p: int|
                0 <= p < self.records.len() && is_of_pair(
                    #[trigger] self.records[p],
                    agent_id,
                    client,
                ) ==> self.records[p].feedback_index < pair_count(self.records, agent_id, client),
            forall|index: u64|
                index < pair_count(self.records, agent_id, client) ==> #[trigger] self.feedback(
                    agent_id,
                    client,
                    index,
                ) is Some,
    {
        let records = self.records;
        assert(records.take(records.len() as int) =~= records);
        assert forall|p: int|
            0 <= p < records.len() && is_of_pair(
                #[trigger] records[p],
                agent_id,
                client,
            ) implies records[p].feedback_index < pair_count(records, agent_id, client) by {
            assert(self.record_ok(p));
            lemma_pair_count_prefix(records, p, records.len() as int, agent_id, client);
        }
        assert forall|index: u64|
            index < pair_count(records, agent_id, client) implies #[trigger] self.feedback(
            agent_id,
            client,
            index,
        ) is Some by {
            let p = lemma_record_with_rank(records, records.len() as int, agent_id, client, index as nat);
            assert(self.record_ok(p));
            assert(self.is_feedback_at(p, agent_id, client, index));
        }
    }

    /// In a consistent ledger the place of a client's next feedback on an
    /// agent is free: a feedback with the right index is never refused
    /// because its record exists.
    pub proof fn lemma_next_slot_free(self, agent_id: u64, client: Address, feedback_index: u64)
        requires
            self.consistent(),
            feedback_index == pair_count(self.records, agent_id, client),
        ensures
            self.feedback(agent_id, client, feedback_index) is None,
    {
        self.lemma_indices_contiguous(agent_id, client);
        if self.feedback(agent_id, client, feedback_index) is Some {
            let p = self.position(agent_id, client, feedback_index).unwrap();
            assert(self.is_feedback_at(p, agent_id, client, feedback_index));
        }
    }

    /// Revoking the same feedback twice: after an accepted revocation a
    /// second one, by whomever, changes nothing in the ledger.
    pub proof fn lemma_second_revoke_changes_nothing(
        self,
        caller: Address,
        author: Address,
        agent_id: u64,
        feedback_index: u64,
        now: i64,
        second_caller: Address,
        later: i64,
    )
        requires
            self.consistent(),
            self.step(ReputationRequest::Revoke { caller, author, agent_id, feedback_index, now })
                != self,
        ensures
            ({
                let revoked = self.step(
                    ReputationRequest::Revoke { caller, author, agent_id, feedback_index, now },
                );
                revoked.step(
                    ReputationRequest::Revoke {
                        caller: second_caller,
                        author,
                        agent_id,
                        feedback_index,
                        now: later,
                    },
                ) == revoked
            }),
    {
        let revoked = self.step(
            ReputationRequest::Revoke { caller, author, agent_id, feedback_index, now },
        );
        self.lemma_step_consistent(
            ReputationRequest::Revoke { caller, author, agent_id, feedback_index, now },
        );
        let p = self.position(agent_id, author, feedback_index).unwrap();
        assert(revoked.is_feedback_at(p, agent_id, author, feedback_index));
        let q = revoked.position(agent_id, author, feedback_index).unwrap();
        revoked.lemma_feedback_unique(p, q);
    }
}

/// Among the first `n` records, the one of a pair that has `rank` of the
/// pair before it, where the pair has more than `rank`.
pub proof fn lemma_record_with_rank(
    records: Seq<FeedbackAccount>,
    n: int,
    agent_id: u64,
    client: Address,
    rank: nat,
) -> (p: int)
    requires
        0 <= n <= records.len(),
        rank < pair_count(records.take(n), agent_id, client),
    ensures
        0 <= p < n,
        is_of_pair(records[p], agent_id, client),
        pair_count(records.take(p), agent_id, client) == rank,
    decreases n,
{
    assert(records.take(n).drop_last() =~= records.take(n - 1));
    if is_of_pair(records[n - 1], agent_id, client) && pair_count(
        records.take(n - 1),
        agent_id,
        client,
    ) == rank {
        n - 1
    } else {
        lemma_record_with_rank(records, n - 1, agent_id, client, rank)
    }
}

} // verus!
