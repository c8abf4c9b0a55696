use agent_registry::address::Address;
use agent_registry::reputation::contexts::{AppendResponse, GiveFeedback, Initialize, RevokeFeedback};
use agent_registry::reputation::error::ReputationError;
use agent_registry::reputation::message::{push_decimal, push_signed_decimal};
use agent_registry::reputation::state::{
    AgentAccountStub, AgentReputationMetadata, ClientIndexAccount, FeedbackAccount, FeedbackAuth,
    ResponseAccount, ResponseIndexAccount,
};
use agent_registry::reputation::{append_response, give_feedback, initialize, revoke_feedback};

fn addr(n: u8) -> Address {
    Address::new([n; 32])
}

/// The storage behind the ledger, for one agent: what a backend would hold.
struct Store {
    agent_id: u64,
    sequences: Vec<ClientIndexAccount>,
    feedbacks: Vec<FeedbackAccount>,
    stats: Option<AgentReputationMetadata>,
}

impl Store {
    fn new(agent_id: u64) -> Store {
        Store { agent_id, sequences: Vec::new(), feedbacks: Vec::new(), stats: None }
    }

    fn give(&mut self, client: Address, score: u8, index: u64, now: i64) -> Result<(), ReputationError> {
        let mut ctx = GiveFeedback {
            client,
            agent_account: Some(AgentAccountStub { agent_id: self.agent_id }),
            client_index: self.sequences.iter().find(|s| s.client_address == client).copied(),
            feedback_account: self
                .feedbacks
                .iter()
                .find(|f| f.client_address == client && f.feedback_index == index)
                .cloned(),
            agent_reputation: self.stats,
            client_index_bump: 1,
            feedback_account_bump: 2,
            agent_reputation_bump: 3,
        };
        let before = ctx.clone();
        match give_feedback(&mut ctx, self.agent_id, score, [1; 32], [2; 32], "ipfs://f".to_string(), [3; 32], index, now) {
            Ok(event) => {
                assert_eq!(event.feedback_index, index);
                assert_eq!(event.score, score);
                self.sequences.retain(|s| s.client_address != client);
                self.sequences.push(ctx.client_index.unwrap());
                self.feedbacks.push(ctx.feedback_account.unwrap());
                self.stats = ctx.agent_reputation;
                Ok(())
            }
            Err(e) => {
                assert_eq!(ctx, before);
                Err(e)
            }
        }
    }

    fn revoke(&mut self, caller: Address, author: Address, index: u64, now: i64) -> Result<(), ReputationError> {
        let position = self.feedbacks.iter().position(|f| f.client_address == author && f.feedback_index == index);
        let mut ctx = RevokeFeedback {
            client: caller,
            feedback_account: position.map(|p| self.feedbacks[p].clone()),
            agent_reputation: self.stats.unwrap(),
        };
        let before = ctx.clone();
        match revoke_feedback(&mut ctx, self.agent_id, index, now) {
            Ok(event) => {
                assert_eq!(event.agent_id, self.agent_id);
                assert_eq!(event.client_address, caller);
                assert_eq!(event.feedback_index, index);
                self.feedbacks[position.unwrap()] = ctx.feedback_account.unwrap();
                self.stats = Some(ctx.agent_reputation);
                Ok(())
            }
            Err(e) => {
                assert_eq!(ctx, before);
                Err(e)
            }
        }
    }

    fn check(&self) {
        let live: Vec<&FeedbackAccount> = self.feedbacks.iter().filter(|f| !f.is_revoked).collect();
        let sum: u64 = live.iter().map(|f| f.score as u64).sum();
        let count = live.len() as u64;
        match self.stats {
            Some(stats) => {
                assert_eq!(stats.agent_id, self.agent_id);
                assert_eq!(stats.total_feedbacks, count);
                assert_eq!(stats.total_score_sum, sum);
                assert_eq!(stats.average_score as u64, if count == 0 { 0 } else { sum / count });
            }
            None => assert!(self.feedbacks.is_empty()),
        }
        for sequence in &self.sequences {
            let mut indices: Vec<u64> = self
                .feedbacks
                .iter()
                .filter(|f| f.client_address == sequence.client_address)
                .map(|f| f.feedback_index)
                .collect();
            indices.sort();
            assert_eq!(indices, (0..sequence.last_index).collect::<Vec<u64>>());
        }
    }
}

#[test]
fn reputation_initialize_does_nothing() {
    assert_eq!(initialize(&Initialize {}), Ok(()));
}

#[test]
fn first_feedback_creates_the_three_records() {
    let mut ctx = GiveFeedback {
        client: addr(5),
        agent_account: Some(AgentAccountStub { agent_id: 0 }),
        client_index: None,
        feedback_account: None,
        agent_reputation: None,
        client_index_bump: 11,
        feedback_account_bump: 12,
        agent_reputation_bump: 13,
    };
    let event = give_feedback(&mut ctx, 0, 80, [1; 32], [2; 32], "ipfs://f".to_string(), [3; 32], 0, 1000).unwrap();
    assert_eq!(event.agent_id, 0);
    assert_eq!(event.client_address, addr(5));
    assert_eq!(event.feedback_index, 0);
    assert_eq!(event.score, 80);
    assert_eq!(event.tag1, [1; 32]);
    assert_eq!(event.tag2, [2; 32]);
    assert_eq!(event.file_uri, "ipfs://f");
    assert_eq!(event.file_hash, [3; 32]);
    assert_eq!(
        ctx.client_index,
        Some(ClientIndexAccount { agent_id: 0, client_address: addr(5), last_index: 1, bump: 11 })
    );
    assert_eq!(
        ctx.feedback_account,
        Some(FeedbackAccount {
            agent_id: 0,
            client_address: addr(5),
            feedback_index: 0,
            score: 80,
            tag1: [1; 32],
            tag2: [2; 32],
            file_uri: "ipfs://f".to_string(),
            file_hash: [3; 32],
            is_revoked: false,
            created_at: 1000,
            bump: 12,
        })
    );
    assert_eq!(
        ctx.agent_reputation,
        Some(AgentReputationMetadata {
            agent_id: 0,
            total_feedbacks: 1,
            total_score_sum: 80,
            average_score: 80,
            last_updated: 1000,
            bump: 13,
        })
    );
}

#[test]
fn statistics_of_agent_zero_keep_counting() {
    let mut store = Store::new(0);
    store.give(addr(5), 80, 0, 10).unwrap();
    store.give(addr(5), 40, 1, 11).unwrap();
    store.give(addr(6), 100, 0, 12).unwrap();
    let stats = store.stats.unwrap();
    assert_eq!(stats.total_feedbacks, 3);
    assert_eq!(stats.total_score_sum, 220);
    assert_eq!(stats.average_score, 73);
    assert_eq!(stats.last_updated, 12);
    assert_eq!(stats.bump, 3);
    store.check();
}

#[test]
fn average_is_rounded_down() {
    let mut store = Store::new(4);
    store.give(addr(5), 100, 0, 10).unwrap();
    store.give(addr(6), 99, 0, 11).unwrap();
    assert_eq!(store.stats.unwrap().average_score, 99);
    store.give(addr(7), 0, 0, 12).unwrap();
    assert_eq!(store.stats.unwrap().total_score_sum, 199);
    assert_eq!(store.stats.unwrap().average_score, 66);
    assert_eq!(AgentReputationMetadata::average(199, 3), 66);
    assert_eq!(AgentReputationMetadata::average(0, 0), 0);
    assert_eq!(AgentReputationMetadata::average(300, 3), 100);
}

#[test]
fn sum_follows_any_interleaving_of_give_and_revoke() {
    let mut store = Store::new(9);
    let clients = [addr(5), addr(6), addr(7)];
    let mut next = [0u64; 3];
    let mut now = 100;
    for round in 0u64..40 {
        let who = (round * 7 % 3) as usize;
        now += 1;
        if round % 4 == 3 && next[who] > 0 {
            let index = round % next[who];
            let revoked = store.feedbacks.iter().any(|f| {
                f.client_address == clients[who] && f.feedback_index == index && f.is_revoked
            });
            let r = store.revoke(clients[who], clients[who], index, now);
            if revoked {
                assert_eq!(r, Err(ReputationError::AlreadyRevoked));
            } else {
                assert_eq!(r, Ok(()));
            }
        } else {
            let score = (round * 13 % 101) as u8;
            store.give(clients[who], score, next[who], now).unwrap();
            next[who] += 1;
        }
        store.check();
    }
    assert!(store.feedbacks.iter().any(|f| f.is_revoked));
    assert!(store.feedbacks.len() > 20);
}

#[test]
fn revoking_twice_fails_and_leaves_the_statistics() {
    let mut store = Store::new(9);
    store.give(addr(5), 70, 0, 10).unwrap();
    store.give(addr(5), 30, 1, 11).unwrap();
    assert_eq!(store.revoke(addr(5), addr(5), 0, 12), Ok(()));
    let stats = store.stats.unwrap();
    assert_eq!(stats.total_feedbacks, 1);
    assert_eq!(stats.total_score_sum, 30);
    assert_eq!(stats.average_score, 30);
    assert_eq!(stats.last_updated, 12);
    assert!(store.feedbacks[0].is_revoked);
    assert_eq!(store.feedbacks[0].score, 70);

    assert_eq!(store.revoke(addr(5), addr(5), 0, 13), Err(ReputationError::AlreadyRevoked));
    assert_eq!(store.stats.unwrap(), stats);
    store.check();
}

#[test]
fn revoking_the_last_feedback_gives_average_zero() {
    let mut store = Store::new(9);
    store.give(addr(5), 70, 0, 10).unwrap();
    store.revoke(addr(5), addr(5), 0, 11).unwrap();
    let stats = store.stats.unwrap();
    assert_eq!(stats.total_feedbacks, 0);
    assert_eq!(stats.total_score_sum, 0);
    assert_eq!(stats.average_score, 0);
    assert_eq!(store.feedbacks.len(), 1);
}

#[test]
fn index_must_be_the_next_one() {
    let mut store = Store::new(9);
    store.give(addr(5), 70, 0, 10).unwrap();
    store.give(addr(5), 30, 1, 11).unwrap();
    assert_eq!(store.sequences[0].last_index, 2);
    assert_eq!(store.give(addr(5), 50, 0, 12), Err(ReputationError::InvalidFeedbackIndex));
    assert_eq!(store.give(addr(5), 50, 3, 12), Err(ReputationError::InvalidFeedbackIndex));
    assert_eq!(store.sequences[0].last_index, 2);
    assert_eq!(store.give(addr(5), 50, 2, 12), Ok(()));
    assert_eq!(store.sequences[0].last_index, 3);
    // another client starts at 0 again
    assert_eq!(store.give(addr(6), 50, 1, 13), Err(ReputationError::InvalidFeedbackIndex));
    assert_eq!(store.give(addr(6), 50, 0, 13), Ok(()));
    store.check();
}

#[test]
fn score_boundary() {
    let mut store = Store::new(9);
    assert_eq!(store.give(addr(5), 0, 0, 10), Ok(()));
    assert_eq!(store.give(addr(5), 100, 1, 11), Ok(()));
    assert_eq!(store.give(addr(5), 101, 2, 12), Err(ReputationError::InvalidScore));
    assert_eq!(store.give(addr(5), 255, 2, 12), Err(ReputationError::InvalidScore));
    assert_eq!(store.stats.unwrap().total_score_sum, 100);
    assert_eq!(store.stats.unwrap().average_score, 50);
}

fn give_ctx() -> GiveFeedback {
    GiveFeedback {
        client: addr(5),
        agent_account: Some(AgentAccountStub { agent_id: 9 }),
        client_index: Some(ClientIndexAccount { agent_id: 9, client_address: addr(5), last_index: 4, bump: 1 }),
        feedback_account: None,
        agent_reputation: Some(AgentReputationMetadata {
            agent_id: 9,
            total_feedbacks: 4,
            total_score_sum: 200,
            average_score: 50,
            last_updated: 5,
            bump: 3,
        }),
        client_index_bump: 11,
        feedback_account_bump: 12,
        agent_reputation_bump: 13,
    }
}

fn give(ctx: &mut GiveFeedback, agent_id: u64, score: u8, uri: String, index: u64) -> Result<(), ReputationError> {
    let before = ctx.clone();
    let r = give_feedback(ctx, agent_id, score, [0; 32], [0; 32], uri, [0; 32], index, 77).map(|_| ());
    if r.is_err() {
        assert_eq!(*ctx, before);
    }
    r
}

#[test]
fn give_feedback_keeps_the_bumps_of_existing_records() {
    let mut ctx = give_ctx();
    give(&mut ctx, 9, 100, "u".repeat(200), 4).unwrap();
    assert_eq!(ctx.client_index.unwrap().bump, 1);
    assert_eq!(ctx.client_index.unwrap().last_index, 5);
    assert_eq!(ctx.agent_reputation.unwrap().bump, 3);
    assert_eq!(ctx.agent_reputation.unwrap().total_feedbacks, 5);
    assert_eq!(ctx.agent_reputation.unwrap().total_score_sum, 300);
    assert_eq!(ctx.agent_reputation.unwrap().average_score, 60);
    assert_eq!(ctx.agent_reputation.unwrap().last_updated, 77);
    assert_eq!(ctx.feedback_account.unwrap().bump, 12);
}

#[test]
fn give_feedback_refusals() {
    let mut ctx = give_ctx();
    assert_eq!(give(&mut ctx, 9, 50, "u".repeat(201), 4), Err(ReputationError::UriTooLong));

    let mut ctx = give_ctx();
    ctx.agent_account = None;
    assert_eq!(give(&mut ctx, 9, 50, String::new(), 4), Err(ReputationError::AgentNotFound));

    let mut ctx = give_ctx();
    ctx.agent_account = Some(AgentAccountStub { agent_id: 8 });
    assert_eq!(give(&mut ctx, 9, 50, String::new(), 4), Err(ReputationError::AgentNotFound));

    let mut ctx = give_ctx();
    ctx.client = addr(6);
    assert_eq!(give(&mut ctx, 9, 50, String::new(), 4), Err(ReputationError::InvalidFeedbackIndex));

    let mut ctx = give_ctx();
    ctx.client_index = Some(ClientIndexAccount { agent_id: 9, client_address: addr(5), last_index: u64::MAX, bump: 1 });
    assert_eq!(give(&mut ctx, 9, 50, String::new(), u64::MAX), Err(ReputationError::Overflow));

    let mut ctx = give_ctx();
    ctx.agent_reputation.as_mut().unwrap().total_feedbacks = u64::MAX;
    assert_eq!(give(&mut ctx, 9, 50, String::new(), 4), Err(ReputationError::Overflow));

    let mut ctx = give_ctx();
    ctx.agent_reputation.as_mut().unwrap().total_score_sum = u64::MAX - 49;
    assert_eq!(give(&mut ctx, 9, 50, String::new(), 4), Err(ReputationError::Overflow));
    ctx.agent_reputation.as_mut().unwrap().total_score_sum = u64::MAX - 50;
    assert_eq!(give(&mut ctx, 9, 50, String::new(), 4), Ok(()));
    assert_eq!(ctx.agent_reputation.unwrap().total_score_sum, u64::MAX);

    let mut ctx = give_ctx();
    ctx.agent_reputation.as_mut().unwrap().agent_id = 8;
    assert_eq!(give(&mut ctx, 9, 50, String::new(), 4), Err(ReputationError::AgentNotFound));

    let mut ctx = give_ctx();
    give(&mut ctx, 9, 50, String::new(), 4).unwrap();
    ctx.client_index.as_mut().unwrap().last_index = 4;
    assert_eq!(give(&mut ctx, 9, 50, String::new(), 4), Err(ReputationError::AlreadyInitialized));
}

fn feedback(client: u8, index: u64, score: u8, revoked: bool) -> FeedbackAccount {
    FeedbackAccount {
        agent_id: 9,
        client_address: addr(client),
        feedback_index: index,
        score,
        tag1: [0; 32],
        tag2: [0; 32],
        file_uri: "ipfs://f".to_string(),
        file_hash: [0; 32],
        is_revoked: revoked,
        created_at: 5,
        bump: 2,
    }
}

fn stats(count: u64, sum: u64) -> AgentReputationMetadata {
    AgentReputationMetadata {
        agent_id: 9,
        total_feedbacks: count,
        total_score_sum: sum,
        average_score: AgentReputationMetadata::average(sum, count),
        last_updated: 5,
        bump: 3,
    }
}

#[test]
fn revoke_feedback_refusals() {
    let mut ctx = RevokeFeedback { client: addr(5), feedback_account: None, agent_reputation: stats(1, 60) };
    assert_eq!(revoke_feedback(&mut ctx, 9, 0, 20).unwrap_err(), ReputationError::FeedbackNotFound);

    let base = RevokeFeedback {
        client: addr(5),
        feedback_account: Some(feedback(5, 0, 60, false)),
        agent_reputation: stats(1, 60),
    };
    let mut ctx = base.clone();
    assert_eq!(revoke_feedback(&mut ctx, 9, 1, 20).unwrap_err(), ReputationError::FeedbackNotFound);
    assert_eq!(revoke_feedback(&mut ctx, 8, 0, 20).unwrap_err(), ReputationError::FeedbackNotFound);
    assert_eq!(ctx, base);

    let mut ctx = base.clone();
    ctx.client = addr(6);
    let before = ctx.clone();
    assert_eq!(revoke_feedback(&mut ctx, 9, 0, 20).unwrap_err(), ReputationError::Unauthorized);
    assert_eq!(ctx, before);

    let mut ctx = base.clone();
    ctx.feedback_account = Some(feedback(5, 0, 60, true));
    assert_eq!(revoke_feedback(&mut ctx, 9, 0, 20).unwrap_err(), ReputationError::AlreadyRevoked);

    let mut ctx = base.clone();
    ctx.agent_reputation.agent_id = 8;
    assert_eq!(revoke_feedback(&mut ctx, 9, 0, 20).unwrap_err(), ReputationError::AgentNotFound);

    let mut ctx = base.clone();
    ctx.agent_reputation = stats(0, 0);
    let before = ctx.clone();
    assert_eq!(revoke_feedback(&mut ctx, 9, 0, 20).unwrap_err(), ReputationError::Overflow);
    assert_eq!(ctx, before);

    let mut ctx = base.clone();
    ctx.agent_reputation = stats(2, 59);
    assert_eq!(revoke_feedback(&mut ctx, 9, 0, 20).unwrap_err(), ReputationError::Overflow);
}

fn response_ctx() -> AppendResponse {
    AppendResponse {
        responder: addr(8),
        feedback_account: Some(feedback(5, 2, 60, false)),
        response_index: None,
        response_account: None,
        response_index_bump: 21,
        response_account_bump: 22,
    }
}

#[test]
fn responses_are_numbered_from_zero() {
    let mut ctx = response_ctx();
    let event = append_response(&mut ctx, 9, addr(5), 2, "ipfs://r0".to_string(), [7; 32], 30).unwrap();
    assert_eq!(event.agent_id, 9);
    assert_eq!(event.client_address, addr(5));
    assert_eq!(event.feedback_index, 2);
    assert_eq!(event.response_index, 0);
    assert_eq!(event.responder, addr(8));
    assert_eq!(event.response_uri, "ipfs://r0");
    assert_eq!(
        ctx.response_index,
        Some(ResponseIndexAccount { agent_id: 9, client_address: addr(5), feedback_index: 2, next_index: 1, bump: 21 })
    );
    assert_eq!(
        ctx.response_account,
        Some(ResponseAccount {
            agent_id: 9,
            client_address: addr(5),
            feedback_index: 2,
            response_index: 0,
            responder: addr(8),
            response_uri: "ipfs://r0".to_string(),
            response_hash: [7; 32],
            created_at: 30,
            bump: 22,
        })
    );
    assert_eq!(ctx.feedback_account, Some(feedback(5, 2, 60, false)));

    for expected in 1u64..4 {
        ctx.response_account = None;
        ctx.responder = addr(8 + expected as u8);
        let event = append_response(&mut ctx, 9, addr(5), 2, String::new(), [7; 32], 31).unwrap();
        assert_eq!(event.response_index, expected);
        assert_eq!(ctx.response_index.unwrap().next_index, expected + 1);
        assert_eq!(ctx.response_index.unwrap().bump, 21);
        assert_eq!(ctx.response_account.clone().unwrap().response_index, expected);
        assert_eq!(ctx.response_account.clone().unwrap().responder, addr(8 + expected as u8));
    }
}

#[test]
fn append_response_refusals() {
    let mut ctx = response_ctx();
    let before = ctx.clone();
    assert_eq!(
        append_response(&mut ctx, 9, addr(5), 2, "u".repeat(201), [7; 32], 30).unwrap_err(),
        ReputationError::ResponseUriTooLong
    );
    assert_eq!(ctx, before);
    assert!(append_response(&mut ctx.clone(), 9, addr(5), 2, "u".repeat(200), [7; 32], 30).is_ok());

    assert_eq!(
        append_response(&mut ctx, 9, addr(5), 3, String::new(), [7; 32], 30).unwrap_err(),
        ReputationError::FeedbackNotFound
    );
    assert_eq!(
        append_response(&mut ctx, 9, addr(6), 2, String::new(), [7; 32], 30).unwrap_err(),
        ReputationError::FeedbackNotFound
    );
    let mut none = response_ctx();
    none.feedback_account = None;
    assert_eq!(
        append_response(&mut none, 9, addr(5), 2, String::new(), [7; 32], 30).unwrap_err(),
        ReputationError::FeedbackNotFound
    );

    let mut ctx = response_ctx();
    ctx.response_index =
        Some(ResponseIndexAccount { agent_id: 9, client_address: addr(5), feedback_index: 1, next_index: 1, bump: 21 });
    assert_eq!(
        append_response(&mut ctx, 9, addr(5), 2, String::new(), [7; 32], 30).unwrap_err(),
        ReputationError::ResponseNotFound
    );

    let mut ctx = response_ctx();
    ctx.response_index = Some(ResponseIndexAccount {
        agent_id: 9,
        client_address: addr(5),
        feedback_index: 2,
        next_index: u64::MAX,
        bump: 21,
    });
    assert_eq!(
        append_response(&mut ctx, 9, addr(5), 2, String::new(), [7; 32], 30).unwrap_err(),
        ReputationError::Overflow
    );

    let mut ctx = response_ctx();
    append_response(&mut ctx, 9, addr(5), 2, String::new(), [7; 32], 30).unwrap();
    let before = ctx.clone();
    assert_eq!(
        append_response(&mut ctx, 9, addr(5), 2, String::new(), [7; 32], 30).unwrap_err(),
        ReputationError::AlreadyInitialized
    );
    assert_eq!(ctx, before);
}

#[test]
fn feedback_auth_checks_client_expiry_and_limit() {
    let auth = FeedbackAuth {
        agent_id: 9,
        client_address: addr(5),
        index_limit: 3,
        expiry: 1000,
        chain_id: "solana-devnet".to_string(),
        identity_registry: addr(1),
        signer_address: addr(2),
        signature: [0; 64],
    };
    assert_eq!(auth.verify(&addr(5), 0, 999), Ok(()));
    assert_eq!(auth.verify(&addr(5), 2, 0), Ok(()));
    assert_eq!(auth.verify(&addr(6), 0, 999), Err(ReputationError::FeedbackAuthClientMismatch));
    assert_eq!(auth.verify(&addr(5), 0, 1000), Err(ReputationError::FeedbackAuthExpired));
    assert_eq!(auth.verify(&addr(5), 3, 999), Err(ReputationError::FeedbackAuthIndexLimitExceeded));
    assert_eq!(auth.verify(&addr(6), 3, 1000), Err(ReputationError::FeedbackAuthClientMismatch));
    assert_eq!(auth.verify(&addr(5), 3, 1000), Err(ReputationError::FeedbackAuthExpired));
}

#[test]
fn reputation_error_messages() {
    let expected = [
        (ReputationError::InvalidScore, "Score must be between 0 and 100"),
        (ReputationError::UriTooLong, "File URI exceeds maximum length of 200 bytes"),
        (ReputationError::ResponseUriTooLong, "Response URI exceeds maximum length of 200 bytes"),
        (ReputationError::Unauthorized, "Only feedback author can revoke"),
        (ReputationError::AlreadyRevoked, "Feedback already revoked"),
        (ReputationError::Overflow, "Arithmetic overflow occurred"),
        (ReputationError::AgentNotFound, "Agent not found in Identity Registry"),
        (ReputationError::FeedbackNotFound, "Feedback not found"),
        (ReputationError::InvalidFeedbackIndex, "Invalid feedback index"),
        (ReputationError::ResponseNotFound, "Response not found"),
        (ReputationError::FeedbackAuthClientMismatch, "FeedbackAuth client_address does not match signer"),
        (ReputationError::FeedbackAuthExpired, "FeedbackAuth expired"),
        (ReputationError::FeedbackAuthIndexLimitExceeded, "FeedbackAuth index_limit exceeded"),
        (ReputationError::InvalidFeedbackAuthSignature, "FeedbackAuth signature invalid"),
        (ReputationError::UnauthorizedSigner, "FeedbackAuth signer is not agent owner"),
        (ReputationError::AlreadyInitialized, "Record is already initialized"),
    ];
    for (error, message) in expected {
        assert_eq!(error.message(), message);
    }
}

#[test]
fn reputation_record_sizes() {
    assert_eq!(FeedbackAccount::MAX_SIZE, 367);
    assert_eq!(FeedbackAccount::MAX_URI_LENGTH, 200);
    assert_eq!(ResponseAccount::MAX_SIZE, 341);
    assert_eq!(ResponseAccount::MAX_URI_LENGTH, 200);
    assert_eq!(ClientIndexAccount::SIZE, 57);
    assert_eq!(AgentReputationMetadata::SIZE, 42);
    assert_eq!(ResponseIndexAccount::SIZE, 65);
}

#[test]
fn feedback_auth_message_joins_the_fields_with_colons() {
    let client = anchor_lang::prelude::Pubkey::new_from_array([5; 32]);
    let registry = anchor_lang::prelude::Pubkey::new_from_array([1; 32]);
    for (agent_id, index_limit, expiry) in
        [(0u64, 0u64, 0i64), (9, 3, 1000), (u64::MAX, 10, i64::MAX), (1234567890, 100, -42), (10, 99, i64::MIN)]
    {
        let auth = FeedbackAuth {
            agent_id,
            client_address: addr(5),
            index_limit,
            expiry,
            chain_id: "solana-devnet".to_string(),
            identity_registry: addr(1),
            signer_address: addr(2),
            signature: [0; 64],
        };
        let expected = format!(
            "feedback_auth:{}:{}:{}:{}:{}:{}",
            agent_id, client, index_limit, expiry, "solana-devnet", registry
        );
        assert_eq!(auth.construct_message(), expected.as_bytes().to_vec());
    }
    let auth = FeedbackAuth {
        agent_id: 9,
        client_address: Address::new([0; 32]),
        index_limit: 3,
        expiry: 1000,
        chain_id: String::new(),
        identity_registry: Address::new([0; 32]),
        signer_address: addr(2),
        signature: [0; 64],
    };
    assert_eq!(
        auth.construct_message(),
        b"feedback_auth:9:11111111111111111111111111111111:3:1000::11111111111111111111111111111111".to_vec()
    );
}

#[test]
fn decimal_digits_have_no_leading_zeros() {
    let mut out = b"x".to_vec();
    push_decimal(&mut out, 0);
    push_decimal(&mut out, 7);
    push_decimal(&mut out, 10);
    push_decimal(&mut out, 18446744073709551615);
    assert_eq!(out, b"x071018446744073709551615".to_vec());
    let mut out = Vec::new();
    push_signed_decimal(&mut out, -1);
    push_signed_decimal(&mut out, 0);
    push_signed_decimal(&mut out, -9223372036854775808);
    push_signed_decimal(&mut out, 9223372036854775807);
    assert_eq!(out, b"-10-92233720368547758089223372036854775807".to_vec());
}
