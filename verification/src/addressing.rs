use anchor_lang::prelude::Pubkey;
use crate::address::Address;
use vstd::bytes::{
    lemma_auto_spec_u32_to_from_le_bytes, lemma_auto_spec_u64_to_from_le_bytes,
    spec_u32_to_le_bytes, spec_u64_to_le_bytes, u32_to_le_bytes, u64_to_le_bytes,
};
use vstd::prelude::*;

verus! {

/// The semantic identifiers of a stored record: a tag that says what kind
/// of record it is, and the identifiers that tell it from the others of its
/// kind. The address of a record is derived from these alone.
#[derive(Clone, Copy, Debug, PartialEq, Eq)]
pub enum RecordKey {
    /// The configuration record of a ledger.
    Config,
    /// The agent record of the agent with this mint.
    Agent { agent_mint: Address },
    /// A metadata extension of the agent with this mint.
    MetadataExtension { agent_mint: Address, extension_index: u8 },
    /// The feedback sequence of a client on an agent.
    ClientIndex { agent_id: u64, client: Address },
    /// One feedback of a client on an agent.
    Feedback { agent_id: u64, client: Address, feedback_index: u64 },
    /// The statistics of an agent.
    AgentReputation { agent_id: u64 },
    /// The response sequence of a feedback.
    ResponseIndex { agent_id: u64, client: Address, feedback_index: u64 },
    /// One response to a feedback.
    Response { agent_id: u64, client: Address, feedback_index: u64, response_index: u64 },
    /// One validation case of a validator on an agent.
    Validation { agent_id: u64, validator: Address, nonce: u32 },
}

/// What a list of seeds holds.
pub open spec fn seeds_view(seeds: Seq<Vec<u8>>) -> Seq<Seq<u8>> {
    seeds.map_values(|seed: Vec<u8>| seed@)
}

/// Most seeds that a derivation takes besides the bump seed.
pub const MAX_KEY_SEEDS: usize = 15;

/// Most bytes that one seed may have.
pub const MAX_SEED_LEN: usize = 32;

impl RecordKey {
    /// The tag of the record's kind: the ASCII bytes of its name.
    pub open spec fn tag(self) -> Seq<u8> {
        match self {
            RecordKey::Config => seq![
                'c' as u8, 'o' as u8, 'n' as u8, 'f' as u8, 'i' as u8, 'g' as u8,
            ],
            RecordKey::Agent { .. } => seq!['a' as u8, 'g' as u8, 'e' as u8, 'n' as u8, 't' as u8],
            RecordKey::MetadataExtension { .. } => seq![
                'm' as u8, 'e' as u8, 't' as u8, 'a' as u8, 'd' as u8, 'a' as u8, 't' as u8,
                'a' as u8, '_' as u8, 'e' as u8, 'x' as u8, 't' as u8,
            ],
            RecordKey::ClientIndex { .. } => seq![
                'c' as u8, 'l' as u8, 'i' as u8, 'e' as u8, 'n' as u8, 't' as u8, '_' as u8,
                'i' as u8, 'n' as u8, 'd' as u8, 'e' as u8, 'x' as u8,
            ],
            RecordKey::Feedback { .. } => seq![
                'f' as u8, 'e' as u8, 'e' as u8, 'd' as u8, 'b' as u8, 'a' as u8, 'c' as u8,
                'k' as u8,
            ],
            RecordKey::AgentReputation { .. } => seq![
                'a' as u8, 'g' as u8, 'e' as u8, 'n' as u8, 't' as u8, '_' as u8, 'r' as u8,
                'e' as u8, 'p' as u8, 'u' as u8, 't' as u8, 'a' as u8, 't' as u8, 'i' as u8,
                'o' as u8, 'n' as u8,
            ],
            RecordKey::ResponseIndex { .. } => seq![
                'r' as u8, 'e' as u8, 's' as u8, 'p' as u8, 'o' as u8, 'n' as u8, 's' as u8,
                'e' as u8, '_' as u8, 'i' as u8, 'n' as u8, 'd' as u8, 'e' as u8, 'x' as u8,
            ],
            RecordKey::Response { .. } => seq![
                'r' as u8, 'e' as u8, 's' as u8, 'p' as u8, 'o' as u8, 'n' as u8, 's' as u8,
                'e' as u8,
            ],
            RecordKey::Validation { .. } => seq![
                'v' as u8, 'a' as u8, 'l' as u8, 'i' as u8, 'd' as u8, 'a' as u8, 't' as u8,
                'i' as u8, 'o' as u8, 'n' as u8,
            ],
        }
    }

    /// The seeds of the record's address: the tag, then each identifier in
    /// its fixed width, numbers little-endian.
    pub open spec fn spec_seeds(self) -> Seq<Seq<u8>> {
        match self {
            RecordKey::Config => seq![self.tag()],
            RecordKey::Agent { agent_mint } => seq![self.tag(), agent_mint@],
            RecordKey::MetadataExtension { agent_mint, extension_index } => seq![
                self.tag(),
                agent_mint@,
                seq![extension_index],
            ],
            RecordKey::ClientIndex { agent_id, client } => seq![
                self.tag(),
                spec_u64_to_le_bytes(agent_id),
                client@,
            ],
            RecordKey::Feedback { agent_id, client, feedback_index } => seq![
                self.tag(),
                spec_u64_to_le_bytes(agent_id),
                client@,
                spec_u64_to_le_bytes(feedback_index),
            ],
            RecordKey::AgentReputation { agent_id } => seq![
                self.tag(),
                spec_u64_to_le_bytes(agent_id),
            ],
            RecordKey::ResponseIndex { agent_id, client, feedback_index } => seq![
                self.tag(),
                spec_u64_to_le_bytes(agent_id),
                client@,
                spec_u64_to_le_bytes(feedback_index),
            ],
            RecordKey::Response { agent_id, client, feedback_index, response_index } => seq![
                self.tag(),
                spec_u64_to_le_bytes(agent_id),
                client@,
                spec_u64_to_le_bytes(feedback_index),
                spec_u64_to_le_bytes(response_index),
            ],
            RecordKey::Validation { agent_id, validator, nonce } => seq![
                self.tag(),
                spec_u64_to_le_bytes(agent_id),
                validator@,
                spec_u32_to_le_bytes(nonce),
            ],
        }
    }

    /// The seeds one after another: the bytes that the derivation hashes
    /// of the key, before the bump seed and the program's address.
    pub open spec fn joined(self) -> Seq<u8> {
        match self {
            RecordKey::Config => self.tag(),
            RecordKey::Agent { agent_mint } => self.tag() + agent_mint@,
            RecordKey::MetadataExtension { agent_mint, extension_index } => self.tag()
                + agent_mint@ + seq![extension_index],
            RecordKey::ClientIndex { agent_id, client } => self.tag() + spec_u64_to_le_bytes(
                agent_id,
            ) + client@,
            RecordKey::Feedback { agent_id, client, feedback_index } => self.tag()
                + spec_u64_to_le_bytes(agent_id) + client@ + spec_u64_to_le_bytes(feedback_index),
            RecordKey::AgentReputation { agent_id } => self.tag() + spec_u64_to_le_bytes(agent_id),
            RecordKey::ResponseIndex { agent_id, client, feedback_index } => self.tag()
                + spec_u64_to_le_bytes(agent_id) + client@ + spec_u64_to_le_bytes(feedback_index),
            RecordKey::Response { agent_id, client, feedback_index, response_index } => self.tag()
                + spec_u64_to_le_bytes(agent_id) + client@ + spec_u64_to_le_bytes(feedback_index)
                + spec_u64_to_le_bytes(response_index),
            RecordKey::Validation { agent_id, validator, nonce } => self.tag()
                + spec_u64_to_le_bytes(agent_id) + validator@ + spec_u32_to_le_bytes(nonce),
        }
    }

    /// Builds the tag of the record's kind.
    pub fn tag_bytes(&self) -> (r: Vec<u8>)
        ensures
            r@ == self.tag(),
    {
        let r = match self {
            RecordKey::Config => vec![
                'c' as u8, 'o' as u8, 'n' as u8, 'f' as u8, 'i' as u8, 'g' as u8,
            ],
            RecordKey::Agent { .. } => vec!['a' as u8, 'g' as u8, 'e' as u8, 'n' as u8, 't' as u8],
            RecordKey::MetadataExtension { .. } => vec![
                'm' as u8, 'e' as u8, 't' as u8, 'a' as u8, 'd' as u8, 'a' as u8, 't' as u8,
                'a' as u8, '_' as u8, 'e' as u8, 'x' as u8, 't' as u8,
            ],
            RecordKey::ClientIndex { .. } => vec![
                'c' as u8, 'l' as u8, 'i' as u8, 'e' as u8, 'n' as u8, 't' as u8, '_' as u8,
                'i' as u8, 'n' as u8, 'd' as u8, 'e' as u8, 'x' as u8,
            ],
            RecordKey::Feedback { .. } => vec![
                'f' as u8, 'e' as u8, 'e' as u8, 'd' as u8, 'b' as u8, 'a' as u8, 'c' as u8,
                'k' as u8,
            ],
            RecordKey::AgentReputation { .. } => vec![
                'a' as u8, 'g' as u8, 'e' as u8, 'n' as u8, 't' as u8, '_' as u8, 'r' as u8,
                'e' as u8, 'p' as u8, 'u' as u8, 't' as u8, 'a' as u8, 't' as u8, 'i' as u8,
                'o' as u8, 'n' as u8,
            ],
            RecordKey::ResponseIndex { .. } => vec![
                'r' as u8, 'e' as u8, 's' as u8, 'p' as u8, 'o' as u8, 'n' as u8, 's' as u8,
                'e' as u8, '_' as u8, 'i' as u8, 'n' as u8, 'd' as u8, 'e' as u8, 'x' as u8,
            ],
            RecordKey::Response { .. } => vec![
                'r' as u8, 'e' as u8, 's' as u8, 'p' as u8, 'o' as u8, 'n' as u8, 's' as u8,
                'e' as u8,
            ],
            RecordKey::Validation { .. } => vec![
                'v' as u8, 'a' as u8, 'l' as u8, 'i' as u8, 'd' as u8, 'a' as u8, 't' as u8,
                'i' as u8, 'o' as u8, 'n' as u8,
            ],
        };
        r
    }

    /// Builds the seeds of the record's address.
    pub fn seeds(&self) -> (r: Vec<Vec<u8>>)
        ensures
            seeds_view(r@) == self.spec_seeds(),
    {
        let mut out: Vec<Vec<u8>> = Vec::new();
        out.push(self.tag_bytes());
        match self {
            RecordKey::Config => {},
            RecordKey::Agent { agent_mint } => {
                out.push(agent_mint.to_vec());
            },
            RecordKey::MetadataExtension { agent_mint, extension_index } => {
                out.push(agent_mint.to_vec());
                let index: Vec<u8> = vec![*extension_index];
                assert(index@ =~= seq![*extension_index]);
                out.push(index);
            },
            RecordKey::ClientIndex { agent_id, client } => {
                out.push(u64_to_le_bytes(*agent_id));
                out.push(client.to_vec());
            },
            RecordKey::Feedback { agent_id, client, feedback_index } => {
                out.push(u64_to_le_bytes(*agent_id));
                out.push(client.to_vec());
                out.push(u64_to_le_bytes(*feedback_index));
            },
            RecordKey::AgentReputation { agent_id } => {
                out.push(u64_to_le_bytes(*agent_id));
            },
            RecordKey::ResponseIndex { agent_id, client, feedback_index } => {
                out.push(u64_to_le_bytes(*agent_id));
                out.push(client.to_vec());
                out.push(u64_to_le_bytes(*feedback_index));
            },
            RecordKey::Response { agent_id, client, feedback_index, response_index } => {
                out.push(u64_to_le_bytes(*agent_id));
                out.push(client.to_vec());
                out.push(u64_to_le_bytes(*feedback_index));
                out.push(u64_to_le_bytes(*response_index));
            },
            RecordKey::Validation { agent_id, validator, nonce } => {
                out.push(u64_to_le_bytes(*agent_id));
                out.push(validator.to_vec());
                out.push(u32_to_le_bytes(*nonce));
            },
        }
        out
    }
}

/// The address and bump seed that the derivation of program addresses
/// gives for a list of seeds under a program, and `None` where it gives
/// none. The derivation hashes the seeds, a bump seed, the program's address
/// and a marker, and takes the first bump seed, counting down from 255,
/// whose hash is no point of the curve of signing keys.
pub uninterp spec fn program_address(seeds: Seq<Seq<u8>>, program: Seq<u8>) -> Option<(Seq<u8>, u8)>;

/// Calls `Pubkey::try_find_program_address` of the Solana SDK, which
/// `anchor_lang` hands on. Nothing is proved of it: the contract only says
/// that what it returns is a function of the seeds and of the program's
/// address, which is called `program_address` here.
#[verifier::external_body]
fn try_find_program_address(seeds: &Vec<Vec<u8>>, program: &Address) -> (r: Option<(Address, u8)>)
    ensures
        match r {
            Some((address, bump)) => program_address(seeds_view(seeds@), program@) == Some(
                (address@, bump),
            ),
            None => program_address(seeds_view(seeds@), program@) is None,
        },
{
    let slices: Vec<&[u8]> = seeds.iter().map(|seed| seed.as_slice()).collect();
    let found = Pubkey::try_find_program_address(&slices, &Pubkey::new_from_array(program.bytes));
    found.map(|(key, bump)| (Address { bytes: key.to_bytes() }, bump))
}

/// The candidate is the address that a derivation found.
pub fn is_derived(found: &Option<(Address, u8)>, candidate: &Address) -> (r: bool)
    ensures
        r == (found matches Some((address, _)) && address == *candidate),
{
    match found {
        Some((address, _)) => *address == *candidate,
        None => false,
    }
}

impl RecordKey {
    /// Derives the address of the record under a ledger's program, with the
    /// bump seed that goes with it.
    pub fn find_address(&self, program: &Address) -> (r: Option<(Address, u8)>)
        ensures
            match r {
                Some((address, bump)) => program_address(self.spec_seeds(), program@) == Some(
                    (address@, bump),
                ),
                None => program_address(self.spec_seeds(), program@) is None,
            },
    {
        let seeds = self.seeds();
        try_find_program_address(&seeds, program)
    }

    /// The record is stored at `candidate` under a ledger's program.
    pub fn is_at(&self, program: &Address, candidate: &Address) -> (r: bool)
        ensures
            r == (program_address(self.spec_seeds(), program@) matches Some((address, _))
                && address == candidate@),
    {
        let found = self.find_address(program);
        proof {
            if let Some((address, _)) = found {
                if address@ == candidate@ {
                    Address::lemma_view_injective(address, *candidate);
                }
            }
        }
        is_derived(&found, candidate)
    }

    /// The seeds of every key are within what a derivation takes: at most
    /// 15 seeds of at most 32 bytes each.
    pub proof fn lemma_seeds_within_limits(self)
        ensures
            self.spec_seeds().len() <= MAX_KEY_SEEDS,
            forall|i: int|
                0 <= i < self.spec_seeds().len() ==> (#[trigger] self.spec_seeds()[i]).len()
                    <= MAX_SEED_LEN,
    {
        lemma_auto_spec_u64_to_from_le_bytes();
        lemma_auto_spec_u32_to_from_le_bytes();
    }

    /// `joined` is the seeds one after another.
    pub proof fn lemma_joined_is_seeds_in_a_row(self)
        ensures
            self.joined() == self.spec_seeds().flatten(),
    {
        reveal_with_fuel(Seq::flatten, 6);
    }

    /// Two keys with the same seeds in a row are the same key: whatever the
    /// bump seeds and the programs, no two records have their address
    /// derived from the same bytes.
    pub proof fn lemma_joined_injective(a: RecordKey, b: RecordKey)
        requires
            a.joined() == b.joined(),
        ensures
            a == b,
    {
        lemma_auto_spec_u64_to_from_le_bytes();
        lemma_auto_spec_u32_to_from_le_bytes();
        let ja = a.joined();
        let jb = b.joined();
        a.lemma_joined_len();
        b.lemma_joined_len();
        match (a, b) {
            (RecordKey::Config, RecordKey::Config) => {},
            (RecordKey::Agent { agent_mint: m1 }, RecordKey::Agent { agent_mint: m2 }) => {
                assert(ja.subrange(5, 37) =~= m1@);
                assert(jb.subrange(5, 37) =~= m2@);
                Address::lemma_view_injective(m1, m2);
            },
            (
                RecordKey::MetadataExtension { agent_mint: m1, extension_index: i1 },
                RecordKey::MetadataExtension { agent_mint: m2, extension_index: i2 },
            ) => {
                assert(ja.subrange(12, 44) =~= m1@);
                assert(jb.subrange(12, 44) =~= m2@);
                assert(ja[44] == i1);
                assert(jb[44] == i2);
                Address::lemma_view_injective(m1, m2);
            },
            (
                RecordKey::ClientIndex { agent_id: a1, client: c1 },
                RecordKey::ClientIndex { agent_id: a2, client: c2 },
            ) => {
                assert(ja.subrange(12, 20) =~= spec_u64_to_le_bytes(a1));
                assert(jb.subrange(12, 20) =~= spec_u64_to_le_bytes(a2));
                assert(ja.subrange(20, 52) =~= c1@);
                assert(jb.subrange(20, 52) =~= c2@);
                lemma_u64_le_injective(a1, a2);
                Address::lemma_view_injective(c1, c2);
            },
            (
                RecordKey::Feedback { agent_id: a1, client: c1, feedback_index: f1 },
                RecordKey::Feedback { agent_id: a2, client: c2, feedback_index: f2 },
            ) => {
                assert(ja.subrange(8, 16) =~= spec_u64_to_le_bytes(a1));
                assert(jb.subrange(8, 16) =~= spec_u64_to_le_bytes(a2));
                assert(ja.subrange(16, 48) =~= c1@);
                assert(jb.subrange(16, 48) =~= c2@);
                assert(ja.subrange(48, 56) =~= spec_u64_to_le_bytes(f1));
                assert(jb.subrange(48, 56) =~= spec_u64_to_le_bytes(f2));
                lemma_u64_le_injective(a1, a2);
                lemma_u64_le_injective(f1, f2);
                Address::lemma_view_injective(c1, c2);
            },
            (
                RecordKey::AgentReputation { agent_id: a1 },
                RecordKey::AgentReputation { agent_id: a2 },
            ) => {
                assert(ja.subrange(16, 24) =~= spec_u64_to_le_bytes(a1));
                assert(jb.subrange(16, 24) =~= spec_u64_to_le_bytes(a2));
                lemma_u64_le_injective(a1, a2);
            },
            (
                RecordKey::ResponseIndex { agent_id: a1, client: c1, feedback_index: f1 },
                RecordKey::ResponseIndex { agent_id: a2, client: c2, feedback_index: f2 },
            ) => {
                assert(ja.subrange(14, 22) =~= spec_u64_to_le_bytes(a1));
                assert(jb.subrange(14, 22) =~= spec_u64_to_le_bytes(a2));
                assert(ja.subrange(22, 54) =~= c1@);
                assert(jb.subrange(22, 54) =~= c2@);
                assert(ja.subrange(54, 62) =~= spec_u64_to_le_bytes(f1));
                assert(jb.subrange(54, 62) =~= spec_u64_to_le_bytes(f2));
                lemma_u64_le_injective(a1, a2);
                lemma_u64_le_injective(f1, f2);
                Address::lemma_view_injective(c1, c2);
            },
            (
                RecordKey::Response { agent_id: a1, client: c1, feedback_index: f1, response_index: r1 },
                RecordKey::Response { agent_id: a2, client: c2, feedback_index: f2, response_index: r2 },
            ) => {
                assert(ja.subrange(8, 16) =~= spec_u64_to_le_bytes(a1));
                assert(jb.subrange(8, 16) =~= spec_u64_to_le_bytes(a2));
                assert(ja.subrange(16, 48) =~= c1@);
                assert(jb.subrange(16, 48) =~= c2@);
                assert(ja.subrange(48, 56) =~= spec_u64_to_le_bytes(f1));
                assert(jb.subrange(48, 56) =~= spec_u64_to_le_bytes(f2));
                assert(ja.subrange(56, 64) =~= spec_u64_to_le_bytes(r1));
                assert(jb.subrange(56, 64) =~= spec_u64_to_le_bytes(r2));
                lemma_u64_le_injective(a1, a2);
                lemma_u64_le_injective(f1, f2);
                lemma_u64_le_injective(r1, r2);
                Address::lemma_view_injective(c1, c2);
            },
            (
                RecordKey::Validation { agent_id: a1, validator: v1, nonce: n1 },
                RecordKey::Validation { agent_id: a2, validator: v2, nonce: n2 },
            ) => {
                assert(ja.subrange(10, 18) =~= spec_u64_to_le_bytes(a1));
                assert(jb.subrange(10, 18) =~= spec_u64_to_le_bytes(a2));
                assert(ja.subrange(18, 50) =~= v1@);
                assert(jb.subrange(18, 50) =~= v2@);
                assert(ja.subrange(50, 54) =~= spec_u32_to_le_bytes(n1));
                assert(jb.subrange(50, 54) =~= spec_u32_to_le_bytes(n2));
                lemma_u64_le_injective(a1, a2);
                lemma_u32_le_injective(n1, n2);
                Address::lemma_view_injective(v1, v2);
            },
            _ => {},
        }
    }

    /// The number of bytes of the seeds in a row: the tag and the fixed
    /// widths of the identifiers. No two kinds of record have the same.
    pub open spec fn joined_len(self) -> nat {
        match self {
            RecordKey::Config => 6,
            RecordKey::Agent { .. } => 5 + 32,
            RecordKey::MetadataExtension { .. } => 12 + 32 + 1,
            RecordKey::ClientIndex { .. } => 12 + 8 + 32,
            RecordKey::Feedback { .. } => 8 + 8 + 32 + 8,
            RecordKey::AgentReputation { .. } => 16 + 8,
            RecordKey::ResponseIndex { .. } => 14 + 8 + 32 + 8,
            RecordKey::Response { .. } => 8 + 8 + 32 + 8 + 8,
            RecordKey::Validation { .. } => 10 + 8 + 32 + 4,
        }
    }

    /// The seeds in a row have the length of their kind.
    pub proof fn lemma_joined_len(self)
        ensures
            self.joined().len() == self.joined_len(),
    {
        lemma_auto_spec_u64_to_from_le_bytes();
        lemma_auto_spec_u32_to_from_le_bytes();
    }

    /// Two keys with the same seeds are the same key: no two records share
    /// their seeds.
    pub proof fn lemma_seeds_injective(a: RecordKey, b: RecordKey)
        requires
            a.spec_seeds() == b.spec_seeds(),
        ensures
            a == b,
    {
        lemma_auto_spec_u64_to_from_le_bytes();
        lemma_auto_spec_u32_to_from_le_bytes();
        assert(a.spec_seeds()[0] == b.spec_seeds()[0]);
        assert(a.tag().len() == b.tag().len());
        match (a, b) {
            (RecordKey::Config, RecordKey::Config) => {},
            (RecordKey::Agent { agent_mint: m1 }, RecordKey::Agent { agent_mint: m2 }) => {
                Address::lemma_view_injective(m1, m2);
            },
            (
                RecordKey::MetadataExtension { agent_mint: m1, extension_index: i1 },
                RecordKey::MetadataExtension { agent_mint: m2, extension_index: i2 },
            ) => {
                assert(seq![i1][0] == seq![i2][0]);
                Address::lemma_view_injective(m1, m2);
            },
            (
                RecordKey::ClientIndex { agent_id: a1, client: c1 },
                RecordKey::ClientIndex { agent_id: a2, client: c2 },
            ) => {
                lemma_u64_le_injective(a1, a2);
                Address::lemma_view_injective(c1, c2);
            },
            (
                RecordKey::Feedback { agent_id: a1, client: c1, feedback_index: f1 },
                RecordKey::Feedback { agent_id: a2, client: c2, feedback_index: f2 },
            ) => {
                lemma_u64_le_injective(a1, a2);
                lemma_u64_le_injective(f1, f2);
                Address::lemma_view_injective(c1, c2);
            },
            (
                RecordKey::AgentReputation { agent_id: a1 },
                RecordKey::AgentReputation { agent_id: a2 },
            ) => {
                lemma_u64_le_injective(a1, a2);
            },
            (
                RecordKey::ResponseIndex { agent_id: a1, client: c1, feedback_index: f1 },
                RecordKey::ResponseIndex { agent_id: a2, client: c2, feedback_index: f2 },
            ) => {
                lemma_u64_le_injective(a1, a2);
                lemma_u64_le_injective(f1, f2);
                Address::lemma_view_injective(c1, c2);
            },
            (
                RecordKey::Response { agent_id: a1, client: c1, feedback_index: f1, response_index: r1 },
                RecordKey::Response { agent_id: a2, client: c2, feedback_index: f2, response_index: r2 },
            ) => {
                lemma_u64_le_injective(a1, a2);
                lemma_u64_le_injective(f1, f2);
                lemma_u64_le_injective(r1, r2);
                Address::lemma_view_injective(c1, c2);
            },
            (
                RecordKey::Validation { agent_id: a1, validator: v1, nonce: n1 },
                RecordKey::Validation { agent_id: a2, validator: v2, nonce: n2 },
            ) => {
                lemma_u64_le_injective(a1, a2);
                lemma_u32_le_injective(n1, n2);
                Address::lemma_view_injective(v1, v2);
            },
            _ => {},
        }
    }
}

/// Two numbers with the same 8 little-endian bytes are the same number.
pub proof fn lemma_u64_le_injective(x: u64, y: u64)
    requires
        spec_u64_to_le_bytes(x) == spec_u64_to_le_bytes(y),
    ensures
        x == y,
{
    lemma_auto_spec_u64_to_from_le_bytes();
}

/// Two numbers with the same 4 little-endian bytes are the same number.
pub proof fn lemma_u32_le_injective(x: u32, y: u32)
    requires
        spec_u32_to_le_bytes(x) == spec_u32_to_le_bytes(y),
    ensures
        x == y,
{
    lemma_auto_spec_u32_to_from_le_bytes();
    assert(spec_u32_to_le_bytes(x).len() == 4);
    assert(spec_u32_to_le_bytes(y).len() == 4);
}

} // verus!
