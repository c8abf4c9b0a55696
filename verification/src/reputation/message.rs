use anchor_lang::prelude::Pubkey;
use crate::address::Address;
use crate::reputation::state::FeedbackAuth;
use vstd::prelude::*;
use vstd::utf8::encode_utf8;

verus! {

/// The ASCII digit of a number below 10.
pub open spec fn digit(d: nat) -> u8
    recommends
        d < 10,
{
    (48 + d) as u8
}

/// The decimal digits of a number, in ASCII, without leading zeros.
pub open spec fn decimal(n: nat) -> Seq<u8>
    decreases n,
{
    if n < 10 {
        seq![digit(n)]
    } else {
        decimal(n / 10).push(digit(n % 10))
    }
}

/// The decimal digits of a number that may be negative: a minus sign
/// comes before the digits of a negative one.
pub open spec fn signed_decimal(x: int) -> Seq<u8> {
    if x < 0 {
        seq![45u8] + decimal((-x) as nat)
    } else {
        decimal(x as nat)
    }
}

/// The text of an address, in ASCII: what `Display` of the Solana SDK's
/// `Pubkey` writes for it, which is its base58 encoding.
pub uninterp spec fn address_text(address: Seq<u8>) -> Seq<u8>;

/// Calls `to_string` on the `Pubkey` of the Solana SDK, which `anchor_lang`
/// hands on, and takes the bytes of the text. Nothing is proved of it: the
/// contract only says that the text is a function of the address, which is
/// called `address_text` here.
#[verifier::external_body]
fn address_to_text(address: &Address) -> (r: Vec<u8>)
    ensures
        r@ == address_text(address@),
{
    Pubkey::new_from_array(address.bytes).to_string().into_bytes()
}

/// Puts the decimal digits of a number at the end of `out`.
pub fn push_decimal(out: &mut Vec<u8>, n: u64)
    ensures
        final(out)@ == old(out)@ + decimal(n as nat),
    decreases n,
{
    if n >= 10 {
        push_decimal(out, n / 10);
    }
    let d: u8 = (n % 10) as u8;
    out.push(48 + d);
}

/// Puts the decimal digits of a number that may be negative at the end of
/// `out`.
pub fn push_signed_decimal(out: &mut Vec<u8>, x: i64)
    ensures
        final(out)@ == old(out)@ + signed_decimal(x as int),
{
    if x < 0 {
        out.push(45);
        let magnitude: u64 = ((-(x + 1)) as u64) + 1;
        push_decimal(out, magnitude);
    } else {
        push_decimal(out, x as u64);
    }
}

/// Puts the bytes of `part` at the end of `out`.
fn push_all(out: &mut Vec<u8>, part: &[u8])
    ensures
        final(out)@ == old(out)@ + part@,
{
    let mut i: usize = 0;
    while i < part.len()
        invariant
            i <= part@.len(),
            out@ == old(out)@ + part@.subrange(0, i as int),
        decreases part@.len() - i,
    {
        out.push(part[i]);
        i += 1;
    }
}

/// The ASCII bytes of `feedback_auth:`, which every message starts with.
pub open spec fn message_prefix() -> Seq<u8> {
    seq![
        'f' as u8, 'e' as u8, 'e' as u8, 'd' as u8, 'b' as u8, 'a' as u8, 'c' as u8, 'k' as u8,
        '_' as u8, 'a' as u8, 'u' as u8, 't' as u8, 'h' as u8, ':' as u8,
    ]
}

impl FeedbackAuth {
    /// The message that the signer of the authorization signs: the fields
    /// in this order, each after a colon, behind the words `feedback_auth`.
    /// Numbers are in decimal, addresses in their text, the chain
    /// identifier in UTF-8.
    pub open spec fn message(self) -> Seq<u8> {
        message_prefix() + decimal(self.agent_id as nat) + seq![':' as u8] + address_text(
            self.client_address@,
        ) + seq![':' as u8] + decimal(self.index_limit as nat) + seq![':' as u8] + signed_decimal(
            self.expiry as int,
        ) + seq![':' as u8] + encode_utf8(self.chain_id@) + seq![':' as u8] + address_text(
            self.identity_registry@,
        )
    }

    /// Construct the message to be signed/verified.
    pub fn construct_message(&self) -> (r: Vec<u8>)
        ensures
            r@ == self.message(),
    {
        let mut out: Vec<u8> = vec![
            'f' as u8, 'e' as u8, 'e' as u8, 'd' as u8, 'b' as u8, 'a' as u8, 'c' as u8, 'k' as u8,
            '_' as u8, 'a' as u8, 'u' as u8, 't' as u8, 'h' as u8, ':' as u8,
        ];
        push_decimal(&mut out, self.agent_id);
        out.push(':' as u8);
        let client = address_to_text(&self.client_address);
        push_all(&mut out, client.as_slice());
        out.push(':' as u8);
        push_decimal(&mut out, self.index_limit);
        out.push(':' as u8);
        push_signed_decimal(&mut out, self.expiry);
        out.push(':' as u8);
        push_all(&mut out, self.chain_id.as_str().as_bytes());
        out.push(':' as u8);
        let registry = address_to_text(&self.identity_registry);
        push_all(&mut out, registry.as_slice());
        out
    }
}

} // verus!
