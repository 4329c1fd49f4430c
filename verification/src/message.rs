//! The message codec.
//!
//! A message is a flat buffer: four 32-byte fields, then a trailer of any
//! length.
//!
//! | offset | length | field              |
//! |--------|--------|--------------------|
//! | 0      | 32     | recipient          |
//! | 32     | 32     | destination caller |
//! | 64     | 32     | mint recipient     |
//! | 96     | 32     | amount, big-endian |
//! | 128    | rest   | hook data          |
//!
//! The three address fields are contract id hashes. The amount field is a
//! 256-bit unsigned number of which only the low 128 bits are kept, read as a
//! signed number: the high 16 bytes are dropped without notice, on purpose.

use vstd::prelude::*;
use vstd::slice::{slice_subrange, slice_to_vec};
use crate::address::{contract_address, Address, AddressKind, AddressView};
use crate::error::ForwardError;

verus! {

/// Number of bytes before the hook data: four fixed fields.
pub const HEADER_LEN: usize = 128;

/// The body of a message: what was minted, for whom, and the trailer.
#[derive(Clone, Debug, PartialEq, Eq)]
pub struct MessageBody {
    /// The address the transmitter mints to.
    pub mint_recipient: Address,
    /// The attested amount.
    pub amount: i128,
    /// The trailer, which names the final recipient.
    pub hook_data: Vec<u8>,
}

/// A decoded message.
#[derive(Clone, Debug, PartialEq, Eq)]
pub struct Message {
    /// The contract the message is meant for.
    pub recipient: Address,
    /// The authority allowed to have the transmitter mint.
    pub destination_caller: Address,
    pub message_body: MessageBody,
}

/// The mathematical value of a [`MessageBody`].
pub struct MessageBodyView {
    pub mint_recipient: AddressView,
    pub amount: i128,
    pub hook_data: Seq<u8>,
}

/// The mathematical value of a [`Message`].
pub struct MessageView {
    pub recipient: AddressView,
    pub destination_caller: AddressView,
    pub message_body: MessageBodyView,
}

impl View for MessageBody {
    type V = MessageBodyView;

    open spec fn view(&self) -> MessageBodyView {
        MessageBodyView {
            mint_recipient: self.mint_recipient@,
            amount: self.amount,
            hook_data: self.hook_data@,
        }
    }
}

impl View for Message {
    type V = MessageView;

    open spec fn view(&self) -> MessageView {
        MessageView {
            recipient: self.recipient@,
            destination_caller: self.destination_caller@,
            message_body: self.message_body@,
        }
    }
}

/// 256 to the power `n`.
pub open spec fn pow256(n: nat) -> nat
    decreases n,
{
    if n == 0 {
        1
    } else {
        256 * pow256((n - 1) as nat)
    }
}

/// The number that `digits` spell in base 256, most significant digit first.
pub open spec fn be_value(digits: Seq<u8>) -> nat
    decreases digits.len(),
{
    if digits.len() == 0 {
        0
    } else {
        be_value(digits.drop_last()) * 256 + digits.last() as nat
    }
}

/// The `n` lowest digits of `value` in base 256, most significant digit first.
pub open spec fn be_digits(value: nat, n: nat) -> Seq<u8>
    decreases n,
{
    if n == 0 {
        Seq::empty()
    } else {
        be_digits(value / 256, (n - 1) as nat).push((value % 256) as u8)
    }
}

/// A number below 2^128 read as a signed 128-bit number in two's complement.
pub open spec fn signed128(low: nat) -> i128 {
    if low <= i128::MAX {
        low as i128
    } else {
        (low - u128::MAX - 1) as i128
    }
}

/// The number below 2^128 whose two's complement reading is `amount`.
pub open spec fn unsigned128(amount: i128) -> nat {
    if amount >= 0 {
        amount as nat
    } else {
        (amount + u128::MAX + 1) as nat
    }
}

/// The amount that a 32-byte amount field stands for: its value as an
/// unsigned big-endian number, cut down to the low 128 bits, read as signed.
pub open spec fn amount_of(field: Seq<u8>) -> i128 {
    signed128(be_value(field) % (u128::MAX + 1) as nat)
}

/// What a buffer decodes to; `None` where it is shorter than the header.
pub open spec fn decoded(bytes: Seq<u8>) -> Option<MessageView> {
    if bytes.len() < HEADER_LEN {
        None
    } else {
        Some(
            MessageView {
                recipient: contract_address(bytes.subrange(0, 32)),
                destination_caller: contract_address(bytes.subrange(32, 64)),
                message_body: MessageBodyView {
                    mint_recipient: contract_address(bytes.subrange(64, 96)),
                    amount: amount_of(bytes.subrange(96, 128)),
                    hook_data: bytes.subrange(128, bytes.len() as int),
                },
            },
        )
    }
}

/// A number of `n` digits is below 256 to the `n`.
pub proof fn lemma_be_value_bound(digits: Seq<u8>)
    ensures
        be_value(digits) < pow256(digits.len()),
    decreases digits.len(),
{
    if digits.len() > 0 {
        lemma_be_value_bound(digits.drop_last());
    }
}

/// The powers of 256 grow.
pub proof fn lemma_pow256_grows(m: nat, n: nat)
    requires
        m <= n,
    ensures
        0 < pow256(m) <= pow256(n),
    decreases n,
{
    if n > 0 {
        if m < n {
            lemma_pow256_grows(m, (n - 1) as nat);
        } else {
            lemma_pow256_grows((m - 1) as nat, (n - 1) as nat);
        }
    }
}

/// 256 to the 16 is 2 to the 128.
pub proof fn lemma_pow256_16()
    ensures
        pow256(16) == u128::MAX + 1,
        pow256(15) * 256 == u128::MAX + 1,
{
    reveal_with_fuel(pow256, 17);
}

/// Digits written one after the other: the first number is shifted left by
/// the length of the second.
pub proof fn lemma_be_value_concat(high: Seq<u8>, low: Seq<u8>)
    ensures
        be_value(high + low) == be_value(high) * pow256(low.len()) + be_value(low),
    decreases low.len(),
{
    if low.len() == 0 {
        assert(high + low =~= high);
        assert(be_value(high) * 1 == be_value(high)) by (nonlinear_arith);
    } else {
        let all = high + low;
        let shorter = low.drop_last();
        assert(all.drop_last() =~= high + shorter);
        assert(all.last() == low.last());
        lemma_be_value_concat(high, shorter);
        let h = be_value(high);
        let s = be_value(shorter);
        let p = pow256(shorter.len());
        assert(pow256(low.len()) == 256 * p);
        assert(be_value(all) == (h * p + s) * 256 + low.last() as nat);
        assert(be_value(low) == s * 256 + low.last() as nat);
        assert((h * p + s) * 256 == h * (256 * p) + s * 256) by (nonlinear_arith);
    }
}

/// Of a 32-byte amount field only the last 16 bytes count.
pub proof fn lemma_amount_is_low_half(field: Seq<u8>)
    requires
        field.len() == 32,
    ensures
        be_value(field) % (u128::MAX + 1) as nat == be_value(field.subrange(16, 32)),
        amount_of(field) == signed128(be_value(field.subrange(16, 32))),
{
    let high = field.subrange(0, 16);
    let low = field.subrange(16, 32);
    assert(field =~= high + low);
    lemma_be_value_concat(high, low);
    lemma_be_value_bound(low);
    lemma_pow256_16();
    let m = (u128::MAX + 1) as int;
    vstd::arithmetic::div_mod::lemma_fundamental_div_mod_converse(
        be_value(field) as int,
        m,
        be_value(high) as int,
        be_value(low) as int,
    );
}

/// The `n` lowest digits of a number spell that number modulo 256 to the `n`.
pub proof fn lemma_digits_value(value: nat, n: nat)
    ensures
        be_digits(value, n).len() == n,
        be_value(be_digits(value, n)) == value % pow256(n),
    decreases n,
{
    if n > 0 {
        let rest = (n - 1) as nat;
        let p = pow256(rest);
        lemma_digits_value(value / 256, rest);
        assert(be_digits(value, n).drop_last() =~= be_digits(value / 256, rest));
        lemma_pow256_grows(0, rest);
        vstd::arithmetic::div_mod::lemma_mod_breakdown(value as int, 256, p as int);
        assert(((value / 256) % p) * 256 == 256 * ((value / 256) % p)) by (nonlinear_arith);
    }
}

/// The amount field that carries `amount`: 16 bytes that are not read, then
/// the 16 bytes of the amount in two's complement.
pub open spec fn amount_field(high: Seq<u8>, amount: i128) -> Seq<u8> {
    high + be_digits(unsigned128(amount), 16)
}

/// The buffer that carries the message `m`, with `high` as the 16 bytes of
/// the amount field that are not read.
pub open spec fn encoded(m: MessageView, high: Seq<u8>) -> Seq<u8> {
    m.recipient.id + m.destination_caller.id + m.message_body.mint_recipient.id + amount_field(
        high,
        m.message_body.amount,
    ) + m.message_body.hook_data
}

impl MessageView {
    /// Whether a buffer can carry this message: its three addresses are
    /// contracts with identifiers of 32 bytes.
    pub open spec fn encodable(self) -> bool {
        &&& self.recipient.kind == AddressKind::Contract
        &&& self.recipient.id.len() == 32
        &&& self.destination_caller.kind == AddressKind::Contract
        &&& self.destination_caller.id.len() == 32
        &&& self.message_body.mint_recipient.kind == AddressKind::Contract
        &&& self.message_body.mint_recipient.id.len() == 32
    }
}

/// The amount field that carries an amount stands for that amount, whatever
/// its first 16 bytes are.
pub proof fn lemma_amount_field_round_trip(high: Seq<u8>, amount: i128)
    requires
        high.len() == 16,
    ensures
        amount_field(high, amount).len() == 32,
        amount_of(amount_field(high, amount)) == amount,
{
    let low = be_digits(unsigned128(amount), 16);
    let field = amount_field(high, amount);
    lemma_digits_value(unsigned128(amount), 16);
    lemma_pow256_16();
    assert(field.subrange(16, 32) =~= low);
    lemma_amount_is_low_half(field);
    vstd::arithmetic::div_mod::lemma_small_mod(unsigned128(amount), pow256(16));
}

/// Round trip: the buffer built from three contract addresses, an amount and
/// hook data decodes to exactly those, whatever the 16 unread bytes of the
/// amount field hold.
pub proof fn lemma_decode_round_trip(m: MessageView, high: Seq<u8>)
    requires
        m.encodable(),
        high.len() == 16,
    ensures
        decoded(encoded(m, high)) == Some(m),
{
    let bytes = encoded(m, high);
    let field = amount_field(high, m.message_body.amount);
    lemma_amount_field_round_trip(high, m.message_body.amount);
    assert(bytes.subrange(0, 32) =~= m.recipient.id);
    assert(bytes.subrange(32, 64) =~= m.destination_caller.id);
    assert(bytes.subrange(64, 96) =~= m.message_body.mint_recipient.id);
    assert(bytes.subrange(96, 128) =~= field);
    assert(bytes.subrange(128, bytes.len() as int) =~= m.message_body.hook_data);
}

/// Truncation: two buffers that differ only in the first 16 bytes of the
/// amount field decode alike.
pub proof fn lemma_decode_ignores_high_amount_bytes(a: Seq<u8>, b: Seq<u8>)
    requires
        a.len() == b.len(),
        forall|i: int| 0 <= i < a.len() && !(96 <= i < 112) ==> a[i] == b[i],
    ensures
        decoded(a) == decoded(b),
{
    if a.len() >= 128 {
        assert(a.subrange(0, 32) =~= b.subrange(0, 32));
        assert(a.subrange(32, 64) =~= b.subrange(32, 64));
        assert(a.subrange(64, 96) =~= b.subrange(64, 96));
        assert(a.subrange(128, a.len() as int) =~= b.subrange(128, b.len() as int));
        let fa = a.subrange(96, 128);
        let fb = b.subrange(96, 128);
        assert(fa.subrange(16, 32) =~= fb.subrange(16, 32));
        lemma_amount_is_low_half(fa);
        lemma_amount_is_low_half(fb);
    }
}

/// Reads the amount out of a 32-byte amount field: the last 16 bytes as a
/// signed big-endian number. The first 16 bytes are not looked at.
pub fn amount_from_bytes32(bytes: &[u8]) -> (amount: i128)
    requires
        bytes@.len() == 32,
    ensures
        amount == amount_of(bytes@),
{
    let ghost low = bytes@.subrange(16, 32);
    let mut acc: u128 = 0;
    let mut i: usize = 16;
    while i < 32
        invariant
            16 <= i <= 32,
            bytes@.len() == 32,
            low == bytes@.subrange(16, 32),
            acc == be_value(low.subrange(0, i - 16)),
        decreases 32 - i,
    {
        proof {
            let done = low.subrange(0, i - 16);
            let next = low.subrange(0, i + 1 - 16);
            assert(next.drop_last() =~= done);
            assert(next.last() == bytes@[i as int]);
            lemma_be_value_bound(done);
            lemma_pow256_grows(done.len(), 15);
            lemma_pow256_16();
        }
        acc = acc * 256 + bytes[i] as u128;
        i = i + 1;
    }
    proof {
        assert(low.subrange(0, 16) =~= low);
        lemma_amount_is_low_half(bytes@);
    }
    if acc > i128::MAX as u128 {
        let over: u128 = acc - (i128::MAX as u128) - 1;
        (over as i128) + i128::MIN
    } else {
        acc as i128
    }
}

/// Makes the contract address whose id hash is the given 32 bytes.
pub fn contract_address_from_bytes32(bytes: &[u8]) -> (address: Address)
    requires
        bytes@.len() == 32,
    ensures
        address@ == contract_address(bytes@),
{
    let mut id = [0u8; 32];
    let mut i: usize = 0;
    while i < 32
        invariant
            i <= 32,
            bytes@.len() == 32,
            forall|j: int| 0 <= j < i ==> id@[j] == bytes@[j],
        decreases 32 - i,
    {
        id[i] = bytes[i];
        i = i + 1;
    }
    assert(id@ =~= bytes@);
    Address { kind: AddressKind::Contract, id }
}

/// Decodes a message.
///
/// A buffer of at least 128 bytes always decodes; whatever follows the header
/// is the hook data, which may be empty. A shorter buffer is malformed.
pub fn parse_message(message: &[u8]) -> (parsed: Result<Message, ForwardError>)
    ensures
        match parsed {
            Ok(m) => decoded(message@) == Some(m@),
            Err(e) => e == ForwardError::MalformedMessage && decoded(message@) is None,
        },
{
    let len = message.len();
    if len < HEADER_LEN {
        return Err(ForwardError::MalformedMessage);
    }
    let recipient = contract_address_from_bytes32(slice_subrange(message, 0, 32));
    let destination_caller = contract_address_from_bytes32(slice_subrange(message, 32, 64));
    let mint_recipient = contract_address_from_bytes32(slice_subrange(message, 64, 96));
    let amount = amount_from_bytes32(slice_subrange(message, 96, 128));
    let hook_data = slice_to_vec(slice_subrange(message, 128, len));
    Ok(
        Message {
            recipient,
            destination_caller,
            message_body: MessageBody { mint_recipient, amount, hook_data },
        },
    )
}

} // verus!
