use cctp_forwarder::address::{Address, AddressKind};
use cctp_forwarder::error::ForwardError;
use cctp_forwarder::message::{
    amount_from_bytes32, contract_address_from_bytes32, parse_message, Message, MessageBody,
};

fn field(first: u8) -> [u8; 32] {
    let mut out = [0u8; 32];
    for (i, b) in out.iter_mut().enumerate() {
        *b = first.wrapping_add(i as u8);
    }
    out
}

fn amount_field(high: [u8; 16], amount: i128) -> Vec<u8> {
    let mut out = high.to_vec();
    out.extend_from_slice(&amount.to_be_bytes());
    out
}

fn buffer(
    recipient: [u8; 32],
    destination_caller: [u8; 32],
    mint_recipient: [u8; 32],
    high: [u8; 16],
    amount: i128,
    hook_data: &[u8],
) -> Vec<u8> {
    let mut out = Vec::new();
    out.extend_from_slice(&recipient);
    out.extend_from_slice(&destination_caller);
    out.extend_from_slice(&mint_recipient);
    out.extend_from_slice(&amount_field(high, amount));
    out.extend_from_slice(hook_data);
    out
}

fn contract(id: [u8; 32]) -> Address {
    Address { kind: AddressKind::Contract, id }
}

#[test]
fn decode_recovers_the_fields() {
    let bytes = buffer(field(1), field(50), field(100), [0; 16], 1000, b"hook");
    assert_eq!(bytes.len(), 132);
    let expected = Message {
        recipient: contract(field(1)),
        destination_caller: contract(field(50)),
        message_body: MessageBody {
            mint_recipient: contract(field(100)),
            amount: 1000,
            hook_data: b"hook".to_vec(),
        },
    };
    assert_eq!(parse_message(&bytes), Ok(expected));
}

#[test]
fn decode_round_trips_many_amounts() {
    let amounts = [0i128, 1, -1, 255, 256, 1 << 64, i128::MAX, i128::MIN, -1000, 123_456_789_012_345_678_901_234_567];
    for amount in amounts {
        let bytes = buffer(field(7), field(8), field(9), [0xab; 16], amount, &[1, 2, 3]);
        let message = parse_message(&bytes).unwrap();
        assert_eq!(message.message_body.amount, amount);
        assert_eq!(message.recipient, contract(field(7)));
        assert_eq!(message.destination_caller, contract(field(8)));
        assert_eq!(message.message_body.mint_recipient, contract(field(9)));
        assert_eq!(message.message_body.hook_data, vec![1, 2, 3]);
    }
}

#[test]
fn decode_rejects_short_buffers() {
    for len in [0usize, 1, 127] {
        let bytes = vec![0x11u8; len];
        assert_eq!(parse_message(&bytes), Err(ForwardError::MalformedMessage));
    }
}

#[test]
fn decode_of_a_bare_header_has_empty_hook_data() {
    let bytes = buffer(field(1), field(2), field(3), [0; 16], 5, &[]);
    assert_eq!(bytes.len(), 128);
    let message = parse_message(&bytes).unwrap();
    assert_eq!(message.message_body.hook_data, Vec::<u8>::new());
    assert_eq!(message.message_body.amount, 5);
}

#[test]
fn decode_keeps_a_long_trailer_whole() {
    let trailer: Vec<u8> = (0..5000u32).map(|i| (i % 251) as u8).collect();
    let bytes = buffer(field(1), field(2), field(3), [0; 16], 5, &trailer);
    let message = parse_message(&bytes).unwrap();
    assert_eq!(message.message_body.hook_data, trailer);
}

#[test]
fn decode_drops_the_high_amount_bytes() {
    let zeroed = buffer(field(1), field(2), field(3), [0; 16], 1000, b"x");
    let noisy = buffer(field(1), field(2), field(3), [0xff; 16], 1000, b"x");
    assert_ne!(zeroed, noisy);
    assert_eq!(parse_message(&noisy), parse_message(&zeroed));
    assert_eq!(parse_message(&noisy).unwrap().message_body.amount, 1000);
}

#[test]
fn amount_is_the_low_half_read_as_signed() {
    let mut bytes = [0u8; 32];
    for i in 0..16 {
        bytes[16 + i] = (i + 1) as u8;
    }
    assert_eq!(amount_from_bytes32(&bytes), 0x0102030405060708090a0b0c0d0e0f10);

    let mut all_ones = [0u8; 32];
    for b in all_ones[16..].iter_mut() {
        *b = 0xff;
    }
    assert_eq!(amount_from_bytes32(&all_ones), -1);

    let mut lowest = [0u8; 32];
    lowest[16] = 0x80;
    assert_eq!(amount_from_bytes32(&lowest), i128::MIN);

    let mut highest = [0xffu8; 32];
    highest[16] = 0x7f;
    assert_eq!(amount_from_bytes32(&highest), i128::MAX);

    let mut one_above = [0u8; 32];
    one_above[15] = 1;
    assert_eq!(amount_from_bytes32(&one_above), 0);
}

#[test]
fn amount_of_one_thousand() {
    let mut bytes = [0u8; 32];
    bytes[30] = 0x03;
    bytes[31] = 0xe8;
    assert_eq!(amount_from_bytes32(&bytes), 1000);
}

#[test]
fn contract_address_holds_the_bytes() {
    let id = field(42);
    let address = contract_address_from_bytes32(&id);
    assert_eq!(address.kind, AddressKind::Contract);
    assert_eq!(address.id, id);
    assert_eq!(address, Address::contract(id));
    assert_ne!(address, Address::account(id));
}

#[test]
fn errors_describe_themselves() {
    assert_eq!(ForwardError::MalformedMessage.describe(), "message too short");
    assert_eq!(ForwardError::InvalidRecipientEncoding.describe(), "invalid recipient encoding");
    assert_eq!(ForwardError::AmountMismatch.describe(), "amount mismatch");
    assert_eq!(ForwardError::AuthorizationDenied.describe(), "authorization denied");
    assert_eq!(ForwardError::TransferFailed.describe(), "transfer failed");
}

/// A small generator of repeatable bytes.
struct Noise(u64);

impl Noise {
    fn next(&mut self) -> u8 {
        self.0 ^= self.0 << 13;
        self.0 ^= self.0 >> 7;
        self.0 ^= self.0 << 17;
        (self.0 >> 24) as u8
    }

    fn bytes(&mut self, len: usize) -> Vec<u8> {
        (0..len).map(|_| self.next()).collect()
    }
}

#[test]
fn decode_agrees_with_the_layout_on_arbitrary_buffers() {
    let mut noise = Noise(0x9e37_79b9_7f4a_7c15);
    for len in 0..400usize {
        let bytes = noise.bytes(len);
        let parsed = parse_message(&bytes);
        if len < 128 {
            assert_eq!(parsed, Err(ForwardError::MalformedMessage));
            continue;
        }
        let message = parsed.unwrap();
        assert_eq!(message.recipient.id[..], bytes[0..32]);
        assert_eq!(message.recipient.kind, AddressKind::Contract);
        assert_eq!(message.destination_caller.id[..], bytes[32..64]);
        assert_eq!(message.destination_caller.kind, AddressKind::Contract);
        assert_eq!(message.message_body.mint_recipient.id[..], bytes[64..96]);
        assert_eq!(message.message_body.mint_recipient.kind, AddressKind::Contract);
        let mut low = [0u8; 16];
        low.copy_from_slice(&bytes[112..128]);
        assert_eq!(message.message_body.amount, i128::from_be_bytes(low));
        assert_eq!(message.message_body.hook_data[..], bytes[128..]);
    }
}
