use cctp_forwarder::address::Address;
use cctp_forwarder::error::ForwardError;
use cctp_forwarder::message_transmitter::{DataKey, MessageTransmitter, Mint};

fn message(destination_caller: [u8; 32], mint_recipient: [u8; 32], amount: i128) -> Vec<u8> {
    let mut out = vec![0x01u8; 32];
    out.extend_from_slice(&destination_caller);
    out.extend_from_slice(&mint_recipient);
    out.extend_from_slice(&[0x77u8; 16]);
    out.extend_from_slice(&amount.to_be_bytes());
    out.extend_from_slice(b"trailer");
    out
}

#[test]
fn transmitter_mints_what_the_message_attests() {
    let asset = Address::contract([0xa5; 32]);
    let transmitter = MessageTransmitter::new(asset);
    let mint = transmitter.receive_message(&message([2; 32], [3; 32], 1000));
    assert_eq!(
        mint,
        Ok(Mint {
            authorizer: Address::contract([2; 32]),
            asset,
            to: Address::contract([3; 32]),
            amount: 1000,
        })
    );
}

#[test]
fn transmitter_rejects_a_short_message() {
    let transmitter = MessageTransmitter::new(Address::contract([0xa5; 32]));
    assert_eq!(transmitter.receive_message(&[0u8; 127]), Err(ForwardError::MalformedMessage));
    assert_eq!(transmitter.receive_message(&[]), Err(ForwardError::MalformedMessage));
}

#[test]
fn transmitter_reads_its_asset_back() {
    let asset = Address::contract([0xa5; 32]);
    let transmitter = MessageTransmitter::new(asset);
    assert_eq!(transmitter.asset(), asset);
    assert_eq!(transmitter.get(DataKey::Asset), asset);
}
