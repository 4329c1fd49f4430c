use cctp_forwarder::address::{Address, Recipient};
use cctp_forwarder::error::ForwardError;
use cctp_forwarder::hook_data::{
    parse_hook_data, parse_hook_data_xdr, recipient_from_strkey, recipient_from_xdr, resolve,
    DecodedAddress, ResolveMode,
};
use soroban_sdk::xdr::{
    AccountId, ContractId, Limits, MuxedEd25519Account, PublicKey, ScAddress, ScVal, Uint256,
    WriteXdr,
};

const KEY: [u8; 32] = [
    0x3f, 0x0c, 0x34, 0xbf, 0x93, 0xad, 0x0d, 0x99, 0x71, 0xd0, 0x4c, 0xcc, 0x90, 0xf7, 0x05, 0x51,
    0x1c, 0x83, 0x8a, 0xad, 0x97, 0x34, 0xa4, 0xa2, 0xfb, 0x0d, 0x7a, 0x03, 0xfc, 0x7f, 0xe8, 0x9a,
];
const ACCOUNT: &str = "GA7QYNF7SOWQ3GLR2BGMZEHXAVIRZA4KVWLTJJFC7MGXUA74P7UJVSGZ";
const CONTRACT: &str = "CA7QYNF7SOWQ3GLR2BGMZEHXAVIRZA4KVWLTJJFC7MGXUA74P7UJUWDA";
const MUXED: &str = "MA7QYNF7SOWQ3GLR2BGMZEHXAVIRZA4KVWLTJJFC7MGXUA74P7UJUAAAAAAAAAAAACJUQ";
const SECRET_SEED: &str = "SAAQEAYEAUDAOCAJBIFQYDIOB4IBCEQTCQKRMFYYDENBWHA5DYPSBF5K";

fn muxed_xdr(key: [u8; 32], id: u64) -> Vec<u8> {
    let mut out = vec![0, 0, 0, 18, 0, 0, 0, 2];
    out.extend_from_slice(&id.to_be_bytes());
    out.extend_from_slice(&key);
    out
}

fn invalid() -> Result<Recipient, ForwardError> {
    Err(ForwardError::InvalidRecipientEncoding)
}

#[test]
fn account_string_resolves_to_a_plain_account() {
    assert_eq!(ACCOUNT.len(), 56);
    let expected = Recipient::Plain(Address::account(KEY));
    assert_eq!(resolve(ACCOUNT.as_bytes(), ResolveMode::StringEncoded), Ok(expected));
    assert_eq!(parse_hook_data(ACCOUNT.as_bytes()), Ok(expected));
}

#[test]
fn contract_string_resolves_to_a_plain_contract() {
    let expected = Recipient::Plain(Address::contract(KEY));
    assert_eq!(resolve(CONTRACT.as_bytes(), ResolveMode::StringEncoded), Ok(expected));
}

#[test]
fn string_built_by_the_strkey_crate_resolves() {
    let id: [u8; 32] = core::array::from_fn(|i| (i as u8) * 3 + 1);
    let text = stellar_strkey::Strkey::Contract(stellar_strkey::Contract(id)).to_string();
    assert_eq!(parse_hook_data(text.as_bytes()), Ok(Recipient::Plain(Address::contract(id))));
    let text = stellar_strkey::Strkey::PublicKeyEd25519(stellar_strkey::ed25519::PublicKey(id))
        .to_string();
    assert_eq!(parse_hook_data(text.as_bytes()), Ok(Recipient::Plain(Address::account(id))));
}

#[test]
fn string_of_wrong_length_is_rejected() {
    assert_eq!(parse_hook_data(&ACCOUNT.as_bytes()[..55]), invalid());
    let mut longer = ACCOUNT.as_bytes().to_vec();
    longer.push(b'A');
    assert_eq!(parse_hook_data(&longer), invalid());
    assert_eq!(parse_hook_data(&[]), invalid());
    assert_eq!(resolve(&[], ResolveMode::StringEncoded), invalid());
}

#[test]
fn string_with_bad_checksum_is_rejected() {
    let mut text = ACCOUNT.as_bytes().to_vec();
    text[55] = b'Y';
    assert_eq!(parse_hook_data(&text), invalid());
    let mut text = ACCOUNT.as_bytes().to_vec();
    text[10] = if text[10] == b'A' { b'B' } else { b'A' };
    assert_eq!(parse_hook_data(&text), invalid());
}

#[test]
fn string_that_is_not_base32_is_rejected() {
    assert_eq!(parse_hook_data(&[b'!'; 56]), invalid());
    assert_eq!(parse_hook_data(&[0xff; 56]), invalid());
    assert_eq!(parse_hook_data(ACCOUNT.to_lowercase().as_bytes()), invalid());
}

#[test]
fn string_of_another_kind_of_key_is_rejected() {
    assert_eq!(SECRET_SEED.len(), 56);
    assert_eq!(parse_hook_data(SECRET_SEED.as_bytes()), invalid());
}

#[test]
fn muxed_string_is_too_long_for_an_address_string() {
    assert_eq!(MUXED.len(), 69);
    assert_eq!(parse_hook_data(MUXED.as_bytes()), invalid());
}

#[test]
fn serialized_sub_account_resolves_to_an_extended_recipient() {
    let bytes = muxed_xdr(KEY, 0x0102_0304_0506_0708);
    let expected = Recipient::Extended(Address::account(KEY), 0x0102_0304_0506_0708);
    assert_eq!(resolve(&bytes, ResolveMode::SerializedExtended), Ok(expected));
    assert_eq!(parse_hook_data_xdr(&bytes), Ok(expected));
    assert_eq!(expected.sub_id(), Some(0x0102_0304_0506_0708));
    assert_eq!(expected.address(), Address::account(KEY));
}

#[test]
fn serialized_value_written_by_the_xdr_crate_resolves() {
    let value = ScVal::Address(ScAddress::MuxedAccount(MuxedEd25519Account {
        id: u64::MAX,
        ed25519: Uint256(KEY),
    }));
    let bytes = value.to_xdr(Limits::none()).unwrap();
    assert_eq!(bytes, muxed_xdr(KEY, u64::MAX));
    assert_eq!(
        parse_hook_data_xdr(&bytes),
        Ok(Recipient::Extended(Address::account(KEY), u64::MAX))
    );
}

#[test]
fn serialized_plain_address_is_rejected() {
    let account = ScVal::Address(ScAddress::Account(AccountId(PublicKey::PublicKeyTypeEd25519(
        Uint256(KEY),
    ))));
    assert_eq!(parse_hook_data_xdr(&account.to_xdr(Limits::none()).unwrap()), invalid());
    let contract = ScVal::Address(ScAddress::Contract(ContractId(soroban_sdk::xdr::Hash(KEY))));
    assert_eq!(parse_hook_data_xdr(&contract.to_xdr(Limits::none()).unwrap()), invalid());
}

#[test]
fn serialized_value_of_another_kind_is_rejected() {
    let number = ScVal::U32(7).to_xdr(Limits::none()).unwrap();
    assert_eq!(parse_hook_data_xdr(&number), invalid());
    assert_eq!(parse_hook_data_xdr(ACCOUNT.as_bytes()), invalid());
}

#[test]
fn serialized_value_that_is_cut_or_extended_is_rejected() {
    let bytes = muxed_xdr(KEY, 9);
    assert_eq!(parse_hook_data_xdr(&bytes[..47]), invalid());
    let mut longer = bytes.clone();
    longer.push(0);
    assert_eq!(parse_hook_data_xdr(&longer), invalid());
    assert_eq!(parse_hook_data_xdr(&[]), invalid());
    assert_eq!(resolve(&[], ResolveMode::SerializedExtended), invalid());
}

#[test]
fn a_mode_reads_only_its_own_encoding() {
    assert_eq!(resolve(&muxed_xdr(KEY, 9), ResolveMode::StringEncoded), invalid());
    assert_eq!(resolve(ACCOUNT.as_bytes(), ResolveMode::SerializedExtended), invalid());
}

#[test]
fn decoded_strings_map_to_recipients() {
    assert_eq!(
        recipient_from_strkey(DecodedAddress::Account(KEY)),
        Ok(Recipient::Plain(Address::account(KEY)))
    );
    assert_eq!(
        recipient_from_strkey(DecodedAddress::Contract(KEY)),
        Ok(Recipient::Plain(Address::contract(KEY)))
    );
    assert_eq!(
        recipient_from_strkey(DecodedAddress::Muxed(KEY, 77)),
        Ok(Recipient::Extended(Address::account(KEY), 77))
    );
    assert_eq!(recipient_from_strkey(DecodedAddress::Unsupported), invalid());
    assert_eq!(recipient_from_strkey(DecodedAddress::Malformed), invalid());
}

#[test]
fn decoded_serialized_values_map_to_recipients() {
    assert_eq!(
        recipient_from_xdr(DecodedAddress::Muxed(KEY, 77)),
        Ok(Recipient::Extended(Address::account(KEY), 77))
    );
    assert_eq!(recipient_from_xdr(DecodedAddress::Account(KEY)), invalid());
    assert_eq!(recipient_from_xdr(DecodedAddress::Contract(KEY)), invalid());
    assert_eq!(recipient_from_xdr(DecodedAddress::Unsupported), invalid());
    assert_eq!(recipient_from_xdr(DecodedAddress::Malformed), invalid());
}

#[test]
fn plain_recipient_has_no_sub_id() {
    let plain = Recipient::Plain(Address::contract(KEY));
    assert_eq!(plain.sub_id(), None);
    assert_eq!(plain.address(), Address::contract(KEY));
}

#[test]
fn arbitrary_hook_data_never_panics() {
    let mut state: u64 = 0x2545_f491_4f6c_dd1d;
    for len in [0usize, 1, 4, 8, 47, 48, 49, 55, 56, 57, 69, 200] {
        for _ in 0..50 {
            let bytes: Vec<u8> = (0..len)
                .map(|_| {
                    state ^= state << 13;
                    state ^= state >> 7;
                    state ^= state << 17;
                    (state >> 24) as u8
                })
                .collect();
            for mode in [ResolveMode::StringEncoded, ResolveMode::SerializedExtended] {
                match resolve(&bytes, mode) {
                    Ok(_) => {}
                    Err(e) => assert_eq!(e, ForwardError::InvalidRecipientEncoding),
                }
            }
        }
    }
}

#[test]
fn deeply_nested_serialized_value_is_rejected() {
    // A vector holding a vector holding a vector, and so on, a thousand deep.
    let mut bytes = Vec::new();
    for _ in 0..1000 {
        bytes.extend_from_slice(&[0, 0, 0, 16, 0, 0, 0, 1, 0, 0, 0, 1]);
    }
    bytes.extend_from_slice(&[0, 0, 0, 1]);
    assert_eq!(parse_hook_data_xdr(&bytes), invalid());
}

#[test]
fn strings_agree_with_the_host() {
    let env = soroban_sdk::Env::default();
    for text in [ACCOUNT, CONTRACT] {
        let host = soroban_sdk::Address::from_str(&env, text);
        let expected = match host.to_payload() {
            Some(soroban_sdk::address_payload::AddressPayload::AccountIdPublicKeyEd25519(id)) => {
                Recipient::Plain(Address::account(id.to_array()))
            }
            Some(soroban_sdk::address_payload::AddressPayload::ContractIdHash(id)) => {
                Recipient::Plain(Address::contract(id.to_array()))
            }
            None => panic!("an address of neither kind"),
        };
        assert_eq!(parse_hook_data(text.as_bytes()), Ok(expected));
    }
}
