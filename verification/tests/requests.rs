use hex_conservative::DisplayHex;
use lncashu::balance::aggregate_balance;
use lncashu::encoding::{bytes_to_lower_hex, format_user_channel_id, parse_hex_u128, parse_u64_decimal, u128_to_be_bytes};
use lncashu::errors::{Error, RequestError};
use lncashu::requests::{
    parse_amount_param, parse_close_channel_request, parse_send_to_address_request, CloseChannel,
    SendToAddress,
};

#[test]
fn a_missing_amount_parameter_is_rejected() {
    assert_eq!(parse_amount_param(None), Err(RequestError::MissingAmount));
}

#[test]
fn amount_parameters_parse_as_decimal() {
    assert_eq!(parse_amount_param(Some(&"3000".to_string())), Ok(3000));
    assert_eq!(parse_amount_param(Some(&"0".to_string())), Ok(0));
    assert_eq!(
        parse_amount_param(Some(&"18446744073709551615".to_string())),
        Ok(u64::MAX)
    );
}

#[test]
fn malformed_amount_parameters_are_rejected() {
    assert_eq!(parse_amount_param(Some(&"".to_string())), Err(RequestError::InvalidAmount));
    assert_eq!(parse_amount_param(Some(&"30a0".to_string())), Err(RequestError::InvalidAmount));
    assert_eq!(parse_amount_param(Some(&"-5".to_string())), Err(RequestError::InvalidAmount));
    // One past the largest representable amount.
    assert_eq!(
        parse_amount_param(Some(&"18446744073709551616".to_string())),
        Err(RequestError::InvalidAmount)
    );
}

#[test]
fn close_requests_parse_their_channel_id_from_hex() {
    let req = CloseChannel { channel_id: "000000000000000000000000deadbeef".to_string() };
    assert_eq!(parse_close_channel_request(&req), Ok(0xdeadbeef));
    // Either digit case is accepted.
    let req = CloseChannel { channel_id: "000000000000000000000000DEADBEEF".to_string() };
    assert_eq!(parse_close_channel_request(&req), Ok(0xdeadbeef));
}

#[test]
fn close_requests_reject_a_malformed_channel_id() {
    for id in ["", "deadbeef", "000000000000000000000000deadbeef00", "00000000000000000000000deadbeefg"] {
        let req = CloseChannel { channel_id: id.to_string() };
        assert_eq!(parse_close_channel_request(&req), Err(RequestError::InvalidChannelId));
    }
}

#[test]
fn an_onchain_send_needs_an_address_of_the_network_in_use() {
    // A segwit address under the test-network prefix is accepted.
    let req = SendToAddress {
        address: "tb1qrp33g0q5c5txsp9arysrx4k6zdkfs4nce4xj0gdcccefvpysxf3q0sl5k7".to_string(),
        amount_sat: 1234,
    };
    assert_eq!(parse_send_to_address_request(&req), Ok(1234));
}

#[test]
fn an_onchain_send_rejects_a_mainnet_or_malformed_address() {
    for address in ["32iVBEu4dxkUQk9dJbZUiBiQdmypcEyJRf", "not an address", ""] {
        let req = SendToAddress { address: address.to_string(), amount_sat: 5 };
        assert_eq!(parse_send_to_address_request(&req), Err(RequestError::InvalidAddress));
    }
}

#[test]
fn channel_ids_round_trip_through_hex() {
    for x in [0u128, 1, 0xdeadbeef, u128::MAX, 0x0123456789abcdef0123456789abcdefu128] {
        let rendered = format_user_channel_id(x);
        assert_eq!(rendered.len(), 32);
        assert_eq!(parse_hex_u128(&rendered), Some(x));
    }
}

#[test]
fn byte_encodings_match_the_reference() {
    let bytes: Vec<u8> = vec![0x00, 0x01, 0x0f, 0x10, 0xff, 0xa5];
    assert_eq!(bytes_to_lower_hex(&bytes), bytes.to_lower_hex_string());
    assert_eq!(bytes_to_lower_hex(&Vec::new()), "");
    assert_eq!(u128_to_be_bytes(0x0102u128), 0x0102u128.to_be_bytes().to_vec());
}

#[test]
fn decimal_parsing_matches_its_specification() {
    assert_eq!(parse_u64_decimal("007"), Some(7));
    assert_eq!(parse_u64_decimal("+7"), None);
    assert_eq!(parse_u64_decimal(" 7"), None);
}

#[test]
fn balances_aggregate_field_by_field() {
    let b = aggregate_balance(1, 2, 3, 4);
    assert_eq!(b.cashu_balance, 1);
    assert_eq!(b.lightning_balance, 2);
    assert_eq!(b.onchain_balance, 3);
    assert_eq!(b.spendable_onchain_balance, 4);
}

#[test]
fn every_failure_kind_has_its_message() {
    assert_eq!(Error::InsufficientFunds.message(), "insufficient funds");
    assert_eq!(
        Error::InsufficientInboundForSwap.message(),
        "insufficient inbound liquidity to make swap"
    );
    assert_eq!(Error::AmountTooLowForChannel.message(), "amount too low to create channel");
    assert_eq!(Error::MintCouldNotPayInvoice.message(), "mint could not pay invoice for swap");
    assert_eq!(Error::ChannelNotExist.message(), "channel does not exist");
    assert_eq!(Error::AmountlessInvoice.message(), "amountless invoices are not supported");
    assert_eq!(Error::NodeStart("engine failed".to_string()).message(), "engine failed");
    assert_eq!(Error::CdkError("mint failed".to_string()).message(), "mint failed");
    assert_eq!(Error::ReqwestError("transport failed".to_string()).message(), "transport failed");
}

#[test]
fn every_request_rejection_has_its_message() {
    assert_eq!(RequestError::MissingAmount.message(), "amount not specified");
    assert_eq!(RequestError::InvalidAmount.message(), "invalid amount");
    assert_eq!(RequestError::InvalidInvoice.message(), "invalid invoice");
    assert_eq!(RequestError::InvalidPublicKey.message(), "invalid public key");
    assert_eq!(RequestError::InvalidAddress.message(), "invalid address");
    assert_eq!(RequestError::InvalidChannelId.message(), "invalid channel id");
}
