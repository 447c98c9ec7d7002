use threshold_wallet::routes::eth::Erc20ReqBody;
use threshold_wallet::server::{bad_request, internal_error, not_found};
use threshold_wallet::utils::erc20::{get_contract_abi, token_path};

#[test]
fn fixed_replies() {
    assert_eq!(internal_error(), "Internal server error");
    assert_eq!(bad_request(), "Bad request");
}

#[test]
fn unknown_route_names_the_target() {
    assert_eq!(not_found("/ecdsa/nothing"), "Unknown route '/ecdsa/nothing'.");
    assert_eq!(not_found(""), "Unknown route ''.");
}

#[test]
fn token_path_joins_network_and_name() {
    assert_eq!(token_path("rinkeby", "usdt"), "rinkeby/usdt");
    assert_eq!(token_path("", ""), "/");
}

#[test]
fn known_token_has_its_address() {
    assert_eq!(
        get_contract_abi("rinkeby", "usdt"),
        Some("0x3B00Ef435fA4FcFF5C209a37d1f3dcff37c705aD")
    );
    let request = Erc20ReqBody { name: String::from("usdt"), network: String::from("rinkeby") };
    assert_eq!(
        request.contract_address(),
        Some("0x3B00Ef435fA4FcFF5C209a37d1f3dcff37c705aD")
    );
}

#[test]
fn unknown_tokens_have_none() {
    assert_eq!(get_contract_abi("rinkeby", "dai"), None);
    assert_eq!(get_contract_abi("mainnet", "usdt"), None);
    assert_eq!(get_contract_abi("rinkeby/", "usdt"), None);
    assert_eq!(get_contract_abi("rinkeby/usdt", ""), None);
    assert_eq!(get_contract_abi("", "rinkeby/usdt"), None);
    let request = Erc20ReqBody { name: String::from("USDT"), network: String::from("rinkeby") };
    assert_eq!(request.contract_address(), None);
}
