use libre_wallet::rpc::{OpenWalletRequest, RpcResponse};

#[test]
fn open_wallet_request_holds_its_fields() {
    let request = OpenWalletRequest { filename: "main.wallet".to_string(), password: "pw".to_string() };
    assert_eq!(request.filename, "main.wallet");
    assert_eq!(request.password, "pw");
}

#[test]
fn response_holds_a_result_or_an_error() {
    let good: RpcResponse<u64> = RpcResponse { result: Some(12), error: None };
    assert_eq!(good.result, Some(12));
    assert_eq!(good.error, None);
    let bad: RpcResponse<u64> = RpcResponse { result: None, error: Some("locked".to_string()) };
    assert_eq!(bad.result, None);
    assert_eq!(bad.error.as_deref(), Some("locked"));
    assert_eq!(format!("{:?}", bad), "RpcResponse { result: None, error: Some(\"locked\") }");
}
