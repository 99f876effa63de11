use gail_trading::bybit::{check_response_code, into_chronological, push_decimal, BybitClient, BybitError};

#[test]
fn kline_url_for_btcusdt() {
    let client = BybitClient::new();
    assert_eq!(
        client.kline_url("BTCUSDT", "15", 200),
        "https://api.bybit.com/v5/market/kline?category=spot&symbol=BTCUSDT&interval=15&limit=200"
    );
}

#[test]
fn default_client_is_the_public_api() {
    let client = BybitClient::default();
    assert_eq!(
        client.kline_url("ETHUSDT", "D", 0),
        "https://api.bybit.com/v5/market/kline?category=spot&symbol=ETHUSDT&interval=D&limit=0"
    );
}

#[test]
fn decimal_rendering() {
    for n in [0usize, 7, 10, 99, 100, 1000, 123456789, usize::MAX] {
        let mut s = String::from("x");
        push_decimal(&mut s, n);
        assert_eq!(s, format!("x{}", n));
    }
}

#[test]
fn response_codes() {
    assert_eq!(check_response_code(0), Ok(()));
    assert_eq!(check_response_code(10001), Err(BybitError::Api { ret_code: 10001 }));
    assert_eq!(check_response_code(-1), Err(BybitError::Api { ret_code: -1 }));
}

#[test]
fn rows_put_in_chronological_order() {
    assert_eq!(into_chronological(vec![3, 2, 1]), vec![1, 2, 3]);
    assert_eq!(into_chronological(Vec::<u64>::new()), Vec::<u64>::new());
    assert_eq!(into_chronological(vec!["a"]), vec!["a"]);
}
