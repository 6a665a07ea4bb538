//! Tests of the request builders: URLs, JSON bodies, headers, session state.

use roblox_api::digits::u64_to_string;
use roblox_api::ops::{
    plan_purchase, plan_put_on_sale, plan_resellers, plan_robux, plan_take_off_sale,
    plan_user_sales, request_headers, HttpMethod,
};
use roblox_api::session::{challenge_metadata_header_name, xcsrf_header_name, SessionContext};
use roblox_api::types::Limit;
use roblox_api::urls::{
    purchase_body, purchase_url, put_on_sale_body, resellers_url, robux_url, take_off_sale_body,
    toggle_sale_url, user_sales_url,
};

#[test]
fn decimal_rendering_is_exact() {
    assert_eq!(u64_to_string(0), "0");
    assert_eq!(u64_to_string(7), "7");
    assert_eq!(u64_to_string(105), "105");
    assert_eq!(u64_to_string(18446744073709551615), "18446744073709551615");
}

#[test]
fn limit_values() {
    assert_eq!(Limit::Ten.to_u64(), 10);
    assert_eq!(Limit::TwentyFive.to_u64(), 25);
    assert_eq!(Limit::Fifty.to_u64(), 50);
    assert_eq!(Limit::Hundred.to_u64(), 100);
}

#[test]
fn robux_url_is_exact() {
    assert_eq!(
        robux_url(123),
        "https://economy.roblox.com/v1/users/123/currency"
    );
}

#[test]
fn resellers_url_with_cursor() {
    assert_eq!(
        resellers_url(1365767, Limit::Ten, Some("abc".to_string())),
        "https://economy.roblox.com/v1/assets/1365767/resellers?cursor=abc&limit=10"
    );
}

#[test]
fn resellers_url_first_page() {
    assert_eq!(
        resellers_url(5, Limit::Hundred, None),
        "https://economy.roblox.com/v1/assets/5/resellers?cursor=&limit=100"
    );
}

#[test]
fn user_sales_url_is_exact() {
    assert_eq!(
        user_sales_url(77, Limit::TwentyFive, Some("c1".to_string())),
        "https://economy.roblox.com/v2/users/77/transactions?cursor=c1&limit=25&transactionType=Sale"
    );
}

#[test]
fn toggle_sale_url_is_exact() {
    assert_eq!(
        toggle_sale_url(123456789, 987654321),
        "https://economy.roblox.com/v1/assets/123456789/resellable-copies/987654321"
    );
}

#[test]
fn purchase_url_is_exact() {
    assert_eq!(
        purchase_url(12345679),
        "https://economy.roblox.com/v1/purchases/products/12345679"
    );
}

#[test]
fn sale_bodies_are_exact() {
    assert_eq!(put_on_sale_body(5000), "{\"price\":5000}");
    assert_eq!(take_off_sale_body(), "{}");
}

#[test]
fn purchase_body_is_exact() {
    assert_eq!(
        purchase_body(5000, 5656565656, 987654321),
        "{\"expectedCurrency\":1,\"expectedPrice\":5000,\"expectedSellerId\":5656565656,\"userAssetId\":987654321}"
    );
}

#[test]
fn header_names() {
    assert_eq!(xcsrf_header_name(), "x-csrf-token");
    assert_eq!(challenge_metadata_header_name(), "rblx-challenge-metadata");
}

#[test]
fn session_formats_credential_and_rotates_token() {
    let mut session = SessionContext::new("secret-cookie".to_string());
    assert_eq!(session.cookie_string(), ".ROBLOSECURITY=secret-cookie");
    assert_eq!(session.xcsrf(), "");
    session.set_xcsrf("tok-1".to_string());
    assert_eq!(session.xcsrf(), "tok-1");
    assert_eq!(session.cookie_string(), ".ROBLOSECURITY=secret-cookie");
}

#[test]
fn read_only_plans_skip_the_token() {
    let p = plan_robux(9);
    assert_eq!(p.method, HttpMethod::Get);
    assert_eq!(p.url, "https://economy.roblox.com/v1/users/9/currency");
    assert_eq!(p.body, None);
    assert!(!p.attach_xcsrf);
    assert!(!plan_resellers(1, Limit::Ten, None).attach_xcsrf);
    assert!(!plan_user_sales(1, Limit::Ten, None).attach_xcsrf);
}

#[test]
fn mutating_plans_attach_the_token() {
    let p = plan_put_on_sale(11, 22, 333);
    assert_eq!(p.method, HttpMethod::Patch);
    assert_eq!(p.url, "https://economy.roblox.com/v1/assets/11/resellable-copies/22");
    assert_eq!(p.body, Some("{\"price\":333}".to_string()));
    assert!(p.attach_xcsrf);

    let p = plan_take_off_sale(11, 22);
    assert_eq!(p.method, HttpMethod::Patch);
    assert_eq!(p.body, Some("{}".to_string()));
    assert!(p.attach_xcsrf);

    let p = plan_purchase(4, 500, 6, 7);
    assert_eq!(p.method, HttpMethod::Post);
    assert_eq!(p.url, "https://economy.roblox.com/v1/purchases/products/4");
    assert_eq!(
        p.body,
        Some("{\"expectedCurrency\":1,\"expectedPrice\":500,\"expectedSellerId\":6,\"userAssetId\":7}".to_string())
    );
    assert!(p.attach_xcsrf);
}

#[test]
fn header_list_attaches_token_and_content_type_only_when_asked() {
    let headers = request_headers(".ROBLOSECURITY=c".to_string(), None, false);
    assert_eq!(
        headers,
        vec![
            ("cookie".to_string(), ".ROBLOSECURITY=c".to_string()),
            ("user-agent".to_string(), "Roblox/WinInet".to_string()),
        ]
    );

    let headers = request_headers(".ROBLOSECURITY=c".to_string(), Some("tok".to_string()), true);
    assert_eq!(
        headers,
        vec![
            ("cookie".to_string(), ".ROBLOSECURITY=c".to_string()),
            ("user-agent".to_string(), "Roblox/WinInet".to_string()),
            ("x-csrf-token".to_string(), "tok".to_string()),
            ("content-type".to_string(), "application/json".to_string()),
        ]
    );
}
