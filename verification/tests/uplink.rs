use std::time::Duration;
use std::time::SystemTime;

use entitlement_stream::entitlement::Audience;
use entitlement_stream::entitlement::Claims;
use entitlement_stream::entitlement::Entitlement;
use entitlement_stream::entitlement::OneOrMany;
use entitlement_stream::uplink::EncodedEntitlement;
use entitlement_stream::uplink::FetchError;
use entitlement_stream::uplink::FetchErrorCode;
use entitlement_stream::uplink::ResponseData;
use entitlement_stream::uplink::RouterEntitlements;
use entitlement_stream::uplink::RouterEntitlementsResult;
use entitlement_stream::uplink::Unchanged;
use entitlement_stream::uplink::UplinkRequest;
use entitlement_stream::uplink::UplinkResponse;
use entitlement_stream::uplink::Variables;

fn unasked(_: &str) -> Result<Entitlement, String> {
    panic!("there is nothing to decode")
}

fn result(jwt: Option<&str>) -> ResponseData {
    ResponseData {
        router_entitlements: RouterEntitlements::RouterEntitlementsResult(
            RouterEntitlementsResult {
                id: "seven".to_string(),
                min_delay_seconds: 30,
                entitlement: jwt.map(|jwt| EncodedEntitlement {
                    jwt: jwt.to_string(),
                }),
            },
        ),
    }
}

fn refusal(code: FetchErrorCode) -> (bool, String, String) {
    let data = ResponseData {
        router_entitlements: RouterEntitlements::FetchError(FetchError {
            code,
            message: "because".to_string(),
        }),
    };
    match UplinkResponse::from_response(data, unasked) {
        UplinkResponse::Error {
            retry_later,
            code,
            message,
        } => (retry_later, code, message),
        other => panic!("{other:?}"),
    }
}

#[test]
fn variables_of_a_request() {
    let variables = Variables::from(UplinkRequest {
        api_key: "key".to_string(),
        graph_ref: "graph@current".to_string(),
        id: Some("seven".to_string()),
    });
    assert_eq!(variables.api_key, "key");
    assert_eq!(variables.graph_ref, "graph@current");
    assert_eq!(variables.if_after_id, Some("seven".to_string()));
}

#[test]
fn a_new_entitlement() {
    let halt_at = SystemTime::UNIX_EPOCH + Duration::from_secs(20);
    let response = UplinkResponse::from_response(result(Some("encoded")), |jwt| {
        assert_eq!(jwt, "encoded");
        Ok(Entitlement {
            claims: Some(Claims {
                iss: "issuer".to_string(),
                sub: "subject".to_string(),
                aud: OneOrMany::Many(vec![Audience::SelfHosted, Audience::Cloud]),
                warn_at: SystemTime::UNIX_EPOCH,
                halt_at,
            }),
        })
    });
    match response {
        UplinkResponse::New {
            response,
            id,
            delay,
        } => {
            assert_eq!(response.claims.unwrap().halt_at, halt_at);
            assert_eq!(id, "seven");
            assert_eq!(delay, 30);
        }
        other => panic!("{other:?}"),
    }
}

#[test]
fn an_entitlement_that_does_not_decode() {
    match UplinkResponse::from_response(result(Some("garbled")), |_| Err("no key fits".to_string()))
    {
        UplinkResponse::Error {
            retry_later,
            code,
            message,
        } => {
            assert!(retry_later);
            assert_eq!(code, "INVALID_ENTITLEMENT");
            assert_eq!(message, "no key fits");
        }
        other => panic!("{other:?}"),
    }
}

#[test]
fn no_entitlement() {
    match UplinkResponse::from_response(result(None), unasked) {
        UplinkResponse::New {
            response,
            id,
            delay,
        } => {
            assert!(response.claims.is_none());
            assert_eq!(id, "seven");
            assert_eq!(delay, 30);
        }
        other => panic!("{other:?}"),
    }
}

#[test]
fn nothing_has_changed() {
    let data = ResponseData {
        router_entitlements: RouterEntitlements::Unchanged(Unchanged {
            id: "seven".to_string(),
            min_delay_seconds: 45,
        }),
    };
    match UplinkResponse::from_response(data, unasked) {
        UplinkResponse::Unchanged { id, delay } => {
            assert_eq!(id, Some("seven".to_string()));
            assert_eq!(delay, Some(45));
        }
        other => panic!("{other:?}"),
    }
}

#[test]
fn refusals() {
    let because = || "because".to_string();
    assert_eq!(
        refusal(FetchErrorCode::AUTHENTICATION_FAILED),
        (false, "AUTHENTICATION_FAILED".to_string(), because())
    );
    assert_eq!(
        refusal(FetchErrorCode::ACCESS_DENIED),
        (false, "ACCESS_DENIED".to_string(), because())
    );
    assert_eq!(
        refusal(FetchErrorCode::UNKNOWN_REF),
        (false, "UNKNOWN_REF".to_string(), because())
    );
    assert_eq!(
        refusal(FetchErrorCode::RETRY_LATER),
        (true, "RETRY_LATER".to_string(), because())
    );
    assert_eq!(
        refusal(FetchErrorCode::Other("RETRY_LATER".to_string())),
        (false, "RETRY_LATER".to_string(), because())
    );
}
