//! What is asked of uplink about entitlements, and what it answers.

use vstd::prelude::*;
use vstd::std_specs::convert::FromSpecImpl;

use crate::entitlement::Entitlement;

verus! {

/// A request to uplink.
#[derive(Debug)]
pub struct UplinkRequest {
    pub api_key: String,
    pub graph_ref: String,
    /// What was received last, if anything was.
    pub id: Option<String>,
}

/// The variables of the entitlement query.
#[derive(Debug)]
pub struct Variables {
    pub api_key: String,
    pub graph_ref: String,
    pub if_after_id: Option<String>,
}

impl FromSpecImpl<UplinkRequest> for Variables {
    open spec fn obeys_from_spec() -> bool {
        true
    }

    open spec fn from_spec(req: UplinkRequest) -> Self {
        Variables { api_key: req.api_key, graph_ref: req.graph_ref, if_after_id: req.id }
    }
}

impl From<UplinkRequest> for Variables {
    fn from(req: UplinkRequest) -> Self {
        Variables { api_key: req.api_key, graph_ref: req.graph_ref, if_after_id: req.id }
    }
}

/// An entitlement as uplink sends it.
#[derive(Debug)]
pub struct EncodedEntitlement {
    pub jwt: String,
}

/// An answer with what is new.
#[derive(Debug)]
pub struct RouterEntitlementsResult {
    pub id: String,
    /// The delay before the next request, in whole seconds.
    pub min_delay_seconds: u64,
    pub entitlement: Option<EncodedEntitlement>,
}

/// An answer that nothing is new.
#[derive(Debug)]
pub struct Unchanged {
    pub id: String,
    /// The delay before the next request, in whole seconds.
    pub min_delay_seconds: u64,
}

/// Why uplink refuses an answer.
#[allow(non_camel_case_types)]
#[derive(Debug)]
pub enum FetchErrorCode {
    AUTHENTICATION_FAILED,
    ACCESS_DENIED,
    UNKNOWN_REF,
    RETRY_LATER,
    Other(String),
}

/// An answer that there is none.
#[derive(Debug)]
pub struct FetchError {
    pub code: FetchErrorCode,
    pub message: String,
}

/// What uplink answers about entitlements.
#[derive(Debug)]
pub enum RouterEntitlements {
    RouterEntitlementsResult(RouterEntitlementsResult),
    Unchanged(Unchanged),
    FetchError(FetchError),
}

/// The data of an answer to the entitlement query.
#[derive(Debug)]
pub struct ResponseData {
    pub router_entitlements: RouterEntitlements,
}

/// An answer of uplink, whatever it was asked for.
#[derive(Debug)]
pub enum UplinkResponse<Response> {
    New { response: Response, id: String, delay: u64 },
    Unchanged { id: Option<String>, delay: Option<u64> },
    Error { retry_later: bool, code: String, message: String },
}

impl FetchErrorCode {
    /// The name of the code, or the text of a code that has none.
    pub open spec fn text(self) -> Seq<char> {
        match self {
            FetchErrorCode::AUTHENTICATION_FAILED => "AUTHENTICATION_FAILED"@,
            FetchErrorCode::ACCESS_DENIED => "ACCESS_DENIED"@,
            FetchErrorCode::UNKNOWN_REF => "UNKNOWN_REF"@,
            FetchErrorCode::RETRY_LATER => "RETRY_LATER"@,
            FetchErrorCode::Other(other) => other@,
        }
    }

    /// Returns the name of the code, or the text of a code that has none.
    pub fn into_text(self) -> (text: String)
        ensures
            text@ == self.text(),
    {
        match self {
            FetchErrorCode::AUTHENTICATION_FAILED => "AUTHENTICATION_FAILED".to_string(),
            FetchErrorCode::ACCESS_DENIED => "ACCESS_DENIED".to_string(),
            FetchErrorCode::UNKNOWN_REF => "UNKNOWN_REF".to_string(),
            FetchErrorCode::RETRY_LATER => "RETRY_LATER".to_string(),
            FetchErrorCode::Other(other) => other,
        }
    }
}

impl ResponseData {
    /// The encoded entitlement that came with the answer, if one did.
    pub open spec fn jwt(self) -> Option<Seq<char>> {
        match self.router_entitlements {
            RouterEntitlements::RouterEntitlementsResult(result) => match result.entitlement {
                Some(entitlement) => Some(entitlement.jwt@),
                None => None,
            },
            _ => None,
        }
    }
}

/// Whether `response` is what a new entitlement amounts to, given what decoding it
/// gave: the entitlement, or that what was received is invalid and may be asked
/// for again later.
pub open spec fn is_entitlement_response(
    id: String,
    delay: u64,
    decoded: Result<Entitlement, String>,
    response: UplinkResponse<Entitlement>,
) -> bool {
    match decoded {
        Ok(entitlement) => response == UplinkResponse::New { response: entitlement, id, delay },
        Err(error) => response matches UplinkResponse::Error { retry_later, code, message }
            && retry_later && code@ == "INVALID_ENTITLEMENT"@ && message == error,
    }
}

/// Whether `response` is what the data of an answer amount to, given what decoding
/// the entitlement gave, if one came with it.
pub open spec fn is_response(
    data: ResponseData,
    decoded: Option<Result<Entitlement, String>>,
    response: UplinkResponse<Entitlement>,
) -> bool {
    match (data.router_entitlements, decoded) {
        (RouterEntitlements::RouterEntitlementsResult(result), Some(decoded)) =>
            is_entitlement_response(result.id, result.min_delay_seconds, decoded, response),
        (RouterEntitlements::RouterEntitlementsResult(result), None) => response
            == (UplinkResponse::New {
            response: Entitlement { claims: None },
            id: result.id,
            delay: result.min_delay_seconds,
        }),
        (RouterEntitlements::Unchanged(unchanged), _) => response
            == UplinkResponse::<Entitlement>::Unchanged {
            id: Some(unchanged.id),
            delay: Some(unchanged.min_delay_seconds),
        },
        (RouterEntitlements::FetchError(error), _) => response
            matches UplinkResponse::Error { retry_later, code, message }
            && retry_later == (error.code == FetchErrorCode::RETRY_LATER)
            && code@ == error.code.text() && message == error.message,
    }
}

impl UplinkResponse<Entitlement> {
    /// Returns what a new entitlement amounts to, given what decoding it gave.
    pub fn from_decoded(id: String, delay: u64, decoded: Result<Entitlement, String>) -> (response:
        Self)
        ensures
            is_entitlement_response(id, delay, decoded, response),
    {
        match decoded {
            Ok(entitlement) => UplinkResponse::New { response: entitlement, id, delay },
            Err(error) => UplinkResponse::Error {
                retry_later: true,
                code: "INVALID_ENTITLEMENT".to_string(),
                message: error,
            },
        }
    }

    /// Returns what the data of an answer amount to. An entitlement that comes
    /// with the answer is decoded by `decode`.
    pub fn from_response<F: FnOnce(&str) -> Result<Entitlement, String>>(
        data: ResponseData,
        decode: F,
    ) -> (response: Self)
        requires
            forall|jwt: &str|
                data.jwt() == Some(jwt@) ==> #[trigger] decode.requires((jwt,)),
        ensures
            exists|decoded: Option<Result<Entitlement, String>>|
                {
                    &&& #[trigger] is_response(data, decoded, response)
                    &&& match decoded {
                        Some(result) => exists|jwt: &str|
                            data.jwt() == Some(jwt@) && #[trigger] decode.ensures((jwt,), result),
                        None => data.jwt() is None,
                    }
                },
    {
        match data.router_entitlements {
            RouterEntitlements::RouterEntitlementsResult(result) => match result.entitlement {
                Some(entitlement) => {
                    let jwt = entitlement.jwt.as_str();
                    let decoded = decode(jwt);
                    let ghost answer = Some(decoded);
                    let response = UplinkResponse::from_decoded(
                        result.id,
                        result.min_delay_seconds,
                        decoded,
                    );
                    assert(is_response(data, answer, response));
                    response
                },
                None => {
                    let response = UplinkResponse::New {
                        response: Entitlement::default(),
                        id: result.id,
                        delay: result.min_delay_seconds,
                    };
                    assert(is_response(data, None, response));
                    response
                },
            },
            RouterEntitlements::Unchanged(unchanged) => {
                let response = UplinkResponse::Unchanged {
                    id: Some(unchanged.id),
                    delay: Some(unchanged.min_delay_seconds),
                };
                assert(is_response(data, None, response));
                response
            },
            RouterEntitlements::FetchError(error) => {
                let retry_later = matches!(&error.code, FetchErrorCode::RETRY_LATER);
                let response = UplinkResponse::Error {
                    retry_later,
                    code: error.code.into_text(),
                    message: error.message,
                };
                assert(is_response(data, None, response));
                response
            },
        }
    }
}

} // verus!
