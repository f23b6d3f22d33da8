//! Interpreting the replies of the licensing service.
//!
//! The host performs the HTTP exchange and decodes the body; this module
//! decides what the exchange means. A rejection by the service is an
//! ordinary value. A reply that cannot be read or decoded where a decoded
//! reply is owed is a hard error.

use crate::decimal::{decimal_digits, push_decimal};
use crate::text::join;
use vstd::prelude::*;
use vstd::string::StringExecFns;

verus! {

/// Body of an activation request.
#[derive(Debug, Clone, PartialEq, Eq)]
pub struct ActivateLicenseRequest {
    pub license_key: String,
    pub device_hash: String,
    pub device_name: Option<String>,
}

/// Mathematical content of an [`ActivateLicenseRequest`].
pub struct ActivateLicenseRequestView {
    pub license_key: Seq<char>,
    pub device_hash: Seq<char>,
    pub device_name: Option<Seq<char>>,
}

impl View for ActivateLicenseRequest {
    type V = ActivateLicenseRequestView;

    open spec fn view(&self) -> ActivateLicenseRequestView {
        ActivateLicenseRequestView {
            license_key: self.license_key@,
            device_hash: self.device_hash@,
            device_name: self.device_name.deep_view(),
        }
    }
}

/// Body of a successful activation: an opaque token with its plan and the
/// time at which it expires.
#[derive(Debug, Clone, PartialEq, Eq)]
pub struct ActivateLicenseResponse {
    pub activation_token: String,
    pub plan: String,
    pub expires_at: String,
}

/// Mathematical content of an [`ActivateLicenseResponse`].
pub struct ActivateLicenseResponseView {
    pub activation_token: Seq<char>,
    pub plan: Seq<char>,
    pub expires_at: Seq<char>,
}

impl View for ActivateLicenseResponse {
    type V = ActivateLicenseResponseView;

    open spec fn view(&self) -> ActivateLicenseResponseView {
        ActivateLicenseResponseView {
            activation_token: self.activation_token@,
            plan: self.plan@,
            expires_at: self.expires_at@,
        }
    }
}

/// Body of a verification reply.
#[derive(Debug, Clone, PartialEq, Eq)]
pub struct VerifyTokenResponse {
    pub valid: bool,
    pub license_id: Option<String>,
    pub plan: Option<String>,
    pub expires_at: Option<String>,
    pub error: Option<String>,
}

/// Mathematical content of a [`VerifyTokenResponse`].
pub struct VerifyTokenResponseView {
    pub valid: bool,
    pub license_id: Option<Seq<char>>,
    pub plan: Option<Seq<char>>,
    pub expires_at: Option<Seq<char>>,
    pub error: Option<Seq<char>>,
}

impl View for VerifyTokenResponse {
    type V = VerifyTokenResponseView;

    open spec fn view(&self) -> VerifyTokenResponseView {
        VerifyTokenResponseView {
            valid: self.valid,
            license_id: self.license_id.deep_view(),
            plan: self.plan.deep_view(),
            expires_at: self.expires_at.deep_view(),
            error: self.error.deep_view(),
        }
    }
}

/// Body with which the service explains a rejection.
#[derive(Debug, Clone, PartialEq, Eq)]
pub struct LicenseError {
    pub error: String,
}

/// What the host observed of an activation exchange.
#[derive(Debug, PartialEq, Eq)]
pub enum ActivationReply {
    /// The request could not be delivered.
    NetworkError(String),
    /// A reply arrived but its body could not be read.
    UnreadableBody(String),
    /// A reply arrived in full.
    Received {
        /// The HTTP status code.
        status: u16,
        /// The body as text.
        body: String,
        /// The body decoded as a rejection, if it has that shape.
        rejection: Option<LicenseError>,
        /// The body decoded as an activation, or why it does not decode.
        activation: Result<ActivateLicenseResponse, String>,
    },
}

/// Mathematical content of an [`ActivationReply`].
pub enum ActivationReplyView {
    NetworkError(Seq<char>),
    UnreadableBody(Seq<char>),
    Received {
        status: u16,
        body: Seq<char>,
        rejection: Option<Seq<char>>,
        activation: Result<ActivateLicenseResponseView, Seq<char>>,
    },
}

impl View for ActivationReply {
    type V = ActivationReplyView;

    open spec fn view(&self) -> ActivationReplyView {
        match self {
            ActivationReply::NetworkError(reason) => ActivationReplyView::NetworkError(reason@),
            ActivationReply::UnreadableBody(reason) => ActivationReplyView::UnreadableBody(
                reason@,
            ),
            ActivationReply::Received { status, body, rejection, activation } => {
                ActivationReplyView::Received {
                    status: *status,
                    body: body@,
                    rejection: match rejection {
                        Some(payload) => Some(payload.error@),
                        None => None,
                    },
                    activation: match activation {
                        Ok(payload) => Ok(payload@),
                        Err(reason) => Err(reason@),
                    },
                }
            },
        }
    }
}

/// What the host observed of a verification exchange.
#[derive(Debug, PartialEq, Eq)]
pub enum VerificationReply {
    /// The request could not be delivered.
    NetworkError(String),
    /// A reply arrived but its body could not be read.
    UnreadableBody(String),
    /// A reply arrived in full.
    Received {
        /// The HTTP status code.
        status: u16,
        /// The body decoded as a verification, or why it does not decode.
        verification: Result<VerifyTokenResponse, String>,
    },
}

/// Mathematical content of a [`VerificationReply`].
pub enum VerificationReplyView {
    NetworkError(Seq<char>),
    UnreadableBody(Seq<char>),
    Received { status: u16, verification: Result<VerifyTokenResponseView, Seq<char>> },
}

impl View for VerificationReply {
    type V = VerificationReplyView;

    open spec fn view(&self) -> VerificationReplyView {
        match self {
            VerificationReply::NetworkError(reason) => VerificationReplyView::NetworkError(
                reason@,
            ),
            VerificationReply::UnreadableBody(reason) => VerificationReplyView::UnreadableBody(
                reason@,
            ),
            VerificationReply::Received { status, verification } => {
                VerificationReplyView::Received {
                    status: *status,
                    verification: match verification {
                        Ok(payload) => Ok(payload@),
                        Err(reason) => Err(reason@),
                    },
                }
            },
        }
    }
}

/// A status code of the success class, 200 to 299.
pub open spec fn is_success(status: u16) -> bool {
    200 <= status <= 299
}

/// The endpoint of the licensing service: the configured one if there is
/// one, else the default of the build.
pub open spec fn endpoint(configured: Option<Seq<char>>, development: bool) -> Seq<char> {
    match configured {
        Some(url) => url,
        None => if development {
            "http://localhost:3000/api/license/activate"@
        } else {
            "https://ytsmartclip.org/api/license/activate"@
        },
    }
}

/// The diagnostic for a rejection that the service did not explain.
pub open spec fn unexplained_rejection(status: u16, body: Seq<char>) -> Seq<char> {
    "Failed to activate license: status="@ + decimal_digits(status as nat) + ", body="@ + body
}

/// The verification result for a rejection that the service did not
/// explain.
pub open spec fn unexplained_verification() -> VerifyTokenResponseView {
    VerifyTokenResponseView {
        valid: false,
        license_id: None,
        plan: None,
        expires_at: None,
        error: Some("Failed to verify token"@),
    }
}

/// What an activation exchange amounts to.
///
/// On a status outside the success class the service's own explanation is
/// preferred; without one the diagnostic quotes the status and the body. On
/// a success status the decoded activation is the result, and a body that
/// does not decode is an error.
pub open spec fn activation_verdict(reply: ActivationReplyView) -> Result<
    ActivateLicenseResponseView,
    Seq<char>,
> {
    match reply {
        ActivationReplyView::NetworkError(reason) => Err("Network error: "@ + reason),
        ActivationReplyView::UnreadableBody(reason) => Err("Failed to read response: "@ + reason),
        ActivationReplyView::Received { status, body, rejection, activation } => {
            if !is_success(status) {
                match rejection {
                    Some(explanation) => Err(explanation),
                    None => Err(unexplained_rejection(status, body)),
                }
            } else {
                match activation {
                    Ok(payload) => Ok(payload),
                    Err(reason) => Err("Failed to parse activation response: "@ + reason),
                }
            }
        },
    }
}

/// What a verification exchange amounts to.
///
/// On a success status the decoded verification is the result, and a body
/// that does not decode is an error. On any other status a body that decodes
/// as a verification is the result all the same; only a body that does not
/// is replaced by the unexplained rejection.
pub open spec fn verification_verdict(reply: VerificationReplyView) -> Result<
    VerifyTokenResponseView,
    Seq<char>,
> {
    match reply {
        VerificationReplyView::NetworkError(reason) => Err("Network error: "@ + reason),
        VerificationReplyView::UnreadableBody(reason) => Err(
            "Failed to read response: "@ + reason,
        ),
        VerificationReplyView::Received { status, verification } => match verification {
            Ok(payload) => Ok(payload),
            Err(reason) => if is_success(status) {
                Err("Failed to parse verification response: "@ + reason)
            } else {
                Ok(unexplained_verification())
            },
        },
    }
}

/// Mathematical content of what [`activate_license`] returns.
pub open spec fn activation_view(result: Result<ActivateLicenseResponse, String>) -> Result<
    ActivateLicenseResponseView,
    Seq<char>,
> {
    match result {
        Ok(payload) => Ok(payload@),
        Err(message) => Err(message@),
    }
}

/// Mathematical content of what [`verify_activation_token`] returns.
pub open spec fn verification_view(result: Result<VerifyTokenResponse, String>) -> Result<
    VerifyTokenResponseView,
    Seq<char>,
> {
    match result {
        Ok(payload) => Ok(payload@),
        Err(message) => Err(message@),
    }
}

/// Whether `status` is of the success class.
pub fn is_success_status(status: u16) -> (success: bool)
    ensures
        success == is_success(status),
{
    200 <= status && status <= 299
}

/// Selects the endpoint of the licensing service.
pub fn license_api_url(configured: Option<String>, development: bool) -> (url: String)
    ensures
        url@ == endpoint(configured.deep_view(), development),
{
    match configured {
        Some(url) => url,
        None => {
            if development {
                String::from_str("http://localhost:3000/api/license/activate")
            } else {
                String::from_str("https://ytsmartclip.org/api/license/activate")
            }
        },
    }
}

/// Interprets the reply to an activation request.
pub fn activate_license(reply: ActivationReply) -> (result: Result<ActivateLicenseResponse, String>)
    ensures
        activation_view(result) == activation_verdict(reply@),
{
    match reply {
        ActivationReply::NetworkError(reason) => Err(join("Network error: ", reason.as_str())),
        ActivationReply::UnreadableBody(reason) => Err(
            join("Failed to read response: ", reason.as_str()),
        ),
        ActivationReply::Received { status, body, rejection, activation } => {
            if !is_success_status(status) {
                match rejection {
                    Some(payload) => Err(payload.error),
                    None => {
                        let mut message = String::from_str("Failed to activate license: status=");
                        push_decimal(&mut message, status as u64);
                        message.append(", body=");
                        message.append(body.as_str());
                        Err(message)
                    },
                }
            } else {
                match activation {
                    Ok(payload) => Ok(payload),
                    Err(reason) => Err(
                        join("Failed to parse activation response: ", reason.as_str()),
                    ),
                }
            }
        },
    }
}

/// Interprets the reply to a verification request.
pub fn verify_activation_token(reply: VerificationReply) -> (result: Result<
    VerifyTokenResponse,
    String,
>)
    ensures
        verification_view(result) == verification_verdict(reply@),
{
    match reply {
        VerificationReply::NetworkError(reason) => Err(join("Network error: ", reason.as_str())),
        VerificationReply::UnreadableBody(reason) => Err(
            join("Failed to read response: ", reason.as_str()),
        ),
        VerificationReply::Received { status, verification } => match verification {
            Ok(payload) => Ok(payload),
            Err(reason) => {
                if is_success_status(status) {
                    Err(join("Failed to parse verification response: ", reason.as_str()))
                } else {
                    Ok(
                        VerifyTokenResponse {
                            valid: false,
                            license_id: None,
                            plan: None,
                            expires_at: None,
                            error: Some(String::from_str("Failed to verify token")),
                        },
                    )
                }
            },
        },
    }
}

/// A success status never turns a body that does not decode into a result:
/// both exchanges answer with a parse error. A verification that decodes is
/// handed on unchanged whatever the status, so that a rejection which the
/// service wrote in the shape of a verification reaches the caller as
/// written.
pub proof fn lemma_replies_are_taken_at_their_word(
    activation: ActivationReply,
    verification: VerificationReply,
)
    ensures
        activation@ matches ActivationReplyView::Received {
            status,
            activation: Err(reason),
            ..
        } ==> (is_success(status) ==> activation_verdict(activation@) == Err::<
            ActivateLicenseResponseView,
            Seq<char>,
        >("Failed to parse activation response: "@ + reason)),
        verification@ matches VerificationReplyView::Received {
            status,
            verification: Err(reason),
        } ==> (is_success(status) ==> verification_verdict(verification@) == Err::<
            VerifyTokenResponseView,
            Seq<char>,
        >("Failed to parse verification response: "@ + reason)),
        verification@ matches VerificationReplyView::Received { status, verification: Ok(payload) }
            ==> verification_verdict(verification@) == Ok::<VerifyTokenResponseView, Seq<char>>(
            payload,
        ),
{
}

} // verus!
