//! What the collector says of a hardware token, and what follows from it.

use vstd::prelude::*;
use vstd::string::StringExecFns;

verus! {

/// A component that the collector has banned.
#[derive(Debug, Clone, PartialEq)]
pub struct BannedComponent {
    /// Which kind of component: motherboard, network, disk or gpu.
    pub component_type: String,
    /// Why it was banned.
    pub reason: String,
    /// When it was banned.
    pub banned_at: String,
}

/// What became of the check of a hardware token.
#[derive(Debug, Clone, PartialEq)]
pub enum HwIdStatus {
    /// The hardware is known and not banned.
    Valid,
    /// At least one component is banned.
    Banned(Vec<BannedComponent>),
    /// The hardware was not known and has now been registered.
    Registered,
    /// The check could not be made.
    Error(String),
}

/// The collector's answer to a check, as it was read.
#[derive(Debug, Clone)]
pub struct VerifyResponse {
    /// `valid`, `banned` or `unknown`.
    pub status: String,
    /// What the collector says in words.
    pub message: String,
    /// The banned components, with a status of `banned`.
    pub banned_components: Option<Vec<BannedComponent>>,
}

/// What to do after the collector's answer to a check.
#[derive(Debug, Clone, PartialEq)]
pub enum VerifyOutcome {
    /// The check has ended.
    Settled(HwIdStatus),
    /// The hardware is not known: register it.
    RegistrationNeeded,
}

/// What a status is, as plain values.
pub enum StatusView {
    Valid,
    Banned(Seq<BannedComponent>),
    Registered,
    Error(Seq<char>),
}

impl View for HwIdStatus {
    type V = StatusView;

    open spec fn view(&self) -> StatusView {
        match self {
            HwIdStatus::Valid => StatusView::Valid,
            HwIdStatus::Banned(components) => StatusView::Banned(components@),
            HwIdStatus::Registered => StatusView::Registered,
            HwIdStatus::Error(message) => StatusView::Error(message@),
        }
    }
}

/// What an outcome is, as plain values.
pub enum OutcomeView {
    Settled(StatusView),
    RegistrationNeeded,
}

impl View for VerifyOutcome {
    type V = OutcomeView;

    open spec fn view(&self) -> OutcomeView {
        match self {
            VerifyOutcome::Settled(status) => OutcomeView::Settled(status@),
            VerifyOutcome::RegistrationNeeded => OutcomeView::RegistrationNeeded,
        }
    }
}

/// What follows from the collector's answer to a check.
pub open spec fn verify_outcome(response: VerifyResponse) -> OutcomeView {
    if response.status@ == "valid"@ {
        OutcomeView::Settled(StatusView::Valid)
    } else if response.status@ == "banned"@ {
        match response.banned_components {
            Some(components) => OutcomeView::Settled(StatusView::Banned(components@)),
            None => OutcomeView::Settled(
                StatusView::Error("Resposta de banimento inv\u{e1}lida"@),
            ),
        }
    } else if response.status@ == "unknown"@ {
        OutcomeView::RegistrationNeeded
    } else {
        OutcomeView::Settled(StatusView::Error("Status desconhecido: "@ + response.status@))
    }
}

/// What follows from the collector's answer to a check: a `valid` hardware
/// is valid, a `banned` one is banned if the answer names the components, an
/// `unknown` one is to be registered, and any other answer is an error.
pub fn interpret_verify_response(response: VerifyResponse) -> (outcome: VerifyOutcome)
    ensures
        outcome@ == verify_outcome(response),
{
    let valid = "valid".to_owned();
    let banned = "banned".to_owned();
    let unknown = "unknown".to_owned();
    if response.status == valid {
        VerifyOutcome::Settled(HwIdStatus::Valid)
    } else if response.status == banned {
        match response.banned_components {
            Some(components) => VerifyOutcome::Settled(HwIdStatus::Banned(components)),
            None => VerifyOutcome::Settled(
                HwIdStatus::Error("Resposta de banimento inv\u{e1}lida".to_owned()),
            ),
        }
    } else if response.status == unknown {
        VerifyOutcome::RegistrationNeeded
    } else {
        let mut message = "Status desconhecido: ".to_owned();
        message.append(response.status.as_str());
        VerifyOutcome::Settled(HwIdStatus::Error(message))
    }
}

/// The status where the collector cannot be reached at all.
pub fn unavailable_status() -> (status: HwIdStatus)
    ensures
        status@ == StatusView::Error(
            "API indispon\u{ed}vel, n\u{e3}o foi poss\u{ed}vel verificar o hardware"@,
        ),
{
    HwIdStatus::Error(
        "API indispon\u{ed}vel, n\u{e3}o foi poss\u{ed}vel verificar o hardware".to_owned(),
    )
}

/// The status where a request got no answer in time: `what` says which
/// request, in the infinitive.
pub fn timeout_status(what: &str) -> (status: HwIdStatus)
    ensures
        status@ == StatusView::Error("Timeout ao "@ + what@),
{
    let mut message = "Timeout ao ".to_owned();
    message.append(what);
    HwIdStatus::Error(message)
}

/// The status where something failed: what failed, a colon, and the detail.
pub fn failure_status(what: &str, detail: &str) -> (status: HwIdStatus)
    ensures
        status@ == StatusView::Error(what@ + ": "@ + detail@),
{
    let mut message = what.to_owned();
    message.append(": ");
    message.append(detail);
    HwIdStatus::Error(message)
}

/// What follows from the collector's answer to a registration: the hardware
/// is registered if the collector accepted it, else the answer's status is
/// reported.
pub fn interpret_register_response(accepted: bool, http_status: &str) -> (status: HwIdStatus)
    ensures
        accepted ==> status@ == StatusView::Registered,
        !accepted ==> status@ == StatusView::Error(
            "Erro ao registrar hardware: "@ + http_status@,
        ),
{
    if accepted {
        HwIdStatus::Registered
    } else {
        let mut message = "Erro ao registrar hardware: ".to_owned();
        message.append(http_status);
        HwIdStatus::Error(message)
    }
}

} // verus!
