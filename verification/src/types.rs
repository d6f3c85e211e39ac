//! Attribute tables, the error taxonomy, and classification of raw
//! responses from the remote analysis service.

use crate::request::LanguageCode;
use crate::response::EmptyApiResponse;
use vstd::prelude::*;
use vstd::string::StringExecFns;

verus! {

/// The attribute types that the remote service can score.
///
/// Stable attributes, supported for every available language:
/// `Toxicity`, `SevereToxicity`, `IdentityAttack`, `Insult`, `Profanity`,
/// `Threat`.
///
/// Experimental attributes, language support varies:
/// `ToxicityExperimental` through `Flirtation`.
///
/// New York Times attributes, trained only on NYT comments and supported
/// only in English: `AttackOnAuthor` through `Unsubstantial`.
#[derive(Clone, Copy, Debug, PartialEq, Eq, Hash, Structural)]
pub enum Attribute {
    /// A rude, disrespectful, or unreasonable comment likely to make people leave a discussion.
    Toxicity,
    /// A very hateful, aggressive or disrespectful comment; much less sensitive to mild toxicity.
    SevereToxicity,
    /// Negative or hateful comments targeting someone because of their identity.
    IdentityAttack,
    /// Insulting, inflammatory, or negative comment towards a person or group.
    Insult,
    /// Swear words, curse words, or other obscene or profane language.
    Profanity,
    /// Describes an intention to inflict pain, injury, or violence.
    Threat,
    /// Experimental version of `Toxicity`.
    ToxicityExperimental,
    /// Experimental version of `SevereToxicity`.
    SevereToxicityExperimental,
    /// Experimental version of `IdentityAttack`.
    IdentityAttackExperimental,
    /// Experimental version of `Insult`.
    InsultExperimental,
    /// Experimental version of `Profanity`.
    ProfanityExperimental,
    /// Experimental version of `Threat`.
    ThreatExperimental,
    /// References to sexual acts, body parts, or other lewd content.
    SexuallyExplicit,
    /// Pickup lines, complimenting appearance, subtle sexual innuendos.
    Flirtation,
    /// Attack on the author of an article or post.
    AttackOnAuthor,
    /// Attack on a fellow commenter.
    AttackOnCommenter,
    /// Difficult to understand, nonsensical.
    Incoherent,
    /// Intending to provoke or inflame.
    Inflammatory,
    /// Likelihood for the comment to be rejected according to the NYT's moderation.
    LikelyToReject,
    /// Obscene or vulgar language such as cursing.
    Obscene,
    /// Irrelevant and unsolicited commercial content.
    Spam,
    /// Trivial or short comments.
    Unsubstantial,
}

/// How well an attribute is expected to work for a given language.
#[derive(Clone, Copy, Debug, PartialEq, Eq, Hash, Structural)]
pub enum AttributeCompatibility {
    Compatible,
    Unknown,
    Incompatible,
}

/// The six stable attributes, supported for every language.
pub open spec fn spec_all_normal() -> Seq<Attribute> {
    seq![
        Attribute::Toxicity,
        Attribute::SevereToxicity,
        Attribute::IdentityAttack,
        Attribute::Insult,
        Attribute::Profanity,
        Attribute::Threat,
    ]
}

/// The experimental attributes, in the order the service documents them.
pub open spec fn spec_all_experimental() -> Seq<Attribute> {
    seq![
        Attribute::ToxicityExperimental,
        Attribute::SevereToxicityExperimental,
        Attribute::IdentityAttackExperimental,
        Attribute::InsultExperimental,
        Attribute::ProfanityExperimental,
        Attribute::ThreatExperimental,
        Attribute::SexuallyExplicit,
        Attribute::Flirtation,
        Attribute::AttackOnAuthor,
        Attribute::AttackOnCommenter,
    ]
}

/// The New York Times attributes that are neither stable nor listed with
/// the experimental group.
pub open spec fn spec_all_nyt() -> Seq<Attribute> {
    seq![
        Attribute::Incoherent,
        Attribute::Inflammatory,
        Attribute::LikelyToReject,
        Attribute::Obscene,
        Attribute::Spam,
        Attribute::Unsubstantial,
    ]
}

/// Every attribute: the stable group, then the experimental group, then
/// the remaining NYT group.
pub open spec fn spec_all_attributes() -> Seq<Attribute> {
    spec_all_normal() + spec_all_experimental() + spec_all_nyt()
}

/// True of the six stable attributes.
pub open spec fn is_stable_attribute(a: Attribute) -> bool {
    spec_all_normal().contains(a)
}

/// True of the eight experimental attributes that are not NYT-trained.
pub open spec fn is_experimental_attribute(a: Attribute) -> bool {
    match a {
        Attribute::ToxicityExperimental => true,
        Attribute::SevereToxicityExperimental => true,
        Attribute::IdentityAttackExperimental => true,
        Attribute::InsultExperimental => true,
        Attribute::ProfanityExperimental => true,
        Attribute::ThreatExperimental => true,
        Attribute::SexuallyExplicit => true,
        Attribute::Flirtation => true,
        _ => false,
    }
}

/// Compatibility of an attribute with a language: English accepts every
/// attribute; elsewhere the stable attributes are compatible, the
/// experimental ones unknown, and the NYT-trained ones incompatible.
pub open spec fn spec_compatibility(a: Attribute, lang: LanguageCode) -> AttributeCompatibility {
    if lang == LanguageCode::English {
        AttributeCompatibility::Compatible
    } else if is_stable_attribute(a) {
        AttributeCompatibility::Compatible
    } else if is_experimental_attribute(a) {
        AttributeCompatibility::Unknown
    } else {
        AttributeCompatibility::Incompatible
    }
}

/// The name of an attribute on the wire.
pub open spec fn spec_api_name(a: Attribute) -> Seq<char> {
    match a {
        Attribute::Toxicity => "TOXICITY"@,
        Attribute::SevereToxicity => "SEVERE_TOXICITY"@,
        Attribute::IdentityAttack => "IDENTITY_ATTACK"@,
        Attribute::Insult => "INSULT"@,
        Attribute::Profanity => "PROFANITY"@,
        Attribute::Threat => "THREAT"@,
        Attribute::ToxicityExperimental => "TOXICITY_EXPERIMENTAL"@,
        Attribute::SevereToxicityExperimental => "SEVERE_TOXICITY_EXPERIMENTAL"@,
        Attribute::IdentityAttackExperimental => "IDENTITY_ATTACK_EXPERIMENTAL"@,
        Attribute::InsultExperimental => "INSULT_EXPERIMENTAL"@,
        Attribute::ProfanityExperimental => "PROFANITY_EXPERIMENTAL"@,
        Attribute::ThreatExperimental => "THREAT_EXPERIMENTAL"@,
        Attribute::SexuallyExplicit => "SEXUALLY_EXPLICIT"@,
        Attribute::Flirtation => "FLIRTATION"@,
        Attribute::AttackOnAuthor => "ATTACK_ON_AUTHOR"@,
        Attribute::AttackOnCommenter => "ATTACK_ON_COMMENTER"@,
        Attribute::Incoherent => "INCOHERENT"@,
        Attribute::Inflammatory => "INFLAMMATORY"@,
        Attribute::LikelyToReject => "LIKELY_TO_REJECT"@,
        Attribute::Obscene => "OBSCENE"@,
        Attribute::Spam => "SPAM"@,
        Attribute::Unsubstantial => "UNSUBSTANTIAL"@,
    }
}

impl Attribute {
    /// Every attribute the service knows, stable first, then experimental,
    /// then the remaining NYT group.
    pub fn all() -> (r: Vec<Attribute>)
        ensures
            r@ == spec_all_attributes(),
    {
        let mut v: Vec<Attribute> = Vec::new();
        v.push(Attribute::Toxicity);
        v.push(Attribute::SevereToxicity);
        v.push(Attribute::IdentityAttack);
        v.push(Attribute::Insult);
        v.push(Attribute::Profanity);
        v.push(Attribute::Threat);
        v.push(Attribute::ToxicityExperimental);
        v.push(Attribute::SevereToxicityExperimental);
        v.push(Attribute::IdentityAttackExperimental);
        v.push(Attribute::InsultExperimental);
        v.push(Attribute::ProfanityExperimental);
        v.push(Attribute::ThreatExperimental);
        v.push(Attribute::SexuallyExplicit);
        v.push(Attribute::Flirtation);
        v.push(Attribute::AttackOnAuthor);
        v.push(Attribute::AttackOnCommenter);
        v.push(Attribute::Incoherent);
        v.push(Attribute::Inflammatory);
        v.push(Attribute::LikelyToReject);
        v.push(Attribute::Obscene);
        v.push(Attribute::Spam);
        v.push(Attribute::Unsubstantial);
        proof {
            assert(v@ =~= spec_all_attributes());
        }
        v
    }

    /// The six stable attributes.
    pub fn all_normal() -> (r: Vec<Attribute>)
        ensures
            r@ == spec_all_normal(),
    {
        let mut v: Vec<Attribute> = Vec::new();
        v.push(Attribute::Toxicity);
        v.push(Attribute::SevereToxicity);
        v.push(Attribute::IdentityAttack);
        v.push(Attribute::Insult);
        v.push(Attribute::Profanity);
        v.push(Attribute::Threat);
        proof {
            assert(v@ =~= spec_all_normal());
        }
        v
    }

    /// The experimental attributes.
    pub fn all_experimental() -> (r: Vec<Attribute>)
        ensures
            r@ == spec_all_experimental(),
    {
        let mut v: Vec<Attribute> = Vec::new();
        v.push(Attribute::ToxicityExperimental);
        v.push(Attribute::SevereToxicityExperimental);
        v.push(Attribute::IdentityAttackExperimental);
        v.push(Attribute::InsultExperimental);
        v.push(Attribute::ProfanityExperimental);
        v.push(Attribute::ThreatExperimental);
        v.push(Attribute::SexuallyExplicit);
        v.push(Attribute::Flirtation);
        v.push(Attribute::AttackOnAuthor);
        v.push(Attribute::AttackOnCommenter);
        proof {
            assert(v@ =~= spec_all_experimental());
        }
        v
    }

    /// The NYT attributes that are not already in the experimental group.
    pub fn all_nyt() -> (r: Vec<Attribute>)
        ensures
            r@ == spec_all_nyt(),
    {
        let mut v: Vec<Attribute> = Vec::new();
        v.push(Attribute::Incoherent);
        v.push(Attribute::Inflammatory);
        v.push(Attribute::LikelyToReject);
        v.push(Attribute::Obscene);
        v.push(Attribute::Spam);
        v.push(Attribute::Unsubstantial);
        proof {
            assert(v@ =~= spec_all_nyt());
        }
        v
    }

    /// How well this attribute is expected to work for `lang`.
    pub fn check_compatibility(&self, lang: &LanguageCode) -> (r: AttributeCompatibility)
        ensures
            r == spec_compatibility(*self, *lang),
    {
        if matches!(lang, LanguageCode::English) {
            return AttributeCompatibility::Compatible;
        }
        match *self {
            Attribute::Toxicity => AttributeCompatibility::Compatible,
            Attribute::SevereToxicity => AttributeCompatibility::Compatible,
            Attribute::IdentityAttack => AttributeCompatibility::Compatible,
            Attribute::Insult => AttributeCompatibility::Compatible,
            Attribute::Profanity => AttributeCompatibility::Compatible,
            Attribute::Threat => AttributeCompatibility::Compatible,
            Attribute::ToxicityExperimental => AttributeCompatibility::Unknown,
            Attribute::SevereToxicityExperimental => AttributeCompatibility::Unknown,
            Attribute::IdentityAttackExperimental => AttributeCompatibility::Unknown,
            Attribute::InsultExperimental => AttributeCompatibility::Unknown,
            Attribute::ProfanityExperimental => AttributeCompatibility::Unknown,
            Attribute::ThreatExperimental => AttributeCompatibility::Unknown,
            Attribute::SexuallyExplicit => AttributeCompatibility::Unknown,
            Attribute::Flirtation => AttributeCompatibility::Unknown,
            Attribute::AttackOnAuthor => AttributeCompatibility::Incompatible,
            Attribute::AttackOnCommenter => AttributeCompatibility::Incompatible,
            Attribute::Incoherent => AttributeCompatibility::Incompatible,
            Attribute::Inflammatory => AttributeCompatibility::Incompatible,
            Attribute::LikelyToReject => AttributeCompatibility::Incompatible,
            Attribute::Obscene => AttributeCompatibility::Incompatible,
            Attribute::Spam => AttributeCompatibility::Incompatible,
            Attribute::Unsubstantial => AttributeCompatibility::Incompatible,
        }
    }

    /// The name of this attribute on the wire.
    pub fn api_name(&self) -> (r: String)
        ensures
            r@ == spec_api_name(*self),
    {
        match *self {
            Attribute::Toxicity => String::from_str("TOXICITY"),
            Attribute::SevereToxicity => String::from_str("SEVERE_TOXICITY"),
            Attribute::IdentityAttack => String::from_str("IDENTITY_ATTACK"),
            Attribute::Insult => String::from_str("INSULT"),
            Attribute::Profanity => String::from_str("PROFANITY"),
            Attribute::Threat => String::from_str("THREAT"),
            Attribute::ToxicityExperimental => String::from_str("TOXICITY_EXPERIMENTAL"),
            Attribute::SevereToxicityExperimental => String::from_str("SEVERE_TOXICITY_EXPERIMENTAL"),
            Attribute::IdentityAttackExperimental => String::from_str("IDENTITY_ATTACK_EXPERIMENTAL"),
            Attribute::InsultExperimental => String::from_str("INSULT_EXPERIMENTAL"),
            Attribute::ProfanityExperimental => String::from_str("PROFANITY_EXPERIMENTAL"),
            Attribute::ThreatExperimental => String::from_str("THREAT_EXPERIMENTAL"),
            Attribute::SexuallyExplicit => String::from_str("SEXUALLY_EXPLICIT"),
            Attribute::Flirtation => String::from_str("FLIRTATION"),
            Attribute::AttackOnAuthor => String::from_str("ATTACK_ON_AUTHOR"),
            Attribute::AttackOnCommenter => String::from_str("ATTACK_ON_COMMENTER"),
            Attribute::Incoherent => String::from_str("INCOHERENT"),
            Attribute::Inflammatory => String::from_str("INFLAMMATORY"),
            Attribute::LikelyToReject => String::from_str("LIKELY_TO_REJECT"),
            Attribute::Obscene => String::from_str("OBSCENE"),
            Attribute::Spam => String::from_str("SPAM"),
            Attribute::Unsubstantial => String::from_str("UNSUBSTANTIAL"),
        }
    }
}

/// The inner body of a structured error returned by the remote service.
#[derive(Clone, Debug, PartialEq, Eq)]
pub struct ApiErrorBodyError {
    pub code: u16,
    pub message: String,
    pub status: String,
}

/// A structured error body returned by the remote service.
#[derive(Clone, Debug, PartialEq, Eq)]
pub struct ApiErrorBody {
    pub error: ApiErrorBodyError,
}

impl ApiErrorBody {
    pub fn new(code: u16, message: String, status: String) -> (r: ApiErrorBody)
        ensures
            r.error.code == code,
            r.error.message@ == message@,
            r.error.status@ == status@,
    {
        ApiErrorBody { error: ApiErrorBodyError { code, message, status } }
    }

    /// The human-readable message of the error, as the service sent it.
    pub fn message(&self) -> (r: String)
        ensures
            r@ == self.error.message@,
    {
        self.error.message.clone()
    }
}

/// Everything that can go wrong for one request, delivered to the caller
/// as data rather than thrown past the worker loop.
#[derive(Clone, Debug, PartialEq, Eq)]
pub enum ApiError {
    /// The caller tried to receive after giving the output stream away.
    ReceiverUnavailable,
    /// The tier for the requested priority was at capacity at submission
    /// time; the request was never sent to the remote service.
    QueueFull,
    /// The HTTP exchange could not be completed; carries the transport
    /// error's description.
    TransportFailure(String),
    /// The response body did not parse; carries the parse error's
    /// description and the raw body for diagnostics.
    DecodeFailure(String, String),
    /// The service answered without scores.
    EmptyResponse(EmptyApiResponse),
    /// The service returned a structured error.
    RemoteError(ApiErrorBody),
}

/// A decoded response body, before classification: either a scored
/// payload, a payload-free answer, or a structured error. The scored
/// payload `P` is opaque here; the HTTP layer chooses it.
pub enum RawApiResponse<P> {
    Valid(P),
    ValidNoResponse(EmptyApiResponse),
    Invalid(ApiErrorBody),
}

impl<P> RawApiResponse<P> {
    /// Classify a decoded body: a scored payload is success, anything
    /// else is the corresponding error.
    pub fn extract(self) -> (r: Result<P, ApiError>)
        ensures
            r == match self {
                RawApiResponse::Valid(p) => Result::<P, ApiError>::Ok(p),
                RawApiResponse::ValidNoResponse(e) => Result::<P, ApiError>::Err(
                    ApiError::EmptyResponse(e),
                ),
                RawApiResponse::Invalid(b) => Result::<P, ApiError>::Err(
                    ApiError::RemoteError(b),
                ),
            },
    {
        match self {
            RawApiResponse::Valid(p) => Ok(p),
            RawApiResponse::ValidNoResponse(e) => Err(ApiError::EmptyResponse(e)),
            RawApiResponse::Invalid(b) => Err(ApiError::RemoteError(b)),
        }
    }
}

} // verus!
