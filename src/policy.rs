use vstd::prelude::*;

use crate::text::same_text;

verus! {

/// Time-control category of a challenge.
#[derive(Clone, Copy, Debug, PartialEq, Eq, Structural)]
pub enum Speed {
    UltraBullet,
    Bullet,
    Blitz,
    Rapid,
    Classical,
    Correspondence,
    /// A category this bot has no rule for.
    Other,
}

/// An incoming invitation to play.
#[derive(Clone, Debug)]
pub struct Challenge {
    pub id: String,
    pub variant_key: String,
    pub speed: Speed,
    pub rated: bool,
}

/// Which challenges the bot is willing to play.
#[derive(Clone, Copy, Debug, PartialEq, Eq, Structural)]
pub struct AcceptancePolicy {
    pub enable_classical: bool,
    pub enable_rapid: bool,
    pub disable_blitz: bool,
    pub disable_bullet: bool,
    pub enable_ultrabullet: bool,
    pub enable_casual: bool,
    pub disable_rated: bool,
}

/// A rule of the acceptance policy that a challenge breaks.
#[derive(Clone, Copy, Debug, PartialEq, Eq, Structural)]
pub enum Violation {
    WrongVariant,
    WrongSpeed(Speed),
    RatedRefused,
    CasualRefused,
}

/// The reason sent to the server with a decline.
#[derive(Clone, Copy, Debug, PartialEq, Eq, Structural)]
pub enum DeclineCode {
    Generic,
    Variant,
    TimeControl,
    Rated,
    Casual,
}

/// Outcome of evaluating a challenge: every broken rule, in rule order, and
/// the code of the last of them.
#[derive(Clone, Debug)]
pub struct ChallengeDecision {
    pub accept: bool,
    pub reasons: Vec<Violation>,
    pub decline_code: DeclineCode,
}

pub open spec fn is_standard(variant_key: Seq<char>) -> bool {
    variant_key == "standard"@
}

/// Whether the policy lets the bot play at this speed.
pub open spec fn speed_allowed(speed: Speed, p: AcceptancePolicy) -> bool {
    match speed {
        Speed::Correspondence => false,
        Speed::Classical => p.enable_classical,
        Speed::Rapid => p.enable_rapid,
        Speed::Blitz => !p.disable_blitz,
        Speed::Bullet => !p.disable_bullet,
        Speed::UltraBullet => p.enable_ultrabullet,
        Speed::Other => true,
    }
}

/// The broken rules of a challenge, in the order the rules are checked:
/// variant, then speed, then rated or casual mode.
pub open spec fn violations(c: Challenge, p: AcceptancePolicy) -> Seq<Violation> {
    let variant = if is_standard(c.variant_key@) {
        Seq::empty()
    } else {
        seq![Violation::WrongVariant]
    };
    let speed = if speed_allowed(c.speed, p) {
        Seq::empty()
    } else {
        seq![Violation::WrongSpeed(c.speed)]
    };
    let mode = if c.rated && p.disable_rated {
        seq![Violation::RatedRefused]
    } else if !c.rated && !p.enable_casual {
        seq![Violation::CasualRefused]
    } else {
        Seq::empty()
    };
    variant + speed + mode
}

pub open spec fn code_of(v: Violation) -> DeclineCode {
    match v {
        Violation::WrongVariant => DeclineCode::Variant,
        Violation::WrongSpeed(_) => DeclineCode::TimeControl,
        Violation::RatedRefused => DeclineCode::Rated,
        Violation::CasualRefused => DeclineCode::Casual,
    }
}

/// The code reported for a list of broken rules: that of the last one.
pub open spec fn reported_code(vs: Seq<Violation>) -> DeclineCode {
    if vs.len() == 0 {
        DeclineCode::Generic
    } else {
        code_of(vs.last())
    }
}

/// The reason a rule gives, in words.
pub open spec fn described(v: Violation) -> Seq<char> {
    match v {
        Violation::WrongVariant => "wrong variant"@,
        Violation::WrongSpeed(Speed::UltraBullet) => "wrong speed ( ultrabullet )"@,
        Violation::WrongSpeed(Speed::Bullet) => "wrong speed ( bullet )"@,
        Violation::WrongSpeed(Speed::Blitz) => "wrong speed ( blitz )"@,
        Violation::WrongSpeed(Speed::Rapid) => "wrong speed ( rapid )"@,
        Violation::WrongSpeed(Speed::Classical) => "wrong speed ( classical )"@,
        Violation::WrongSpeed(Speed::Correspondence) => "wrong speed ( correspondence )"@,
        Violation::WrongSpeed(Speed::Other) => "wrong speed"@,
        Violation::RatedRefused => "wrong mode ( rated )"@,
        Violation::CasualRefused => "wrong mode ( casual )"@,
    }
}

impl Violation {
    /// The reason in words, for logs.
    pub fn describe(&self) -> (r: &'static str)
        ensures
            r@ == described(*self),
    {
        match self {
            Violation::WrongVariant => "wrong variant",
            Violation::WrongSpeed(Speed::UltraBullet) => "wrong speed ( ultrabullet )",
            Violation::WrongSpeed(Speed::Bullet) => "wrong speed ( bullet )",
            Violation::WrongSpeed(Speed::Blitz) => "wrong speed ( blitz )",
            Violation::WrongSpeed(Speed::Rapid) => "wrong speed ( rapid )",
            Violation::WrongSpeed(Speed::Classical) => "wrong speed ( classical )",
            Violation::WrongSpeed(Speed::Correspondence) => "wrong speed ( correspondence )",
            Violation::WrongSpeed(Speed::Other) => "wrong speed",
            Violation::RatedRefused => "wrong mode ( rated )",
            Violation::CasualRefused => "wrong mode ( casual )",
        }
    }

    pub fn code(&self) -> (r: DeclineCode)
        ensures
            r == code_of(*self),
    {
        match self {
            Violation::WrongVariant => DeclineCode::Variant,
            Violation::WrongSpeed(_) => DeclineCode::TimeControl,
            Violation::RatedRefused => DeclineCode::Rated,
            Violation::CasualRefused => DeclineCode::Casual,
        }
    }
}

impl DeclineCode {
    /// The server's name for this reason.
    pub fn api_key(&self) -> (r: &'static str)
        ensures
            *self == DeclineCode::Generic ==> r@ == "generic"@,
            *self == DeclineCode::Variant ==> r@ == "variant"@,
            *self == DeclineCode::TimeControl ==> r@ == "timeControl"@,
            *self == DeclineCode::Rated ==> r@ == "rated"@,
            *self == DeclineCode::Casual ==> r@ == "casual"@,
    {
        match self {
            DeclineCode::Generic => "generic",
            DeclineCode::Variant => "variant",
            DeclineCode::TimeControl => "timeControl",
            DeclineCode::Rated => "rated",
            DeclineCode::Casual => "casual",
        }
    }
}

impl Speed {
    /// The category named by a server speed key; `Other` for any key this
    /// bot has no rule for.
    pub fn from_key(key: &str) -> (r: Speed)
        ensures
            key@ == "ultraBullet"@ || key@ == "ultrabullet"@ ==> r == Speed::UltraBullet,
            key@ == "bullet"@ ==> r == Speed::Bullet,
            key@ == "blitz"@ ==> r == Speed::Blitz,
            key@ == "rapid"@ ==> r == Speed::Rapid,
            key@ == "classical"@ ==> r == Speed::Classical,
            key@ == "correspondence"@ ==> r == Speed::Correspondence,
            r == Speed::Other <==> !(key@ == "ultraBullet"@ || key@ == "ultrabullet"@ || key@
                == "bullet"@ || key@ == "blitz"@ || key@ == "rapid"@ || key@ == "classical"@
                || key@ == "correspondence"@),
    {
        proof {
            reveal_strlit("ultraBullet");
            reveal_strlit("ultrabullet");
            reveal_strlit("bullet");
            reveal_strlit("blitz");
            reveal_strlit("rapid");
            reveal_strlit("classical");
            reveal_strlit("correspondence");
            assert("bullet"@.len() != "ultraBullet"@.len());
            assert("bullet"@.len() != "ultrabullet"@.len());
            assert("blitz"@.len() != "ultraBullet"@.len());
            assert("blitz"@.len() != "ultrabullet"@.len());
            assert("blitz"@.len() != "bullet"@.len());
            assert("rapid"@[0] != "blitz"@[0]);
            assert("rapid"@.len() != "bullet"@.len());
            assert("rapid"@.len() != "ultraBullet"@.len());
            assert("classical"@.len() == 9);
            assert("correspondence"@.len() == 14);
        }
        if same_text(key, "ultraBullet") || same_text(key, "ultrabullet") {
            Speed::UltraBullet
        } else if same_text(key, "bullet") {
            Speed::Bullet
        } else if same_text(key, "blitz") {
            Speed::Blitz
        } else if same_text(key, "rapid") {
            Speed::Rapid
        } else if same_text(key, "classical") {
            Speed::Classical
        } else if same_text(key, "correspondence") {
            Speed::Correspondence
        } else {
            Speed::Other
        }
    }
}

pub fn speed_allowed_by(speed: Speed, p: &AcceptancePolicy) -> (r: bool)
    ensures
        r == speed_allowed(speed, *p),
{
    match speed {
        Speed::Correspondence => false,
        Speed::Classical => p.enable_classical,
        Speed::Rapid => p.enable_rapid,
        Speed::Blitz => !p.disable_blitz,
        Speed::Bullet => !p.disable_bullet,
        Speed::UltraBullet => p.enable_ultrabullet,
        Speed::Other => true,
    }
}

/// Decides whether to accept a challenge. Every rule is checked; the
/// decision lists all broken rules and reports the code of the last one.
pub fn evaluate(challenge: &Challenge, policy: &AcceptancePolicy) -> (r: ChallengeDecision)
    ensures
        r.reasons@ == violations(*challenge, *policy),
        r.accept == (r.reasons@.len() == 0),
        r.decline_code == reported_code(r.reasons@),
        !is_standard(challenge.variant_key@) ==> !r.accept,
        !is_standard(challenge.variant_key@) && speed_allowed(challenge.speed, *policy)
            && (challenge.rated ==> !policy.disable_rated) && (!challenge.rated
            ==> policy.enable_casual) ==> r.decline_code == DeclineCode::Variant,
        challenge.speed == Speed::Correspondence ==> !r.accept,
        challenge.speed == Speed::Correspondence && !policy.disable_rated && policy.enable_casual
            ==> r.decline_code == DeclineCode::TimeControl,
{
    proof {
        reveal_strlit("standard");
    }
    let mut reasons: Vec<Violation> = Vec::new();
    let mut code = DeclineCode::Generic;
    let ghost c = *challenge;
    let ghost p = *policy;
    let rules_variant = !same_text(challenge.variant_key.as_str(), "standard");
    if rules_variant {
        reasons.push(Violation::WrongVariant);
        code = DeclineCode::Variant;
    }
    if !speed_allowed_by(challenge.speed, policy) {
        reasons.push(Violation::WrongSpeed(challenge.speed));
        code = DeclineCode::TimeControl;
    }
    if challenge.rated && policy.disable_rated {
        reasons.push(Violation::RatedRefused);
        code = DeclineCode::Rated;
    } else if !challenge.rated && !policy.enable_casual {
        reasons.push(Violation::CasualRefused);
        code = DeclineCode::Casual;
    }
    assert(reasons@ =~= violations(c, p));
    ChallengeDecision { accept: reasons.len() == 0, reasons, decline_code: code }
}

} // verus!
