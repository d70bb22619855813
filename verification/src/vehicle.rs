//! Vehicle states carried by the frames.
use crate::text::{decimal_text, push_decimal};
use vstd::prelude::*;
use vstd::std_specs::convert::FromSpecImpl;

verus! {

/// Position of the air conditioning air distribution.
#[derive(Debug, Clone, Copy, PartialEq, Eq)]
pub enum ACAirDistributionPosition {
    AutoComfort,
    AutoDemist,
    Foot,
    Ventilation,
    /// A raw value with no known meaning.
    Unknown(u8),
}

impl ACAirDistributionPosition {
    /// The variant that a raw value stands for.
    pub open spec fn from_raw(raw: u8) -> Self {
        match raw {
            0 => ACAirDistributionPosition::AutoComfort,
            1 => ACAirDistributionPosition::AutoDemist,
            2 => ACAirDistributionPosition::Foot,
            3 => ACAirDistributionPosition::Ventilation,
            _ => ACAirDistributionPosition::Unknown(raw),
        }
    }

    /// The raw value of a variant.
    pub open spec fn raw(self) -> u8 {
        match self {
            ACAirDistributionPosition::AutoComfort => 0,
            ACAirDistributionPosition::AutoDemist => 1,
            ACAirDistributionPosition::Foot => 2,
            ACAirDistributionPosition::Ventilation => 3,
            ACAirDistributionPosition::Unknown(raw) => raw,
        }
    }

    /// The text of a variant: its name, with the raw value of an unknown one.
    #[verifier::opaque]
    pub open spec fn text(self) -> Seq<char> {
        match self {
            ACAirDistributionPosition::AutoComfort => "AutoComfort"@,
            ACAirDistributionPosition::AutoDemist => "AutoDemist"@,
            ACAirDistributionPosition::Foot => "Foot"@,
            ACAirDistributionPosition::Ventilation => "Ventilation"@,
            ACAirDistributionPosition::Unknown(raw) => "Unknown("@ + decimal_text(raw as nat) + ")"@,
        }
    }

    /// Each variant stands for its raw value, and its text is its name.
    pub proof fn lemma_variants()
        ensures
            ACAirDistributionPosition::from_raw(0) == ACAirDistributionPosition::AutoComfort,
            ACAirDistributionPosition::from_raw(1) == ACAirDistributionPosition::AutoDemist,
            ACAirDistributionPosition::from_raw(2) == ACAirDistributionPosition::Foot,
            ACAirDistributionPosition::from_raw(3) == ACAirDistributionPosition::Ventilation,
            forall|raw: u8| raw != 0 && raw != 1 && raw != 2 && raw != 3 ==> #[trigger] ACAirDistributionPosition::from_raw(raw) == ACAirDistributionPosition::Unknown(raw),
            ACAirDistributionPosition::AutoComfort.raw() == 0,
            ACAirDistributionPosition::AutoDemist.raw() == 1,
            ACAirDistributionPosition::Foot.raw() == 2,
            ACAirDistributionPosition::Ventilation.raw() == 3,
            forall|raw: u8| #[trigger] ACAirDistributionPosition::Unknown(raw).raw() == raw,
            ACAirDistributionPosition::AutoComfort.text() == "AutoComfort"@,
            ACAirDistributionPosition::AutoDemist.text() == "AutoDemist"@,
            ACAirDistributionPosition::Foot.text() == "Foot"@,
            ACAirDistributionPosition::Ventilation.text() == "Ventilation"@,
            forall|raw: u8| #[trigger] ACAirDistributionPosition::Unknown(raw).text() == "Unknown("@ + decimal_text(raw as nat) + ")"@,
    {
        reveal(ACAirDistributionPosition::text);
    }

    /// Appends the text of `self` to `s`.
    pub fn push_text(&self, s: &mut String)
        ensures
            final(s)@ == old(s)@ + self.text(),
    {
        proof {
            reveal(ACAirDistributionPosition::text);
        }
        match self {
            ACAirDistributionPosition::AutoComfort => s.append("AutoComfort"),
            ACAirDistributionPosition::AutoDemist => s.append("AutoDemist"),
            ACAirDistributionPosition::Foot => s.append("Foot"),
            ACAirDistributionPosition::Ventilation => s.append("Ventilation"),
            ACAirDistributionPosition::Unknown(raw) => {
                s.append("Unknown(");
                push_decimal(s, *raw as u64);
                s.append(")");
                assert(s@ =~= old(s)@ + self.text());
            },
        }
    }
}

impl From<u8> for ACAirDistributionPosition {
    fn from(raw: u8) -> (r: Self) {
        match raw {
            0 => ACAirDistributionPosition::AutoComfort,
            1 => ACAirDistributionPosition::AutoDemist,
            2 => ACAirDistributionPosition::Foot,
            3 => ACAirDistributionPosition::Ventilation,
            _ => ACAirDistributionPosition::Unknown(raw),
        }
    }
}

impl FromSpecImpl<u8> for ACAirDistributionPosition {
    open spec fn obeys_from_spec() -> bool {
        true
    }

    open spec fn from_spec(v: u8) -> Self {
        ACAirDistributionPosition::from_raw(v)
    }
}

impl From<ACAirDistributionPosition> for u8 {
    fn from(value: ACAirDistributionPosition) -> (r: u8) {
        match value {
            ACAirDistributionPosition::AutoComfort => 0,
            ACAirDistributionPosition::AutoDemist => 1,
            ACAirDistributionPosition::Foot => 2,
            ACAirDistributionPosition::Ventilation => 3,
            ACAirDistributionPosition::Unknown(raw) => raw,
        }
    }
}

impl FromSpecImpl<ACAirDistributionPosition> for u8 {
    open spec fn obeys_from_spec() -> bool {
        true
    }

    open spec fn from_spec(v: ACAirDistributionPosition) -> Self {
        v.raw()
    }
}

/// Mode of the air conditioning air intake.
#[derive(Debug, Clone, Copy, PartialEq, Eq)]
pub enum ACAirIntakeMode {
    AutoComfort,
    ForcedOpen,
    /// A raw value with no known meaning.
    Unknown(u8),
}

impl ACAirIntakeMode {
    /// The variant that a raw value stands for.
    pub open spec fn from_raw(raw: u8) -> Self {
        match raw {
            0 => ACAirIntakeMode::AutoComfort,
            2 => ACAirIntakeMode::ForcedOpen,
            _ => ACAirIntakeMode::Unknown(raw),
        }
    }

    /// The raw value of a variant.
    pub open spec fn raw(self) -> u8 {
        match self {
            ACAirIntakeMode::AutoComfort => 0,
            ACAirIntakeMode::ForcedOpen => 2,
            ACAirIntakeMode::Unknown(raw) => raw,
        }
    }

    /// The text of a variant: its name, with the raw value of an unknown one.
    #[verifier::opaque]
    pub open spec fn text(self) -> Seq<char> {
        match self {
            ACAirIntakeMode::AutoComfort => "AutoComfort"@,
            ACAirIntakeMode::ForcedOpen => "ForcedOpen"@,
            ACAirIntakeMode::Unknown(raw) => "Unknown("@ + decimal_text(raw as nat) + ")"@,
        }
    }

    /// Each variant stands for its raw value, and its text is its name.
    pub proof fn lemma_variants()
        ensures
            ACAirIntakeMode::from_raw(0) == ACAirIntakeMode::AutoComfort,
            ACAirIntakeMode::from_raw(2) == ACAirIntakeMode::ForcedOpen,
            forall|raw: u8| raw != 0 && raw != 2 ==> #[trigger] ACAirIntakeMode::from_raw(raw) == ACAirIntakeMode::Unknown(raw),
            ACAirIntakeMode::AutoComfort.raw() == 0,
            ACAirIntakeMode::ForcedOpen.raw() == 2,
            forall|raw: u8| #[trigger] ACAirIntakeMode::Unknown(raw).raw() == raw,
            ACAirIntakeMode::AutoComfort.text() == "AutoComfort"@,
            ACAirIntakeMode::ForcedOpen.text() == "ForcedOpen"@,
            forall|raw: u8| #[trigger] ACAirIntakeMode::Unknown(raw).text() == "Unknown("@ + decimal_text(raw as nat) + ")"@,
    {
        reveal(ACAirIntakeMode::text);
    }

    /// Appends the text of `self` to `s`.
    pub fn push_text(&self, s: &mut String)
        ensures
            final(s)@ == old(s)@ + self.text(),
    {
        proof {
            reveal(ACAirIntakeMode::text);
        }
        match self {
            ACAirIntakeMode::AutoComfort => s.append("AutoComfort"),
            ACAirIntakeMode::ForcedOpen => s.append("ForcedOpen"),
            ACAirIntakeMode::Unknown(raw) => {
                s.append("Unknown(");
                push_decimal(s, *raw as u64);
                s.append(")");
                assert(s@ =~= old(s)@ + self.text());
            },
        }
    }
}

impl From<u8> for ACAirIntakeMode {
    fn from(raw: u8) -> (r: Self) {
        match raw {
            0 => ACAirIntakeMode::AutoComfort,
            2 => ACAirIntakeMode::ForcedOpen,
            _ => ACAirIntakeMode::Unknown(raw),
        }
    }
}

impl FromSpecImpl<u8> for ACAirIntakeMode {
    open spec fn obeys_from_spec() -> bool {
        true
    }

    open spec fn from_spec(v: u8) -> Self {
        ACAirIntakeMode::from_raw(v)
    }
}

impl From<ACAirIntakeMode> for u8 {
    fn from(value: ACAirIntakeMode) -> (r: u8) {
        match value {
            ACAirIntakeMode::AutoComfort => 0,
            ACAirIntakeMode::ForcedOpen => 2,
            ACAirIntakeMode::Unknown(raw) => raw,
        }
    }
}

impl FromSpecImpl<ACAirIntakeMode> for u8 {
    open spec fn obeys_from_spec() -> bool {
        true
    }

    open spec fn from_spec(v: ACAirIntakeMode) -> Self {
        v.raw()
    }
}

/// Air conditioning temperature setting.
#[derive(Debug, Clone, Copy, PartialEq, Eq)]
pub enum ACAirTemperature {
    TwentyFour,
    TwentySix,
    TwentySeven,
    /// A raw value with no known meaning.
    Unknown(u8),
}

impl ACAirTemperature {
    /// The variant that a raw value stands for.
    pub open spec fn from_raw(raw: u8) -> Self {
        match raw {
            17 => ACAirTemperature::TwentyFour,
            19 => ACAirTemperature::TwentySix,
            20 => ACAirTemperature::TwentySeven,
            _ => ACAirTemperature::Unknown(raw),
        }
    }

    /// The raw value of a variant.
    pub open spec fn raw(self) -> u8 {
        match self {
            ACAirTemperature::TwentyFour => 17,
            ACAirTemperature::TwentySix => 19,
            ACAirTemperature::TwentySeven => 20,
            ACAirTemperature::Unknown(raw) => raw,
        }
    }

    /// The text of a variant: its name, with the raw value of an unknown one.
    #[verifier::opaque]
    pub open spec fn text(self) -> Seq<char> {
        match self {
            ACAirTemperature::TwentyFour => "TwentyFour"@,
            ACAirTemperature::TwentySix => "TwentySix"@,
            ACAirTemperature::TwentySeven => "TwentySeven"@,
            ACAirTemperature::Unknown(raw) => "Unknown("@ + decimal_text(raw as nat) + ")"@,
        }
    }

    /// Each variant stands for its raw value, and its text is its name.
    pub proof fn lemma_variants()
        ensures
            ACAirTemperature::from_raw(17) == ACAirTemperature::TwentyFour,
            ACAirTemperature::from_raw(19) == ACAirTemperature::TwentySix,
            ACAirTemperature::from_raw(20) == ACAirTemperature::TwentySeven,
            forall|raw: u8| raw != 17 && raw != 19 && raw != 20 ==> #[trigger] ACAirTemperature::from_raw(raw) == ACAirTemperature::Unknown(raw),
            ACAirTemperature::TwentyFour.raw() == 17,
            ACAirTemperature::TwentySix.raw() == 19,
            ACAirTemperature::TwentySeven.raw() == 20,
            forall|raw: u8| #[trigger] ACAirTemperature::Unknown(raw).raw() == raw,
            ACAirTemperature::TwentyFour.text() == "TwentyFour"@,
            ACAirTemperature::TwentySix.text() == "TwentySix"@,
            ACAirTemperature::TwentySeven.text() == "TwentySeven"@,
            forall|raw: u8| #[trigger] ACAirTemperature::Unknown(raw).text() == "Unknown("@ + decimal_text(raw as nat) + ")"@,
    {
        reveal(ACAirTemperature::text);
    }

    /// Appends the text of `self` to `s`.
    pub fn push_text(&self, s: &mut String)
        ensures
            final(s)@ == old(s)@ + self.text(),
    {
        proof {
            reveal(ACAirTemperature::text);
        }
        match self {
            ACAirTemperature::TwentyFour => s.append("TwentyFour"),
            ACAirTemperature::TwentySix => s.append("TwentySix"),
            ACAirTemperature::TwentySeven => s.append("TwentySeven"),
            ACAirTemperature::Unknown(raw) => {
                s.append("Unknown(");
                push_decimal(s, *raw as u64);
                s.append(")");
                assert(s@ =~= old(s)@ + self.text());
            },
        }
    }
}

impl From<u8> for ACAirTemperature {
    fn from(raw: u8) -> (r: Self) {
        match raw {
            17 => ACAirTemperature::TwentyFour,
            19 => ACAirTemperature::TwentySix,
            20 => ACAirTemperature::TwentySeven,
            _ => ACAirTemperature::Unknown(raw),
        }
    }
}

impl FromSpecImpl<u8> for ACAirTemperature {
    open spec fn obeys_from_spec() -> bool {
        true
    }

    open spec fn from_spec(v: u8) -> Self {
        ACAirTemperature::from_raw(v)
    }
}

impl From<ACAirTemperature> for u8 {
    fn from(value: ACAirTemperature) -> (r: u8) {
        match value {
            ACAirTemperature::TwentyFour => 17,
            ACAirTemperature::TwentySix => 19,
            ACAirTemperature::TwentySeven => 20,
            ACAirTemperature::Unknown(raw) => raw,
        }
    }
}

impl FromSpecImpl<ACAirTemperature> for u8 {
    open spec fn obeys_from_spec() -> bool {
        true
    }

    open spec fn from_spec(v: ACAirTemperature) -> Self {
        v.raw()
    }
}

/// Mode of the air conditioning fan.
#[derive(Debug, Clone, Copy, PartialEq, Eq)]
pub enum ACFanMode2010 {
    AutoComfort,
    Manual,
    /// A raw value with no known meaning.
    Unknown(u8),
}

impl ACFanMode2010 {
    /// The variant that a raw value stands for.
    pub open spec fn from_raw(raw: u8) -> Self {
        match raw {
            1 => ACFanMode2010::AutoComfort,
            3 => ACFanMode2010::Manual,
            _ => ACFanMode2010::Unknown(raw),
        }
    }

    /// The raw value of a variant.
    pub open spec fn raw(self) -> u8 {
        match self {
            ACFanMode2010::AutoComfort => 1,
            ACFanMode2010::Manual => 3,
            ACFanMode2010::Unknown(raw) => raw,
        }
    }

    /// The text of a variant: its name, with the raw value of an unknown one.
    #[verifier::opaque]
    pub open spec fn text(self) -> Seq<char> {
        match self {
            ACFanMode2010::AutoComfort => "AutoComfort"@,
            ACFanMode2010::Manual => "Manual"@,
            ACFanMode2010::Unknown(raw) => "Unknown("@ + decimal_text(raw as nat) + ")"@,
        }
    }

    /// Each variant stands for its raw value, and its text is its name.
    pub proof fn lemma_variants()
        ensures
            ACFanMode2010::from_raw(1) == ACFanMode2010::AutoComfort,
            ACFanMode2010::from_raw(3) == ACFanMode2010::Manual,
            forall|raw: u8| raw != 1 && raw != 3 ==> #[trigger] ACFanMode2010::from_raw(raw) == ACFanMode2010::Unknown(raw),
            ACFanMode2010::AutoComfort.raw() == 1,
            ACFanMode2010::Manual.raw() == 3,
            forall|raw: u8| #[trigger] ACFanMode2010::Unknown(raw).raw() == raw,
            ACFanMode2010::AutoComfort.text() == "AutoComfort"@,
            ACFanMode2010::Manual.text() == "Manual"@,
            forall|raw: u8| #[trigger] ACFanMode2010::Unknown(raw).text() == "Unknown("@ + decimal_text(raw as nat) + ")"@,
    {
        reveal(ACFanMode2010::text);
    }

    /// Appends the text of `self` to `s`.
    pub fn push_text(&self, s: &mut String)
        ensures
            final(s)@ == old(s)@ + self.text(),
    {
        proof {
            reveal(ACFanMode2010::text);
        }
        match self {
            ACFanMode2010::AutoComfort => s.append("AutoComfort"),
            ACFanMode2010::Manual => s.append("Manual"),
            ACFanMode2010::Unknown(raw) => {
                s.append("Unknown(");
                push_decimal(s, *raw as u64);
                s.append(")");
                assert(s@ =~= old(s)@ + self.text());
            },
        }
    }
}

impl From<u8> for ACFanMode2010 {
    fn from(raw: u8) -> (r: Self) {
        match raw {
            1 => ACFanMode2010::AutoComfort,
            3 => ACFanMode2010::Manual,
            _ => ACFanMode2010::Unknown(raw),
        }
    }
}

impl FromSpecImpl<u8> for ACFanMode2010 {
    open spec fn obeys_from_spec() -> bool {
        true
    }

    open spec fn from_spec(v: u8) -> Self {
        ACFanMode2010::from_raw(v)
    }
}

impl From<ACFanMode2010> for u8 {
    fn from(value: ACFanMode2010) -> (r: u8) {
        match value {
            ACFanMode2010::AutoComfort => 1,
            ACFanMode2010::Manual => 3,
            ACFanMode2010::Unknown(raw) => raw,
        }
    }
}

impl FromSpecImpl<ACFanMode2010> for u8 {
    open spec fn obeys_from_spec() -> bool {
        true
    }

    open spec fn from_spec(v: ACFanMode2010) -> Self {
        v.raw()
    }
}

/// Speed of the air conditioning fan.
#[derive(Debug, Clone, Copy, PartialEq, Eq)]
pub enum ACFanSpeed {
    Speed4,
    Speed6,
    Speed8,
    /// A raw value with no known meaning.
    Unknown(u8),
}

impl ACFanSpeed {
    /// The variant that a raw value stands for.
    pub open spec fn from_raw(raw: u8) -> Self {
        match raw {
            3 => ACFanSpeed::Speed4,
            5 => ACFanSpeed::Speed6,
            7 => ACFanSpeed::Speed8,
            _ => ACFanSpeed::Unknown(raw),
        }
    }

    /// The raw value of a variant.
    pub open spec fn raw(self) -> u8 {
        match self {
            ACFanSpeed::Speed4 => 3,
            ACFanSpeed::Speed6 => 5,
            ACFanSpeed::Speed8 => 7,
            ACFanSpeed::Unknown(raw) => raw,
        }
    }

    /// The text of a variant: its name, with the raw value of an unknown one.
    #[verifier::opaque]
    pub open spec fn text(self) -> Seq<char> {
        match self {
            ACFanSpeed::Speed4 => "Speed4"@,
            ACFanSpeed::Speed6 => "Speed6"@,
            ACFanSpeed::Speed8 => "Speed8"@,
            ACFanSpeed::Unknown(raw) => "Unknown("@ + decimal_text(raw as nat) + ")"@,
        }
    }

    /// Each variant stands for its raw value, and its text is its name.
    pub proof fn lemma_variants()
        ensures
            ACFanSpeed::from_raw(3) == ACFanSpeed::Speed4,
            ACFanSpeed::from_raw(5) == ACFanSpeed::Speed6,
            ACFanSpeed::from_raw(7) == ACFanSpeed::Speed8,
            forall|raw: u8| raw != 3 && raw != 5 && raw != 7 ==> #[trigger] ACFanSpeed::from_raw(raw) == ACFanSpeed::Unknown(raw),
            ACFanSpeed::Speed4.raw() == 3,
            ACFanSpeed::Speed6.raw() == 5,
            ACFanSpeed::Speed8.raw() == 7,
            forall|raw: u8| #[trigger] ACFanSpeed::Unknown(raw).raw() == raw,
            ACFanSpeed::Speed4.text() == "Speed4"@,
            ACFanSpeed::Speed6.text() == "Speed6"@,
            ACFanSpeed::Speed8.text() == "Speed8"@,
            forall|raw: u8| #[trigger] ACFanSpeed::Unknown(raw).text() == "Unknown("@ + decimal_text(raw as nat) + ")"@,
    {
        reveal(ACFanSpeed::text);
    }

    /// Appends the text of `self` to `s`.
    pub fn push_text(&self, s: &mut String)
        ensures
            final(s)@ == old(s)@ + self.text(),
    {
        proof {
            reveal(ACFanSpeed::text);
        }
        match self {
            ACFanSpeed::Speed4 => s.append("Speed4"),
            ACFanSpeed::Speed6 => s.append("Speed6"),
            ACFanSpeed::Speed8 => s.append("Speed8"),
            ACFanSpeed::Unknown(raw) => {
                s.append("Unknown(");
                push_decimal(s, *raw as u64);
                s.append(")");
                assert(s@ =~= old(s)@ + self.text());
            },
        }
    }
}

impl From<u8> for ACFanSpeed {
    fn from(raw: u8) -> (r: Self) {
        match raw {
            3 => ACFanSpeed::Speed4,
            5 => ACFanSpeed::Speed6,
            7 => ACFanSpeed::Speed8,
            _ => ACFanSpeed::Unknown(raw),
        }
    }
}

impl FromSpecImpl<u8> for ACFanSpeed {
    open spec fn obeys_from_spec() -> bool {
        true
    }

    open spec fn from_spec(v: u8) -> Self {
        ACFanSpeed::from_raw(v)
    }
}

impl From<ACFanSpeed> for u8 {
    fn from(value: ACFanSpeed) -> (r: u8) {
        match value {
            ACFanSpeed::Speed4 => 3,
            ACFanSpeed::Speed6 => 5,
            ACFanSpeed::Speed8 => 7,
            ACFanSpeed::Unknown(raw) => raw,
        }
    }
}

impl FromSpecImpl<ACFanSpeed> for u8 {
    open spec fn obeys_from_spec() -> bool {
        true
    }

    open spec fn from_spec(v: ACFanSpeed) -> Self {
        v.raw()
    }
}

/// Air conditioning mode request.
#[derive(Debug, Clone, Copy, PartialEq, Eq)]
pub enum ACModeRequest {
    AutoComfort,
    Off,
    /// A raw value with no known meaning.
    Unknown(u8),
}

impl ACModeRequest {
    /// The variant that a raw value stands for.
    pub open spec fn from_raw(raw: u8) -> Self {
        match raw {
            0 => ACModeRequest::AutoComfort,
            2 => ACModeRequest::Off,
            _ => ACModeRequest::Unknown(raw),
        }
    }

    /// The raw value of a variant.
    pub open spec fn raw(self) -> u8 {
        match self {
            ACModeRequest::AutoComfort => 0,
            ACModeRequest::Off => 2,
            ACModeRequest::Unknown(raw) => raw,
        }
    }

    /// The text of a variant: its name, with the raw value of an unknown one.
    #[verifier::opaque]
    pub open spec fn text(self) -> Seq<char> {
        match self {
            ACModeRequest::AutoComfort => "AutoComfort"@,
            ACModeRequest::Off => "Off"@,
            ACModeRequest::Unknown(raw) => "Unknown("@ + decimal_text(raw as nat) + ")"@,
        }
    }

    /// Each variant stands for its raw value, and its text is its name.
    pub proof fn lemma_variants()
        ensures
            ACModeRequest::from_raw(0) == ACModeRequest::AutoComfort,
            ACModeRequest::from_raw(2) == ACModeRequest::Off,
            forall|raw: u8| raw != 0 && raw != 2 ==> #[trigger] ACModeRequest::from_raw(raw) == ACModeRequest::Unknown(raw),
            ACModeRequest::AutoComfort.raw() == 0,
            ACModeRequest::Off.raw() == 2,
            forall|raw: u8| #[trigger] ACModeRequest::Unknown(raw).raw() == raw,
            ACModeRequest::AutoComfort.text() == "AutoComfort"@,
            ACModeRequest::Off.text() == "Off"@,
            forall|raw: u8| #[trigger] ACModeRequest::Unknown(raw).text() == "Unknown("@ + decimal_text(raw as nat) + ")"@,
    {
        reveal(ACModeRequest::text);
    }

    /// Appends the text of `self` to `s`.
    pub fn push_text(&self, s: &mut String)
        ensures
            final(s)@ == old(s)@ + self.text(),
    {
        proof {
            reveal(ACModeRequest::text);
        }
        match self {
            ACModeRequest::AutoComfort => s.append("AutoComfort"),
            ACModeRequest::Off => s.append("Off"),
            ACModeRequest::Unknown(raw) => {
                s.append("Unknown(");
                push_decimal(s, *raw as u64);
                s.append(")");
                assert(s@ =~= old(s)@ + self.text());
            },
        }
    }
}

impl From<u8> for ACModeRequest {
    fn from(raw: u8) -> (r: Self) {
        match raw {
            0 => ACModeRequest::AutoComfort,
            2 => ACModeRequest::Off,
            _ => ACModeRequest::Unknown(raw),
        }
    }
}

impl FromSpecImpl<u8> for ACModeRequest {
    open spec fn obeys_from_spec() -> bool {
        true
    }

    open spec fn from_spec(v: u8) -> Self {
        ACModeRequest::from_raw(v)
    }
}

impl From<ACModeRequest> for u8 {
    fn from(value: ACModeRequest) -> (r: u8) {
        match value {
            ACModeRequest::AutoComfort => 0,
            ACModeRequest::Off => 2,
            ACModeRequest::Unknown(raw) => raw,
        }
    }
}

impl FromSpecImpl<ACModeRequest> for u8 {
    open spec fn obeys_from_spec() -> bool {
        true
    }

    open spec fn from_spec(v: ACModeRequest) -> Self {
        v.raw()
    }
}

/// State of the adaptive cruise control as displayed.
#[derive(Debug, Clone, Copy, PartialEq, Eq)]
pub enum AdaptiveCruiseControlState {
    AdjustInProgress,
    Disabled,
    /// A raw value with no known meaning.
    Unknown(u8),
}

impl AdaptiveCruiseControlState {
    /// The variant that a raw value stands for.
    pub open spec fn from_raw(raw: u8) -> Self {
        match raw {
            1 => AdaptiveCruiseControlState::AdjustInProgress,
            9 => AdaptiveCruiseControlState::Disabled,
            _ => AdaptiveCruiseControlState::Unknown(raw),
        }
    }

    /// The raw value of a variant.
    pub open spec fn raw(self) -> u8 {
        match self {
            AdaptiveCruiseControlState::AdjustInProgress => 1,
            AdaptiveCruiseControlState::Disabled => 9,
            AdaptiveCruiseControlState::Unknown(raw) => raw,
        }
    }

    /// The text of a variant: its name, with the raw value of an unknown one.
    #[verifier::opaque]
    pub open spec fn text(self) -> Seq<char> {
        match self {
            AdaptiveCruiseControlState::AdjustInProgress => "AdjustInProgress"@,
            AdaptiveCruiseControlState::Disabled => "Disabled"@,
            AdaptiveCruiseControlState::Unknown(raw) => "Unknown("@ + decimal_text(raw as nat) + ")"@,
        }
    }

    /// Each variant stands for its raw value, and its text is its name.
    pub proof fn lemma_variants()
        ensures
            AdaptiveCruiseControlState::from_raw(1) == AdaptiveCruiseControlState::AdjustInProgress,
            AdaptiveCruiseControlState::from_raw(9) == AdaptiveCruiseControlState::Disabled,
            forall|raw: u8| raw != 1 && raw != 9 ==> #[trigger] AdaptiveCruiseControlState::from_raw(raw) == AdaptiveCruiseControlState::Unknown(raw),
            AdaptiveCruiseControlState::AdjustInProgress.raw() == 1,
            AdaptiveCruiseControlState::Disabled.raw() == 9,
            forall|raw: u8| #[trigger] AdaptiveCruiseControlState::Unknown(raw).raw() == raw,
            AdaptiveCruiseControlState::AdjustInProgress.text() == "AdjustInProgress"@,
            AdaptiveCruiseControlState::Disabled.text() == "Disabled"@,
            forall|raw: u8| #[trigger] AdaptiveCruiseControlState::Unknown(raw).text() == "Unknown("@ + decimal_text(raw as nat) + ")"@,
    {
        reveal(AdaptiveCruiseControlState::text);
    }

    /// Appends the text of `self` to `s`.
    pub fn push_text(&self, s: &mut String)
        ensures
            final(s)@ == old(s)@ + self.text(),
    {
        proof {
            reveal(AdaptiveCruiseControlState::text);
        }
        match self {
            AdaptiveCruiseControlState::AdjustInProgress => s.append("AdjustInProgress"),
            AdaptiveCruiseControlState::Disabled => s.append("Disabled"),
            AdaptiveCruiseControlState::Unknown(raw) => {
                s.append("Unknown(");
                push_decimal(s, *raw as u64);
                s.append(")");
                assert(s@ =~= old(s)@ + self.text());
            },
        }
    }
}

impl From<u8> for AdaptiveCruiseControlState {
    fn from(raw: u8) -> (r: Self) {
        match raw {
            1 => AdaptiveCruiseControlState::AdjustInProgress,
            9 => AdaptiveCruiseControlState::Disabled,
            _ => AdaptiveCruiseControlState::Unknown(raw),
        }
    }
}

impl FromSpecImpl<u8> for AdaptiveCruiseControlState {
    open spec fn obeys_from_spec() -> bool {
        true
    }

    open spec fn from_spec(v: u8) -> Self {
        AdaptiveCruiseControlState::from_raw(v)
    }
}

impl From<AdaptiveCruiseControlState> for u8 {
    fn from(value: AdaptiveCruiseControlState) -> (r: u8) {
        match value {
            AdaptiveCruiseControlState::AdjustInProgress => 1,
            AdaptiveCruiseControlState::Disabled => 9,
            AdaptiveCruiseControlState::Unknown(raw) => raw,
        }
    }
}

impl FromSpecImpl<AdaptiveCruiseControlState> for u8 {
    open spec fn obeys_from_spec() -> bool {
        true
    }

    open spec fn from_spec(v: AdaptiveCruiseControlState) -> Self {
        v.raw()
    }
}

/// Mode of the automatic parking system.
#[derive(Debug, Clone, Copy, PartialEq, Eq)]
pub enum AutomaticParkingMode {
    SCP6,
    SCP9,
    /// A raw value with no known meaning.
    Unknown(u8),
}

impl AutomaticParkingMode {
    /// The variant that a raw value stands for.
    pub open spec fn from_raw(raw: u8) -> Self {
        match raw {
            0 => AutomaticParkingMode::SCP6,
            1 => AutomaticParkingMode::SCP9,
            _ => AutomaticParkingMode::Unknown(raw),
        }
    }

    /// The raw value of a variant.
    pub open spec fn raw(self) -> u8 {
        match self {
            AutomaticParkingMode::SCP6 => 0,
            AutomaticParkingMode::SCP9 => 1,
            AutomaticParkingMode::Unknown(raw) => raw,
        }
    }

    /// The text of a variant: its name, with the raw value of an unknown one.
    #[verifier::opaque]
    pub open spec fn text(self) -> Seq<char> {
        match self {
            AutomaticParkingMode::SCP6 => "SCP6"@,
            AutomaticParkingMode::SCP9 => "SCP9"@,
            AutomaticParkingMode::Unknown(raw) => "Unknown("@ + decimal_text(raw as nat) + ")"@,
        }
    }

    /// Each variant stands for its raw value, and its text is its name.
    pub proof fn lemma_variants()
        ensures
            AutomaticParkingMode::from_raw(0) == AutomaticParkingMode::SCP6,
            AutomaticParkingMode::from_raw(1) == AutomaticParkingMode::SCP9,
            forall|raw: u8| raw != 0 && raw != 1 ==> #[trigger] AutomaticParkingMode::from_raw(raw) == AutomaticParkingMode::Unknown(raw),
            AutomaticParkingMode::SCP6.raw() == 0,
            AutomaticParkingMode::SCP9.raw() == 1,
            forall|raw: u8| #[trigger] AutomaticParkingMode::Unknown(raw).raw() == raw,
            AutomaticParkingMode::SCP6.text() == "SCP6"@,
            AutomaticParkingMode::SCP9.text() == "SCP9"@,
            forall|raw: u8| #[trigger] AutomaticParkingMode::Unknown(raw).text() == "Unknown("@ + decimal_text(raw as nat) + ")"@,
    {
        reveal(AutomaticParkingMode::text);
    }

    /// Appends the text of `self` to `s`.
    pub fn push_text(&self, s: &mut String)
        ensures
            final(s)@ == old(s)@ + self.text(),
    {
        proof {
            reveal(AutomaticParkingMode::text);
        }
        match self {
            AutomaticParkingMode::SCP6 => s.append("SCP6"),
            AutomaticParkingMode::SCP9 => s.append("SCP9"),
            AutomaticParkingMode::Unknown(raw) => {
                s.append("Unknown(");
                push_decimal(s, *raw as u64);
                s.append(")");
                assert(s@ =~= old(s)@ + self.text());
            },
        }
    }
}

impl From<u8> for AutomaticParkingMode {
    fn from(raw: u8) -> (r: Self) {
        match raw {
            0 => AutomaticParkingMode::SCP6,
            1 => AutomaticParkingMode::SCP9,
            _ => AutomaticParkingMode::Unknown(raw),
        }
    }
}

impl FromSpecImpl<u8> for AutomaticParkingMode {
    open spec fn obeys_from_spec() -> bool {
        true
    }

    open spec fn from_spec(v: u8) -> Self {
        AutomaticParkingMode::from_raw(v)
    }
}

impl From<AutomaticParkingMode> for u8 {
    fn from(value: AutomaticParkingMode) -> (r: u8) {
        match value {
            AutomaticParkingMode::SCP6 => 0,
            AutomaticParkingMode::SCP9 => 1,
            AutomaticParkingMode::Unknown(raw) => raw,
        }
    }
}

impl FromSpecImpl<AutomaticParkingMode> for u8 {
    open spec fn obeys_from_spec() -> bool {
        true
    }

    open spec fn from_spec(v: AutomaticParkingMode) -> Self {
        v.raw()
    }
}

/// State of the turn indicators.
#[derive(Debug, Clone, Copy, PartialEq, Eq)]
pub enum BlinkersStatus {
    Off,
    /// A raw value with no known meaning.
    Unknown(u8),
}

impl BlinkersStatus {
    /// The variant that a raw value stands for.
    pub open spec fn from_raw(raw: u8) -> Self {
        match raw {
            0 => BlinkersStatus::Off,
            _ => BlinkersStatus::Unknown(raw),
        }
    }

    /// The raw value of a variant.
    pub open spec fn raw(self) -> u8 {
        match self {
            BlinkersStatus::Off => 0,
            BlinkersStatus::Unknown(raw) => raw,
        }
    }

    /// The text of a variant: its name, with the raw value of an unknown one.
    #[verifier::opaque]
    pub open spec fn text(self) -> Seq<char> {
        match self {
            BlinkersStatus::Off => "Off"@,
            BlinkersStatus::Unknown(raw) => "Unknown("@ + decimal_text(raw as nat) + ")"@,
        }
    }

    /// Each variant stands for its raw value, and its text is its name.
    pub proof fn lemma_variants()
        ensures
            BlinkersStatus::from_raw(0) == BlinkersStatus::Off,
            forall|raw: u8| raw != 0 ==> #[trigger] BlinkersStatus::from_raw(raw) == BlinkersStatus::Unknown(raw),
            BlinkersStatus::Off.raw() == 0,
            forall|raw: u8| #[trigger] BlinkersStatus::Unknown(raw).raw() == raw,
            BlinkersStatus::Off.text() == "Off"@,
            forall|raw: u8| #[trigger] BlinkersStatus::Unknown(raw).text() == "Unknown("@ + decimal_text(raw as nat) + ")"@,
    {
        reveal(BlinkersStatus::text);
    }

    /// Appends the text of `self` to `s`.
    pub fn push_text(&self, s: &mut String)
        ensures
            final(s)@ == old(s)@ + self.text(),
    {
        proof {
            reveal(BlinkersStatus::text);
        }
        match self {
            BlinkersStatus::Off => s.append("Off"),
            BlinkersStatus::Unknown(raw) => {
                s.append("Unknown(");
                push_decimal(s, *raw as u64);
                s.append(")");
                assert(s@ =~= old(s)@ + self.text());
            },
        }
    }
}

impl From<u8> for BlinkersStatus {
    fn from(raw: u8) -> (r: Self) {
        match raw {
            0 => BlinkersStatus::Off,
            _ => BlinkersStatus::Unknown(raw),
        }
    }
}

impl FromSpecImpl<u8> for BlinkersStatus {
    open spec fn obeys_from_spec() -> bool {
        true
    }

    open spec fn from_spec(v: u8) -> Self {
        BlinkersStatus::from_raw(v)
    }
}

impl From<BlinkersStatus> for u8 {
    fn from(value: BlinkersStatus) -> (r: u8) {
        match value {
            BlinkersStatus::Off => 0,
            BlinkersStatus::Unknown(raw) => raw,
        }
    }
}

impl FromSpecImpl<BlinkersStatus> for u8 {
    open spec fn obeys_from_spec() -> bool {
        true
    }

    open spec fn from_spec(v: BlinkersStatus) -> Self {
        v.raw()
    }
}

/// Position of a cruise control custom speed setting.
#[derive(Debug, Clone, Copy, PartialEq, Eq)]
pub enum CruiseControlCustomSettingPosition {
    Position1,
    Position6,
    /// A raw value with no known meaning.
    Unknown(u8),
}

impl CruiseControlCustomSettingPosition {
    /// The variant that a raw value stands for.
    pub open spec fn from_raw(raw: u8) -> Self {
        match raw {
            1 => CruiseControlCustomSettingPosition::Position1,
            6 => CruiseControlCustomSettingPosition::Position6,
            _ => CruiseControlCustomSettingPosition::Unknown(raw),
        }
    }

    /// The raw value of a variant.
    pub open spec fn raw(self) -> u8 {
        match self {
            CruiseControlCustomSettingPosition::Position1 => 1,
            CruiseControlCustomSettingPosition::Position6 => 6,
            CruiseControlCustomSettingPosition::Unknown(raw) => raw,
        }
    }

    /// The text of a variant: its name, with the raw value of an unknown one.
    #[verifier::opaque]
    pub open spec fn text(self) -> Seq<char> {
        match self {
            CruiseControlCustomSettingPosition::Position1 => "Position1"@,
            CruiseControlCustomSettingPosition::Position6 => "Position6"@,
            CruiseControlCustomSettingPosition::Unknown(raw) => "Unknown("@ + decimal_text(raw as nat) + ")"@,
        }
    }

    /// Each variant stands for its raw value, and its text is its name.
    pub proof fn lemma_variants()
        ensures
            CruiseControlCustomSettingPosition::from_raw(1) == CruiseControlCustomSettingPosition::Position1,
            CruiseControlCustomSettingPosition::from_raw(6) == CruiseControlCustomSettingPosition::Position6,
            forall|raw: u8| raw != 1 && raw != 6 ==> #[trigger] CruiseControlCustomSettingPosition::from_raw(raw) == CruiseControlCustomSettingPosition::Unknown(raw),
            CruiseControlCustomSettingPosition::Position1.raw() == 1,
            CruiseControlCustomSettingPosition::Position6.raw() == 6,
            forall|raw: u8| #[trigger] CruiseControlCustomSettingPosition::Unknown(raw).raw() == raw,
            CruiseControlCustomSettingPosition::Position1.text() == "Position1"@,
            CruiseControlCustomSettingPosition::Position6.text() == "Position6"@,
            forall|raw: u8| #[trigger] CruiseControlCustomSettingPosition::Unknown(raw).text() == "Unknown("@ + decimal_text(raw as nat) + ")"@,
    {
        reveal(CruiseControlCustomSettingPosition::text);
    }

    /// Appends the text of `self` to `s`.
    pub fn push_text(&self, s: &mut String)
        ensures
            final(s)@ == old(s)@ + self.text(),
    {
        proof {
            reveal(CruiseControlCustomSettingPosition::text);
        }
        match self {
            CruiseControlCustomSettingPosition::Position1 => s.append("Position1"),
            CruiseControlCustomSettingPosition::Position6 => s.append("Position6"),
            CruiseControlCustomSettingPosition::Unknown(raw) => {
                s.append("Unknown(");
                push_decimal(s, *raw as u64);
                s.append(")");
                assert(s@ =~= old(s)@ + self.text());
            },
        }
    }
}

impl From<u8> for CruiseControlCustomSettingPosition {
    fn from(raw: u8) -> (r: Self) {
        match raw {
            1 => CruiseControlCustomSettingPosition::Position1,
            6 => CruiseControlCustomSettingPosition::Position6,
            _ => CruiseControlCustomSettingPosition::Unknown(raw),
        }
    }
}

impl FromSpecImpl<u8> for CruiseControlCustomSettingPosition {
    open spec fn obeys_from_spec() -> bool {
        true
    }

    open spec fn from_spec(v: u8) -> Self {
        CruiseControlCustomSettingPosition::from_raw(v)
    }
}

impl From<CruiseControlCustomSettingPosition> for u8 {
    fn from(value: CruiseControlCustomSettingPosition) -> (r: u8) {
        match value {
            CruiseControlCustomSettingPosition::Position1 => 1,
            CruiseControlCustomSettingPosition::Position6 => 6,
            CruiseControlCustomSettingPosition::Unknown(raw) => raw,
        }
    }
}

impl FromSpecImpl<CruiseControlCustomSettingPosition> for u8 {
    open spec fn obeys_from_spec() -> bool {
        true
    }

    open spec fn from_spec(v: CruiseControlCustomSettingPosition) -> Self {
        v.raw()
    }
}

/// State of the electrical network.
#[derive(Debug, Clone, Copy, PartialEq, Eq)]
pub enum ElectricalNetworkState {
    BatteryNormal,
    GeneratorNormal,
    /// A raw value with no known meaning.
    Unknown(u8),
}

impl ElectricalNetworkState {
    /// The variant that a raw value stands for.
    pub open spec fn from_raw(raw: u8) -> Self {
        match raw {
            0 => ElectricalNetworkState::BatteryNormal,
            5 => ElectricalNetworkState::GeneratorNormal,
            _ => ElectricalNetworkState::Unknown(raw),
        }
    }

    /// The raw value of a variant.
    pub open spec fn raw(self) -> u8 {
        match self {
            ElectricalNetworkState::BatteryNormal => 0,
            ElectricalNetworkState::GeneratorNormal => 5,
            ElectricalNetworkState::Unknown(raw) => raw,
        }
    }

    /// The text of a variant: its name, with the raw value of an unknown one.
    #[verifier::opaque]
    pub open spec fn text(self) -> Seq<char> {
        match self {
            ElectricalNetworkState::BatteryNormal => "BatteryNormal"@,
            ElectricalNetworkState::GeneratorNormal => "GeneratorNormal"@,
            ElectricalNetworkState::Unknown(raw) => "Unknown("@ + decimal_text(raw as nat) + ")"@,
        }
    }

    /// Each variant stands for its raw value, and its text is its name.
    pub proof fn lemma_variants()
        ensures
            ElectricalNetworkState::from_raw(0) == ElectricalNetworkState::BatteryNormal,
            ElectricalNetworkState::from_raw(5) == ElectricalNetworkState::GeneratorNormal,
            forall|raw: u8| raw != 0 && raw != 5 ==> #[trigger] ElectricalNetworkState::from_raw(raw) == ElectricalNetworkState::Unknown(raw),
            ElectricalNetworkState::BatteryNormal.raw() == 0,
            ElectricalNetworkState::GeneratorNormal.raw() == 5,
            forall|raw: u8| #[trigger] ElectricalNetworkState::Unknown(raw).raw() == raw,
            ElectricalNetworkState::BatteryNormal.text() == "BatteryNormal"@,
            ElectricalNetworkState::GeneratorNormal.text() == "GeneratorNormal"@,
            forall|raw: u8| #[trigger] ElectricalNetworkState::Unknown(raw).text() == "Unknown("@ + decimal_text(raw as nat) + ")"@,
    {
        reveal(ElectricalNetworkState::text);
    }

    /// Appends the text of `self` to `s`.
    pub fn push_text(&self, s: &mut String)
        ensures
            final(s)@ == old(s)@ + self.text(),
    {
        proof {
            reveal(ElectricalNetworkState::text);
        }
        match self {
            ElectricalNetworkState::BatteryNormal => s.append("BatteryNormal"),
            ElectricalNetworkState::GeneratorNormal => s.append("GeneratorNormal"),
            ElectricalNetworkState::Unknown(raw) => {
                s.append("Unknown(");
                push_decimal(s, *raw as u64);
                s.append(")");
                assert(s@ =~= old(s)@ + self.text());
            },
        }
    }
}

impl From<u8> for ElectricalNetworkState {
    fn from(raw: u8) -> (r: Self) {
        match raw {
            0 => ElectricalNetworkState::BatteryNormal,
            5 => ElectricalNetworkState::GeneratorNormal,
            _ => ElectricalNetworkState::Unknown(raw),
        }
    }
}

impl FromSpecImpl<u8> for ElectricalNetworkState {
    open spec fn obeys_from_spec() -> bool {
        true
    }

    open spec fn from_spec(v: u8) -> Self {
        ElectricalNetworkState::from_raw(v)
    }
}

impl From<ElectricalNetworkState> for u8 {
    fn from(value: ElectricalNetworkState) -> (r: u8) {
        match value {
            ElectricalNetworkState::BatteryNormal => 0,
            ElectricalNetworkState::GeneratorNormal => 5,
            ElectricalNetworkState::Unknown(raw) => raw,
        }
    }
}

impl FromSpecImpl<ElectricalNetworkState> for u8 {
    open spec fn obeys_from_spec() -> bool {
        true
    }

    open spec fn from_spec(v: ElectricalNetworkState) -> Self {
        v.raw()
    }
}

/// Gear engaged in the gearbox drive mode.
#[derive(Debug, Clone, Copy, PartialEq, Eq)]
pub enum GearboxDriveModeGear {
    Gear3,
    Gear8,
    /// A raw value with no known meaning.
    Unknown(u8),
}

impl GearboxDriveModeGear {
    /// The variant that a raw value stands for.
    pub open spec fn from_raw(raw: u8) -> Self {
        match raw {
            3 => GearboxDriveModeGear::Gear3,
            8 => GearboxDriveModeGear::Gear8,
            _ => GearboxDriveModeGear::Unknown(raw),
        }
    }

    /// The raw value of a variant.
    pub open spec fn raw(self) -> u8 {
        match self {
            GearboxDriveModeGear::Gear3 => 3,
            GearboxDriveModeGear::Gear8 => 8,
            GearboxDriveModeGear::Unknown(raw) => raw,
        }
    }

    /// The text of a variant: its name, with the raw value of an unknown one.
    #[verifier::opaque]
    pub open spec fn text(self) -> Seq<char> {
        match self {
            GearboxDriveModeGear::Gear3 => "Gear3"@,
            GearboxDriveModeGear::Gear8 => "Gear8"@,
            GearboxDriveModeGear::Unknown(raw) => "Unknown("@ + decimal_text(raw as nat) + ")"@,
        }
    }

    /// Each variant stands for its raw value, and its text is its name.
    pub proof fn lemma_variants()
        ensures
            GearboxDriveModeGear::from_raw(3) == GearboxDriveModeGear::Gear3,
            GearboxDriveModeGear::from_raw(8) == GearboxDriveModeGear::Gear8,
            forall|raw: u8| raw != 3 && raw != 8 ==> #[trigger] GearboxDriveModeGear::from_raw(raw) == GearboxDriveModeGear::Unknown(raw),
            GearboxDriveModeGear::Gear3.raw() == 3,
            GearboxDriveModeGear::Gear8.raw() == 8,
            forall|raw: u8| #[trigger] GearboxDriveModeGear::Unknown(raw).raw() == raw,
            GearboxDriveModeGear::Gear3.text() == "Gear3"@,
            GearboxDriveModeGear::Gear8.text() == "Gear8"@,
            forall|raw: u8| #[trigger] GearboxDriveModeGear::Unknown(raw).text() == "Unknown("@ + decimal_text(raw as nat) + ")"@,
    {
        reveal(GearboxDriveModeGear::text);
    }

    /// Appends the text of `self` to `s`.
    pub fn push_text(&self, s: &mut String)
        ensures
            final(s)@ == old(s)@ + self.text(),
    {
        proof {
            reveal(GearboxDriveModeGear::text);
        }
        match self {
            GearboxDriveModeGear::Gear3 => s.append("Gear3"),
            GearboxDriveModeGear::Gear8 => s.append("Gear8"),
            GearboxDriveModeGear::Unknown(raw) => {
                s.append("Unknown(");
                push_decimal(s, *raw as u64);
                s.append(")");
                assert(s@ =~= old(s)@ + self.text());
            },
        }
    }
}

impl From<u8> for GearboxDriveModeGear {
    fn from(raw: u8) -> (r: Self) {
        match raw {
            3 => GearboxDriveModeGear::Gear3,
            8 => GearboxDriveModeGear::Gear8,
            _ => GearboxDriveModeGear::Unknown(raw),
        }
    }
}

impl FromSpecImpl<u8> for GearboxDriveModeGear {
    open spec fn obeys_from_spec() -> bool {
        true
    }

    open spec fn from_spec(v: u8) -> Self {
        GearboxDriveModeGear::from_raw(v)
    }
}

impl From<GearboxDriveModeGear> for u8 {
    fn from(value: GearboxDriveModeGear) -> (r: u8) {
        match value {
            GearboxDriveModeGear::Gear3 => 3,
            GearboxDriveModeGear::Gear8 => 8,
            GearboxDriveModeGear::Unknown(raw) => raw,
        }
    }
}

impl FromSpecImpl<GearboxDriveModeGear> for u8 {
    open spec fn obeys_from_spec() -> bool {
        true
    }

    open spec fn from_spec(v: GearboxDriveModeGear) -> Self {
        v.raw()
    }
}

/// State of a cluster indicator.
#[derive(Debug, Clone, Copy, PartialEq, Eq)]
pub enum IndicatorState {
    Off,
    Blinking,
    /// A raw value with no known meaning.
    Unknown(u8),
}

impl IndicatorState {
    /// The variant that a raw value stands for.
    pub open spec fn from_raw(raw: u8) -> Self {
        match raw {
            0 => IndicatorState::Off,
            2 => IndicatorState::Blinking,
            _ => IndicatorState::Unknown(raw),
        }
    }

    /// The raw value of a variant.
    pub open spec fn raw(self) -> u8 {
        match self {
            IndicatorState::Off => 0,
            IndicatorState::Blinking => 2,
            IndicatorState::Unknown(raw) => raw,
        }
    }

    /// The text of a variant: its name, with the raw value of an unknown one.
    #[verifier::opaque]
    pub open spec fn text(self) -> Seq<char> {
        match self {
            IndicatorState::Off => "Off"@,
            IndicatorState::Blinking => "Blinking"@,
            IndicatorState::Unknown(raw) => "Unknown("@ + decimal_text(raw as nat) + ")"@,
        }
    }

    /// Each variant stands for its raw value, and its text is its name.
    pub proof fn lemma_variants()
        ensures
            IndicatorState::from_raw(0) == IndicatorState::Off,
            IndicatorState::from_raw(2) == IndicatorState::Blinking,
            forall|raw: u8| raw != 0 && raw != 2 ==> #[trigger] IndicatorState::from_raw(raw) == IndicatorState::Unknown(raw),
            IndicatorState::Off.raw() == 0,
            IndicatorState::Blinking.raw() == 2,
            forall|raw: u8| #[trigger] IndicatorState::Unknown(raw).raw() == raw,
            IndicatorState::Off.text() == "Off"@,
            IndicatorState::Blinking.text() == "Blinking"@,
            forall|raw: u8| #[trigger] IndicatorState::Unknown(raw).text() == "Unknown("@ + decimal_text(raw as nat) + ")"@,
    {
        reveal(IndicatorState::text);
    }

    /// Appends the text of `self` to `s`.
    pub fn push_text(&self, s: &mut String)
        ensures
            final(s)@ == old(s)@ + self.text(),
    {
        proof {
            reveal(IndicatorState::text);
        }
        match self {
            IndicatorState::Off => s.append("Off"),
            IndicatorState::Blinking => s.append("Blinking"),
            IndicatorState::Unknown(raw) => {
                s.append("Unknown(");
                push_decimal(s, *raw as u64);
                s.append(")");
                assert(s@ =~= old(s)@ + self.text());
            },
        }
    }
}

impl From<u8> for IndicatorState {
    fn from(raw: u8) -> (r: Self) {
        match raw {
            0 => IndicatorState::Off,
            2 => IndicatorState::Blinking,
            _ => IndicatorState::Unknown(raw),
        }
    }
}

impl FromSpecImpl<u8> for IndicatorState {
    open spec fn obeys_from_spec() -> bool {
        true
    }

    open spec fn from_spec(v: u8) -> Self {
        IndicatorState::from_raw(v)
    }
}

impl From<IndicatorState> for u8 {
    fn from(value: IndicatorState) -> (r: u8) {
        match value {
            IndicatorState::Off => 0,
            IndicatorState::Blinking => 2,
            IndicatorState::Unknown(raw) => raw,
        }
    }
}

impl FromSpecImpl<IndicatorState> for u8 {
    open spec fn obeys_from_spec() -> bool {
        true
    }

    open spec fn from_spec(v: IndicatorState) -> Self {
        v.raw()
    }
}

/// State of the lane centering indicator.
#[derive(Debug, Clone, Copy, PartialEq, Eq)]
pub enum LaneCenteringIndicatorState {
    Off,
    Steady,
    BlinkingFault,
    /// A raw value with no known meaning.
    Unknown(u8),
}

impl LaneCenteringIndicatorState {
    /// The variant that a raw value stands for.
    pub open spec fn from_raw(raw: u8) -> Self {
        match raw {
            0 => LaneCenteringIndicatorState::Off,
            1 => LaneCenteringIndicatorState::Steady,
            2 => LaneCenteringIndicatorState::BlinkingFault,
            _ => LaneCenteringIndicatorState::Unknown(raw),
        }
    }

    /// The raw value of a variant.
    pub open spec fn raw(self) -> u8 {
        match self {
            LaneCenteringIndicatorState::Off => 0,
            LaneCenteringIndicatorState::Steady => 1,
            LaneCenteringIndicatorState::BlinkingFault => 2,
            LaneCenteringIndicatorState::Unknown(raw) => raw,
        }
    }

    /// The text of a variant: its name, with the raw value of an unknown one.
    #[verifier::opaque]
    pub open spec fn text(self) -> Seq<char> {
        match self {
            LaneCenteringIndicatorState::Off => "Off"@,
            LaneCenteringIndicatorState::Steady => "Steady"@,
            LaneCenteringIndicatorState::BlinkingFault => "BlinkingFault"@,
            LaneCenteringIndicatorState::Unknown(raw) => "Unknown("@ + decimal_text(raw as nat) + ")"@,
        }
    }

    /// Each variant stands for its raw value, and its text is its name.
    pub proof fn lemma_variants()
        ensures
            LaneCenteringIndicatorState::from_raw(0) == LaneCenteringIndicatorState::Off,
            LaneCenteringIndicatorState::from_raw(1) == LaneCenteringIndicatorState::Steady,
            LaneCenteringIndicatorState::from_raw(2) == LaneCenteringIndicatorState::BlinkingFault,
            forall|raw: u8| raw != 0 && raw != 1 && raw != 2 ==> #[trigger] LaneCenteringIndicatorState::from_raw(raw) == LaneCenteringIndicatorState::Unknown(raw),
            LaneCenteringIndicatorState::Off.raw() == 0,
            LaneCenteringIndicatorState::Steady.raw() == 1,
            LaneCenteringIndicatorState::BlinkingFault.raw() == 2,
            forall|raw: u8| #[trigger] LaneCenteringIndicatorState::Unknown(raw).raw() == raw,
            LaneCenteringIndicatorState::Off.text() == "Off"@,
            LaneCenteringIndicatorState::Steady.text() == "Steady"@,
            LaneCenteringIndicatorState::BlinkingFault.text() == "BlinkingFault"@,
            forall|raw: u8| #[trigger] LaneCenteringIndicatorState::Unknown(raw).text() == "Unknown("@ + decimal_text(raw as nat) + ")"@,
    {
        reveal(LaneCenteringIndicatorState::text);
    }

    /// Appends the text of `self` to `s`.
    pub fn push_text(&self, s: &mut String)
        ensures
            final(s)@ == old(s)@ + self.text(),
    {
        proof {
            reveal(LaneCenteringIndicatorState::text);
        }
        match self {
            LaneCenteringIndicatorState::Off => s.append("Off"),
            LaneCenteringIndicatorState::Steady => s.append("Steady"),
            LaneCenteringIndicatorState::BlinkingFault => s.append("BlinkingFault"),
            LaneCenteringIndicatorState::Unknown(raw) => {
                s.append("Unknown(");
                push_decimal(s, *raw as u64);
                s.append(")");
                assert(s@ =~= old(s)@ + self.text());
            },
        }
    }
}

impl From<u8> for LaneCenteringIndicatorState {
    fn from(raw: u8) -> (r: Self) {
        match raw {
            0 => LaneCenteringIndicatorState::Off,
            1 => LaneCenteringIndicatorState::Steady,
            2 => LaneCenteringIndicatorState::BlinkingFault,
            _ => LaneCenteringIndicatorState::Unknown(raw),
        }
    }
}

impl FromSpecImpl<u8> for LaneCenteringIndicatorState {
    open spec fn obeys_from_spec() -> bool {
        true
    }

    open spec fn from_spec(v: u8) -> Self {
        LaneCenteringIndicatorState::from_raw(v)
    }
}

impl From<LaneCenteringIndicatorState> for u8 {
    fn from(value: LaneCenteringIndicatorState) -> (r: u8) {
        match value {
            LaneCenteringIndicatorState::Off => 0,
            LaneCenteringIndicatorState::Steady => 1,
            LaneCenteringIndicatorState::BlinkingFault => 2,
            LaneCenteringIndicatorState::Unknown(raw) => raw,
        }
    }
}

impl FromSpecImpl<LaneCenteringIndicatorState> for u8 {
    open spec fn obeys_from_spec() -> bool {
        true
    }

    open spec fn from_spec(v: LaneCenteringIndicatorState) -> Self {
        v.raw()
    }
}

/// Main state of the vehicle.
#[derive(Debug, Clone, Copy, PartialEq, Eq)]
pub enum MainStatus {
    Off,
    On,
    /// A raw value with no known meaning.
    Unknown(u8),
}

impl MainStatus {
    /// The variant that a raw value stands for.
    pub open spec fn from_raw(raw: u8) -> Self {
        match raw {
            0 => MainStatus::Off,
            1 => MainStatus::On,
            _ => MainStatus::Unknown(raw),
        }
    }

    /// The raw value of a variant.
    pub open spec fn raw(self) -> u8 {
        match self {
            MainStatus::Off => 0,
            MainStatus::On => 1,
            MainStatus::Unknown(raw) => raw,
        }
    }

    /// The text of a variant: its name, with the raw value of an unknown one.
    #[verifier::opaque]
    pub open spec fn text(self) -> Seq<char> {
        match self {
            MainStatus::Off => "Off"@,
            MainStatus::On => "On"@,
            MainStatus::Unknown(raw) => "Unknown("@ + decimal_text(raw as nat) + ")"@,
        }
    }

    /// Each variant stands for its raw value, and its text is its name.
    pub proof fn lemma_variants()
        ensures
            MainStatus::from_raw(0) == MainStatus::Off,
            MainStatus::from_raw(1) == MainStatus::On,
            forall|raw: u8| raw != 0 && raw != 1 ==> #[trigger] MainStatus::from_raw(raw) == MainStatus::Unknown(raw),
            MainStatus::Off.raw() == 0,
            MainStatus::On.raw() == 1,
            forall|raw: u8| #[trigger] MainStatus::Unknown(raw).raw() == raw,
            MainStatus::Off.text() == "Off"@,
            MainStatus::On.text() == "On"@,
            forall|raw: u8| #[trigger] MainStatus::Unknown(raw).text() == "Unknown("@ + decimal_text(raw as nat) + ")"@,
    {
        reveal(MainStatus::text);
    }

    /// Appends the text of `self` to `s`.
    pub fn push_text(&self, s: &mut String)
        ensures
            final(s)@ == old(s)@ + self.text(),
    {
        proof {
            reveal(MainStatus::text);
        }
        match self {
            MainStatus::Off => s.append("Off"),
            MainStatus::On => s.append("On"),
            MainStatus::Unknown(raw) => {
                s.append("Unknown(");
                push_decimal(s, *raw as u64);
                s.append(")");
                assert(s@ =~= old(s)@ + self.text());
            },
        }
    }
}

impl From<u8> for MainStatus {
    fn from(raw: u8) -> (r: Self) {
        match raw {
            0 => MainStatus::Off,
            1 => MainStatus::On,
            _ => MainStatus::Unknown(raw),
        }
    }
}

impl FromSpecImpl<u8> for MainStatus {
    open spec fn obeys_from_spec() -> bool {
        true
    }

    open spec fn from_spec(v: u8) -> Self {
        MainStatus::from_raw(v)
    }
}

impl From<MainStatus> for u8 {
    fn from(value: MainStatus) -> (r: u8) {
        match value {
            MainStatus::Off => 0,
            MainStatus::On => 1,
            MainStatus::Unknown(raw) => raw,
        }
    }
}

impl FromSpecImpl<MainStatus> for u8 {
    open spec fn obeys_from_spec() -> bool {
        true
    }

    open spec fn from_spec(v: MainStatus) -> Self {
        v.raw()
    }
}

/// State of the powertrain.
#[derive(Debug, Clone, Copy, PartialEq, Eq)]
pub enum PowertrainStatus {
    Stopped,
    Running,
    /// A raw value with no known meaning.
    Unknown(u8),
}

impl PowertrainStatus {
    /// The variant that a raw value stands for.
    pub open spec fn from_raw(raw: u8) -> Self {
        match raw {
            0 => PowertrainStatus::Stopped,
            2 => PowertrainStatus::Running,
            _ => PowertrainStatus::Unknown(raw),
        }
    }

    /// The raw value of a variant.
    pub open spec fn raw(self) -> u8 {
        match self {
            PowertrainStatus::Stopped => 0,
            PowertrainStatus::Running => 2,
            PowertrainStatus::Unknown(raw) => raw,
        }
    }

    /// The text of a variant: its name, with the raw value of an unknown one.
    #[verifier::opaque]
    pub open spec fn text(self) -> Seq<char> {
        match self {
            PowertrainStatus::Stopped => "Stopped"@,
            PowertrainStatus::Running => "Running"@,
            PowertrainStatus::Unknown(raw) => "Unknown("@ + decimal_text(raw as nat) + ")"@,
        }
    }

    /// Each variant stands for its raw value, and its text is its name.
    pub proof fn lemma_variants()
        ensures
            PowertrainStatus::from_raw(0) == PowertrainStatus::Stopped,
            PowertrainStatus::from_raw(2) == PowertrainStatus::Running,
            forall|raw: u8| raw != 0 && raw != 2 ==> #[trigger] PowertrainStatus::from_raw(raw) == PowertrainStatus::Unknown(raw),
            PowertrainStatus::Stopped.raw() == 0,
            PowertrainStatus::Running.raw() == 2,
            forall|raw: u8| #[trigger] PowertrainStatus::Unknown(raw).raw() == raw,
            PowertrainStatus::Stopped.text() == "Stopped"@,
            PowertrainStatus::Running.text() == "Running"@,
            forall|raw: u8| #[trigger] PowertrainStatus::Unknown(raw).text() == "Unknown("@ + decimal_text(raw as nat) + ")"@,
    {
        reveal(PowertrainStatus::text);
    }

    /// Appends the text of `self` to `s`.
    pub fn push_text(&self, s: &mut String)
        ensures
            final(s)@ == old(s)@ + self.text(),
    {
        proof {
            reveal(PowertrainStatus::text);
        }
        match self {
            PowertrainStatus::Stopped => s.append("Stopped"),
            PowertrainStatus::Running => s.append("Running"),
            PowertrainStatus::Unknown(raw) => {
                s.append("Unknown(");
                push_decimal(s, *raw as u64);
                s.append(")");
                assert(s@ =~= old(s)@ + self.text());
            },
        }
    }
}

impl From<u8> for PowertrainStatus {
    fn from(raw: u8) -> (r: Self) {
        match raw {
            0 => PowertrainStatus::Stopped,
            2 => PowertrainStatus::Running,
            _ => PowertrainStatus::Unknown(raw),
        }
    }
}

impl FromSpecImpl<u8> for PowertrainStatus {
    open spec fn obeys_from_spec() -> bool {
        true
    }

    open spec fn from_spec(v: u8) -> Self {
        PowertrainStatus::from_raw(v)
    }
}

impl From<PowertrainStatus> for u8 {
    fn from(value: PowertrainStatus) -> (r: u8) {
        match value {
            PowertrainStatus::Stopped => 0,
            PowertrainStatus::Running => 2,
            PowertrainStatus::Unknown(raw) => raw,
        }
    }
}

impl FromSpecImpl<PowertrainStatus> for u8 {
    open spec fn obeys_from_spec() -> bool {
        true
    }

    open spec fn from_spec(v: PowertrainStatus) -> Self {
        v.raw()
    }
}

/// Speed regulation function.
#[derive(Debug, Clone, Copy, PartialEq, Eq)]
pub enum SpeedRegulationMode {
    CruiseControl,
    AdaptiveCruiseControl,
    /// A raw value with no known meaning.
    Unknown(u8),
}

impl SpeedRegulationMode {
    /// The variant that a raw value stands for.
    pub open spec fn from_raw(raw: u8) -> Self {
        match raw {
            1 => SpeedRegulationMode::CruiseControl,
            3 => SpeedRegulationMode::AdaptiveCruiseControl,
            _ => SpeedRegulationMode::Unknown(raw),
        }
    }

    /// The raw value of a variant.
    pub open spec fn raw(self) -> u8 {
        match self {
            SpeedRegulationMode::CruiseControl => 1,
            SpeedRegulationMode::AdaptiveCruiseControl => 3,
            SpeedRegulationMode::Unknown(raw) => raw,
        }
    }

    /// The text of a variant: its name, with the raw value of an unknown one.
    #[verifier::opaque]
    pub open spec fn text(self) -> Seq<char> {
        match self {
            SpeedRegulationMode::CruiseControl => "CruiseControl"@,
            SpeedRegulationMode::AdaptiveCruiseControl => "AdaptiveCruiseControl"@,
            SpeedRegulationMode::Unknown(raw) => "Unknown("@ + decimal_text(raw as nat) + ")"@,
        }
    }

    /// Each variant stands for its raw value, and its text is its name.
    pub proof fn lemma_variants()
        ensures
            SpeedRegulationMode::from_raw(1) == SpeedRegulationMode::CruiseControl,
            SpeedRegulationMode::from_raw(3) == SpeedRegulationMode::AdaptiveCruiseControl,
            forall|raw: u8| raw != 1 && raw != 3 ==> #[trigger] SpeedRegulationMode::from_raw(raw) == SpeedRegulationMode::Unknown(raw),
            SpeedRegulationMode::CruiseControl.raw() == 1,
            SpeedRegulationMode::AdaptiveCruiseControl.raw() == 3,
            forall|raw: u8| #[trigger] SpeedRegulationMode::Unknown(raw).raw() == raw,
            SpeedRegulationMode::CruiseControl.text() == "CruiseControl"@,
            SpeedRegulationMode::AdaptiveCruiseControl.text() == "AdaptiveCruiseControl"@,
            forall|raw: u8| #[trigger] SpeedRegulationMode::Unknown(raw).text() == "Unknown("@ + decimal_text(raw as nat) + ")"@,
    {
        reveal(SpeedRegulationMode::text);
    }

    /// Appends the text of `self` to `s`.
    pub fn push_text(&self, s: &mut String)
        ensures
            final(s)@ == old(s)@ + self.text(),
    {
        proof {
            reveal(SpeedRegulationMode::text);
        }
        match self {
            SpeedRegulationMode::CruiseControl => s.append("CruiseControl"),
            SpeedRegulationMode::AdaptiveCruiseControl => s.append("AdaptiveCruiseControl"),
            SpeedRegulationMode::Unknown(raw) => {
                s.append("Unknown(");
                push_decimal(s, *raw as u64);
                s.append(")");
                assert(s@ =~= old(s)@ + self.text());
            },
        }
    }
}

impl From<u8> for SpeedRegulationMode {
    fn from(raw: u8) -> (r: Self) {
        match raw {
            1 => SpeedRegulationMode::CruiseControl,
            3 => SpeedRegulationMode::AdaptiveCruiseControl,
            _ => SpeedRegulationMode::Unknown(raw),
        }
    }
}

impl FromSpecImpl<u8> for SpeedRegulationMode {
    open spec fn obeys_from_spec() -> bool {
        true
    }

    open spec fn from_spec(v: u8) -> Self {
        SpeedRegulationMode::from_raw(v)
    }
}

impl From<SpeedRegulationMode> for u8 {
    fn from(value: SpeedRegulationMode) -> (r: u8) {
        match value {
            SpeedRegulationMode::CruiseControl => 1,
            SpeedRegulationMode::AdaptiveCruiseControl => 3,
            SpeedRegulationMode::Unknown(raw) => raw,
        }
    }
}

impl FromSpecImpl<SpeedRegulationMode> for u8 {
    open spec fn obeys_from_spec() -> bool {
        true
    }

    open spec fn from_spec(v: SpeedRegulationMode) -> Self {
        v.raw()
    }
}

/// State of the speed regulation function.
#[derive(Debug, Clone, Copy, PartialEq, Eq)]
pub enum SpeedRegulationModeState {
    Standby,
    Up,
    /// A raw value with no known meaning.
    Unknown(u8),
}

impl SpeedRegulationModeState {
    /// The variant that a raw value stands for.
    pub open spec fn from_raw(raw: u8) -> Self {
        match raw {
            0 => SpeedRegulationModeState::Standby,
            1 => SpeedRegulationModeState::Up,
            _ => SpeedRegulationModeState::Unknown(raw),
        }
    }

    /// The raw value of a variant.
    pub open spec fn raw(self) -> u8 {
        match self {
            SpeedRegulationModeState::Standby => 0,
            SpeedRegulationModeState::Up => 1,
            SpeedRegulationModeState::Unknown(raw) => raw,
        }
    }

    /// The text of a variant: its name, with the raw value of an unknown one.
    #[verifier::opaque]
    pub open spec fn text(self) -> Seq<char> {
        match self {
            SpeedRegulationModeState::Standby => "Standby"@,
            SpeedRegulationModeState::Up => "Up"@,
            SpeedRegulationModeState::Unknown(raw) => "Unknown("@ + decimal_text(raw as nat) + ")"@,
        }
    }

    /// Each variant stands for its raw value, and its text is its name.
    pub proof fn lemma_variants()
        ensures
            SpeedRegulationModeState::from_raw(0) == SpeedRegulationModeState::Standby,
            SpeedRegulationModeState::from_raw(1) == SpeedRegulationModeState::Up,
            forall|raw: u8| raw != 0 && raw != 1 ==> #[trigger] SpeedRegulationModeState::from_raw(raw) == SpeedRegulationModeState::Unknown(raw),
            SpeedRegulationModeState::Standby.raw() == 0,
            SpeedRegulationModeState::Up.raw() == 1,
            forall|raw: u8| #[trigger] SpeedRegulationModeState::Unknown(raw).raw() == raw,
            SpeedRegulationModeState::Standby.text() == "Standby"@,
            SpeedRegulationModeState::Up.text() == "Up"@,
            forall|raw: u8| #[trigger] SpeedRegulationModeState::Unknown(raw).text() == "Unknown("@ + decimal_text(raw as nat) + ")"@,
    {
        reveal(SpeedRegulationModeState::text);
    }

    /// Appends the text of `self` to `s`.
    pub fn push_text(&self, s: &mut String)
        ensures
            final(s)@ == old(s)@ + self.text(),
    {
        proof {
            reveal(SpeedRegulationModeState::text);
        }
        match self {
            SpeedRegulationModeState::Standby => s.append("Standby"),
            SpeedRegulationModeState::Up => s.append("Up"),
            SpeedRegulationModeState::Unknown(raw) => {
                s.append("Unknown(");
                push_decimal(s, *raw as u64);
                s.append(")");
                assert(s@ =~= old(s)@ + self.text());
            },
        }
    }
}

impl From<u8> for SpeedRegulationModeState {
    fn from(raw: u8) -> (r: Self) {
        match raw {
            0 => SpeedRegulationModeState::Standby,
            1 => SpeedRegulationModeState::Up,
            _ => SpeedRegulationModeState::Unknown(raw),
        }
    }
}

impl FromSpecImpl<u8> for SpeedRegulationModeState {
    open spec fn obeys_from_spec() -> bool {
        true
    }

    open spec fn from_spec(v: u8) -> Self {
        SpeedRegulationModeState::from_raw(v)
    }
}

impl From<SpeedRegulationModeState> for u8 {
    fn from(value: SpeedRegulationModeState) -> (r: u8) {
        match value {
            SpeedRegulationModeState::Standby => 0,
            SpeedRegulationModeState::Up => 1,
            SpeedRegulationModeState::Unknown(raw) => raw,
        }
    }
}

impl FromSpecImpl<SpeedRegulationModeState> for u8 {
    open spec fn obeys_from_spec() -> bool {
        true
    }

    open spec fn from_spec(v: SpeedRegulationModeState) -> Self {
        v.raw()
    }
}

/// Speed regulation setting page request.
#[derive(Debug, Clone, Copy, PartialEq, Eq)]
pub enum SpeedRegulationSettingPage {
    Close,
    CruiseControl,
    /// A raw value with no known meaning.
    Unknown(u8),
}

impl SpeedRegulationSettingPage {
    /// The variant that a raw value stands for.
    pub open spec fn from_raw(raw: u8) -> Self {
        match raw {
            0 => SpeedRegulationSettingPage::Close,
            2 => SpeedRegulationSettingPage::CruiseControl,
            _ => SpeedRegulationSettingPage::Unknown(raw),
        }
    }

    /// The raw value of a variant.
    pub open spec fn raw(self) -> u8 {
        match self {
            SpeedRegulationSettingPage::Close => 0,
            SpeedRegulationSettingPage::CruiseControl => 2,
            SpeedRegulationSettingPage::Unknown(raw) => raw,
        }
    }

    /// The text of a variant: its name, with the raw value of an unknown one.
    #[verifier::opaque]
    pub open spec fn text(self) -> Seq<char> {
        match self {
            SpeedRegulationSettingPage::Close => "Close"@,
            SpeedRegulationSettingPage::CruiseControl => "CruiseControl"@,
            SpeedRegulationSettingPage::Unknown(raw) => "Unknown("@ + decimal_text(raw as nat) + ")"@,
        }
    }

    /// Each variant stands for its raw value, and its text is its name.
    pub proof fn lemma_variants()
        ensures
            SpeedRegulationSettingPage::from_raw(0) == SpeedRegulationSettingPage::Close,
            SpeedRegulationSettingPage::from_raw(2) == SpeedRegulationSettingPage::CruiseControl,
            forall|raw: u8| raw != 0 && raw != 2 ==> #[trigger] SpeedRegulationSettingPage::from_raw(raw) == SpeedRegulationSettingPage::Unknown(raw),
            SpeedRegulationSettingPage::Close.raw() == 0,
            SpeedRegulationSettingPage::CruiseControl.raw() == 2,
            forall|raw: u8| #[trigger] SpeedRegulationSettingPage::Unknown(raw).raw() == raw,
            SpeedRegulationSettingPage::Close.text() == "Close"@,
            SpeedRegulationSettingPage::CruiseControl.text() == "CruiseControl"@,
            forall|raw: u8| #[trigger] SpeedRegulationSettingPage::Unknown(raw).text() == "Unknown("@ + decimal_text(raw as nat) + ")"@,
    {
        reveal(SpeedRegulationSettingPage::text);
    }

    /// Appends the text of `self` to `s`.
    pub fn push_text(&self, s: &mut String)
        ensures
            final(s)@ == old(s)@ + self.text(),
    {
        proof {
            reveal(SpeedRegulationSettingPage::text);
        }
        match self {
            SpeedRegulationSettingPage::Close => s.append("Close"),
            SpeedRegulationSettingPage::CruiseControl => s.append("CruiseControl"),
            SpeedRegulationSettingPage::Unknown(raw) => {
                s.append("Unknown(");
                push_decimal(s, *raw as u64);
                s.append(")");
                assert(s@ =~= old(s)@ + self.text());
            },
        }
    }
}

impl From<u8> for SpeedRegulationSettingPage {
    fn from(raw: u8) -> (r: Self) {
        match raw {
            0 => SpeedRegulationSettingPage::Close,
            2 => SpeedRegulationSettingPage::CruiseControl,
            _ => SpeedRegulationSettingPage::Unknown(raw),
        }
    }
}

impl FromSpecImpl<u8> for SpeedRegulationSettingPage {
    open spec fn obeys_from_spec() -> bool {
        true
    }

    open spec fn from_spec(v: u8) -> Self {
        SpeedRegulationSettingPage::from_raw(v)
    }
}

impl From<SpeedRegulationSettingPage> for u8 {
    fn from(value: SpeedRegulationSettingPage) -> (r: u8) {
        match value {
            SpeedRegulationSettingPage::Close => 0,
            SpeedRegulationSettingPage::CruiseControl => 2,
            SpeedRegulationSettingPage::Unknown(raw) => raw,
        }
    }
}

impl FromSpecImpl<SpeedRegulationSettingPage> for u8 {
    open spec fn obeys_from_spec() -> bool {
        true
    }

    open spec fn from_spec(v: SpeedRegulationSettingPage) -> Self {
        v.raw()
    }
}

/// Validity of the vehicle speed value.
#[derive(Debug, Clone, Copy, PartialEq, Eq)]
pub enum SpeedValidity {
    Valid,
    /// A raw value with no known meaning.
    Unknown(u8),
}

impl SpeedValidity {
    /// The variant that a raw value stands for.
    pub open spec fn from_raw(raw: u8) -> Self {
        match raw {
            10 => SpeedValidity::Valid,
            _ => SpeedValidity::Unknown(raw),
        }
    }

    /// The raw value of a variant.
    pub open spec fn raw(self) -> u8 {
        match self {
            SpeedValidity::Valid => 10,
            SpeedValidity::Unknown(raw) => raw,
        }
    }

    /// The text of a variant: its name, with the raw value of an unknown one.
    #[verifier::opaque]
    pub open spec fn text(self) -> Seq<char> {
        match self {
            SpeedValidity::Valid => "Valid"@,
            SpeedValidity::Unknown(raw) => "Unknown("@ + decimal_text(raw as nat) + ")"@,
        }
    }

    /// Each variant stands for its raw value, and its text is its name.
    pub proof fn lemma_variants()
        ensures
            SpeedValidity::from_raw(10) == SpeedValidity::Valid,
            forall|raw: u8| raw != 10 ==> #[trigger] SpeedValidity::from_raw(raw) == SpeedValidity::Unknown(raw),
            SpeedValidity::Valid.raw() == 10,
            forall|raw: u8| #[trigger] SpeedValidity::Unknown(raw).raw() == raw,
            SpeedValidity::Valid.text() == "Valid"@,
            forall|raw: u8| #[trigger] SpeedValidity::Unknown(raw).text() == "Unknown("@ + decimal_text(raw as nat) + ")"@,
    {
        reveal(SpeedValidity::text);
    }

    /// Appends the text of `self` to `s`.
    pub fn push_text(&self, s: &mut String)
        ensures
            final(s)@ == old(s)@ + self.text(),
    {
        proof {
            reveal(SpeedValidity::text);
        }
        match self {
            SpeedValidity::Valid => s.append("Valid"),
            SpeedValidity::Unknown(raw) => {
                s.append("Unknown(");
                push_decimal(s, *raw as u64);
                s.append(")");
                assert(s@ =~= old(s)@ + self.text());
            },
        }
    }
}

impl From<u8> for SpeedValidity {
    fn from(raw: u8) -> (r: Self) {
        match raw {
            10 => SpeedValidity::Valid,
            _ => SpeedValidity::Unknown(raw),
        }
    }
}

impl FromSpecImpl<u8> for SpeedValidity {
    open spec fn obeys_from_spec() -> bool {
        true
    }

    open spec fn from_spec(v: u8) -> Self {
        SpeedValidity::from_raw(v)
    }
}

impl From<SpeedValidity> for u8 {
    fn from(value: SpeedValidity) -> (r: u8) {
        match value {
            SpeedValidity::Valid => 10,
            SpeedValidity::Unknown(raw) => raw,
        }
    }
}

impl FromSpecImpl<SpeedValidity> for u8 {
    open spec fn obeys_from_spec() -> bool {
        true
    }

    open spec fn from_spec(v: SpeedValidity) -> Self {
        v.raw()
    }
}

/// Type of a steering assistance fault.
#[derive(Debug, Clone, Copy, PartialEq, Eq)]
pub enum SteeringAssistanceFaultType {
    NoFault,
    G3,
    G3AndG4,
    /// A raw value with no known meaning.
    Unknown(u8),
}

impl SteeringAssistanceFaultType {
    /// The variant that a raw value stands for.
    pub open spec fn from_raw(raw: u8) -> Self {
        match raw {
            0 => SteeringAssistanceFaultType::NoFault,
            2 => SteeringAssistanceFaultType::G3,
            3 => SteeringAssistanceFaultType::G3AndG4,
            _ => SteeringAssistanceFaultType::Unknown(raw),
        }
    }

    /// The raw value of a variant.
    pub open spec fn raw(self) -> u8 {
        match self {
            SteeringAssistanceFaultType::NoFault => 0,
            SteeringAssistanceFaultType::G3 => 2,
            SteeringAssistanceFaultType::G3AndG4 => 3,
            SteeringAssistanceFaultType::Unknown(raw) => raw,
        }
    }

    /// The text of a variant: its name, with the raw value of an unknown one.
    #[verifier::opaque]
    pub open spec fn text(self) -> Seq<char> {
        match self {
            SteeringAssistanceFaultType::NoFault => "NoFault"@,
            SteeringAssistanceFaultType::G3 => "G3"@,
            SteeringAssistanceFaultType::G3AndG4 => "G3AndG4"@,
            SteeringAssistanceFaultType::Unknown(raw) => "Unknown("@ + decimal_text(raw as nat) + ")"@,
        }
    }

    /// Each variant stands for its raw value, and its text is its name.
    pub proof fn lemma_variants()
        ensures
            SteeringAssistanceFaultType::from_raw(0) == SteeringAssistanceFaultType::NoFault,
            SteeringAssistanceFaultType::from_raw(2) == SteeringAssistanceFaultType::G3,
            SteeringAssistanceFaultType::from_raw(3) == SteeringAssistanceFaultType::G3AndG4,
            forall|raw: u8| raw != 0 && raw != 2 && raw != 3 ==> #[trigger] SteeringAssistanceFaultType::from_raw(raw) == SteeringAssistanceFaultType::Unknown(raw),
            SteeringAssistanceFaultType::NoFault.raw() == 0,
            SteeringAssistanceFaultType::G3.raw() == 2,
            SteeringAssistanceFaultType::G3AndG4.raw() == 3,
            forall|raw: u8| #[trigger] SteeringAssistanceFaultType::Unknown(raw).raw() == raw,
            SteeringAssistanceFaultType::NoFault.text() == "NoFault"@,
            SteeringAssistanceFaultType::G3.text() == "G3"@,
            SteeringAssistanceFaultType::G3AndG4.text() == "G3AndG4"@,
            forall|raw: u8| #[trigger] SteeringAssistanceFaultType::Unknown(raw).text() == "Unknown("@ + decimal_text(raw as nat) + ")"@,
    {
        reveal(SteeringAssistanceFaultType::text);
    }

    /// Appends the text of `self` to `s`.
    pub fn push_text(&self, s: &mut String)
        ensures
            final(s)@ == old(s)@ + self.text(),
    {
        proof {
            reveal(SteeringAssistanceFaultType::text);
        }
        match self {
            SteeringAssistanceFaultType::NoFault => s.append("NoFault"),
            SteeringAssistanceFaultType::G3 => s.append("G3"),
            SteeringAssistanceFaultType::G3AndG4 => s.append("G3AndG4"),
            SteeringAssistanceFaultType::Unknown(raw) => {
                s.append("Unknown(");
                push_decimal(s, *raw as u64);
                s.append(")");
                assert(s@ =~= old(s)@ + self.text());
            },
        }
    }
}

impl From<u8> for SteeringAssistanceFaultType {
    fn from(raw: u8) -> (r: Self) {
        match raw {
            0 => SteeringAssistanceFaultType::NoFault,
            2 => SteeringAssistanceFaultType::G3,
            3 => SteeringAssistanceFaultType::G3AndG4,
            _ => SteeringAssistanceFaultType::Unknown(raw),
        }
    }
}

impl FromSpecImpl<u8> for SteeringAssistanceFaultType {
    open spec fn obeys_from_spec() -> bool {
        true
    }

    open spec fn from_spec(v: u8) -> Self {
        SteeringAssistanceFaultType::from_raw(v)
    }
}

impl From<SteeringAssistanceFaultType> for u8 {
    fn from(value: SteeringAssistanceFaultType) -> (r: u8) {
        match value {
            SteeringAssistanceFaultType::NoFault => 0,
            SteeringAssistanceFaultType::G3 => 2,
            SteeringAssistanceFaultType::G3AndG4 => 3,
            SteeringAssistanceFaultType::Unknown(raw) => raw,
        }
    }
}

impl FromSpecImpl<SteeringAssistanceFaultType> for u8 {
    open spec fn obeys_from_spec() -> bool {
        true
    }

    open spec fn from_spec(v: SteeringAssistanceFaultType) -> Self {
        v.raw()
    }
}

/// State of the steering assistance indicator.
#[derive(Debug, Clone, Copy, PartialEq, Eq)]
pub enum SteeringAssistanceIndicatorState {
    Off,
    Red,
    Orange,
    /// A raw value with no known meaning.
    Unknown(u8),
}

impl SteeringAssistanceIndicatorState {
    /// The variant that a raw value stands for.
    pub open spec fn from_raw(raw: u8) -> Self {
        match raw {
            0 => SteeringAssistanceIndicatorState::Off,
            1 => SteeringAssistanceIndicatorState::Red,
            2 => SteeringAssistanceIndicatorState::Orange,
            _ => SteeringAssistanceIndicatorState::Unknown(raw),
        }
    }

    /// The raw value of a variant.
    pub open spec fn raw(self) -> u8 {
        match self {
            SteeringAssistanceIndicatorState::Off => 0,
            SteeringAssistanceIndicatorState::Red => 1,
            SteeringAssistanceIndicatorState::Orange => 2,
            SteeringAssistanceIndicatorState::Unknown(raw) => raw,
        }
    }

    /// The text of a variant: its name, with the raw value of an unknown one.
    #[verifier::opaque]
    pub open spec fn text(self) -> Seq<char> {
        match self {
            SteeringAssistanceIndicatorState::Off => "Off"@,
            SteeringAssistanceIndicatorState::Red => "Red"@,
            SteeringAssistanceIndicatorState::Orange => "Orange"@,
            SteeringAssistanceIndicatorState::Unknown(raw) => "Unknown("@ + decimal_text(raw as nat) + ")"@,
        }
    }

    /// Each variant stands for its raw value, and its text is its name.
    pub proof fn lemma_variants()
        ensures
            SteeringAssistanceIndicatorState::from_raw(0) == SteeringAssistanceIndicatorState::Off,
            SteeringAssistanceIndicatorState::from_raw(1) == SteeringAssistanceIndicatorState::Red,
            SteeringAssistanceIndicatorState::from_raw(2) == SteeringAssistanceIndicatorState::Orange,
            forall|raw: u8| raw != 0 && raw != 1 && raw != 2 ==> #[trigger] SteeringAssistanceIndicatorState::from_raw(raw) == SteeringAssistanceIndicatorState::Unknown(raw),
            SteeringAssistanceIndicatorState::Off.raw() == 0,
            SteeringAssistanceIndicatorState::Red.raw() == 1,
            SteeringAssistanceIndicatorState::Orange.raw() == 2,
            forall|raw: u8| #[trigger] SteeringAssistanceIndicatorState::Unknown(raw).raw() == raw,
            SteeringAssistanceIndicatorState::Off.text() == "Off"@,
            SteeringAssistanceIndicatorState::Red.text() == "Red"@,
            SteeringAssistanceIndicatorState::Orange.text() == "Orange"@,
            forall|raw: u8| #[trigger] SteeringAssistanceIndicatorState::Unknown(raw).text() == "Unknown("@ + decimal_text(raw as nat) + ")"@,
    {
        reveal(SteeringAssistanceIndicatorState::text);
    }

    /// Appends the text of `self` to `s`.
    pub fn push_text(&self, s: &mut String)
        ensures
            final(s)@ == old(s)@ + self.text(),
    {
        proof {
            reveal(SteeringAssistanceIndicatorState::text);
        }
        match self {
            SteeringAssistanceIndicatorState::Off => s.append("Off"),
            SteeringAssistanceIndicatorState::Red => s.append("Red"),
            SteeringAssistanceIndicatorState::Orange => s.append("Orange"),
            SteeringAssistanceIndicatorState::Unknown(raw) => {
                s.append("Unknown(");
                push_decimal(s, *raw as u64);
                s.append(")");
                assert(s@ =~= old(s)@ + self.text());
            },
        }
    }
}

impl From<u8> for SteeringAssistanceIndicatorState {
    fn from(raw: u8) -> (r: Self) {
        match raw {
            0 => SteeringAssistanceIndicatorState::Off,
            1 => SteeringAssistanceIndicatorState::Red,
            2 => SteeringAssistanceIndicatorState::Orange,
            _ => SteeringAssistanceIndicatorState::Unknown(raw),
        }
    }
}

impl FromSpecImpl<u8> for SteeringAssistanceIndicatorState {
    open spec fn obeys_from_spec() -> bool {
        true
    }

    open spec fn from_spec(v: u8) -> Self {
        SteeringAssistanceIndicatorState::from_raw(v)
    }
}

impl From<SteeringAssistanceIndicatorState> for u8 {
    fn from(value: SteeringAssistanceIndicatorState) -> (r: u8) {
        match value {
            SteeringAssistanceIndicatorState::Off => 0,
            SteeringAssistanceIndicatorState::Red => 1,
            SteeringAssistanceIndicatorState::Orange => 2,
            SteeringAssistanceIndicatorState::Unknown(raw) => raw,
        }
    }
}

impl FromSpecImpl<SteeringAssistanceIndicatorState> for u8 {
    open spec fn obeys_from_spec() -> bool {
        true
    }

    open spec fn from_spec(v: SteeringAssistanceIndicatorState) -> Self {
        v.raw()
    }
}

/// Side of the steering wheel.
#[derive(Debug, Clone, Copy, PartialEq, Eq)]
pub enum SteeringWheelPosition {
    Left,
    /// A raw value with no known meaning.
    Unknown(u8),
}

impl SteeringWheelPosition {
    /// The variant that a raw value stands for.
    pub open spec fn from_raw(raw: u8) -> Self {
        match raw {
            2 => SteeringWheelPosition::Left,
            _ => SteeringWheelPosition::Unknown(raw),
        }
    }

    /// The raw value of a variant.
    pub open spec fn raw(self) -> u8 {
        match self {
            SteeringWheelPosition::Left => 2,
            SteeringWheelPosition::Unknown(raw) => raw,
        }
    }

    /// The text of a variant: its name, with the raw value of an unknown one.
    #[verifier::opaque]
    pub open spec fn text(self) -> Seq<char> {
        match self {
            SteeringWheelPosition::Left => "Left"@,
            SteeringWheelPosition::Unknown(raw) => "Unknown("@ + decimal_text(raw as nat) + ")"@,
        }
    }

    /// Each variant stands for its raw value, and its text is its name.
    pub proof fn lemma_variants()
        ensures
            SteeringWheelPosition::from_raw(2) == SteeringWheelPosition::Left,
            forall|raw: u8| raw != 2 ==> #[trigger] SteeringWheelPosition::from_raw(raw) == SteeringWheelPosition::Unknown(raw),
            SteeringWheelPosition::Left.raw() == 2,
            forall|raw: u8| #[trigger] SteeringWheelPosition::Unknown(raw).raw() == raw,
            SteeringWheelPosition::Left.text() == "Left"@,
            forall|raw: u8| #[trigger] SteeringWheelPosition::Unknown(raw).text() == "Unknown("@ + decimal_text(raw as nat) + ")"@,
    {
        reveal(SteeringWheelPosition::text);
    }

    /// Appends the text of `self` to `s`.
    pub fn push_text(&self, s: &mut String)
        ensures
            final(s)@ == old(s)@ + self.text(),
    {
        proof {
            reveal(SteeringWheelPosition::text);
        }
        match self {
            SteeringWheelPosition::Left => s.append("Left"),
            SteeringWheelPosition::Unknown(raw) => {
                s.append("Unknown(");
                push_decimal(s, *raw as u64);
                s.append(")");
                assert(s@ =~= old(s)@ + self.text());
            },
        }
    }
}

impl From<u8> for SteeringWheelPosition {
    fn from(raw: u8) -> (r: Self) {
        match raw {
            2 => SteeringWheelPosition::Left,
            _ => SteeringWheelPosition::Unknown(raw),
        }
    }
}

impl FromSpecImpl<u8> for SteeringWheelPosition {
    open spec fn obeys_from_spec() -> bool {
        true
    }

    open spec fn from_spec(v: u8) -> Self {
        SteeringWheelPosition::from_raw(v)
    }
}

impl From<SteeringWheelPosition> for u8 {
    fn from(value: SteeringWheelPosition) -> (r: u8) {
        match value {
            SteeringWheelPosition::Left => 2,
            SteeringWheelPosition::Unknown(raw) => raw,
        }
    }
}

impl FromSpecImpl<SteeringWheelPosition> for u8 {
    open spec fn obeys_from_spec() -> bool {
        true
    }

    open spec fn from_spec(v: SteeringWheelPosition) -> Self {
        v.raw()
    }
}

/// State of the under-inflation detection system.
#[derive(Debug, Clone, Copy, PartialEq, Eq)]
pub enum UnderInflationSystemState {
    SystemOk,
    /// A raw value with no known meaning.
    Unknown(u8),
}

impl UnderInflationSystemState {
    /// The variant that a raw value stands for.
    pub open spec fn from_raw(raw: u8) -> Self {
        match raw {
            7 => UnderInflationSystemState::SystemOk,
            _ => UnderInflationSystemState::Unknown(raw),
        }
    }

    /// The raw value of a variant.
    pub open spec fn raw(self) -> u8 {
        match self {
            UnderInflationSystemState::SystemOk => 7,
            UnderInflationSystemState::Unknown(raw) => raw,
        }
    }

    /// The text of a variant: its name, with the raw value of an unknown one.
    #[verifier::opaque]
    pub open spec fn text(self) -> Seq<char> {
        match self {
            UnderInflationSystemState::SystemOk => "SystemOk"@,
            UnderInflationSystemState::Unknown(raw) => "Unknown("@ + decimal_text(raw as nat) + ")"@,
        }
    }

    /// Each variant stands for its raw value, and its text is its name.
    pub proof fn lemma_variants()
        ensures
            UnderInflationSystemState::from_raw(7) == UnderInflationSystemState::SystemOk,
            forall|raw: u8| raw != 7 ==> #[trigger] UnderInflationSystemState::from_raw(raw) == UnderInflationSystemState::Unknown(raw),
            UnderInflationSystemState::SystemOk.raw() == 7,
            forall|raw: u8| #[trigger] UnderInflationSystemState::Unknown(raw).raw() == raw,
            UnderInflationSystemState::SystemOk.text() == "SystemOk"@,
            forall|raw: u8| #[trigger] UnderInflationSystemState::Unknown(raw).text() == "Unknown("@ + decimal_text(raw as nat) + ")"@,
    {
        reveal(UnderInflationSystemState::text);
    }

    /// Appends the text of `self` to `s`.
    pub fn push_text(&self, s: &mut String)
        ensures
            final(s)@ == old(s)@ + self.text(),
    {
        proof {
            reveal(UnderInflationSystemState::text);
        }
        match self {
            UnderInflationSystemState::SystemOk => s.append("SystemOk"),
            UnderInflationSystemState::Unknown(raw) => {
                s.append("Unknown(");
                push_decimal(s, *raw as u64);
                s.append(")");
                assert(s@ =~= old(s)@ + self.text());
            },
        }
    }
}

impl From<u8> for UnderInflationSystemState {
    fn from(raw: u8) -> (r: Self) {
        match raw {
            7 => UnderInflationSystemState::SystemOk,
            _ => UnderInflationSystemState::Unknown(raw),
        }
    }
}

impl FromSpecImpl<u8> for UnderInflationSystemState {
    open spec fn obeys_from_spec() -> bool {
        true
    }

    open spec fn from_spec(v: u8) -> Self {
        UnderInflationSystemState::from_raw(v)
    }
}

impl From<UnderInflationSystemState> for u8 {
    fn from(value: UnderInflationSystemState) -> (r: u8) {
        match value {
            UnderInflationSystemState::SystemOk => 7,
            UnderInflationSystemState::Unknown(raw) => raw,
        }
    }
}

impl FromSpecImpl<UnderInflationSystemState> for u8 {
    open spec fn obeys_from_spec() -> bool {
        true
    }

    open spec fn from_spec(v: UnderInflationSystemState) -> Self {
        v.raw()
    }
}

/// Configuration mode of the vehicle.
#[derive(Debug, Clone, Copy, PartialEq, Eq)]
pub enum VehicleConfigMode {
    Customer,
    Workshop,
    /// A raw value with no known meaning.
    Unknown(u8),
}

impl VehicleConfigMode {
    /// The variant that a raw value stands for.
    pub open spec fn from_raw(raw: u8) -> Self {
        match raw {
            4 => VehicleConfigMode::Customer,
            6 => VehicleConfigMode::Workshop,
            _ => VehicleConfigMode::Unknown(raw),
        }
    }

    /// The raw value of a variant.
    pub open spec fn raw(self) -> u8 {
        match self {
            VehicleConfigMode::Customer => 4,
            VehicleConfigMode::Workshop => 6,
            VehicleConfigMode::Unknown(raw) => raw,
        }
    }

    /// The text of a variant: its name, with the raw value of an unknown one.
    #[verifier::opaque]
    pub open spec fn text(self) -> Seq<char> {
        match self {
            VehicleConfigMode::Customer => "Customer"@,
            VehicleConfigMode::Workshop => "Workshop"@,
            VehicleConfigMode::Unknown(raw) => "Unknown("@ + decimal_text(raw as nat) + ")"@,
        }
    }

    /// Each variant stands for its raw value, and its text is its name.
    pub proof fn lemma_variants()
        ensures
            VehicleConfigMode::from_raw(4) == VehicleConfigMode::Customer,
            VehicleConfigMode::from_raw(6) == VehicleConfigMode::Workshop,
            forall|raw: u8| raw != 4 && raw != 6 ==> #[trigger] VehicleConfigMode::from_raw(raw) == VehicleConfigMode::Unknown(raw),
            VehicleConfigMode::Customer.raw() == 4,
            VehicleConfigMode::Workshop.raw() == 6,
            forall|raw: u8| #[trigger] VehicleConfigMode::Unknown(raw).raw() == raw,
            VehicleConfigMode::Customer.text() == "Customer"@,
            VehicleConfigMode::Workshop.text() == "Workshop"@,
            forall|raw: u8| #[trigger] VehicleConfigMode::Unknown(raw).text() == "Unknown("@ + decimal_text(raw as nat) + ")"@,
    {
        reveal(VehicleConfigMode::text);
    }

    /// Appends the text of `self` to `s`.
    pub fn push_text(&self, s: &mut String)
        ensures
            final(s)@ == old(s)@ + self.text(),
    {
        proof {
            reveal(VehicleConfigMode::text);
        }
        match self {
            VehicleConfigMode::Customer => s.append("Customer"),
            VehicleConfigMode::Workshop => s.append("Workshop"),
            VehicleConfigMode::Unknown(raw) => {
                s.append("Unknown(");
                push_decimal(s, *raw as u64);
                s.append(")");
                assert(s@ =~= old(s)@ + self.text());
            },
        }
    }
}

impl From<u8> for VehicleConfigMode {
    fn from(raw: u8) -> (r: Self) {
        match raw {
            4 => VehicleConfigMode::Customer,
            6 => VehicleConfigMode::Workshop,
            _ => VehicleConfigMode::Unknown(raw),
        }
    }
}

impl FromSpecImpl<u8> for VehicleConfigMode {
    open spec fn obeys_from_spec() -> bool {
        true
    }

    open spec fn from_spec(v: u8) -> Self {
        VehicleConfigMode::from_raw(v)
    }
}

impl From<VehicleConfigMode> for u8 {
    fn from(value: VehicleConfigMode) -> (r: u8) {
        match value {
            VehicleConfigMode::Customer => 4,
            VehicleConfigMode::Workshop => 6,
            VehicleConfigMode::Unknown(raw) => raw,
        }
    }
}

impl FromSpecImpl<VehicleConfigMode> for u8 {
    open spec fn obeys_from_spec() -> bool {
        true
    }

    open spec fn from_spec(v: VehicleConfigMode) -> Self {
        v.raw()
    }
}

/// Origin of the audio volume level.
#[derive(Debug, Clone, Copy, PartialEq, Eq)]
pub enum VolumeLevelOrigin {
    ThermalProtection,
    /// A raw value with no known meaning.
    Unknown(u8),
}

impl VolumeLevelOrigin {
    /// The variant that a raw value stands for.
    pub open spec fn from_raw(raw: u8) -> Self {
        match raw {
            4 => VolumeLevelOrigin::ThermalProtection,
            _ => VolumeLevelOrigin::Unknown(raw),
        }
    }

    /// The raw value of a variant.
    pub open spec fn raw(self) -> u8 {
        match self {
            VolumeLevelOrigin::ThermalProtection => 4,
            VolumeLevelOrigin::Unknown(raw) => raw,
        }
    }

    /// The text of a variant: its name, with the raw value of an unknown one.
    #[verifier::opaque]
    pub open spec fn text(self) -> Seq<char> {
        match self {
            VolumeLevelOrigin::ThermalProtection => "ThermalProtection"@,
            VolumeLevelOrigin::Unknown(raw) => "Unknown("@ + decimal_text(raw as nat) + ")"@,
        }
    }

    /// Each variant stands for its raw value, and its text is its name.
    pub proof fn lemma_variants()
        ensures
            VolumeLevelOrigin::from_raw(4) == VolumeLevelOrigin::ThermalProtection,
            forall|raw: u8| raw != 4 ==> #[trigger] VolumeLevelOrigin::from_raw(raw) == VolumeLevelOrigin::Unknown(raw),
            VolumeLevelOrigin::ThermalProtection.raw() == 4,
            forall|raw: u8| #[trigger] VolumeLevelOrigin::Unknown(raw).raw() == raw,
            VolumeLevelOrigin::ThermalProtection.text() == "ThermalProtection"@,
            forall|raw: u8| #[trigger] VolumeLevelOrigin::Unknown(raw).text() == "Unknown("@ + decimal_text(raw as nat) + ")"@,
    {
        reveal(VolumeLevelOrigin::text);
    }

    /// Appends the text of `self` to `s`.
    pub fn push_text(&self, s: &mut String)
        ensures
            final(s)@ == old(s)@ + self.text(),
    {
        proof {
            reveal(VolumeLevelOrigin::text);
        }
        match self {
            VolumeLevelOrigin::ThermalProtection => s.append("ThermalProtection"),
            VolumeLevelOrigin::Unknown(raw) => {
                s.append("Unknown(");
                push_decimal(s, *raw as u64);
                s.append(")");
                assert(s@ =~= old(s)@ + self.text());
            },
        }
    }
}

impl From<u8> for VolumeLevelOrigin {
    fn from(raw: u8) -> (r: Self) {
        match raw {
            4 => VolumeLevelOrigin::ThermalProtection,
            _ => VolumeLevelOrigin::Unknown(raw),
        }
    }
}

impl FromSpecImpl<u8> for VolumeLevelOrigin {
    open spec fn obeys_from_spec() -> bool {
        true
    }

    open spec fn from_spec(v: u8) -> Self {
        VolumeLevelOrigin::from_raw(v)
    }
}

impl From<VolumeLevelOrigin> for u8 {
    fn from(value: VolumeLevelOrigin) -> (r: u8) {
        match value {
            VolumeLevelOrigin::ThermalProtection => 4,
            VolumeLevelOrigin::Unknown(raw) => raw,
        }
    }
}

impl FromSpecImpl<VolumeLevelOrigin> for u8 {
    open spec fn obeys_from_spec() -> bool {
        true
    }

    open spec fn from_spec(v: VolumeLevelOrigin) -> Self {
        v.raw()
    }
}

/// Configuration mode of the vehicle state manager.
#[derive(Debug, Clone, Copy, PartialEq, Eq)]
pub enum VsmConfigMode {
    Customer,
    /// A raw value with no known meaning.
    Unknown(u8),
}

impl VsmConfigMode {
    /// The variant that a raw value stands for.
    pub open spec fn from_raw(raw: u8) -> Self {
        match raw {
            2 => VsmConfigMode::Customer,
            _ => VsmConfigMode::Unknown(raw),
        }
    }

    /// The raw value of a variant.
    pub open spec fn raw(self) -> u8 {
        match self {
            VsmConfigMode::Customer => 2,
            VsmConfigMode::Unknown(raw) => raw,
        }
    }

    /// The text of a variant: its name, with the raw value of an unknown one.
    #[verifier::opaque]
    pub open spec fn text(self) -> Seq<char> {
        match self {
            VsmConfigMode::Customer => "Customer"@,
            VsmConfigMode::Unknown(raw) => "Unknown("@ + decimal_text(raw as nat) + ")"@,
        }
    }

    /// Each variant stands for its raw value, and its text is its name.
    pub proof fn lemma_variants()
        ensures
            VsmConfigMode::from_raw(2) == VsmConfigMode::Customer,
            forall|raw: u8| raw != 2 ==> #[trigger] VsmConfigMode::from_raw(raw) == VsmConfigMode::Unknown(raw),
            VsmConfigMode::Customer.raw() == 2,
            forall|raw: u8| #[trigger] VsmConfigMode::Unknown(raw).raw() == raw,
            VsmConfigMode::Customer.text() == "Customer"@,
            forall|raw: u8| #[trigger] VsmConfigMode::Unknown(raw).text() == "Unknown("@ + decimal_text(raw as nat) + ")"@,
    {
        reveal(VsmConfigMode::text);
    }

    /// Appends the text of `self` to `s`.
    pub fn push_text(&self, s: &mut String)
        ensures
            final(s)@ == old(s)@ + self.text(),
    {
        proof {
            reveal(VsmConfigMode::text);
        }
        match self {
            VsmConfigMode::Customer => s.append("Customer"),
            VsmConfigMode::Unknown(raw) => {
                s.append("Unknown(");
                push_decimal(s, *raw as u64);
                s.append(")");
                assert(s@ =~= old(s)@ + self.text());
            },
        }
    }
}

impl From<u8> for VsmConfigMode {
    fn from(raw: u8) -> (r: Self) {
        match raw {
            2 => VsmConfigMode::Customer,
            _ => VsmConfigMode::Unknown(raw),
        }
    }
}

impl FromSpecImpl<u8> for VsmConfigMode {
    open spec fn obeys_from_spec() -> bool {
        true
    }

    open spec fn from_spec(v: u8) -> Self {
        VsmConfigMode::from_raw(v)
    }
}

impl From<VsmConfigMode> for u8 {
    fn from(value: VsmConfigMode) -> (r: u8) {
        match value {
            VsmConfigMode::Customer => 2,
            VsmConfigMode::Unknown(raw) => raw,
        }
    }
}

impl FromSpecImpl<VsmConfigMode> for u8 {
    open spec fn obeys_from_spec() -> bool {
        true
    }

    open spec fn from_spec(v: VsmConfigMode) -> Self {
        v.raw()
    }
}

/// Inflation state of a wheel.
#[derive(Debug, Clone, Copy, PartialEq, Eq)]
pub enum WheelState {
    Puncture,
    LightlyDeflated,
    HighlyDeflated,
    Normal,
    /// A raw value with no known meaning.
    Unknown(u8),
}

impl WheelState {
    /// The variant that a raw value stands for.
    pub open spec fn from_raw(raw: u8) -> Self {
        match raw {
            1 => WheelState::Puncture,
            2 => WheelState::LightlyDeflated,
            4 => WheelState::HighlyDeflated,
            16 => WheelState::Normal,
            _ => WheelState::Unknown(raw),
        }
    }

    /// The raw value of a variant.
    pub open spec fn raw(self) -> u8 {
        match self {
            WheelState::Puncture => 1,
            WheelState::LightlyDeflated => 2,
            WheelState::HighlyDeflated => 4,
            WheelState::Normal => 16,
            WheelState::Unknown(raw) => raw,
        }
    }

    /// The text of a variant: its name, with the raw value of an unknown one.
    #[verifier::opaque]
    pub open spec fn text(self) -> Seq<char> {
        match self {
            WheelState::Puncture => "Puncture"@,
            WheelState::LightlyDeflated => "LightlyDeflated"@,
            WheelState::HighlyDeflated => "HighlyDeflated"@,
            WheelState::Normal => "Normal"@,
            WheelState::Unknown(raw) => "Unknown("@ + decimal_text(raw as nat) + ")"@,
        }
    }

    /// Each variant stands for its raw value, and its text is its name.
    pub proof fn lemma_variants()
        ensures
            WheelState::from_raw(1) == WheelState::Puncture,
            WheelState::from_raw(2) == WheelState::LightlyDeflated,
            WheelState::from_raw(4) == WheelState::HighlyDeflated,
            WheelState::from_raw(16) == WheelState::Normal,
            forall|raw: u8| raw != 1 && raw != 2 && raw != 4 && raw != 16 ==> #[trigger] WheelState::from_raw(raw) == WheelState::Unknown(raw),
            WheelState::Puncture.raw() == 1,
            WheelState::LightlyDeflated.raw() == 2,
            WheelState::HighlyDeflated.raw() == 4,
            WheelState::Normal.raw() == 16,
            forall|raw: u8| #[trigger] WheelState::Unknown(raw).raw() == raw,
            WheelState::Puncture.text() == "Puncture"@,
            WheelState::LightlyDeflated.text() == "LightlyDeflated"@,
            WheelState::HighlyDeflated.text() == "HighlyDeflated"@,
            WheelState::Normal.text() == "Normal"@,
            forall|raw: u8| #[trigger] WheelState::Unknown(raw).text() == "Unknown("@ + decimal_text(raw as nat) + ")"@,
    {
        reveal(WheelState::text);
    }

    /// Appends the text of `self` to `s`.
    pub fn push_text(&self, s: &mut String)
        ensures
            final(s)@ == old(s)@ + self.text(),
    {
        proof {
            reveal(WheelState::text);
        }
        match self {
            WheelState::Puncture => s.append("Puncture"),
            WheelState::LightlyDeflated => s.append("LightlyDeflated"),
            WheelState::HighlyDeflated => s.append("HighlyDeflated"),
            WheelState::Normal => s.append("Normal"),
            WheelState::Unknown(raw) => {
                s.append("Unknown(");
                push_decimal(s, *raw as u64);
                s.append(")");
                assert(s@ =~= old(s)@ + self.text());
            },
        }
    }
}

impl From<u8> for WheelState {
    fn from(raw: u8) -> (r: Self) {
        match raw {
            1 => WheelState::Puncture,
            2 => WheelState::LightlyDeflated,
            4 => WheelState::HighlyDeflated,
            16 => WheelState::Normal,
            _ => WheelState::Unknown(raw),
        }
    }
}

impl FromSpecImpl<u8> for WheelState {
    open spec fn obeys_from_spec() -> bool {
        true
    }

    open spec fn from_spec(v: u8) -> Self {
        WheelState::from_raw(v)
    }
}

impl From<WheelState> for u8 {
    fn from(value: WheelState) -> (r: u8) {
        match value {
            WheelState::Puncture => 1,
            WheelState::LightlyDeflated => 2,
            WheelState::HighlyDeflated => 4,
            WheelState::Normal => 16,
            WheelState::Unknown(raw) => raw,
        }
    }
}

impl FromSpecImpl<WheelState> for u8 {
    open spec fn obeys_from_spec() -> bool {
        true
    }

    open spec fn from_spec(v: WheelState) -> Self {
        v.raw()
    }
}

} // verus!
