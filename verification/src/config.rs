//! Configuration settings carried by the frames.
use crate::text::{decimal_text, push_decimal};
use vstd::prelude::*;
use vstd::std_specs::convert::FromSpecImpl;

verus! {

/// Format of the clock.
///
/// The raw value is a 1-bit field; a raw value above it reads as
/// the last variant.
#[derive(Debug, Clone, Copy, PartialEq, Eq)]
pub enum ClockFormat {
    H12,
    H24,
}

impl ClockFormat {
    /// The variant that a raw value stands for.
    pub open spec fn from_raw(raw: u8) -> Self {
        match raw {
            0 => ClockFormat::H12,
            _ => ClockFormat::H24,
        }
    }

    /// The raw value of a variant.
    pub open spec fn raw(self) -> u8 {
        match self {
            ClockFormat::H12 => 0,
            ClockFormat::H24 => 1,
        }
    }

    /// The text of a variant: its name, with the raw value of an unknown one.
    #[verifier::opaque]
    pub open spec fn text(self) -> Seq<char> {
        match self {
            ClockFormat::H12 => "H12"@,
            ClockFormat::H24 => "H24"@,
        }
    }

    /// Each variant stands for its raw value, and its text is its name.
    pub proof fn lemma_variants()
        ensures
            ClockFormat::from_raw(0) == ClockFormat::H12,
            forall|raw: u8| raw != 0 ==> #[trigger] ClockFormat::from_raw(raw) == ClockFormat::H24,
            ClockFormat::H12.raw() == 0,
            ClockFormat::H24.raw() == 1,
            ClockFormat::H12.text() == "H12"@,
            ClockFormat::H24.text() == "H24"@,
    {
        reveal(ClockFormat::text);
    }

    /// Appends the text of `self` to `s`.
    pub fn push_text(&self, s: &mut String)
        ensures
            final(s)@ == old(s)@ + self.text(),
    {
        proof {
            reveal(ClockFormat::text);
        }
        match self {
            ClockFormat::H12 => s.append("H12"),
            ClockFormat::H24 => s.append("H24"),
        }
    }
}

impl From<u8> for ClockFormat {
    fn from(raw: u8) -> (r: Self) {
        match raw {
            0 => ClockFormat::H12,
            _ => ClockFormat::H24,
        }
    }
}

impl FromSpecImpl<u8> for ClockFormat {
    open spec fn obeys_from_spec() -> bool {
        true
    }

    open spec fn from_spec(v: u8) -> Self {
        ClockFormat::from_raw(v)
    }
}

impl From<ClockFormat> for u8 {
    fn from(value: ClockFormat) -> (r: u8) {
        match value {
            ClockFormat::H12 => 0,
            ClockFormat::H24 => 1,
        }
    }
}

impl FromSpecImpl<ClockFormat> for u8 {
    open spec fn obeys_from_spec() -> bool {
        true
    }

    open spec fn from_spec(v: ClockFormat) -> Self {
        v.raw()
    }
}

/// Sensibility of the collision alert.
#[derive(Debug, Clone, Copy, PartialEq, Eq)]
pub enum CollisionAlertSensibilityLevel {
    Close,
    Normal,
    Distant,
    /// A raw value with no known meaning.
    Unknown(u8),
}

impl CollisionAlertSensibilityLevel {
    /// Another name of [`CollisionAlertSensibilityLevel::Close`].
    pub const Level1: CollisionAlertSensibilityLevel = CollisionAlertSensibilityLevel::Close;

    /// Another name of [`CollisionAlertSensibilityLevel::Distant`].
    pub const Level3: CollisionAlertSensibilityLevel = CollisionAlertSensibilityLevel::Distant;

    /// The variant that a raw value stands for.
    pub open spec fn from_raw(raw: u8) -> Self {
        match raw {
            1 => CollisionAlertSensibilityLevel::Close,
            2 => CollisionAlertSensibilityLevel::Normal,
            3 => CollisionAlertSensibilityLevel::Distant,
            _ => CollisionAlertSensibilityLevel::Unknown(raw),
        }
    }

    /// The raw value of a variant.
    pub open spec fn raw(self) -> u8 {
        match self {
            CollisionAlertSensibilityLevel::Close => 1,
            CollisionAlertSensibilityLevel::Normal => 2,
            CollisionAlertSensibilityLevel::Distant => 3,
            CollisionAlertSensibilityLevel::Unknown(raw) => raw,
        }
    }

    /// The text of a variant: its name, with the raw value of an unknown one.
    #[verifier::opaque]
    pub open spec fn text(self) -> Seq<char> {
        match self {
            CollisionAlertSensibilityLevel::Close => "Close"@,
            CollisionAlertSensibilityLevel::Normal => "Normal"@,
            CollisionAlertSensibilityLevel::Distant => "Distant"@,
            CollisionAlertSensibilityLevel::Unknown(raw) => "Unknown("@ + decimal_text(raw as nat) + ")"@,
        }
    }

    /// Appends the text of `self` to `s`.
    pub fn push_text(&self, s: &mut String)
        ensures
            final(s)@ == old(s)@ + self.text(),
    {
        proof {
            reveal(CollisionAlertSensibilityLevel::text);
        }
        match self {
            CollisionAlertSensibilityLevel::Close => s.append("Close"),
            CollisionAlertSensibilityLevel::Normal => s.append("Normal"),
            CollisionAlertSensibilityLevel::Distant => s.append("Distant"),
            CollisionAlertSensibilityLevel::Unknown(raw) => {
                s.append("Unknown(");
                push_decimal(s, *raw as u64);
                s.append(")");
                assert(s@ =~= old(s)@ + self.text());
            },
        }
    }
}

impl From<u8> for CollisionAlertSensibilityLevel {
    fn from(raw: u8) -> (r: Self) {
        match raw {
            1 => CollisionAlertSensibilityLevel::Close,
            2 => CollisionAlertSensibilityLevel::Normal,
            3 => CollisionAlertSensibilityLevel::Distant,
            _ => CollisionAlertSensibilityLevel::Unknown(raw),
        }
    }
}

impl FromSpecImpl<u8> for CollisionAlertSensibilityLevel {
    open spec fn obeys_from_spec() -> bool {
        true
    }

    open spec fn from_spec(v: u8) -> Self {
        CollisionAlertSensibilityLevel::from_raw(v)
    }
}

impl From<CollisionAlertSensibilityLevel> for u8 {
    fn from(value: CollisionAlertSensibilityLevel) -> (r: u8) {
        match value {
            CollisionAlertSensibilityLevel::Close => 1,
            CollisionAlertSensibilityLevel::Normal => 2,
            CollisionAlertSensibilityLevel::Distant => 3,
            CollisionAlertSensibilityLevel::Unknown(raw) => raw,
        }
    }
}

impl FromSpecImpl<CollisionAlertSensibilityLevel> for u8 {
    open spec fn obeys_from_spec() -> bool {
        true
    }

    open spec fn from_spec(v: CollisionAlertSensibilityLevel) -> Self {
        v.raw()
    }
}

/// Availability of a configuration option.
#[derive(Debug, Clone, Copy, PartialEq, Eq)]
pub enum ConfigOption {
    UnselectableOption,
    SelectableOption,
    /// A raw value with no known meaning.
    Unknown(u8),
}

impl ConfigOption {
    /// The variant that a raw value stands for.
    pub open spec fn from_raw(raw: u8) -> Self {
        match raw {
            1 => ConfigOption::UnselectableOption,
            2 => ConfigOption::SelectableOption,
            _ => ConfigOption::Unknown(raw),
        }
    }

    /// The raw value of a variant.
    pub open spec fn raw(self) -> u8 {
        match self {
            ConfigOption::UnselectableOption => 1,
            ConfigOption::SelectableOption => 2,
            ConfigOption::Unknown(raw) => raw,
        }
    }

    /// The text of a variant: its name, with the raw value of an unknown one.
    #[verifier::opaque]
    pub open spec fn text(self) -> Seq<char> {
        match self {
            ConfigOption::UnselectableOption => "UnselectableOption"@,
            ConfigOption::SelectableOption => "SelectableOption"@,
            ConfigOption::Unknown(raw) => "Unknown("@ + decimal_text(raw as nat) + ")"@,
        }
    }

    /// Each variant stands for its raw value, and its text is its name.
    pub proof fn lemma_variants()
        ensures
            ConfigOption::from_raw(1) == ConfigOption::UnselectableOption,
            ConfigOption::from_raw(2) == ConfigOption::SelectableOption,
            forall|raw: u8| raw != 1 && raw != 2 ==> #[trigger] ConfigOption::from_raw(raw) == ConfigOption::Unknown(raw),
            ConfigOption::UnselectableOption.raw() == 1,
            ConfigOption::SelectableOption.raw() == 2,
            forall|raw: u8| #[trigger] ConfigOption::Unknown(raw).raw() == raw,
            ConfigOption::UnselectableOption.text() == "UnselectableOption"@,
            ConfigOption::SelectableOption.text() == "SelectableOption"@,
            forall|raw: u8| #[trigger] ConfigOption::Unknown(raw).text() == "Unknown("@ + decimal_text(raw as nat) + ")"@,
    {
        reveal(ConfigOption::text);
    }

    /// Appends the text of `self` to `s`.
    pub fn push_text(&self, s: &mut String)
        ensures
            final(s)@ == old(s)@ + self.text(),
    {
        proof {
            reveal(ConfigOption::text);
        }
        match self {
            ConfigOption::UnselectableOption => s.append("UnselectableOption"),
            ConfigOption::SelectableOption => s.append("SelectableOption"),
            ConfigOption::Unknown(raw) => {
                s.append("Unknown(");
                push_decimal(s, *raw as u64);
                s.append(")");
                assert(s@ =~= old(s)@ + self.text());
            },
        }
    }
}

impl From<u8> for ConfigOption {
    fn from(raw: u8) -> (r: Self) {
        match raw {
            1 => ConfigOption::UnselectableOption,
            2 => ConfigOption::SelectableOption,
            _ => ConfigOption::Unknown(raw),
        }
    }
}

impl FromSpecImpl<u8> for ConfigOption {
    open spec fn obeys_from_spec() -> bool {
        true
    }

    open spec fn from_spec(v: u8) -> Self {
        ConfigOption::from_raw(v)
    }
}

impl From<ConfigOption> for u8 {
    fn from(value: ConfigOption) -> (r: u8) {
        match value {
            ConfigOption::UnselectableOption => 1,
            ConfigOption::SelectableOption => 2,
            ConfigOption::Unknown(raw) => raw,
        }
    }
}

impl FromSpecImpl<ConfigOption> for u8 {
    open spec fn obeys_from_spec() -> bool {
        true
    }

    open spec fn from_spec(v: ConfigOption) -> Self {
        v.raw()
    }
}

/// Action of the configurable key.
#[derive(Debug, Clone, Copy, PartialEq, Eq)]
pub enum ConfigurableKeyAction2010 {
    CeilingLight,
    ClusterCustomization,
    /// A raw value with no known meaning.
    Unknown(u8),
}

impl ConfigurableKeyAction2010 {
    /// The variant that a raw value stands for.
    pub open spec fn from_raw(raw: u8) -> Self {
        match raw {
            0 => ConfigurableKeyAction2010::CeilingLight,
            3 => ConfigurableKeyAction2010::ClusterCustomization,
            _ => ConfigurableKeyAction2010::Unknown(raw),
        }
    }

    /// The raw value of a variant.
    pub open spec fn raw(self) -> u8 {
        match self {
            ConfigurableKeyAction2010::CeilingLight => 0,
            ConfigurableKeyAction2010::ClusterCustomization => 3,
            ConfigurableKeyAction2010::Unknown(raw) => raw,
        }
    }

    /// The text of a variant: its name, with the raw value of an unknown one.
    #[verifier::opaque]
    pub open spec fn text(self) -> Seq<char> {
        match self {
            ConfigurableKeyAction2010::CeilingLight => "CeilingLight"@,
            ConfigurableKeyAction2010::ClusterCustomization => "ClusterCustomization"@,
            ConfigurableKeyAction2010::Unknown(raw) => "Unknown("@ + decimal_text(raw as nat) + ")"@,
        }
    }

    /// Each variant stands for its raw value, and its text is its name.
    pub proof fn lemma_variants()
        ensures
            ConfigurableKeyAction2010::from_raw(0) == ConfigurableKeyAction2010::CeilingLight,
            ConfigurableKeyAction2010::from_raw(3) == ConfigurableKeyAction2010::ClusterCustomization,
            forall|raw: u8| raw != 0 && raw != 3 ==> #[trigger] ConfigurableKeyAction2010::from_raw(raw) == ConfigurableKeyAction2010::Unknown(raw),
            ConfigurableKeyAction2010::CeilingLight.raw() == 0,
            ConfigurableKeyAction2010::ClusterCustomization.raw() == 3,
            forall|raw: u8| #[trigger] ConfigurableKeyAction2010::Unknown(raw).raw() == raw,
            ConfigurableKeyAction2010::CeilingLight.text() == "CeilingLight"@,
            ConfigurableKeyAction2010::ClusterCustomization.text() == "ClusterCustomization"@,
            forall|raw: u8| #[trigger] ConfigurableKeyAction2010::Unknown(raw).text() == "Unknown("@ + decimal_text(raw as nat) + ")"@,
    {
        reveal(ConfigurableKeyAction2010::text);
    }

    /// Appends the text of `self` to `s`.
    pub fn push_text(&self, s: &mut String)
        ensures
            final(s)@ == old(s)@ + self.text(),
    {
        proof {
            reveal(ConfigurableKeyAction2010::text);
        }
        match self {
            ConfigurableKeyAction2010::CeilingLight => s.append("CeilingLight"),
            ConfigurableKeyAction2010::ClusterCustomization => s.append("ClusterCustomization"),
            ConfigurableKeyAction2010::Unknown(raw) => {
                s.append("Unknown(");
                push_decimal(s, *raw as u64);
                s.append(")");
                assert(s@ =~= old(s)@ + self.text());
            },
        }
    }
}

impl From<u8> for ConfigurableKeyAction2010 {
    fn from(raw: u8) -> (r: Self) {
        match raw {
            0 => ConfigurableKeyAction2010::CeilingLight,
            3 => ConfigurableKeyAction2010::ClusterCustomization,
            _ => ConfigurableKeyAction2010::Unknown(raw),
        }
    }
}

impl FromSpecImpl<u8> for ConfigurableKeyAction2010 {
    open spec fn obeys_from_spec() -> bool {
        true
    }

    open spec fn from_spec(v: u8) -> Self {
        ConfigurableKeyAction2010::from_raw(v)
    }
}

impl From<ConfigurableKeyAction2010> for u8 {
    fn from(value: ConfigurableKeyAction2010) -> (r: u8) {
        match value {
            ConfigurableKeyAction2010::CeilingLight => 0,
            ConfigurableKeyAction2010::ClusterCustomization => 3,
            ConfigurableKeyAction2010::Unknown(raw) => raw,
        }
    }
}

impl FromSpecImpl<ConfigurableKeyAction2010> for u8 {
    open spec fn obeys_from_spec() -> bool {
        true
    }

    open spec fn from_spec(v: ConfigurableKeyAction2010) -> Self {
        v.raw()
    }
}

/// Unit of the fuel consumption.
///
/// The raw value is a 1-bit field; a raw value above it reads as
/// the last variant.
#[derive(Debug, Clone, Copy, PartialEq, Eq)]
pub enum ConsumptionUnit {
    VolumePerDistance,
    DistancePerVolume,
}

impl ConsumptionUnit {
    /// The variant that a raw value stands for.
    pub open spec fn from_raw(raw: u8) -> Self {
        match raw {
            0 => ConsumptionUnit::VolumePerDistance,
            _ => ConsumptionUnit::DistancePerVolume,
        }
    }

    /// The raw value of a variant.
    pub open spec fn raw(self) -> u8 {
        match self {
            ConsumptionUnit::VolumePerDistance => 0,
            ConsumptionUnit::DistancePerVolume => 1,
        }
    }

    /// The text of a variant: its name, with the raw value of an unknown one.
    #[verifier::opaque]
    pub open spec fn text(self) -> Seq<char> {
        match self {
            ConsumptionUnit::VolumePerDistance => "VolumePerDistance"@,
            ConsumptionUnit::DistancePerVolume => "DistancePerVolume"@,
        }
    }

    /// Each variant stands for its raw value, and its text is its name.
    pub proof fn lemma_variants()
        ensures
            ConsumptionUnit::from_raw(0) == ConsumptionUnit::VolumePerDistance,
            forall|raw: u8| raw != 0 ==> #[trigger] ConsumptionUnit::from_raw(raw) == ConsumptionUnit::DistancePerVolume,
            ConsumptionUnit::VolumePerDistance.raw() == 0,
            ConsumptionUnit::DistancePerVolume.raw() == 1,
            ConsumptionUnit::VolumePerDistance.text() == "VolumePerDistance"@,
            ConsumptionUnit::DistancePerVolume.text() == "DistancePerVolume"@,
    {
        reveal(ConsumptionUnit::text);
    }

    /// Appends the text of `self` to `s`.
    pub fn push_text(&self, s: &mut String)
        ensures
            final(s)@ == old(s)@ + self.text(),
    {
        proof {
            reveal(ConsumptionUnit::text);
        }
        match self {
            ConsumptionUnit::VolumePerDistance => s.append("VolumePerDistance"),
            ConsumptionUnit::DistancePerVolume => s.append("DistancePerVolume"),
        }
    }
}

impl From<u8> for ConsumptionUnit {
    fn from(raw: u8) -> (r: Self) {
        match raw {
            0 => ConsumptionUnit::VolumePerDistance,
            _ => ConsumptionUnit::DistancePerVolume,
        }
    }
}

impl FromSpecImpl<u8> for ConsumptionUnit {
    open spec fn obeys_from_spec() -> bool {
        true
    }

    open spec fn from_spec(v: u8) -> Self {
        ConsumptionUnit::from_raw(v)
    }
}

impl From<ConsumptionUnit> for u8 {
    fn from(value: ConsumptionUnit) -> (r: u8) {
        match value {
            ConsumptionUnit::VolumePerDistance => 0,
            ConsumptionUnit::DistancePerVolume => 1,
        }
    }
}

impl FromSpecImpl<ConsumptionUnit> for u8 {
    open spec fn obeys_from_spec() -> bool {
        true
    }

    open spec fn from_spec(v: ConsumptionUnit) -> Self {
        v.raw()
    }
}

/// Display mode of an indicator.
///
/// The raw value is a 1-bit field; a raw value above it reads as
/// the last variant.
#[derive(Debug, Clone, Copy, PartialEq, Eq)]
pub enum DisplayMode {
    Steady,
    Blinking,
}

impl DisplayMode {
    /// The variant that a raw value stands for.
    pub open spec fn from_raw(raw: u8) -> Self {
        match raw {
            0 => DisplayMode::Steady,
            _ => DisplayMode::Blinking,
        }
    }

    /// The raw value of a variant.
    pub open spec fn raw(self) -> u8 {
        match self {
            DisplayMode::Steady => 0,
            DisplayMode::Blinking => 1,
        }
    }

    /// The text of a variant: its name, with the raw value of an unknown one.
    #[verifier::opaque]
    pub open spec fn text(self) -> Seq<char> {
        match self {
            DisplayMode::Steady => "Steady"@,
            DisplayMode::Blinking => "Blinking"@,
        }
    }

    /// Each variant stands for its raw value, and its text is its name.
    pub proof fn lemma_variants()
        ensures
            DisplayMode::from_raw(0) == DisplayMode::Steady,
            forall|raw: u8| raw != 0 ==> #[trigger] DisplayMode::from_raw(raw) == DisplayMode::Blinking,
            DisplayMode::Steady.raw() == 0,
            DisplayMode::Blinking.raw() == 1,
            DisplayMode::Steady.text() == "Steady"@,
            DisplayMode::Blinking.text() == "Blinking"@,
    {
        reveal(DisplayMode::text);
    }

    /// Appends the text of `self` to `s`.
    pub fn push_text(&self, s: &mut String)
        ensures
            final(s)@ == old(s)@ + self.text(),
    {
        proof {
            reveal(DisplayMode::text);
        }
        match self {
            DisplayMode::Steady => s.append("Steady"),
            DisplayMode::Blinking => s.append("Blinking"),
        }
    }
}

impl From<u8> for DisplayMode {
    fn from(raw: u8) -> (r: Self) {
        match raw {
            0 => DisplayMode::Steady,
            _ => DisplayMode::Blinking,
        }
    }
}

impl FromSpecImpl<u8> for DisplayMode {
    open spec fn obeys_from_spec() -> bool {
        true
    }

    open spec fn from_spec(v: u8) -> Self {
        DisplayMode::from_raw(v)
    }
}

impl From<DisplayMode> for u8 {
    fn from(value: DisplayMode) -> (r: u8) {
        match value {
            DisplayMode::Steady => 0,
            DisplayMode::Blinking => 1,
        }
    }
}

impl FromSpecImpl<DisplayMode> for u8 {
    open spec fn obeys_from_spec() -> bool {
        true
    }

    open spec fn from_spec(v: DisplayMode) -> Self {
        v.raw()
    }
}

/// Unit of distances.
///
/// The raw value is a 1-bit field; a raw value above it reads as
/// the last variant.
#[derive(Debug, Clone, Copy, PartialEq, Eq)]
pub enum DistanceUnit {
    Kilometer,
    Mile,
}

impl DistanceUnit {
    /// The variant that a raw value stands for.
    pub open spec fn from_raw(raw: u8) -> Self {
        match raw {
            0 => DistanceUnit::Kilometer,
            _ => DistanceUnit::Mile,
        }
    }

    /// The raw value of a variant.
    pub open spec fn raw(self) -> u8 {
        match self {
            DistanceUnit::Kilometer => 0,
            DistanceUnit::Mile => 1,
        }
    }

    /// The text of a variant: its name, with the raw value of an unknown one.
    #[verifier::opaque]
    pub open spec fn text(self) -> Seq<char> {
        match self {
            DistanceUnit::Kilometer => "Kilometer"@,
            DistanceUnit::Mile => "Mile"@,
        }
    }

    /// Each variant stands for its raw value, and its text is its name.
    pub proof fn lemma_variants()
        ensures
            DistanceUnit::from_raw(0) == DistanceUnit::Kilometer,
            forall|raw: u8| raw != 0 ==> #[trigger] DistanceUnit::from_raw(raw) == DistanceUnit::Mile,
            DistanceUnit::Kilometer.raw() == 0,
            DistanceUnit::Mile.raw() == 1,
            DistanceUnit::Kilometer.text() == "Kilometer"@,
            DistanceUnit::Mile.text() == "Mile"@,
    {
        reveal(DistanceUnit::text);
    }

    /// Appends the text of `self` to `s`.
    pub fn push_text(&self, s: &mut String)
        ensures
            final(s)@ == old(s)@ + self.text(),
    {
        proof {
            reveal(DistanceUnit::text);
        }
        match self {
            DistanceUnit::Kilometer => s.append("Kilometer"),
            DistanceUnit::Mile => s.append("Mile"),
        }
    }
}

impl From<u8> for DistanceUnit {
    fn from(raw: u8) -> (r: Self) {
        match raw {
            0 => DistanceUnit::Kilometer,
            _ => DistanceUnit::Mile,
        }
    }
}

impl FromSpecImpl<u8> for DistanceUnit {
    open spec fn obeys_from_spec() -> bool {
        true
    }

    open spec fn from_spec(v: u8) -> Self {
        DistanceUnit::from_raw(v)
    }
}

impl From<DistanceUnit> for u8 {
    fn from(value: DistanceUnit) -> (r: u8) {
        match value {
            DistanceUnit::Kilometer => 0,
            DistanceUnit::Mile => 1,
        }
    }
}

impl FromSpecImpl<DistanceUnit> for u8 {
    open spec fn obeys_from_spec() -> bool {
        true
    }

    open spec fn from_spec(v: DistanceUnit) -> Self {
        v.raw()
    }
}

/// Language of the displays.
#[derive(Debug, Clone, Copy, PartialEq, Eq)]
pub enum Language {
    French,
    English,
    /// A raw value with no known meaning.
    Unknown(u8),
}

impl Language {
    /// The variant that a raw value stands for.
    pub open spec fn from_raw(raw: u8) -> Self {
        match raw {
            0 => Language::French,
            1 => Language::English,
            _ => Language::Unknown(raw),
        }
    }

    /// The raw value of a variant.
    pub open spec fn raw(self) -> u8 {
        match self {
            Language::French => 0,
            Language::English => 1,
            Language::Unknown(raw) => raw,
        }
    }

    /// The text of a variant: its name, with the raw value of an unknown one.
    #[verifier::opaque]
    pub open spec fn text(self) -> Seq<char> {
        match self {
            Language::French => "French"@,
            Language::English => "English"@,
            Language::Unknown(raw) => "Unknown("@ + decimal_text(raw as nat) + ")"@,
        }
    }

    /// Each variant stands for its raw value, and its text is its name.
    pub proof fn lemma_variants()
        ensures
            Language::from_raw(0) == Language::French,
            Language::from_raw(1) == Language::English,
            forall|raw: u8| raw != 0 && raw != 1 ==> #[trigger] Language::from_raw(raw) == Language::Unknown(raw),
            Language::French.raw() == 0,
            Language::English.raw() == 1,
            forall|raw: u8| #[trigger] Language::Unknown(raw).raw() == raw,
            Language::French.text() == "French"@,
            Language::English.text() == "English"@,
            forall|raw: u8| #[trigger] Language::Unknown(raw).text() == "Unknown("@ + decimal_text(raw as nat) + ")"@,
    {
        reveal(Language::text);
    }

    /// Appends the text of `self` to `s`.
    pub fn push_text(&self, s: &mut String)
        ensures
            final(s)@ == old(s)@ + self.text(),
    {
        proof {
            reveal(Language::text);
        }
        match self {
            Language::French => s.append("French"),
            Language::English => s.append("English"),
            Language::Unknown(raw) => {
                s.append("Unknown(");
                push_decimal(s, *raw as u64);
                s.append(")");
                assert(s@ =~= old(s)@ + self.text());
            },
        }
    }
}

impl From<u8> for Language {
    fn from(raw: u8) -> (r: Self) {
        match raw {
            0 => Language::French,
            1 => Language::English,
            _ => Language::Unknown(raw),
        }
    }
}

impl FromSpecImpl<u8> for Language {
    open spec fn obeys_from_spec() -> bool {
        true
    }

    open spec fn from_spec(v: u8) -> Self {
        Language::from_raw(v)
    }
}

impl From<Language> for u8 {
    fn from(value: Language) -> (r: u8) {
        match value {
            Language::French => 0,
            Language::English => 1,
            Language::Unknown(raw) => raw,
        }
    }
}

impl FromSpecImpl<Language> for u8 {
    open spec fn obeys_from_spec() -> bool {
        true
    }

    open spec fn from_spec(v: Language) -> Self {
        v.raw()
    }
}

/// Duration of a lighting function.
#[derive(Debug, Clone, Copy, PartialEq, Eq)]
pub enum LightingDuration {
    ThirtySeconds,
    SixtySeconds,
    /// A raw value with no known meaning.
    Unknown(u8),
}

impl LightingDuration {
    /// The variant that a raw value stands for.
    pub open spec fn from_raw(raw: u8) -> Self {
        match raw {
            1 => LightingDuration::ThirtySeconds,
            2 => LightingDuration::SixtySeconds,
            _ => LightingDuration::Unknown(raw),
        }
    }

    /// The raw value of a variant.
    pub open spec fn raw(self) -> u8 {
        match self {
            LightingDuration::ThirtySeconds => 1,
            LightingDuration::SixtySeconds => 2,
            LightingDuration::Unknown(raw) => raw,
        }
    }

    /// The text of a variant: its name, with the raw value of an unknown one.
    #[verifier::opaque]
    pub open spec fn text(self) -> Seq<char> {
        match self {
            LightingDuration::ThirtySeconds => "ThirtySeconds"@,
            LightingDuration::SixtySeconds => "SixtySeconds"@,
            LightingDuration::Unknown(raw) => "Unknown("@ + decimal_text(raw as nat) + ")"@,
        }
    }

    /// Each variant stands for its raw value, and its text is its name.
    pub proof fn lemma_variants()
        ensures
            LightingDuration::from_raw(1) == LightingDuration::ThirtySeconds,
            LightingDuration::from_raw(2) == LightingDuration::SixtySeconds,
            forall|raw: u8| raw != 1 && raw != 2 ==> #[trigger] LightingDuration::from_raw(raw) == LightingDuration::Unknown(raw),
            LightingDuration::ThirtySeconds.raw() == 1,
            LightingDuration::SixtySeconds.raw() == 2,
            forall|raw: u8| #[trigger] LightingDuration::Unknown(raw).raw() == raw,
            LightingDuration::ThirtySeconds.text() == "ThirtySeconds"@,
            LightingDuration::SixtySeconds.text() == "SixtySeconds"@,
            forall|raw: u8| #[trigger] LightingDuration::Unknown(raw).text() == "Unknown("@ + decimal_text(raw as nat) + ")"@,
    {
        reveal(LightingDuration::text);
    }

    /// Appends the text of `self` to `s`.
    pub fn push_text(&self, s: &mut String)
        ensures
            final(s)@ == old(s)@ + self.text(),
    {
        proof {
            reveal(LightingDuration::text);
        }
        match self {
            LightingDuration::ThirtySeconds => s.append("ThirtySeconds"),
            LightingDuration::SixtySeconds => s.append("SixtySeconds"),
            LightingDuration::Unknown(raw) => {
                s.append("Unknown(");
                push_decimal(s, *raw as u64);
                s.append(")");
                assert(s@ =~= old(s)@ + self.text());
            },
        }
    }
}

impl From<u8> for LightingDuration {
    fn from(raw: u8) -> (r: Self) {
        match raw {
            1 => LightingDuration::ThirtySeconds,
            2 => LightingDuration::SixtySeconds,
            _ => LightingDuration::Unknown(raw),
        }
    }
}

impl FromSpecImpl<u8> for LightingDuration {
    open spec fn obeys_from_spec() -> bool {
        true
    }

    open spec fn from_spec(v: u8) -> Self {
        LightingDuration::from_raw(v)
    }
}

impl From<LightingDuration> for u8 {
    fn from(value: LightingDuration) -> (r: u8) {
        match value {
            LightingDuration::ThirtySeconds => 1,
            LightingDuration::SixtySeconds => 2,
            LightingDuration::Unknown(raw) => raw,
        }
    }
}

impl FromSpecImpl<LightingDuration> for u8 {
    open spec fn obeys_from_spec() -> bool {
        true
    }

    open spec fn from_spec(v: LightingDuration) -> Self {
        v.raw()
    }
}

/// Duration of a lighting function.
#[derive(Debug, Clone, Copy, PartialEq, Eq)]
pub enum LightingDuration2010 {
    FifteenSeconds,
    ThirtySeconds,
    SixtySeconds,
    /// A raw value with no known meaning.
    Unknown(u8),
}

impl LightingDuration2010 {
    /// The variant that a raw value stands for.
    pub open spec fn from_raw(raw: u8) -> Self {
        match raw {
            0 => LightingDuration2010::FifteenSeconds,
            1 => LightingDuration2010::ThirtySeconds,
            2 => LightingDuration2010::SixtySeconds,
            _ => LightingDuration2010::Unknown(raw),
        }
    }

    /// The raw value of a variant.
    pub open spec fn raw(self) -> u8 {
        match self {
            LightingDuration2010::FifteenSeconds => 0,
            LightingDuration2010::ThirtySeconds => 1,
            LightingDuration2010::SixtySeconds => 2,
            LightingDuration2010::Unknown(raw) => raw,
        }
    }

    /// The text of a variant: its name, with the raw value of an unknown one.
    #[verifier::opaque]
    pub open spec fn text(self) -> Seq<char> {
        match self {
            LightingDuration2010::FifteenSeconds => "FifteenSeconds"@,
            LightingDuration2010::ThirtySeconds => "ThirtySeconds"@,
            LightingDuration2010::SixtySeconds => "SixtySeconds"@,
            LightingDuration2010::Unknown(raw) => "Unknown("@ + decimal_text(raw as nat) + ")"@,
        }
    }

    /// Each variant stands for its raw value, and its text is its name.
    pub proof fn lemma_variants()
        ensures
            LightingDuration2010::from_raw(0) == LightingDuration2010::FifteenSeconds,
            LightingDuration2010::from_raw(1) == LightingDuration2010::ThirtySeconds,
            LightingDuration2010::from_raw(2) == LightingDuration2010::SixtySeconds,
            forall|raw: u8| raw != 0 && raw != 1 && raw != 2 ==> #[trigger] LightingDuration2010::from_raw(raw) == LightingDuration2010::Unknown(raw),
            LightingDuration2010::FifteenSeconds.raw() == 0,
            LightingDuration2010::ThirtySeconds.raw() == 1,
            LightingDuration2010::SixtySeconds.raw() == 2,
            forall|raw: u8| #[trigger] LightingDuration2010::Unknown(raw).raw() == raw,
            LightingDuration2010::FifteenSeconds.text() == "FifteenSeconds"@,
            LightingDuration2010::ThirtySeconds.text() == "ThirtySeconds"@,
            LightingDuration2010::SixtySeconds.text() == "SixtySeconds"@,
            forall|raw: u8| #[trigger] LightingDuration2010::Unknown(raw).text() == "Unknown("@ + decimal_text(raw as nat) + ")"@,
    {
        reveal(LightingDuration2010::text);
    }

    /// Appends the text of `self` to `s`.
    pub fn push_text(&self, s: &mut String)
        ensures
            final(s)@ == old(s)@ + self.text(),
    {
        proof {
            reveal(LightingDuration2010::text);
        }
        match self {
            LightingDuration2010::FifteenSeconds => s.append("FifteenSeconds"),
            LightingDuration2010::ThirtySeconds => s.append("ThirtySeconds"),
            LightingDuration2010::SixtySeconds => s.append("SixtySeconds"),
            LightingDuration2010::Unknown(raw) => {
                s.append("Unknown(");
                push_decimal(s, *raw as u64);
                s.append(")");
                assert(s@ =~= old(s)@ + self.text());
            },
        }
    }
}

impl From<u8> for LightingDuration2010 {
    fn from(raw: u8) -> (r: Self) {
        match raw {
            0 => LightingDuration2010::FifteenSeconds,
            1 => LightingDuration2010::ThirtySeconds,
            2 => LightingDuration2010::SixtySeconds,
            _ => LightingDuration2010::Unknown(raw),
        }
    }
}

impl FromSpecImpl<u8> for LightingDuration2010 {
    open spec fn obeys_from_spec() -> bool {
        true
    }

    open spec fn from_spec(v: u8) -> Self {
        LightingDuration2010::from_raw(v)
    }
}

impl From<LightingDuration2010> for u8 {
    fn from(value: LightingDuration2010) -> (r: u8) {
        match value {
            LightingDuration2010::FifteenSeconds => 0,
            LightingDuration2010::ThirtySeconds => 1,
            LightingDuration2010::SixtySeconds => 2,
            LightingDuration2010::Unknown(raw) => raw,
        }
    }
}

impl FromSpecImpl<LightingDuration2010> for u8 {
    open spec fn obeys_from_spec() -> bool {
        true
    }

    open spec fn from_spec(v: LightingDuration2010) -> Self {
        v.raw()
    }
}

/// Level of the mood lighting.
#[derive(Debug, Clone, Copy, PartialEq, Eq)]
pub enum MoodLightingLevel {
    Level1,
    Level5,
    /// A raw value with no known meaning.
    Unknown(u8),
}

impl MoodLightingLevel {
    /// The variant that a raw value stands for.
    pub open spec fn from_raw(raw: u8) -> Self {
        match raw {
            0 => MoodLightingLevel::Level1,
            5 => MoodLightingLevel::Level5,
            _ => MoodLightingLevel::Unknown(raw),
        }
    }

    /// The raw value of a variant.
    pub open spec fn raw(self) -> u8 {
        match self {
            MoodLightingLevel::Level1 => 0,
            MoodLightingLevel::Level5 => 5,
            MoodLightingLevel::Unknown(raw) => raw,
        }
    }

    /// The text of a variant: its name, with the raw value of an unknown one.
    #[verifier::opaque]
    pub open spec fn text(self) -> Seq<char> {
        match self {
            MoodLightingLevel::Level1 => "Level1"@,
            MoodLightingLevel::Level5 => "Level5"@,
            MoodLightingLevel::Unknown(raw) => "Unknown("@ + decimal_text(raw as nat) + ")"@,
        }
    }

    /// Each variant stands for its raw value, and its text is its name.
    pub proof fn lemma_variants()
        ensures
            MoodLightingLevel::from_raw(0) == MoodLightingLevel::Level1,
            MoodLightingLevel::from_raw(5) == MoodLightingLevel::Level5,
            forall|raw: u8| raw != 0 && raw != 5 ==> #[trigger] MoodLightingLevel::from_raw(raw) == MoodLightingLevel::Unknown(raw),
            MoodLightingLevel::Level1.raw() == 0,
            MoodLightingLevel::Level5.raw() == 5,
            forall|raw: u8| #[trigger] MoodLightingLevel::Unknown(raw).raw() == raw,
            MoodLightingLevel::Level1.text() == "Level1"@,
            MoodLightingLevel::Level5.text() == "Level5"@,
            forall|raw: u8| #[trigger] MoodLightingLevel::Unknown(raw).text() == "Unknown("@ + decimal_text(raw as nat) + ")"@,
    {
        reveal(MoodLightingLevel::text);
    }

    /// Appends the text of `self` to `s`.
    pub fn push_text(&self, s: &mut String)
        ensures
            final(s)@ == old(s)@ + self.text(),
    {
        proof {
            reveal(MoodLightingLevel::text);
        }
        match self {
            MoodLightingLevel::Level1 => s.append("Level1"),
            MoodLightingLevel::Level5 => s.append("Level5"),
            MoodLightingLevel::Unknown(raw) => {
                s.append("Unknown(");
                push_decimal(s, *raw as u64);
                s.append(")");
                assert(s@ =~= old(s)@ + self.text());
            },
        }
    }
}

impl From<u8> for MoodLightingLevel {
    fn from(raw: u8) -> (r: Self) {
        match raw {
            0 => MoodLightingLevel::Level1,
            5 => MoodLightingLevel::Level5,
            _ => MoodLightingLevel::Unknown(raw),
        }
    }
}

impl FromSpecImpl<u8> for MoodLightingLevel {
    open spec fn obeys_from_spec() -> bool {
        true
    }

    open spec fn from_spec(v: u8) -> Self {
        MoodLightingLevel::from_raw(v)
    }
}

impl From<MoodLightingLevel> for u8 {
    fn from(value: MoodLightingLevel) -> (r: u8) {
        match value {
            MoodLightingLevel::Level1 => 0,
            MoodLightingLevel::Level5 => 5,
            MoodLightingLevel::Unknown(raw) => raw,
        }
    }
}

impl FromSpecImpl<MoodLightingLevel> for u8 {
    open spec fn obeys_from_spec() -> bool {
        true
    }

    open spec fn from_spec(v: MoodLightingLevel) -> Self {
        v.raw()
    }
}

/// Musical ambiance of the audio system.
#[derive(Debug, Clone, Copy, PartialEq, Eq)]
pub enum MusicalAmbiance {
    NoAmbiance,
    PopRock,
    /// A raw value with no known meaning.
    Unknown(u8),
}

impl MusicalAmbiance {
    /// The variant that a raw value stands for.
    pub open spec fn from_raw(raw: u8) -> Self {
        match raw {
            0 => MusicalAmbiance::NoAmbiance,
            3 => MusicalAmbiance::PopRock,
            _ => MusicalAmbiance::Unknown(raw),
        }
    }

    /// The raw value of a variant.
    pub open spec fn raw(self) -> u8 {
        match self {
            MusicalAmbiance::NoAmbiance => 0,
            MusicalAmbiance::PopRock => 3,
            MusicalAmbiance::Unknown(raw) => raw,
        }
    }

    /// The text of a variant: its name, with the raw value of an unknown one.
    #[verifier::opaque]
    pub open spec fn text(self) -> Seq<char> {
        match self {
            MusicalAmbiance::NoAmbiance => "NoAmbiance"@,
            MusicalAmbiance::PopRock => "PopRock"@,
            MusicalAmbiance::Unknown(raw) => "Unknown("@ + decimal_text(raw as nat) + ")"@,
        }
    }

    /// Each variant stands for its raw value, and its text is its name.
    pub proof fn lemma_variants()
        ensures
            MusicalAmbiance::from_raw(0) == MusicalAmbiance::NoAmbiance,
            MusicalAmbiance::from_raw(3) == MusicalAmbiance::PopRock,
            forall|raw: u8| raw != 0 && raw != 3 ==> #[trigger] MusicalAmbiance::from_raw(raw) == MusicalAmbiance::Unknown(raw),
            MusicalAmbiance::NoAmbiance.raw() == 0,
            MusicalAmbiance::PopRock.raw() == 3,
            forall|raw: u8| #[trigger] MusicalAmbiance::Unknown(raw).raw() == raw,
            MusicalAmbiance::NoAmbiance.text() == "NoAmbiance"@,
            MusicalAmbiance::PopRock.text() == "PopRock"@,
            forall|raw: u8| #[trigger] MusicalAmbiance::Unknown(raw).text() == "Unknown("@ + decimal_text(raw as nat) + ")"@,
    {
        reveal(MusicalAmbiance::text);
    }

    /// Appends the text of `self` to `s`.
    pub fn push_text(&self, s: &mut String)
        ensures
            final(s)@ == old(s)@ + self.text(),
    {
        proof {
            reveal(MusicalAmbiance::text);
        }
        match self {
            MusicalAmbiance::NoAmbiance => s.append("NoAmbiance"),
            MusicalAmbiance::PopRock => s.append("PopRock"),
            MusicalAmbiance::Unknown(raw) => {
                s.append("Unknown(");
                push_decimal(s, *raw as u64);
                s.append(")");
                assert(s@ =~= old(s)@ + self.text());
            },
        }
    }
}

impl From<u8> for MusicalAmbiance {
    fn from(raw: u8) -> (r: Self) {
        match raw {
            0 => MusicalAmbiance::NoAmbiance,
            3 => MusicalAmbiance::PopRock,
            _ => MusicalAmbiance::Unknown(raw),
        }
    }
}

impl FromSpecImpl<u8> for MusicalAmbiance {
    open spec fn obeys_from_spec() -> bool {
        true
    }

    open spec fn from_spec(v: u8) -> Self {
        MusicalAmbiance::from_raw(v)
    }
}

impl From<MusicalAmbiance> for u8 {
    fn from(value: MusicalAmbiance) -> (r: u8) {
        match value {
            MusicalAmbiance::NoAmbiance => 0,
            MusicalAmbiance::PopRock => 3,
            MusicalAmbiance::Unknown(raw) => raw,
        }
    }
}

impl FromSpecImpl<MusicalAmbiance> for u8 {
    open spec fn obeys_from_spec() -> bool {
        true
    }

    open spec fn from_spec(v: MusicalAmbiance) -> Self {
        v.raw()
    }
}

/// Sound harmony of the alerts.
///
/// The raw value is a 2-bit field; a raw value above it reads as
/// the last variant.
#[derive(Debug, Clone, Copy, PartialEq, Eq)]
pub enum SoundHarmony {
    Harmony1,
    Harmony2,
    Harmony3,
    Harmony4,
}

impl SoundHarmony {
    /// The variant that a raw value stands for.
    pub open spec fn from_raw(raw: u8) -> Self {
        match raw {
            0 => SoundHarmony::Harmony1,
            1 => SoundHarmony::Harmony2,
            2 => SoundHarmony::Harmony3,
            _ => SoundHarmony::Harmony4,
        }
    }

    /// The raw value of a variant.
    pub open spec fn raw(self) -> u8 {
        match self {
            SoundHarmony::Harmony1 => 0,
            SoundHarmony::Harmony2 => 1,
            SoundHarmony::Harmony3 => 2,
            SoundHarmony::Harmony4 => 3,
        }
    }

    /// The text of a variant: its name, with the raw value of an unknown one.
    #[verifier::opaque]
    pub open spec fn text(self) -> Seq<char> {
        match self {
            SoundHarmony::Harmony1 => "Harmony1"@,
            SoundHarmony::Harmony2 => "Harmony2"@,
            SoundHarmony::Harmony3 => "Harmony3"@,
            SoundHarmony::Harmony4 => "Harmony4"@,
        }
    }

    /// Each variant stands for its raw value, and its text is its name.
    pub proof fn lemma_variants()
        ensures
            SoundHarmony::from_raw(0) == SoundHarmony::Harmony1,
            SoundHarmony::from_raw(1) == SoundHarmony::Harmony2,
            SoundHarmony::from_raw(2) == SoundHarmony::Harmony3,
            forall|raw: u8| raw != 0 && raw != 1 && raw != 2 ==> #[trigger] SoundHarmony::from_raw(raw) == SoundHarmony::Harmony4,
            SoundHarmony::Harmony1.raw() == 0,
            SoundHarmony::Harmony2.raw() == 1,
            SoundHarmony::Harmony3.raw() == 2,
            SoundHarmony::Harmony4.raw() == 3,
            SoundHarmony::Harmony1.text() == "Harmony1"@,
            SoundHarmony::Harmony2.text() == "Harmony2"@,
            SoundHarmony::Harmony3.text() == "Harmony3"@,
            SoundHarmony::Harmony4.text() == "Harmony4"@,
    {
        reveal(SoundHarmony::text);
    }

    /// Appends the text of `self` to `s`.
    pub fn push_text(&self, s: &mut String)
        ensures
            final(s)@ == old(s)@ + self.text(),
    {
        proof {
            reveal(SoundHarmony::text);
        }
        match self {
            SoundHarmony::Harmony1 => s.append("Harmony1"),
            SoundHarmony::Harmony2 => s.append("Harmony2"),
            SoundHarmony::Harmony3 => s.append("Harmony3"),
            SoundHarmony::Harmony4 => s.append("Harmony4"),
        }
    }
}

impl From<u8> for SoundHarmony {
    fn from(raw: u8) -> (r: Self) {
        match raw {
            0 => SoundHarmony::Harmony1,
            1 => SoundHarmony::Harmony2,
            2 => SoundHarmony::Harmony3,
            _ => SoundHarmony::Harmony4,
        }
    }
}

impl FromSpecImpl<u8> for SoundHarmony {
    open spec fn obeys_from_spec() -> bool {
        true
    }

    open spec fn from_spec(v: u8) -> Self {
        SoundHarmony::from_raw(v)
    }
}

impl From<SoundHarmony> for u8 {
    fn from(value: SoundHarmony) -> (r: u8) {
        match value {
            SoundHarmony::Harmony1 => 0,
            SoundHarmony::Harmony2 => 1,
            SoundHarmony::Harmony3 => 2,
            SoundHarmony::Harmony4 => 3,
        }
    }
}

impl FromSpecImpl<SoundHarmony> for u8 {
    open spec fn obeys_from_spec() -> bool {
        true
    }

    open spec fn from_spec(v: SoundHarmony) -> Self {
        v.raw()
    }
}

/// Repartition of the sound in the cabin.
#[derive(Debug, Clone, Copy, PartialEq, Eq)]
pub enum SoundRepartition {
    Driver,
    AllPassengers,
    /// A raw value with no known meaning.
    Unknown(u8),
}

impl SoundRepartition {
    /// The variant that a raw value stands for.
    pub open spec fn from_raw(raw: u8) -> Self {
        match raw {
            1 => SoundRepartition::Driver,
            7 => SoundRepartition::AllPassengers,
            _ => SoundRepartition::Unknown(raw),
        }
    }

    /// The raw value of a variant.
    pub open spec fn raw(self) -> u8 {
        match self {
            SoundRepartition::Driver => 1,
            SoundRepartition::AllPassengers => 7,
            SoundRepartition::Unknown(raw) => raw,
        }
    }

    /// The text of a variant: its name, with the raw value of an unknown one.
    #[verifier::opaque]
    pub open spec fn text(self) -> Seq<char> {
        match self {
            SoundRepartition::Driver => "Driver"@,
            SoundRepartition::AllPassengers => "AllPassengers"@,
            SoundRepartition::Unknown(raw) => "Unknown("@ + decimal_text(raw as nat) + ")"@,
        }
    }

    /// Each variant stands for its raw value, and its text is its name.
    pub proof fn lemma_variants()
        ensures
            SoundRepartition::from_raw(1) == SoundRepartition::Driver,
            SoundRepartition::from_raw(7) == SoundRepartition::AllPassengers,
            forall|raw: u8| raw != 1 && raw != 7 ==> #[trigger] SoundRepartition::from_raw(raw) == SoundRepartition::Unknown(raw),
            SoundRepartition::Driver.raw() == 1,
            SoundRepartition::AllPassengers.raw() == 7,
            forall|raw: u8| #[trigger] SoundRepartition::Unknown(raw).raw() == raw,
            SoundRepartition::Driver.text() == "Driver"@,
            SoundRepartition::AllPassengers.text() == "AllPassengers"@,
            forall|raw: u8| #[trigger] SoundRepartition::Unknown(raw).text() == "Unknown("@ + decimal_text(raw as nat) + ")"@,
    {
        reveal(SoundRepartition::text);
    }

    /// Appends the text of `self` to `s`.
    pub fn push_text(&self, s: &mut String)
        ensures
            final(s)@ == old(s)@ + self.text(),
    {
        proof {
            reveal(SoundRepartition::text);
        }
        match self {
            SoundRepartition::Driver => s.append("Driver"),
            SoundRepartition::AllPassengers => s.append("AllPassengers"),
            SoundRepartition::Unknown(raw) => {
                s.append("Unknown(");
                push_decimal(s, *raw as u64);
                s.append(")");
                assert(s@ =~= old(s)@ + self.text());
            },
        }
    }
}

impl From<u8> for SoundRepartition {
    fn from(raw: u8) -> (r: Self) {
        match raw {
            1 => SoundRepartition::Driver,
            7 => SoundRepartition::AllPassengers,
            _ => SoundRepartition::Unknown(raw),
        }
    }
}

impl FromSpecImpl<u8> for SoundRepartition {
    open spec fn obeys_from_spec() -> bool {
        true
    }

    open spec fn from_spec(v: u8) -> Self {
        SoundRepartition::from_raw(v)
    }
}

impl From<SoundRepartition> for u8 {
    fn from(value: SoundRepartition) -> (r: u8) {
        match value {
            SoundRepartition::Driver => 1,
            SoundRepartition::AllPassengers => 7,
            SoundRepartition::Unknown(raw) => raw,
        }
    }
}

impl FromSpecImpl<SoundRepartition> for u8 {
    open spec fn obeys_from_spec() -> bool {
        true
    }

    open spec fn from_spec(v: SoundRepartition) -> Self {
        v.raw()
    }
}

/// Unit of temperatures.
///
/// The raw value is a 1-bit field; a raw value above it reads as
/// the last variant.
#[derive(Debug, Clone, Copy, PartialEq, Eq)]
pub enum TemperatureUnit {
    Celsius,
    Fahrenheit,
}

impl TemperatureUnit {
    /// The variant that a raw value stands for.
    pub open spec fn from_raw(raw: u8) -> Self {
        match raw {
            0 => TemperatureUnit::Celsius,
            _ => TemperatureUnit::Fahrenheit,
        }
    }

    /// The raw value of a variant.
    pub open spec fn raw(self) -> u8 {
        match self {
            TemperatureUnit::Celsius => 0,
            TemperatureUnit::Fahrenheit => 1,
        }
    }

    /// The text of a variant: its name, with the raw value of an unknown one.
    #[verifier::opaque]
    pub open spec fn text(self) -> Seq<char> {
        match self {
            TemperatureUnit::Celsius => "Celsius"@,
            TemperatureUnit::Fahrenheit => "Fahrenheit"@,
        }
    }

    /// Each variant stands for its raw value, and its text is its name.
    pub proof fn lemma_variants()
        ensures
            TemperatureUnit::from_raw(0) == TemperatureUnit::Celsius,
            forall|raw: u8| raw != 0 ==> #[trigger] TemperatureUnit::from_raw(raw) == TemperatureUnit::Fahrenheit,
            TemperatureUnit::Celsius.raw() == 0,
            TemperatureUnit::Fahrenheit.raw() == 1,
            TemperatureUnit::Celsius.text() == "Celsius"@,
            TemperatureUnit::Fahrenheit.text() == "Fahrenheit"@,
    {
        reveal(TemperatureUnit::text);
    }

    /// Appends the text of `self` to `s`.
    pub fn push_text(&self, s: &mut String)
        ensures
            final(s)@ == old(s)@ + self.text(),
    {
        proof {
            reveal(TemperatureUnit::text);
        }
        match self {
            TemperatureUnit::Celsius => s.append("Celsius"),
            TemperatureUnit::Fahrenheit => s.append("Fahrenheit"),
        }
    }
}

impl From<u8> for TemperatureUnit {
    fn from(raw: u8) -> (r: Self) {
        match raw {
            0 => TemperatureUnit::Celsius,
            _ => TemperatureUnit::Fahrenheit,
        }
    }
}

impl FromSpecImpl<u8> for TemperatureUnit {
    open spec fn obeys_from_spec() -> bool {
        true
    }

    open spec fn from_spec(v: u8) -> Self {
        TemperatureUnit::from_raw(v)
    }
}

impl From<TemperatureUnit> for u8 {
    fn from(value: TemperatureUnit) -> (r: u8) {
        match value {
            TemperatureUnit::Celsius => 0,
            TemperatureUnit::Fahrenheit => 1,
        }
    }
}

impl FromSpecImpl<TemperatureUnit> for u8 {
    open spec fn obeys_from_spec() -> bool {
        true
    }

    open spec fn from_spec(v: TemperatureUnit) -> Self {
        v.raw()
    }
}

/// Kind of under-inflation detection system.
#[derive(Debug, Clone, Copy, PartialEq, Eq)]
pub enum UnderInflationDetectionSystem {
    DirectWithoutAbsolutePressure,
    Indirect,
    /// A raw value with no known meaning.
    Unknown(u8),
}

impl UnderInflationDetectionSystem {
    /// The variant that a raw value stands for.
    pub open spec fn from_raw(raw: u8) -> Self {
        match raw {
            2 => UnderInflationDetectionSystem::DirectWithoutAbsolutePressure,
            3 => UnderInflationDetectionSystem::Indirect,
            _ => UnderInflationDetectionSystem::Unknown(raw),
        }
    }

    /// The raw value of a variant.
    pub open spec fn raw(self) -> u8 {
        match self {
            UnderInflationDetectionSystem::DirectWithoutAbsolutePressure => 2,
            UnderInflationDetectionSystem::Indirect => 3,
            UnderInflationDetectionSystem::Unknown(raw) => raw,
        }
    }

    /// The text of a variant: its name, with the raw value of an unknown one.
    #[verifier::opaque]
    pub open spec fn text(self) -> Seq<char> {
        match self {
            UnderInflationDetectionSystem::DirectWithoutAbsolutePressure => "DirectWithoutAbsolutePressure"@,
            UnderInflationDetectionSystem::Indirect => "Indirect"@,
            UnderInflationDetectionSystem::Unknown(raw) => "Unknown("@ + decimal_text(raw as nat) + ")"@,
        }
    }

    /// Each variant stands for its raw value, and its text is its name.
    pub proof fn lemma_variants()
        ensures
            UnderInflationDetectionSystem::from_raw(2) == UnderInflationDetectionSystem::DirectWithoutAbsolutePressure,
            UnderInflationDetectionSystem::from_raw(3) == UnderInflationDetectionSystem::Indirect,
            forall|raw: u8| raw != 2 && raw != 3 ==> #[trigger] UnderInflationDetectionSystem::from_raw(raw) == UnderInflationDetectionSystem::Unknown(raw),
            UnderInflationDetectionSystem::DirectWithoutAbsolutePressure.raw() == 2,
            UnderInflationDetectionSystem::Indirect.raw() == 3,
            forall|raw: u8| #[trigger] UnderInflationDetectionSystem::Unknown(raw).raw() == raw,
            UnderInflationDetectionSystem::DirectWithoutAbsolutePressure.text() == "DirectWithoutAbsolutePressure"@,
            UnderInflationDetectionSystem::Indirect.text() == "Indirect"@,
            forall|raw: u8| #[trigger] UnderInflationDetectionSystem::Unknown(raw).text() == "Unknown("@ + decimal_text(raw as nat) + ")"@,
    {
        reveal(UnderInflationDetectionSystem::text);
    }

    /// Appends the text of `self` to `s`.
    pub fn push_text(&self, s: &mut String)
        ensures
            final(s)@ == old(s)@ + self.text(),
    {
        proof {
            reveal(UnderInflationDetectionSystem::text);
        }
        match self {
            UnderInflationDetectionSystem::DirectWithoutAbsolutePressure => s.append("DirectWithoutAbsolutePressure"),
            UnderInflationDetectionSystem::Indirect => s.append("Indirect"),
            UnderInflationDetectionSystem::Unknown(raw) => {
                s.append("Unknown(");
                push_decimal(s, *raw as u64);
                s.append(")");
                assert(s@ =~= old(s)@ + self.text());
            },
        }
    }
}

impl From<u8> for UnderInflationDetectionSystem {
    fn from(raw: u8) -> (r: Self) {
        match raw {
            2 => UnderInflationDetectionSystem::DirectWithoutAbsolutePressure,
            3 => UnderInflationDetectionSystem::Indirect,
            _ => UnderInflationDetectionSystem::Unknown(raw),
        }
    }
}

impl FromSpecImpl<u8> for UnderInflationDetectionSystem {
    open spec fn obeys_from_spec() -> bool {
        true
    }

    open spec fn from_spec(v: u8) -> Self {
        UnderInflationDetectionSystem::from_raw(v)
    }
}

impl From<UnderInflationDetectionSystem> for u8 {
    fn from(value: UnderInflationDetectionSystem) -> (r: u8) {
        match value {
            UnderInflationDetectionSystem::DirectWithoutAbsolutePressure => 2,
            UnderInflationDetectionSystem::Indirect => 3,
            UnderInflationDetectionSystem::Unknown(raw) => raw,
        }
    }
}

impl FromSpecImpl<UnderInflationDetectionSystem> for u8 {
    open spec fn obeys_from_spec() -> bool {
        true
    }

    open spec fn from_spec(v: UnderInflationDetectionSystem) -> Self {
        v.raw()
    }
}

/// Unit of volumes.
///
/// The raw value is a 1-bit field; a raw value above it reads as
/// the last variant.
#[derive(Debug, Clone, Copy, PartialEq, Eq)]
pub enum VolumeUnit {
    Liter,
    Gallon,
}

impl VolumeUnit {
    /// The variant that a raw value stands for.
    pub open spec fn from_raw(raw: u8) -> Self {
        match raw {
            0 => VolumeUnit::Liter,
            _ => VolumeUnit::Gallon,
        }
    }

    /// The raw value of a variant.
    pub open spec fn raw(self) -> u8 {
        match self {
            VolumeUnit::Liter => 0,
            VolumeUnit::Gallon => 1,
        }
    }

    /// The text of a variant: its name, with the raw value of an unknown one.
    #[verifier::opaque]
    pub open spec fn text(self) -> Seq<char> {
        match self {
            VolumeUnit::Liter => "Liter"@,
            VolumeUnit::Gallon => "Gallon"@,
        }
    }

    /// Each variant stands for its raw value, and its text is its name.
    pub proof fn lemma_variants()
        ensures
            VolumeUnit::from_raw(0) == VolumeUnit::Liter,
            forall|raw: u8| raw != 0 ==> #[trigger] VolumeUnit::from_raw(raw) == VolumeUnit::Gallon,
            VolumeUnit::Liter.raw() == 0,
            VolumeUnit::Gallon.raw() == 1,
            VolumeUnit::Liter.text() == "Liter"@,
            VolumeUnit::Gallon.text() == "Gallon"@,
    {
        reveal(VolumeUnit::text);
    }

    /// Appends the text of `self` to `s`.
    pub fn push_text(&self, s: &mut String)
        ensures
            final(s)@ == old(s)@ + self.text(),
    {
        proof {
            reveal(VolumeUnit::text);
        }
        match self {
            VolumeUnit::Liter => s.append("Liter"),
            VolumeUnit::Gallon => s.append("Gallon"),
        }
    }
}

impl From<u8> for VolumeUnit {
    fn from(raw: u8) -> (r: Self) {
        match raw {
            0 => VolumeUnit::Liter,
            _ => VolumeUnit::Gallon,
        }
    }
}

impl FromSpecImpl<u8> for VolumeUnit {
    open spec fn obeys_from_spec() -> bool {
        true
    }

    open spec fn from_spec(v: u8) -> Self {
        VolumeUnit::from_raw(v)
    }
}

impl From<VolumeUnit> for u8 {
    fn from(value: VolumeUnit) -> (r: u8) {
        match value {
            VolumeUnit::Liter => 0,
            VolumeUnit::Gallon => 1,
        }
    }
}

impl FromSpecImpl<VolumeUnit> for u8 {
    open spec fn obeys_from_spec() -> bool {
        true
    }

    open spec fn from_spec(v: VolumeUnit) -> Self {
        v.raw()
    }
}

} // verus!
