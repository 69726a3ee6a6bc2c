//! What the registry declares about each indicator by name: the range its output lies in and
//! which of its parameters mark thresholds in that range.

use vstd::prelude::*;

use crate::choices::{MidasMode, PivotSetType, VwapAnchorKind, ZeroVolumePolicy};
use crate::text::same_text;

verus! {

/// The range an indicator's output lies in.
///
/// A property of the indicator, not a display preference: an RSI is bounded to `0..=100` by
/// construction, a MACD swings around zero without bound. [`OutputRange::Unbounded`] is the honest
/// default: it says nothing is declared about the range, not that it is unbounded. All declared
/// bounds are whole numbers.
#[derive(Debug, Clone, Copy, PartialEq, Eq, Structural)]
pub enum OutputRange {
    /// Bounded by construction: the value cannot leave `min..=max`.
    Bounded { min: i64, max: i64 },
    /// Open on both sides, but swinging around a distinguished centre line.
    Centered { center: i64 },
    /// Never negative, open above: spans, quantities, ratios.
    NonNegative,
    /// Nothing is declared about the range.
    Unbounded,
}

/// `name` is one of `names`.
pub open spec fn one_of(name: Seq<char>, names: Seq<Seq<char>>) -> bool {
    exists|i: int| 0 <= i < names.len() && names[i] == name
}

pub open spec fn percent_names() -> Seq<Seq<char>> {
    seq![
        "adx"@,
        "choppiness"@,
        "connors_rsi"@,
        "efficiency"@,
        "mfi"@,
        "rsi"@,
        "stoch_rsi"@,
        "stochastic"@,
        "ultimate_oscillator"@,
        "williams_r"@,
    ]
}

pub open spec fn signed_percent_names() -> Seq<Seq<char>> {
    seq!["aroon"@, "cmo"@, "dmi"@, "tsi"@]
}

pub open spec fn signed_share_names() -> Seq<Seq<char>> {
    seq!["bop"@, "cmf"@]
}

pub open spec fn centered_names() -> Seq<Seq<char>> {
    seq![
        "awesome_oscillator"@,
        "cci"@,
        "chaikin_oscillator"@,
        "coppock"@,
        "dpo"@,
        "elder_ray"@,
        "eom"@,
        "fisher_transform"@,
        "klinger"@,
        "kst"@,
        "macd"@,
        "ppo"@,
        "roc"@,
        "wavetrend"@,
        "zscore"@,
    ]
}

pub open spec fn non_negative_names() -> Seq<Seq<char>> {
    seq![
        "atr"@,
        "garman_klass"@,
        "historical_volatility"@,
        "mass_index"@,
        "rvol"@,
        "true_range"@,
        "vix_fix"@,
        "volume"@,
        "vortex"@,
    ]
}

/// The declared output range of the indicator called `name`.
pub open spec fn output_range_of(name: Seq<char>) -> OutputRange {
    if one_of(name, percent_names()) {
        OutputRange::Bounded { min: 0, max: 100 }
    } else if one_of(name, signed_percent_names()) {
        OutputRange::Bounded { min: -100i64, max: 100i64 }
    } else if one_of(name, signed_share_names()) {
        OutputRange::Bounded { min: -1i64, max: 1i64 }
    } else if one_of(name, centered_names()) {
        OutputRange::Centered { center: 0 }
    } else if one_of(name, non_negative_names()) {
        OutputRange::NonNegative
    } else {
        OutputRange::Unbounded
    }
}

/// Whether `name` is one of `names`.
fn is_one_of(name: &str, names: &[&str]) -> (r: bool)
    ensures
        r == one_of(name@, names@.map_values(|s: &str| s@)),
{
    let ghost views = names@.map_values(|s: &str| s@);
    let mut i: usize = 0;
    while i < names.len()
        invariant
            i <= names@.len(),
            views == names@.map_values(|s: &str| s@),
            forall|j: int| 0 <= j < i ==> views[j] != name@,
        decreases names@.len() - i,
    {
        if same_text(name, names[i]) {
            assert(views[i as int] == name@);
            return true;
        }
        i = i + 1;
    }
    false
}

/// The declared output range of the indicator called `name`. Only what follows from an
/// indicator's construction is declared; everything else is [`OutputRange::Unbounded`].
pub fn output_range(name: &str) -> (r: OutputRange)
    ensures
        r == output_range_of(name@),
{
    let percent = [
        "adx",
        "choppiness",
        "connors_rsi",
        "efficiency",
        "mfi",
        "rsi",
        "stoch_rsi",
        "stochastic",
        "ultimate_oscillator",
        "williams_r",
    ];
    let signed_percent = ["aroon", "cmo", "dmi", "tsi"];
    let signed_share = ["bop", "cmf"];
    let centered = [
        "awesome_oscillator",
        "cci",
        "chaikin_oscillator",
        "coppock",
        "dpo",
        "elder_ray",
        "eom",
        "fisher_transform",
        "klinger",
        "kst",
        "macd",
        "ppo",
        "roc",
        "wavetrend",
        "zscore",
    ];
    let non_negative = [
        "atr",
        "garman_klass",
        "historical_volatility",
        "mass_index",
        "rvol",
        "true_range",
        "vix_fix",
        "volume",
        "vortex",
    ];
    assert(percent@.map_values(|s: &str| s@) =~= percent_names());
    assert(signed_percent@.map_values(|s: &str| s@) =~= signed_percent_names());
    assert(signed_share@.map_values(|s: &str| s@) =~= signed_share_names());
    assert(centered@.map_values(|s: &str| s@) =~= centered_names());
    assert(non_negative@.map_values(|s: &str| s@) =~= non_negative_names());
    if is_one_of(name, &percent) {
        OutputRange::Bounded { min: 0, max: 100 }
    } else if is_one_of(name, &signed_percent) {
        OutputRange::Bounded { min: -100, max: 100 }
    } else if is_one_of(name, &signed_share) {
        OutputRange::Bounded { min: -1, max: 1 }
    } else if is_one_of(name, &centered) {
        OutputRange::Centered { center: 0 }
    } else if is_one_of(name, &non_negative) {
        OutputRange::NonNegative
    } else {
        OutputRange::Unbounded
    }
}


pub open spec fn oscillator_threshold_names() -> Seq<Seq<char>> {
    seq!["cci"@, "fisher_transform"@, "mfi"@, "rsi"@, "stoch_rsi"@, "williams_r"@]
}

/// The parameters of `name` that mark a threshold in its output range.
pub open spec fn threshold_params_of(name: Seq<char>) -> Seq<Seq<char>> {
    if one_of(name, oscillator_threshold_names()) {
        seq!["oversold"@, "overbought"@]
    } else if name == "adx"@ {
        seq!["level_weak"@]
    } else if name == "wavetrend"@ {
        seq!["os_level"@, "ob_level"@]
    } else {
        seq![]
    }
}

/// The parameters of `name` that mark a threshold in its output range, named rather than given
/// as numbers so the thresholds follow what the caller configured.
pub fn threshold_params(name: &str) -> (r: &'static [&'static str])
    ensures
        r@.map_values(|s: &str| s@) == threshold_params_of(name@),
{
    let oscillators = ["cci", "fisher_transform", "mfi", "rsi", "stoch_rsi", "williams_r"];
    assert(oscillators@.map_values(|s: &str| s@) =~= oscillator_threshold_names());
    if is_one_of(name, &oscillators) {
        let r: &'static [&'static str] = &["oversold", "overbought"];
        assert(r@.map_values(|s: &str| s@) =~= seq!["oversold"@, "overbought"@]);
        r
    } else if same_text(name, "adx") {
        let r: &'static [&'static str] = &["level_weak"];
        assert(r@.map_values(|s: &str| s@) =~= seq!["level_weak"@]);
        r
    } else if same_text(name, "wavetrend") {
        let r: &'static [&'static str] = &["os_level", "ob_level"];
        assert(r@.map_values(|s: &str| s@) =~= seq!["os_level"@, "ob_level"@]);
        r
    } else {
        let r: &'static [&'static str] = &[];
        assert(r@.map_values(|s: &str| s@) =~= Seq::<Seq<char>>::empty());
        r
    }
}


/// An indicator that names threshold parameters declares its output range: a threshold is a
/// level inside that range, so the range is never left undeclared for it.
pub proof fn thresholds_lie_in_a_declared_range(name: Seq<char>)
    requires
        threshold_params_of(name).len() > 0,
    ensures
        output_range_of(name) != OutputRange::Unbounded,
{
    if one_of(name, oscillator_threshold_names()) {
        let i = choose|i: int|
            0 <= i < oscillator_threshold_names().len() && oscillator_threshold_names()[i] == name;
        if i == 0 {
            assert(centered_names()[1] == name);
        } else if i == 1 {
            assert(centered_names()[7] == name);
        } else if i == 2 {
            assert(percent_names()[4] == name);
        } else if i == 3 {
            assert(percent_names()[5] == name);
        } else if i == 4 {
            assert(percent_names()[6] == name);
        } else {
            assert(percent_names()[9] == name);
        }
    } else if name == "adx"@ {
        assert(percent_names()[0] == name);
    } else {
        assert(centered_names()[13] == name);
    }
}


/// Why the registry refused a request. Numeric parameters out of range are reported by the
/// numeric validation, which lives with the floating-point parameter surface.
#[derive(Debug, Clone, PartialEq, Eq)]
pub enum RegistryError {
    UnknownIndicator(String),
    /// A parameter value of a type this indicator's parameter cannot take.
    UnsupportedParameterType { parameter: String, value_type: String },
    /// An enum choice that matched none of the variants accepted for this parameter.
    InvalidEnumValue { parameter: String, value: String, reason: String },
    /// A supported parameter that cannot be applied to this specific indicator.
    IncompatibleParameter { parameter: String, indicator: String, reason: String },
}

/// The view of an enum-choice error: parameter, value and reason.
pub open spec fn enum_error(e: RegistryError) -> Option<(Seq<char>, Seq<char>, Seq<char>)> {
    match e {
        RegistryError::InvalidEnumValue { parameter, value, reason } => Some(
            (parameter@, value@, reason@),
        ),
        _ => None,
    }
}

fn invalid_choice(parameter: &str, value: &str, reason: &str) -> (r: RegistryError)
    ensures
        enum_error(r) == Some((parameter@, value@, reason@)),
{
    RegistryError::InvalidEnumValue {
        parameter: parameter.to_owned(),
        value: value.to_owned(),
        reason: reason.to_owned(),
    }
}

/// The lower-case form of a text, character by character, as std's `str::to_lowercase` gives it.
pub uninterp spec fn lowercase(s: Seq<char>) -> Seq<char>;

/// Calls std's `str::to_lowercase`. Its result is named [`lowercase`] of the argument: the
/// Unicode case mapping is a function of the text alone and is not restated here.
#[verifier::external_body]
fn to_lowercase(s: &str) -> (r: String)
    ensures
        r@ == lowercase(s@),
{
    s.to_lowercase()
}

/// An enum parameter's value as it is matched: lower-cased, or `None` when the parameter is
/// absent.
pub fn enum_choice(raw: Option<&str>) -> (r: Option<String>)
    ensures
        r.is_some() == raw.is_some(),
        r matches Some(v) ==> v@ == lowercase(raw.unwrap()@),
{
    match raw {
        Some(v) => Some(to_lowercase(v)),
        None => None,
    }
}

/// The anchor a lower-cased `anchor_kind` choice selects. Absent or `session` selects the session
/// anchor; `manual_timestamp` needs the accompanying `anchor_timestamp`.
pub open spec fn anchor_kind_of(choice: Option<Seq<char>>, anchor_timestamp: Option<i64>) -> Result<
    VwapAnchorKind,
    (Seq<char>, Seq<char>, Seq<char>),
> {
    match choice {
        None => Ok(VwapAnchorKind::Session),
        Some(c) => if c == "session"@ {
            Ok(VwapAnchorKind::Session)
        } else if c == "day"@ {
            Ok(VwapAnchorKind::Day)
        } else if c == "week"@ {
            Ok(VwapAnchorKind::Week)
        } else if c == "month"@ {
            Ok(VwapAnchorKind::Month)
        } else if c == "external"@ {
            Ok(VwapAnchorKind::External)
        } else if c == "manual_timestamp"@ {
            match anchor_timestamp {
                Some(ts) => Ok(VwapAnchorKind::ManualTimestamp(ts)),
                None => Err(
                    (
                        "anchor_kind"@,
                        "manual_timestamp"@,
                        "requires an accompanying 'anchor_timestamp' Timestamp parameter"@,
                    ),
                ),
            }
        } else {
            Err(
                (
                    "anchor_kind"@,
                    c,
                    "expected one of session|day|week|month|external|manual_timestamp"@,
                ),
            )
        },
    }
}

/// The result of a choice, with the error taken by its view.
pub open spec fn choice_view<T>(r: Result<T, RegistryError>) -> Result<
    T,
    Option<(Seq<char>, Seq<char>, Seq<char>)>,
> {
    match r {
        Ok(v) => Ok(v),
        Err(e) => Err(enum_error(e)),
    }
}

pub open spec fn lift<T>(r: Result<T, (Seq<char>, Seq<char>, Seq<char>)>) -> Result<
    T,
    Option<(Seq<char>, Seq<char>, Seq<char>)>,
> {
    match r {
        Ok(v) => Ok(v),
        Err(e) => Err(Some(e)),
    }
}

pub open spec fn choice_view_of(choice: Option<&str>) -> Option<Seq<char>> {
    match choice {
        Some(c) => Some(c@),
        None => None,
    }
}

/// Selects the VWAP anchor from a lower-cased `anchor_kind` choice; see [`anchor_kind_of`].
pub fn anchor_kind_from(choice: Option<&str>, anchor_timestamp: Option<i64>) -> (r: Result<
    VwapAnchorKind,
    RegistryError,
>)
    ensures
        choice_view(r) == lift(anchor_kind_of(choice_view_of(choice), anchor_timestamp)),
{
    match choice {
        None => Ok(VwapAnchorKind::Session),
        Some(c) => if same_text(c, "session") {
            Ok(VwapAnchorKind::Session)
        } else if same_text(c, "day") {
            Ok(VwapAnchorKind::Day)
        } else if same_text(c, "week") {
            Ok(VwapAnchorKind::Week)
        } else if same_text(c, "month") {
            Ok(VwapAnchorKind::Month)
        } else if same_text(c, "external") {
            Ok(VwapAnchorKind::External)
        } else if same_text(c, "manual_timestamp") {
            match anchor_timestamp {
                Some(ts) => Ok(VwapAnchorKind::ManualTimestamp(ts)),
                None => Err(
                    invalid_choice(
                        "anchor_kind",
                        "manual_timestamp",
                        "requires an accompanying 'anchor_timestamp' Timestamp parameter",
                    ),
                ),
            }
        } else {
            Err(
                invalid_choice(
                    "anchor_kind",
                    c,
                    "expected one of session|day|week|month|external|manual_timestamp",
                ),
            )
        },
    }
}

/// The zero-volume policy a lower-cased choice selects; absent selects equal weighting.
pub open spec fn zero_volume_policy_of(choice: Option<Seq<char>>) -> Result<
    ZeroVolumePolicy,
    (Seq<char>, Seq<char>, Seq<char>),
> {
    match choice {
        None => Ok(ZeroVolumePolicy::EqualWeight),
        Some(c) => if c == "equal_weight"@ {
            Ok(ZeroVolumePolicy::EqualWeight)
        } else if c == "skip"@ {
            Ok(ZeroVolumePolicy::Skip)
        } else {
            Err(("zero_volume_policy"@, c, "expected one of equal_weight|skip"@))
        },
    }
}

/// Selects the zero-volume policy from a lower-cased choice; see [`zero_volume_policy_of`].
pub fn zero_volume_policy_from(choice: Option<&str>) -> (r: Result<ZeroVolumePolicy, RegistryError>)
    ensures
        choice_view(r) == lift(zero_volume_policy_of(choice_view_of(choice))),
{
    match choice {
        None => Ok(ZeroVolumePolicy::EqualWeight),
        Some(c) => if same_text(c, "equal_weight") {
            Ok(ZeroVolumePolicy::EqualWeight)
        } else if same_text(c, "skip") {
            Ok(ZeroVolumePolicy::Skip)
        } else {
            Err(invalid_choice("zero_volume_policy", c, "expected one of equal_weight|skip"))
        },
    }
}

/// The pivot set a lower-cased `pivot_type` choice selects; absent selects the classic set.
pub open spec fn pivot_type_of(choice: Option<Seq<char>>) -> Result<
    PivotSetType,
    (Seq<char>, Seq<char>, Seq<char>),
> {
    match choice {
        None => Ok(PivotSetType::Classic),
        Some(c) => if c == "classic"@ {
            Ok(PivotSetType::Classic)
        } else if c == "fibonacci"@ {
            Ok(PivotSetType::Fibonacci)
        } else if c == "camarilla"@ {
            Ok(PivotSetType::Camarilla)
        } else if c == "woodie"@ {
            Ok(PivotSetType::Woodie)
        } else if c == "demark"@ {
            Ok(PivotSetType::DeMark)
        } else if c == "cpr"@ {
            Ok(PivotSetType::Cpr)
        } else {
            Err(("pivot_type"@, c, "expected one of classic|fibonacci|camarilla|woodie|demark|cpr"@))
        },
    }
}

/// Selects the pivot set from a lower-cased choice; see [`pivot_type_of`].
pub fn pivot_type_from(choice: Option<&str>) -> (r: Result<PivotSetType, RegistryError>)
    ensures
        choice_view(r) == lift(pivot_type_of(choice_view_of(choice))),
{
    match choice {
        None => Ok(PivotSetType::Classic),
        Some(c) => if same_text(c, "classic") {
            Ok(PivotSetType::Classic)
        } else if same_text(c, "fibonacci") {
            Ok(PivotSetType::Fibonacci)
        } else if same_text(c, "camarilla") {
            Ok(PivotSetType::Camarilla)
        } else if same_text(c, "woodie") {
            Ok(PivotSetType::Woodie)
        } else if same_text(c, "demark") {
            Ok(PivotSetType::DeMark)
        } else if same_text(c, "cpr") {
            Ok(PivotSetType::Cpr)
        } else {
            Err(
                invalid_choice(
                    "pivot_type",
                    c,
                    "expected one of classic|fibonacci|camarilla|woodie|demark|cpr",
                ),
            )
        },
    }
}

/// The MIDAS mode a lower-cased `mode` choice selects; absent selects the Topfinder.
pub open spec fn midas_mode_of(choice: Option<Seq<char>>) -> Result<
    MidasMode,
    (Seq<char>, Seq<char>, Seq<char>),
> {
    match choice {
        None => Ok(MidasMode::Topfinder),
        Some(c) => if c == "topfinder"@ {
            Ok(MidasMode::Topfinder)
        } else if c == "bottomfinder"@ {
            Ok(MidasMode::Bottomfinder)
        } else {
            Err(("mode"@, c, "expected one of topfinder|bottomfinder"@))
        },
    }
}

/// Selects the MIDAS mode from a lower-cased choice; see [`midas_mode_of`].
pub fn midas_mode_from(choice: Option<&str>) -> (r: Result<MidasMode, RegistryError>)
    ensures
        choice_view(r) == lift(midas_mode_of(choice_view_of(choice))),
{
    match choice {
        None => Ok(MidasMode::Topfinder),
        Some(c) => if same_text(c, "topfinder") {
            Ok(MidasMode::Topfinder)
        } else if same_text(c, "bottomfinder") {
            Ok(MidasMode::Bottomfinder)
        } else {
            Err(invalid_choice("mode", c, "expected one of topfinder|bottomfinder"))
        },
    }
}

} // verus!
