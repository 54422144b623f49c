//! Descriptive classification tags exposed by every indicator.
//!
//! The tags serve discovery and filtering tooling only; the computation
//! pipeline neither reads nor depends on them.

use vstd::prelude::*;

verus! {

#[derive(Clone, Debug, Hash, PartialEq, Eq)]
pub enum Group {
    UseCase(UseCase),
    MathematicalBasis(MathematicalBasis),
    DataInputType(DataInputType),
    SignalType(SignalType),
    OutputFormat(OutputFormat),
    TimeframeFocus(TimeframeFocus),
    ComplexityLevel(ComplexityLevel),
    MarketSuitability(MarketSuitability),
    TradingStrategySuitability(TradingStrategySuitability),
    SmoothingTechnique(SmoothingTechnique),
    CalculationMethodology(CalculationMethodology),
    SignalInterpretation(SignalInterpretation),
}

/// The primary question an indicator answers.
#[derive(Clone, Debug, Hash, PartialEq, Eq)]
pub enum UseCase {
    TrendIdentification,
    MomentumDetection,
    VolatilityMeasurement,
    VolumeConfirmation,
    ReversalDetection,
    CycleAnalysis,
    SupportResistanceLevels,
    MarketStrengthMeasurement,
    PriceTransformation,
}

/// The mathematical technique the formula rests on.
#[derive(Clone, Debug, Hash, PartialEq, Eq)]
pub enum MathematicalBasis {
    Averaging,
    RatioBased,
    Summation,
    StatisticalMethods,
    Oscillation,
    Differentiation,
    TransformAnalysis,
    RegressionCorrelation,
    SignalProcessing,
    PatternRecognition,
    FractalGeometry,
    ProbabilisticMethods,
    MachineLearning,
    VolumeWeighted,
    CyclicalAnalysis,
}

#[derive(Clone, Debug, Hash, PartialEq, Eq)]
pub enum DataInputType {
    PriceBased,
    VolumeBased,
    PriceVolumeCombined,
}

#[derive(Clone, Debug, Hash, PartialEq, Eq)]
pub enum SignalType {
    Leading,
    Lagging,
    Coincident,
}

#[derive(Clone, Debug, Hash, PartialEq, Eq)]
pub enum OutputFormat {
    SingleLine,
    MultiLine,
    Band,
    Histogram,
    Percentage,
    Absolute,
    Directional,
}

#[derive(Clone, Debug, Hash, PartialEq, Eq)]
pub enum TimeframeFocus {
    Short,
    Medium,
    Long,
}

#[derive(Clone, Debug, Hash, PartialEq, Eq)]
pub enum ComplexityLevel {
    Basic,
    Intermediate,
    Advanced,
}

#[derive(Clone, Debug, Hash, PartialEq, Eq)]
pub enum MarketSuitability {
    Trending,
    RangeBound,
    Volatile,
    Stable,
}

#[derive(Clone, Debug, Hash, PartialEq, Eq)]
pub enum TradingStrategySuitability {
    Scalping,
    Intraday,
    Swing,
    Positional,
}

#[derive(Clone, Debug, Hash, PartialEq, Eq)]
pub enum SmoothingTechnique {
    SimpleAverage,
    Exponential,
    WeightedMovingAverage,
    Adaptive,
    Steal,
    Raw,
}

#[derive(Clone, Debug, Hash, PartialEq, Eq)]
pub enum CalculationMethodology {
    Cumulative,
    Differential,
    Ratio,
    Statistical,
    Averaging,
}

#[derive(Clone, Debug, Hash, PartialEq, Eq)]
pub enum SignalInterpretation {
    PeakThroughLevels,
    Crossovers,
    Divergence,
    ThresholdLevels,
    Patterns,
}

} // verus!
