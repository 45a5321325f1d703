//! Model quantization for Jetson memory constraints.
//!
//! A fixed catalog lists the quantization levels from the most faithful to
//! the most compressed. The selector walks it in that order and takes the
//! first level whose estimated size fits what a memory budget has available.

use vstd::prelude::*;
use vstd::string::*;
use crate::error::Error;
use crate::memory::MemoryBudget;
use crate::units::{Percent, Ratio};

verus! {

/// Quantization levels (compatible with llama.cpp).
#[allow(non_camel_case_types)]
#[derive(Debug, Clone, Copy, PartialEq, Eq, Hash, Structural)]
pub enum QuantLevel {
    /// 4-bit quantization (type 0)
    Q4_0,
    /// 4-bit quantization (type 1)
    Q4_1,
    /// 5-bit quantization (type 0)
    Q5_0,
    /// 5-bit quantization (type 1)
    Q5_1,
    /// 8-bit quantization
    Q8_0,
    /// 16-bit floating point
    F16,
    /// 32-bit floating point (not recommended for Jetson)
    F32,
}

impl QuantLevel {
    /// Bits per parameter, as a specification.
    pub open spec fn spec_bits_per_param(self) -> u8 {
        match self {
            QuantLevel::Q4_0 | QuantLevel::Q4_1 => 4,
            QuantLevel::Q5_0 | QuantLevel::Q5_1 => 5,
            QuantLevel::Q8_0 => 8,
            QuantLevel::F16 => 16,
            QuantLevel::F32 => 32,
        }
    }

    /// Bits per parameter.
    #[must_use]
    pub fn bits_per_param(&self) -> (bits: u8)
        ensures
            bits == self.spec_bits_per_param(),
    {
        match self {
            QuantLevel::Q4_0 | QuantLevel::Q4_1 => 4,
            QuantLevel::Q5_0 | QuantLevel::Q5_1 => 5,
            QuantLevel::Q8_0 => 8,
            QuantLevel::F16 => 16,
            QuantLevel::F32 => 32,
        }
    }

    /// Approximate perplexity increase versus F16, as a specification.
    pub open spec fn spec_perplexity_delta_percent(self) -> Percent {
        match self {
            QuantLevel::Q4_0 => Percent { millis: 5000 },
            QuantLevel::Q4_1 => Percent { millis: 4000 },
            QuantLevel::Q5_0 => Percent { millis: 3000 },
            QuantLevel::Q5_1 => Percent { millis: 2500 },
            QuantLevel::Q8_0 => Percent { millis: 1000 },
            QuantLevel::F16 => Percent { millis: 0 },
            QuantLevel::F32 => Percent { millis: 0 },
        }
    }

    /// Approximate perplexity increase percentage vs F16.
    #[must_use]
    pub fn perplexity_delta_percent(&self) -> (delta: Percent)
        ensures
            delta == self.spec_perplexity_delta_percent(),
    {
        match self {
            QuantLevel::Q4_0 => Percent { millis: 5000 },
            QuantLevel::Q4_1 => Percent { millis: 4000 },
            QuantLevel::Q5_0 => Percent { millis: 3000 },
            QuantLevel::Q5_1 => Percent { millis: 2500 },
            QuantLevel::Q8_0 => Percent { millis: 1000 },
            QuantLevel::F16 => Percent { millis: 0 },
            QuantLevel::F32 => Percent { millis: 0 },
        }
    }

    /// Size relative to F16, as a specification.
    pub open spec fn spec_memory_factor(self) -> Ratio {
        match self {
            QuantLevel::Q4_0 | QuantLevel::Q4_1 => Ratio { num: 1, den: 4 },
            QuantLevel::Q5_0 | QuantLevel::Q5_1 => Ratio { num: 5, den: 16 },
            QuantLevel::Q8_0 => Ratio { num: 1, den: 2 },
            QuantLevel::F16 => Ratio { num: 1, den: 1 },
            QuantLevel::F32 => Ratio { num: 2, den: 1 },
        }
    }

    /// Memory reduction factor vs F16.
    #[must_use]
    pub fn memory_factor(&self) -> (factor: Ratio)
        ensures
            factor == self.spec_memory_factor(),
            factor.den > 0,
    {
        match self {
            QuantLevel::Q4_0 | QuantLevel::Q4_1 => Ratio { num: 1, den: 4 },
            QuantLevel::Q5_0 | QuantLevel::Q5_1 => Ratio { num: 5, den: 16 },
            QuantLevel::Q8_0 => Ratio { num: 1, den: 2 },
            QuantLevel::F16 => Ratio { num: 1, den: 1 },
            QuantLevel::F32 => Ratio { num: 2, den: 1 },
        }
    }

    /// The size in MB of a model at this level whose F16 size is
    /// `model_f16_size_mb`: that size times the memory factor, rounded down,
    /// and capped at `u64::MAX`.
    pub open spec fn spec_estimated_size_mb(self, model_f16_size_mb: u64) -> nat {
        match self {
            QuantLevel::Q4_0 | QuantLevel::Q4_1 => (model_f16_size_mb / 4) as nat,
            QuantLevel::Q5_0 | QuantLevel::Q5_1 => (model_f16_size_mb * 5 / 16) as nat,
            QuantLevel::Q8_0 => (model_f16_size_mb / 2) as nat,
            QuantLevel::F16 => model_f16_size_mb as nat,
            QuantLevel::F32 => if model_f16_size_mb * 2 > u64::MAX {
                u64::MAX as nat
            } else {
                (model_f16_size_mb * 2) as nat
            },
        }
    }

    /// The size in MB of a model at this level, given its F16 size.
    #[must_use]
    pub fn estimated_size_mb(&self, model_f16_size_mb: u64) -> (mb: u64)
        ensures
            mb == self.spec_estimated_size_mb(model_f16_size_mb),
    {
        proof {
            law_estimate_is_size_times_factor(*self, model_f16_size_mb);
        }
        self.memory_factor().apply(model_f16_size_mb)
    }

    /// The canonical short name, as a sequence of characters.
    pub open spec fn spec_name(self) -> Seq<char> {
        match self {
            QuantLevel::Q4_0 => "q4_0"@,
            QuantLevel::Q4_1 => "q4_1"@,
            QuantLevel::Q5_0 => "q5_0"@,
            QuantLevel::Q5_1 => "q5_1"@,
            QuantLevel::Q8_0 => "q8_0"@,
            QuantLevel::F16 => "f16"@,
            QuantLevel::F32 => "f32"@,
        }
    }

    /// String representation.
    #[must_use]
    pub fn as_str(&self) -> (name: &'static str)
        ensures
            name@ == self.spec_name(),
    {
        match self {
            QuantLevel::Q4_0 => "q4_0",
            QuantLevel::Q4_1 => "q4_1",
            QuantLevel::Q5_0 => "q5_0",
            QuantLevel::Q5_1 => "q5_1",
            QuantLevel::Q8_0 => "q8_0",
            QuantLevel::F16 => "f16",
            QuantLevel::F32 => "f32",
        }
    }

    /// String representation as an owned string.
    #[must_use]
    pub fn to_string(&self) -> (name: String)
        ensures
            name@ == self.spec_name(),
    {
        String::from_str(self.as_str())
    }
}

/// The levels the selector considers, from the most faithful to the most
/// compressed.
pub open spec fn spec_catalog() -> Seq<QuantLevel> {
    seq![
        QuantLevel::F16,
        QuantLevel::Q8_0,
        QuantLevel::Q5_1,
        QuantLevel::Q5_0,
        QuantLevel::Q4_1,
        QuantLevel::Q4_0,
    ]
}

/// Whether `level` at F16 size `model_f16_size_mb` fits `available_mb`.
pub open spec fn spec_fits(level: QuantLevel, model_f16_size_mb: u64, available_mb: u64) -> bool {
    level.spec_estimated_size_mb(model_f16_size_mb) <= available_mb
}

/// Whether `level` is the first level of the catalog that fits, or its last
/// level where none fits.
pub open spec fn spec_is_first_fit(
    level: QuantLevel,
    model_f16_size_mb: u64,
    available_mb: u64,
) -> bool {
    exists|i: int|
        {
            &&& 0 <= i < spec_catalog().len()
            &&& #[trigger] spec_catalog()[i] == level
            &&& forall|j: int|
                0 <= j < i ==> !spec_fits(
                    #[trigger] spec_catalog()[j],
                    model_f16_size_mb,
                    available_mb,
                )
            &&& (spec_fits(level, model_f16_size_mb, available_mb) || i == spec_catalog().len()
                - 1)
        }
}

/// The level chosen among the catalog's levels from index `from` on: the
/// first that fits, or the last one.
pub open spec fn spec_select_from(from: int, model_f16_size_mb: u64, available_mb: u64) -> QuantLevel
    decreases spec_catalog().len() - from,
{
    if from < 0 || from >= spec_catalog().len() - 1 {
        spec_catalog().last()
    } else if spec_fits(spec_catalog()[from], model_f16_size_mb, available_mb) {
        spec_catalog()[from]
    } else {
        spec_select_from(from + 1, model_f16_size_mb, available_mb)
    }
}

/// The level chosen for a model of F16 size `model_f16_size_mb` where
/// `available_mb` is available.
pub open spec fn spec_select(model_f16_size_mb: u64, available_mb: u64) -> QuantLevel {
    spec_select_from(0, model_f16_size_mb, available_mb)
}

/// The levels the selector considers, in the order in which it tries them.
#[must_use]
pub fn catalog() -> (levels: [QuantLevel; 6])
    ensures
        levels@ == spec_catalog(),
{
    let levels = [
        QuantLevel::F16,
        QuantLevel::Q8_0,
        QuantLevel::Q5_1,
        QuantLevel::Q5_0,
        QuantLevel::Q4_1,
        QuantLevel::Q4_0,
    ];
    assert(levels@ =~= spec_catalog());
    levels
}

/// The chosen level is the first level of the catalog that fits, or the most
/// compressed level where none fits.
pub proof fn law_selection_is_first_fit(model_f16_size_mb: u64, available_mb: u64)
    ensures
        spec_is_first_fit(
            spec_select(model_f16_size_mb, available_mb),
            model_f16_size_mb,
            available_mb,
        ),
{
    let c = spec_catalog();
    let fits = |i: int| spec_fits(c[i], model_f16_size_mb, available_mb);
    reveal_with_fuel(spec_select_from, 7);
    let i: int = if fits(0) {
        0
    } else if fits(1) {
        1
    } else if fits(2) {
        2
    } else if fits(3) {
        3
    } else if fits(4) {
        4
    } else {
        5
    };
    assert(c[i] == spec_select(model_f16_size_mb, available_mb));
}

/// Selection is determined by the two sizes alone: any two levels that are
/// the first fit for the same sizes are the same level.
pub proof fn law_selection_is_unique(
    a: QuantLevel,
    b: QuantLevel,
    model_f16_size_mb: u64,
    available_mb: u64,
)
    requires
        spec_is_first_fit(a, model_f16_size_mb, available_mb),
        spec_is_first_fit(b, model_f16_size_mb, available_mb),
    ensures
        a == b,
{
    let c = spec_catalog();
    let i = choose|i: int|
        {
            &&& 0 <= i < c.len()
            &&& #[trigger] c[i] == a
            &&& forall|j: int|
                0 <= j < i ==> !spec_fits(#[trigger] c[j], model_f16_size_mb, available_mb)
            &&& (spec_fits(a, model_f16_size_mb, available_mb) || i == c.len() - 1)
        };
    let k = choose|k: int|
        {
            &&& 0 <= k < c.len()
            &&& #[trigger] c[k] == b
            &&& forall|j: int|
                0 <= j < k ==> !spec_fits(#[trigger] c[j], model_f16_size_mb, available_mb)
            &&& (spec_fits(b, model_f16_size_mb, available_mb) || k == c.len() - 1)
        };
    if i < k {
        assert(!spec_fits(c[i], model_f16_size_mb, available_mb));
    } else if k < i {
        assert(!spec_fits(c[k], model_f16_size_mb, available_mb));
    }
}

/// Where any level of the catalog fits, the chosen level fits too, and no
/// level that fits is wider or loses less accuracy than the chosen one.
pub proof fn law_selection_is_least_lossy_fit(
    model_f16_size_mb: u64,
    available_mb: u64,
    other: int,
)
    requires
        0 <= other < spec_catalog().len(),
        spec_fits(spec_catalog()[other], model_f16_size_mb, available_mb),
    ensures
        spec_fits(spec_select(model_f16_size_mb, available_mb), model_f16_size_mb, available_mb),
        spec_select(model_f16_size_mb, available_mb).spec_bits_per_param()
            >= spec_catalog()[other].spec_bits_per_param(),
        spec_select(model_f16_size_mb, available_mb).spec_perplexity_delta_percent().millis
            <= spec_catalog()[other].spec_perplexity_delta_percent().millis,
{
    reveal_with_fuel(spec_select_from, 7);
}

/// Where no level of the catalog fits, the chosen level is the most
/// compressed one, and it does not fit either.
pub proof fn law_selection_without_fit(model_f16_size_mb: u64, available_mb: u64)
    requires
        forall|i: int|
            0 <= i < spec_catalog().len() ==> !spec_fits(
                #[trigger] spec_catalog()[i],
                model_f16_size_mb,
                available_mb,
            ),
    ensures
        spec_select(model_f16_size_mb, available_mb) == QuantLevel::Q4_0,
        !spec_fits(spec_select(model_f16_size_mb, available_mb), model_f16_size_mb, available_mb),
{
    reveal_with_fuel(spec_select_from, 7);
    assert(spec_catalog()[5] == QuantLevel::Q4_0);
    assert(!spec_fits(spec_catalog()[0], model_f16_size_mb, available_mb));
    assert(!spec_fits(spec_catalog()[1], model_f16_size_mb, available_mb));
    assert(!spec_fits(spec_catalog()[2], model_f16_size_mb, available_mb));
    assert(!spec_fits(spec_catalog()[3], model_f16_size_mb, available_mb));
    assert(!spec_fits(spec_catalog()[4], model_f16_size_mb, available_mb));
}

/// A larger budget never leads to a narrower level.
pub proof fn law_more_budget_never_narrower(
    model_f16_size_mb: u64,
    smaller_mb: u64,
    larger_mb: u64,
)
    requires
        smaller_mb <= larger_mb,
    ensures
        spec_select(model_f16_size_mb, larger_mb).spec_bits_per_param() >= spec_select(
            model_f16_size_mb,
            smaller_mb,
        ).spec_bits_per_param(),
{
    reveal_with_fuel(spec_select_from, 7);
}

/// Along the catalog the levels only get narrower and only lose accuracy.
pub proof fn law_catalog_is_ordered(i: int, j: int)
    requires
        0 <= i <= j < spec_catalog().len(),
    ensures
        spec_catalog()[i].spec_bits_per_param() >= spec_catalog()[j].spec_bits_per_param(),
        spec_catalog()[i].spec_perplexity_delta_percent().millis
            <= spec_catalog()[j].spec_perplexity_delta_percent().millis,
{
}

/// The memory factor of a level is its bit width over the sixteen bits of
/// F16, and a narrower level never loses less accuracy than a wider one.
pub proof fn law_factor_follows_bits(a: QuantLevel, b: QuantLevel)
    ensures
        a.spec_memory_factor().den > 0,
        a.spec_memory_factor().num * 16 == a.spec_bits_per_param() * a.spec_memory_factor().den,
        a.spec_bits_per_param() < b.spec_bits_per_param()
            ==> a.spec_perplexity_delta_percent().millis
            >= b.spec_perplexity_delta_percent().millis,
{
    match a {
        QuantLevel::Q4_0 | QuantLevel::Q4_1 => {
            assert(a.spec_memory_factor() == Ratio { num: 1, den: 4 });
        },
        QuantLevel::Q5_0 | QuantLevel::Q5_1 => {
            assert(a.spec_memory_factor() == Ratio { num: 5, den: 16 });
        },
        QuantLevel::Q8_0 => {
            assert(a.spec_memory_factor() == Ratio { num: 1, den: 2 });
        },
        QuantLevel::F16 => {
            assert(a.spec_memory_factor() == Ratio { num: 1, den: 1 });
        },
        QuantLevel::F32 => {
            assert(a.spec_memory_factor() == Ratio { num: 2, den: 1 });
        },
    }
}

/// The estimated size of a model at a level is its F16 size times the
/// level's memory factor, rounded down.
pub proof fn law_estimate_is_size_times_factor(level: QuantLevel, model_f16_size_mb: u64)
    ensures
        level.spec_estimated_size_mb(model_f16_size_mb) == level.spec_memory_factor().spec_apply(
            model_f16_size_mb,
        ),
{
    let size = model_f16_size_mb as int;
    assert(size * 1 == size) by (nonlinear_arith);
    assert(size / 1 == size) by (nonlinear_arith);
    match level {
        QuantLevel::Q4_0 | QuantLevel::Q4_1 => {
            assert(level.spec_memory_factor() == Ratio { num: 1, den: 4 });
        },
        QuantLevel::Q5_0 | QuantLevel::Q5_1 => {
            assert(level.spec_memory_factor() == Ratio { num: 5, den: 16 });
        },
        QuantLevel::Q8_0 => {
            assert(level.spec_memory_factor() == Ratio { num: 1, den: 2 });
        },
        QuantLevel::F16 => {
            assert(level.spec_memory_factor() == Ratio { num: 1, den: 1 });
        },
        QuantLevel::F32 => {
            assert(level.spec_memory_factor() == Ratio { num: 2, den: 1 });
            assert((size * 2) / 1 == size * 2) by (nonlinear_arith);
        },
    }
}

/// Pick the level for a model of F16 size `model_f16_size_mb` where
/// `available_mb` is available.
///
/// The levels are tried from the most faithful to the most compressed, and
/// the first whose estimated size fits is returned. Where none fits the most
/// compressed level is returned all the same: a caller that needs to know
/// compares that level's estimated size with `available_mb`.
#[must_use]
pub fn select_level(model_f16_size_mb: u64, available_mb: u64) -> (level: QuantLevel)
    ensures
        level == spec_select(model_f16_size_mb, available_mb),
        spec_is_first_fit(level, model_f16_size_mb, available_mb),
{
    proof {
        law_selection_is_first_fit(model_f16_size_mb, available_mb);
    }
    let levels = catalog();
    let mut i: usize = 0;
    while i < 6
        invariant
            i <= 6,
            levels@ == spec_catalog(),
            spec_select_from(i as int, model_f16_size_mb, available_mb) == spec_select(
                model_f16_size_mb,
                available_mb,
            ),
            spec_is_first_fit(
                spec_select(model_f16_size_mb, available_mb),
                model_f16_size_mb,
                available_mb,
            ),
        decreases 6 - i,
    {
        let level = levels[i];
        if level.estimated_size_mb(model_f16_size_mb) <= available_mb {
            return level;
        }
        i = i + 1;
    }
    QuantLevel::Q4_0
}

/// Jetson-optimized quantizer.
#[derive(Debug)]
pub struct JetsonQuantizer {
    level: QuantLevel,
    target_memory_mb: Option<u64>,
}

/// Result of quantization operation.
#[derive(Debug, Clone, Copy)]
pub struct QuantResult {
    /// Quantization level used
    pub level: QuantLevel,
    /// Original model size in MB
    pub original_size_mb: u64,
    /// Quantized model size in MB
    pub quantized_size_mb: u64,
    /// Estimated perplexity increase percentage
    pub estimated_perplexity_delta: Percent,
}

impl JetsonQuantizer {
    /// The level this quantizer works at, as a specification.
    pub closed spec fn spec_level(&self) -> QuantLevel {
        self.level
    }

    /// The memory the result should fit into, if one was set, as a
    /// specification.
    pub closed spec fn spec_target_memory_mb(&self) -> Option<u64> {
        self.target_memory_mb
    }

    /// Create quantizer with specified level.
    #[must_use]
    pub fn new(level: QuantLevel) -> (quantizer: Self)
        ensures
            quantizer.spec_level() == level,
            quantizer.spec_target_memory_mb().is_none(),
    {
        JetsonQuantizer { level, target_memory_mb: None }
    }

    /// Set target memory budget.
    #[must_use]
    pub fn with_target_memory_mb(self, budget: u64) -> (quantizer: Self)
        ensures
            quantizer.spec_level() == self.spec_level(),
            quantizer.spec_target_memory_mb() == Some(budget),
    {
        JetsonQuantizer { level: self.level, target_memory_mb: Some(budget) }
    }

    /// Get current quantization level.
    #[must_use]
    #[verifier::when_used_as_spec(spec_level)]
    pub fn level(&self) -> (level: QuantLevel)
        ensures
            level == self.spec_level(),
    {
        self.level
    }

    /// Get the target memory budget, if one was set.
    #[must_use]
    #[verifier::when_used_as_spec(spec_target_memory_mb)]
    pub fn target_memory_mb(&self) -> (target: Option<u64>)
        ensures
            target == self.spec_target_memory_mb(),
    {
        self.target_memory_mb
    }

    /// Select optimal quantization level for memory budget.
    ///
    /// The choice depends on the model's F16 size and on what the budget has
    /// available, and on nothing else; see [`select_level`].
    #[must_use]
    pub fn select_for_budget(model_f16_size_mb: u64, budget: &MemoryBudget) -> (level: QuantLevel)
        ensures
            level == spec_select(model_f16_size_mb, budget@.available() as u64),
            spec_is_first_fit(level, model_f16_size_mb, budget@.available() as u64),
    {
        let available: u64 = budget.available_mb();
        select_level(model_f16_size_mb, available)
    }

    /// Quantize model bytes.
    ///
    /// No model is transformed here: the result reports the sizes of a
    /// 14000 MB F16 model at this quantizer's level.
    pub fn quantize(&self, model: &[u8]) -> (outcome: Result<QuantResult, Error>)
        ensures
            outcome matches Ok(result) && {
                &&& result.level == self.spec_level()
                &&& result.original_size_mb == 14000
                &&& result.quantized_size_mb == self.spec_level().spec_estimated_size_mb(14000)
                &&& result.estimated_perplexity_delta
                    == self.spec_level().spec_perplexity_delta_percent()
            },
    {
        Ok(
            QuantResult {
                level: self.level,
                original_size_mb: 14000,
                quantized_size_mb: self.level.estimated_size_mb(14000),
                estimated_perplexity_delta: self.level.perplexity_delta_percent(),
            },
        )
    }
}

impl QuantResult {
    /// The compression ratio, as a specification: original size over
    /// quantized size, and zero where the quantized size is zero.
    pub open spec fn spec_compression_ratio(&self) -> Ratio {
        if self.quantized_size_mb == 0 {
            Ratio { num: 0, den: 1 }
        } else {
            Ratio { num: self.original_size_mb, den: self.quantized_size_mb }
        }
    }

    /// Get compression ratio.
    #[must_use]
    pub fn compression_ratio(&self) -> (ratio: Ratio)
        ensures
            ratio == self.spec_compression_ratio(),
            ratio.den > 0,
    {
        if self.quantized_size_mb == 0 {
            return Ratio { num: 0, den: 1 };
        }
        Ratio { num: self.original_size_mb, den: self.quantized_size_mb }
    }
}

} // verus!
