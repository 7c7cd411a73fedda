//! Which speech-recognition and language models suit the detected hardware.
use vstd::prelude::*;
use crate::hardware::{GpuType, HardwareProfile, PerformanceTier};
use crate::text::{contains, contains_seq, decimal, push_decimal, str_eq, to_owned_string};

verus! {

broadcast use vstd::string::group_string_axioms;

/// How well a model suits the hardware.
#[derive(Clone, Copy, Debug, PartialEq, Eq, Structural)]
pub enum RecommendationLevel {
    /// Recommended for this hardware: will run great.
    Recommended,
    /// Compatible but not optimal.
    Compatible,
    /// May be slow on this hardware.
    NotRecommended,
    /// Too demanding for this hardware.
    TooHeavy,
}

/// A recommendation for one model.
#[derive(Clone, Debug)]
pub struct ModelRecommendation {
    pub model_name: String,
    pub recommendation: RecommendationLevel,
    pub reason: String,
}

/// Hardware profile shown to the user.
#[derive(Clone, Debug)]
pub struct HardwareProfileInfo {
    pub cpu_cores: u8,
    pub has_gpu: bool,
    pub gpu_type: String,
    pub memory_gb: u8,
    pub performance_tier: String,
    pub tier_description: String,
}

/// All recommendations for a machine.
#[derive(Clone, Debug)]
pub struct HardwareRecommendations {
    pub hardware: HardwareProfileInfo,
    pub whisper_models: Vec<ModelRecommendation>,
    pub llm_models: Vec<ModelRecommendation>,
    pub best_whisper_model: String,
    pub best_llm_model: Option<String>,
}

/// Whisper model `i` of the catalog, with its size in MB.
pub open spec fn whisper_catalog_entry(i: int) -> (Seq<char>, u32) {
    if i == 0 {
        ("tiny-q5_1"@, 32)
    } else if i == 1 {
        ("base-q5_1"@, 60)
    } else if i == 2 {
        ("small-q5_1"@, 190)
    } else if i == 3 {
        ("tiny-q8_0"@, 44)
    } else if i == 4 {
        ("base-q8_0"@, 82)
    } else if i == 5 {
        ("small-q8_0"@, 264)
    } else if i == 6 {
        ("medium-q5_0"@, 539)
    } else if i == 7 {
        ("large-v3-turbo-q5_0"@, 574)
    } else if i == 8 {
        ("medium-q8_0"@, 823)
    } else if i == 9 {
        ("large-v3-turbo-q8_0"@, 874)
    } else if i == 10 {
        ("large-v3-q5_0"@, 1080)
    } else if i == 11 {
        ("tiny"@, 78)
    } else if i == 12 {
        ("base"@, 148)
    } else if i == 13 {
        ("small"@, 488)
    } else if i == 14 {
        ("tiny.en"@, 78)
    } else if i == 15 {
        ("base.en"@, 148)
    } else if i == 16 {
        ("small.en"@, 488)
    } else if i == 17 {
        ("medium"@, 1530)
    } else if i == 18 {
        ("medium.en"@, 1530)
    } else if i == 19 {
        ("large-v3-turbo"@, 1620)
    } else if i == 20 {
        ("large-v3"@, 3100)
    } else {
        (Seq::empty(), 0)
    }
}

/// The Whisper models considered, smallest quantized models first.
pub open spec fn whisper_catalog() -> Seq<(Seq<char>, u32)> {
    Seq::new(21, |i: int| whisper_catalog_entry(i))
}

/// Language model `i` of the catalog, with its size in tenths of a GB.
pub open spec fn llm_catalog_entry(i: int) -> (Seq<char>, u32) {
    if i == 0 {
        ("llama-3.2-1b-instruct"@, 8)
    } else if i == 1 {
        ("llama-3.2-3b-instruct"@, 20)
    } else if i == 2 {
        ("phi-3.5-mini"@, 22)
    } else if i == 3 {
        ("mistral-7b-instruct"@, 44)
    } else if i == 4 {
        ("qwen-2.5-7b-instruct"@, 45)
    } else {
        (Seq::empty(), 0)
    }
}

/// The language models considered.
pub open spec fn llm_catalog() -> Seq<(Seq<char>, u32)> {
    Seq::new(5, |i: int| llm_catalog_entry(i))
}

/// Entry `i` of the Whisper catalog.
fn whisper_catalog_item(i: usize) -> (r: (&'static str, u32))
    requires
        i < 21,
    ensures
        (r.0@, r.1) == whisper_catalog()[i as int],
{
    match i {
        0 => ("tiny-q5_1", 32),
        1 => ("base-q5_1", 60),
        2 => ("small-q5_1", 190),
        3 => ("tiny-q8_0", 44),
        4 => ("base-q8_0", 82),
        5 => ("small-q8_0", 264),
        6 => ("medium-q5_0", 539),
        7 => ("large-v3-turbo-q5_0", 574),
        8 => ("medium-q8_0", 823),
        9 => ("large-v3-turbo-q8_0", 874),
        10 => ("large-v3-q5_0", 1080),
        11 => ("tiny", 78),
        12 => ("base", 148),
        13 => ("small", 488),
        14 => ("tiny.en", 78),
        15 => ("base.en", 148),
        16 => ("small.en", 488),
        17 => ("medium", 1530),
        18 => ("medium.en", 1530),
        19 => ("large-v3-turbo", 1620),
        _ => ("large-v3", 3100),
    }
}

/// Entry `i` of the language model catalog.
fn llm_catalog_item(i: usize) -> (r: (&'static str, u32))
    requires
        i < 5,
    ensures
        (r.0@, r.1) == llm_catalog()[i as int],
{
    match i {
        0 => ("llama-3.2-1b-instruct", 8),
        1 => ("llama-3.2-3b-instruct", 20),
        2 => ("phi-3.5-mini", 22),
        3 => ("mistral-7b-instruct", 44),
        _ => ("qwen-2.5-7b-instruct", 45),
    }
}

/// A recommendation level with its reason.
pub type Advice = (RecommendationLevel, Seq<char>);

/// The advice for a Whisper model on a machine of tier `t`.
pub open spec fn whisper_advice(t: PerformanceTier, name: Seq<char>, size_mb: u32) -> Advice {
    match t {
        PerformanceTier::Low => if contains_seq(name, "tiny-q"@) || name == "tiny"@ {
            (RecommendationLevel::Recommended, "Lightweight model, works well on basic hardware"@)
        } else if contains_seq(name, "base-q"@) {
            (RecommendationLevel::Recommended, "Good balance for basic hardware"@)
        } else if name == "base"@ || name == "tiny.en"@ || name == "base.en"@ {
            (RecommendationLevel::Compatible, "May work but quantized versions are faster"@)
        } else if size_mb > 500 {
            (RecommendationLevel::TooHeavy, "Too demanding for this hardware"@)
        } else {
            (RecommendationLevel::NotRecommended, "May be slow on basic hardware"@)
        },
        PerformanceTier::Medium => if contains_seq(name, "small-q"@) || contains_seq(
            name,
            "base-q"@,
        ) {
            (RecommendationLevel::Recommended, "Optimized for your hardware"@)
        } else if name == "base"@ || name == "small"@ || contains_seq(name, "tiny"@) {
            (RecommendationLevel::Recommended, "Works well on your hardware"@)
        } else if contains_seq(name, "base.en"@) || contains_seq(name, "small.en"@) {
            (RecommendationLevel::Recommended, "English-optimized, good performance"@)
        } else if contains_seq(name, "medium-q"@) {
            (RecommendationLevel::Compatible, "Will work but may be slower"@)
        } else if size_mb > 1500 {
            (RecommendationLevel::TooHeavy, "Too demanding for this hardware"@)
        } else {
            (RecommendationLevel::NotRecommended, "May cause performance issues"@)
        },
        PerformanceTier::High => if contains_seq(name, "large-v3-turbo"@) || contains_seq(
            name,
            "medium"@,
        ) || contains_seq(name, "small"@) {
            (RecommendationLevel::Recommended, "Great choice for your hardware"@)
        } else if contains_seq(name, "base"@) || contains_seq(name, "tiny"@) {
            (
                RecommendationLevel::Compatible,
                "Will work fast, but larger models offer better accuracy"@,
            )
        } else if name == "large-v3"@ {
            (RecommendationLevel::NotRecommended, "Very large model, may be slow"@)
        } else if contains_seq(name, "large-v3-q"@) {
            (RecommendationLevel::Recommended, "Quantized large model, good balance"@)
        } else {
            (RecommendationLevel::Compatible, "Compatible with your hardware"@)
        },
        PerformanceTier::Ultra => if name == "large-v3"@ || name == "large-v3-turbo"@ {
            (RecommendationLevel::Recommended, "Best accuracy, your hardware handles it well"@)
        } else if contains_seq(name, "medium"@) || contains_seq(name, "large"@) {
            (RecommendationLevel::Recommended, "Great performance on your hardware"@)
        } else {
            (
                RecommendationLevel::Compatible,
                "Works well, but larger models offer better accuracy"@,
            )
        },
    }
}

/// The advice for a language model of `size_tenths_gb` tenths of a GB on a
/// machine of tier `t` with `memory_gb` GiB of memory.
pub open spec fn llm_advice(t: PerformanceTier, memory_gb: u8, name: Seq<char>, size_tenths_gb: u32) -> Advice {
    match t {
        PerformanceTier::Low => if contains_seq(name, "1b"@) {
            (RecommendationLevel::Recommended, "Lightweight model for basic hardware"@)
        } else if size_tenths_gb <= 25 {
            (RecommendationLevel::NotRecommended, "May be slow on basic hardware"@)
        } else {
            (RecommendationLevel::TooHeavy, "Too demanding for this hardware"@)
        },
        PerformanceTier::Medium => if contains_seq(name, "1b"@) || contains_seq(name, "3b"@) {
            (RecommendationLevel::Recommended, "Good fit for your hardware"@)
        } else if contains_seq(name, "phi-3.5"@) {
            (RecommendationLevel::Compatible, "Works but may be slower"@)
        } else {
            (
                RecommendationLevel::TooHeavy,
                "Requires more RAM (you have "@ + decimal(memory_gb as nat) + "GB)"@,
            )
        },
        PerformanceTier::High => if size_tenths_gb <= 40 {
            (RecommendationLevel::Recommended, "Great choice for your hardware"@)
        } else {
            (RecommendationLevel::Compatible, "Will work but may be slower"@)
        },
        PerformanceTier::Ultra => if size_tenths_gb >= 40 {
            (RecommendationLevel::Recommended, "Best quality, your hardware handles it well"@)
        } else {
            (RecommendationLevel::Recommended, "Fast and efficient on your hardware"@)
        },
    }
}

/// The rank of a recommendation level, `TooHeavy` lowest.
pub open spec fn level_rank(l: RecommendationLevel) -> int {
    match l {
        RecommendationLevel::TooHeavy => 0,
        RecommendationLevel::NotRecommended => 1,
        RecommendationLevel::Compatible => 2,
        RecommendationLevel::Recommended => 3,
    }
}

/// A larger language model is never ranked above a smaller one of the same
/// name on the same machine.
pub proof fn lemma_llm_advice_size_monotone(t: PerformanceTier, memory_gb: u8, name: Seq<char>, s1: u32, s2: u32)
    requires
        s1 <= s2,
    ensures
        level_rank(llm_advice(t, memory_gb, name, s2).0) <= level_rank(llm_advice(t, memory_gb, name, s1).0),
{
}

/// How each tier treats language models: on the High tier every model up
/// to 4.0 GB is recommended and a larger one is compatible; on the Ultra
/// tier every model is recommended; on the Low tier only a 1B model is
/// recommended, and any other over 2.5 GB is too heavy; on the Medium tier
/// 1B and 3B models are recommended whatever their size.
pub proof fn lemma_llm_advice_by_tier(memory_gb: u8, name: Seq<char>, size_tenths_gb: u32)
    ensures
        size_tenths_gb <= 40 ==> llm_advice(PerformanceTier::High, memory_gb, name, size_tenths_gb).0
            == RecommendationLevel::Recommended,
        size_tenths_gb > 40 ==> llm_advice(PerformanceTier::High, memory_gb, name, size_tenths_gb).0
            == RecommendationLevel::Compatible,
        llm_advice(PerformanceTier::Ultra, memory_gb, name, size_tenths_gb).0 == RecommendationLevel::Recommended,
        (llm_advice(PerformanceTier::Low, memory_gb, name, size_tenths_gb).0 == RecommendationLevel::Recommended)
            <==> contains_seq(name, "1b"@),
        !contains_seq(name, "1b"@) && size_tenths_gb > 25 ==> llm_advice(
            PerformanceTier::Low,
            memory_gb,
            name,
            size_tenths_gb,
        ).0 == RecommendationLevel::TooHeavy,
        contains_seq(name, "1b"@) || contains_seq(name, "3b"@) ==> llm_advice(
            PerformanceTier::Medium,
            memory_gb,
            name,
            size_tenths_gb,
        ).0 == RecommendationLevel::Recommended,
{
}

/// On the Ultra tier no Whisper model is ranked below compatible, and the
/// full and turbo large models are recommended.
pub proof fn lemma_whisper_advice_ultra(name: Seq<char>, size_mb: u32)
    ensures
        level_rank(whisper_advice(PerformanceTier::Ultra, name, size_mb).0) >= 2,
        name == "large-v3"@ || name == "large-v3-turbo"@ ==> whisper_advice(PerformanceTier::Ultra, name, size_mb).0
            == RecommendationLevel::Recommended,
{
}

/// `m` recommends the model `name` with `advice`.
pub open spec fn advises(m: ModelRecommendation, name: Seq<char>, advice: Advice) -> bool {
    m.model_name@ == name && m.recommendation == advice.0 && m.reason@ == advice.1
}

/// The Whisper recommendations for tier `t`: one per catalog entry, in order.
pub open spec fn whisper_list(v: Seq<ModelRecommendation>, t: PerformanceTier) -> bool {
    &&& v.len() == whisper_catalog().len()
    &&& forall|i: int|
        0 <= i < v.len() ==> advises(
            #[trigger] v[i],
            whisper_catalog()[i].0,
            whisper_advice(t, whisper_catalog()[i].0, whisper_catalog()[i].1),
        )
}

/// The language model recommendations: one per catalog entry, in order.
pub open spec fn llm_list(v: Seq<ModelRecommendation>, t: PerformanceTier, memory_gb: u8) -> bool {
    &&& v.len() == llm_catalog().len()
    &&& forall|i: int|
        0 <= i < v.len() ==> advises(
            #[trigger] v[i],
            llm_catalog()[i].0,
            llm_advice(t, memory_gb, llm_catalog()[i].0, llm_catalog()[i].1),
        )
}

/// The first recommended model at or after `from`.
pub open spec fn first_recommended(v: Seq<ModelRecommendation>, from: int) -> Option<Seq<char>>
    decreases v.len() - from,
{
    if from < 0 || from >= v.len() {
        None
    } else if v[from].recommendation == RecommendationLevel::Recommended {
        Some(v[from].model_name@)
    } else {
        first_recommended(v, from + 1)
    }
}

/// The text shown for a GPU type.
pub open spec fn gpu_label(g: GpuType) -> Seq<char> {
    match g {
        GpuType::NoGpu => "None"@,
        GpuType::Metal => "Apple Metal"@,
        GpuType::Cuda => "NVIDIA CUDA"@,
        GpuType::Vulkan => "Vulkan"@,
        GpuType::OpenCL => "OpenCL"@,
    }
}

/// The name and description shown for a tier.
pub open spec fn tier_label(t: PerformanceTier) -> (Seq<char>, Seq<char>) {
    match t {
        PerformanceTier::Low => ("Low"@, "Basic hardware - use lightweight models"@),
        PerformanceTier::Medium => ("Medium"@, "Moderate hardware - most models will work"@),
        PerformanceTier::High => ("High"@, "Powerful hardware - large models supported"@),
        PerformanceTier::Ultra => ("Ultra"@, "High-end hardware - all models supported"@),
    }
}

/// A recommendation level with its reason.
fn advise(level: RecommendationLevel, reason: &str) -> (r: (RecommendationLevel, String))
    ensures
        r.0 == level,
        r.1@ == reason@,
{
    (level, to_owned_string(reason))
}

impl HardwareProfile {
    /// The profile as shown to the user.
    pub fn to_info(&self) -> (r: HardwareProfileInfo)
        ensures
            r.cpu_cores == self.cpu_cores,
            r.has_gpu == self.has_gpu_acceleration,
            r.gpu_type@ == gpu_label(self.gpu_type),
            r.memory_gb == self.memory_gb,
            r.performance_tier@ == tier_label(self.performance_tier).0,
            r.tier_description@ == tier_label(self.performance_tier).1,
    {
        let gpu_type_str = match self.gpu_type {
            GpuType::NoGpu => "None",
            GpuType::Metal => "Apple Metal",
            GpuType::Cuda => "NVIDIA CUDA",
            GpuType::Vulkan => "Vulkan",
            GpuType::OpenCL => "OpenCL",
        };
        let (tier_str, tier_desc) = match self.performance_tier {
            PerformanceTier::Low => ("Low", "Basic hardware - use lightweight models"),
            PerformanceTier::Medium => ("Medium", "Moderate hardware - most models will work"),
            PerformanceTier::High => ("High", "Powerful hardware - large models supported"),
            PerformanceTier::Ultra => ("Ultra", "High-end hardware - all models supported"),
        };
        HardwareProfileInfo {
            cpu_cores: self.cpu_cores,
            has_gpu: self.has_gpu_acceleration,
            gpu_type: to_owned_string(gpu_type_str),
            memory_gb: self.memory_gb,
            performance_tier: to_owned_string(tier_str),
            tier_description: to_owned_string(tier_desc),
        }
    }

    /// The advice for a Whisper model of `size_mb` MB on this hardware.
    pub fn recommend_whisper_model(&self, name: &str, size_mb: u32) -> (r: (
        RecommendationLevel,
        String,
    ))
        ensures
            (r.0, r.1@) == whisper_advice(self.performance_tier, name@, size_mb),
    {
        match self.performance_tier {
            PerformanceTier::Low => {
                if contains(name, "tiny-q") || str_eq(name, "tiny") {
                    advise(RecommendationLevel::Recommended, "Lightweight model, works well on basic hardware")
                } else if contains(name, "base-q") {
                    advise(RecommendationLevel::Recommended, "Good balance for basic hardware")
                } else if str_eq(name, "base") || str_eq(name, "tiny.en") || str_eq(name, "base.en") {
                    advise(RecommendationLevel::Compatible, "May work but quantized versions are faster")
                } else if size_mb > 500 {
                    advise(RecommendationLevel::TooHeavy, "Too demanding for this hardware")
                } else {
                    advise(RecommendationLevel::NotRecommended, "May be slow on basic hardware")
                }
            },
            PerformanceTier::Medium => {
                if contains(name, "small-q") || contains(name, "base-q") {
                    advise(RecommendationLevel::Recommended, "Optimized for your hardware")
                } else if str_eq(name, "base") || str_eq(name, "small") || contains(name, "tiny") {
                    advise(RecommendationLevel::Recommended, "Works well on your hardware")
                } else if contains(name, "base.en") || contains(name, "small.en") {
                    advise(RecommendationLevel::Recommended, "English-optimized, good performance")
                } else if contains(name, "medium-q") {
                    advise(RecommendationLevel::Compatible, "Will work but may be slower")
                } else if size_mb > 1500 {
                    advise(RecommendationLevel::TooHeavy, "Too demanding for this hardware")
                } else {
                    advise(RecommendationLevel::NotRecommended, "May cause performance issues")
                }
            },
            PerformanceTier::High => {
                if contains(name, "large-v3-turbo") || contains(name, "medium") || contains(
                    name,
                    "small",
                ) {
                    advise(RecommendationLevel::Recommended, "Great choice for your hardware")
                } else if contains(name, "base") || contains(name, "tiny") {
                    advise(
                        RecommendationLevel::Compatible,
                        "Will work fast, but larger models offer better accuracy",
                    )
                } else if str_eq(name, "large-v3") {
                    advise(RecommendationLevel::NotRecommended, "Very large model, may be slow")
                } else if contains(name, "large-v3-q") {
                    advise(RecommendationLevel::Recommended, "Quantized large model, good balance")
                } else {
                    advise(RecommendationLevel::Compatible, "Compatible with your hardware")
                }
            },
            PerformanceTier::Ultra => {
                if str_eq(name, "large-v3") || str_eq(name, "large-v3-turbo") {
                    advise(RecommendationLevel::Recommended, "Best accuracy, your hardware handles it well")
                } else if contains(name, "medium") || contains(name, "large") {
                    advise(RecommendationLevel::Recommended, "Great performance on your hardware")
                } else {
                    advise(
                        RecommendationLevel::Compatible,
                        "Works well, but larger models offer better accuracy",
                    )
                }
            },
        }
    }

    /// The advice for a language model of `size_tenths_gb` tenths of a GB.
    pub fn recommend_llm_model(&self, name: &str, size_tenths_gb: u32) -> (r: (
        RecommendationLevel,
        String,
    ))
        ensures
            (r.0, r.1@) == llm_advice(self.performance_tier, self.memory_gb, name@, size_tenths_gb),
    {
        match self.performance_tier {
            PerformanceTier::Low => {
                if contains(name, "1b") {
                    advise(RecommendationLevel::Recommended, "Lightweight model for basic hardware")
                } else if size_tenths_gb <= 25 {
                    advise(RecommendationLevel::NotRecommended, "May be slow on basic hardware")
                } else {
                    advise(RecommendationLevel::TooHeavy, "Too demanding for this hardware")
                }
            },
            PerformanceTier::Medium => {
                if contains(name, "1b") || contains(name, "3b") {
                    advise(RecommendationLevel::Recommended, "Good fit for your hardware")
                } else if contains(name, "phi-3.5") {
                    advise(RecommendationLevel::Compatible, "Works but may be slower")
                } else {
                    let mut reason = to_owned_string("Requires more RAM (you have ");
                    push_decimal(&mut reason, self.memory_gb as u64);
                    crate::text::push_str(&mut reason, "GB)");
                    (RecommendationLevel::TooHeavy, reason)
                }
            },
            PerformanceTier::High => {
                if size_tenths_gb <= 40 {
                    advise(RecommendationLevel::Recommended, "Great choice for your hardware")
                } else {
                    advise(RecommendationLevel::Compatible, "Will work but may be slower")
                }
            },
            PerformanceTier::Ultra => {
                if size_tenths_gb >= 40 {
                    advise(RecommendationLevel::Recommended, "Best quality, your hardware handles it well")
                } else {
                    advise(RecommendationLevel::Recommended, "Fast and efficient on your hardware")
                }
            },
        }
    }

    /// Recommendations for every Whisper model of the catalog, in order.
    pub fn get_whisper_recommendations(&self) -> (r: Vec<ModelRecommendation>)
        ensures
            whisper_list(r@, self.performance_tier),
    {
        let mut out: Vec<ModelRecommendation> = Vec::new();
        let mut i: usize = 0;
        while i < 21
            invariant
                i <= 21,
                out.len() == i,
                forall|j: int|
                    0 <= j < i ==> advises(
                        #[trigger] out@[j],
                        whisper_catalog()[j].0,
                        whisper_advice(
                            self.performance_tier,
                            whisper_catalog()[j].0,
                            whisper_catalog()[j].1,
                        ),
                    ),
            decreases 21 - i,
        {
            let (name, size_mb) = whisper_catalog_item(i);
            let (recommendation, reason) = self.recommend_whisper_model(name, size_mb);
            out.push(ModelRecommendation { model_name: to_owned_string(name), recommendation, reason });
            i = i + 1;
        }
        out
    }

    /// Recommendations for every language model of the catalog, in order.
    pub fn get_llm_recommendations(&self) -> (r: Vec<ModelRecommendation>)
        ensures
            llm_list(r@, self.performance_tier, self.memory_gb),
    {
        let mut out: Vec<ModelRecommendation> = Vec::new();
        let mut i: usize = 0;
        while i < 5
            invariant
                i <= 5,
                out.len() == i,
                forall|j: int|
                    0 <= j < i ==> advises(
                        #[trigger] out@[j],
                        llm_catalog()[j].0,
                        llm_advice(
                            self.performance_tier,
                            self.memory_gb,
                            llm_catalog()[j].0,
                            llm_catalog()[j].1,
                        ),
                    ),
            decreases 5 - i,
        {
            let (name, size) = llm_catalog_item(i);
            let (recommendation, reason) = self.recommend_llm_model(name, size);
            out.push(ModelRecommendation { model_name: to_owned_string(name), recommendation, reason });
            i = i + 1;
        }
        out
    }

    /// Model recommendations for this hardware: the hardware summary, advice
    /// for every catalog model, and the first recommended model of each kind
    /// (`base-q5_1` when no Whisper model is recommended).
    pub fn get_model_recommendations(&self) -> (r: HardwareRecommendations)
        ensures
            r.hardware.cpu_cores == self.cpu_cores,
            r.hardware.has_gpu == self.has_gpu_acceleration,
            r.hardware.gpu_type@ == gpu_label(self.gpu_type),
            r.hardware.memory_gb == self.memory_gb,
            r.hardware.performance_tier@ == tier_label(self.performance_tier).0,
            r.hardware.tier_description@ == tier_label(self.performance_tier).1,
            whisper_list(r.whisper_models@, self.performance_tier),
            llm_list(r.llm_models@, self.performance_tier, self.memory_gb),
            r.best_whisper_model@ == match first_recommended(r.whisper_models@, 0) {
                Some(n) => n,
                None => "base-q5_1"@,
            },
            match first_recommended(r.llm_models@, 0) {
                Some(n) => r.best_llm_model matches Some(b) && b@ == n,
                None => r.best_llm_model is None,
            },
    {
        let hardware = self.to_info();
        let whisper_models = self.get_whisper_recommendations();
        let llm_models = self.get_llm_recommendations();
        let best_whisper_model = match first_recommended_name(&whisper_models) {
            Some(n) => n,
            None => to_owned_string("base-q5_1"),
        };
        let best_llm_model = first_recommended_name(&llm_models);
        HardwareRecommendations { hardware, whisper_models, llm_models, best_whisper_model, best_llm_model }
    }
}

/// The name of the first recommended model of the list.
pub fn first_recommended_name(v: &Vec<ModelRecommendation>) -> (r: Option<String>)
    ensures
        match first_recommended(v@, 0) {
            Some(n) => r matches Some(b) && b@ == n,
            None => r is None,
        },
{
    let mut i: usize = 0;
    while i < v.len()
        invariant
            i <= v.len(),
            first_recommended(v@, 0) == first_recommended(v@, i as int),
        decreases v.len() - i,
    {
        if v[i].recommendation == RecommendationLevel::Recommended {
            return Some(v[i].model_name.clone());
        }
        i = i + 1;
    }
    None
}

} // verus!
