use meeting_local::hardware::{GpuType, HardwareProfile, PerformanceTier};
use meeting_local::recommendations::RecommendationLevel;

#[test]
fn test_low_tier_recommendations() {
    let profile = HardwareProfile {
        cpu_cores: 4,
        has_gpu_acceleration: false,
        gpu_type: GpuType::NoGpu,
        memory_gb: 8,
        performance_tier: PerformanceTier::Low,
    };

    let recommendations = profile.get_model_recommendations();
    assert_eq!(recommendations.hardware.performance_tier, "Low");

    let tiny = recommendations.whisper_models.iter().find(|m| m.model_name == "tiny-q5_1").unwrap();
    assert_eq!(tiny.recommendation, RecommendationLevel::Recommended);

    let large = recommendations.whisper_models.iter().find(|m| m.model_name == "large-v3").unwrap();
    assert_eq!(large.recommendation, RecommendationLevel::TooHeavy);
}

#[test]
fn test_ultra_tier_recommendations() {
    let profile = HardwareProfile {
        cpu_cores: 16,
        has_gpu_acceleration: true,
        gpu_type: GpuType::Cuda,
        memory_gb: 32,
        performance_tier: PerformanceTier::Ultra,
    };

    let recommendations = profile.get_model_recommendations();
    assert_eq!(recommendations.hardware.performance_tier, "Ultra");

    let large = recommendations.whisper_models.iter().find(|m| m.model_name == "large-v3").unwrap();
    assert_eq!(large.recommendation, RecommendationLevel::Recommended);
}

#[test]
fn medium_tier_llm_reasons() {
    let profile = HardwareProfile {
        cpu_cores: 8,
        has_gpu_acceleration: false,
        gpu_type: GpuType::NoGpu,
        memory_gb: 8,
        performance_tier: PerformanceTier::Medium,
    };
    let r = profile.get_model_recommendations();
    assert_eq!(r.llm_models.len(), 5);
    let mistral = r.llm_models.iter().find(|m| m.model_name == "mistral-7b-instruct").unwrap();
    assert_eq!(mistral.recommendation, RecommendationLevel::TooHeavy);
    assert_eq!(mistral.reason, "Requires more RAM (you have 8GB)");
    let phi = r.llm_models.iter().find(|m| m.model_name == "phi-3.5-mini").unwrap();
    assert_eq!(phi.recommendation, RecommendationLevel::Compatible);
    assert_eq!(r.best_llm_model, Some("llama-3.2-1b-instruct".to_string()));
    assert_eq!(r.best_whisper_model, "tiny-q5_1");
    assert_eq!(r.hardware.gpu_type, "None");
    assert_eq!(r.hardware.tier_description, "Moderate hardware - most models will work");
}

#[test]
fn whisper_catalog_and_reasons() {
    let profile = HardwareProfile {
        cpu_cores: 8,
        has_gpu_acceleration: true,
        gpu_type: GpuType::Metal,
        memory_gb: 16,
        performance_tier: PerformanceTier::High,
    };
    let w = profile.get_whisper_recommendations();
    assert_eq!(w.len(), 21);
    assert_eq!(w[0].model_name, "tiny-q5_1");
    assert_eq!(w[20].model_name, "large-v3");
    assert_eq!(w[20].recommendation, RecommendationLevel::NotRecommended);
    assert_eq!(w[20].reason, "Very large model, may be slow");
    let (level, reason) = profile.recommend_whisper_model("large-v3-q5_0", 1080);
    assert_eq!(level, RecommendationLevel::Recommended);
    assert_eq!(reason, "Quantized large model, good balance");
    let r = profile.get_model_recommendations();
    assert_eq!(r.best_whisper_model, "small-q5_1");
    assert_eq!(r.hardware.gpu_type, "Apple Metal");
}

#[test]
fn low_tier_llm() {
    let profile = HardwareProfile {
        cpu_cores: 2,
        has_gpu_acceleration: false,
        gpu_type: GpuType::NoGpu,
        memory_gb: 4,
        performance_tier: PerformanceTier::Low,
    };
    let (level, reason) = profile.recommend_llm_model("phi-3.5-mini", 22);
    assert_eq!(level, RecommendationLevel::NotRecommended);
    assert_eq!(reason, "May be slow on basic hardware");
    let (level, _) = profile.recommend_llm_model("mistral-7b-instruct", 44);
    assert_eq!(level, RecommendationLevel::TooHeavy);
}
