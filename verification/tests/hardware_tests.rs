use meeting_local::hardware::{ChunkSizePreference, GpuType, HardwareProfile, PerformanceTier};

fn detected_profile() -> HardwareProfile {
    let (parallelism, memory) = match sysinfo::System::new_all() {
        Ok(sys) => {
            let n = sys.cpus().len();
            (if n > 0 { Some(n) } else { None }, sys.total_memory())
        }
        Err(_) => (None, 0),
    };
    HardwareProfile::from_probes(parallelism, false, false, false, memory)
}

#[test]
fn test_hardware_detection() {
    let profile = detected_profile();
    assert!(profile.cpu_cores > 0);
}

#[test]
fn test_whisper_config_generation() {
    let profile = detected_profile();
    for on_windows in [false, true] {
        let config = profile.get_whisper_config_for(on_windows);
        assert!(config.beam_size >= 1 && config.beam_size <= 8);
        let temperature = config.temperature_tenths as f64 / 10.0;
        assert!(temperature >= 0.0 && temperature <= 1.0);
    }
}

#[test]
fn test_performance_tier_logic() {
    let low_tier = HardwareProfile::calculate_performance_tier(2, &GpuType::NoGpu, 4);
    assert_eq!(low_tier, PerformanceTier::Low);

    let high_tier = HardwareProfile::calculate_performance_tier(8, &GpuType::Metal, 16);
    assert_eq!(high_tier, PerformanceTier::Ultra);
}

#[test]
fn tier_grows_with_cores_and_memory() {
    let tiers = [
        HardwareProfile::calculate_performance_tier(2, &GpuType::NoGpu, 4),
        HardwareProfile::calculate_performance_tier(8, &GpuType::NoGpu, 16),
    ];
    assert_eq!(tiers, [PerformanceTier::Low, PerformanceTier::Medium]);
    assert_eq!(
        HardwareProfile::calculate_performance_tier(16, &GpuType::Cuda, 32),
        PerformanceTier::Ultra
    );
}

#[test]
fn gpu_does_not_lower_tier() {
    for gpu in [GpuType::NoGpu, GpuType::Metal, GpuType::Cuda, GpuType::Vulkan, GpuType::OpenCL] {
        let with = HardwareProfile::calculate_performance_tier(8, &gpu, 16);
        let without = HardwareProfile::calculate_performance_tier(8, &GpuType::NoGpu, 16);
        let rank = |t: PerformanceTier| match t {
            PerformanceTier::Low => 0,
            PerformanceTier::Medium => 1,
            PerformanceTier::High => 2,
            PerformanceTier::Ultra => 3,
        };
        assert!(rank(with) >= rank(without));
    }
}

#[test]
fn probes_give_profile() {
    let p = HardwareProfile::from_probes(Some(300), false, true, true, 16 * 1073741824);
    assert_eq!(p.cpu_cores, 255);
    assert!(p.has_gpu_acceleration);
    assert_eq!(p.gpu_type, GpuType::Cuda);
    assert_eq!(p.memory_gb, 16);
    let q = HardwareProfile::from_probes(None, false, false, false, 1000);
    assert_eq!(q.cpu_cores, 4);
    assert_eq!(q.memory_gb, 1);
    assert_eq!(q.gpu_type, GpuType::NoGpu);
    assert!(!q.has_gpu_acceleration);
    assert_eq!(q.performance_tier, PerformanceTier::Low);
}

#[test]
fn whisper_config_per_tier() {
    let mut p = HardwareProfile::from_probes(Some(12), false, false, false, 8 * 1073741824);
    p.performance_tier = PerformanceTier::Ultra;
    p.has_gpu_acceleration = true;
    let c = p.get_whisper_config_for(false);
    assert_eq!(c.beam_size, 8);
    assert_eq!(c.temperature_tenths, 1);
    assert_eq!(c.max_threads, Some(8));
    assert_eq!(c.chunk_size_preference, ChunkSizePreference::Quality);
    assert!(c.use_gpu);
    p.performance_tier = PerformanceTier::Low;
    let l = p.get_whisper_config_for(false);
    assert_eq!(l.beam_size, 1);
    assert!(!l.use_gpu);
    assert_eq!(l.max_threads, Some(2));
    let w = p.get_whisper_config_for(true);
    assert_eq!(w.beam_size, 3);
    assert_eq!(w.temperature_tenths, 2);
    assert_eq!(w.chunk_size_preference, ChunkSizePreference::Balanced);
}

#[test]
fn chunk_duration_and_realtime() {
    let mut p = HardwareProfile::from_probes(Some(4), false, false, false, 8 * 1073741824);
    p.performance_tier = PerformanceTier::Medium;
    assert_eq!(p.get_recommended_chunk_duration_ms(), 15000);
    assert!(p.can_handle_realtime(48000, 1));
    assert!(!p.can_handle_realtime(48000, 2));
    p.performance_tier = PerformanceTier::Low;
    assert_eq!(p.get_recommended_chunk_duration_ms(), 10000);
    assert!(p.can_handle_realtime(22050, 1));
    assert!(!p.can_handle_realtime(44100, 1));
}

#[test]
fn memory_is_read_from_the_machine() {
    let gb = HardwareProfile::detect_memory_gb();
    assert!(gb >= 1);
    let expected = match sysinfo::System::new_all() {
        Ok(sys) => HardwareProfile::memory_gb_from_bytes(sys.total_memory()),
        Err(_) => 1,
    };
    assert_eq!(gb, expected);
}
