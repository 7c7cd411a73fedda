//! Hardware profiles: how many cores, which GPU acceleration, how much
//! memory, and the performance tier that decides transcription settings.
//!
//! Probing the machine (environment variables, driver files, the operating
//! system's memory figures) happens outside the library; the library turns
//! what was probed into a profile and the profile into settings.
use vstd::prelude::*;

verus! {

/// Which kind of GPU acceleration is available.
#[derive(Clone, Copy, Debug, PartialEq, Eq, Structural)]
pub enum GpuType {
    /// No GPU acceleration.
    NoGpu,
    /// Apple Silicon.
    Metal,
    /// NVIDIA.
    Cuda,
    /// AMD/Intel.
    Vulkan,
    /// Generic GPU compute.
    OpenCL,
}

/// How capable the machine is.
#[derive(Clone, Copy, Debug, PartialEq, Eq, Structural)]
pub enum PerformanceTier {
    /// CPU-only, limited resources.
    Low,
    /// CPU-only but powerful, or basic GPU.
    Medium,
    /// Dedicated GPU with good compute.
    High,
    /// High-end hardware with fast GPU.
    Ultra,
}

/// Preferred audio chunk size for transcription.
#[derive(Clone, Copy, Debug, PartialEq, Eq, Structural)]
pub enum ChunkSizePreference {
    /// Smaller chunks for responsiveness.
    Fast,
    /// Medium chunks for balance.
    Balanced,
    /// Larger chunks for accuracy.
    Quality,
}

/// Hardware capabilities for audio processing.
#[derive(Clone, Copy, Debug, PartialEq, Eq, Structural)]
pub struct HardwareProfile {
    pub cpu_cores: u8,
    pub has_gpu_acceleration: bool,
    pub gpu_type: GpuType,
    pub memory_gb: u8,
    pub performance_tier: PerformanceTier,
}

/// Whisper settings adapted to the hardware.  The sampling temperature is
/// given in tenths (`2` stands for `0.2`).
#[derive(Clone, Copy, Debug, PartialEq, Eq, Structural)]
pub struct AdaptiveWhisperConfig {
    pub beam_size: usize,
    pub temperature_tenths: u32,
    pub use_gpu: bool,
    pub max_threads: Option<usize>,
    pub chunk_size_preference: ChunkSizePreference,
}

/// `sysinfo::System::new_all()` then `total_memory()`: the machine's total
/// memory in bytes, or 0 when the system information cannot be read.  It
/// depends on the machine, so nothing is stated of it.
#[verifier::external_body]
fn system_total_memory_bytes() -> (r: u64) {
    match sysinfo::System::new_all() {
        Ok(sys) => sys.total_memory(),
        Err(_) => 0,
    }
}

/// The rank of a tier, `Low` lowest.
pub open spec fn tier_rank(t: PerformanceTier) -> int {
    match t {
        PerformanceTier::Low => 0,
        PerformanceTier::Medium => 1,
        PerformanceTier::High => 2,
        PerformanceTier::Ultra => 3,
    }
}

/// The performance tier of a machine.
pub open spec fn tier_spec(cpu_cores: u8, gpu: GpuType, memory_gb: u8) -> PerformanceTier {
    match gpu {
        GpuType::Metal | GpuType::Cuda => if memory_gb >= 16 && cpu_cores >= 8 {
            PerformanceTier::Ultra
        } else {
            PerformanceTier::High
        },
        GpuType::Vulkan | GpuType::OpenCL => if memory_gb >= 12 && cpu_cores >= 6 {
            PerformanceTier::High
        } else {
            PerformanceTier::Medium
        },
        GpuType::NoGpu => if cpu_cores >= 8 && memory_gb >= 16 {
            PerformanceTier::Medium
        } else {
            PerformanceTier::Low
        },
    }
}

/// The core count reported from the available parallelism (at most 255),
/// or 4 when it is unknown.
pub open spec fn cores_spec(parallelism: Option<usize>) -> u8 {
    match parallelism {
        Some(n) => if n >= 255 {
            255u8
        } else {
            n as u8
        },
        None => 4u8,
    }
}

/// Memory in whole GiB, narrowed to a byte as `as u8` does, and at least 1.
pub open spec fn memory_gb_spec(total_bytes: u64) -> u8 {
    let g = (total_bytes / 1073741824) % 256;
    if g == 0 {
        1u8
    } else {
        g as u8
    }
}

/// The GPU found by the probes, in order of preference: Metal, CUDA, Vulkan.
pub open spec fn gpu_spec(metal: bool, cuda: bool, vulkan: bool) -> (bool, GpuType) {
    if metal {
        (true, GpuType::Metal)
    } else if cuda {
        (true, GpuType::Cuda)
    } else if vulkan {
        (true, GpuType::Vulkan)
    } else {
        (false, GpuType::NoGpu)
    }
}

/// The Whisper settings for a profile; Windows uses one balanced setting.
pub open spec fn whisper_config_spec(p: HardwareProfile, on_windows: bool) -> AdaptiveWhisperConfig {
    let cores = p.cpu_cores as usize;
    let min = |a: usize, b: usize| if a <= b { a } else { b };
    if on_windows {
        AdaptiveWhisperConfig {
            beam_size: 3,
            temperature_tenths: 2,
            use_gpu: p.has_gpu_acceleration,
            max_threads: Some(min(cores, 8)),
            chunk_size_preference: ChunkSizePreference::Balanced,
        }
    } else {
        match p.performance_tier {
            PerformanceTier::Ultra => AdaptiveWhisperConfig {
                beam_size: 8,
                temperature_tenths: 1,
                use_gpu: p.has_gpu_acceleration,
                max_threads: Some(min(cores, 8)),
                chunk_size_preference: ChunkSizePreference::Quality,
            },
            PerformanceTier::High => AdaptiveWhisperConfig {
                beam_size: 5,
                temperature_tenths: 2,
                use_gpu: p.has_gpu_acceleration,
                max_threads: Some(min(cores, 6)),
                chunk_size_preference: ChunkSizePreference::Balanced,
            },
            PerformanceTier::Medium => AdaptiveWhisperConfig {
                beam_size: 3,
                temperature_tenths: 3,
                use_gpu: p.has_gpu_acceleration,
                max_threads: Some(min(cores, 4)),
                chunk_size_preference: ChunkSizePreference::Balanced,
            },
            PerformanceTier::Low => AdaptiveWhisperConfig {
                beam_size: 1,
                temperature_tenths: 4,
                use_gpu: false,
                max_threads: Some(2),
                chunk_size_preference: ChunkSizePreference::Fast,
            },
        }
    }
}

/// The chunk duration in milliseconds recommended for a tier.
pub open spec fn chunk_duration_spec(t: PerformanceTier) -> u32 {
    match t {
        PerformanceTier::Ultra => 25000,
        PerformanceTier::High => 20000,
        PerformanceTier::Medium => 15000,
        PerformanceTier::Low => 10000,
    }
}

/// The highest sample rate times channel count a tier handles in real time.
pub open spec fn realtime_limit_spec(t: PerformanceTier) -> u32 {
    match t {
        PerformanceTier::Ultra => 192000,
        PerformanceTier::High => 96000,
        PerformanceTier::Medium => 48000,
        PerformanceTier::Low => 22050,
    }
}

impl HardwareProfile {
    /// The core count from `std::thread::available_parallelism()`.
    pub fn cores_from_parallelism(parallelism: Option<usize>) -> (r: u8)
        ensures
            r == cores_spec(parallelism),
    {
        match parallelism {
            Some(n) => if n >= 255 {
                255
            } else {
                n as u8
            },
            None => 4,
        }
    }

    /// The memory size in GiB from the total reported in bytes.
    pub fn memory_gb_from_bytes(total_bytes: u64) -> (r: u8)
        ensures
            r == memory_gb_spec(total_bytes),
    {
        let g = ((total_bytes / 1073741824) % 256) as u8;
        if g == 0 {
            1
        } else {
            g
        }
    }

    /// The machine's memory in GiB, as the operating system reports it.
    pub fn detect_memory_gb() -> (r: u8)
        ensures
            exists|total_bytes: u64| r == memory_gb_spec(total_bytes),
            r >= 1,
    {
        let total = system_total_memory_bytes();
        Self::memory_gb_from_bytes(total)
    }

    /// The GPU acceleration found by the probes.
    pub fn gpu_from_probes(metal: bool, cuda: bool, vulkan: bool) -> (r: (bool, GpuType))
        ensures
            r == gpu_spec(metal, cuda, vulkan),
    {
        if metal {
            (true, GpuType::Metal)
        } else if cuda {
            (true, GpuType::Cuda)
        } else if vulkan {
            (true, GpuType::Vulkan)
        } else {
            (false, GpuType::NoGpu)
        }
    }

    /// The performance tier of a machine.
    pub fn calculate_performance_tier(cpu_cores: u8, gpu_type: &GpuType, memory_gb: u8) -> (r:
        PerformanceTier)
        ensures
            r == tier_spec(cpu_cores, *gpu_type, memory_gb),
    {
        match gpu_type {
            GpuType::Metal => if memory_gb >= 16 && cpu_cores >= 8 {
                PerformanceTier::Ultra
            } else {
                PerformanceTier::High
            },
            GpuType::Cuda => if memory_gb >= 16 && cpu_cores >= 8 {
                PerformanceTier::Ultra
            } else {
                PerformanceTier::High
            },
            GpuType::Vulkan | GpuType::OpenCL => if memory_gb >= 12 && cpu_cores >= 6 {
                PerformanceTier::High
            } else {
                PerformanceTier::Medium
            },
            GpuType::NoGpu => if cpu_cores >= 8 && memory_gb >= 16 {
                PerformanceTier::Medium
            } else {
                PerformanceTier::Low
            },
        }
    }

    /// The profile of a machine from what was probed.
    pub fn from_probes(
        parallelism: Option<usize>,
        metal: bool,
        cuda: bool,
        vulkan: bool,
        total_memory_bytes: u64,
    ) -> (r: HardwareProfile)
        ensures
            r.cpu_cores == cores_spec(parallelism),
            (r.has_gpu_acceleration, r.gpu_type) == gpu_spec(metal, cuda, vulkan),
            r.memory_gb == memory_gb_spec(total_memory_bytes),
            r.performance_tier == tier_spec(r.cpu_cores, r.gpu_type, r.memory_gb),
    {
        let cpu_cores = Self::cores_from_parallelism(parallelism);
        let (has_gpu_acceleration, gpu_type) = Self::gpu_from_probes(metal, cuda, vulkan);
        let memory_gb = Self::memory_gb_from_bytes(total_memory_bytes);
        let performance_tier = Self::calculate_performance_tier(cpu_cores, &gpu_type, memory_gb);
        HardwareProfile { cpu_cores, has_gpu_acceleration, gpu_type, memory_gb, performance_tier }
    }

    /// Whisper settings for this hardware; `on_windows` selects the single
    /// balanced setting used on Windows.
    pub fn get_whisper_config_for(&self, on_windows: bool) -> (r: AdaptiveWhisperConfig)
        ensures
            r == whisper_config_spec(*self, on_windows),
    {
        let cores = self.cpu_cores as usize;
        if on_windows {
            return AdaptiveWhisperConfig {
                beam_size: 3,
                temperature_tenths: 2,
                use_gpu: self.has_gpu_acceleration,
                max_threads: Some(if cores <= 8 { cores } else { 8 }),
                chunk_size_preference: ChunkSizePreference::Balanced,
            };
        }
        match self.performance_tier {
            PerformanceTier::Ultra => AdaptiveWhisperConfig {
                beam_size: 8,
                temperature_tenths: 1,
                use_gpu: self.has_gpu_acceleration,
                max_threads: Some(if cores <= 8 { cores } else { 8 }),
                chunk_size_preference: ChunkSizePreference::Quality,
            },
            PerformanceTier::High => AdaptiveWhisperConfig {
                beam_size: 5,
                temperature_tenths: 2,
                use_gpu: self.has_gpu_acceleration,
                max_threads: Some(if cores <= 6 { cores } else { 6 }),
                chunk_size_preference: ChunkSizePreference::Balanced,
            },
            PerformanceTier::Medium => AdaptiveWhisperConfig {
                beam_size: 3,
                temperature_tenths: 3,
                use_gpu: self.has_gpu_acceleration,
                max_threads: Some(if cores <= 4 { cores } else { 4 }),
                chunk_size_preference: ChunkSizePreference::Balanced,
            },
            PerformanceTier::Low => AdaptiveWhisperConfig {
                beam_size: 1,
                temperature_tenths: 4,
                use_gpu: false,
                max_threads: Some(2),
                chunk_size_preference: ChunkSizePreference::Fast,
            },
        }
    }

    /// Recommended chunk duration in milliseconds.
    pub fn get_recommended_chunk_duration_ms(&self) -> (r: u32)
        ensures
            r == chunk_duration_spec(self.performance_tier),
    {
        match self.performance_tier {
            PerformanceTier::Ultra => 25000,
            PerformanceTier::High => 20000,
            PerformanceTier::Medium => 15000,
            PerformanceTier::Low => 10000,
        }
    }

    /// Whether the hardware keeps up in real time with audio of this sample
    /// rate and channel count.
    pub fn can_handle_realtime(&self, sample_rate: u32, channels: u16) -> (r: bool)
        requires
            sample_rate * channels <= u32::MAX,
        ensures
            r == (sample_rate * channels <= realtime_limit_spec(self.performance_tier)),
    {
        let data_rate = sample_rate * channels as u32;
        match self.performance_tier {
            PerformanceTier::Ultra => data_rate <= 192000,
            PerformanceTier::High => data_rate <= 96000,
            PerformanceTier::Medium => data_rate <= 48000,
            PerformanceTier::Low => data_rate <= 22050,
        }
    }
}

/// How the tier follows the machine: a Metal or CUDA GPU gives at least
/// High, and Ultra exactly with 16 GB and 8 cores; a Vulkan or OpenCL GPU
/// gives Medium or High, and High exactly with 12 GB and 6 cores; without a
/// GPU the tier is at most Medium, and Medium exactly with 8 cores and
/// 16 GB.
pub proof fn lemma_tier_thresholds(c: u8, m: u8)
    ensures
        tier_rank(tier_spec(c, GpuType::Metal, m)) >= 2,
        tier_rank(tier_spec(c, GpuType::Cuda, m)) >= 2,
        (tier_rank(tier_spec(c, GpuType::Metal, m)) == 3) <==> (m >= 16 && c >= 8),
        (tier_rank(tier_spec(c, GpuType::Cuda, m)) == 3) <==> (m >= 16 && c >= 8),
        1 <= tier_rank(tier_spec(c, GpuType::Vulkan, m)) <= 2,
        1 <= tier_rank(tier_spec(c, GpuType::OpenCL, m)) <= 2,
        (tier_rank(tier_spec(c, GpuType::Vulkan, m)) == 2) <==> (m >= 12 && c >= 6),
        (tier_rank(tier_spec(c, GpuType::OpenCL, m)) == 2) <==> (m >= 12 && c >= 6),
        tier_rank(tier_spec(c, GpuType::NoGpu, m)) <= 1,
        (tier_rank(tier_spec(c, GpuType::NoGpu, m)) == 1) <==> (c >= 8 && m >= 16),
{
}

/// A higher tier is given longer chunks and keeps up with more audio in
/// real time; the Medium tier handles 48 kHz mono and nothing above
/// 48 000 samples per second.
pub proof fn lemma_tier_capacity_monotone(a: PerformanceTier, b: PerformanceTier)
    ensures
        tier_rank(a) < tier_rank(b) ==> chunk_duration_spec(a) < chunk_duration_spec(b),
        tier_rank(a) < tier_rank(b) ==> realtime_limit_spec(a) < realtime_limit_spec(b),
        realtime_limit_spec(PerformanceTier::Medium) == 48000,
        chunk_duration_spec(PerformanceTier::Low) == 10000,
{
}

/// A higher tier never gets a narrower beam search: Low searches one beam,
/// Ultra eight; off Windows the thread count never exceeds the cores.
pub proof fn lemma_whisper_beam_by_tier(p: HardwareProfile, q: HardwareProfile)
    requires
        tier_rank(p.performance_tier) <= tier_rank(q.performance_tier),
    ensures
        whisper_config_spec(p, false).beam_size <= whisper_config_spec(q, false).beam_size,
        p.performance_tier == PerformanceTier::Low ==> whisper_config_spec(p, false).beam_size == 1
            && !whisper_config_spec(p, false).use_gpu,
        p.performance_tier == PerformanceTier::Ultra ==> whisper_config_spec(p, false).beam_size == 8,
        p.performance_tier != PerformanceTier::Low ==> (whisper_config_spec(p, false).max_threads
            matches Some(n) && n <= p.cpu_cores),
{
}

/// More cores or more memory never lower the performance tier.
pub proof fn lemma_tier_monotone(c1: u8, m1: u8, c2: u8, m2: u8, gpu: GpuType)
    requires
        c1 <= c2,
        m1 <= m2,
    ensures
        tier_rank(tier_spec(c1, gpu, m1)) <= tier_rank(tier_spec(c2, gpu, m2)),
{
}

/// A GPU never lowers the tier against the same machine without one.
pub proof fn lemma_gpu_never_lowers_tier(c: u8, m: u8, gpu: GpuType)
    ensures
        tier_rank(tier_spec(c, GpuType::NoGpu, m)) <= tier_rank(tier_spec(c, gpu, m)),
{
}

/// Every Whisper setting uses a beam of 1 to 8 and a temperature in [0, 1].
pub proof fn lemma_whisper_config_bounds(p: HardwareProfile, on_windows: bool)
    ensures
        1 <= whisper_config_spec(p, on_windows).beam_size <= 8,
        whisper_config_spec(p, on_windows).temperature_tenths <= 10,
{
}

} // verus!
