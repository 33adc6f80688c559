use vstd::prelude::*;

verus! {

/// A sample rate in Hz.
#[derive(Debug, Clone, Copy, PartialEq, Eq, Structural)]
pub struct SampleRate(pub u32);

/// A sample width in bits.
#[derive(Debug, Clone, Copy, PartialEq, Eq, Structural)]
pub struct BitsPerSample(pub u16);

/// The formats an output device accepts.
#[derive(Clone)]
pub struct Capabilities {
    pub sample_rates: Vec<SampleRate>,
    pub bits_per_samples: Vec<BitsPerSample>,
}

/// The parameters a stream is opened with.
#[derive(Debug, Clone, Copy, PartialEq, Eq, Structural)]
pub struct StreamParams {
    pub channels: u8,
    pub samplerate: SampleRate,
    pub bits_per_sample: BitsPerSample,
    pub exclusive: bool,
    pub pollmode: bool,
}

/// The rates probed on every backend, in increasing order.
pub open spec fn all_rates() -> Seq<u32> {
    seq![8000u32, 11025, 16000, 22050, 44100, 48000, 88200, 96000, 176400, 192000, 352800, 384000, 768000]
}

/// The sample widths probed on every backend, in increasing order.
pub open spec fn all_bits() -> Seq<u16> {
    seq![16u16, 24, 32]
}

impl Capabilities {
    /// The rates of this capability set, as plain numbers.
    pub open spec fn rates(&self) -> Seq<u32> {
        self.sample_rates@.map_values(|r: SampleRate| r.0)
    }

    /// The sample widths of this capability set, as plain numbers.
    pub open spec fn bits(&self) -> Seq<u16> {
        self.bits_per_samples@.map_values(|b: BitsPerSample| b.0)
    }

    /// Every format the player knows about.
    pub fn all_possible() -> (caps: Self)
        ensures
            caps.rates() == all_rates(),
            caps.bits() == all_bits(),
    {
        let sample_rates = vec![
            SampleRate(8000),
            SampleRate(11025),
            SampleRate(16000),
            SampleRate(22050),
            SampleRate(44100),
            SampleRate(48000),
            SampleRate(88200),
            SampleRate(96000),
            SampleRate(176400),
            SampleRate(192000),
            SampleRate(352800),
            SampleRate(384000),
            SampleRate(768000),
        ];
        let bits_per_samples = vec![BitsPerSample(16), BitsPerSample(24), BitsPerSample(32)];
        let caps = Capabilities { sample_rates, bits_per_samples };
        assert(caps.rates() =~= all_rates());
        assert(caps.bits() =~= all_bits());
        caps
    }
}

fn contains_rate(rates: &Vec<SampleRate>, rate: SampleRate) -> (found: bool)
    ensures
        found == rates@.contains(rate),
{
    let mut i: usize = 0;
    while i < rates.len()
        invariant
            i <= rates.len(),
            forall|j: int| 0 <= j < i ==> rates@[j] != rate,
        decreases rates.len() - i,
    {
        if rates[i].0 == rate.0 {
            assert(rates@[i as int] == rate);
            return true;
        }
        i = i + 1;
    }
    false
}

fn contains_bits(bits: &Vec<BitsPerSample>, width: BitsPerSample) -> (found: bool)
    ensures
        found == bits@.contains(width),
{
    let mut i: usize = 0;
    while i < bits.len()
        invariant
            i <= bits.len(),
            forall|j: int| 0 <= j < i ==> bits@[j] != width,
        decreases bits.len() - i,
    {
        if bits[i].0 == width.0 {
            assert(bits@[i as int] == width);
            return true;
        }
        i = i + 1;
    }
    false
}

impl Capabilities {
    /// No format at all; probing fills it with `add_supported`.
    pub fn empty() -> (caps: Self)
        ensures
            caps.sample_rates@ == Seq::<SampleRate>::empty(),
            caps.bits_per_samples@ == Seq::<BitsPerSample>::empty(),
    {
        Capabilities { sample_rates: Vec::new(), bits_per_samples: Vec::new() }
    }

    /// Records that the device plays `rate` at `width`: each is added once,
    /// in the order first found.
    pub fn add_supported(&mut self, rate: SampleRate, width: BitsPerSample)
        ensures
            final(self).sample_rates@ == if old(self).sample_rates@.contains(rate) {
                old(self).sample_rates@
            } else {
                old(self).sample_rates@.push(rate)
            },
            final(self).bits_per_samples@ == if old(self).bits_per_samples@.contains(width) {
                old(self).bits_per_samples@
            } else {
                old(self).bits_per_samples@.push(width)
            },
    {
        if !contains_bits(&self.bits_per_samples, width) {
            self.bits_per_samples.push(width);
        }
        if !contains_rate(&self.sample_rates, rate) {
            self.sample_rates.push(rate);
        }
    }
}

/// Adding a format keeps a capability list free of repeats.
pub proof fn lemma_add_supported_keeps_distinct(rates: Seq<SampleRate>, rate: SampleRate)
    requires
        rates.no_duplicates(),
    ensures
        (if rates.contains(rate) { rates } else { rates.push(rate) }).no_duplicates(),
{
    if !rates.contains(rate) {
        let r2 = rates.push(rate);
        assert forall|i: int, j: int| 0 <= i < r2.len() && 0 <= j < r2.len() && i != j implies r2[i] != r2[j] by {
            if i == rates.len() as int {
                assert(rates[j] == r2[j]);
            } else if j == rates.len() as int {
                assert(rates[i] == r2[i]);
            }
        }
    }
}

/// The rate a stream of rate `rate` is played at on a device whose supported
/// rates are `rates`: the rate itself when supported, else the last (highest)
/// supported rate, else the rate unchanged.
pub open spec fn adjusted_rate(rate: SampleRate, rates: Seq<SampleRate>) -> SampleRate {
    if rates.contains(rate) {
        rate
    } else if rates.len() > 0 {
        rates.last()
    } else {
        rate
    }
}

/// The sample width a stream is played at, chosen as for the rate.
pub open spec fn adjusted_bits(bits: BitsPerSample, widths: Seq<BitsPerSample>) -> BitsPerSample {
    if widths.contains(bits) {
        bits
    } else if widths.len() > 0 {
        widths.last()
    } else {
        bits
    }
}

/// The parameters `p` take on a device with capabilities `rates`/`widths`.
pub open spec fn adjusted_params(
    p: StreamParams,
    rates: Seq<SampleRate>,
    widths: Seq<BitsPerSample>,
) -> StreamParams {
    StreamParams {
        samplerate: adjusted_rate(p.samplerate, rates),
        bits_per_sample: adjusted_bits(p.bits_per_sample, widths),
        ..p
    }
}

impl StreamParams {
    /// Fits these parameters to what a device supports: an unsupported rate or
    /// width is replaced by the device's last listed one; channels, exclusivity
    /// and poll mode are kept.
    pub fn adjust_with_capabilities(&self, capabilities: &Capabilities) -> (adjusted: StreamParams)
        ensures
            adjusted == adjusted_params(
                *self,
                capabilities.sample_rates@,
                capabilities.bits_per_samples@,
            ),
    {
        let contains_sample_rates = contains_rate(&capabilities.sample_rates, self.samplerate);
        let contains_bits_per_samples = contains_bits(
            &capabilities.bits_per_samples,
            self.bits_per_sample,
        );
        if !contains_sample_rates || !contains_bits_per_samples {
            let samplerate = if contains_sample_rates {
                self.samplerate
            } else if capabilities.sample_rates.len() > 0 {
                capabilities.sample_rates[capabilities.sample_rates.len() - 1]
            } else {
                self.samplerate
            };
            let bits_per_sample = if contains_bits_per_samples {
                self.bits_per_sample
            } else if capabilities.bits_per_samples.len() > 0 {
                capabilities.bits_per_samples[capabilities.bits_per_samples.len() - 1]
            } else {
                self.bits_per_sample
            };
            StreamParams {
                channels: self.channels,
                samplerate,
                bits_per_sample,
                exclusive: self.exclusive,
                pollmode: self.pollmode,
            }
        } else {
            *self
        }
    }
}

/// Fitting parameters to a device twice gives the same result as once.
pub proof fn lemma_adjust_idempotent(
    p: StreamParams,
    rates: Seq<SampleRate>,
    widths: Seq<BitsPerSample>,
)
    ensures
        adjusted_params(adjusted_params(p, rates, widths), rates, widths)
            == adjusted_params(p, rates, widths),
{
    if !rates.contains(p.samplerate) && rates.len() > 0 {
        assert(rates.contains(rates.last()));
    }
    if !widths.contains(p.bits_per_sample) && widths.len() > 0 {
        assert(widths.contains(widths.last()));
    }
}

/// On a device that lists at least one rate and one width, fitted parameters
/// are always supported by it.
pub proof fn lemma_adjusted_is_supported(
    p: StreamParams,
    rates: Seq<SampleRate>,
    widths: Seq<BitsPerSample>,
)
    requires
        rates.len() > 0,
        widths.len() > 0,
    ensures
        rates.contains(adjusted_params(p, rates, widths).samplerate),
        widths.contains(adjusted_params(p, rates, widths).bits_per_sample),
{
    assert(rates.contains(rates.last()));
    assert(widths.contains(widths.last()));
}

} // verus!
