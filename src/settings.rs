use vstd::prelude::*;

verus! {

/// Recording speed of a VHS tape; slower speeds lose more detail.
#[derive(Clone, Copy, Debug, PartialEq, Eq, Structural)]
pub enum VHSTapeSpeed {
    SP,
    LP,
    EP,
}

/// Filter parameters of a tape speed: cutoff frequencies in hertz and the chroma delay in
/// samples.
#[derive(Clone, Copy, Debug, PartialEq, Eq, Structural)]
pub struct VHSTapeParams {
    pub luma_cut: u32,
    pub chroma_cut: u32,
    pub chroma_delay: usize,
}

impl VHSTapeSpeed {
    pub open spec fn params_spec(self) -> VHSTapeParams {
        match self {
            VHSTapeSpeed::SP => VHSTapeParams { luma_cut: 2400000, chroma_cut: 320000, chroma_delay: 4 },
            VHSTapeSpeed::LP => VHSTapeParams { luma_cut: 1900000, chroma_cut: 300000, chroma_delay: 5 },
            VHSTapeSpeed::EP => VHSTapeParams { luma_cut: 1400000, chroma_cut: 280000, chroma_delay: 6 },
        }
    }

    pub fn filter_params(&self) -> (r: VHSTapeParams)
        ensures
            r == self.params_spec(),
    {
        match self {
            VHSTapeSpeed::SP => VHSTapeParams { luma_cut: 2400000, chroma_cut: 320000, chroma_delay: 4 },
            VHSTapeSpeed::LP => VHSTapeParams { luma_cut: 1900000, chroma_cut: 300000, chroma_delay: 5 },
            VHSTapeSpeed::EP => VHSTapeParams { luma_cut: 1400000, chroma_cut: 280000, chroma_delay: 6 },
        }
    }
}

/// Strength of the chroma lowpass applied on the way in or out.
#[derive(Clone, Copy, Debug, PartialEq, Eq, Structural)]
pub enum ChromaLowpass {
    /// No lowpass at all.
    Off,
    Light,
    Full,
}

/// An optional group of settings in editable form: it keeps its settings while disabled.
pub struct SettingsBlock<T> {
    pub enabled: bool,
    pub settings: T,
}

/// The optional settings that a block stands for.
pub open spec fn block_option<T>(block: SettingsBlock<T>) -> Option<T> {
    if block.enabled {
        Some(block.settings)
    } else {
        None
    }
}

/// The block made from optional settings, holding `fallback` where there are none.
pub open spec fn block_of<T>(opt: Option<T>, fallback: T) -> SettingsBlock<T> {
    SettingsBlock {
        enabled: opt is Some,
        settings: match opt {
            Some(v) => v,
            None => fallback,
        },
    }
}

impl<T: Default> Default for SettingsBlock<T> {
    fn default() -> (r: Self)
        ensures
            r.enabled,
            call_ensures(T::default, (), r.settings),
    {
        SettingsBlock { enabled: true, settings: T::default() }
    }
}

impl<T> SettingsBlock<T> {
    /// The editable block for `opt`: enabled exactly when there are settings, and holding
    /// the default settings when there are none.
    pub fn from_option(opt: Option<T>) -> (r: Self)
        where
            T: Default,
        ensures
            r == block_of(opt, r.settings),
            opt is None ==> call_ensures(T::default, (), r.settings),
    {
        match opt {
            Some(v) => SettingsBlock { enabled: true, settings: v },
            None => SettingsBlock { enabled: false, settings: T::default() },
        }
    }

    /// The editable block for borrowed optional settings: enabled exactly when there are
    /// settings, holding a clone of them, or the default settings when there are none.
    pub fn from_option_ref(opt: &Option<T>) -> (r: Self)
        where
            T: Default + Clone,
        ensures
            r.enabled == opt is Some,
            opt matches Some(v) ==> cloned(*v, r.settings),
            opt is None ==> call_ensures(T::default, (), r.settings),
    {
        match opt {
            Some(v) => SettingsBlock { enabled: true, settings: v.clone() },
            None => SettingsBlock { enabled: false, settings: T::default() },
        }
    }

    /// The settings that a borrowed block applies, cloned: none when it is disabled.
    pub fn to_option(&self) -> (r: Option<T>)
        where
            T: Clone,
        ensures
            r is Some == self.enabled,
            r matches Some(v) ==> cloned(self.settings, v),
    {
        if self.enabled {
            Some(self.settings.clone())
        } else {
            None
        }
    }

    /// The settings to apply: none when the block is disabled.
    pub fn into_option(self) -> (r: Option<T>)
        ensures
            r == block_option(self),
    {
        if self.enabled {
            Some(self.settings)
        } else {
            None
        }
    }
}

/// Turning optional settings into a block and back gives the same optional settings,
/// whatever the block holds while disabled.
pub proof fn lemma_option_round_trip<T>(opt: Option<T>, fallback: T)
    ensures
        block_option(block_of(opt, fallback)) == opt,
{
}

/// Turning a block into optional settings and back, with the block's own settings as the
/// fallback, gives the same block.
pub proof fn lemma_block_round_trip<T>(block: SettingsBlock<T>)
    ensures
        block_of(block_option(block), block.settings) == block,
{
}

} // verus!
