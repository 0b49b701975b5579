//! Choice of the encoder's quality (CRF) and speed (preset) from the frame's pixel count.
use vstd::prelude::*;
use crate::error::ConvertError;
use crate::text::{decimal, opt_text, render_decimal};

verus! {

/// Named speed tiers of the encoder, fastest first.
#[derive(Debug, Clone, Copy, PartialEq, Eq, Structural)]
pub enum Preset {
    Superfast,
    Faster,
    Fast,
    Medium,
}

/// What the encoder is asked for: both values as they go on its command line.
#[derive(Debug)]
pub struct EncodeProfile {
    pub crf: String,
    pub preset: String,
}

/// Width of each of the four sub-bands, from 17 down to 14, above the 18 plateau.
pub const CRF_STEP: u64 = 983040;

/// CRF for a frame of `p` pixels.
pub open spec fn crf_for(p: int) -> nat {
    if p >= 6144000 {
        13
    } else if p >= 2211841 {
        (18 - (p - 2211841 + CRF_STEP - 1) / (CRF_STEP as int)) as nat
    } else if p >= 2073600 {
        18
    } else if p >= 1536000 {
        19
    } else {
        20
    }
}

/// Preset for a frame of `p` pixels.
pub open spec fn preset_for(p: int) -> Preset {
    if p >= 8294400 {
        Preset::Superfast
    } else if p >= 2073600 {
        Preset::Faster
    } else if p >= 1536000 {
        Preset::Fast
    } else {
        Preset::Medium
    }
}

/// Rank of a preset by encoding speed; higher is faster.
pub open spec fn speed(p: Preset) -> int {
    match p {
        Preset::Superfast => 3,
        Preset::Faster => 2,
        Preset::Fast => 1,
        Preset::Medium => 0,
    }
}

pub open spec fn preset_name(p: Preset) -> Seq<char> {
    match p {
        Preset::Superfast => "superfast"@,
        Preset::Faster => "faster"@,
        Preset::Fast => "fast"@,
        Preset::Medium => "medium"@,
    }
}

/// A syntactically valid non-negative integer: one or more decimal digits.
pub open spec fn is_crf_text(s: Seq<char>) -> bool {
    s.len() > 0 && forall|i: int| 0 <= i < s.len() ==> '0' <= #[trigger] s[i] <= '9'
}

/// The profile for a frame of `pixels`, under optional overrides.
pub open spec fn profile_for(pixels: int, crf: Option<Seq<char>>, preset: Option<Seq<char>>) -> (
    Seq<char>,
    Seq<char>,
) {
    (
        match crf {
            Some(c) => c,
            None => decimal(crf_for(pixels)),
        },
        match preset {
            Some(p) => p,
            None => preset_name(preset_for(pixels)),
        },
    )
}

impl Preset {
    /// The encoder's name for this tier.
    pub fn name(&self) -> (r: String)
        ensures
            r@ == preset_name(*self),
    {
        match self {
            Preset::Superfast => String::from_str("superfast"),
            Preset::Faster => String::from_str("faster"),
            Preset::Fast => String::from_str("fast"),
            Preset::Medium => String::from_str("medium"),
        }
    }
}

/// The CRF the table gives for a frame of `pixels`.
pub fn auto_crf(pixels: u128) -> (r: u64)
    ensures
        r == crf_for(pixels as int),
{
    if pixels >= 6144000 {
        13
    } else if pixels >= 2211841 {
        let steps = ((pixels - 2211841 + (CRF_STEP as u128) - 1) / (CRF_STEP as u128)) as u64;
        proof {
            lemma_steps_bound(pixels as int);
        }
        18 - steps
    } else if pixels >= 2073600 {
        18
    } else if pixels >= 1536000 {
        19
    } else {
        20
    }
}

/// The preset the table gives for a frame of `pixels`.
pub fn auto_preset(pixels: u128) -> (r: Preset)
    ensures
        r == preset_for(pixels as int),
{
    if pixels >= 8294400 {
        Preset::Superfast
    } else if pixels >= 2073600 {
        Preset::Faster
    } else if pixels >= 1536000 {
        Preset::Fast
    } else {
        Preset::Medium
    }
}

/// Whether `s` is one or more decimal digits.
pub fn is_crf_valid(s: &str) -> (r: bool)
    ensures
        r == is_crf_text(s@),
{
    let n = s.unicode_len();
    if n == 0 {
        return false;
    }
    let mut i: usize = 0;
    while i < n
        invariant
            n == s@.len(),
            i <= n,
            forall|j: int| 0 <= j < i ==> '0' <= #[trigger] s@[j] <= '9',
        decreases n - i,
    {
        let c = s.get_char(i);
        if !('0' <= c && c <= '9') {
            return false;
        }
        i = i + 1;
    }
    true
}

/// The profile for a frame of `pixels`. An override, where given, is used verbatim in
/// place of the table; a CRF override must still be a non-negative integer.
pub fn select_profile(pixels: u128, crf: Option<&str>, preset: Option<&str>) -> (r: Result<
    EncodeProfile,
    ConvertError,
>)
    ensures
        r is Err <==> (crf matches Some(c) && !is_crf_text(c@)),
        r is Err ==> r == Err::<EncodeProfile, ConvertError>(ConvertError::InvalidCrf),
        r matches Ok(p) ==> (p.crf@, p.preset@) == profile_for(
            pixels as int,
            opt_text(crf),
            opt_text(preset),
        ),
{
    let crf_text = match crf {
        Some(c) => {
            if !is_crf_valid(c) {
                return Err(ConvertError::InvalidCrf);
            }
            String::from_str(c)
        },
        None => render_decimal(auto_crf(pixels)),
    };
    let preset_text = match preset {
        Some(p) => String::from_str(p),
        None => auto_preset(pixels).name(),
    };
    Ok(EncodeProfile { crf: crf_text, preset: preset_text })
}

/// The table, without overrides, never raises the CRF and never slows the preset as the
/// pixel count grows.
pub proof fn lemma_table_monotonic(fewer: int, more: int)
    requires
        0 <= fewer <= more,
    ensures
        crf_for(more) <= crf_for(fewer),
        speed(preset_for(fewer)) <= speed(preset_for(more)),
{
    if 2211841 <= fewer && more < 6144000 {
        vstd::arithmetic::div_mod::lemma_div_is_ordered(
            fewer - 2211841 + 983039,
            more - 2211841 + 983039,
            983040,
        );
    }
    if 2211841 <= fewer < 6144000 {
        lemma_steps_bound(fewer);
    }
    if 2211841 <= more < 6144000 {
        lemma_steps_bound(more);
    }
}

proof fn lemma_steps_bound(p: int)
    requires
        2211841 <= p < 6144000,
    ensures
        0 <= (p - 2211841 + 983039) / 983040 <= 4,
{
    vstd::arithmetic::div_mod::lemma_div_is_ordered(p - 2211841 + 983039, 4915197, 983040);
    vstd::arithmetic::div_mod::lemma_div_is_ordered(0, p - 2211841 + 983039, 983040);
    assert(4915197int / 983040int == 4);
}

/// Overrides win: a given CRF or preset is used verbatim whatever the pixel count, also
/// outside the values the table produces.
pub proof fn lemma_overrides_win(pixels: int, crf: Seq<char>, preset: Seq<char>)
    ensures
        profile_for(pixels, Some(crf), None).0 == crf,
        profile_for(pixels, None, Some(preset)).1 == preset,
        profile_for(pixels, Some(crf), Some(preset)) == (crf, preset),
{
}

} // verus!
