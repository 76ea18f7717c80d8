//! The rendering configuration shared by every frame of a collection.
use std::rc::Rc;
use vstd::prelude::*;

verus! {

/// The text a metadata field holds, if any.
pub open spec fn text_of(field: Option<String>) -> Option<Seq<char>> {
    match field {
        Some(s) => Some(s@),
        None => None,
    }
}

/// Overlay geometry and metadata used when frames are rendered; it never
/// affects the optics.
///
/// Radii are in thousandths of a detector pixel and the wavelength in
/// nanometers.
pub struct Config {
    /// Radius of the atmospheric seeing disk.
    pub seeing_radius: u32,
    /// Radius of a mirror segment's diffraction-limited spot.
    pub segment_diff_lim_radius: u32,
    /// Wavelength of the light source.
    pub wavelength: u32,
    /// Label of the environmental case.
    pub cfd_case: Option<String>,
    /// Description of the perturbations applied.
    pub turbulence_effects: Option<String>,
}

/// The decimal digit `d`.
pub open spec fn digit_text(d: nat) -> Seq<char> {
    if d == 0 {
        "0"@
    } else if d == 1 {
        "1"@
    } else if d == 2 {
        "2"@
    } else if d == 3 {
        "3"@
    } else if d == 4 {
        "4"@
    } else if d == 5 {
        "5"@
    } else if d == 6 {
        "6"@
    } else if d == 7 {
        "7"@
    } else if d == 8 {
        "8"@
    } else {
        "9"@
    }
}

/// `n` written in decimal, without leading zeros.
pub open spec fn decimal_text(n: nat) -> Seq<char>
    decreases n,
{
    if n < 10 {
        digit_text(n)
    } else {
        decimal_text(n / 10) + digit_text(n % 10)
    }
}

/// The last `width` decimal digits of `n`, with leading zeros.
pub open spec fn padded_text(n: nat, width: nat) -> Seq<char>
    decreases width,
{
    if width == 0 {
        Seq::empty()
    } else {
        padded_text(n / 10, (width - 1) as nat) + digit_text(n % 10)
    }
}

/// A value in millionths written as a decimal number with six fraction
/// digits.
pub open spec fn millionths_text(v: int) -> Seq<char> {
    let m = if v < 0 {
        -v
    } else {
        v
    };
    let sign = if v < 0 {
        "-"@
    } else {
        ""@
    };
    sign + decimal_text((m / 1000000) as nat) + "."@ + padded_text((m % 1000000) as nat, 6)
}

/// The metadata lines printed with a frame: the wavelength, the case label
/// and the perturbation description when set, and the image quality when
/// known.
pub open spec fn caption_text(config: Config, pssn: Option<i64>) -> Seq<Seq<char>> {
    let wavelength = seq!["wavelength: "@ + decimal_text(config.wavelength as nat) + "nm"@];
    let case = match config.cfd_case {
        Some(c) => seq!["CFD case: "@ + c@],
        None => Seq::empty(),
    };
    let effects = match config.turbulence_effects {
        Some(e) => seq!["effects: "@ + e@],
        None => Seq::empty(),
    };
    let quality = match pssn {
        Some(v) => seq!["PSSn: "@ + millionths_text(v as int)],
        None => Seq::empty(),
    };
    wavelength + case + effects + quality
}

fn digit(d: u64) -> (r: &'static str)
    requires
        d < 10,
    ensures
        r@ == digit_text(d as nat),
{
    if d == 0 {
        "0"
    } else if d == 1 {
        "1"
    } else if d == 2 {
        "2"
    } else if d == 3 {
        "3"
    } else if d == 4 {
        "4"
    } else if d == 5 {
        "5"
    } else if d == 6 {
        "6"
    } else if d == 7 {
        "7"
    } else if d == 8 {
        "8"
    } else {
        "9"
    }
}

/// `n` written in decimal.
pub fn decimal(n: u64) -> (r: String)
    ensures
        r@ == decimal_text(n as nat),
    decreases n,
{
    if n < 10 {
        String::from_str(digit(n))
    } else {
        decimal(n / 10).concat(digit(n % 10))
    }
}

fn padded(n: u64, width: u64) -> (r: String)
    ensures
        r@ == padded_text(n as nat, width as nat),
    decreases width,
{
    if width == 0 {
        String::new()
    } else {
        padded(n / 10, width - 1).concat(digit(n % 10))
    }
}

/// A value in millionths written with six fraction digits.
pub fn millionths(v: i64) -> (r: String)
    ensures
        r@ == millionths_text(v as int),
{
    let m: u64 = if v < 0 {
        (-(v as i128)) as u64
    } else {
        v as u64
    };
    let sign: &str = if v < 0 {
        "-"
    } else {
        ""
    };
    String::from_str(sign).concat(decimal(m / 1000000).as_str()).concat(".").concat(
        padded(m % 1000000, 6).as_str(),
    )
}

fn copy_text(field: &Option<String>) -> (r: Option<String>)
    ensures
        text_of(r) == text_of(*field),
{
    match field {
        Some(s) => Some(s.clone()),
        None => None,
    }
}

impl Config {
    /// The metadata lines printed with a frame captured under this
    /// configuration, given its image quality in millionths if known.
    pub fn caption(&self, pssn: Option<i64>) -> (r: Vec<String>)
        ensures
            r@.map_values(|l: String| l@) == caption_text(*self, pssn),
    {
        let mut lines: Vec<String> = Vec::new();
        lines.push(String::from_str("wavelength: ").concat(decimal(self.wavelength as u64).as_str()).concat("nm"));
        match &self.cfd_case {
            Some(c) => lines.push(String::from_str("CFD case: ").concat(c.as_str())),
            None => {},
        }
        match &self.turbulence_effects {
            Some(e) => lines.push(String::from_str("effects: ").concat(e.as_str())),
            None => {},
        }
        match pssn {
            Some(v) => lines.push(String::from_str("PSSn: ").concat(millionths(v).as_str())),
            None => {},
        }
        assert(lines@.map_values(|l: String| l@) =~= caption_text(*self, pssn));
        lines
    }

    /// A shared configuration with the given overlay radii and wavelength
    /// and no metadata text.
    pub fn new(seeing_radius: u32, segment_diff_lim_radius: u32, wavelength: u32) -> (r: Rc<
        Config,
    >)
        ensures
            r.seeing_radius == seeing_radius,
            r.segment_diff_lim_radius == segment_diff_lim_radius,
            r.wavelength == wavelength,
            r.cfd_case is None,
            r.turbulence_effects is None,
    {
        Rc::new(
            Config {
                seeing_radius,
                segment_diff_lim_radius,
                wavelength,
                cfd_case: None,
                turbulence_effects: None,
            },
        )
    }

    /// A new shared configuration equal to this one but for its case label.
    pub fn cfd_case(&self, cfd_case: String) -> (r: Rc<Config>)
        ensures
            r.seeing_radius == self.seeing_radius,
            r.segment_diff_lim_radius == self.segment_diff_lim_radius,
            r.wavelength == self.wavelength,
            text_of(r.cfd_case) == Some(cfd_case@),
            text_of(r.turbulence_effects) == text_of(self.turbulence_effects),
    {
        Rc::new(
            Config {
                seeing_radius: self.seeing_radius,
                segment_diff_lim_radius: self.segment_diff_lim_radius,
                wavelength: self.wavelength,
                cfd_case: Some(cfd_case),
                turbulence_effects: copy_text(&self.turbulence_effects),
            },
        )
    }

    /// A new shared configuration equal to this one but for its description
    /// of the perturbations.
    pub fn turbulence_effects(&self, turbulence_effects: String) -> (r: Rc<Config>)
        ensures
            r.seeing_radius == self.seeing_radius,
            r.segment_diff_lim_radius == self.segment_diff_lim_radius,
            r.wavelength == self.wavelength,
            text_of(r.cfd_case) == text_of(self.cfd_case),
            text_of(r.turbulence_effects) == Some(turbulence_effects@),
    {
        Rc::new(
            Config {
                seeing_radius: self.seeing_radius,
                segment_diff_lim_radius: self.segment_diff_lim_radius,
                wavelength: self.wavelength,
                cfd_case: copy_text(&self.cfd_case),
                turbulence_effects: Some(turbulence_effects),
            },
        )
    }
}

} // verus!
