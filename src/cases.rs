//! The discrete axes that identify an environmental case: telescope pointing,
//! wind direction relative to the enclosure, and wind speed.
use vstd::prelude::*;

verus! {

/// Telescope zenith angle, in degrees.
#[derive(Debug, Clone, Copy, PartialEq, Eq, Structural)]
pub enum ZenithAngle {
    Zero,
    Thirty,
    Sixty,
}

impl ZenithAngle {
    pub open spec fn degrees(self) -> u32 {
        match self {
            ZenithAngle::Zero => 0,
            ZenithAngle::Thirty => 30,
            ZenithAngle::Sixty => 60,
        }
    }

    pub open spec fn label(self) -> Seq<char> {
        match self {
            ZenithAngle::Zero => "0°"@,
            ZenithAngle::Thirty => "30°"@,
            ZenithAngle::Sixty => "60°"@,
        }
    }

    /// Every zenith angle, in increasing order.
    pub fn all() -> (r: Vec<Self>)
        ensures
            r@ == seq![ZenithAngle::Zero, ZenithAngle::Thirty, ZenithAngle::Sixty],
    {
        let r = vec![ZenithAngle::Zero, ZenithAngle::Thirty, ZenithAngle::Sixty];
        assert(r@ =~= seq![ZenithAngle::Zero, ZenithAngle::Thirty, ZenithAngle::Sixty]);
        r
    }

    pub fn as_u32(&self) -> (r: u32)
        ensures
            r == self.degrees(),
    {
        match self {
            ZenithAngle::Zero => 0,
            ZenithAngle::Thirty => 30,
            ZenithAngle::Sixty => 60,
        }
    }

    pub fn as_str(&self) -> (r: &'static str)
        ensures
            r@ == self.label(),
    {
        match self {
            ZenithAngle::Zero => "0°",
            ZenithAngle::Thirty => "30°",
            ZenithAngle::Sixty => "60°",
        }
    }
}

impl From<ZenithAngle> for u32 {
    fn from(zen: ZenithAngle) -> (r: u32)
        ensures
            r == zen.degrees(),
    {
        zen.as_u32()
    }
}

impl vstd::std_specs::convert::FromSpecImpl<ZenithAngle> for u32 {
    open spec fn obeys_from_spec() -> bool {
        true
    }

    open spec fn from_spec(v: ZenithAngle) -> u32 {
        v.degrees()
    }
}


/// Telescope elevation angle, in degrees; the complement of the zenith angle.
#[derive(Debug, Clone, Copy, PartialEq, Eq, Structural)]
pub enum ElevationAngle {
    Ninety,
    Thirty,
    Sixty,
}

impl ElevationAngle {
    pub open spec fn degrees(self) -> u32 {
        match self {
            ElevationAngle::Ninety => 90,
            ElevationAngle::Thirty => 30,
            ElevationAngle::Sixty => 60,
        }
    }

    pub open spec fn label(self) -> Seq<char> {
        match self {
            ElevationAngle::Ninety => "90°"@,
            ElevationAngle::Thirty => "30°"@,
            ElevationAngle::Sixty => "60°"@,
        }
    }

    /// The zenith angle that points the telescope the same way.
    pub open spec fn zenith(self) -> ZenithAngle {
        match self {
            ElevationAngle::Ninety => ZenithAngle::Zero,
            ElevationAngle::Thirty => ZenithAngle::Sixty,
            ElevationAngle::Sixty => ZenithAngle::Thirty,
        }
    }

    /// Every elevation angle, from the zenith down.
    pub fn all() -> (r: Vec<Self>)
        ensures
            r@ == seq![ElevationAngle::Ninety, ElevationAngle::Sixty, ElevationAngle::Thirty],
    {
        let r = vec![ElevationAngle::Ninety, ElevationAngle::Sixty, ElevationAngle::Thirty];
        assert(r@ =~= seq![ElevationAngle::Ninety, ElevationAngle::Sixty, ElevationAngle::Thirty]);
        r
    }

    pub fn as_u32(&self) -> (r: u32)
        ensures
            r == self.degrees(),
    {
        match self {
            ElevationAngle::Ninety => 90,
            ElevationAngle::Thirty => 30,
            ElevationAngle::Sixty => 60,
        }
    }

    pub fn as_str(&self) -> (r: &'static str)
        ensures
            r@ == self.label(),
    {
        match self {
            ElevationAngle::Ninety => "90°",
            ElevationAngle::Thirty => "30°",
            ElevationAngle::Sixty => "60°",
        }
    }
}

impl From<ElevationAngle> for u32 {
    fn from(elevation: ElevationAngle) -> (r: u32)
        ensures
            r == elevation.degrees(),
    {
        elevation.as_u32()
    }
}

impl vstd::std_specs::convert::FromSpecImpl<ElevationAngle> for u32 {
    open spec fn obeys_from_spec() -> bool {
        true
    }

    open spec fn from_spec(v: ElevationAngle) -> u32 {
        v.degrees()
    }
}

impl From<ElevationAngle> for ZenithAngle {
    fn from(value: ElevationAngle) -> (r: ZenithAngle)
        ensures
            r == value.zenith(),
            r.degrees() + value.degrees() == 90,
    {
        match value {
            ElevationAngle::Ninety => ZenithAngle::Zero,
            ElevationAngle::Thirty => ZenithAngle::Sixty,
            ElevationAngle::Sixty => ZenithAngle::Thirty,
        }
    }
}

impl vstd::std_specs::convert::FromSpecImpl<ElevationAngle> for ZenithAngle {
    open spec fn obeys_from_spec() -> bool {
        true
    }

    open spec fn from_spec(v: ElevationAngle) -> ZenithAngle {
        v.zenith()
    }
}

/// Wind direction relative to the enclosure, in degrees.
#[derive(Debug, Clone, Copy, PartialEq, Eq, Structural)]
pub enum AzimuthAngle {
    Zero,
    FortyFive,
    Ninety,
    OneThirtyFive,
    OneEighty,
}

impl AzimuthAngle {
    pub open spec fn degrees(self) -> u32 {
        match self {
            AzimuthAngle::Zero => 0,
            AzimuthAngle::FortyFive => 45,
            AzimuthAngle::Ninety => 90,
            AzimuthAngle::OneThirtyFive => 135,
            AzimuthAngle::OneEighty => 180,
        }
    }

    pub open spec fn label(self) -> Seq<char> {
        match self {
            AzimuthAngle::Zero => "0°"@,
            AzimuthAngle::FortyFive => "45°"@,
            AzimuthAngle::Ninety => "90°"@,
            AzimuthAngle::OneThirtyFive => "135°"@,
            AzimuthAngle::OneEighty => "180°"@,
        }
    }

    /// Every wind direction, in increasing order.
    pub fn all() -> (r: Vec<Self>)
        ensures
            r@ == seq![
                AzimuthAngle::Zero,
                AzimuthAngle::FortyFive,
                AzimuthAngle::Ninety,
                AzimuthAngle::OneThirtyFive,
                AzimuthAngle::OneEighty,
            ],
    {
        let r = vec![
            AzimuthAngle::Zero,
            AzimuthAngle::FortyFive,
            AzimuthAngle::Ninety,
            AzimuthAngle::OneThirtyFive,
            AzimuthAngle::OneEighty,
        ];
        assert(r@ =~= seq![
            AzimuthAngle::Zero,
            AzimuthAngle::FortyFive,
            AzimuthAngle::Ninety,
            AzimuthAngle::OneThirtyFive,
            AzimuthAngle::OneEighty,
        ]);
        r
    }

    pub fn as_u32(&self) -> (r: u32)
        ensures
            r == self.degrees(),
    {
        match self {
            AzimuthAngle::Zero => 0,
            AzimuthAngle::FortyFive => 45,
            AzimuthAngle::Ninety => 90,
            AzimuthAngle::OneThirtyFive => 135,
            AzimuthAngle::OneEighty => 180,
        }
    }

    pub fn as_str(&self) -> (r: &'static str)
        ensures
            r@ == self.label(),
    {
        match self {
            AzimuthAngle::Zero => "0°",
            AzimuthAngle::FortyFive => "45°",
            AzimuthAngle::Ninety => "90°",
            AzimuthAngle::OneThirtyFive => "135°",
            AzimuthAngle::OneEighty => "180°",
        }
    }
}

impl From<AzimuthAngle> for u32 {
    fn from(az: AzimuthAngle) -> (r: u32)
        ensures
            r == az.degrees(),
    {
        az.as_u32()
    }
}

impl vstd::std_specs::convert::FromSpecImpl<AzimuthAngle> for u32 {
    open spec fn obeys_from_spec() -> bool {
        true
    }

    open spec fn from_spec(v: AzimuthAngle) -> u32 {
        v.degrees()
    }
}

/// Wind speed, in meters per second.
#[derive(Debug, Clone, Copy, PartialEq, Eq, Structural)]
pub enum WindSpeed {
    Two,
    Seven,
    Twelve,
    Seventeen,
}

impl WindSpeed {
    pub open spec fn meters_per_second(self) -> u32 {
        match self {
            WindSpeed::Two => 2,
            WindSpeed::Seven => 7,
            WindSpeed::Twelve => 12,
            WindSpeed::Seventeen => 17,
        }
    }

    pub open spec fn label(self) -> Seq<char> {
        match self {
            WindSpeed::Two => "2 m/s"@,
            WindSpeed::Seven => "7 m/s"@,
            WindSpeed::Twelve => "12 m/s"@,
            WindSpeed::Seventeen => "17 m/s"@,
        }
    }

    /// Every wind speed, in increasing order.
    pub fn all() -> (r: Vec<Self>)
        ensures
            r@ == seq![WindSpeed::Two, WindSpeed::Seven, WindSpeed::Twelve, WindSpeed::Seventeen],
    {
        let r = vec![WindSpeed::Two, WindSpeed::Seven, WindSpeed::Twelve, WindSpeed::Seventeen];
        assert(r@ =~= seq![
            WindSpeed::Two,
            WindSpeed::Seven,
            WindSpeed::Twelve,
            WindSpeed::Seventeen,
        ]);
        r
    }

    pub fn as_u32(&self) -> (r: u32)
        ensures
            r == self.meters_per_second(),
    {
        match self {
            WindSpeed::Two => 2,
            WindSpeed::Seven => 7,
            WindSpeed::Twelve => 12,
            WindSpeed::Seventeen => 17,
        }
    }

    pub fn as_str(&self) -> (r: &'static str)
        ensures
            r@ == self.label(),
    {
        match self {
            WindSpeed::Two => "2 m/s",
            WindSpeed::Seven => "7 m/s",
            WindSpeed::Twelve => "12 m/s",
            WindSpeed::Seventeen => "17 m/s",
        }
    }
}

impl From<WindSpeed> for u32 {
    fn from(ws: WindSpeed) -> (r: u32)
        ensures
            r == ws.meters_per_second(),
    {
        ws.as_u32()
    }
}

impl vstd::std_specs::convert::FromSpecImpl<WindSpeed> for u32 {
    open spec fn obeys_from_spec() -> bool {
        true
    }

    open spec fn from_spec(v: WindSpeed) -> u32 {
        v.meters_per_second()
    }
}

/// The enclosure configuration of a case: the open sky below a wind speed
/// of 7 m/s, otherwise a closed dome when the zenith angle is under 60
/// degrees and a closed sky when it is 60 degrees or more.
pub open spec fn enclosure_label(wind_speed: u32, zenith: ZenithAngle) -> Seq<char> {
    if wind_speed <= 7 {
        "os"@
    } else if zenith.degrees() < 60 {
        "cd"@
    } else {
        "cs"@
    }
}

/// Determines the enclosure configuration of a case from its wind speed, in
/// meters per second, and the telescope's zenith angle.
pub fn get_enclosure_config(wind_speed: u32, telescope_pointing: ZenithAngle) -> (r: &'static str)
    ensures
        r@ == enclosure_label(wind_speed, telescope_pointing),
{
    if wind_speed <= 7 {
        "os"
    } else if telescope_pointing.as_u32() < 60 {
        "cd"
    } else {
        "cs"
    }
}

} // verus!
