//! Closed enumerations mirroring the engine's integer tags, and the helpers
//! that decode the flag bits packed into them.
use vstd::prelude::*;

verus! {

pub type PathVerb = SkPathVerb;
pub type PathFillType = SkPathFillType;
pub type AlphaType = SkAlphaType;
pub type BlendMode = SkBlendMode;
pub type BlendModeCoeff = SkBlendModeCoeff;

/// The verbs a path iterator returns.
#[derive(Clone, Copy, Debug, PartialEq, Eq, Structural)]
pub enum SkPathVerb {
    Move,
    Line,
    Quad,
    Conic,
    Cubic,
    Close,
    Done,
}

/// The largest number of points that one verb carries.
pub const MAX_POINTS: usize = 4;

impl SkPathVerb {
    /// Number of points the iterator returns for the verb.
    pub open spec fn spec_points(self) -> nat {
        match self {
            SkPathVerb::Move => 1,
            SkPathVerb::Line => 2,
            SkPathVerb::Quad => 3,
            SkPathVerb::Conic => 4,
            SkPathVerb::Cubic => 4,
            SkPathVerb::Close => 0,
            SkPathVerb::Done => 0,
        }
    }

    /// The number of points an iterator returns for the verb.
    pub fn points(self) -> (r: usize)
        ensures
            r == self.spec_points(),
            r <= MAX_POINTS,
    {
        match self {
            SkPathVerb::Move => 1,
            SkPathVerb::Line => 2,
            SkPathVerb::Quad => 3,
            SkPathVerb::Conic => 4,
            SkPathVerb::Cubic => 4,
            SkPathVerb::Close => 0,
            SkPathVerb::Done => 0,
        }
    }
}

/// How the inside of a path is decided. The native tag packs two flags:
/// bit 0 selects the even-odd rule, bit 1 inverts the fill.
#[derive(Clone, Copy, Debug, PartialEq, Eq, Structural)]
pub enum SkPathFillType {
    Winding,
    EvenOdd,
    InverseWinding,
    InverseEvenOdd,
}

impl SkPathFillType {
    /// The native integer tag of the variant.
    pub open spec fn spec_tag(self) -> i32 {
        match self {
            SkPathFillType::Winding => 0,
            SkPathFillType::EvenOdd => 1,
            SkPathFillType::InverseWinding => 2,
            SkPathFillType::InverseEvenOdd => 3,
        }
    }

    /// The native integer tag of the variant.
    pub fn tag(self) -> (r: i32)
        ensures
            r == self.spec_tag(),
    {
        match self {
            SkPathFillType::Winding => 0,
            SkPathFillType::EvenOdd => 1,
            SkPathFillType::InverseWinding => 2,
            SkPathFillType::InverseEvenOdd => 3,
        }
    }

    /// The variant whose native tag is `t`, if any.
    pub fn from_tag(t: i32) -> (r: Option<SkPathFillType>)
        ensures
            match r {
                Some(f) => f.spec_tag() == t,
                None => t < 0 || t > 3,
            },
    {
        if t == 0 {
            Some(SkPathFillType::Winding)
        } else if t == 1 {
            Some(SkPathFillType::EvenOdd)
        } else if t == 2 {
            Some(SkPathFillType::InverseWinding)
        } else if t == 3 {
            Some(SkPathFillType::InverseEvenOdd)
        } else {
            None
        }
    }

    pub fn is_even_odd(self) -> (r: bool)
        ensures
            r == (self.spec_tag() & 1 != 0),
            r == (self == SkPathFillType::EvenOdd || self == SkPathFillType::InverseEvenOdd),
    {
        let t = self.tag();
        assert(0i32 & 1 == 0 && 1i32 & 1 == 1 && 2i32 & 1 == 0 && 3i32 & 1 == 1) by (bit_vector);
        (t & 1) != 0
    }

    pub fn is_inverse(self) -> (r: bool)
        ensures
            r == (self.spec_tag() & 2 != 0),
            r == (self == SkPathFillType::InverseWinding || self == SkPathFillType::InverseEvenOdd),
    {
        let t = self.tag();
        assert(0i32 & 2 == 0 && 1i32 & 2 == 0 && 2i32 & 2 == 2 && 3i32 & 2 == 2) by (bit_vector);
        (t & 2) != 0
    }

    /// The variant with the inverse flag cleared.
    pub open spec fn spec_to_non_inverse(self) -> SkPathFillType {
        match self {
            SkPathFillType::Winding => self,
            SkPathFillType::EvenOdd => self,
            SkPathFillType::InverseWinding => SkPathFillType::Winding,
            SkPathFillType::InverseEvenOdd => SkPathFillType::EvenOdd,
        }
    }

    pub fn to_non_inverse(self) -> (r: Self)
        ensures
            r == self.spec_to_non_inverse(),
            r.spec_tag() == self.spec_tag() & 1,
    {
        assert(0i32 & 1 == 0 && 1i32 & 1 == 1 && 2i32 & 1 == 0 && 3i32 & 1 == 1) by (bit_vector);
        match self {
            SkPathFillType::Winding => self,
            SkPathFillType::EvenOdd => self,
            SkPathFillType::InverseWinding => SkPathFillType::Winding,
            SkPathFillType::InverseEvenOdd => SkPathFillType::EvenOdd,
        }
    }
}

/// Clearing the inverse flag keeps the even-odd flag, leaves a non-inverse
/// fill type as it is, and doing it twice is the same as doing it once.
pub proof fn lemma_to_non_inverse(f: SkPathFillType)
    ensures
        !(f.spec_to_non_inverse().spec_tag() & 2 != 0),
        (f.spec_to_non_inverse().spec_tag() & 1 != 0) == (f.spec_tag() & 1 != 0),
        !(f.spec_tag() & 2 != 0) ==> f.spec_to_non_inverse() == f,
        f.spec_to_non_inverse().spec_to_non_inverse() == f.spec_to_non_inverse(),
{
    assert(0i32 & 1 == 0 && 1i32 & 1 == 1 && 2i32 & 1 == 0 && 3i32 & 1 == 1) by (bit_vector);
    assert(0i32 & 2 == 0 && 1i32 & 2 == 0 && 2i32 & 2 == 2 && 3i32 & 2 == 2) by (bit_vector);
}

/// How the alpha channel of a pixel is to be read.
#[derive(Clone, Copy, Debug, PartialEq, Eq, Structural)]
pub enum SkAlphaType {
    Unknown,
    Opaque,
    Premul,
    Unpremul,
}

impl SkAlphaType {
    pub fn is_opaque(self) -> (r: bool)
        ensures
            r == (self == SkAlphaType::Opaque),
    {
        self == SkAlphaType::Opaque
    }
}

/// How a source color is combined with the destination.
#[derive(Clone, Copy, Debug, PartialEq, Eq, Structural)]
pub enum SkBlendMode {
    Clear,
    Src,
    Dst,
    SrcOver,
    DstOver,
    SrcIn,
    DstIn,
    SrcOut,
    DstOut,
    SrcATop,
    DstATop,
    Xor,
    Plus,
    Modulate,
    Screen,
    Overlay,
    Darken,
    Lighten,
    ColorDodge,
    ColorBurn,
    HardLight,
    SoftLight,
    Difference,
    Exclusion,
    Multiply,
    Hue,
    Saturation,
    Color,
    Luminosity,
}

/// A factor of a blend equation `src * s + dst * d`.
#[derive(Clone, Copy, Debug, PartialEq, Eq, Structural)]
pub enum SkBlendModeCoeff {
    /// 0
    Zero,
    /// 1
    One,
    /// The source color.
    SC,
    /// One minus the source color.
    ISC,
    /// The destination color.
    DC,
    /// One minus the destination color.
    IDC,
    /// The source alpha.
    SA,
    /// One minus the source alpha.
    ISA,
    /// The destination alpha.
    DA,
    /// One minus the destination alpha.
    IDA,
}

impl SkBlendMode {
    /// The source and destination factors of the mode, for the modes that
    /// are a weighted sum of source and destination.
    pub open spec fn spec_coeff(self) -> Option<(SkBlendModeCoeff, SkBlendModeCoeff)> {
        match self {
            SkBlendMode::Clear => Some((SkBlendModeCoeff::Zero, SkBlendModeCoeff::Zero)),
            SkBlendMode::Src => Some((SkBlendModeCoeff::One, SkBlendModeCoeff::Zero)),
            SkBlendMode::Dst => Some((SkBlendModeCoeff::Zero, SkBlendModeCoeff::One)),
            SkBlendMode::SrcOver => Some((SkBlendModeCoeff::One, SkBlendModeCoeff::ISA)),
            SkBlendMode::DstOver => Some((SkBlendModeCoeff::IDA, SkBlendModeCoeff::One)),
            SkBlendMode::SrcIn => Some((SkBlendModeCoeff::DA, SkBlendModeCoeff::Zero)),
            SkBlendMode::DstIn => Some((SkBlendModeCoeff::Zero, SkBlendModeCoeff::SA)),
            SkBlendMode::SrcOut => Some((SkBlendModeCoeff::IDA, SkBlendModeCoeff::Zero)),
            SkBlendMode::DstOut => Some((SkBlendModeCoeff::Zero, SkBlendModeCoeff::ISA)),
            SkBlendMode::SrcATop => Some((SkBlendModeCoeff::DA, SkBlendModeCoeff::ISA)),
            SkBlendMode::DstATop => Some((SkBlendModeCoeff::IDA, SkBlendModeCoeff::SA)),
            SkBlendMode::Xor => Some((SkBlendModeCoeff::IDA, SkBlendModeCoeff::ISA)),
            SkBlendMode::Plus => Some((SkBlendModeCoeff::One, SkBlendModeCoeff::One)),
            SkBlendMode::Modulate => Some((SkBlendModeCoeff::Zero, SkBlendModeCoeff::SC)),
            SkBlendMode::Screen => Some((SkBlendModeCoeff::One, SkBlendModeCoeff::ISC)),
            _ => None,
        }
    }

    /// The mode's name.
    pub open spec fn spec_name(self) -> &'static str {
        match self {
            SkBlendMode::Clear => "Clear",
            SkBlendMode::Src => "Src",
            SkBlendMode::Dst => "Dst",
            SkBlendMode::SrcOver => "SrcOver",
            SkBlendMode::DstOver => "DstOver",
            SkBlendMode::SrcIn => "SrcIn",
            SkBlendMode::DstIn => "DstIn",
            SkBlendMode::SrcOut => "SrcOut",
            SkBlendMode::DstOut => "DstOut",
            SkBlendMode::SrcATop => "SrcATop",
            SkBlendMode::DstATop => "DstATop",
            SkBlendMode::Xor => "Xor",
            SkBlendMode::Plus => "Plus",
            SkBlendMode::Modulate => "Modulate",
            SkBlendMode::Screen => "Screen",
            SkBlendMode::Overlay => "Overlay",
            SkBlendMode::Darken => "Darken",
            SkBlendMode::Lighten => "Lighten",
            SkBlendMode::ColorDodge => "ColorDodge",
            SkBlendMode::ColorBurn => "ColorBurn",
            SkBlendMode::HardLight => "HardLight",
            SkBlendMode::SoftLight => "SoftLight",
            SkBlendMode::Difference => "Difference",
            SkBlendMode::Exclusion => "Exclusion",
            SkBlendMode::Multiply => "Multiply",
            SkBlendMode::Hue => "Hue",
            SkBlendMode::Saturation => "Saturation",
            SkBlendMode::Color => "Color",
            SkBlendMode::Luminosity => "Luminosity",
        }
    }

    /// The source and destination factors of the mode; none for the modes
    /// that are not a weighted sum of source and destination.
    pub fn as_coeff(self) -> (r: Option<(SkBlendModeCoeff, SkBlendModeCoeff)>)
        ensures
            r == self.spec_coeff(),
    {
        match self {
            SkBlendMode::Clear => Some((SkBlendModeCoeff::Zero, SkBlendModeCoeff::Zero)),
            SkBlendMode::Src => Some((SkBlendModeCoeff::One, SkBlendModeCoeff::Zero)),
            SkBlendMode::Dst => Some((SkBlendModeCoeff::Zero, SkBlendModeCoeff::One)),
            SkBlendMode::SrcOver => Some((SkBlendModeCoeff::One, SkBlendModeCoeff::ISA)),
            SkBlendMode::DstOver => Some((SkBlendModeCoeff::IDA, SkBlendModeCoeff::One)),
            SkBlendMode::SrcIn => Some((SkBlendModeCoeff::DA, SkBlendModeCoeff::Zero)),
            SkBlendMode::DstIn => Some((SkBlendModeCoeff::Zero, SkBlendModeCoeff::SA)),
            SkBlendMode::SrcOut => Some((SkBlendModeCoeff::IDA, SkBlendModeCoeff::Zero)),
            SkBlendMode::DstOut => Some((SkBlendModeCoeff::Zero, SkBlendModeCoeff::ISA)),
            SkBlendMode::SrcATop => Some((SkBlendModeCoeff::DA, SkBlendModeCoeff::ISA)),
            SkBlendMode::DstATop => Some((SkBlendModeCoeff::IDA, SkBlendModeCoeff::SA)),
            SkBlendMode::Xor => Some((SkBlendModeCoeff::IDA, SkBlendModeCoeff::ISA)),
            SkBlendMode::Plus => Some((SkBlendModeCoeff::One, SkBlendModeCoeff::One)),
            SkBlendMode::Modulate => Some((SkBlendModeCoeff::Zero, SkBlendModeCoeff::SC)),
            SkBlendMode::Screen => Some((SkBlendModeCoeff::One, SkBlendModeCoeff::ISC)),
            _ => None,
        }
    }

    /// The mode's name.
    pub fn name(self) -> (r: &'static str)
        ensures
            r == self.spec_name(),
    {
        match self {
            SkBlendMode::Clear => "Clear",
            SkBlendMode::Src => "Src",
            SkBlendMode::Dst => "Dst",
            SkBlendMode::SrcOver => "SrcOver",
            SkBlendMode::DstOver => "DstOver",
            SkBlendMode::SrcIn => "SrcIn",
            SkBlendMode::DstIn => "DstIn",
            SkBlendMode::SrcOut => "SrcOut",
            SkBlendMode::DstOut => "DstOut",
            SkBlendMode::SrcATop => "SrcATop",
            SkBlendMode::DstATop => "DstATop",
            SkBlendMode::Xor => "Xor",
            SkBlendMode::Plus => "Plus",
            SkBlendMode::Modulate => "Modulate",
            SkBlendMode::Screen => "Screen",
            SkBlendMode::Overlay => "Overlay",
            SkBlendMode::Darken => "Darken",
            SkBlendMode::Lighten => "Lighten",
            SkBlendMode::ColorDodge => "ColorDodge",
            SkBlendMode::ColorBurn => "ColorBurn",
            SkBlendMode::HardLight => "HardLight",
            SkBlendMode::SoftLight => "SoftLight",
            SkBlendMode::Difference => "Difference",
            SkBlendMode::Exclusion => "Exclusion",
            SkBlendMode::Multiply => "Multiply",
            SkBlendMode::Hue => "Hue",
            SkBlendMode::Saturation => "Saturation",
            SkBlendMode::Color => "Color",
            SkBlendMode::Luminosity => "Luminosity",
        }
    }
}

} // verus!
