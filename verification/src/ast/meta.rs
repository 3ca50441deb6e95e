//! What the root of a document says of the document as a whole.
use crate::literal::{parse_unsigned, parse_unsigned_str, IntErrorKind};
use crate::text::{split, split_str, str_eq};
use vstd::prelude::*;

verus! {

/// The version of the format in which a document is written.
#[derive(Debug, Clone, Copy, PartialEq, Eq, Structural)]
pub struct Version {
    pub major: u8,
    pub minor: u8,
}

/// Why a document has no valid version.
#[derive(Debug, Clone)]
#[non_exhaustive]
pub enum VersionError {
    /// The root has no `version` attribute.
    NoVersion,
    /// The version is not made of two parts with a `.` between them.
    InvalidLength { given: String },
    /// A part of the version is no integer up to 255.
    InvalidNumber { given: String, source: IntErrorKind },
}

/// The mathematical model of a [`VersionError`].
pub enum VersionErrorView {
    NoVersion,
    InvalidLength { given: Seq<char> },
    InvalidNumber { given: Seq<char>, source: IntErrorKind },
}

impl View for VersionError {
    type V = VersionErrorView;

    open spec fn view(&self) -> VersionErrorView {
        match self {
            VersionError::NoVersion => VersionErrorView::NoVersion,
            VersionError::InvalidLength { given } => VersionErrorView::InvalidLength {
                given: given@,
            },
            VersionError::InvalidNumber { given, source } => VersionErrorView::InvalidNumber {
                given: given@,
                source: *source,
            },
        }
    }
}

/// The version that `s` denotes: `major.minor`, each an integer from 0 to 255. The
/// major part is read first.
pub open spec fn parse_version(s: Seq<char>) -> Result<Version, VersionErrorView> {
    let parts = split(s, '.');
    if parts.len() != 2 {
        Err(VersionErrorView::InvalidLength { given: s })
    } else {
        match parse_unsigned(parts[0], 255) {
            Err(source) => Err(VersionErrorView::InvalidNumber { given: s, source }),
            Ok(major) => match parse_unsigned(parts[1], 255) {
                Err(source) => Err(VersionErrorView::InvalidNumber { given: s, source }),
                Ok(minor) => Ok(Version { major: major as u8, minor: minor as u8 }),
            },
        }
    }
}

impl Version {
    /// Parses a version of the form `major.minor`.
    pub fn from_str(s: &str) -> (r: Result<Version, VersionError>)
        ensures
            match r {
                Ok(v) => parse_version(s@) == Ok::<Version, VersionErrorView>(v),
                Err(e) => parse_version(s@) == Err::<Version, VersionErrorView>(e@),
            },
    {
        let parts = split_str(s, '.');
        if parts.len() != 2 {
            return Err(VersionError::InvalidLength { given: s.to_owned() });
        }
        assert(parts[0]@ == parts.deep_view()[0]);
        assert(parts[1]@ == parts.deep_view()[1]);
        let major = match parse_unsigned_str(parts[0].as_str(), 255) {
            Ok(n) => n as u8,
            Err(source) => {
                return Err(VersionError::InvalidNumber { given: s.to_owned(), source });
            },
        };
        let minor = match parse_unsigned_str(parts[1].as_str(), 255) {
            Ok(n) => n as u8,
            Err(source) => {
                return Err(VersionError::InvalidNumber { given: s.to_owned(), source });
            },
        };
        Ok(Version { major, minor })
    }
}

/// The colour space in which the colours of a document are given.
#[derive(Debug, Clone)]
pub enum ColorSpace {
    SrgbTexture,
    LinRec709,
    G22Rec709,
    G18Rec709,
    AcesCG,
    /// Another name for `acescg`.
    LinAp1,
    G22Ap1,
    G18Ap1,
    LinSrgb,
    AdobeRGB,
    LinAdobeRGB,
    SrgbDisplayP3,
    LinDisplayP3,
    /// Any other colour space, by its name.
    Unknown(String),
}

/// The mathematical model of a [`ColorSpace`].
pub enum ColorSpaceView {
    SrgbTexture,
    LinRec709,
    G22Rec709,
    G18Rec709,
    AcesCG,
    LinAp1,
    G22Ap1,
    G18Ap1,
    LinSrgb,
    AdobeRGB,
    LinAdobeRGB,
    SrgbDisplayP3,
    LinDisplayP3,
    Unknown(Seq<char>),
}

impl View for ColorSpace {
    type V = ColorSpaceView;

    open spec fn view(&self) -> ColorSpaceView {
        match self {
            ColorSpace::SrgbTexture => ColorSpaceView::SrgbTexture,
            ColorSpace::LinRec709 => ColorSpaceView::LinRec709,
            ColorSpace::G22Rec709 => ColorSpaceView::G22Rec709,
            ColorSpace::G18Rec709 => ColorSpaceView::G18Rec709,
            ColorSpace::AcesCG => ColorSpaceView::AcesCG,
            ColorSpace::LinAp1 => ColorSpaceView::LinAp1,
            ColorSpace::G22Ap1 => ColorSpaceView::G22Ap1,
            ColorSpace::G18Ap1 => ColorSpaceView::G18Ap1,
            ColorSpace::LinSrgb => ColorSpaceView::LinSrgb,
            ColorSpace::AdobeRGB => ColorSpaceView::AdobeRGB,
            ColorSpace::LinAdobeRGB => ColorSpaceView::LinAdobeRGB,
            ColorSpace::SrgbDisplayP3 => ColorSpaceView::SrgbDisplayP3,
            ColorSpace::LinDisplayP3 => ColorSpaceView::LinDisplayP3,
            ColorSpace::Unknown(name) => ColorSpaceView::Unknown(name@),
        }
    }
}

impl DeepView for ColorSpace {
    type V = ColorSpaceView;

    open spec fn deep_view(&self) -> ColorSpaceView {
        self.view()
    }
}

/// The colour space that a name stands for. A name that is not known stands for an
/// unknown colour space, which keeps the name.
pub open spec fn color_space_of(name: Seq<char>) -> ColorSpaceView {
    if name == "srgb_texture"@ {
        ColorSpaceView::SrgbTexture
    } else if name == "lin_rec709"@ {
        ColorSpaceView::LinRec709
    } else if name == "g22_rec709"@ {
        ColorSpaceView::G22Rec709
    } else if name == "g18_rec709"@ {
        ColorSpaceView::G18Rec709
    } else if name == "acescg"@ {
        ColorSpaceView::AcesCG
    } else if name == "lin_ap1"@ {
        ColorSpaceView::LinAp1
    } else if name == "g22_ap1"@ {
        ColorSpaceView::G22Ap1
    } else if name == "g18_ap1"@ {
        ColorSpaceView::G18Ap1
    } else if name == "lin_srgb"@ {
        ColorSpaceView::LinSrgb
    } else if name == "adobergb"@ {
        ColorSpaceView::AdobeRGB
    } else if name == "lin_adobergb"@ {
        ColorSpaceView::LinAdobeRGB
    } else if name == "srgb_displayp3"@ {
        ColorSpaceView::SrgbDisplayP3
    } else if name == "lin_displayp3"@ {
        ColorSpaceView::LinDisplayP3
    } else {
        ColorSpaceView::Unknown(name)
    }
}

impl ColorSpace {
    /// The colour space that `name` stands for.
    pub fn from_name(name: &str) -> (r: ColorSpace)
        ensures
            r@ == color_space_of(name@),
    {
        if str_eq(name, "srgb_texture") {
            ColorSpace::SrgbTexture
        } else if str_eq(name, "lin_rec709") {
            ColorSpace::LinRec709
        } else if str_eq(name, "g22_rec709") {
            ColorSpace::G22Rec709
        } else if str_eq(name, "g18_rec709") {
            ColorSpace::G18Rec709
        } else if str_eq(name, "acescg") {
            ColorSpace::AcesCG
        } else if str_eq(name, "lin_ap1") {
            ColorSpace::LinAp1
        } else if str_eq(name, "g22_ap1") {
            ColorSpace::G22Ap1
        } else if str_eq(name, "g18_ap1") {
            ColorSpace::G18Ap1
        } else if str_eq(name, "lin_srgb") {
            ColorSpace::LinSrgb
        } else if str_eq(name, "adobergb") {
            ColorSpace::AdobeRGB
        } else if str_eq(name, "lin_adobergb") {
            ColorSpace::LinAdobeRGB
        } else if str_eq(name, "srgb_displayp3") {
            ColorSpace::SrgbDisplayP3
        } else if str_eq(name, "lin_displayp3") {
            ColorSpace::LinDisplayP3
        } else {
            ColorSpace::Unknown(name.to_owned())
        }
    }
}

} // verus!
