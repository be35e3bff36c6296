use vstd::prelude::*;

use crate::strutil::str_eq;

verus! {

/// The brand logo that may be drawn over a rendered code.
#[derive(Clone, Copy, Debug, PartialEq, Eq, Structural)]
pub enum LogoId {
    NoLogo,
    Facebook,
    FacebookColor,
    WhatsApp,
    WhatsAppColor,
    InstagramColor,
}

impl Default for LogoId {
    fn default() -> (r: Self)
        ensures
            r == LogoId::NoLogo,
    {
        LogoId::NoLogo
    }
}

impl LogoId {
    /// The canonical name of each variant.
    pub open spec fn spec_str(self) -> Seq<char> {
        match self {
            LogoId::NoLogo => "none"@,
            LogoId::Facebook => "facebook"@,
            LogoId::FacebookColor => "facebook_color"@,
            LogoId::WhatsApp => "whatsapp"@,
            LogoId::WhatsAppColor => "whatsapp_color"@,
            LogoId::InstagramColor => "instagram_color"@,
        }
    }

    /// The variant denoted by a name, `None` for anything unrecognized.
    pub open spec fn spec_from_str(s: Seq<char>) -> LogoId {
        if s == "none"@ {
            LogoId::NoLogo
        } else if s == "facebook"@ {
            LogoId::Facebook
        } else if s == "whatsapp"@ {
            LogoId::WhatsApp
        } else if s == "facebook_color"@ {
            LogoId::FacebookColor
        } else if s == "whatsapp_color"@ {
            LogoId::WhatsAppColor
        } else if s == "instagram_color"@ {
            LogoId::InstagramColor
        } else {
            LogoId::NoLogo
        }
    }

    /// Returns the canonical name of the logo.
    pub fn as_str(&self) -> (r: &str)
        ensures
            r@ == self.spec_str(),
    {
        match self {
            LogoId::NoLogo => "none",
            LogoId::Facebook => "facebook",
            LogoId::FacebookColor => "facebook_color",
            LogoId::WhatsApp => "whatsapp",
            LogoId::WhatsAppColor => "whatsapp_color",
            LogoId::InstagramColor => "instagram_color",
        }
    }

    /// Parses a canonical name; anything unrecognized maps to the default.
    pub fn from_str(s: &str) -> (r: Self)
        ensures
            r == Self::spec_from_str(s@),
    {
        if str_eq(s, "none") {
            LogoId::NoLogo
        } else if str_eq(s, "facebook") {
            LogoId::Facebook
        } else if str_eq(s, "whatsapp") {
            LogoId::WhatsApp
        } else if str_eq(s, "facebook_color") {
            LogoId::FacebookColor
        } else if str_eq(s, "whatsapp_color") {
            LogoId::WhatsAppColor
        } else if str_eq(s, "instagram_color") {
            LogoId::InstagramColor
        } else {
            LogoId::default()
        }
    }

    /// The asset file name (without extension), `None` when no logo is set.
    pub fn as_filename(&self) -> (r: Option<&str>)
        ensures
            self is NoLogo <==> r is None,
            r is Some ==> r->0@ == self.spec_str(),
    {
        match self {
            LogoId::NoLogo => None,
            _ => Some(self.as_str()),
        }
    }

    /// Parses an asset file name; anything unrecognized maps to the default.
    pub fn from_filename(filename: &str) -> (r: Self)
        ensures
            r == Self::spec_from_filename(filename@),
    {
        if str_eq(filename, "facebook") {
            LogoId::Facebook
        } else if str_eq(filename, "whatsapp") {
            LogoId::WhatsApp
        } else if str_eq(filename, "facebook_color") {
            LogoId::FacebookColor
        } else if str_eq(filename, "whatsapp_color") {
            LogoId::WhatsAppColor
        } else if str_eq(filename, "instagram_color") {
            LogoId::InstagramColor
        } else {
            LogoId::default()
        }
    }

    /// The variant denoted by a file name, `None` for anything unrecognized.
    pub open spec fn spec_from_filename(s: Seq<char>) -> LogoId {
        if s == "facebook"@ {
            LogoId::Facebook
        } else if s == "whatsapp"@ {
            LogoId::WhatsApp
        } else if s == "facebook_color"@ {
            LogoId::FacebookColor
        } else if s == "whatsapp_color"@ {
            LogoId::WhatsAppColor
        } else if s == "instagram_color"@ {
            LogoId::InstagramColor
        } else {
            LogoId::NoLogo
        }
    }
}

/// The relative size of a logo over the rendered code.
#[derive(Clone, Copy, Debug, PartialEq, Eq, Structural)]
pub enum LogoRatio {
    Small,
    Medium,
    Large,
}

impl Default for LogoRatio {
    fn default() -> (r: Self)
        ensures
            r == LogoRatio::Medium,
    {
        LogoRatio::Medium
    }
}

impl LogoRatio {
    /// The canonical name of each variant.
    pub open spec fn spec_str(self) -> Seq<char> {
        match self {
            LogoRatio::Small => "small"@,
            LogoRatio::Medium => "medium"@,
            LogoRatio::Large => "large"@,
        }
    }

    /// The variant denoted by a name, the default for anything unrecognized.
    pub open spec fn spec_from_str(s: Seq<char>) -> LogoRatio {
        if s == "small"@ {
            LogoRatio::Small
        } else if s == "medium"@ {
            LogoRatio::Medium
        } else if s == "large"@ {
            LogoRatio::Large
        } else {
            LogoRatio::Medium
        }
    }

    /// Returns the canonical name of the ratio.
    pub fn as_str(&self) -> (r: &str)
        ensures
            r@ == self.spec_str(),
    {
        match self {
            LogoRatio::Small => "small",
            LogoRatio::Medium => "medium",
            LogoRatio::Large => "large",
        }
    }

    /// Parses a canonical name; anything unrecognized maps to the default.
    pub fn from_str(s: &str) -> (r: Self)
        ensures
            r == Self::spec_from_str(s@),
    {
        if str_eq(s, "small") {
            LogoRatio::Small
        } else if str_eq(s, "medium") {
            LogoRatio::Medium
        } else if str_eq(s, "large") {
            LogoRatio::Large
        } else {
            LogoRatio::default()
        }
    }

    /// The fraction of the code width taken by the logo, in thousandths.
    pub fn as_ratio_permille(&self) -> (r: u32)
        ensures
            r == self.spec_ratio_permille(),
    {
        match self {
            LogoRatio::Small => 150,
            LogoRatio::Medium => 200,
            LogoRatio::Large => 250,
        }
    }

    /// The fraction promised by `as_ratio_permille`.
    pub open spec fn spec_ratio_permille(self) -> u32 {
        match self {
            LogoRatio::Small => 150u32,
            LogoRatio::Medium => 200u32,
            LogoRatio::Large => 250u32,
        }
    }
}

} // verus!
