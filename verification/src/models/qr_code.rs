use vstd::prelude::*;

use crate::strutil::str_eq;

verus! {

/// Whether the quiet zone (margin) around the code is rendered.
#[derive(Clone, Copy, Debug, PartialEq, Eq, Structural)]
pub struct MarginEnabled(pub bool);

impl Default for MarginEnabled {
    fn default() -> (r: Self)
        ensures
            r == MarginEnabled(true),
    {
        MarginEnabled(true)
    }
}

/// The brand logo that may be drawn over a rendered code.
///
/// This mirrors `models::logo::LogoId`, with the conversions that the
/// persistence layer and the selection widget use.
#[derive(Clone, Copy, Debug, PartialEq, Eq, Structural)]
pub enum LogoId {
    NoLogo,
    Facebook,
    FacebookColor,
    WhatsApp,
    WhatsAppColor,
    InstagramColor,
}

impl Default for LogoId {
    fn default() -> (r: Self)
        ensures
            r == LogoId::NoLogo,
    {
        LogoId::NoLogo
    }
}

impl LogoId {
    /// The asset file name (without extension) of each variant with a logo.
    pub open spec fn spec_filename(self) -> Seq<char> {
        match self {
            LogoId::NoLogo => ""@,
            LogoId::Facebook => "facebook"@,
            LogoId::FacebookColor => "facebook_color"@,
            LogoId::WhatsApp => "whatsapp"@,
            LogoId::WhatsAppColor => "whatsapp_color"@,
            LogoId::InstagramColor => "instagram_color"@,
        }
    }

    /// The asset file name (without extension), `None` when no logo is set.
    pub fn as_filename(&self) -> (r: Option<&str>)
        ensures
            self is NoLogo <==> r is None,
            r is Some ==> r->0@ == self.spec_filename(),
    {
        match self {
            LogoId::NoLogo => None,
            LogoId::Facebook => Some("facebook"),
            LogoId::FacebookColor => Some("facebook_color"),
            LogoId::WhatsApp => Some("whatsapp"),
            LogoId::WhatsAppColor => Some("whatsapp_color"),
            LogoId::InstagramColor => Some("instagram_color"),
        }
    }

    /// The variant denoted by a file name, `None` for anything unrecognized.
    pub open spec fn spec_from_filename(s: Seq<char>) -> Option<LogoId> {
        if s == "facebook"@ {
            Some(LogoId::Facebook)
        } else if s == "whatsapp"@ {
            Some(LogoId::WhatsApp)
        } else if s == "facebook_color"@ {
            Some(LogoId::FacebookColor)
        } else if s == "whatsapp_color"@ {
            Some(LogoId::WhatsAppColor)
        } else if s == "instagram_color"@ {
            Some(LogoId::InstagramColor)
        } else {
            None
        }
    }

    /// Parses an asset file name; unrecognized names yield `None`.
    pub fn from_filename(filename: &str) -> (r: Option<Self>)
        ensures
            r == Self::spec_from_filename(filename@),
    {
        if str_eq(filename, "facebook") {
            Some(LogoId::Facebook)
        } else if str_eq(filename, "whatsapp") {
            Some(LogoId::WhatsApp)
        } else if str_eq(filename, "facebook_color") {
            Some(LogoId::FacebookColor)
        } else if str_eq(filename, "whatsapp_color") {
            Some(LogoId::WhatsAppColor)
        } else if str_eq(filename, "instagram_color") {
            Some(LogoId::InstagramColor)
        } else {
            None
        }
    }

    /// The value carried by the selection widget, empty when no logo is set.
    pub open spec fn spec_select_value(self) -> Seq<char> {
        match self {
            LogoId::NoLogo => ""@,
            LogoId::Facebook => "facebook"@,
            LogoId::FacebookColor => "facebook_color"@,
            LogoId::WhatsApp => "whatsapp"@,
            LogoId::WhatsAppColor => "whatsapp_color"@,
            LogoId::InstagramColor => "instagram_color"@,
        }
    }

    /// Converts to the value carried by the selection widget.
    pub fn as_select_value(&self) -> (r: &str)
        ensures
            r@ == self.spec_select_value(),
    {
        match self {
            LogoId::NoLogo => "",
            LogoId::Facebook => "facebook",
            LogoId::WhatsApp => "whatsapp",
            LogoId::FacebookColor => "facebook_color",
            LogoId::WhatsAppColor => "whatsapp_color",
            LogoId::InstagramColor => "instagram_color",
        }
    }

    /// The variant denoted by a selection value, `None` for anything else.
    pub open spec fn spec_from_select_value(s: Seq<char>) -> LogoId {
        if s == "facebook"@ {
            LogoId::Facebook
        } else if s == "whatsapp"@ {
            LogoId::WhatsApp
        } else if s == "facebook_color"@ {
            LogoId::FacebookColor
        } else if s == "whatsapp_color"@ {
            LogoId::WhatsAppColor
        } else if s == "instagram_color"@ {
            LogoId::InstagramColor
        } else {
            LogoId::NoLogo
        }
    }

    /// Parses a selection value; anything unrecognized maps to no logo.
    pub fn from_select_value(value: &str) -> (r: Self)
        ensures
            r == Self::spec_from_select_value(value@),
    {
        if str_eq(value, "facebook") {
            LogoId::Facebook
        } else if str_eq(value, "whatsapp") {
            LogoId::WhatsApp
        } else if str_eq(value, "facebook_color") {
            LogoId::FacebookColor
        } else if str_eq(value, "whatsapp_color") {
            LogoId::WhatsAppColor
        } else if str_eq(value, "instagram_color") {
            LogoId::InstagramColor
        } else {
            LogoId::NoLogo
        }
    }
}

} // verus!
