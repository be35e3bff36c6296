use qr_craft::errors::RenderError;
use qr_craft::models::logo::{LogoId, LogoRatio};
use qr_craft::models::qr_code::LogoId as StoredLogoId;
use qr_craft::models::qr_code::MarginEnabled;

#[test]
fn test_logo_id_str_round_trip() {
    let all = [
        LogoId::NoLogo,
        LogoId::Facebook,
        LogoId::FacebookColor,
        LogoId::WhatsApp,
        LogoId::WhatsAppColor,
        LogoId::InstagramColor,
    ];
    for id in all {
        assert_eq!(LogoId::from_str(id.as_str()), id);
    }
    assert_eq!(LogoId::Facebook.as_str(), "facebook");
    assert_eq!(LogoId::WhatsAppColor.as_str(), "whatsapp_color");
    assert_eq!(LogoId::from_str("unknown"), LogoId::NoLogo);
    assert_eq!(LogoId::from_str(""), LogoId::NoLogo);
}

#[test]
fn test_logo_id_filenames() {
    assert_eq!(LogoId::NoLogo.as_filename(), None);
    assert_eq!(LogoId::Facebook.as_filename(), Some("facebook"));
    assert_eq!(LogoId::InstagramColor.as_filename(), Some("instagram_color"));
    assert_eq!(LogoId::from_filename("whatsapp"), LogoId::WhatsApp);
    assert_eq!(LogoId::from_filename("nope"), LogoId::NoLogo);
}

#[test]
fn test_stored_logo_id_filenames() {
    assert_eq!(StoredLogoId::NoLogo.as_filename(), None);
    assert_eq!(StoredLogoId::WhatsApp.as_filename(), Some("whatsapp"));
    assert_eq!(
        StoredLogoId::from_filename("facebook_color"),
        Some(StoredLogoId::FacebookColor)
    );
    assert_eq!(StoredLogoId::from_filename("mystery"), None);
}

#[test]
fn test_stored_logo_id_select_values() {
    assert_eq!(StoredLogoId::NoLogo.as_select_value(), "");
    assert_eq!(StoredLogoId::Facebook.as_select_value(), "facebook");
    assert_eq!(
        StoredLogoId::from_select_value("whatsapp_color"),
        StoredLogoId::WhatsAppColor
    );
    assert_eq!(StoredLogoId::from_select_value(""), StoredLogoId::NoLogo);
    assert_eq!(StoredLogoId::from_select_value("junk"), StoredLogoId::NoLogo);
    let all = [
        StoredLogoId::NoLogo,
        StoredLogoId::Facebook,
        StoredLogoId::FacebookColor,
        StoredLogoId::WhatsApp,
        StoredLogoId::WhatsAppColor,
        StoredLogoId::InstagramColor,
    ];
    for id in all {
        assert_eq!(StoredLogoId::from_select_value(id.as_select_value()), id);
    }
}

#[test]
fn test_logo_ratio_round_trip() {
    for ratio in [LogoRatio::Small, LogoRatio::Medium, LogoRatio::Large] {
        assert_eq!(LogoRatio::from_str(ratio.as_str()), ratio);
    }
    assert_eq!(LogoRatio::from_str("gigantic"), LogoRatio::Medium);
    assert_eq!(LogoRatio::Small.as_ratio_permille(), 150);
    assert_eq!(LogoRatio::Medium.as_ratio_permille(), 200);
    assert_eq!(LogoRatio::Large.as_ratio_permille(), 250);
}

#[test]
fn test_defaults() {
    assert_eq!(LogoId::default(), LogoId::NoLogo);
    assert_eq!(StoredLogoId::default(), StoredLogoId::NoLogo);
    assert_eq!(LogoRatio::default(), LogoRatio::Medium);
    assert_eq!(MarginEnabled::default(), MarginEnabled(true));
}

#[test]
fn test_error_messages_distinct() {
    let errors = [
        RenderError::EmptyText,
        RenderError::EncodingCapacity,
        RenderError::BufferShape,
        RenderError::SvgParse,
        RenderError::InvalidUtf8,
        RenderError::SvgRasterize,
        RenderError::ImageDecode,
        RenderError::InvalidLogoDimensions,
        RenderError::Encode,
    ];
    for (i, a) in errors.iter().enumerate() {
        assert!(!a.message().is_empty());
        for b in errors.iter().skip(i + 1) {
            assert_ne!(a.message(), b.message());
        }
    }
}
