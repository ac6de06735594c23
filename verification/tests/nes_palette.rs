use jgenesis::nes_config::palettes::{
    emphasis_from_index, ntsc_signal_level, ColorEmphasis, SignalLevel,
};
use jgenesis::nes_config::serialization::{
    palette_from_base64, palette_to_base64, PaletteTextError,
};
use jgenesis::nes_config::{
    bytes_to_triples, palette_file_kind, NesPalette, PaletteFileKind, PaletteLoadError,
};

fn sample_palette() -> NesPalette {
    let mut colors = [(0_u8, 0_u8, 0_u8); 512];
    for (i, color) in colors.iter_mut().enumerate() {
        *color = ((i % 256) as u8, (i * 7 % 256) as u8, (255 - i % 256) as u8);
    }
    NesPalette(colors)
}

#[test]
fn palette_bytes_round_trip() {
    let palette = sample_palette();
    let bytes = palette.to_bytes();
    assert_eq!(bytes.len(), 512 * 3);
    assert_eq!(&bytes[0..6], &[0, 0, 255, 1, 7, 254]);
    assert_eq!(NesPalette::from_bytes(&bytes), palette);
}

#[test]
fn palette_from_bytes_ignores_trailing_bytes() {
    let mut bytes = sample_palette().to_bytes();
    bytes.extend_from_slice(&[1, 2, 3]);
    assert_eq!(NesPalette::from_bytes(&bytes), sample_palette());
}

#[test]
fn triples_from_bytes() {
    let bytes = [1, 2, 3, 4, 5, 6, 7];
    assert_eq!(bytes_to_triples(&bytes, 2), vec![(1, 2, 3), (4, 5, 6)]);
    assert!(bytes_to_triples(&bytes, 0).is_empty());
}

#[test]
fn palette_file_kinds() {
    assert!(matches!(palette_file_kind(0), Err(PaletteLoadError::IncorrectSize(0))));
    assert!(matches!(palette_file_kind(191), Err(PaletteLoadError::IncorrectSize(191))));
    assert!(matches!(palette_file_kind(192), Ok(PaletteFileKind::Colors64)));
    assert!(matches!(palette_file_kind(1535), Ok(PaletteFileKind::Colors64)));
    assert!(matches!(palette_file_kind(1536), Ok(PaletteFileKind::Colors512)));
    assert!(matches!(palette_file_kind(4096), Ok(PaletteFileKind::Colors512)));
}

#[test]
fn emphasis_bits_of_index() {
    assert_eq!(emphasis_from_index(0x03F), ColorEmphasis { r: false, g: false, b: false });
    assert_eq!(emphasis_from_index(0x040), ColorEmphasis { r: true, g: false, b: false });
    assert_eq!(emphasis_from_index(0x180), ColorEmphasis { r: false, g: true, b: true });
    assert_eq!(emphasis_from_index(0x1C0), ColorEmphasis { r: true, g: true, b: true });
}

#[test]
fn gray_hues_ignore_emphasis() {
    let all = ColorEmphasis { r: true, g: true, b: true };
    for phase in 0..12 {
        assert_eq!(
            ntsc_signal_level(0x3E, all, phase),
            SignalLevel { luma: 1, attenuated: false, high: false }
        );
        assert_eq!(
            ntsc_signal_level(0x0F, all, phase),
            SignalLevel { luma: 1, attenuated: false, high: false }
        );
    }
}

#[test]
fn hue_zero_is_high_and_hue_d_is_low() {
    for phase in 0..12 {
        let none = ColorEmphasis::none();
        assert!(ntsc_signal_level(0x20, none, phase).high);
        assert_eq!(ntsc_signal_level(0x20, none, phase).luma, 2);
        assert!(!ntsc_signal_level(0x1D, none, phase).high);
    }
}

#[test]
fn hue_follows_color_phase() {
    let none = ColorEmphasis::none();
    assert!(!ntsc_signal_level(0x16, none, 0).high);
    assert!(!ntsc_signal_level(0x16, none, 5).high);
    assert!(ntsc_signal_level(0x16, none, 6).high);
    assert!(ntsc_signal_level(0x16, none, 11).high);
    assert_eq!(ntsc_signal_level(0x16, none, 6).luma, 1);
}

#[test]
fn emphasis_attenuates_in_its_phase() {
    let red = ColorEmphasis { r: true, g: false, b: false };
    assert!(ntsc_signal_level(0x16, red, 0).attenuated);
    assert!(ntsc_signal_level(0x16, red, 5).attenuated);
    assert!(!ntsc_signal_level(0x16, red, 6).attenuated);
    assert!(!ntsc_signal_level(0x16, ColorEmphasis::none(), 0).attenuated);
}

#[test]
fn palette_base64_round_trip() {
    let palette = sample_palette();
    let text = palette_to_base64(&palette);
    assert_eq!(text.len(), 512 * 3 / 3 * 4);
    assert!(text.starts_with("AAD/AQf+"));
    assert_eq!(palette_from_base64(&text).unwrap(), palette);
}

#[test]
fn palette_base64_errors() {
    assert!(matches!(palette_from_base64("!!!!"), Err(PaletteTextError::InvalidBase64(_))));
    assert!(matches!(palette_from_base64("AA=="), Err(PaletteTextError::InvalidBase64(_))));
    assert!(matches!(palette_from_base64("AAAA"), Err(PaletteTextError::IncorrectLength(3))));
    assert!(matches!(palette_from_base64(""), Err(PaletteTextError::IncorrectLength(0))));
}

#[test]
fn palette_load_error_text() {
    assert_eq!(
        PaletteLoadError::IncorrectSize(10).to_string(),
        "Incorrect palette size; expected 1536 bytes, was 10"
    );
    let io = std::io::Error::new(std::io::ErrorKind::Other, "disk on fire");
    assert_eq!(PaletteLoadError::Io(io).to_string(), "I/O error loading palette: disk on fire");
}
