use andiskaz::color::transform;
use andiskaz::color::transform::Transformer;
use andiskaz::color::{
    ApproxBrightness, Brightness, CmyColor, Color2, ContrastFgWithBg, GrayColor, RgbColor,
    UpdateBg, UpdateFg, Updater,
};

#[test]
fn gray_color_brightness() {
    assert_eq!(GrayColor::new(0).approx_brightness(), Brightness { level: 0 });
    assert_eq!(GrayColor::new(3).approx_brightness(), Brightness { level: 8548 });
    assert_eq!(GrayColor::new(9).approx_brightness(), Brightness { level: 25644 });
    assert_eq!(GrayColor::new(12).approx_brightness(), Brightness { level: 34192 });
    assert_eq!(GrayColor::new(23).approx_brightness(), Brightness { level: 65535 });
}

#[test]
fn cmy_color_brightness() {
    assert_eq!(CmyColor::new(0, 0, 0).approx_brightness(), Brightness { level: 0 });
    assert_eq!(CmyColor::new(1, 2, 3).approx_brightness(), Brightness { level: 26214 });
    assert_eq!(CmyColor::new(5, 5, 5).approx_brightness(), Brightness { level: 65535 });
}

#[test]
fn rgb_color_brightness() {
    assert_eq!(RgbColor { red: 0, green: 0, blue: 0 }.approx_brightness(), Brightness {
        level: 0,
    });
    assert_eq!(RgbColor { red: 51, green: 102, blue: 153 }.approx_brightness(), Brightness {
        level: 23644,
    });
    assert_eq!(RgbColor { red: 255, green: 255, blue: 255 }.approx_brightness(), Brightness {
        level: 65535,
    });
}

#[test]
fn updaters() {
    let updater = (
        UpdateFg(CmyColor::new(1, 2, 3).into()),
        ContrastFgWithBg,
        UpdateBg(CmyColor::new(4, 4, 5).into()),
    );

    let pair = Color2 {
        foreground: RgbColor { red: 0, green: 0, blue: 0 }.into(),
        background: CmyColor::new(1, 1, 1).into(),
    };

    assert_eq!(updater.update(pair), Color2 {
        foreground: CmyColor::new(2, 3, 5).into(),
        background: CmyColor::new(4, 4, 5).into(),
    });
}

#[test]
fn adapting_past_the_maximum_keeps_the_proportions() {
    // Scaled to brightness 52428, CMY(1, 2, 3) would need a yellow of 6: the
    // channels are scaled by 5 over 3 instead.
    assert_eq!(
        CmyColor::new(1, 2, 3).with_approx_brightness(Brightness { level: 52428 }),
        CmyColor::new(2, 3, 5)
    );
    // Within reach, the channels are scaled to the requested brightness.
    assert_eq!(
        CmyColor::new(1, 2, 3).with_approx_brightness(Brightness { level: 34192 }),
        CmyColor::new(1, 3, 4)
    );
    assert_eq!(
        CmyColor::new(0, 1, 2).with_approx_brightness(Brightness { level: 65535 }),
        CmyColor::new(0, 3, 5)
    );
    assert_eq!(
        RgbColor { red: 10, green: 20, blue: 40 }.with_approx_brightness(Brightness { level: 65535 }),
        RgbColor { red: 64, green: 128, blue: 255 }
    );
}

#[test]
fn test_gray_color_brightness() {
    assert_eq!(GrayColor::new(0).approx_brightness(), Brightness { level: 0 });
    assert_eq!(GrayColor::new(3).approx_brightness(), Brightness { level: 8548 });
    assert_eq!(GrayColor::new(9).approx_brightness(), Brightness { level: 25644 });
    assert_eq!(GrayColor::new(12).approx_brightness(), Brightness { level: 34192 });
    assert_eq!(GrayColor::new(23).approx_brightness(), Brightness { level: 65535 });
}

#[test]
fn test_cmy_color_brightness() {
    assert_eq!(CmyColor::new(0, 0, 0).approx_brightness(), Brightness { level: 0 });
    assert_eq!(CmyColor::new(1, 2, 3).approx_brightness(), Brightness { level: 26214 });
    assert_eq!(CmyColor::new(5, 5, 5).approx_brightness(), Brightness { level: 65535 });
}

#[test]
fn test_rgb_color_brightness() {
    assert_eq!(RgbColor { red: 0, green: 0, blue: 0 }.approx_brightness(), Brightness {
        level: 0,
    });
    assert_eq!(RgbColor { red: 51, green: 102, blue: 153 }.approx_brightness(), Brightness {
        level: 23644,
    });
    assert_eq!(RgbColor { red: 255, green: 255, blue: 255 }.approx_brightness(), Brightness {
        level: 65535,
    });
}

#[test]
fn transformers() {
    let transformer =
        transform::Sequence(transform::Adapt(Brightness { level: 34192 }), transform::Id);
    assert_eq!(transformer.transform(GrayColor::new(3).into()), GrayColor::new(12).into());
    assert_eq!(transformer.transform(CmyColor::new(1, 2, 3).into()), CmyColor::new(1, 3, 4).into());
    assert_eq!(
        transformer.transform(RgbColor { red: 20, green: 39, blue: 2 }.into()),
        RgbColor { red: 91, green: 178, blue: 9 }.into()
    );
}

use andiskaz::color::{
    AdaptBgToFg, AdaptFgToBg, BadBasicColor, BadCmyColor, BadGrayColor, BasicColor,
    ContrastBgWithFg, Color, Color8, Color8Kind,
};
use andiskaz::color::transform::{Const, Contrast, Id, Invert, PairTransformer, PairWith};
use std::convert::TryFrom;

#[test]
fn basic_color_codes_round_trip() {
    for code in 0u8 .. 16 {
        let color = BasicColor::try_from(code).unwrap();
        assert_eq!(color.code(), code);
    }
    assert_eq!(BasicColor::try_from(3), Ok(BasicColor::DarkYellow));
    assert_eq!(BasicColor::try_from(15), Ok(BasicColor::White));
}

#[test]
fn basic_color_rejects_large_codes() {
    assert_eq!(BasicColor::try_from(16), Err(BadBasicColor { code: 16 }));
    assert_eq!(BasicColor::try_from(255), Err(BadBasicColor { code: 255 }));
}

#[test]
fn cmy_color_rejects_large_components() {
    assert_eq!(CmyColor::try_new(6, 0, 0), Err(BadCmyColor { cyan: 6, magenta: 0, yellow: 0 }));
    assert_eq!(CmyColor::try_new(0, 0, 9), Err(BadCmyColor { cyan: 0, magenta: 0, yellow: 9 }));
    let color = CmyColor::try_new(5, 4, 3).unwrap();
    assert_eq!((color.cyan(), color.magenta(), color.yellow()), (5, 4, 3));
    assert_eq!(color.code(), 5 * 36 + 4 * 6 + 3);
}

#[test]
fn gray_color_rejects_large_brightness() {
    assert_eq!(GrayColor::try_new(24), Err(BadGrayColor { brightness: 24 }));
    assert_eq!(GrayColor::try_new(23).unwrap().brightness(), 23);
    assert_eq!(GrayColor::min().brightness(), 0);
    assert_eq!(GrayColor::half().brightness(), 12);
    assert_eq!(GrayColor::max().brightness(), 23);
}

#[test]
fn cmy_setters_change_one_component() {
    let color = CmyColor::new(1, 2, 3);
    assert_eq!(color.set_cyan(4), CmyColor::new(4, 2, 3));
    assert_eq!(color.set_magenta(0), CmyColor::new(1, 0, 3));
    assert_eq!(color.set_yellow(5), CmyColor::new(1, 2, 5));
}

#[test]
fn color8_codes_name_their_kind() {
    assert_eq!(Color8::from(BasicColor::LightRed).code(), 9);
    assert_eq!(Color8::from(CmyColor::new(1, 2, 3)).code(), 16 + 36 + 12 + 3);
    assert_eq!(Color8::from(GrayColor::new(7)).code(), 232 + 7);
    assert_eq!(Color8::from(CmyColor::new(1, 2, 3)).kind(), Color8Kind::Cmy(CmyColor::new(1, 2, 3)));
    assert_eq!(Color8::from(GrayColor::new(7)).kind(), Color8Kind::Gray(GrayColor::new(7)));
    assert_eq!(Color8::from(BasicColor::Black).kind(), Color8Kind::Basic(BasicColor::Black));
}

#[test]
fn inverting_twice_gives_the_color_back() {
    assert_eq!(!BasicColor::DarkRed, BasicColor::LightRed);
    assert_eq!(!!BasicColor::DarkRed, BasicColor::DarkRed);
    assert_eq!(!RgbColor { red: 0, green: 100, blue: 255 }, RgbColor {
        red: 255,
        green: 155,
        blue: 0,
    });
    assert_eq!(!CmyColor::new(1, 2, 5), CmyColor::new(4, 3, 0));
    assert_eq!(!CmyColor::new(1, 1, 1), CmyColor::new(4, 4, 4));
    assert_eq!(!CmyColor::new(0, 0, 0), CmyColor::new(5, 5, 5));
    assert_eq!(!!CmyColor::new(1, 2, 5), CmyColor::new(1, 2, 5));
    assert_eq!(!GrayColor::new(1), GrayColor::new(22));
    assert_eq!(!GrayColor::min(), GrayColor::max());
    assert_eq!(!GrayColor::max(), GrayColor::min());
    assert_eq!(!!GrayColor::new(0), GrayColor::new(0));
    assert_eq!(!!GrayColor::new(10), GrayColor::new(10));
    let color: Color = CmyColor::new(3, 3, 3).into();
    assert_eq!(!!color, color);
    let pair = Color2 { foreground: BasicColor::White.into(), background: BasicColor::DarkBlue.into() };
    assert_eq!(!pair, Color2 {
        foreground: BasicColor::Black.into(),
        background: BasicColor::LightBlue.into(),
    });
    assert_eq!(!!pair, pair);
}

#[test]
fn opposite_brightness_twice_is_the_brightness() {
    assert_eq!(!Brightness { level: 100 }, Brightness { level: 65435 });
    assert_eq!(!!Brightness { level: 100 }, Brightness { level: 100 });
    assert_eq!(Brightness::min(), Brightness { level: 0 });
    assert_eq!(Brightness::max(), Brightness { level: 65535 });
    assert_eq!(Brightness::default(), Brightness::max());
}

#[test]
fn basic_color_brightness_is_light_or_dark() {
    assert_eq!(BasicColor::LightCyan.approx_brightness(), Brightness::max());
    assert_eq!(BasicColor::DarkCyan.approx_brightness(), Brightness::min());
    assert_eq!(BasicColor::DarkCyan.with_approx_brightness(Brightness::max()), BasicColor::LightCyan);
    assert_eq!(BasicColor::DarkCyan.with_approx_brightness(Brightness { level: 10 }), BasicColor::DarkCyan);
}

#[test]
fn gray_color_set_brightness() {
    assert_eq!(GrayColor::new(0).with_approx_brightness(Brightness { level: 34192 }), GrayColor::new(12));
    assert_eq!(GrayColor::new(5).with_approx_brightness(Brightness::max()), GrayColor::new(23));
}

#[test]
fn pair_updaters_adapt_and_contrast() {
    let pair = Color2 {
        foreground: GrayColor::new(3).into(),
        background: GrayColor::new(12).into(),
    };
    assert_eq!(AdaptFgToBg.update(pair), Color2 {
        foreground: GrayColor::new(12).into(),
        background: GrayColor::new(12).into(),
    });
    assert_eq!(AdaptBgToFg.update(pair), Color2 {
        foreground: GrayColor::new(3).into(),
        background: GrayColor::new(3).into(),
    });
    assert_eq!(ContrastBgWithFg.update(pair), Color2 {
        foreground: GrayColor::new(3).into(),
        background: GrayColor::new(20).into(),
    });
    assert_eq!(UpdateFg(BasicColor::Black.into()).update(pair).foreground, BasicColor::Black.into());
    assert_eq!(UpdateBg(BasicColor::Black.into()).update(pair).background, BasicColor::Black.into());
    assert_eq!(Color2::default(), Color2 {
        foreground: BasicColor::White.into(),
        background: BasicColor::Black.into(),
    });
}

#[test]
fn other_transformers() {
    let gray: Color = GrayColor::new(3).into();
    assert_eq!(Id.transform(gray), gray);
    assert_eq!(Const(BasicColor::Black.into()).transform(gray), BasicColor::Black.into());
    assert_eq!(Invert.transform(gray), GrayColor::new(20).into());
    assert_eq!(Contrast(Brightness { level: 34192 }).transform(gray), GrayColor::new(11).into());
    let pair = Color2 { foreground: gray, background: BasicColor::Black.into() };
    assert_eq!(PairWith { foreground: Id, background: Invert }.transform_pair(pair), Color2 {
        foreground: gray,
        background: BasicColor::White.into(),
    });
}

#[test]
fn sequence_applies_the_first_transformer_first() {
    let gray: andiskaz::color::Color = GrayColor::new(3).into();
    let white: andiskaz::color::Color = GrayColor::new(23).into();
    let black: andiskaz::color::Color = GrayColor::new(0).into();
    // Const first, then Invert: the constant is inverted.
    let first_const = transform::Sequence(transform::Const(white), transform::Invert);
    assert_eq!(first_const.transform(gray), black);
    // Invert first, then Const: only the constant is left.
    let first_invert = transform::Sequence(transform::Invert, transform::Const(white));
    assert_eq!(first_invert.transform(gray), white);
    // The identity as second transformer changes nothing.
    let with_id = transform::Sequence(transform::Invert, transform::Id);
    assert_eq!(with_id.transform(gray), transform::Invert.transform(gray));
}

#[test]
fn gray_adapted_to_its_own_brightness_is_unchanged() {
    for brightness in 0..=23u8 {
        let gray = GrayColor::new(brightness);
        assert_eq!(gray.with_approx_brightness(gray.approx_brightness()), gray);
    }
    let adapted = GrayColor::new(5).with_approx_brightness(Brightness { level: 34192 });
    assert_eq!(adapted.brightness(), 12);
    let adapted = GrayColor::new(5).with_approx_brightness(Brightness { level: 65535 });
    assert_eq!(adapted.brightness(), 23);
}

#[test]
fn color8_kind_round_trip() {
    for code in 0..=255u8 {
        let color = Color8::from(code_color(code));
        assert_eq!(color.code(), code);
        assert_eq!(Color8::from(color.kind()), color);
        match color.kind() {
            Color8Kind::Basic(_) => assert!(code < 16),
            Color8Kind::Cmy(_) => assert!((16..232).contains(&code)),
            Color8Kind::Gray(_) => assert!(code >= 232),
        }
    }
    let kind = Color8Kind::Cmy(CmyColor::new(1, 2, 3));
    assert_eq!(Color8::from(kind).kind(), kind);
    assert_eq!(Color8::from(kind).code(), 16 + 36 + 2 * 6 + 3);
    let kind = Color8Kind::Basic(BasicColor::LightRed);
    assert_eq!(Color8::from(kind).kind(), kind);
}

fn code_color(code: u8) -> Color8Kind {
    if code < 16 {
        Color8Kind::Basic(BasicColor::try_from(code).unwrap())
    } else if code < 232 {
        let c = code - 16;
        Color8Kind::Cmy(CmyColor::new(c / 36, c / 6 % 6, c % 6))
    } else {
        Color8Kind::Gray(GrayColor::new(code - 232))
    }
}
