use skia_safe::geometry::Color;
use skia_safe::paragraph::{
    FontStyle, ParagraphStyle, Slant, StrutStyle, TextAlign, TextDirection, TextStyle,
};

#[test]
fn strut_style_defaults_and_setters() {
    let mut s = StrutStyle::new();
    assert_eq!(s.font_families(), &["sans-serif".to_string()]);
    assert_eq!(s.font_size(), 14f32.to_bits());
    assert_eq!(s.height(), 1f32.to_bits());
    assert_eq!(s.leading(), (-1f32).to_bits());
    assert!(!s.strut_enabled());
    assert!(!s.force_strut_height());
    assert_eq!(s.font_style(), FontStyle::normal());
    let bold = FontStyle { weight: 700, width: 5, slant: Slant::Italic };
    s.set_font_size(20f32.to_bits())
        .set_height(1.5f32.to_bits())
        .set_leading(0.5f32.to_bits())
        .set_strut_enabled(true)
        .set_force_strut_height(true)
        .set_font_style(bold)
        .set_font_families(&["Roboto".to_string(), "Noto".to_string()]);
    assert_eq!(s.font_size(), 20f32.to_bits());
    assert_eq!(s.height(), 1.5f32.to_bits());
    assert_eq!(s.leading(), 0.5f32.to_bits());
    assert!(s.strut_enabled());
    assert!(s.force_strut_height());
    assert_eq!(s.font_style(), bold);
    assert_eq!(s.font_families(), &["Roboto".to_string(), "Noto".to_string()]);
}

#[test]
fn paragraph_style_defaults() {
    let p = ParagraphStyle::default();
    assert_eq!(p.text_direction(), TextDirection::Ltr);
    assert_eq!(p.text_align(), TextAlign::Start);
    assert_eq!(p.max_lines(), None);
    assert!(p.unlimited_lines());
    assert_eq!(p.ellipsis(), "");
    assert!(!p.ellipsized());
    assert!(p.hinting_is_on());
    assert_eq!(p.height(), 1f32.to_bits());
    assert_eq!(*p.text_style(), TextStyle::new());
    assert!(!p.strut_style().strut_enabled());
    assert_eq!(p.effective_align(), TextAlign::Left);
}

#[test]
fn paragraph_style_setters() {
    let mut p = ParagraphStyle::new();
    let mut strut = StrutStyle::new();
    strut.set_strut_enabled(true);
    let ts = TextStyle { color: Color(0xFF112233), font_size: 9f32.to_bits(), font_style: FontStyle::normal() };
    p.set_strut_style(strut)
        .set_text_style(&ts)
        .set_text_direction(TextDirection::Rtl)
        .set_text_align(TextAlign::Center)
        .set_max_lines(Some(3))
        .set_ellipsis("...")
        .set_height(2f32.to_bits())
        .turn_hinting_off();
    assert!(p.strut_style().strut_enabled());
    assert_eq!(*p.text_style(), ts);
    assert_eq!(p.text_direction(), TextDirection::Rtl);
    assert_eq!(p.text_align(), TextAlign::Center);
    assert_eq!(p.max_lines(), Some(3));
    assert!(!p.unlimited_lines());
    assert_eq!(p.ellipsis(), "...");
    assert!(p.ellipsized());
    assert_eq!(p.height(), 2f32.to_bits());
    assert!(!p.hinting_is_on());
    p.set_max_lines(None);
    assert!(p.unlimited_lines());
    p.set_max_lines(Some(usize::MAX));
    assert_eq!(p.max_lines(), None);
}

#[test]
fn effective_align_resolves_start_and_end() {
    let mut p = ParagraphStyle::new();
    p.set_text_align(TextAlign::End);
    assert_eq!(p.effective_align(), TextAlign::Right);
    p.set_text_direction(TextDirection::Rtl);
    assert_eq!(p.effective_align(), TextAlign::Left);
    p.set_text_align(TextAlign::Start);
    assert_eq!(p.effective_align(), TextAlign::Right);
    p.set_text_align(TextAlign::Justify);
    assert_eq!(p.effective_align(), TextAlign::Justify);
}

#[test]
fn style_copies_are_equal_until_changed() {
    let mut s = StrutStyle::new();
    s.set_font_families(&["Roboto".to_string()]);
    let mut t = s.clone();
    assert!(s == t);
    t.set_font_families(&["Noto".to_string()]);
    assert!(s != t);
    t.set_font_families(&["Roboto".to_string(), "Noto".to_string()]);
    assert!(s != t);
    let p = ParagraphStyle::new();
    let mut q = p.clone();
    assert!(p == q);
    q.set_ellipsis("\u{2026}");
    assert!(p != q);
    let mut r = p.clone();
    r.set_strut_style(s);
    assert!(p != r);
}
