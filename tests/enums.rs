use skia_safe::enums::{AlphaType, BlendMode, BlendModeCoeff, PathFillType, PathVerb, MAX_POINTS};

const FILL_TYPES: [PathFillType; 4] = [
    PathFillType::Winding,
    PathFillType::EvenOdd,
    PathFillType::InverseWinding,
    PathFillType::InverseEvenOdd,
];

#[test]
fn fill_type_bits() {
    for f in FILL_TYPES {
        let t = f.tag();
        assert_eq!(f.is_even_odd(), t & 1 != 0);
        assert_eq!(f.is_inverse(), t & 2 != 0);
        assert_eq!(PathFillType::from_tag(t), Some(f));
    }
    assert!(PathFillType::InverseEvenOdd.is_even_odd());
    assert!(!PathFillType::Winding.is_inverse());
    assert_eq!(PathFillType::from_tag(4), None);
}

#[test]
fn to_non_inverse_clears_the_inverse_bit() {
    assert_eq!(PathFillType::InverseWinding.to_non_inverse(), PathFillType::Winding);
    assert_eq!(PathFillType::InverseEvenOdd.to_non_inverse(), PathFillType::EvenOdd);
    for f in FILL_TYPES {
        let n = f.to_non_inverse();
        assert!(!n.is_inverse());
        assert_eq!(n.is_even_odd(), f.is_even_odd());
        assert_eq!(n.to_non_inverse(), n);
        if !f.is_inverse() {
            assert_eq!(n, f);
        }
    }
}

#[test]
fn verb_points() {
    assert_eq!(PathVerb::Move.points(), 1);
    assert_eq!(PathVerb::Line.points(), 2);
    assert_eq!(PathVerb::Quad.points(), 3);
    assert_eq!(PathVerb::Conic.points(), 4);
    assert_eq!(PathVerb::Cubic.points(), MAX_POINTS);
    assert_eq!(PathVerb::Close.points(), 0);
    assert_eq!(PathVerb::Done.points(), 0);
}

#[test]
fn alpha_type_opaque() {
    assert!(AlphaType::Opaque.is_opaque());
    assert!(!AlphaType::Premul.is_opaque());
    assert!(!AlphaType::Unknown.is_opaque());
}

#[test]
fn blend_mode_coefficients_and_names() {
    assert_eq!(BlendMode::SrcOver.as_coeff(), Some((BlendModeCoeff::One, BlendModeCoeff::ISA)));
    assert_eq!(BlendMode::Clear.as_coeff(), Some((BlendModeCoeff::Zero, BlendModeCoeff::Zero)));
    assert_eq!(BlendMode::Screen.as_coeff(), Some((BlendModeCoeff::One, BlendModeCoeff::ISC)));
    assert_eq!(BlendMode::Overlay.as_coeff(), None);
    assert_eq!(BlendMode::Luminosity.as_coeff(), None);
    assert_eq!(BlendMode::SrcATop.name(), "SrcATop");
    assert_eq!(BlendMode::Multiply.name(), "Multiply");
}
