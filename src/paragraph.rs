//! Paragraph and strut styles: value handles whose fields are read and
//! written one by one.
use vstd::prelude::*;
use crate::geometry::{Color, Scalar};
use crate::handle::Handle;

verus! {

/// The scalar 1.0.
pub const SCALAR_ONE: Scalar = 0x3f80_0000;
/// The scalar -1.0.
pub const SCALAR_MINUS_ONE: Scalar = 0xbf80_0000;
/// The scalar 14.0: the font size a style starts with.
pub const DEFAULT_FONT_SIZE: Scalar = 0x4160_0000;
/// The weight of a normal font.
pub const NORMAL_WEIGHT: i32 = 400;
/// The width of a normal font.
pub const NORMAL_WIDTH: i32 = 5;
/// The color text starts with: opaque black.
pub const DEFAULT_COLOR: u32 = 0xff00_0000;

/// The direction text runs in.
#[derive(Clone, Copy, Debug, PartialEq, Eq, Structural)]
pub enum TextDirection {
    Rtl,
    Ltr,
}

/// How lines are aligned in a paragraph.
#[derive(Clone, Copy, Debug, PartialEq, Eq, Structural)]
pub enum TextAlign {
    Left,
    Right,
    Center,
    Justify,
    Start,
    End,
}

/// The slant of a font.
#[derive(Clone, Copy, Debug, PartialEq, Eq, Structural)]
pub enum Slant {
    Upright,
    Italic,
    Oblique,
}

/// Weight, width and slant of a font.
#[derive(Clone, Copy, Debug, PartialEq, Eq, Structural)]
pub struct FontStyle {
    pub weight: i32,
    pub width: i32,
    pub slant: Slant,
}

impl FontStyle {
    pub open spec fn spec_normal() -> FontStyle {
        FontStyle { weight: NORMAL_WEIGHT, width: NORMAL_WIDTH, slant: Slant::Upright }
    }

    /// The normal, upright font style.
    pub fn normal() -> (r: FontStyle)
        ensures
            r == FontStyle::spec_normal(),
    {
        FontStyle { weight: NORMAL_WEIGHT, width: NORMAL_WIDTH, slant: Slant::Upright }
    }
}

/// The style a paragraph's text starts with.
#[derive(Clone, Copy, Debug, PartialEq, Eq, Structural)]
pub struct TextStyle {
    pub color: Color,
    pub font_size: Scalar,
    pub font_style: FontStyle,
}

impl TextStyle {
    pub open spec fn spec_new() -> TextStyle {
        TextStyle { color: Color(DEFAULT_COLOR), font_size: DEFAULT_FONT_SIZE, font_style: FontStyle::spec_normal() }
    }

    pub fn new() -> (r: TextStyle)
        ensures
            r == TextStyle::spec_new(),
    {
        TextStyle { color: Color(DEFAULT_COLOR), font_size: DEFAULT_FONT_SIZE, font_style: FontStyle::normal() }
    }
}

/// What a strut style holds.
pub struct StrutStyleModel {
    pub font_families: Seq<Seq<char>>,
    pub font_style: FontStyle,
    pub font_size: Scalar,
    pub height: Scalar,
    pub leading: Scalar,
    pub enabled: bool,
    pub force_height: bool,
}

/// The minimum line height that a paragraph keeps to.
pub type StrutStyle = Handle<SkStrutStyle>;

/// The native strut style.
#[derive(Clone)]
pub struct SkStrutStyle {
    font_families: Vec<String>,
    font_style: FontStyle,
    font_size: Scalar,
    height: Scalar,
    leading: Scalar,
    enabled: bool,
    force_height: bool,
}

/// The text of each string.
pub open spec fn texts(v: Seq<String>) -> Seq<Seq<char>> {
    v.map_values(|s: String| s@)
}

impl View for SkStrutStyle {
    type V = StrutStyleModel;

    closed spec fn view(&self) -> StrutStyleModel {
        StrutStyleModel {
            font_families: texts(self.font_families@),
            font_style: self.font_style,
            font_size: self.font_size,
            height: self.height,
            leading: self.leading,
            enabled: self.enabled,
            force_height: self.force_height,
        }
    }
}

/// Copies of the given strings.
fn copy_strings(s: &[String]) -> (r: Vec<String>)
    ensures
        texts(r@) == texts(s@),
{
    let mut r: Vec<String> = Vec::new();
    let mut i: usize = 0;
    while i < s.len()
        invariant
            i <= s@.len(),
            r@.len() == i,
            forall|j: int| 0 <= j < i ==> #[trigger] r@[j]@ == s@[j]@,
        decreases s@.len() - i,
    {
        r.push(s[i].clone());
        i = i + 1;
    }
    assert(texts(r@) =~= texts(s@));
    r
}

impl Handle<SkStrutStyle> {
    pub open spec fn spec_new_model() -> StrutStyleModel {
        StrutStyleModel {
            font_families: seq!["sans-serif"@],
            font_style: FontStyle::spec_normal(),
            font_size: DEFAULT_FONT_SIZE,
            height: SCALAR_ONE,
            leading: SCALAR_MINUS_ONE,
            enabled: false,
            force_height: false,
        }
    }

    /// A disabled strut over the default family, at the default size.
    pub fn new() -> (r: Self)
        ensures
            r@ == StrutStyle::spec_new_model(),
    {
        let mut families: Vec<String> = Vec::new();
        families.push("sans-serif".to_owned());
        let r = SkStrutStyle {
            font_families: families,
            font_style: FontStyle::normal(),
            font_size: DEFAULT_FONT_SIZE,
            height: SCALAR_ONE,
            leading: SCALAR_MINUS_ONE,
            enabled: false,
            force_height: false,
        };
        assert(r@.font_families =~= seq!["sans-serif"@]);
        Handle { native: r }
    }

    pub fn font_families(&self) -> (r: &[String])
        ensures
            texts(r@) == self@.font_families,
    {
        self.native.font_families.as_slice()
    }

    pub fn set_font_families(&mut self, families: &[String]) -> (r: &mut Self)
        ensures
            r@ == (StrutStyleModel { font_families: texts(families@), ..old(self)@ }),
            final(self)@ == final(r)@,
    {
        self.native.font_families = copy_strings(families);
        self
    }

    pub fn font_style(&self) -> (r: FontStyle)
        ensures
            r == self@.font_style,
    {
        self.native.font_style
    }

    pub fn set_font_style(&mut self, font_style: FontStyle) -> (r: &mut Self)
        ensures
            r@ == (StrutStyleModel { font_style, ..old(self)@ }),
            final(self)@ == final(r)@,
    {
        self.native.font_style = font_style;
        self
    }

    pub fn font_size(&self) -> (r: Scalar)
        ensures
            r == self@.font_size,
    {
        self.native.font_size
    }

    pub fn set_font_size(&mut self, font_size: Scalar) -> (r: &mut Self)
        ensures
            r@ == (StrutStyleModel { font_size, ..old(self)@ }),
            final(self)@ == final(r)@,
    {
        self.native.font_size = font_size;
        self
    }

    pub fn set_height(&mut self, height: Scalar) -> (r: &mut Self)
        ensures
            r@ == (StrutStyleModel { height, ..old(self)@ }),
            final(self)@ == final(r)@,
    {
        self.native.height = height;
        self
    }

    pub fn height(&self) -> (r: Scalar)
        ensures
            r == self@.height,
    {
        self.native.height
    }

    pub fn set_leading(&mut self, leading: Scalar) -> (r: &mut Self)
        ensures
            r@ == (StrutStyleModel { leading, ..old(self)@ }),
            final(self)@ == final(r)@,
    {
        self.native.leading = leading;
        self
    }

    pub fn leading(&self) -> (r: Scalar)
        ensures
            r == self@.leading,
    {
        self.native.leading
    }

    pub fn strut_enabled(&self) -> (r: bool)
        ensures
            r == self@.enabled,
    {
        self.native.enabled
    }

    pub fn set_strut_enabled(&mut self, enabled: bool) -> (r: &mut Self)
        ensures
            r@ == (StrutStyleModel { enabled, ..old(self)@ }),
            final(self)@ == final(r)@,
    {
        self.native.enabled = enabled;
        self
    }

    pub fn force_strut_height(&self) -> (r: bool)
        ensures
            r == self@.force_height,
    {
        self.native.force_height
    }

    pub fn set_force_strut_height(&mut self, force_height: bool) -> (r: &mut Self)
        ensures
            r@ == (StrutStyleModel { force_height, ..old(self)@ }),
            final(self)@ == final(r)@,
    {
        self.native.force_height = force_height;
        self
    }
}

impl Default for Handle<SkStrutStyle> {
    fn default() -> (r: Self)
        ensures
            r@ == StrutStyle::spec_new_model(),
    {
        StrutStyle::new()
    }
}

/// What a paragraph style holds.
pub struct ParagraphStyleModel {
    pub strut_style: StrutStyleModel,
    pub text_style: TextStyle,
    pub text_direction: TextDirection,
    pub text_align: TextAlign,
    /// The most lines laid out; `usize::MAX` for no limit.
    pub lines_limit: usize,
    pub ellipsis: Seq<char>,
    pub height: Scalar,
    pub hinting_is_on: bool,
}

/// How a paragraph is laid out.
pub type ParagraphStyle = Handle<SkParagraphStyle>;

/// The native paragraph style.
#[derive(Clone)]
pub struct SkParagraphStyle {
    strut_style: StrutStyle,
    text_style: TextStyle,
    text_direction: TextDirection,
    text_align: TextAlign,
    lines_limit: usize,
    ellipsis: String,
    height: Scalar,
    hinting_is_on: bool,
}

impl View for SkParagraphStyle {
    type V = ParagraphStyleModel;

    closed spec fn view(&self) -> ParagraphStyleModel {
        ParagraphStyleModel {
            strut_style: self.strut_style@,
            text_style: self.text_style,
            text_direction: self.text_direction,
            text_align: self.text_align,
            lines_limit: self.lines_limit,
            ellipsis: self.ellipsis@,
            height: self.height,
            hinting_is_on: self.hinting_is_on,
        }
    }
}

/// The alignment that `align` comes to for text running in `dir`: start and
/// end are the left and right sides, in that order for left-to-right text.
pub open spec fn spec_effective_align(align: TextAlign, dir: TextDirection) -> TextAlign {
    match align {
        TextAlign::Start => if dir == TextDirection::Ltr { TextAlign::Left } else { TextAlign::Right },
        TextAlign::End => if dir == TextDirection::Ltr { TextAlign::Right } else { TextAlign::Left },
        _ => align,
    }
}

impl ParagraphStyleModel {
    pub open spec fn spec_max_lines(self) -> Option<usize> {
        if self.lines_limit == usize::MAX {
            None
        } else {
            Some(self.lines_limit)
        }
    }
}

impl Handle<SkParagraphStyle> {
    pub open spec fn spec_new_model() -> ParagraphStyleModel {
        ParagraphStyleModel {
            strut_style: StrutStyle::spec_new_model(),
            text_style: TextStyle::spec_new(),
            text_direction: TextDirection::Ltr,
            text_align: TextAlign::Start,
            lines_limit: usize::MAX,
            ellipsis: Seq::empty(),
            height: SCALAR_ONE,
            hinting_is_on: true,
        }
    }

    /// Left-to-right text aligned at its start, without a line limit or an
    /// ellipsis, with hinting on.
    pub fn new() -> (r: Self)
        ensures
            r@ == ParagraphStyle::spec_new_model(),
    {
        Handle {
            native: SkParagraphStyle {
            strut_style: StrutStyle::new(),
            text_style: TextStyle::new(),
            text_direction: TextDirection::Ltr,
            text_align: TextAlign::Start,
            lines_limit: usize::MAX,
            ellipsis: String::new(),
            height: SCALAR_ONE,
            hinting_is_on: true,
            },
        }
    }

    pub fn strut_style(&self) -> (r: &StrutStyle)
        ensures
            r@ == self@.strut_style,
    {
        &self.native.strut_style
    }

    pub fn set_strut_style(&mut self, strut_style: StrutStyle) -> (r: &mut Self)
        ensures
            r@ == (ParagraphStyleModel { strut_style: strut_style@, ..old(self)@ }),
            final(self)@ == final(r)@,
    {
        self.native.strut_style = strut_style;
        self
    }

    pub fn text_style(&self) -> (r: &TextStyle)
        ensures
            *r == self@.text_style,
    {
        &self.native.text_style
    }

    pub fn set_text_style(&mut self, text_style: &TextStyle) -> (r: &mut Self)
        ensures
            r@ == (ParagraphStyleModel { text_style: *text_style, ..old(self)@ }),
            final(self)@ == final(r)@,
    {
        self.native.text_style = *text_style;
        self
    }

    pub fn text_direction(&self) -> (r: TextDirection)
        ensures
            r == self@.text_direction,
    {
        self.native.text_direction
    }

    pub fn set_text_direction(&mut self, direction: TextDirection) -> (r: &mut Self)
        ensures
            r@ == (ParagraphStyleModel { text_direction: direction, ..old(self)@ }),
            final(self)@ == final(r)@,
    {
        self.native.text_direction = direction;
        self
    }

    pub fn text_align(&self) -> (r: TextAlign)
        ensures
            r == self@.text_align,
    {
        self.native.text_align
    }

    pub fn set_text_align(&mut self, align: TextAlign) -> (r: &mut Self)
        ensures
            r@ == (ParagraphStyleModel { text_align: align, ..old(self)@ }),
            final(self)@ == final(r)@,
    {
        self.native.text_align = align;
        self
    }

    /// The line limit; none where there is none.
    pub fn max_lines(&self) -> (r: Option<usize>)
        ensures
            r == self@.spec_max_lines(),
    {
        if self.native.lines_limit == usize::MAX {
            None
        } else {
            Some(self.native.lines_limit)
        }
    }

    /// Sets the line limit; none, or `usize::MAX`, lifts it.
    pub fn set_max_lines(&mut self, lines: Option<usize>) -> (r: &mut Self)
        ensures
            r@ == (ParagraphStyleModel {
                lines_limit: match lines {
                    Some(l) => l,
                    None => usize::MAX,
                },
                ..old(self)@
            }),
            final(self)@ == final(r)@,
    {
        self.native.lines_limit = match lines {
            Some(l) => l,
            None => usize::MAX,
        };
        self
    }

    pub fn ellipsis(&self) -> (r: &str)
        ensures
            r@ == self@.ellipsis,
    {
        self.native.ellipsis.as_str()
    }

    pub fn set_ellipsis(&mut self, ellipsis: &str) -> (r: &mut Self)
        ensures
            r@ == (ParagraphStyleModel { ellipsis: ellipsis@, ..old(self)@ }),
            final(self)@ == final(r)@,
    {
        self.native.ellipsis = ellipsis.to_owned();
        self
    }

    pub fn height(&self) -> (r: Scalar)
        ensures
            r == self@.height,
    {
        self.native.height
    }

    pub fn set_height(&mut self, height: Scalar) -> (r: &mut Self)
        ensures
            r@ == (ParagraphStyleModel { height, ..old(self)@ }),
            final(self)@ == final(r)@,
    {
        self.native.height = height;
        self
    }

    pub fn unlimited_lines(&self) -> (r: bool)
        ensures
            r == self@.spec_max_lines().is_none(),
    {
        self.max_lines().is_none()
    }

    pub fn ellipsized(&self) -> (r: bool)
        ensures
            r == (self@.ellipsis.len() > 0),
    {
        !self.native.ellipsis.as_str().is_empty()
    }

    /// The alignment that lines get, once start and end are resolved by the
    /// text direction.
    pub fn effective_align(&self) -> (r: TextAlign)
        ensures
            r == spec_effective_align(self@.text_align, self@.text_direction),
    {
        match self.native.text_align {
            TextAlign::Start => if self.native.text_direction == TextDirection::Ltr {
                TextAlign::Left
            } else {
                TextAlign::Right
            },
            TextAlign::End => if self.native.text_direction == TextDirection::Ltr {
                TextAlign::Right
            } else {
                TextAlign::Left
            },
            a => a,
        }
    }

    pub fn hinting_is_on(&self) -> (r: bool)
        ensures
            r == self@.hinting_is_on,
    {
        self.native.hinting_is_on
    }

    pub fn turn_hinting_off(&mut self) -> (r: &mut Self)
        ensures
            r@ == (ParagraphStyleModel { hinting_is_on: false, ..old(self)@ }),
            final(self)@ == final(r)@,
    {
        self.native.hinting_is_on = false;
        self
    }
}

impl Default for Handle<SkParagraphStyle> {
    fn default() -> (r: Self)
        ensures
            r@ == ParagraphStyle::spec_new_model(),
    {
        ParagraphStyle::new()
    }
}

/// Whether the two lists hold the same strings, in the same order.
fn same_strings(a: &[String], b: &[String]) -> (r: bool)
    ensures
        r == (texts(a@) == texts(b@)),
{
    if a.len() != b.len() {
        assert(texts(a@).len() != texts(b@).len());
        return false;
    }
    let mut i: usize = 0;
    while i < a.len()
        invariant
            i <= a@.len(),
            a@.len() == b@.len(),
            forall|j: int| 0 <= j < i ==> #[trigger] a@[j]@ == b@[j]@,
        decreases a@.len() - i,
    {
        if a[i] != b[i] {
            assert(texts(a@)[i as int] != texts(b@)[i as int]);
            return false;
        }
        i = i + 1;
    }
    assert(texts(a@) =~= texts(b@));
    true
}

impl PartialEq for Handle<SkStrutStyle> {
    /// Equal where every field is equal.
    fn eq(&self, o: &Self) -> (r: bool) {
        let a = &self.native;
        let b = &o.native;
        let r = same_strings(a.font_families.as_slice(), b.font_families.as_slice())
            && a.font_style == b.font_style && a.font_size == b.font_size && a.height == b.height
            && a.leading == b.leading && a.enabled == b.enabled && a.force_height == b.force_height;
        assert(r == (self@ == o@));
        r
    }
}

impl vstd::std_specs::cmp::PartialEqSpecImpl for Handle<SkStrutStyle> {
    open spec fn obeys_eq_spec() -> bool {
        true
    }

    open spec fn eq_spec(&self, o: &Self) -> bool {
        self@ == o@
    }
}

impl PartialEq for Handle<SkParagraphStyle> {
    /// Equal where every field is equal.
    fn eq(&self, o: &Self) -> (r: bool) {
        let a = &self.native;
        let b = &o.native;
        let r = a.strut_style == b.strut_style && a.text_style == b.text_style
            && a.text_direction == b.text_direction && a.text_align == b.text_align
            && a.lines_limit == b.lines_limit && a.ellipsis == b.ellipsis && a.height == b.height
            && a.hinting_is_on == b.hinting_is_on;
        assert(r == (self@ == o@));
        r
    }
}

impl vstd::std_specs::cmp::PartialEqSpecImpl for Handle<SkParagraphStyle> {
    open spec fn obeys_eq_spec() -> bool {
        true
    }

    open spec fn eq_spec(&self, o: &Self) -> bool {
        self@ == o@
    }
}

} // verus!
