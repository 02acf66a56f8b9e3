//! The binary form of a mesh: a sequence of 32-bit little-endian words.
//!
//! Four header words hold the mode's tag, the vertex count, the index count
//! and the flags (1: texture coordinates follow, 2: colors follow). Then come
//! the positions (x, y per vertex), the texture coordinates (likewise), the
//! colors (one word each) and the indices (one word each, below 2^16).
use vstd::prelude::*;
use crate::geometry::{lemma_bounds_unique, Color, Point};
use crate::handle::RCHandle;
use crate::vertices::{SkVertices, Vertices, VerticesModel, VertexMode, MAX_COUNT};

verus! {

/// The four bytes of a word, least significant first.
pub open spec fn word_bytes(w: u32) -> Seq<u8> {
    seq![(w & 0xff) as u8, ((w >> 8) & 0xff) as u8, ((w >> 16) & 0xff) as u8, ((w >> 24) & 0xff) as u8]
}

/// The word of four bytes, least significant first.
pub open spec fn word_of(b0: u8, b1: u8, b2: u8, b3: u8) -> u32 {
    (b0 as u32) | ((b1 as u32) << 8) | ((b2 as u32) << 16) | ((b3 as u32) << 24)
}

/// The bytes of a sequence of words.
pub open spec fn le_bytes(ws: Seq<u32>) -> Seq<u8>
    decreases ws.len(),
{
    if ws.len() == 0 {
        Seq::empty()
    } else {
        le_bytes(ws.drop_last()) + word_bytes(ws.last())
    }
}

/// The words that a byte sequence, a whole number of words long, spells.
pub open spec fn words_of(b: Seq<u8>) -> Seq<u32>
    decreases b.len(),
{
    if b.len() < 4 {
        Seq::empty()
    } else {
        let n = b.len() - 4;
        words_of(b.subrange(0, n)).push(word_of(b[n], b[n + 1], b[n + 2], b[n + 3]))
    }
}

proof fn lemma_word_round_trip(w: u32)
    ensures
        word_of(word_bytes(w)[0], word_bytes(w)[1], word_bytes(w)[2], word_bytes(w)[3]) == w,
{
    let b0 = (w & 0xff) as u8;
    let b1 = ((w >> 8) & 0xff) as u8;
    let b2 = ((w >> 16) & 0xff) as u8;
    let b3 = ((w >> 24) & 0xff) as u8;
    assert((b0 as u32) | ((b1 as u32) << 8) | ((b2 as u32) << 16) | ((b3 as u32) << 24) == w)
        by (bit_vector)
        requires
            b0 == (w & 0xff) as u8,
            b1 == ((w >> 8) & 0xff) as u8,
            b2 == ((w >> 16) & 0xff) as u8,
            b3 == ((w >> 24) & 0xff) as u8,
    ;
}

proof fn lemma_le_bytes_len(ws: Seq<u32>)
    ensures
        le_bytes(ws).len() == 4 * ws.len(),
    decreases ws.len(),
{
    if ws.len() > 0 {
        lemma_le_bytes_len(ws.drop_last());
    }
}

/// Words turned into bytes read back as the same words.
pub proof fn lemma_words_of_le_bytes(ws: Seq<u32>)
    ensures
        words_of(le_bytes(ws)) == ws,
        le_bytes(ws).len() == 4 * ws.len(),
    decreases ws.len(),
{
    lemma_le_bytes_len(ws);
    if ws.len() > 0 {
        let b = le_bytes(ws);
        let pre = le_bytes(ws.drop_last());
        lemma_words_of_le_bytes(ws.drop_last());
        let n = b.len() - 4;
        assert(b.subrange(0, n) =~= pre);
        lemma_word_round_trip(ws.last());
        assert(words_of(b) =~= ws);
    }
}

/// The words of a sequence of points: x, then y, for each.
pub open spec fn point_words(p: Seq<Point>) -> Seq<u32> {
    Seq::new(2 * p.len(), |k: int| if k % 2 == 0 { p[k / 2].x } else { p[k / 2].y })
}

/// The words of a sequence of colors.
pub open spec fn color_words(c: Seq<Color>) -> Seq<u32> {
    Seq::new(c.len(), |k: int| c[k].0)
}

/// The words of a sequence of indices.
pub open spec fn index_words(i: Seq<u16>) -> Seq<u32> {
    Seq::new(i.len(), |k: int| i[k] as u32)
}

pub open spec fn opt_point_words(p: Option<Seq<Point>>) -> Seq<u32> {
    match p {
        Some(p) => point_words(p),
        None => Seq::empty(),
    }
}

pub open spec fn opt_color_words(c: Option<Seq<Color>>) -> Seq<u32> {
    match c {
        Some(c) => color_words(c),
        None => Seq::empty(),
    }
}

pub open spec fn opt_index_words(i: Option<Seq<u16>>) -> Seq<u32> {
    match i {
        Some(i) => index_words(i),
        None => Seq::empty(),
    }
}

/// The flags word of a mesh.
pub open spec fn flags_word(m: VerticesModel) -> u32 {
    ((if m.texs.is_some() { 1int } else { 0 }) + (if m.colors.is_some() { 2int } else { 0 })) as u32
}

/// The words a mesh is encoded as.
pub open spec fn encode_words(m: VerticesModel) -> Seq<u32> {
    seq![m.mode.spec_tag(), m.positions.len() as u32, m.spec_index_count() as u32, flags_word(m)]
        + point_words(m.positions) + opt_point_words(m.texs) + opt_color_words(m.colors)
        + opt_index_words(m.indices)
}

/// The bytes a mesh is encoded as.
pub open spec fn encode_bytes(m: VerticesModel) -> Seq<u8> {
    le_bytes(encode_words(m))
}

/// Where the texture coordinates start, by the header.
pub open spec fn tex_offset(w: Seq<u32>) -> int {
    4 + 2 * w[1]
}

/// Where the colors start, by the header.
pub open spec fn color_offset(w: Seq<u32>) -> int {
    tex_offset(w) + if w[3] % 2 == 1 { 2 * w[1] } else { 0 }
}

/// Where the indices start, by the header.
pub open spec fn index_offset(w: Seq<u32>) -> int {
    color_offset(w) + if w[3] >= 2 { w[1] as int } else { 0 }
}

/// The words are a well-formed encoding: a header with a known mode, counts
/// the engine takes and known flags, as many words as it announces, and
/// indices that fit 16 bits.
pub open spec fn words_ok(w: Seq<u32>) -> bool {
    &&& w.len() >= 4
    &&& w[0] <= 2
    &&& w[1] <= MAX_COUNT
    &&& w[2] <= MAX_COUNT
    &&& w[3] <= 3
    &&& w.len() == index_offset(w) + w[2]
    &&& forall|k: int| index_offset(w) <= k < w.len() ==> #[trigger] w[k] <= 0xffff
}

/// The points stored from `off` on, two words each.
pub open spec fn points_at(w: Seq<u32>, off: int, n: nat) -> Seq<Point> {
    Seq::new(n, |i: int| Point { x: w[off + 2 * i], y: w[off + 2 * i + 1] })
}

/// `m` is the mesh that the well-formed words `w` hold.
pub open spec fn parsed(w: Seq<u32>, m: VerticesModel) -> bool {
    let v = w[1] as nat;
    &&& m.mode.spec_tag() == w[0]
    &&& m.positions == points_at(w, 4, v)
    &&& m.texs == if w[3] % 2 == 1 {
        Some(points_at(w, tex_offset(w), v))
    } else {
        None
    }
    &&& m.colors == if w[3] >= 2 {
        Some(Seq::new(v, |i: int| Color(w[color_offset(w) + i])))
    } else {
        None
    }
    &&& m.indices == if w[2] == 0 {
        None
    } else {
        Some(Seq::new(w[2] as nat, |i: int| w[index_offset(w) + i] as u16))
    }
}

proof fn lemma_points_at(p: Seq<Point>, w: Seq<u32>, off: int)
    requires
        0 <= off,
        off + 2 * p.len() <= w.len(),
        forall|k: int| 0 <= k < 2 * p.len() ==> #[trigger] w[off + k] == point_words(p)[k],
    ensures
        points_at(w, off, p.len()) == p,
{
    assert forall|i: int| 0 <= i < p.len() implies #[trigger] points_at(w, off, p.len())[i] == p[i] by {
        assert(w[off + 2 * i] == point_words(p)[2 * i]);
        assert(w[off + (2 * i + 1)] == point_words(p)[2 * i + 1]);
        assert((2 * i) / 2 == i && (2 * i) % 2 == 0);
        assert((2 * i + 1) / 2 == i && (2 * i + 1) % 2 == 1);
    }
    assert(points_at(w, off, p.len()) =~= p);
}

proof fn lemma_encode_header(m: VerticesModel)
    requires
        m.wf(),
    ensures
        ({
            let w = encode_words(m);
            let v = m.positions.len();
            &&& w[0] == m.mode.spec_tag()
            &&& w[1] == v
            &&& w[2] == m.spec_index_count()
            &&& w[3] == flags_word(m)
            &&& tex_offset(w) == 4 + point_words(m.positions).len()
            &&& color_offset(w) == tex_offset(w) + opt_point_words(m.texs).len()
            &&& index_offset(w) == color_offset(w) + opt_color_words(m.colors).len()
            &&& w.len() == index_offset(w) + opt_index_words(m.indices).len()
            &&& w.len() == index_offset(w) + w[2]
        }),
{
    let w = encode_words(m);
    let v = m.positions.len();
    let h = seq![m.mode.spec_tag(), v as u32, m.spec_index_count() as u32, flags_word(m)];
    let a = h + point_words(m.positions);
    let b = a + opt_point_words(m.texs);
    let c = b + opt_color_words(m.colors);
    assert(w == c + opt_index_words(m.indices));
    assert(w[0] == c[0] && c[0] == b[0] && b[0] == a[0] && a[0] == h[0]);
    assert(w[1] == c[1] && c[1] == b[1] && b[1] == a[1] && a[1] == h[1]);
    assert(w[2] == c[2] && c[2] == b[2] && b[2] == a[2] && a[2] == h[2]);
    assert(w[3] == c[3] && c[3] == b[3] && b[3] == a[3] && a[3] == h[3]);
}

proof fn lemma_encode_body(m: VerticesModel)
    requires
        m.wf(),
    ensures
        ({
            let w = encode_words(m);
            let v = m.positions.len();
            &&& forall|k: int| 0 <= k < 2 * v ==> #[trigger] w[4 + k] == point_words(m.positions)[k]
            &&& m.texs matches Some(t) ==> forall|k: int|
                0 <= k < 2 * v ==> #[trigger] w[tex_offset(w) + k] == point_words(t)[k]
            &&& m.colors matches Some(col) ==> forall|i: int|
                0 <= i < v ==> #[trigger] w[color_offset(w) + i] == col[i].0
            &&& m.indices matches Some(ix) ==> forall|i: int|
                0 <= i < ix.len() ==> #[trigger] w[index_offset(w) + i] == ix[i] as u32
        }),
{
    lemma_encode_header(m);
    let w = encode_words(m);
    let v = m.positions.len();
    let h = seq![m.mode.spec_tag(), v as u32, m.spec_index_count() as u32, flags_word(m)];
    let a = h + point_words(m.positions);
    let b = a + opt_point_words(m.texs);
    let c = b + opt_color_words(m.colors);
    assert(w == c + opt_index_words(m.indices));
    assert forall|k: int| 0 <= k < 2 * v implies #[trigger] w[4 + k] == point_words(m.positions)[k] by {
        assert(w[4 + k] == c[4 + k]);
        assert(c[4 + k] == b[4 + k]);
        assert(b[4 + k] == a[4 + k]);
    }
    if let Some(t) = m.texs {
        assert forall|k: int| 0 <= k < 2 * v implies #[trigger] w[tex_offset(w) + k] == point_words(t)[k] by {
            assert(w[a.len() + k] == c[a.len() + k]);
            assert(c[a.len() + k] == b[a.len() + k]);
        }
    }
    if let Some(col) = m.colors {
        assert forall|i: int| 0 <= i < v implies #[trigger] w[color_offset(w) + i] == col[i].0 by {
            assert(w[b.len() + i] == c[b.len() + i]);
        }
    }
}

proof fn lemma_encode_ok(m: VerticesModel)
    requires
        m.wf(),
    ensures
        words_ok(encode_words(m)),
{
    let w = encode_words(m);
    lemma_encode_header(m);
    lemma_encode_body(m);
    if let Some(ix) = m.indices {
        assert forall|k: int| index_offset(w) <= k < w.len() implies #[trigger] w[k] <= 0xffff by {
            assert(w[index_offset(w) + (k - index_offset(w))] == ix[k - index_offset(w)] as u32);
        }
    }
}

proof fn lemma_encode_parsed(m: VerticesModel, d: VerticesModel)
    requires
        m.wf(),
        d.wf(),
        parsed(encode_words(m), d),
    ensures
        d.same_content(m),
{
    let w = encode_words(m);
    let v = m.positions.len();
    lemma_encode_header(m);
    lemma_encode_body(m);
    lemma_points_at(m.positions, w, 4);
    if let Some(t) = m.texs {
        lemma_points_at(t, w, tex_offset(w));
    }
    if let Some(col) = m.colors {
        assert(Seq::new(v, |i: int| Color(w[color_offset(w) + i])) =~= col);
    }
    if let Some(ix) = m.indices {
        assert(Seq::new(ix.len(), |i: int| w[index_offset(w) + i] as u16) =~= ix);
    }
    lemma_bounds_unique(m.positions, d.bounds, m.bounds);
}

/// What a mesh is encoded as, decoded: the bytes are whole words, the words
/// are well formed, and every well-formed mesh they hold has the content of
/// the mesh that was encoded.
pub proof fn lemma_decode_encode(m: VerticesModel)
    requires
        m.wf(),
    ensures
        encode_bytes(m).len() % 4 == 0,
        words_of(encode_bytes(m)) == encode_words(m),
        words_ok(encode_words(m)),
        forall|d: VerticesModel|
            d.wf() && #[trigger] parsed(encode_words(m), d) ==> d.same_content(m),
{
    lemma_words_of_le_bytes(encode_words(m));
    lemma_encode_ok(m);
    assert forall|d: VerticesModel| d.wf() && #[trigger] parsed(encode_words(m), d) implies d.same_content(m) by {
        lemma_encode_parsed(m, d);
    }
}

/// Appends the words of the points.
fn push_points(r: &mut Vec<u32>, p: &[Point])
    ensures
        final(r)@ == old(r)@ + point_words(p@),
{
    let ghost start = r@;
    let mut i: usize = 0;
    while i < p.len()
        invariant
            i <= p@.len(),
            r@ == start + point_words(p@.take(i as int)),
        decreases p@.len() - i,
    {
        let q = p[i];
        r.push(q.x);
        r.push(q.y);
        let ghost before = point_words(p@.take(i as int));
        let ghost after = point_words(p@.take(i + 1));
        assert forall|k: int| 0 <= k < after.len() implies #[trigger] after[k] == before.push(q.x).push(q.y)[k] by {
            if k < 2 * i {
                assert(k / 2 < i);
            } else {
                assert(k / 2 == i);
            }
        }
        assert(after =~= before.push(q.x).push(q.y));
        i = i + 1;
    }
    assert(p@.take(p@.len() as int) == p@);
}

/// Appends the words of the colors.
fn push_colors(r: &mut Vec<u32>, c: &[Color])
    ensures
        final(r)@ == old(r)@ + color_words(c@),
{
    let ghost start = r@;
    let mut i: usize = 0;
    while i < c.len()
        invariant
            i <= c@.len(),
            r@ == start + color_words(c@.take(i as int)),
        decreases c@.len() - i,
    {
        r.push(c[i].0);
        i = i + 1;
        assert(color_words(c@.take(i as int)) =~= color_words(c@.take(i - 1)).push(c@[i - 1].0));
    }
    assert(c@.take(c@.len() as int) == c@);
}

/// Appends the words of the indices.
fn push_indices(r: &mut Vec<u32>, ix: &[u16])
    ensures
        final(r)@ == old(r)@ + index_words(ix@),
{
    let ghost start = r@;
    let mut i: usize = 0;
    while i < ix.len()
        invariant
            i <= ix@.len(),
            r@ == start + index_words(ix@.take(i as int)),
        decreases ix@.len() - i,
    {
        r.push(ix[i] as u32);
        i = i + 1;
        assert(index_words(ix@.take(i as int)) =~= index_words(ix@.take(i - 1)).push(ix@[i - 1] as u32));
    }
    assert(ix@.take(ix@.len() as int) == ix@);
}

/// The bytes of the words, least significant first.
fn to_le_bytes(ws: &[u32]) -> (r: Vec<u8>)
    ensures
        r@ == le_bytes(ws@),
{
    let mut r: Vec<u8> = Vec::new();
    let mut i: usize = 0;
    while i < ws.len()
        invariant
            i <= ws@.len(),
            r@ == le_bytes(ws@.take(i as int)),
        decreases ws@.len() - i,
    {
        let w = ws[i];
        r.push((w & 0xff) as u8);
        r.push(((w >> 8) & 0xff) as u8);
        r.push(((w >> 16) & 0xff) as u8);
        r.push(((w >> 24) & 0xff) as u8);
        assert(ws@.take(i + 1).drop_last() =~= ws@.take(i as int));
        assert(r@ =~= le_bytes(ws@.take(i as int)) + word_bytes(w));
        i = i + 1;
    }
    assert(ws@.take(ws@.len() as int) == ws@);
    r
}

/// The words that the bytes spell.
fn words_from_bytes(b: &[u8]) -> (r: Vec<u32>)
    requires
        b@.len() % 4 == 0,
    ensures
        r@ == words_of(b@),
{
    let mut r: Vec<u32> = Vec::new();
    let mut i: usize = 0;
    while i < b.len()
        invariant
            i <= b@.len(),
            i % 4 == 0,
            b@.len() % 4 == 0,
            r@ == words_of(b@.take(i as int)),
        decreases b@.len() - i,
    {
        let w = (b[i] as u32) | ((b[i + 1] as u32) << 8) | ((b[i + 2] as u32) << 16) | ((b[i + 3] as u32) << 24);
        r.push(w);
        assert(b@.take(i + 4).subrange(0, i as int) =~= b@.take(i as int));
        i = i + 4;
    }
    assert(b@.take(b@.len() as int) == b@);
    r
}

/// The `n` points stored from `off` on.
fn read_points(w: &[u32], off: usize, n: usize) -> (r: Vec<Point>)
    requires
        off + 2 * n <= w@.len(),
    ensures
        r@ == points_at(w@, off as int, n as nat),
{
    let mut r: Vec<Point> = Vec::new();
    let wl = w.len();
    let mut i: usize = 0;
    while i < n
        invariant
            i <= n,
            wl == w@.len(),
            off + 2 * n <= w@.len(),
            r@ == points_at(w@, off as int, i as nat),
        decreases n - i,
    {
        r.push(Point { x: w[off + 2 * i], y: w[off + 2 * i + 1] });
        i = i + 1;
        assert(r@ =~= points_at(w@, off as int, i as nat));
    }
    r
}

/// The `n` colors stored from `off` on.
fn read_colors(w: &[u32], off: usize, n: usize) -> (r: Vec<Color>)
    requires
        off + n <= w@.len(),
    ensures
        r@ == Seq::new(n as nat, |i: int| Color(w@[off + i])),
{
    let mut r: Vec<Color> = Vec::new();
    let wl = w.len();
    let mut i: usize = 0;
    while i < n
        invariant
            i <= n,
            wl == w@.len(),
            off + n <= w@.len(),
            r@ == Seq::new(i as nat, |k: int| Color(w@[off + k])),
        decreases n - i,
    {
        r.push(Color(w[off + i]));
        i = i + 1;
        assert(r@ =~= Seq::new(i as nat, |k: int| Color(w@[off + k])));
    }
    r
}

/// The `n` indices stored from `off` on.
fn read_indices(w: &[u32], off: usize, n: usize) -> (r: Vec<u16>)
    requires
        off + n <= w@.len(),
    ensures
        r@ == Seq::new(n as nat, |i: int| w@[off + i] as u16),
{
    let mut r: Vec<u16> = Vec::new();
    let wl = w.len();
    let mut i: usize = 0;
    while i < n
        invariant
            i <= n,
            wl == w@.len(),
            off + n <= w@.len(),
            r@ == Seq::new(i as nat, |k: int| w@[off + k] as u16),
        decreases n - i,
    {
        r.push(w[off + i] as u16);
        i = i + 1;
        assert(r@ =~= Seq::new(i as nat, |k: int| w@[off + k] as u16));
    }
    r
}

impl RCHandle<SkVertices> {
    /// The bytes of the mesh, which `decode` reads back.
    pub fn encode(&self) -> (r: Vec<u8>)
        requires
            self@.wf(),
        ensures
            r@ == encode_bytes(self@),
    {
        let mut w: Vec<u32> = Vec::new();
        let flags: u32 = (if self.has_tex_coords() { 1u32 } else { 0u32 }) + (if self.has_colors() {
            2u32
        } else {
            0u32
        });
        w.push(self.mode().tag());
        w.push(self.vertex_count() as u32);
        w.push(self.index_count() as u32);
        w.push(flags);
        assert(w@ =~= seq![self@.mode.spec_tag(), self@.positions.len() as u32, self@.spec_index_count() as u32, flags_word(self@)]);
        push_points(&mut w, self.positions());
        match self.tex_coords() {
            Some(t) => push_points(&mut w, t),
            None => {},
        }
        match self.colors() {
            Some(c) => push_colors(&mut w, c),
            None => {},
        }
        match self.indices() {
            Some(ix) => push_indices(&mut w, ix),
            None => {},
        }
        assert(w@ =~= encode_words(self@));
        to_le_bytes(w.as_slice())
    }

    /// The mesh that `buffer` encodes, under the identifier `unique_id` that
    /// the engine hands to each new mesh; none where the bytes are not a
    /// well-formed encoding.
    pub fn decode(buffer: &[u8], unique_id: u32) -> (r: Option<Vertices>)
        ensures
            r.is_some() == (buffer@.len() % 4 == 0 && words_ok(words_of(buffer@))),
            r matches Some(v) ==> {
                &&& v@.wf()
                &&& v@.unique_id == unique_id
                &&& parsed(words_of(buffer@), v@)
            },
    {
        if buffer.len() % 4 != 0 {
            return None;
        }
        let w = words_from_bytes(buffer);
        if w.len() < 4 {
            return None;
        }
        let mode = match VertexMode::from_tag(w[0]) {
            Some(m) => m,
            None => return None,
        };
        let v = w[1] as usize;
        let ic = w[2] as usize;
        let f = w[3];
        if v > MAX_COUNT || ic > MAX_COUNT || f > 3 {
            return None;
        }
        let v64 = v as u64;
        let tex64: u64 = 4 + 2 * v64;
        let col64: u64 = if f % 2 == 1 { tex64 + 2 * v64 } else { tex64 };
        let idx64: u64 = if f >= 2 { col64 + v64 } else { col64 };
        if w.len() as u64 != idx64 + ic as u64 {
            return None;
        }
        let tex_off = tex64 as usize;
        let col_off = col64 as usize;
        let idx_off = idx64 as usize;
        assert(tex_off == tex_offset(w@) && col_off == color_offset(w@) && idx_off == index_offset(w@));
        let mut k: usize = idx_off;
        while k < w.len()
            invariant
                idx_off <= k <= w@.len(),
                w@ == words_of(buffer@),
                w@.len() >= 4,
                idx_off == index_offset(w@),
                forall|j: int| idx_off <= j < k ==> #[trigger] w@[j] <= 0xffff,
            decreases w@.len() - k,
        {
            if w[k] > 0xffff {
                return None;
            }
            k = k + 1;
        }
        let positions = read_points(w.as_slice(), 4, v);
        let texs = if f % 2 == 1 { Some(read_points(w.as_slice(), tex_off, v)) } else { None };
        let colors = if f >= 2 { Some(read_colors(w.as_slice(), col_off, v)) } else { None };
        let indices = if ic == 0 { None } else { Some(read_indices(w.as_slice(), idx_off, ic)) };
        let r = Vertices::from_parts(unique_id, mode, positions, texs, colors, indices);
        assert(parsed(w@, r@));
        Some(r)
    }
}

} // verus!
