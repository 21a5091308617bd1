use vstd::prelude::*;

verus! {

/// What a line of a Wavefront OBJ file declares, by its first two bytes.
#[derive(Debug, Clone, Copy, PartialEq, Eq, Structural)]
pub enum ObjLineKind {
    /// `o `: the name of an object.
    Object,
    /// `v `: a vertex position.
    Vertex,
    /// `vt`: a texture coordinate.
    TextureCoord,
    /// `vn`: a normal.
    Normal,
    /// `f `: a triangle, as three face vertices.
    Face,
    /// Anything else, a comment or a blank line among them.
    Other,
}

/// One corner of a face: zero-based indices of its position, its texture
/// coordinate (none where the file leaves it out, as in `7//1`) and its normal.
#[derive(Debug, Clone, Copy, PartialEq, Eq, Structural)]
pub struct FaceVertex {
    pub vertex: usize,
    pub texture: Option<usize>,
    pub normal: usize,
}

pub open spec fn spec_line_kind(line: Seq<u8>) -> ObjLineKind {
    if line.len() < 2 {
        ObjLineKind::Other
    } else if line[0] == 111u8 && line[1] == 32u8 {
        ObjLineKind::Object
    } else if line[0] == 118u8 && line[1] == 32u8 {
        ObjLineKind::Vertex
    } else if line[0] == 118u8 && line[1] == 116u8 {
        ObjLineKind::TextureCoord
    } else if line[0] == 118u8 && line[1] == 110u8 {
        ObjLineKind::Normal
    } else if line[0] == 102u8 && line[1] == 32u8 {
        ObjLineKind::Face
    } else {
        ObjLineKind::Other
    }
}

pub open spec fn is_digit(b: u8) -> bool {
    48 <= b <= 57
}

/// The number that a string of decimal digits writes.
pub open spec fn digits_value(s: Seq<u8>) -> nat
    decreases s.len(),
{
    if s.len() == 0 {
        0
    } else {
        digits_value(s.drop_last()) * 10 + (s.last() - 48) as nat
    }
}

/// The text after a leading `+`, if there is one.
pub open spec fn strip_plus(s: Seq<u8>) -> Seq<u8> {
    if s.len() > 0 && s[0] == 43u8 {
        s.drop_first()
    } else {
        s
    }
}

pub open spec fn all_digits(d: Seq<u8>) -> bool {
    forall|i: int| 0 <= i < d.len() ==> is_digit(#[trigger] d[i])
}

/// The digits of an unsigned decimal number, after an optional `+`; none
/// where the text is not such a number.
pub open spec fn unsigned_digits(s: Seq<u8>) -> Option<Seq<u8>> {
    if strip_plus(s).len() > 0 && all_digits(strip_plus(s)) {
        Some(strip_plus(s))
    } else {
        None
    }
}

/// A one-based OBJ index turned zero-based: the text must be a number that
/// fits in a `usize`, and not zero.
pub open spec fn spec_parse_index(s: Seq<u8>) -> Option<usize> {
    match unsigned_digits(s) {
        Some(d) => if 1 <= digits_value(d) <= usize::MAX {
            Some((digits_value(d) - 1) as usize)
        } else {
            None
        },
        None => None,
    }
}

/// The fields of `s` between the `/` separators, as `str::split('/')` gives
/// them: one more field than there are separators, empty ones included.
pub open spec fn split_slash(s: Seq<u8>) -> Seq<Seq<u8>>
    decreases s.len(),
{
    if s.len() == 0 {
        seq![Seq::<u8>::empty()]
    } else {
        let fields = split_slash(s.drop_last());
        if s.last() == 47u8 {
            fields.push(Seq::<u8>::empty())
        } else {
            fields.update(fields.len() - 1, fields.last().push(s.last()))
        }
    }
}

/// A face vertex `v/t/n` or `v//n`; fields after the third are ignored.
pub open spec fn spec_face_vertex(token: Seq<u8>) -> Option<FaceVertex> {
    let f = split_slash(token);
    if f.len() < 3 {
        None
    } else {
        match (spec_parse_index(f[0]), spec_parse_index(f[2])) {
            (Some(v), Some(n)) => if f[1].len() == 0 {
                Some(FaceVertex { vertex: v, texture: None, normal: n })
            } else {
                match spec_parse_index(f[1]) {
                    Some(t) => Some(FaceVertex { vertex: v, texture: Some(t), normal: n }),
                    None => None,
                }
            },
            _ => None,
        }
    }
}

proof fn lemma_digits_value_grows(s: Seq<u8>, i: int)
    requires
        0 <= i <= s.len(),
    ensures
        digits_value(s.subrange(0, i)) <= digits_value(s),
    decreases s.len() - i,
{
    if i < s.len() {
        lemma_digits_value_grows(s, i + 1);
        assert(s.subrange(0, i + 1).drop_last() =~= s.subrange(0, i));
    } else {
        assert(s.subrange(0, i) =~= s);
    }
}

pub fn line_kind(line: &[u8]) -> (r: ObjLineKind)
    ensures
        r == spec_line_kind(line@),
{
    if line.len() < 2 {
        return ObjLineKind::Other;
    }
    let (a, b) = (line[0], line[1]);
    if a == 111u8 && b == 32u8 {
        ObjLineKind::Object
    } else if a == 118u8 && b == 32u8 {
        ObjLineKind::Vertex
    } else if a == 118u8 && b == 116u8 {
        ObjLineKind::TextureCoord
    } else if a == 118u8 && b == 110u8 {
        ObjLineKind::Normal
    } else if a == 102u8 && b == 32u8 {
        ObjLineKind::Face
    } else {
        ObjLineKind::Other
    }
}

/// Reads a one-based index and returns it zero-based.
pub fn parse_index(s: &[u8]) -> (r: Option<usize>)
    ensures
        r == spec_parse_index(s@),
{
    let start: usize = if s.len() > 0 && s[0] == 43u8 {
        1
    } else {
        0
    };
    let ghost d = if start == 1 {
        s@.drop_first()
    } else {
        s@
    };
    assert(d =~= s@.subrange(start as int, s@.len() as int));
    if start >= s.len() {
        return None;
    }
    let mut value: usize = 0;
    let mut i: usize = start;
    while i < s.len()
        invariant
            start <= i <= s@.len(),
            start < s@.len(),
            d =~= s@.subrange(start as int, s@.len() as int),
            d == strip_plus(s@),
            forall|k: int| 0 <= k < i - start ==> is_digit(#[trigger] d[k]),
            value == digits_value(d.subrange(0, i - start)),
        decreases s@.len() - i,
    {
        let c = s[i];
        assert(d[i - start] == c);
        if c < 48u8 || c > 57u8 {
            assert(!is_digit(d[i - start]));
            assert(!all_digits(d));
            assert(unsigned_digits(s@) is None);
            return None;
        }
        let ghost prefix = d.subrange(0, i - start + 1);
        assert(prefix.drop_last() =~= d.subrange(0, i - start));
        if value > (usize::MAX - (c - 48u8) as usize) / 10 {
            proof {
                assert(digits_value(prefix) > usize::MAX);
                if unsigned_digits(s@) is Some {
                    assert(unsigned_digits(s@)->0 == d);
                    lemma_digits_value_grows(d, i - start + 1);
                }
            }
            return None;
        }
        value = value * 10 + (c - 48u8) as usize;
        i += 1;
    }
    assert(d.subrange(0, i - start) =~= d);
    assert(all_digits(d));
    assert(unsigned_digits(s@) == Some(d));
    if value == 0 {
        None
    } else {
        Some(value - 1)
    }
}

/// Splits a face-vertex token at each `/`.
fn split_fields(token: &[u8]) -> (r: Vec<Vec<u8>>)
    ensures
        r@.len() == split_slash(token@).len(),
        forall|k: int| 0 <= k < r@.len() ==> (#[trigger] r@[k])@ == split_slash(token@)[k],
{
    let mut fields: Vec<Vec<u8>> = Vec::new();
    fields.push(Vec::new());
    let mut i: usize = 0;
    assert(token@.subrange(0, 0) =~= Seq::<u8>::empty());
    while i < token.len()
        invariant
            i <= token@.len(),
            fields@.len() == split_slash(token@.subrange(0, i as int)).len(),
            fields@.len() >= 1,
            forall|k: int|
                0 <= k < fields@.len() ==> (#[trigger] fields@[k])@ == split_slash(
                    token@.subrange(0, i as int),
                )[k],
        decreases token@.len() - i,
    {
        let ghost before = split_slash(token@.subrange(0, i as int));
        let c = token[i];
        assert(token@.subrange(0, i + 1).drop_last() =~= token@.subrange(0, i as int));
        if c == 47u8 {
            fields.push(Vec::new());
            assert forall|k: int| 0 <= k < fields@.len() implies (#[trigger] fields@[k])@
                == split_slash(token@.subrange(0, i + 1))[k] by {
                if k == fields@.len() - 1 {
                    assert(fields@[k]@ =~= Seq::<u8>::empty());
                }
            }
        } else {
            let mut field = fields.pop().unwrap();
            field.push(c);
            fields.push(field);
        }
        i += 1;
    }
    assert(token@.subrange(0, i as int) =~= token@);
    fields
}

/// Reads one corner of a face, `v/t/n` or `v//n`, with one-based indices.
pub fn parse_face_vertex(token: &[u8]) -> (r: Option<FaceVertex>)
    ensures
        r == spec_face_vertex(token@),
{
    let fields = split_fields(token);
    if fields.len() < 3 {
        return None;
    }
    let vertex = parse_index(fields[0].as_slice());
    let normal = parse_index(fields[2].as_slice());
    match (vertex, normal) {
        (Some(v), Some(n)) => {
            if fields[1].len() == 0 {
                Some(FaceVertex { vertex: v, texture: None, normal: n })
            } else {
                match parse_index(fields[1].as_slice()) {
                    Some(t) => Some(FaceVertex { vertex: v, texture: Some(t), normal: n }),
                    None => None,
                }
            }
        },
        _ => None,
    }
}

} // verus!
