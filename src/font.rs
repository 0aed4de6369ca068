//! Resolving a font family picked in the toolkit's chooser into the three
//! faces the terminal renders with.
use vstd::prelude::*;

verus! {

/// Toolkit font sizes are in units of 1/1024 of a point.
pub const SCALE: i32 = 1024;

pub const WEIGHT_NORMAL: i32 = 400;

pub const WEIGHT_BOLD: i32 = 700;

/// The slant of a face.
#[derive(Clone, Copy, Debug, PartialEq, Eq, Structural)]
pub enum Style {
    Normal,
    Oblique,
    Italic,
}

/// How the toolkit describes a face.
#[derive(Clone, Copy, Debug, PartialEq, Eq, Structural)]
pub struct FaceDescription {
    pub style: Style,
    pub weight: i32,
}

/// One face of a family, as the toolkit lists it.
pub struct FontFace {
    pub name: Option<String>,
    pub description: Option<FaceDescription>,
}

/// A font family, as the toolkit's chooser hands it over.
pub struct FontFamily {
    pub name: Option<String>,
    pub faces: Vec<FontFace>,
}

/// One of the three faces of a terminal font: a family, and the name of a
/// specific face style when one was found.
pub struct FontDescription {
    pub family: String,
    pub style: Option<String>,
}

/// The terminal font: regular, bold and italic faces, and the size in
/// toolkit units (points times [`SCALE`]).
pub struct Font {
    pub normal: FontDescription,
    pub bold: FontDescription,
    pub italic: FontDescription,
    pub size: i32,
}

pub open spec fn name_view(n: Option<String>) -> Option<Seq<char>> {
    match n {
        Some(s) => Some(s@),
        None => None,
    }
}

pub open spec fn face_is(f: FontFace, style: Style, weight: i32) -> bool {
    f.description == Some(FaceDescription { style, weight })
}

/// The name of the last face with this style and weight; none when no face
/// has them.
pub open spec fn matched_style(faces: Seq<FontFace>, style: Style, weight: i32) -> Option<
    Seq<char>,
>
    decreases faces.len(),
{
    if faces.len() == 0 {
        None
    } else if face_is(faces.last(), style, weight) {
        name_view(faces.last().name)
    } else {
        matched_style(faces.drop_last(), style, weight)
    }
}

/// What the resolved font's three faces hold: the family name, and the
/// styles of the matching faces.
pub open spec fn resolves_to(fam: FontFamily, size: i32, f: Font) -> bool {
    &&& name_view(fam.name) == Some(f.normal.family@)
    &&& f.bold.family@ == f.normal.family@
    &&& f.italic.family@ == f.normal.family@
    &&& name_view(f.normal.style) == matched_style(fam.faces@, Style::Normal, WEIGHT_NORMAL)
    &&& name_view(f.bold.style) == matched_style(fam.faces@, Style::Normal, WEIGHT_BOLD)
    &&& name_view(f.italic.style) == matched_style(fam.faces@, Style::Italic, WEIGHT_NORMAL)
    &&& f.size == size
}

fn clone_name(n: &Option<String>) -> (r: Option<String>)
    ensures
        name_view(r) == name_view(*n),
{
    match n {
        Some(s) => Some(s.clone()),
        None => None,
    }
}

/// The terminal font for a family chosen at a size in toolkit units. A
/// family without a name gives none: the current font stays.
pub fn to_alacritty(fam: &FontFamily, size: i32) -> (r: Option<Font>)
    ensures
        match r {
            Some(f) => resolves_to(*fam, size, f),
            None => fam.name is None,
        },
{
    let name = match &fam.name {
        Some(n) => n,
        None => return None,
    };
    let mut normal: Option<String> = None;
    let mut bold: Option<String> = None;
    let mut italic: Option<String> = None;
    let n = fam.faces.len();
    let mut i: usize = 0;
    while i < n
        invariant
            n == fam.faces@.len(),
            i <= n,
            name_view(normal) == matched_style(
                fam.faces@.subrange(0, i as int),
                Style::Normal,
                WEIGHT_NORMAL,
            ),
            name_view(bold) == matched_style(
                fam.faces@.subrange(0, i as int),
                Style::Normal,
                WEIGHT_BOLD,
            ),
            name_view(italic) == matched_style(
                fam.faces@.subrange(0, i as int),
                Style::Italic,
                WEIGHT_NORMAL,
            ),
        decreases n - i,
    {
        let face = &fam.faces[i];
        let ghost prefix = fam.faces@.subrange(0, i as int + 1);
        assert(prefix.drop_last() =~= fam.faces@.subrange(0, i as int));
        match face.description {
            Some(d) => {
                if d.style == Style::Normal && d.weight == WEIGHT_NORMAL {
                    normal = clone_name(&face.name);
                } else if d.style == Style::Normal && d.weight == WEIGHT_BOLD {
                    bold = clone_name(&face.name);
                } else if d.style == Style::Italic && d.weight == WEIGHT_NORMAL {
                    italic = clone_name(&face.name);
                }
            },
            None => {},
        }
        i = i + 1;
    }
    assert(fam.faces@.subrange(0, n as int) =~= fam.faces@);
    Some(
        Font {
            normal: FontDescription { family: name.clone(), style: normal },
            bold: FontDescription { family: name.clone(), style: bold },
            italic: FontDescription { family: name.clone(), style: italic },
            size,
        },
    )
}

/// The whole points between two sizes in toolkit units, rounded toward
/// zero and held within `i8`.
pub open spec fn size_steps(new_size: i32, current_size: i32) -> i8 {
    let d = new_size - current_size;
    let steps = if d >= 0 {
        d / (SCALE as int)
    } else {
        -((-d) / (SCALE as int))
    };
    if steps > 127 {
        127i8
    } else if steps < -128 {
        -128i8
    } else {
        steps as i8
    }
}

/// The font-size change that takes the terminal from the current size to a
/// newly chosen one, both in toolkit units.
pub fn font_size_steps(new_size: i32, current_size: i32) -> (r: i8)
    ensures
        r == size_steps(new_size, current_size),
{
    let d: i64 = new_size as i64 - current_size as i64;
    let steps: i64 = if d >= 0 {
        d / (SCALE as i64)
    } else {
        -((-d) / (SCALE as i64))
    };
    if steps > 127 {
        127
    } else if steps < -128 {
        -128
    } else {
        steps as i8
    }
}

proof fn lemma_no_match(faces: Seq<FontFace>, style: Style, weight: i32)
    requires
        forall|i: int| 0 <= i < faces.len() ==> !face_is(#[trigger] faces[i], style, weight),
    ensures
        matched_style(faces, style, weight) is None,
    decreases faces.len(),
{
    if faces.len() > 0 {
        assert(!face_is(faces[faces.len() - 1], style, weight));
        lemma_no_match(faces.drop_last(), style, weight);
    }
}

/// A family whose faces are all regular (normal style and weight) gets no
/// bold or italic style override, while its normal face takes the name of
/// the regular face.
pub proof fn lemma_regular_only_family(fam: FontFamily, size: i32, f: Font)
    requires
        fam.faces@.len() > 0,
        forall|i: int|
            0 <= i < fam.faces@.len() ==> face_is(#[trigger] fam.faces@[i], Style::Normal, WEIGHT_NORMAL),
        resolves_to(fam, size, f),
    ensures
        f.bold.style is None,
        f.italic.style is None,
        name_view(f.normal.style) == name_view(fam.faces@.last().name),
{
    let faces = fam.faces@;
    assert forall|i: int| 0 <= i < faces.len() implies !face_is(
        #[trigger] faces[i],
        Style::Normal,
        WEIGHT_BOLD,
    ) by {
        assert(face_is(faces[i], Style::Normal, WEIGHT_NORMAL));
    }
    assert forall|i: int| 0 <= i < faces.len() implies !face_is(
        #[trigger] faces[i],
        Style::Italic,
        WEIGHT_NORMAL,
    ) by {
        assert(face_is(faces[i], Style::Normal, WEIGHT_NORMAL));
    }
    lemma_no_match(faces, Style::Normal, WEIGHT_BOLD);
    lemma_no_match(faces, Style::Italic, WEIGHT_NORMAL);
    assert(face_is(faces[faces.len() - 1], Style::Normal, WEIGHT_NORMAL));
}

} // verus!
