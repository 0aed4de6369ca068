use galacritty::font::{
    font_size_steps, to_alacritty, FaceDescription, FontFace, FontFamily, Style, SCALE,
    WEIGHT_BOLD, WEIGHT_NORMAL,
};

fn face(name: &str, style: Style, weight: i32) -> FontFace {
    FontFace {
        name: Some(name.to_string()),
        description: Some(FaceDescription { style, weight }),
    }
}

#[test]
fn regular_only_family_keeps_bold_and_italic_plain() {
    let fam = FontFamily {
        name: Some("Mono".to_string()),
        faces: vec![face("Regular", Style::Normal, WEIGHT_NORMAL)],
    };
    let f = to_alacritty(&fam, 12 * SCALE).unwrap();
    assert_eq!(f.normal.family, "Mono");
    assert_eq!(f.bold.family, "Mono");
    assert_eq!(f.italic.family, "Mono");
    assert_eq!(f.normal.style, Some("Regular".to_string()));
    assert_eq!(f.bold.style, None);
    assert_eq!(f.italic.style, None);
    assert_eq!(f.size, 12 * SCALE);
}

#[test]
fn full_family_resolves_each_face() {
    let fam = FontFamily {
        name: Some("Sans".to_string()),
        faces: vec![
            face("Book", Style::Normal, WEIGHT_NORMAL),
            face("Heavy", Style::Normal, 900),
            face("Bold", Style::Normal, WEIGHT_BOLD),
            face("Slanted", Style::Oblique, WEIGHT_NORMAL),
            face("Italic", Style::Italic, WEIGHT_NORMAL),
            FontFace { name: Some("Mystery".to_string()), description: None },
        ],
    };
    let f = to_alacritty(&fam, 10 * SCALE).unwrap();
    assert_eq!(f.normal.style, Some("Book".to_string()));
    assert_eq!(f.bold.style, Some("Bold".to_string()));
    assert_eq!(f.italic.style, Some("Italic".to_string()));
}

#[test]
fn last_matching_face_wins() {
    let fam = FontFamily {
        name: Some("Sans".to_string()),
        faces: vec![face("A", Style::Normal, WEIGHT_NORMAL), face("B", Style::Normal, WEIGHT_NORMAL)],
    };
    assert_eq!(to_alacritty(&fam, SCALE).unwrap().normal.style, Some("B".to_string()));
}

#[test]
fn family_without_name_gives_no_font() {
    let fam = FontFamily { name: None, faces: vec![face("Regular", Style::Normal, WEIGHT_NORMAL)] };
    assert!(to_alacritty(&fam, 12 * SCALE).is_none());
}

#[test]
fn family_without_faces_has_no_styles() {
    let fam = FontFamily { name: Some("Mono".to_string()), faces: vec![] };
    let f = to_alacritty(&fam, 0).unwrap();
    assert_eq!(f.normal.style, None);
    assert_eq!(f.normal.family, "Mono");
}

#[test]
fn size_steps_between_sizes() {
    assert_eq!(font_size_steps(14 * SCALE, 12 * SCALE), 2);
    assert_eq!(font_size_steps(10 * SCALE, 12 * SCALE), -2);
    assert_eq!(font_size_steps(12 * SCALE + 1000, 12 * SCALE), 0);
    assert_eq!(font_size_steps(12 * SCALE - 1000, 12 * SCALE), 0);
    assert_eq!(font_size_steps(i32::MAX, i32::MIN), 127);
    assert_eq!(font_size_steps(i32::MIN, i32::MAX), -128);
}
