use mcraw_tui::color::{color_space_to_u32, transfer_to_u32, ColorSpace, TransferFunction};

#[test]
fn transfer_roundtrip() {
    for tf in TransferFunction::all() {
        let n = transfer_to_u32(tf);
        assert!(n < 15, "{} maps to {}, expected < 15", tf.name(), n);
    }
}

#[test]
fn color_space_roundtrip() {
    for cs in ColorSpace::all() {
        let n = color_space_to_u32(cs);
        assert!(n < 16, "{} maps to {}, expected < 16", cs.name(), n);
    }
}

#[test]
fn shader_codes_are_distinct() {
    let mut seen = std::collections::HashSet::new();
    for tf in TransferFunction::all() {
        assert!(seen.insert(transfer_to_u32(tf)));
    }
    let mut seen = std::collections::HashSet::new();
    for cs in ColorSpace::all() {
        assert!(seen.insert(color_space_to_u32(cs)));
    }
    assert_eq!(transfer_to_u32(&TransferFunction::Linear), 0);
    assert_eq!(color_space_to_u32(&ColorSpace::Srgb), 15);
    assert_eq!(color_space_to_u32(&ColorSpace::Rec709), 12);
}

#[test]
fn cycles_visit_every_value() {
    let mut cs = ColorSpace::all()[0];
    for _ in 0..ColorSpace::all().len() {
        cs = cs.next();
    }
    assert_eq!(cs, ColorSpace::all()[0]);
    let tf = TransferFunction::all()[3];
    assert_eq!(tf.next().prev(), tf);
}

#[test]
fn fifteen_colour_spaces_by_name() {
    let names: Vec<&str> = ColorSpace::all().iter().map(|c| c.name()).collect();
    assert_eq!(
        names,
        vec![
            "ACES AP1", "ARRI Wide Gamut 3", "ARRI Wide Gamut 4", "Canon Cinema Gamut", "DaVinci Wide Gamut",
            "DCI-P3", "Display P3", "F-Gamut", "F-Gamut C", "Panasonic V-Gamut", "Rec.2020", "Rec.709",
            "S-Gamut3", "S-Gamut3.Cine", "sRGB",
        ]
    );
}
