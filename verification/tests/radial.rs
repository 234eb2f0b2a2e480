use fifths_tui::config::cof_entries;
use fifths_tui::layout::{
    cos_lookup, layout_entries, place_point, ring_radius, sin_lookup, LayoutSpace, Ring,
    ACCIDENTAL_RADIUS, COORD_SCALE, HALF_COORD_SCALE, MAJOR_RADIUS, MINOR_RADIUS,
    SPACE_HALF_EXTENT,
};

#[test]
fn ring_radii_match_configuration() {
    assert_eq!(ring_radius(Ring::Major), 180);
    assert_eq!(ring_radius(Ring::Minor), 140);
    assert_eq!(ring_radius(Ring::Accidental), 160);
    assert_eq!(MAJOR_RADIUS, 180);
    assert_eq!(MINOR_RADIUS, 140);
    assert_eq!(ACCIDENTAL_RADIUS, 160);
}

#[test]
fn trig_tables_cover_the_cardinal_angles() {
    assert_eq!(cos_lookup(0), COORD_SCALE);
    assert_eq!(sin_lookup(0), 0);
    assert_eq!(cos_lookup(90), 0);
    assert_eq!(sin_lookup(90), COORD_SCALE);
    assert_eq!(cos_lookup(180), -COORD_SCALE);
    assert_eq!(sin_lookup(180), 0);
    assert_eq!(cos_lookup(-90), 0);
    assert_eq!(sin_lookup(-90), -COORD_SCALE);
    assert_eq!(cos_lookup(-180), -COORD_SCALE);
    assert_eq!(sin_lookup(-180), 0);
}

#[test]
fn trig_tables_agree_with_float_trig_at_every_step() {
    let mut deg = -360;
    while deg < 360 {
        let rad = (deg as f64).to_radians();
        let c = cos_lookup(deg) as f64 / COORD_SCALE as f64;
        let s = sin_lookup(deg) as f64 / COORD_SCALE as f64;
        assert!((c - rad.cos()).abs() < 1e-5, "cos at {deg}");
        assert!((s - rad.sin()).abs() < 1e-5, "sin at {deg}");
        deg += 30;
    }
}

#[test]
fn place_point_centers_label_on_its_anchor() {
    // Top of the outer ring, one-character label.
    let (x, y) = place_point(180, 90, 1);
    assert_eq!(x, -HALF_COORD_SCALE);
    assert_eq!(y, 180 * COORD_SCALE);

    // Positive horizontal axis, two-character label.
    let (x, y) = place_point(140, 0, 2);
    assert_eq!(x, 140 * COORD_SCALE - 2 * HALF_COORD_SCALE);
    assert_eq!(y, 0);

    // Bottom of the middle ring, five-character label.
    let (x, y) = place_point(160, -90, 5);
    assert_eq!(x, -5 * HALF_COORD_SCALE);
    assert_eq!(y, -160 * COORD_SCALE);
}

#[test]
fn same_angle_on_two_rings_gives_aligned_proportional_anchors() {
    let mut deg = -360;
    while deg < 360 {
        let c = cos_lookup(deg) as i128;
        let s = sin_lookup(deg) as i128;
        let (r1, r2) = (180i128, 140i128);
        let (x1, y1) = (r1 * c, r1 * s);
        let (x2, y2) = (r2 * c, r2 * s);
        // Alignment: identical bearing (parallel, same direction).
        assert_eq!(x1 * y2, x2 * y1, "cross product at {deg}");
        assert!(x1 * x2 >= 0 && y1 * y2 >= 0, "direction at {deg}");
        // Scaling: squared distances in the ratio of the squared radii.
        assert_eq!(
            (x1 * x1 + y1 * y1) * (r2 * r2),
            (x2 * x2 + y2 * y2) * (r1 * r1),
            "distance ratio at {deg}"
        );
        // The same bearing through float atan2, coarsely.
        if x1 != 0 || y1 != 0 {
            let b1 = (y1 as f64).atan2(x1 as f64);
            let b2 = (y2 as f64).atan2(x2 as f64);
            assert!((b1 - b2).abs() < 1e-12, "atan2 at {deg}");
        }
        deg += 30;
    }
}

#[test]
fn cof_table_has_three_aligned_rings_of_twelve() {
    let entries = cof_entries();
    assert_eq!(entries.len(), 36);
    for i in 0..12 {
        assert_eq!(entries[i].ring, Ring::Major);
        assert_eq!(entries[i + 12].ring, Ring::Minor);
        assert_eq!(entries[i + 24].ring, Ring::Accidental);
        let angle = 150 - 30 * i as i32;
        assert_eq!(entries[i].angle_deg, angle);
        assert_eq!(entries[i + 12].angle_deg, angle);
        assert_eq!(entries[i + 24].angle_deg, angle);
    }
}

#[test]
fn cof_table_labels_are_the_circle_of_fifths() {
    let entries = cof_entries();
    let majors: Vec<&str> = entries[0..12].iter().map(|e| e.label.as_str()).collect();
    let minors: Vec<&str> = entries[12..24].iter().map(|e| e.label.as_str()).collect();
    let accidentals: Vec<&str> = entries[24..36].iter().map(|e| e.label.as_str()).collect();
    assert_eq!(
        majors,
        vec!["Bb", "F", "C", "G", "D", "A", "E", "B", "Gb/F#", "Db", "Ab", "Eb"]
    );
    assert_eq!(
        minors,
        vec!["g", "d", "a", "e", "b", "f#", "c#", "g#", "eb/d#", "bb", "f", "c"]
    );
    assert_eq!(
        accidentals,
        vec!["2b", "1b", "0", "1#", "2#", "3#", "4#", "5#", "6b/6#", "5b", "4b", "3b"]
    );
}

#[test]
fn layout_entries_projects_every_configured_entry() {
    let entries = cof_entries();
    let placed = layout_entries(&entries);
    assert_eq!(placed.len(), entries.len());
    for (p, e) in placed.iter().zip(entries.iter()) {
        assert_eq!(p.ring, e.ring);
        assert_eq!(p.label, e.label);
        let (x, y) = place_point(
            ring_radius(e.ring),
            e.angle_deg,
            e.label.chars().count(),
        );
        assert_eq!(p.x, x);
        assert_eq!(p.y, y);
    }
    // "C" major sits at the top of the outer ring, centered on the axis.
    let c_major = &placed[2];
    assert_eq!(c_major.label, "C");
    assert_eq!(c_major.x, -HALF_COORD_SCALE);
    assert_eq!(c_major.y, 180 * COORD_SCALE);
}

#[test]
fn layout_is_deterministic_across_frames() {
    let first = layout_entries(&cof_entries());
    let second = layout_entries(&cof_entries());
    assert_eq!(first.len(), second.len());
    for (a, b) in first.iter().zip(second.iter()) {
        assert_eq!(a.x, b.x);
        assert_eq!(a.y, b.y);
        assert_eq!(a.label, b.label);
        assert_eq!(a.ring, b.ring);
    }
}

#[test]
fn standard_space_contains_the_whole_diagram() {
    let space = LayoutSpace::standard();
    assert_eq!(space.x_min, -SPACE_HALF_EXTENT);
    assert_eq!(space.x_max, SPACE_HALF_EXTENT);
    assert_eq!(space.y_min, -SPACE_HALF_EXTENT);
    assert_eq!(space.y_max, SPACE_HALF_EXTENT);
    for p in layout_entries(&cof_entries()) {
        assert!(space.contains(p.x, p.y));
    }
    assert!(!space.contains(SPACE_HALF_EXTENT + 1, 0));
    assert!(!space.contains(0, -SPACE_HALF_EXTENT - 1));
}
