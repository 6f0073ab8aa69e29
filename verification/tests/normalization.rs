use fastnoise::name_format::{format_dimension_member, format_lookup};

#[test]
fn normalize_removes_spaces_and_lowers() {
    assert_eq!(format_lookup("Cellular Distance"), "cellulardistance");
    assert_eq!(format_lookup("cellulardistance"), "cellulardistance");
    assert_eq!(format_lookup("  A  b C "), "abc");
    assert_eq!(format_lookup(""), "");
    assert_eq!(format_lookup("already_lower-1"), "already_lower-1");
}

#[test]
fn normalize_is_idempotent() {
    let samples = [
        "Cellular Distance",
        "MaxSmooth",
        "FRACTAL FBM",
        "  Mixed CASE with   spaces ",
        "",
        "x",
    ];
    for s in samples {
        let once = format_lookup(s);
        let twice = format_lookup(&once);
        assert_eq!(once, twice);
    }
}

#[test]
fn normalize_is_case_and_space_insensitive() {
    assert_eq!(
        format_lookup("Cellular Distance"),
        format_lookup("cellulardistance")
    );
    assert_eq!(format_lookup("Max Smooth"), format_lookup("MAXSMOOTH"));
}

#[test]
fn dimension_suffixes() {
    assert_eq!(format_dimension_member("offset", 1), "offsetx");
    assert_eq!(format_dimension_member("offset", 2), "offsety");
    assert_eq!(format_dimension_member("offset", 3), "offsetz");
    assert_eq!(format_dimension_member("offset", 4), "offsetw");
    assert_eq!(format_dimension_member("offset", 0), "offset");
    assert_eq!(format_dimension_member("offset", 7), "offset");
    assert_eq!(format_dimension_member("offset", -1), "offset");
}
