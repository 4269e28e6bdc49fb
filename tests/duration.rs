use media_resolver::duration::parse_duration;

#[test]
fn test() {
    // Durations as the backend writes them:
    assert_eq!(parse_duration("32h47m50s"), 118070);
    assert_eq!(parse_duration("1h20m0s"), 4800);
    assert_eq!(parse_duration("55m31s"), 3331);
    assert_eq!(parse_duration("2m53s"), 173);
    assert_eq!(parse_duration("58s"), 58);

    // Single groups:
    assert_eq!(parse_duration("1h"), 3600);
    assert_eq!(parse_duration("1m"), 60);
    assert_eq!(parse_duration("0s"), 0);

    // Units that are not understood contribute nothing:
    assert_eq!(parse_duration("1d8h47m50s"), 67670);
    assert_eq!(parse_duration("1y10d"), 0);
}

#[test]
fn duration_empty_and_unitless() {
    assert_eq!(parse_duration(""), 0);
    assert_eq!(parse_duration("42"), 0);
    assert_eq!(parse_duration("h"), 0);
    assert_eq!(parse_duration("5x3s"), 53);
}

#[test]
fn duration_saturates() {
    assert_eq!(parse_duration("99999999999999999999999h"), 0);
    assert_eq!(parse_duration("18446744073709551615h"), usize::MAX);
    assert_eq!(parse_duration("18446744073709551615s1s"), usize::MAX);
}
