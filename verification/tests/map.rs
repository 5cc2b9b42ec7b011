use corefw::launchpad_pro_mk3::map::BUTTON_REMAP;

#[test]
fn every_exposed_physical_control_has_one_unique_logical_index() {
    let mut seen = [false; 109];
    for (control, &mapped) in BUTTON_REMAP.iter().enumerate() {
        let logical = if mapped != 0 {
            Some(mapped as usize)
        } else if control == 78 {
            Some(0)
        } else {
            None
        };

        if let Some(logical) = logical {
            assert!(logical < seen.len());
            assert!(!seen[logical], "logical index {logical} is mapped twice");
            seen[logical] = true;
        }
    }

    for (logical, mapped) in seen.into_iter().enumerate() {
        // XY index 9 is outside the 8-column surface. Indexes 99 and 100
        // are likewise sentinels between the regular and mirror ranges.
        let expected = logical != 9 && logical != 99 && logical != 100;
        assert_eq!(mapped, expected, "unexpected mapping for logical index {logical}");
    }
}
