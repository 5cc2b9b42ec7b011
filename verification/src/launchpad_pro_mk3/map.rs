use vstd::prelude::*;

verus! {

pub const BUTTON_REMAP_SIZE: usize = 128;

/// Surface index reported for each physical control of the co-processor frame
/// (0 marks an unused control, except control 78 which is the setup button).
pub const BUTTON_REMAP: [u8; 128] = [
    11, 21, 31, 41, 51, 61, 71, 81, 12, 22, 32, 42, 52, 62, 72, 82, 13, 23, 33, 43, 53, 63, 73, 83,
    14, 24, 34, 44, 54, 64, 74, 84, 15, 25, 35, 45, 55, 65, 75, 85, 16, 26, 36, 46, 56, 66, 76, 86,
    17, 27, 37, 47, 57, 67, 77, 87, 18, 28, 38, 48, 58, 68, 78, 88, 91, 92, 80, 70, 60, 50, 40, 30,
    20, 10, 101, 1, 0, 0, 0, 90, 93, 94, 0, 0, 0, 0, 102, 2, 103, 3, 104, 4, 0, 0, 0, 0, 95, 96, 0,
    0, 0, 0, 105, 5, 106, 6, 107, 7, 0, 0, 0, 0, 97, 98, 89, 79, 69, 59, 49, 39, 29, 19, 108, 8, 0,
    0, 0, 0,
];

pub const LED_REMAP_SIZE: usize = 110;

/// LED slot of the co-processor for each surface index (0xff: no LED).
pub const LED_REMAP: [u8; 110] = [
    53, 26, 50, 51, 52, 77, 78, 79, 107, 0xFF, 23, 24, 44, 45, 46, 71, 72, 73, 104, 105, 21, 22,
    41, 42, 43, 68, 69, 70, 102, 103, 18, 19, 20, 39, 40, 66, 67, 99, 100, 101, 15, 16, 17, 37, 38,
    64, 65, 96, 97, 98, 12, 13, 14, 35, 36, 62, 63, 93, 94, 95, 9, 10, 11, 33, 34, 60, 61, 90, 91,
    92, 6, 7, 8, 31, 32, 58, 59, 87, 88, 89, 3, 4, 5, 29, 30, 56, 57, 84, 85, 86, 0, 1, 2, 27, 28,
    54, 55, 81, 82, 83, 0xFF, 25, 47, 48, 49, 74, 75, 76, 106, 0xFF,
];


pub const CONTROL_FOR_INDEX_SIZE: usize = 109;

/// The physical control behind each surface index (0xff for 9, 99 and 100,
/// which no control reports).
pub const CONTROL_FOR_INDEX: [u8; 109] = [
    78, 75, 87, 89, 91, 103, 105, 107, 123, 0xff, 73, 0, 8, 16, 24, 32,
    40, 48, 56, 121, 72, 1, 9, 17, 25, 33, 41, 49, 57, 120, 71, 2,
    10, 18, 26, 34, 42, 50, 58, 119, 70, 3, 11, 19, 27, 35, 43, 51,
    59, 118, 69, 4, 12, 20, 28, 36, 44, 52, 60, 117, 68, 5, 13, 21,
    29, 37, 45, 53, 61, 116, 67, 6, 14, 22, 30, 38, 46, 54, 62, 115,
    66, 7, 15, 23, 31, 39, 47, 55, 63, 114, 79, 64, 65, 80, 81, 96,
    97, 112, 113, 0xff, 0xff, 74, 86, 88, 90, 102, 104, 106, 122,
];

/// The control reports a surface event: it has a surface index, or it is
/// the setup button (control 78, index 0).
pub open spec fn control_is_mapped(control: int) -> bool {
    0 <= control < BUTTON_REMAP_SIZE && (BUTTON_REMAP[control] != 0 || control == 78)
}

/// The surface index a mapped control reports.
pub open spec fn control_index(control: int) -> int {
    if control == 78 { 0 } else { BUTTON_REMAP[control] as int }
}

/// Every mapped control has its own surface index, and the indices
/// reported are exactly 0..=108 except 9, 99 and 100.
pub proof fn lemma_controls_map_one_to_one()
    ensures
        forall|c: int| #[trigger] control_is_mapped(c) ==> {
            let l = control_index(c);
            &&& 0 <= l <= 108
            &&& l != 9 && l != 99 && l != 100
            &&& CONTROL_FOR_INDEX[l] as int == c
        },
        forall|l: int| 0 <= l <= 108 && l != 9 && l != 99 && l != 100 ==> control_is_mapped(#[trigger] CONTROL_FOR_INDEX[l] as int)
            && control_index(CONTROL_FOR_INDEX[l] as int) == l,
        forall|c1: int, c2: int| #[trigger] control_is_mapped(c1) && #[trigger] control_is_mapped(c2) && control_index(c1)
            == control_index(c2) ==> c1 == c2,
{
    assert forall|c: int| #[trigger] control_is_mapped(c) implies {
        let l = control_index(c);
        &&& 0 <= l <= 108
        &&& l != 9 && l != 99 && l != 100
        &&& CONTROL_FOR_INDEX[l] as int == c
    } by {
        assert(c == 0 || c == 1 || c == 2 || c == 3 || c == 4 || c == 5 || c == 6 || c == 7 || c == 8 || c == 9 || c == 10 || c == 11 || c == 12 || c == 13 || c == 14 || c == 15 || c == 16 || c == 17 || c == 18 || c == 19 || c == 20 || c == 21 || c == 22 || c == 23 || c == 24 || c == 25 || c == 26 || c == 27 || c == 28 || c == 29 || c == 30 || c == 31 || c == 32 || c == 33 || c == 34 || c == 35 || c == 36 || c == 37 || c == 38 || c == 39 || c == 40 || c == 41 || c == 42 || c == 43 || c == 44 || c == 45 || c == 46 || c == 47 || c == 48 || c == 49 || c == 50 || c == 51 || c == 52 || c == 53 || c == 54 || c == 55 || c == 56 || c == 57 || c == 58 || c == 59 || c == 60 || c == 61 || c == 62 || c == 63 || c == 64 || c == 65 || c == 66 || c == 67 || c == 68 || c == 69 || c == 70 || c == 71 || c == 72 || c == 73 || c == 74 || c == 75 || c == 76 || c == 77 || c == 78 || c == 79 || c == 80 || c == 81 || c == 82 || c == 83 || c == 84 || c == 85 || c == 86 || c == 87 || c == 88 || c == 89 || c == 90 || c == 91 || c == 92 || c == 93 || c == 94 || c == 95 || c == 96 || c == 97 || c == 98 || c == 99 || c == 100 || c == 101 || c == 102 || c == 103 || c == 104 || c == 105 || c == 106 || c == 107 || c == 108 || c == 109 || c == 110 || c == 111 || c == 112 || c == 113 || c == 114 || c == 115 || c == 116 || c == 117 || c == 118 || c == 119 || c == 120 || c == 121 || c == 122 || c == 123 || c == 124 || c == 125 || c == 126 || c == 127);
    }
    assert forall|l: int| 0 <= l <= 108 && l != 9 && l != 99 && l != 100 implies control_is_mapped(#[trigger] CONTROL_FOR_INDEX[l] as int)
        && control_index(CONTROL_FOR_INDEX[l] as int) == l by {
        assert(l == 0 || l == 1 || l == 2 || l == 3 || l == 4 || l == 5 || l == 6 || l == 7 || l == 8 || l == 9 || l == 10 || l == 11 || l == 12 || l == 13 || l == 14 || l == 15 || l == 16 || l == 17 || l == 18 || l == 19 || l == 20 || l == 21 || l == 22 || l == 23 || l == 24 || l == 25 || l == 26 || l == 27 || l == 28 || l == 29 || l == 30 || l == 31 || l == 32 || l == 33 || l == 34 || l == 35 || l == 36 || l == 37 || l == 38 || l == 39 || l == 40 || l == 41 || l == 42 || l == 43 || l == 44 || l == 45 || l == 46 || l == 47 || l == 48 || l == 49 || l == 50 || l == 51 || l == 52 || l == 53 || l == 54 || l == 55 || l == 56 || l == 57 || l == 58 || l == 59 || l == 60 || l == 61 || l == 62 || l == 63 || l == 64 || l == 65 || l == 66 || l == 67 || l == 68 || l == 69 || l == 70 || l == 71 || l == 72 || l == 73 || l == 74 || l == 75 || l == 76 || l == 77 || l == 78 || l == 79 || l == 80 || l == 81 || l == 82 || l == 83 || l == 84 || l == 85 || l == 86 || l == 87 || l == 88 || l == 89 || l == 90 || l == 91 || l == 92 || l == 93 || l == 94 || l == 95 || l == 96 || l == 97 || l == 98 || l == 99 || l == 100 || l == 101 || l == 102 || l == 103 || l == 104 || l == 105 || l == 106 || l == 107 || l == 108);
    }
}

} // verus!
