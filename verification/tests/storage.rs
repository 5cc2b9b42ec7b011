use corefw::storage::internal::{
    check_erase, check_read, check_write, erase_plan, program_plan, Flash, FlashErrorKind, PAGE_SIZE, SETTINGS_SIZE,
    SETTINGS_START,
};

fn apply(image: &mut Vec<u8>, programs: &[corefw::storage::internal::PageProgram]) {
    for p in programs {
        let base = p.page_base as usize;
        image[base..base + PAGE_SIZE].copy_from_slice(&p.contents);
    }
}

#[test]
fn bounds_checks() {
    assert!(check_read(0, SETTINGS_SIZE as usize).is_ok());
    assert_eq!(check_read(1, SETTINGS_SIZE as usize), Err(FlashErrorKind::OutOfBounds));
    assert_eq!(check_write(SETTINGS_SIZE, 1), Err(FlashErrorKind::OutOfBounds));
    assert!(check_write(SETTINGS_SIZE - 1, 1).is_ok());
}

#[test]
fn written_settings_read_back() {
    let mut flash = Flash::new();
    assert_eq!(flash.settings_size(), 6144);
    let mut image = vec![0xffu8; SETTINGS_SIZE as usize];
    let data: Vec<u8> = (0..40u8).collect();
    // Crosses from the first page into the second.
    let programs = flash.write_settings(1000, &data, &image).unwrap();
    assert_eq!(programs.len(), 2);
    assert_eq!(programs[0].page_base, 0);
    assert_eq!(programs[1].page_base, 1024);
    apply(&mut image, &programs);
    let mut back = vec![0u8; 40];
    flash.read_settings(1000, &mut back, &image);
    assert_eq!(back, data);
    assert_eq!(image[999], 0xff);
    assert_eq!(image[1040], 0xff);
    // Writing the same bytes again programs nothing.
    assert!(flash.write_settings(1000, &data, &image).unwrap().is_empty());
}

#[test]
fn out_of_range_access() {
    let mut flash = Flash::new();
    let image = vec![0u8; SETTINGS_SIZE as usize];
    assert!(flash.write_settings(6140, &[1, 2, 3, 4, 5], &image).is_err());
    let mut back = vec![0u8; 8];
    flash.read_settings(6140, &mut back, &image);
    assert_eq!(back, vec![0xff; 8]);
    let mut none: Vec<u8> = vec![];
    flash.read_settings(0, &mut none, &image);
    assert!(none.is_empty());
}

#[test]
fn erase_and_program_plans() {
    assert_eq!(check_erase(1024, 512), Err(FlashErrorKind::OutOfBounds));
    assert_eq!(check_erase(0, 7168), Err(FlashErrorKind::OutOfBounds));
    assert_eq!(check_erase(100, 1024), Err(FlashErrorKind::NotAligned));
    assert_eq!(erase_plan(1024, 3072).unwrap(), vec![SETTINGS_START + 1024, SETTINGS_START + 2048]);
    assert!(erase_plan(0, 0).unwrap().is_empty());
    let mut page = vec![0xffu8; PAGE_SIZE];
    page[0] = 0x34;
    page[1] = 0x12;
    page[1023] = 0x00;
    assert_eq!(program_plan(&page), vec![(0, 0x1234), (1022, 0x00ff)]);
}
