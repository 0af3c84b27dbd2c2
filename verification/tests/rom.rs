use nes_rust::rom::{Rom, CHR_ROM_PAGE_SIZE, PRG_ROM_PAGE_SIZE};

fn get_test_raw() -> Vec<u8> {
    let mut vec = vec!(
        0x4E, 0x45, 0x53, 0x1A,     // NES header tag
        1, 1,                       // PGR and CHR Rom size
        0x0, 0x0,                   // Control bytes 1 and 2
        0, 0, 0, 0, 0, 0, 0, 0,     // padding bytes to get to 16 bit header
    );
    // populate the prg and chr rom with 0s
    for _ in 0..(PRG_ROM_PAGE_SIZE + CHR_ROM_PAGE_SIZE) {
        vec.push(0);
    }

    vec
}

#[test]
fn header_incorrect() {
    let tester: Vec<u8> = vec!(1, 1, 1, 1);
    let result = Rom::new(&tester);
    match result {
        Ok(_) => panic!("Should have been an error"),
        Err(str) => assert_eq!(str, "File is not in the iNES file format")
    }
}

#[test]
fn ines_ver_incorrect() {
    let mut tester = get_test_raw();
    tester[7] = 0b0000_1000;
    match Rom::new(&tester) {
        Ok(_) => panic!("Should have been an error"),
        Err(str) => assert_eq!(str, "iNES2.0 format is not supported"),
    }
}

#[test]
fn positive_test_case() {
    let tester = get_test_raw();
    match Rom::new(&tester) {
        Ok(_) => (),
        Err(_) => panic!("Should have built"),
    }
}
