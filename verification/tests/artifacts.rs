use elf::types::{SectionHeader, SHF_NONE, SHT_PROGBITS};
use mir_cfg::artifact::{mir_section, MIR_SECTION};

fn section(name: &str, data: Vec<u8>) -> elf::Section {
    elf::Section {
        shdr: SectionHeader {
            name: String::from(name),
            shtype: SHT_PROGBITS,
            flags: SHF_NONE,
            addr: 0,
            offset: 0,
            size: data.len() as u64,
            link: 0,
            info: 0,
            addralign: 1,
            entsize: 0,
        },
        data,
    }
}

#[test]
fn the_section_name() {
    assert_eq!(MIR_SECTION, ".yk_mir_cfg");
}

#[test]
fn finds_the_section_by_its_name() {
    let mut file = elf::File::new();
    file.sections.push(section(".text", vec![1, 2, 3]));
    file.sections.push(section(".yk_mir_cfg", vec![9, 8, 7, 6]));
    file.sections.push(section(".data", vec![4]));
    assert_eq!(mir_section(&file), Some(&vec![9u8, 8, 7, 6]));
}

#[test]
fn takes_the_first_of_two_sections_with_the_name() {
    let mut file = elf::File::new();
    file.sections.push(section(".yk_mir_cfg", vec![1]));
    file.sections.push(section(".yk_mir_cfg", vec![2]));
    assert_eq!(mir_section(&file), Some(&vec![1u8]));
}

#[test]
fn an_artifact_without_the_section() {
    let mut file = elf::File::new();
    assert_eq!(mir_section(&file), None);
    file.sections.push(section(".text", vec![1, 2, 3]));
    file.sections.push(section(".yk_mir_cfg2", vec![5]));
    file.sections.push(section("yk_mir_cfg", vec![5]));
    assert_eq!(mir_section(&file), None);
}

#[test]
fn an_empty_section_is_still_found() {
    let mut file = elf::File::new();
    file.sections.push(section(".yk_mir_cfg", vec![]));
    assert_eq!(mir_section(&file), Some(&Vec::<u8>::new()));
}
