//! Where the records are found inside a compiled artifact.

use vstd::prelude::*;

verus! {

/// The name of the section that holds the encoded function bodies.
pub const MIR_SECTION: &'static str = ".yk_mir_cfg";

/// A parsed ELF file, as the `elf` crate holds it.
#[verifier::external_type_specification]
#[verifier::external_body]
pub struct ExElfFile(elf::File);

/// The sections of a parsed ELF file in the order of its section headers:
/// each section's name and its bytes.
pub uninterp spec fn sections_of(file: elf::File) -> Seq<(Seq<char>, Seq<u8>)>;

/// The bytes of the first of `sections` that is called `name`, if there is
/// one.
pub open spec fn first_section(sections: Seq<(Seq<char>, Seq<u8>)>, name: Seq<char>) -> Option<
    Seq<u8>,
>
    decreases sections.len(),
{
    if sections.len() == 0 {
        None
    } else if sections.first().0 == name {
        Some(sections.first().1)
    } else {
        first_section(sections.drop_first(), name)
    }
}

/// What a borrowed byte vector holds, if it is there.
pub open spec fn bytes_of(data: Option<&Vec<u8>>) -> Option<Seq<u8>> {
    match data {
        Some(bytes) => Some(bytes@),
        None => None,
    }
}

/// A section is found exactly if some section has the name, and then no
/// section before the one found has it.
pub proof fn lemma_first_section(sections: Seq<(Seq<char>, Seq<u8>)>, name: Seq<char>)
    ensures
        match first_section(sections, name) {
            Some(bytes) => exists|i: int|
                {
                    &&& 0 <= i < sections.len()
                    &&& (#[trigger] sections[i]).0 == name
                    &&& sections[i].1 == bytes
                    &&& forall|j: int| 0 <= j < i ==> (#[trigger] sections[j]).0 != name
                },
            None => forall|j: int| 0 <= j < sections.len() ==> (#[trigger] sections[j]).0 != name,
        },
    decreases sections.len(),
{
    if sections.len() > 0 && sections.first().0 != name {
        let rest = sections.drop_first();
        lemma_first_section(rest, name);
        match first_section(rest, name) {
            Some(bytes) => {
                let i = choose|i: int|
                    {
                        &&& 0 <= i < rest.len()
                        &&& (#[trigger] rest[i]).0 == name
                        &&& rest[i].1 == bytes
                        &&& forall|j: int| 0 <= j < i ==> (#[trigger] rest[j]).0 != name
                    };
                assert(sections[i + 1] == rest[i]);
                assert forall|j: int| 0 <= j < i + 1 implies (#[trigger] sections[j]).0
                    != name by {
                    if j > 0 {
                        assert(sections[j] == rest[j - 1]);
                    }
                }
            },
            None => {
                assert forall|j: int| 0 <= j < sections.len() implies (#[trigger] sections[j]).0
                    != name by {
                    if j > 0 {
                        assert(sections[j] == rest[j - 1]);
                    }
                }
            },
        }
    } else if sections.len() > 0 {
        assert(sections[0].0 == name);
    }
}

/// Calls `elf::File::get_section`, which walks the sections in order and
/// stops at the first whose header carries the name asked for. The result
/// is that section's bytes, and `None` where no section has the name.
#[verifier::external_body]
fn section_data<'a>(file: &'a elf::File, name: &str) -> (data: Option<&'a Vec<u8>>)
    ensures
        bytes_of(data) == first_section(sections_of(*file), name@),
{
    file.get_section(name).map(|section| &section.data)
}

/// The encoded function bodies inside `file`: the bytes of the first
/// section called `MIR_SECTION`, and `None` if the artifact has no such
/// section.
pub fn mir_section<'a>(file: &'a elf::File) -> (data: Option<&'a Vec<u8>>)
    ensures
        bytes_of(data) == first_section(sections_of(*file), MIR_SECTION@),
{
    section_data(file, MIR_SECTION)
}

} // verus!
