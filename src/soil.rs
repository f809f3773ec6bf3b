use vstd::prelude::*;

verus! {

/// A calibration class of the capacitance moisture probe.
///
/// Each class selects one quadratic that turns a raw probe count into a
/// volumetric water content.
#[derive(Debug, Clone, Copy, PartialEq, Eq, Structural)]
pub enum SoilType {
    Sand,
    LoamySandA,
    LoamySandB,
    SandyLoamA,
    SandyLoamB,
    Loam,
    SiltLoam,
    Peat,
    Water,
    Universal,
    SandTMS1,
    LoamySandTMS1,
    SiltLoamTMS1,
}

/// The compact, lower-case identifier of a soil type (`"siltloam"`).
pub open spec fn machine_name(t: SoilType) -> Seq<char> {
    match t {
        SoilType::Sand => "sand"@,
        SoilType::LoamySandA => "loamysanda"@,
        SoilType::LoamySandB => "loamysandb"@,
        SoilType::SandyLoamA => "sandyloama"@,
        SoilType::SandyLoamB => "sandyloamb"@,
        SoilType::Loam => "loam"@,
        SoilType::SiltLoam => "siltloam"@,
        SoilType::Peat => "peat"@,
        SoilType::Water => "water"@,
        SoilType::Universal => "universal"@,
        SoilType::SandTMS1 => "sandtms1"@,
        SoilType::LoamySandTMS1 => "loamysandtms1"@,
        SoilType::SiltLoamTMS1 => "siltloamtms1"@,
    }
}

/// The human-readable name of a soil type (`"Silt Loam"`).
pub open spec fn display_name(t: SoilType) -> Seq<char> {
    match t {
        SoilType::Sand => "Sand"@,
        SoilType::LoamySandA => "Loamy Sand A"@,
        SoilType::LoamySandB => "Loamy Sand B"@,
        SoilType::SandyLoamA => "Sandy Loam A"@,
        SoilType::SandyLoamB => "Sandy Loam B"@,
        SoilType::Loam => "Loam"@,
        SoilType::SiltLoam => "Silt Loam"@,
        SoilType::Peat => "Peat"@,
        SoilType::Water => "Water"@,
        SoilType::Universal => "Universal"@,
        SoilType::SandTMS1 => "Sand TMS1"@,
        SoilType::LoamySandTMS1 => "Loamy Sand TMS1"@,
        SoilType::SiltLoamTMS1 => "Silt Loam TMS1"@,
    }
}

/// Maps an ASCII upper-case letter to its lower-case form; every other
/// character is left as it is.
pub open spec fn ascii_lower_char(c: char) -> char {
    if 'A' <= c && c <= 'Z' {
        ((c as u32) + 32) as char
    } else {
        c
    }
}

/// A text with every ASCII upper-case letter turned to lower case.
pub open spec fn ascii_lower(s: Seq<char>) -> Seq<char> {
    s.map_values(|c: char| ascii_lower_char(c))
}

/// The display name of a soil type, in lower case (`"silt loam"`).
pub open spec fn folded_display_name(t: SoilType) -> Seq<char> {
    ascii_lower(display_name(t))
}

/// Whether `s` spells soil type `t`: its compact identifier or its display
/// name, both in lower case.
pub open spec fn spells(s: Seq<char>, t: SoilType) -> bool {
    s == machine_name(t) || s == folded_display_name(t)
}

/// The soil type that a lower-case spelling names, if any.
pub open spec fn resolve(s: Seq<char>) -> Option<SoilType> {
    if exists|t: SoilType| spells(s, t) {
        Some(choose|t: SoilType| spells(s, t))
    } else {
        None
    }
}

/// The lower-case display names, letter by letter.
pub proof fn lemma_folded_display_names()
    ensures
        folded_display_name(SoilType::Sand) == "sand"@,
        folded_display_name(SoilType::LoamySandA) == "loamy sand a"@,
        folded_display_name(SoilType::LoamySandB) == "loamy sand b"@,
        folded_display_name(SoilType::SandyLoamA) == "sandy loam a"@,
        folded_display_name(SoilType::SandyLoamB) == "sandy loam b"@,
        folded_display_name(SoilType::Loam) == "loam"@,
        folded_display_name(SoilType::SiltLoam) == "silt loam"@,
        folded_display_name(SoilType::Peat) == "peat"@,
        folded_display_name(SoilType::Water) == "water"@,
        folded_display_name(SoilType::Universal) == "universal"@,
        folded_display_name(SoilType::SandTMS1) == "sand tms1"@,
        folded_display_name(SoilType::LoamySandTMS1) == "loamy sand tms1"@,
        folded_display_name(SoilType::SiltLoamTMS1) == "silt loam tms1"@,
{
    reveal_strlit("Sand");
    reveal_strlit("sand");
    assert(folded_display_name(SoilType::Sand) =~= "sand"@);
    reveal_strlit("Loamy Sand A");
    reveal_strlit("loamy sand a");
    assert(folded_display_name(SoilType::LoamySandA) =~= "loamy sand a"@);
    reveal_strlit("Loamy Sand B");
    reveal_strlit("loamy sand b");
    assert(folded_display_name(SoilType::LoamySandB) =~= "loamy sand b"@);
    reveal_strlit("Sandy Loam A");
    reveal_strlit("sandy loam a");
    assert(folded_display_name(SoilType::SandyLoamA) =~= "sandy loam a"@);
    reveal_strlit("Sandy Loam B");
    reveal_strlit("sandy loam b");
    assert(folded_display_name(SoilType::SandyLoamB) =~= "sandy loam b"@);
    reveal_strlit("Loam");
    reveal_strlit("loam");
    assert(folded_display_name(SoilType::Loam) =~= "loam"@);
    reveal_strlit("Silt Loam");
    reveal_strlit("silt loam");
    assert(folded_display_name(SoilType::SiltLoam) =~= "silt loam"@);
    reveal_strlit("Peat");
    reveal_strlit("peat");
    assert(folded_display_name(SoilType::Peat) =~= "peat"@);
    reveal_strlit("Water");
    reveal_strlit("water");
    assert(folded_display_name(SoilType::Water) =~= "water"@);
    reveal_strlit("Universal");
    reveal_strlit("universal");
    assert(folded_display_name(SoilType::Universal) =~= "universal"@);
    reveal_strlit("Sand TMS1");
    reveal_strlit("sand tms1");
    assert(folded_display_name(SoilType::SandTMS1) =~= "sand tms1"@);
    reveal_strlit("Loamy Sand TMS1");
    reveal_strlit("loamy sand tms1");
    assert(folded_display_name(SoilType::LoamySandTMS1) =~= "loamy sand tms1"@);
    reveal_strlit("Silt Loam TMS1");
    reveal_strlit("silt loam tms1");
    assert(folded_display_name(SoilType::SiltLoamTMS1) =~= "silt loam tms1"@);
}

/// No spelling names two soil types.
pub proof fn lemma_spellings_unambiguous(s: Seq<char>, t1: SoilType, t2: SoilType)
    requires
        spells(s, t1),
        spells(s, t2),
    ensures
        t1 == t2,
{
    lemma_folded_display_names();
    // Naming the length and the first fifteen letters of `s` lets the solver
    // tell the spellings apart position by position.
    let ghost letters = (
        s.len(),
        (s[0], s[1], s[2], s[3], s[4], s[5], s[6], s[7]),
        (s[8], s[9], s[10], s[11], s[12], s[13], s[14]),
    );
    reveal_strlit("loam");
    reveal_strlit("loamy sand a");
    reveal_strlit("loamy sand b");
    reveal_strlit("loamy sand tms1");
    reveal_strlit("loamysanda");
    reveal_strlit("loamysandb");
    reveal_strlit("loamysandtms1");
    reveal_strlit("peat");
    reveal_strlit("sand");
    reveal_strlit("sand tms1");
    reveal_strlit("sandtms1");
    reveal_strlit("sandy loam a");
    reveal_strlit("sandy loam b");
    reveal_strlit("sandyloama");
    reveal_strlit("sandyloamb");
    reveal_strlit("silt loam");
    reveal_strlit("silt loam tms1");
    reveal_strlit("siltloam");
    reveal_strlit("siltloamtms1");
    reveal_strlit("universal");
    reveal_strlit("water");
}

/// Each soil type stands in `SoilType::ALL`.
proof fn lemma_all_lists_every_type(t: SoilType)
    ensures
        exists|j: int| 0 <= j < 13 && SoilType::ALL@[j] == t,
{
    let j: int = match t {
        SoilType::Sand => 0,
        SoilType::LoamySandA => 1,
        SoilType::LoamySandB => 2,
        SoilType::SandyLoamA => 3,
        SoilType::SandyLoamB => 4,
        SoilType::Loam => 5,
        SoilType::SiltLoam => 6,
        SoilType::Peat => 7,
        SoilType::Water => 8,
        SoilType::Universal => 9,
        SoilType::SandTMS1 => 10,
        SoilType::LoamySandTMS1 => 11,
        SoilType::SiltLoamTMS1 => 12,
    };
    assert(SoilType::ALL@[j] == t);
}

impl SoilType {
    /// Every soil type, in the order of declaration.
    pub const ALL: [SoilType; 13] = [
        SoilType::Sand,
        SoilType::LoamySandA,
        SoilType::LoamySandB,
        SoilType::SandyLoamA,
        SoilType::SandyLoamB,
        SoilType::Loam,
        SoilType::SiltLoam,
        SoilType::Peat,
        SoilType::Water,
        SoilType::Universal,
        SoilType::SandTMS1,
        SoilType::LoamySandTMS1,
        SoilType::SiltLoamTMS1,
    ];

    /// The compact identifier, as accepted on the command line.
    #[must_use]
    pub fn as_str(&self) -> (r: &'static str)
        ensures
            r@ == machine_name(*self),
    {
        match self {
            SoilType::Sand => "sand",
            SoilType::LoamySandA => "loamysanda",
            SoilType::LoamySandB => "loamysandb",
            SoilType::SandyLoamA => "sandyloama",
            SoilType::SandyLoamB => "sandyloamb",
            SoilType::Loam => "loam",
            SoilType::SiltLoam => "siltloam",
            SoilType::Peat => "peat",
            SoilType::Water => "water",
            SoilType::Universal => "universal",
            SoilType::SandTMS1 => "sandtms1",
            SoilType::LoamySandTMS1 => "loamysandtms1",
            SoilType::SiltLoamTMS1 => "siltloamtms1",
        }
    }
    /// The human-readable name (`"Silt Loam"`).
    pub fn display_name(&self) -> (r: &'static str)
        ensures
            r@ == display_name(*self),
    {
        match self {
            SoilType::Sand => "Sand",
            SoilType::LoamySandA => "Loamy Sand A",
            SoilType::LoamySandB => "Loamy Sand B",
            SoilType::SandyLoamA => "Sandy Loam A",
            SoilType::SandyLoamB => "Sandy Loam B",
            SoilType::Loam => "Loam",
            SoilType::SiltLoam => "Silt Loam",
            SoilType::Peat => "Peat",
            SoilType::Water => "Water",
            SoilType::Universal => "Universal",
            SoilType::SandTMS1 => "Sand TMS1",
            SoilType::LoamySandTMS1 => "Loamy Sand TMS1",
            SoilType::SiltLoamTMS1 => "Silt Loam TMS1",
        }
    }

    /// The human-readable name in lower case (`"silt loam"`).
    fn folded_display_name(&self) -> (r: &'static str)
        ensures
            r@ == folded_display_name(*self),
    {
        proof {
            lemma_folded_display_names();
        }
        match self {
            SoilType::Sand => "sand",
            SoilType::LoamySandA => "loamy sand a",
            SoilType::LoamySandB => "loamy sand b",
            SoilType::SandyLoamA => "sandy loam a",
            SoilType::SandyLoamB => "sandy loam b",
            SoilType::Loam => "loam",
            SoilType::SiltLoam => "silt loam",
            SoilType::Peat => "peat",
            SoilType::Water => "water",
            SoilType::Universal => "universal",
            SoilType::SandTMS1 => "sand tms1",
            SoilType::LoamySandTMS1 => "loamy sand tms1",
            SoilType::SiltLoamTMS1 => "silt loam tms1",
        }
    }

    /// Whether `text` spells this soil type (see `spells`).
    fn is_spelled_by(&self, text: &String) -> (r: bool)
        ensures
            r == spells(text@, *self),
    {
        *text == String::from_str(self.as_str()) || *text == String::from_str(
            self.folded_display_name(),
        )
    }

    /// The soil type that a lower-case spelling names: the one whose compact
    /// identifier or lower-case display name it is, or `None`.
    pub fn from_spelling(s: &str) -> (r: Option<SoilType>)
        ensures
            r == resolve(s@),
    {
        let text = String::from_str(s);
        let mut i: usize = 0;
        while i < 13
            invariant
                0 <= i <= 13,
                text@ == s@,
                forall|j: int| 0 <= j < i ==> !spells(s@, #[trigger] Self::ALL@[j]),
            decreases 13 - i,
        {
            let t = Self::ALL[i];
            if t.is_spelled_by(&text) {
                proof {
                    assert forall|u: SoilType| spells(s@, u) implies u == t by {
                        lemma_spellings_unambiguous(s@, u, t);
                    }
                }
                return Some(t);
            }
            i = i + 1;
        }
        proof {
            assert forall|u: SoilType| !spells(s@, u) by {
                lemma_all_lists_every_type(u);
            }
        }
        None
    }
}

} // verus!
