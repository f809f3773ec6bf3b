use vstd::prelude::*;

use crate::soil::{display_name, machine_name, resolve, SoilType};

verus! {

/// What `str::to_lowercase` makes of a text.
pub uninterp spec fn lower_of(s: Seq<char>) -> Seq<char>;

/// Relies on `str::to_lowercase`: the lower-case form of `s`, which depends
/// on the characters of `s` alone.
#[verifier::external_body]
fn lowercase(s: &str) -> (r: String)
    ensures
        r@ == lower_of(s@),
{
    s.to_lowercase()
}

/// The message that names a text which spells no soil type.
pub open spec fn unknown_soil_message(s: Seq<char>) -> Seq<char> {
    "Unknown soil type: "@ + s
}

/// A soil type together with its two names.
#[derive(Debug)]
pub struct SoilTypeModel {
    pub id: SoilType,
    pub name: String,
    pub machine_name: String,
}

impl SoilTypeModel {
    /// Whether this record holds soil type `t` with its display name and its
    /// compact identifier.
    pub open spec fn describes(&self, t: SoilType) -> bool {
        &&& self.id == t
        &&& self.name@ == display_name(t)
        &&& self.machine_name@ == machine_name(t)
    }
}

impl From<SoilType> for SoilTypeModel {
    /// The record of `soil` with both of its names.
    fn from(soil: SoilType) -> (r: Self)
        ensures
            r.describes(soil),
    {
        SoilTypeModel {
            id: soil,
            name: String::from_str(soil.display_name()),
            machine_name: String::from_str(soil.as_str()),
        }
    }
}

// The record holds `String`s, which no spec function can build; the
// contract of `from` is its own `ensures`.
impl vstd::std_specs::convert::FromSpecImpl<SoilType> for SoilTypeModel {
    open spec fn obeys_from_spec() -> bool {
        false
    }

    open spec fn from_spec(v: SoilType) -> SoilTypeModel {
        arbitrary()
    }
}

impl<'a> TryFrom<&'a str> for SoilTypeModel {
    type Error = String;

    /// Resolves a soil type name given in any letter case: a compact
    /// identifier (`"siltloam"`) or a display name (`"Silt Loam"`).
    /// Fails with a message that repeats the text otherwise.
    fn try_from(s: &'a str) -> (r: Result<Self, Self::Error>)
        ensures
            match r {
                Ok(m) => resolve(lower_of(s@)) == Some(m.id) && m.describes(m.id),
                Err(e) => resolve(lower_of(s@)) is None && e@ == unknown_soil_message(s@),
            },
    {
        let folded = lowercase(s);
        match SoilType::from_spelling(folded.as_str()) {
            Some(t) => Ok(SoilTypeModel::from(t)),
            None => {
                let mut message = String::from_str("Unknown soil type: ");
                message.append(s);
                Err(message)
            },
        }
    }
}

// As for `From`: the contract of `try_from` is its own `ensures`.
impl<'a> vstd::std_specs::convert::TryFromSpecImpl<&'a str> for SoilTypeModel {
    open spec fn obeys_try_from_spec() -> bool {
        false
    }

    open spec fn try_from_spec(v: &'a str) -> Result<SoilTypeModel, String> {
        arbitrary()
    }
}

} // verus!
