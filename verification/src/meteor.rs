//! Meteor showers and individual meteor sightings.

use vstd::prelude::*;

verus! {

/// A single meteor sighting: the shower it belongs to and its magnitude in
/// tenths, so a magnitude of 3.5 is the value 35.
#[derive(Copy, Clone, Debug, PartialEq, Eq, Structural)]
pub struct Meteor {
    pub shower: Shower,
    pub magnitude: i32,
}

/// A named recurring meteor source, or the sporadic background catch-all.
#[derive(Copy, Clone, Debug, PartialEq, Eq, Hash, Structural)]
pub enum Shower {
    Quadrantids,
    Lyrids,
    EtaAquarids,
    JuneBootids,
    DeltaAquariids,
    AlphaCapricornids,
    Perseids,
    KappaCygnids,
    AlphaAurigids,
    SeptemberEpsilonPerseids,
    OctoberCameloparalids,
    Draconids,
    EpsilonGeminids,
    Orionids,
    SouthernTaurids,
    NorthernTaurids,
    Leonids,
    DecemberAlphaDraconids,
    Monocerotids,
    SigmaHydrids,
    Geminids,
    DecemberLeoMinorids,
    ComaBerenicids,
    Ursids,
    Antihelion,
    Sporadic,
}

impl Shower {
    /// The three-letter International Meteor Organization code of the shower.
    pub open spec fn imo_code_spec(self) -> Seq<char> {
        match self {
            Shower::Quadrantids => "QUA"@,
            Shower::Lyrids => "LYR"@,
            Shower::EtaAquarids => "ETA"@,
            Shower::JuneBootids => "JBO"@,
            Shower::DeltaAquariids => "SDA"@,
            Shower::AlphaCapricornids => "CAP"@,
            Shower::Perseids => "PER"@,
            Shower::KappaCygnids => "KCG"@,
            Shower::AlphaAurigids => "AUR"@,
            Shower::SeptemberEpsilonPerseids => "SPE"@,
            Shower::OctoberCameloparalids => "OCT"@,
            Shower::Draconids => "DRA"@,
            Shower::EpsilonGeminids => "EGE"@,
            Shower::Orionids => "ORI"@,
            Shower::SouthernTaurids => "STA"@,
            Shower::NorthernTaurids => "NTA"@,
            Shower::Leonids => "LEO"@,
            Shower::DecemberAlphaDraconids => "DAD"@,
            Shower::Monocerotids => "MON"@,
            Shower::SigmaHydrids => "HYD"@,
            Shower::Geminids => "GEM"@,
            Shower::DecemberLeoMinorids => "DLM"@,
            Shower::ComaBerenicids => "COM"@,
            Shower::Ursids => "URS"@,
            Shower::Antihelion => "ANT"@,
            Shower::Sporadic => "SPO"@,
        }
    }

    /// The three-letter IMO code under which the shower is reported.
    pub fn to_imo_code(&self) -> (r: &'static str)
        ensures
            r@ == self.imo_code_spec(),
    {
        match self {
            Shower::Quadrantids => "QUA",
            Shower::Lyrids => "LYR",
            Shower::EtaAquarids => "ETA",
            Shower::JuneBootids => "JBO",
            Shower::DeltaAquariids => "SDA",
            Shower::AlphaCapricornids => "CAP",
            Shower::Perseids => "PER",
            Shower::KappaCygnids => "KCG",
            Shower::AlphaAurigids => "AUR",
            Shower::SeptemberEpsilonPerseids => "SPE",
            Shower::OctoberCameloparalids => "OCT",
            Shower::Draconids => "DRA",
            Shower::EpsilonGeminids => "EGE",
            Shower::Orionids => "ORI",
            Shower::SouthernTaurids => "STA",
            Shower::NorthernTaurids => "NTA",
            Shower::Leonids => "LEO",
            Shower::DecemberAlphaDraconids => "DAD",
            Shower::Monocerotids => "MON",
            Shower::SigmaHydrids => "HYD",
            Shower::Geminids => "GEM",
            Shower::DecemberLeoMinorids => "DLM",
            Shower::ComaBerenicids => "COM",
            Shower::Ursids => "URS",
            Shower::Antihelion => "ANT",
            Shower::Sporadic => "SPO",
        }
    }
}

} // verus!
