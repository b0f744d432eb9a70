//! Sales-related classification enums shared by the entity records, and the
//! option-tag shapes that listing pages are built from.

use vstd::prelude::*;

verus! {

/// Stage of the sales funnel that a contact is in.
#[derive(Clone, Copy, Debug, PartialEq, Eq, Structural)]
pub enum SalesFunnel {
    LOST,
    PROSPECT,
    RESEARCH,
    NEED,
    QUOTE,
    NEGOTIATION,
    WIN,
}

impl SalesFunnel {
    /// The label shown for this funnel stage.
    pub open spec fn spec_text(self) -> Seq<char> {
        match self {
            SalesFunnel::LOST => "Perdido 0%"@,
            SalesFunnel::PROSPECT => "Prospecto 0%"@,
            SalesFunnel::RESEARCH => "Investigación 10%"@,
            SalesFunnel::NEED => "Necesidad 20%"@,
            SalesFunnel::QUOTE => "Cotización 50%"@,
            SalesFunnel::NEGOTIATION => "Negociación 80%"@,
            SalesFunnel::WIN => "Ganado 100%"@,
        }
    }

    /// Returns the label shown for this funnel stage.
    pub fn text(&self) -> (r: String)
        ensures
            r@ == self.spec_text(),
    {
        match self {
            SalesFunnel::LOST => "Perdido 0%".to_owned(),
            SalesFunnel::PROSPECT => "Prospecto 0%".to_owned(),
            SalesFunnel::RESEARCH => "Investigación 10%".to_owned(),
            SalesFunnel::NEED => "Necesidad 20%".to_owned(),
            SalesFunnel::QUOTE => "Cotización 50%".to_owned(),
            SalesFunnel::NEGOTIATION => "Negociación 80%".to_owned(),
            SalesFunnel::WIN => "Ganado 100%".to_owned(),
        }
    }
}

/// Service that can be offered to a contact.
#[derive(Clone, Copy, Debug, PartialEq, Eq, Structural)]
pub enum ServicesOffered {
    BRANDING,
    WEBSERVICES,
    DIGITALSTRATEGY,
    ATTRACTIONOFNEWCLIENTS,
    SALESMANAGEMENT,
}

impl ServicesOffered {
    /// The label shown for this service.
    pub open spec fn spec_text(self) -> Seq<char> {
        match self {
            ServicesOffered::BRANDING => "BRANDING"@,
            ServicesOffered::WEBSERVICES => "WEB SERVICES"@,
            ServicesOffered::DIGITALSTRATEGY => "DIGITAL STRATEGY"@,
            ServicesOffered::ATTRACTIONOFNEWCLIENTS => "ATTRACTION OF NEW CLIENTS"@,
            ServicesOffered::SALESMANAGEMENT => "SALES MANAGEMENT"@,
        }
    }

    /// Returns the label shown for this service.
    pub fn text(&self) -> (r: String)
        ensures
            r@ == self.spec_text(),
    {
        match self {
            ServicesOffered::BRANDING => "BRANDING".to_owned(),
            ServicesOffered::WEBSERVICES => "WEB SERVICES".to_owned(),
            ServicesOffered::DIGITALSTRATEGY => "DIGITAL STRATEGY".to_owned(),
            ServicesOffered::ATTRACTIONOFNEWCLIENTS => "ATTRACTION OF NEW CLIENTS".to_owned(),
            ServicesOffered::SALESMANAGEMENT => "SALES MANAGEMENT".to_owned(),
        }
    }
}

/// Level of schooling that a school entity covers.
#[derive(Clone, Copy, Debug, PartialEq, Eq, Structural)]
pub enum SchoolLevel {
    NURSERY,
    KINDER,
    ELEMENTARY,
    MIDDLESCHOOL,
    HIGHSCHOOL,
    TECHNICALSCHOOL,
    UNIVERSITY,
}

impl SchoolLevel {
    /// The label shown for this school level.
    pub open spec fn spec_text(self) -> Seq<char> {
        match self {
            SchoolLevel::NURSERY => "Guardería"@,
            SchoolLevel::KINDER => "Kinder"@,
            SchoolLevel::ELEMENTARY => "Primaria"@,
            SchoolLevel::MIDDLESCHOOL => "Secundaria"@,
            SchoolLevel::HIGHSCHOOL => "Preparatoria"@,
            SchoolLevel::TECHNICALSCHOOL => "Escuela Técnica"@,
            SchoolLevel::UNIVERSITY => "Universidad"@,
        }
    }

    /// Returns the label shown for this school level.
    pub fn text(&self) -> (r: String)
        ensures
            r@ == self.spec_text(),
    {
        match self {
            SchoolLevel::NURSERY => "Guardería".to_owned(),
            SchoolLevel::KINDER => "Kinder".to_owned(),
            SchoolLevel::ELEMENTARY => "Primaria".to_owned(),
            SchoolLevel::MIDDLESCHOOL => "Secundaria".to_owned(),
            SchoolLevel::HIGHSCHOOL => "Preparatoria".to_owned(),
            SchoolLevel::TECHNICALSCHOOL => "Escuela Técnica".to_owned(),
            SchoolLevel::UNIVERSITY => "Universidad".to_owned(),
        }
    }
}

/// An option tag for one funnel stage, as a selection control shows it.
pub struct SalesFunnelTag {
    pub value: SalesFunnel,
    pub text: String,
    pub selected: bool,
    pub icon: Option<String>,
    pub css: Option<String>,
}

/// An option tag for one offered service.
pub struct ServicesOfferedTag {
    pub value: ServicesOffered,
    pub text: String,
    pub selected: bool,
    pub icon: Option<String>,
}

/// An option tag for one school level.
pub struct SchoolLevelTag {
    pub value: SchoolLevel,
    pub text: String,
    pub selected: bool,
}

/// The body of a soft-delete patch: just the flag.
pub struct IsDeleted {
    pub deleted: bool,
}

/// A page section together with the option tags that its selection controls
/// are built from.
pub struct GeneralTags<T> {
    pub section: T,
    pub funnel_tag: Vec<SalesFunnelTag>,
    pub services_tag: Vec<ServicesOfferedTag>,
}

} // verus!
