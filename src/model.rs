use vstd::prelude::*;

verus! {

/// Registration status of an entity, or of its secondary registration.
#[derive(Debug, Clone, Copy, PartialEq, Eq, Structural)]
pub enum Status {
    Active,
    Cancelled,
}

/// A calendar date as year, month and day.
#[derive(Debug, Clone, Copy, PartialEq, Eq, Structural)]
pub struct Date {
    pub year: i32,
    pub month: u32,
    pub day: u32,
}

/// The name under which an entity is registered.
#[derive(Debug, Clone)]
pub enum EntityName {
    Individual {
        title: Option<String>,
        given: Option<String>,
        given_2: Option<String>,
        family: String,
    },
    NonIndividual {
        name: String,
    },
}

/// A normalized record.
#[derive(Debug, Clone)]
pub struct ABNRecord {
    pub abn: String,
    pub status: Status,
    pub status_since: Date,
    pub last_updated: Date,
    pub entity_name: EntityName,
    pub entity_type: EntityType,
    pub business_names: Vec<String>,
    pub trade_names: Vec<String>,
    pub postcode: Option<String>,
    pub state: Option<String>,
    pub asic_number: Option<String>,
    pub gst_status: Option<Status>,
    pub gst_status_since: Option<Date>,
}

/// An `ABNRecord` with its lists seen as sequences.
pub struct RecordV {
    pub abn: String,
    pub status: Status,
    pub status_since: Date,
    pub last_updated: Date,
    pub entity_name: EntityName,
    pub entity_type: EntityType,
    pub business_names: Seq<String>,
    pub trade_names: Seq<String>,
    pub postcode: Option<String>,
    pub state: Option<String>,
    pub asic_number: Option<String>,
    pub gst_status: Option<Status>,
    pub gst_status_since: Option<Date>,
}

impl View for ABNRecord {
    type V = RecordV;

    open spec fn view(&self) -> RecordV {
        RecordV {
            abn: self.abn,
            status: self.status,
            status_since: self.status_since,
            last_updated: self.last_updated,
            entity_name: self.entity_name,
            entity_type: self.entity_type,
            business_names: self.business_names@,
            trade_names: self.trade_names@,
            postcode: self.postcode,
            state: self.state,
            asic_number: self.asic_number,
            gst_status: self.gst_status,
            gst_status_since: self.gst_status_since,
        }
    }
}

/// The closed set of entity classifications, by their three-letter code.
#[allow(non_camel_case_types, clippy::upper_case_acronyms)]
#[derive(Debug, Clone, Copy, PartialEq, Eq, Structural)]
pub enum EntityType {
    /// Individual/Sole Trader
    IND,
    /// Australian Private Company
    PRV,
    /// Family Partnership
    FPT,
    /// ATO Regulated Self-Managed Superannuation Fund
    SMF,
    /// Discretionary Investment Trust
    DIT,
    /// Discretionary Trading Trust
    DTT,
    /// Other Partnership
    PTR,
    /// Fixed Unit Trust
    FUT,
    /// Other Incorporated Entity
    OIE,
    /// Other trust
    TRT,
    /// Strata-title
    STR,
    /// Other Unincorporated Entity
    UIE,
    /// Discretionary Services Management Trust
    DST,
    /// Australian Public Company
    PUB,
    /// Deceased Estate
    DES,
    /// Fixed Trust
    FXT,
    /// Hybrid Trust
    HYT,
    /// State Government Entity
    SGE,
    /// Limited Partnership
    LPT,
    /// Unlisted Public Unit Trust
    PQT,
    /// Small APRA Fund
    SAF,
    /// Corporate Unit Trust
    CUT,
    /// Co-operative
    COP,
    /// APRA Regulated Non-Public Offer Fund
    NPF,
    /// Public Trading trust
    PTT,
    /// Cash Management Trust
    CMT,
    /// Non-Regulated Superannuation Fund
    NRF,
    /// Local Government Entity
    LGE,
    /// Commonwealth Government Entity
    CGE,
    /// Listed Public Unit Trust
    PUT,
    /// State Government Statutory Authority
    SGA,
    /// APRA Regulated Public Offer Fund
    POF,
    /// Territory Government Entity
    TGE,
    /// Pooled Superannuation Trust
    PST,
    /// State Government Other Incorporated Entity
    SCO,
    /// State Government Other Unincorporated Entity
    SCN,
    /// State Government Non-Regulated Super Fund
    SSS,
    /// Commonwealth Government Statutory Authority
    CGA,
    /// Approved Deposit Fund
    ADF,
    /// Commonwealth Government Non-Regulated Super Fund
    CSS,
    /// Local Government Statutory Authority
    LGA,
    /// State Government Fixed Unit Trust
    STU,
    /// State Government Private Company
    SCR,
    /// Territory Government Statutory Authority
    TGA,
    /// Local Government Non-Regulated Super Fund
    LSS,
    /// Commonwealth Government Other Unincorporated Entity
    CCN,
    /// State Government Discretionary Investment Trust
    STI,
    /// Super Fund
    SUP,
    /// Pooled Development Fund
    PDF,
    /// Local Government Other Unincorporated Entity
    LCN,
    /// State Government Public Company
    SCB,
    /// Local Government Private Company
    LCR,
    /// State Government Partnership
    SGP,
    /// Territory Government Fixed Trust
    TTF,
    /// State Government Company
    SGC,
    /// Commonwealth Government Other Incorporated Entity
    CCO,
    /// Local Government Company
    LGC,
    /// Commonwealth Government Private Company
    CCR,
    /// Commonwealth Government Public Company
    CCB,
    /// Territory Government Non-Regulated Super Fund
    TSS,
    /// Territory Government Other Incorporated Entity
    TCO,
    /// State Government Fixed Trust
    STF,
    /// Local Government Other Incorporated Entity
    LCO,
    /// Territory Government Discretionary Investment Trust
    TTI,
    /// State Government APRA Regulated Public Sector Scheme
    SSP,
    /// State Government Trust
    SGT,
    /// State Government Co-operative
    SCC,
    /// Local Government Discretionary Investment Trust
    LTI,
    /// Local Government APRA Regulated Public Sector Scheme
    LSP,
    /// Commonwealth Government Discretionary Investment Trust
    CTI,
    /// Corporate Collective Investment Vehicle (CCIV) Sub-Fund
    CSF,
    /// Commonwealth Government APRA Regulated Public Sector Fund
    CSA,
    /// Commonwealth Government Partnership
    CGP,
    /// Territory Government Fixed Unit Trust
    TTU,
    /// Territory Government Other Unincorporated Entity
    TCN,
    /// State Government Discretionary Services Management Trust
    STD,
    /// Local Government Discretionary Trading Trust
    LTT,
    /// Local Government Partnership
    LGP,
    /// Local Government Strata Title
    LCS,
    /// First Home Saver Accounts Trust
    FHS,
    /// Commonwealth Government Unlisted Public Unit Trust
    CTQ,
    /// Commonwealth Government Fixed Trust
    CTF,
    /// Commonwealth Government Discretionary Services Management Trust
    CTD,
    /// Commonwealth Government APRA Regulated Public Sector Scheme
    CSP,
    /// Commonwealth Government Company
    CGC,
}

/// The code is not one of the known entity classifications.
#[derive(Debug, Clone, Copy, PartialEq, Eq, Structural)]
pub struct EntityTypeParseError;

/// The classification that a code names, if any: a code is exactly three
/// characters, listed below.
pub open spec fn type_of_code(s: Seq<char>) -> Option<EntityType> {
    if s.len() != 3 {
        None
    } else {
        match (s[0], s[1], s[2]) {
            ('I', 'N', 'D') => Some(EntityType::IND),
            ('P', 'R', 'V') => Some(EntityType::PRV),
            ('F', 'P', 'T') => Some(EntityType::FPT),
            ('S', 'M', 'F') => Some(EntityType::SMF),
            ('D', 'I', 'T') => Some(EntityType::DIT),
            ('D', 'T', 'T') => Some(EntityType::DTT),
            ('P', 'T', 'R') => Some(EntityType::PTR),
            ('F', 'U', 'T') => Some(EntityType::FUT),
            ('O', 'I', 'E') => Some(EntityType::OIE),
            ('T', 'R', 'T') => Some(EntityType::TRT),
            ('S', 'T', 'R') => Some(EntityType::STR),
            ('U', 'I', 'E') => Some(EntityType::UIE),
            ('D', 'S', 'T') => Some(EntityType::DST),
            ('P', 'U', 'B') => Some(EntityType::PUB),
            ('D', 'E', 'S') => Some(EntityType::DES),
            ('F', 'X', 'T') => Some(EntityType::FXT),
            ('H', 'Y', 'T') => Some(EntityType::HYT),
            ('S', 'G', 'E') => Some(EntityType::SGE),
            ('L', 'P', 'T') => Some(EntityType::LPT),
            ('P', 'Q', 'T') => Some(EntityType::PQT),
            ('S', 'A', 'F') => Some(EntityType::SAF),
            ('C', 'U', 'T') => Some(EntityType::CUT),
            ('C', 'O', 'P') => Some(EntityType::COP),
            ('N', 'P', 'F') => Some(EntityType::NPF),
            ('P', 'T', 'T') => Some(EntityType::PTT),
            ('C', 'M', 'T') => Some(EntityType::CMT),
            ('N', 'R', 'F') => Some(EntityType::NRF),
            ('L', 'G', 'E') => Some(EntityType::LGE),
            ('C', 'G', 'E') => Some(EntityType::CGE),
            ('P', 'U', 'T') => Some(EntityType::PUT),
            ('S', 'G', 'A') => Some(EntityType::SGA),
            ('P', 'O', 'F') => Some(EntityType::POF),
            ('T', 'G', 'E') => Some(EntityType::TGE),
            ('P', 'S', 'T') => Some(EntityType::PST),
            ('S', 'C', 'O') => Some(EntityType::SCO),
            ('S', 'C', 'N') => Some(EntityType::SCN),
            ('S', 'S', 'S') => Some(EntityType::SSS),
            ('C', 'G', 'A') => Some(EntityType::CGA),
            ('A', 'D', 'F') => Some(EntityType::ADF),
            ('C', 'S', 'S') => Some(EntityType::CSS),
            ('L', 'G', 'A') => Some(EntityType::LGA),
            ('S', 'T', 'U') => Some(EntityType::STU),
            ('S', 'C', 'R') => Some(EntityType::SCR),
            ('T', 'G', 'A') => Some(EntityType::TGA),
            ('L', 'S', 'S') => Some(EntityType::LSS),
            ('C', 'C', 'N') => Some(EntityType::CCN),
            ('S', 'T', 'I') => Some(EntityType::STI),
            ('S', 'U', 'P') => Some(EntityType::SUP),
            ('P', 'D', 'F') => Some(EntityType::PDF),
            ('L', 'C', 'N') => Some(EntityType::LCN),
            ('S', 'C', 'B') => Some(EntityType::SCB),
            ('L', 'C', 'R') => Some(EntityType::LCR),
            ('S', 'G', 'P') => Some(EntityType::SGP),
            ('T', 'T', 'F') => Some(EntityType::TTF),
            ('S', 'G', 'C') => Some(EntityType::SGC),
            ('C', 'C', 'O') => Some(EntityType::CCO),
            ('L', 'G', 'C') => Some(EntityType::LGC),
            ('C', 'C', 'R') => Some(EntityType::CCR),
            ('C', 'C', 'B') => Some(EntityType::CCB),
            ('T', 'S', 'S') => Some(EntityType::TSS),
            ('T', 'C', 'O') => Some(EntityType::TCO),
            ('S', 'T', 'F') => Some(EntityType::STF),
            ('L', 'C', 'O') => Some(EntityType::LCO),
            ('T', 'T', 'I') => Some(EntityType::TTI),
            ('S', 'S', 'P') => Some(EntityType::SSP),
            ('S', 'G', 'T') => Some(EntityType::SGT),
            ('S', 'C', 'C') => Some(EntityType::SCC),
            ('L', 'T', 'I') => Some(EntityType::LTI),
            ('L', 'S', 'P') => Some(EntityType::LSP),
            ('C', 'T', 'I') => Some(EntityType::CTI),
            ('C', 'S', 'F') => Some(EntityType::CSF),
            ('C', 'S', 'A') => Some(EntityType::CSA),
            ('C', 'G', 'P') => Some(EntityType::CGP),
            ('T', 'T', 'U') => Some(EntityType::TTU),
            ('T', 'C', 'N') => Some(EntityType::TCN),
            ('S', 'T', 'D') => Some(EntityType::STD),
            ('L', 'T', 'T') => Some(EntityType::LTT),
            ('L', 'G', 'P') => Some(EntityType::LGP),
            ('L', 'C', 'S') => Some(EntityType::LCS),
            ('F', 'H', 'S') => Some(EntityType::FHS),
            ('C', 'T', 'Q') => Some(EntityType::CTQ),
            ('C', 'T', 'F') => Some(EntityType::CTF),
            ('C', 'T', 'D') => Some(EntityType::CTD),
            ('C', 'S', 'P') => Some(EntityType::CSP),
            ('C', 'G', 'C') => Some(EntityType::CGC),
            _ => None,
        }
    }
}

impl EntityTypeParseError {
    /// Human-readable description of the error.
    pub fn message(&self) -> (r: &'static str)
        ensures
            r@ == "unknown entity type"@,
    {
        "unknown entity type"
    }
}

impl EntityType {
    /// The three-letter code of this classification.
    #[verifier::rlimit(50)]
    pub fn code(&self) -> (r: &'static str)
        ensures
            type_of_code(r@) == Some(*self),
    {
        match self {
            EntityType::IND => {
                proof {
                    reveal_strlit("IND");
                }
                "IND"
            },
            EntityType::PRV => {
                proof {
                    reveal_strlit("PRV");
                }
                "PRV"
            },
            EntityType::FPT => {
                proof {
                    reveal_strlit("FPT");
                }
                "FPT"
            },
            EntityType::SMF => {
                proof {
                    reveal_strlit("SMF");
                }
                "SMF"
            },
            EntityType::DIT => {
                proof {
                    reveal_strlit("DIT");
                }
                "DIT"
            },
            EntityType::DTT => {
                proof {
                    reveal_strlit("DTT");
                }
                "DTT"
            },
            EntityType::PTR => {
                proof {
                    reveal_strlit("PTR");
                }
                "PTR"
            },
            EntityType::FUT => {
                proof {
                    reveal_strlit("FUT");
                }
                "FUT"
            },
            EntityType::OIE => {
                proof {
                    reveal_strlit("OIE");
                }
                "OIE"
            },
            EntityType::TRT => {
                proof {
                    reveal_strlit("TRT");
                }
                "TRT"
            },
            EntityType::STR => {
                proof {
                    reveal_strlit("STR");
                }
                "STR"
            },
            EntityType::UIE => {
                proof {
                    reveal_strlit("UIE");
                }
                "UIE"
            },
            EntityType::DST => {
                proof {
                    reveal_strlit("DST");
                }
                "DST"
            },
            EntityType::PUB => {
                proof {
                    reveal_strlit("PUB");
                }
                "PUB"
            },
            EntityType::DES => {
                proof {
                    reveal_strlit("DES");
                }
                "DES"
            },
            EntityType::FXT => {
                proof {
                    reveal_strlit("FXT");
                }
                "FXT"
            },
            EntityType::HYT => {
                proof {
                    reveal_strlit("HYT");
                }
                "HYT"
            },
            EntityType::SGE => {
                proof {
                    reveal_strlit("SGE");
                }
                "SGE"
            },
            EntityType::LPT => {
                proof {
                    reveal_strlit("LPT");
                }
                "LPT"
            },
            EntityType::PQT => {
                proof {
                    reveal_strlit("PQT");
                }
                "PQT"
            },
            EntityType::SAF => {
                proof {
                    reveal_strlit("SAF");
                }
                "SAF"
            },
            EntityType::CUT => {
                proof {
                    reveal_strlit("CUT");
                }
                "CUT"
            },
            EntityType::COP => {
                proof {
                    reveal_strlit("COP");
                }
                "COP"
            },
            EntityType::NPF => {
                proof {
                    reveal_strlit("NPF");
                }
                "NPF"
            },
            EntityType::PTT => {
                proof {
                    reveal_strlit("PTT");
                }
                "PTT"
            },
            EntityType::CMT => {
                proof {
                    reveal_strlit("CMT");
                }
                "CMT"
            },
            EntityType::NRF => {
                proof {
                    reveal_strlit("NRF");
                }
                "NRF"
            },
            EntityType::LGE => {
                proof {
                    reveal_strlit("LGE");
                }
                "LGE"
            },
            EntityType::CGE => {
                proof {
                    reveal_strlit("CGE");
                }
                "CGE"
            },
            EntityType::PUT => {
                proof {
                    reveal_strlit("PUT");
                }
                "PUT"
            },
            EntityType::SGA => {
                proof {
                    reveal_strlit("SGA");
                }
                "SGA"
            },
            EntityType::POF => {
                proof {
                    reveal_strlit("POF");
                }
                "POF"
            },
            EntityType::TGE => {
                proof {
                    reveal_strlit("TGE");
                }
                "TGE"
            },
            EntityType::PST => {
                proof {
                    reveal_strlit("PST");
                }
                "PST"
            },
            EntityType::SCO => {
                proof {
                    reveal_strlit("SCO");
                }
                "SCO"
            },
            EntityType::SCN => {
                proof {
                    reveal_strlit("SCN");
                }
                "SCN"
            },
            EntityType::SSS => {
                proof {
                    reveal_strlit("SSS");
                }
                "SSS"
            },
            EntityType::CGA => {
                proof {
                    reveal_strlit("CGA");
                }
                "CGA"
            },
            EntityType::ADF => {
                proof {
                    reveal_strlit("ADF");
                }
                "ADF"
            },
            EntityType::CSS => {
                proof {
                    reveal_strlit("CSS");
                }
                "CSS"
            },
            EntityType::LGA => {
                proof {
                    reveal_strlit("LGA");
                }
                "LGA"
            },
            EntityType::STU => {
                proof {
                    reveal_strlit("STU");
                }
                "STU"
            },
            EntityType::SCR => {
                proof {
                    reveal_strlit("SCR");
                }
                "SCR"
            },
            EntityType::TGA => {
                proof {
                    reveal_strlit("TGA");
                }
                "TGA"
            },
            EntityType::LSS => {
                proof {
                    reveal_strlit("LSS");
                }
                "LSS"
            },
            EntityType::CCN => {
                proof {
                    reveal_strlit("CCN");
                }
                "CCN"
            },
            EntityType::STI => {
                proof {
                    reveal_strlit("STI");
                }
                "STI"
            },
            EntityType::SUP => {
                proof {
                    reveal_strlit("SUP");
                }
                "SUP"
            },
            EntityType::PDF => {
                proof {
                    reveal_strlit("PDF");
                }
                "PDF"
            },
            EntityType::LCN => {
                proof {
                    reveal_strlit("LCN");
                }
                "LCN"
            },
            EntityType::SCB => {
                proof {
                    reveal_strlit("SCB");
                }
                "SCB"
            },
            EntityType::LCR => {
                proof {
                    reveal_strlit("LCR");
                }
                "LCR"
            },
            EntityType::SGP => {
                proof {
                    reveal_strlit("SGP");
                }
                "SGP"
            },
            EntityType::TTF => {
                proof {
                    reveal_strlit("TTF");
                }
                "TTF"
            },
            EntityType::SGC => {
                proof {
                    reveal_strlit("SGC");
                }
                "SGC"
            },
            EntityType::CCO => {
                proof {
                    reveal_strlit("CCO");
                }
                "CCO"
            },
            EntityType::LGC => {
                proof {
                    reveal_strlit("LGC");
                }
                "LGC"
            },
            EntityType::CCR => {
                proof {
                    reveal_strlit("CCR");
                }
                "CCR"
            },
            EntityType::CCB => {
                proof {
                    reveal_strlit("CCB");
                }
                "CCB"
            },
            EntityType::TSS => {
                proof {
                    reveal_strlit("TSS");
                }
                "TSS"
            },
            EntityType::TCO => {
                proof {
                    reveal_strlit("TCO");
                }
                "TCO"
            },
            EntityType::STF => {
                proof {
                    reveal_strlit("STF");
                }
                "STF"
            },
            EntityType::LCO => {
                proof {
                    reveal_strlit("LCO");
                }
                "LCO"
            },
            EntityType::TTI => {
                proof {
                    reveal_strlit("TTI");
                }
                "TTI"
            },
            EntityType::SSP => {
                proof {
                    reveal_strlit("SSP");
                }
                "SSP"
            },
            EntityType::SGT => {
                proof {
                    reveal_strlit("SGT");
                }
                "SGT"
            },
            EntityType::SCC => {
                proof {
                    reveal_strlit("SCC");
                }
                "SCC"
            },
            EntityType::LTI => {
                proof {
                    reveal_strlit("LTI");
                }
                "LTI"
            },
            EntityType::LSP => {
                proof {
                    reveal_strlit("LSP");
                }
                "LSP"
            },
            EntityType::CTI => {
                proof {
                    reveal_strlit("CTI");
                }
                "CTI"
            },
            EntityType::CSF => {
                proof {
                    reveal_strlit("CSF");
                }
                "CSF"
            },
            EntityType::CSA => {
                proof {
                    reveal_strlit("CSA");
                }
                "CSA"
            },
            EntityType::CGP => {
                proof {
                    reveal_strlit("CGP");
                }
                "CGP"
            },
            EntityType::TTU => {
                proof {
                    reveal_strlit("TTU");
                }
                "TTU"
            },
            EntityType::TCN => {
                proof {
                    reveal_strlit("TCN");
                }
                "TCN"
            },
            EntityType::STD => {
                proof {
                    reveal_strlit("STD");
                }
                "STD"
            },
            EntityType::LTT => {
                proof {
                    reveal_strlit("LTT");
                }
                "LTT"
            },
            EntityType::LGP => {
                proof {
                    reveal_strlit("LGP");
                }
                "LGP"
            },
            EntityType::LCS => {
                proof {
                    reveal_strlit("LCS");
                }
                "LCS"
            },
            EntityType::FHS => {
                proof {
                    reveal_strlit("FHS");
                }
                "FHS"
            },
            EntityType::CTQ => {
                proof {
                    reveal_strlit("CTQ");
                }
                "CTQ"
            },
            EntityType::CTF => {
                proof {
                    reveal_strlit("CTF");
                }
                "CTF"
            },
            EntityType::CTD => {
                proof {
                    reveal_strlit("CTD");
                }
                "CTD"
            },
            EntityType::CSP => {
                proof {
                    reveal_strlit("CSP");
                }
                "CSP"
            },
            EntityType::CGC => {
                proof {
                    reveal_strlit("CGC");
                }
                "CGC"
            },
        }
    }

    /// Resolves a three-letter code; any other text is an error.
    #[allow(clippy::should_implement_trait)]
    pub fn from_str(s: &str) -> (r: Result<EntityType, EntityTypeParseError>)
        ensures
            match type_of_code(s@) {
                Some(t) => r == Ok::<EntityType, EntityTypeParseError>(t),
                None => r is Err,
            },
    {
        if s.unicode_len() != 3 {
            return Err(EntityTypeParseError);
        }
        match (s.get_char(0), s.get_char(1), s.get_char(2)) {
            ('I', 'N', 'D') => Ok(EntityType::IND),
            ('P', 'R', 'V') => Ok(EntityType::PRV),
            ('F', 'P', 'T') => Ok(EntityType::FPT),
            ('S', 'M', 'F') => Ok(EntityType::SMF),
            ('D', 'I', 'T') => Ok(EntityType::DIT),
            ('D', 'T', 'T') => Ok(EntityType::DTT),
            ('P', 'T', 'R') => Ok(EntityType::PTR),
            ('F', 'U', 'T') => Ok(EntityType::FUT),
            ('O', 'I', 'E') => Ok(EntityType::OIE),
            ('T', 'R', 'T') => Ok(EntityType::TRT),
            ('S', 'T', 'R') => Ok(EntityType::STR),
            ('U', 'I', 'E') => Ok(EntityType::UIE),
            ('D', 'S', 'T') => Ok(EntityType::DST),
            ('P', 'U', 'B') => Ok(EntityType::PUB),
            ('D', 'E', 'S') => Ok(EntityType::DES),
            ('F', 'X', 'T') => Ok(EntityType::FXT),
            ('H', 'Y', 'T') => Ok(EntityType::HYT),
            ('S', 'G', 'E') => Ok(EntityType::SGE),
            ('L', 'P', 'T') => Ok(EntityType::LPT),
            ('P', 'Q', 'T') => Ok(EntityType::PQT),
            ('S', 'A', 'F') => Ok(EntityType::SAF),
            ('C', 'U', 'T') => Ok(EntityType::CUT),
            ('C', 'O', 'P') => Ok(EntityType::COP),
            ('N', 'P', 'F') => Ok(EntityType::NPF),
            ('P', 'T', 'T') => Ok(EntityType::PTT),
            ('C', 'M', 'T') => Ok(EntityType::CMT),
            ('N', 'R', 'F') => Ok(EntityType::NRF),
            ('L', 'G', 'E') => Ok(EntityType::LGE),
            ('C', 'G', 'E') => Ok(EntityType::CGE),
            ('P', 'U', 'T') => Ok(EntityType::PUT),
            ('S', 'G', 'A') => Ok(EntityType::SGA),
            ('P', 'O', 'F') => Ok(EntityType::POF),
            ('T', 'G', 'E') => Ok(EntityType::TGE),
            ('P', 'S', 'T') => Ok(EntityType::PST),
            ('S', 'C', 'O') => Ok(EntityType::SCO),
            ('S', 'C', 'N') => Ok(EntityType::SCN),
            ('S', 'S', 'S') => Ok(EntityType::SSS),
            ('C', 'G', 'A') => Ok(EntityType::CGA),
            ('A', 'D', 'F') => Ok(EntityType::ADF),
            ('C', 'S', 'S') => Ok(EntityType::CSS),
            ('L', 'G', 'A') => Ok(EntityType::LGA),
            ('S', 'T', 'U') => Ok(EntityType::STU),
            ('S', 'C', 'R') => Ok(EntityType::SCR),
            ('T', 'G', 'A') => Ok(EntityType::TGA),
            ('L', 'S', 'S') => Ok(EntityType::LSS),
            ('C', 'C', 'N') => Ok(EntityType::CCN),
            ('S', 'T', 'I') => Ok(EntityType::STI),
            ('S', 'U', 'P') => Ok(EntityType::SUP),
            ('P', 'D', 'F') => Ok(EntityType::PDF),
            ('L', 'C', 'N') => Ok(EntityType::LCN),
            ('S', 'C', 'B') => Ok(EntityType::SCB),
            ('L', 'C', 'R') => Ok(EntityType::LCR),
            ('S', 'G', 'P') => Ok(EntityType::SGP),
            ('T', 'T', 'F') => Ok(EntityType::TTF),
            ('S', 'G', 'C') => Ok(EntityType::SGC),
            ('C', 'C', 'O') => Ok(EntityType::CCO),
            ('L', 'G', 'C') => Ok(EntityType::LGC),
            ('C', 'C', 'R') => Ok(EntityType::CCR),
            ('C', 'C', 'B') => Ok(EntityType::CCB),
            ('T', 'S', 'S') => Ok(EntityType::TSS),
            ('T', 'C', 'O') => Ok(EntityType::TCO),
            ('S', 'T', 'F') => Ok(EntityType::STF),
            ('L', 'C', 'O') => Ok(EntityType::LCO),
            ('T', 'T', 'I') => Ok(EntityType::TTI),
            ('S', 'S', 'P') => Ok(EntityType::SSP),
            ('S', 'G', 'T') => Ok(EntityType::SGT),
            ('S', 'C', 'C') => Ok(EntityType::SCC),
            ('L', 'T', 'I') => Ok(EntityType::LTI),
            ('L', 'S', 'P') => Ok(EntityType::LSP),
            ('C', 'T', 'I') => Ok(EntityType::CTI),
            ('C', 'S', 'F') => Ok(EntityType::CSF),
            ('C', 'S', 'A') => Ok(EntityType::CSA),
            ('C', 'G', 'P') => Ok(EntityType::CGP),
            ('T', 'T', 'U') => Ok(EntityType::TTU),
            ('T', 'C', 'N') => Ok(EntityType::TCN),
            ('S', 'T', 'D') => Ok(EntityType::STD),
            ('L', 'T', 'T') => Ok(EntityType::LTT),
            ('L', 'G', 'P') => Ok(EntityType::LGP),
            ('L', 'C', 'S') => Ok(EntityType::LCS),
            ('F', 'H', 'S') => Ok(EntityType::FHS),
            ('C', 'T', 'Q') => Ok(EntityType::CTQ),
            ('C', 'T', 'F') => Ok(EntityType::CTF),
            ('C', 'T', 'D') => Ok(EntityType::CTD),
            ('C', 'S', 'P') => Ok(EntityType::CSP),
            ('C', 'G', 'C') => Ok(EntityType::CGC),
            _ => Err(EntityTypeParseError),
        }
    }
}

} // verus!
