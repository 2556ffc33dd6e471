//! Closed country and language code sets with case-insensitive parsing and
//! canonical wire serialization.
use vstd::prelude::*;

use crate::text::{eq_lower, spec_lower};

verus! {

/// Country codes accepted by the upstream search service, plus the
/// worldwide sentinel `ALL`.
#[derive(Clone, Copy, Debug, PartialEq, Eq, Structural)]
pub enum CountryCode {
    ALL,
    AR,
    AU,
    AT,
    BE,
    BR,
    CA,
    CL,
    DK,
    FI,
    FR,
    DE,
    HK,
    IN,
    ID,
    IT,
    JP,
    KR,
    MY,
    MX,
    NL,
    NZ,
    NO,
    CN,
    PL,
    PT,
    PH,
    RU,
    SA,
    ZA,
    ES,
    SE,
    CH,
    TW,
    TR,
    GB,
    US,
}

/// Which closed code set an input failed to match.
#[derive(Clone, Copy, Debug, PartialEq, Eq, Structural)]
pub enum CodeKind {
    Country,
    Language,
}

/// Rejection of an input that matches no code of the closed set; carries the
/// input in its original case, for diagnostics.
#[derive(Debug)]
pub struct UnknownCodeError {
    pub kind: CodeKind,
    pub input: String,
}

/// The diagnostic message of an [`UnknownCodeError`]: a fixed prefix naming
/// the code set, followed by the rejected input itself.
pub open spec fn spec_unknown_code_message(kind: CodeKind, input: Seq<char>) -> Seq<char> {
    match kind {
        CodeKind::Country => "Unknown country code: "@ + input,
        CodeKind::Language => "Unknown language code: "@ + input,
    }
}

impl UnknownCodeError {
    /// The diagnostic message, always ending in the rejected input.
    pub fn message(&self) -> (r: String)
        ensures
            r@ == spec_unknown_code_message(self.kind, self.input@),
    {
        let prefix: &str = match self.kind {
            CodeKind::Country => "Unknown country code: ",
            CodeKind::Language => "Unknown language code: ",
        };
        let mut r = prefix.to_owned();
        r.append(self.input.as_str());
        r
    }
}

/// The canonical wire form of a country code: its name in lower case.
pub open spec fn country_token(c: CountryCode) -> Seq<char> {
    match c {
        CountryCode::ALL => "all"@,
        CountryCode::AR => "ar"@,
        CountryCode::AU => "au"@,
        CountryCode::AT => "at"@,
        CountryCode::BE => "be"@,
        CountryCode::BR => "br"@,
        CountryCode::CA => "ca"@,
        CountryCode::CL => "cl"@,
        CountryCode::DK => "dk"@,
        CountryCode::FI => "fi"@,
        CountryCode::FR => "fr"@,
        CountryCode::DE => "de"@,
        CountryCode::HK => "hk"@,
        CountryCode::IN => "in"@,
        CountryCode::ID => "id"@,
        CountryCode::IT => "it"@,
        CountryCode::JP => "jp"@,
        CountryCode::KR => "kr"@,
        CountryCode::MY => "my"@,
        CountryCode::MX => "mx"@,
        CountryCode::NL => "nl"@,
        CountryCode::NZ => "nz"@,
        CountryCode::NO => "no"@,
        CountryCode::CN => "cn"@,
        CountryCode::PL => "pl"@,
        CountryCode::PT => "pt"@,
        CountryCode::PH => "ph"@,
        CountryCode::RU => "ru"@,
        CountryCode::SA => "sa"@,
        CountryCode::ZA => "za"@,
        CountryCode::ES => "es"@,
        CountryCode::SE => "se"@,
        CountryCode::CH => "ch"@,
        CountryCode::TW => "tw"@,
        CountryCode::TR => "tr"@,
        CountryCode::GB => "gb"@,
        CountryCode::US => "us"@,
    }
}

impl core::default::Default for CountryCode {
    /// The documented default country.
    fn default() -> (r: Self)
        ensures
            r == CountryCode::US,
    {
        CountryCode::US
    }
}

impl CountryCode {
    /// Case-insensitive exact match against the closed country set; an
    /// unknown input is rejected with a message that carries it unmodified.
    pub fn parse(s: &str) -> (r: Result<CountryCode, UnknownCodeError>)
        ensures
            match r {
                Ok(c) => spec_lower(s@) == country_token(c),
                Err(e) => {
                    &&& forall|c: CountryCode| spec_lower(s@) != country_token(c)
                    &&& e.kind == CodeKind::Country
                    &&& e.input@ == s@
                },
            },
    {
        if eq_lower(s, "all") {
            Ok(CountryCode::ALL)
        } else if eq_lower(s, "ar") {
            Ok(CountryCode::AR)
        } else if eq_lower(s, "au") {
            Ok(CountryCode::AU)
        } else if eq_lower(s, "at") {
            Ok(CountryCode::AT)
        } else if eq_lower(s, "be") {
            Ok(CountryCode::BE)
        } else if eq_lower(s, "br") {
            Ok(CountryCode::BR)
        } else if eq_lower(s, "ca") {
            Ok(CountryCode::CA)
        } else if eq_lower(s, "cl") {
            Ok(CountryCode::CL)
        } else if eq_lower(s, "dk") {
            Ok(CountryCode::DK)
        } else if eq_lower(s, "fi") {
            Ok(CountryCode::FI)
        } else if eq_lower(s, "fr") {
            Ok(CountryCode::FR)
        } else if eq_lower(s, "de") {
            Ok(CountryCode::DE)
        } else if eq_lower(s, "hk") {
            Ok(CountryCode::HK)
        } else if eq_lower(s, "in") {
            Ok(CountryCode::IN)
        } else if eq_lower(s, "id") {
            Ok(CountryCode::ID)
        } else if eq_lower(s, "it") {
            Ok(CountryCode::IT)
        } else if eq_lower(s, "jp") {
            Ok(CountryCode::JP)
        } else if eq_lower(s, "kr") {
            Ok(CountryCode::KR)
        } else if eq_lower(s, "my") {
            Ok(CountryCode::MY)
        } else if eq_lower(s, "mx") {
            Ok(CountryCode::MX)
        } else if eq_lower(s, "nl") {
            Ok(CountryCode::NL)
        } else if eq_lower(s, "nz") {
            Ok(CountryCode::NZ)
        } else if eq_lower(s, "no") {
            Ok(CountryCode::NO)
        } else if eq_lower(s, "cn") {
            Ok(CountryCode::CN)
        } else if eq_lower(s, "pl") {
            Ok(CountryCode::PL)
        } else if eq_lower(s, "pt") {
            Ok(CountryCode::PT)
        } else if eq_lower(s, "ph") {
            Ok(CountryCode::PH)
        } else if eq_lower(s, "ru") {
            Ok(CountryCode::RU)
        } else if eq_lower(s, "sa") {
            Ok(CountryCode::SA)
        } else if eq_lower(s, "za") {
            Ok(CountryCode::ZA)
        } else if eq_lower(s, "es") {
            Ok(CountryCode::ES)
        } else if eq_lower(s, "se") {
            Ok(CountryCode::SE)
        } else if eq_lower(s, "ch") {
            Ok(CountryCode::CH)
        } else if eq_lower(s, "tw") {
            Ok(CountryCode::TW)
        } else if eq_lower(s, "tr") {
            Ok(CountryCode::TR)
        } else if eq_lower(s, "gb") {
            Ok(CountryCode::GB)
        } else if eq_lower(s, "us") {
            Ok(CountryCode::US)
        } else {
            Err(UnknownCodeError { kind: CodeKind::Country, input: s.to_owned() })
        }
    }

    /// The canonical wire form: the code in lower case.
    pub fn to_wire_string(&self) -> (r: String)
        ensures
            r@ == country_token(*self),
    {
        let r: &str = match *self {
            CountryCode::ALL => "all",
            CountryCode::AR => "ar",
            CountryCode::AU => "au",
            CountryCode::AT => "at",
            CountryCode::BE => "be",
            CountryCode::BR => "br",
            CountryCode::CA => "ca",
            CountryCode::CL => "cl",
            CountryCode::DK => "dk",
            CountryCode::FI => "fi",
            CountryCode::FR => "fr",
            CountryCode::DE => "de",
            CountryCode::HK => "hk",
            CountryCode::IN => "in",
            CountryCode::ID => "id",
            CountryCode::IT => "it",
            CountryCode::JP => "jp",
            CountryCode::KR => "kr",
            CountryCode::MY => "my",
            CountryCode::MX => "mx",
            CountryCode::NL => "nl",
            CountryCode::NZ => "nz",
            CountryCode::NO => "no",
            CountryCode::CN => "cn",
            CountryCode::PL => "pl",
            CountryCode::PT => "pt",
            CountryCode::PH => "ph",
            CountryCode::RU => "ru",
            CountryCode::SA => "sa",
            CountryCode::ZA => "za",
            CountryCode::ES => "es",
            CountryCode::SE => "se",
            CountryCode::CH => "ch",
            CountryCode::TW => "tw",
            CountryCode::TR => "tr",
            CountryCode::GB => "gb",
            CountryCode::US => "us",
        };
        r.to_owned()
    }
}

/// The country code whose wire form is the (already lower-cased) `t`, if any.
spec fn country_of_lower(t: Seq<char>) -> Option<CountryCode> {
    if t == "all"@ {
        Some(CountryCode::ALL)
    } else if t == "ar"@ {
        Some(CountryCode::AR)
    } else if t == "au"@ {
        Some(CountryCode::AU)
    } else if t == "at"@ {
        Some(CountryCode::AT)
    } else if t == "be"@ {
        Some(CountryCode::BE)
    } else if t == "br"@ {
        Some(CountryCode::BR)
    } else if t == "ca"@ {
        Some(CountryCode::CA)
    } else if t == "cl"@ {
        Some(CountryCode::CL)
    } else if t == "dk"@ {
        Some(CountryCode::DK)
    } else if t == "fi"@ {
        Some(CountryCode::FI)
    } else if t == "fr"@ {
        Some(CountryCode::FR)
    } else if t == "de"@ {
        Some(CountryCode::DE)
    } else if t == "hk"@ {
        Some(CountryCode::HK)
    } else if t == "in"@ {
        Some(CountryCode::IN)
    } else if t == "id"@ {
        Some(CountryCode::ID)
    } else if t == "it"@ {
        Some(CountryCode::IT)
    } else if t == "jp"@ {
        Some(CountryCode::JP)
    } else if t == "kr"@ {
        Some(CountryCode::KR)
    } else if t == "my"@ {
        Some(CountryCode::MY)
    } else if t == "mx"@ {
        Some(CountryCode::MX)
    } else if t == "nl"@ {
        Some(CountryCode::NL)
    } else if t == "nz"@ {
        Some(CountryCode::NZ)
    } else if t == "no"@ {
        Some(CountryCode::NO)
    } else if t == "cn"@ {
        Some(CountryCode::CN)
    } else if t == "pl"@ {
        Some(CountryCode::PL)
    } else if t == "pt"@ {
        Some(CountryCode::PT)
    } else if t == "ph"@ {
        Some(CountryCode::PH)
    } else if t == "ru"@ {
        Some(CountryCode::RU)
    } else if t == "sa"@ {
        Some(CountryCode::SA)
    } else if t == "za"@ {
        Some(CountryCode::ZA)
    } else if t == "es"@ {
        Some(CountryCode::ES)
    } else if t == "se"@ {
        Some(CountryCode::SE)
    } else if t == "ch"@ {
        Some(CountryCode::CH)
    } else if t == "tw"@ {
        Some(CountryCode::TW)
    } else if t == "tr"@ {
        Some(CountryCode::TR)
    } else if t == "gb"@ {
        Some(CountryCode::GB)
    } else if t == "us"@ {
        Some(CountryCode::US)
    } else {
        None
    }
}

/// Law: the wire form of a country code is already canonical — lower-casing
/// it changes nothing, so the wire form parses back without loss.
pub proof fn lemma_country_wire_canonical(c: CountryCode)
    ensures
        spec_lower(country_token(c)) == country_token(c),
{
    reveal_strlit("all");
    reveal_strlit("ar");
    reveal_strlit("au");
    reveal_strlit("at");
    reveal_strlit("be");
    reveal_strlit("br");
    reveal_strlit("ca");
    reveal_strlit("cl");
    reveal_strlit("dk");
    reveal_strlit("fi");
    reveal_strlit("fr");
    reveal_strlit("de");
    reveal_strlit("hk");
    reveal_strlit("in");
    reveal_strlit("id");
    reveal_strlit("it");
    reveal_strlit("jp");
    reveal_strlit("kr");
    reveal_strlit("my");
    reveal_strlit("mx");
    reveal_strlit("nl");
    reveal_strlit("nz");
    reveal_strlit("no");
    reveal_strlit("cn");
    reveal_strlit("pl");
    reveal_strlit("pt");
    reveal_strlit("ph");
    reveal_strlit("ru");
    reveal_strlit("sa");
    reveal_strlit("za");
    reveal_strlit("es");
    reveal_strlit("se");
    reveal_strlit("ch");
    reveal_strlit("tw");
    reveal_strlit("tr");
    reveal_strlit("gb");
    reveal_strlit("us");
    match c {
        CountryCode::ALL => {
            assert(spec_lower("all"@) =~= "all"@);
        },
        CountryCode::AR => {
            assert(spec_lower("ar"@) =~= "ar"@);
        },
        CountryCode::AU => {
            assert(spec_lower("au"@) =~= "au"@);
        },
        CountryCode::AT => {
            assert(spec_lower("at"@) =~= "at"@);
        },
        CountryCode::BE => {
            assert(spec_lower("be"@) =~= "be"@);
        },
        CountryCode::BR => {
            assert(spec_lower("br"@) =~= "br"@);
        },
        CountryCode::CA => {
            assert(spec_lower("ca"@) =~= "ca"@);
        },
        CountryCode::CL => {
            assert(spec_lower("cl"@) =~= "cl"@);
        },
        CountryCode::DK => {
            assert(spec_lower("dk"@) =~= "dk"@);
        },
        CountryCode::FI => {
            assert(spec_lower("fi"@) =~= "fi"@);
        },
        CountryCode::FR => {
            assert(spec_lower("fr"@) =~= "fr"@);
        },
        CountryCode::DE => {
            assert(spec_lower("de"@) =~= "de"@);
        },
        CountryCode::HK => {
            assert(spec_lower("hk"@) =~= "hk"@);
        },
        CountryCode::IN => {
            assert(spec_lower("in"@) =~= "in"@);
        },
        CountryCode::ID => {
            assert(spec_lower("id"@) =~= "id"@);
        },
        CountryCode::IT => {
            assert(spec_lower("it"@) =~= "it"@);
        },
        CountryCode::JP => {
            assert(spec_lower("jp"@) =~= "jp"@);
        },
        CountryCode::KR => {
            assert(spec_lower("kr"@) =~= "kr"@);
        },
        CountryCode::MY => {
            assert(spec_lower("my"@) =~= "my"@);
        },
        CountryCode::MX => {
            assert(spec_lower("mx"@) =~= "mx"@);
        },
        CountryCode::NL => {
            assert(spec_lower("nl"@) =~= "nl"@);
        },
        CountryCode::NZ => {
            assert(spec_lower("nz"@) =~= "nz"@);
        },
        CountryCode::NO => {
            assert(spec_lower("no"@) =~= "no"@);
        },
        CountryCode::CN => {
            assert(spec_lower("cn"@) =~= "cn"@);
        },
        CountryCode::PL => {
            assert(spec_lower("pl"@) =~= "pl"@);
        },
        CountryCode::PT => {
            assert(spec_lower("pt"@) =~= "pt"@);
        },
        CountryCode::PH => {
            assert(spec_lower("ph"@) =~= "ph"@);
        },
        CountryCode::RU => {
            assert(spec_lower("ru"@) =~= "ru"@);
        },
        CountryCode::SA => {
            assert(spec_lower("sa"@) =~= "sa"@);
        },
        CountryCode::ZA => {
            assert(spec_lower("za"@) =~= "za"@);
        },
        CountryCode::ES => {
            assert(spec_lower("es"@) =~= "es"@);
        },
        CountryCode::SE => {
            assert(spec_lower("se"@) =~= "se"@);
        },
        CountryCode::CH => {
            assert(spec_lower("ch"@) =~= "ch"@);
        },
        CountryCode::TW => {
            assert(spec_lower("tw"@) =~= "tw"@);
        },
        CountryCode::TR => {
            assert(spec_lower("tr"@) =~= "tr"@);
        },
        CountryCode::GB => {
            assert(spec_lower("gb"@) =~= "gb"@);
        },
        CountryCode::US => {
            assert(spec_lower("us"@) =~= "us"@);
        },
    }
}

/// The wire form decodes to the code it came from.
proof fn lemma_country_decode(c: CountryCode)
    ensures
        country_of_lower(country_token(c)) == Some(c),
{
    reveal_strlit("all");
    reveal_strlit("ar");
    reveal_strlit("au");
    reveal_strlit("at");
    reveal_strlit("be");
    reveal_strlit("br");
    reveal_strlit("ca");
    reveal_strlit("cl");
    reveal_strlit("dk");
    reveal_strlit("fi");
    reveal_strlit("fr");
    reveal_strlit("de");
    reveal_strlit("hk");
    reveal_strlit("in");
    reveal_strlit("id");
    reveal_strlit("it");
    reveal_strlit("jp");
    reveal_strlit("kr");
    reveal_strlit("my");
    reveal_strlit("mx");
    reveal_strlit("nl");
    reveal_strlit("nz");
    reveal_strlit("no");
    reveal_strlit("cn");
    reveal_strlit("pl");
    reveal_strlit("pt");
    reveal_strlit("ph");
    reveal_strlit("ru");
    reveal_strlit("sa");
    reveal_strlit("za");
    reveal_strlit("es");
    reveal_strlit("se");
    reveal_strlit("ch");
    reveal_strlit("tw");
    reveal_strlit("tr");
    reveal_strlit("gb");
    reveal_strlit("us");
    // Pin each wire form's length and characters, so that the solver can
    // tell any two tokens apart while it walks the decoding chain.
    assert("all"@.len() == 3);
    assert("all"@[0] == 'a');
    assert("all"@[1] == 'l');
    assert("all"@[2] == 'l');
    assert("ar"@.len() == 2);
    assert("ar"@[0] == 'a');
    assert("ar"@[1] == 'r');
    assert("au"@.len() == 2);
    assert("au"@[0] == 'a');
    assert("au"@[1] == 'u');
    assert("at"@.len() == 2);
    assert("at"@[0] == 'a');
    assert("at"@[1] == 't');
    assert("be"@.len() == 2);
    assert("be"@[0] == 'b');
    assert("be"@[1] == 'e');
    assert("br"@.len() == 2);
    assert("br"@[0] == 'b');
    assert("br"@[1] == 'r');
    assert("ca"@.len() == 2);
    assert("ca"@[0] == 'c');
    assert("ca"@[1] == 'a');
    assert("cl"@.len() == 2);
    assert("cl"@[0] == 'c');
    assert("cl"@[1] == 'l');
    assert("dk"@.len() == 2);
    assert("dk"@[0] == 'd');
    assert("dk"@[1] == 'k');
    assert("fi"@.len() == 2);
    assert("fi"@[0] == 'f');
    assert("fi"@[1] == 'i');
    assert("fr"@.len() == 2);
    assert("fr"@[0] == 'f');
    assert("fr"@[1] == 'r');
    assert("de"@.len() == 2);
    assert("de"@[0] == 'd');
    assert("de"@[1] == 'e');
    assert("hk"@.len() == 2);
    assert("hk"@[0] == 'h');
    assert("hk"@[1] == 'k');
    assert("in"@.len() == 2);
    assert("in"@[0] == 'i');
    assert("in"@[1] == 'n');
    assert("id"@.len() == 2);
    assert("id"@[0] == 'i');
    assert("id"@[1] == 'd');
    assert("it"@.len() == 2);
    assert("it"@[0] == 'i');
    assert("it"@[1] == 't');
    assert("jp"@.len() == 2);
    assert("jp"@[0] == 'j');
    assert("jp"@[1] == 'p');
    assert("kr"@.len() == 2);
    assert("kr"@[0] == 'k');
    assert("kr"@[1] == 'r');
    assert("my"@.len() == 2);
    assert("my"@[0] == 'm');
    assert("my"@[1] == 'y');
    assert("mx"@.len() == 2);
    assert("mx"@[0] == 'm');
    assert("mx"@[1] == 'x');
    assert("nl"@.len() == 2);
    assert("nl"@[0] == 'n');
    assert("nl"@[1] == 'l');
    assert("nz"@.len() == 2);
    assert("nz"@[0] == 'n');
    assert("nz"@[1] == 'z');
    assert("no"@.len() == 2);
    assert("no"@[0] == 'n');
    assert("no"@[1] == 'o');
    assert("cn"@.len() == 2);
    assert("cn"@[0] == 'c');
    assert("cn"@[1] == 'n');
    assert("pl"@.len() == 2);
    assert("pl"@[0] == 'p');
    assert("pl"@[1] == 'l');
    assert("pt"@.len() == 2);
    assert("pt"@[0] == 'p');
    assert("pt"@[1] == 't');
    assert("ph"@.len() == 2);
    assert("ph"@[0] == 'p');
    assert("ph"@[1] == 'h');
    assert("ru"@.len() == 2);
    assert("ru"@[0] == 'r');
    assert("ru"@[1] == 'u');
    assert("sa"@.len() == 2);
    assert("sa"@[0] == 's');
    assert("sa"@[1] == 'a');
    assert("za"@.len() == 2);
    assert("za"@[0] == 'z');
    assert("za"@[1] == 'a');
    assert("es"@.len() == 2);
    assert("es"@[0] == 'e');
    assert("es"@[1] == 's');
    assert("se"@.len() == 2);
    assert("se"@[0] == 's');
    assert("se"@[1] == 'e');
    assert("ch"@.len() == 2);
    assert("ch"@[0] == 'c');
    assert("ch"@[1] == 'h');
    assert("tw"@.len() == 2);
    assert("tw"@[0] == 't');
    assert("tw"@[1] == 'w');
    assert("tr"@.len() == 2);
    assert("tr"@[0] == 't');
    assert("tr"@[1] == 'r');
    assert("gb"@.len() == 2);
    assert("gb"@[0] == 'g');
    assert("gb"@[1] == 'b');
    assert("us"@.len() == 2);
    assert("us"@[0] == 'u');
    assert("us"@[1] == 's');
    match c {
        CountryCode::ALL => {
            assert(country_of_lower("all"@) == Some(CountryCode::ALL));
        },
        CountryCode::AR => {
            assert(country_of_lower("ar"@) == Some(CountryCode::AR));
        },
        CountryCode::AU => {
            assert(country_of_lower("au"@) == Some(CountryCode::AU));
        },
        CountryCode::AT => {
            assert(country_of_lower("at"@) == Some(CountryCode::AT));
        },
        CountryCode::BE => {
            assert(country_of_lower("be"@) == Some(CountryCode::BE));
        },
        CountryCode::BR => {
            assert(country_of_lower("br"@) == Some(CountryCode::BR));
        },
        CountryCode::CA => {
            assert(country_of_lower("ca"@) == Some(CountryCode::CA));
        },
        CountryCode::CL => {
            assert(country_of_lower("cl"@) == Some(CountryCode::CL));
        },
        CountryCode::DK => {
            assert(country_of_lower("dk"@) == Some(CountryCode::DK));
        },
        CountryCode::FI => {
            assert(country_of_lower("fi"@) == Some(CountryCode::FI));
        },
        CountryCode::FR => {
            assert(country_of_lower("fr"@) == Some(CountryCode::FR));
        },
        CountryCode::DE => {
            assert(country_of_lower("de"@) == Some(CountryCode::DE));
        },
        CountryCode::HK => {
            assert(country_of_lower("hk"@) == Some(CountryCode::HK));
        },
        CountryCode::IN => {
            assert(country_of_lower("in"@) == Some(CountryCode::IN));
        },
        CountryCode::ID => {
            assert(country_of_lower("id"@) == Some(CountryCode::ID));
        },
        CountryCode::IT => {
            assert(country_of_lower("it"@) == Some(CountryCode::IT));
        },
        CountryCode::JP => {
            assert(country_of_lower("jp"@) == Some(CountryCode::JP));
        },
        CountryCode::KR => {
            assert(country_of_lower("kr"@) == Some(CountryCode::KR));
        },
        CountryCode::MY => {
            assert(country_of_lower("my"@) == Some(CountryCode::MY));
        },
        CountryCode::MX => {
            assert(country_of_lower("mx"@) == Some(CountryCode::MX));
        },
        CountryCode::NL => {
            assert(country_of_lower("nl"@) == Some(CountryCode::NL));
        },
        CountryCode::NZ => {
            assert(country_of_lower("nz"@) == Some(CountryCode::NZ));
        },
        CountryCode::NO => {
            assert(country_of_lower("no"@) == Some(CountryCode::NO));
        },
        CountryCode::CN => {
            assert(country_of_lower("cn"@) == Some(CountryCode::CN));
        },
        CountryCode::PL => {
            assert(country_of_lower("pl"@) == Some(CountryCode::PL));
        },
        CountryCode::PT => {
            assert(country_of_lower("pt"@) == Some(CountryCode::PT));
        },
        CountryCode::PH => {
            assert(country_of_lower("ph"@) == Some(CountryCode::PH));
        },
        CountryCode::RU => {
            assert(country_of_lower("ru"@) == Some(CountryCode::RU));
        },
        CountryCode::SA => {
            assert(country_of_lower("sa"@) == Some(CountryCode::SA));
        },
        CountryCode::ZA => {
            assert(country_of_lower("za"@) == Some(CountryCode::ZA));
        },
        CountryCode::ES => {
            assert(country_of_lower("es"@) == Some(CountryCode::ES));
        },
        CountryCode::SE => {
            assert(country_of_lower("se"@) == Some(CountryCode::SE));
        },
        CountryCode::CH => {
            assert(country_of_lower("ch"@) == Some(CountryCode::CH));
        },
        CountryCode::TW => {
            assert(country_of_lower("tw"@) == Some(CountryCode::TW));
        },
        CountryCode::TR => {
            assert(country_of_lower("tr"@) == Some(CountryCode::TR));
        },
        CountryCode::GB => {
            assert(country_of_lower("gb"@) == Some(CountryCode::GB));
        },
        CountryCode::US => {
            assert(country_of_lower("us"@) == Some(CountryCode::US));
        },
    }
}

/// Law: distinct country codes have distinct wire forms.
pub proof fn lemma_country_token_injective(a: CountryCode, b: CountryCode)
    requires
        country_token(a) == country_token(b),
    ensures
        a == b,
{
    lemma_country_decode(a);
    lemma_country_decode(b);
}

/// Law: parsing the wire form of a country code yields that code again —
/// `p`, any parse result of `to_wire_string(c)` as `parse`'s contract
/// describes it, is `c` itself.
pub proof fn lemma_country_round_trip(c: CountryCode, p: CountryCode)
    requires
        spec_lower(country_token(c)) == country_token(p),
    ensures
        p == c,
{
    lemma_country_wire_canonical(c);
    lemma_country_token_injective(c, p);
}

/// Language codes accepted by the upstream search service.
#[derive(Clone, Copy, Debug, PartialEq, Eq, Structural)]
pub enum LanguageCode {
    AR,
    EU,
    BN,
    BG,
    CA,
    ZhHans,
    ZhHant,
    HR,
    CS,
    DA,
    NL,
    EN,
    EnGb,
    ET,
    FI,
    FR,
    GL,
    DE,
    GU,
    HE,
    HI,
    HU,
    IS,
    IT,
    JA,
    KN,
    KO,
    LV,
    LT,
    MS,
    ML,
    MR,
    NB,
    PL,
    PT,
    PtBr,
    PA,
    RO,
    RU,
    SR,
    SK,
    SL,
    ES,
    SV,
    TA,
    TE,
    TH,
    TR,
    UK,
    VI,
}

/// The canonical wire form of a language code: lower case, with a hyphen in
/// `zh-hans`, `zh-hant`, `en-gb` and `pt-br`.
pub open spec fn language_token(c: LanguageCode) -> Seq<char> {
    match c {
        LanguageCode::AR => "ar"@,
        LanguageCode::EU => "eu"@,
        LanguageCode::BN => "bn"@,
        LanguageCode::BG => "bg"@,
        LanguageCode::CA => "ca"@,
        LanguageCode::ZhHans => "zh-hans"@,
        LanguageCode::ZhHant => "zh-hant"@,
        LanguageCode::HR => "hr"@,
        LanguageCode::CS => "cs"@,
        LanguageCode::DA => "da"@,
        LanguageCode::NL => "nl"@,
        LanguageCode::EN => "en"@,
        LanguageCode::EnGb => "en-gb"@,
        LanguageCode::ET => "et"@,
        LanguageCode::FI => "fi"@,
        LanguageCode::FR => "fr"@,
        LanguageCode::GL => "gl"@,
        LanguageCode::DE => "de"@,
        LanguageCode::GU => "gu"@,
        LanguageCode::HE => "he"@,
        LanguageCode::HI => "hi"@,
        LanguageCode::HU => "hu"@,
        LanguageCode::IS => "is"@,
        LanguageCode::IT => "it"@,
        LanguageCode::JA => "ja"@,
        LanguageCode::KN => "kn"@,
        LanguageCode::KO => "ko"@,
        LanguageCode::LV => "lv"@,
        LanguageCode::LT => "lt"@,
        LanguageCode::MS => "ms"@,
        LanguageCode::ML => "ml"@,
        LanguageCode::MR => "mr"@,
        LanguageCode::NB => "nb"@,
        LanguageCode::PL => "pl"@,
        LanguageCode::PT => "pt"@,
        LanguageCode::PtBr => "pt-br"@,
        LanguageCode::PA => "pa"@,
        LanguageCode::RO => "ro"@,
        LanguageCode::RU => "ru"@,
        LanguageCode::SR => "sr"@,
        LanguageCode::SK => "sk"@,
        LanguageCode::SL => "sl"@,
        LanguageCode::ES => "es"@,
        LanguageCode::SV => "sv"@,
        LanguageCode::TA => "ta"@,
        LanguageCode::TE => "te"@,
        LanguageCode::TH => "th"@,
        LanguageCode::TR => "tr"@,
        LanguageCode::UK => "uk"@,
        LanguageCode::VI => "vi"@,
    }
}

/// The accepted underscore spelling of the four hyphenated language codes;
/// every other code has no second spelling.
pub open spec fn language_alt_token(c: LanguageCode) -> Seq<char> {
    match c {
        LanguageCode::ZhHans => "zh_hans"@,
        LanguageCode::ZhHant => "zh_hant"@,
        LanguageCode::EnGb => "en_gb"@,
        LanguageCode::PtBr => "pt_br"@,
        _ => language_token(c),
    }
}

/// Whether the lower-cased input `t` names the language code `c`.
pub open spec fn language_matches(c: LanguageCode, t: Seq<char>) -> bool {
    t == language_token(c) || t == language_alt_token(c)
}

impl core::default::Default for LanguageCode {
    /// The documented default language.
    fn default() -> (r: Self)
        ensures
            r == LanguageCode::EN,
    {
        LanguageCode::EN
    }
}

impl LanguageCode {
    /// Case-insensitive exact match against the closed language set (the
    /// hyphenated codes may also be written with an underscore); an unknown
    /// input is rejected with a message that carries it unmodified.
    pub fn parse(s: &str) -> (r: Result<LanguageCode, UnknownCodeError>)
        ensures
            match r {
                Ok(c) => language_matches(c, spec_lower(s@)),
                Err(e) => {
                    &&& forall|c: LanguageCode| !language_matches(c, spec_lower(s@))
                    &&& e.kind == CodeKind::Language
                    &&& e.input@ == s@
                },
            },
    {
        if eq_lower(s, "ar") {
            Ok(LanguageCode::AR)
        } else if eq_lower(s, "eu") {
            Ok(LanguageCode::EU)
        } else if eq_lower(s, "bn") {
            Ok(LanguageCode::BN)
        } else if eq_lower(s, "bg") {
            Ok(LanguageCode::BG)
        } else if eq_lower(s, "ca") {
            Ok(LanguageCode::CA)
        } else if eq_lower(s, "zh-hans") || eq_lower(s, "zh_hans") {
            Ok(LanguageCode::ZhHans)
        } else if eq_lower(s, "zh-hant") || eq_lower(s, "zh_hant") {
            Ok(LanguageCode::ZhHant)
        } else if eq_lower(s, "hr") {
            Ok(LanguageCode::HR)
        } else if eq_lower(s, "cs") {
            Ok(LanguageCode::CS)
        } else if eq_lower(s, "da") {
            Ok(LanguageCode::DA)
        } else if eq_lower(s, "nl") {
            Ok(LanguageCode::NL)
        } else if eq_lower(s, "en") {
            Ok(LanguageCode::EN)
        } else if eq_lower(s, "en-gb") || eq_lower(s, "en_gb") {
            Ok(LanguageCode::EnGb)
        } else if eq_lower(s, "et") {
            Ok(LanguageCode::ET)
        } else if eq_lower(s, "fi") {
            Ok(LanguageCode::FI)
        } else if eq_lower(s, "fr") {
            Ok(LanguageCode::FR)
        } else if eq_lower(s, "gl") {
            Ok(LanguageCode::GL)
        } else if eq_lower(s, "de") {
            Ok(LanguageCode::DE)
        } else if eq_lower(s, "gu") {
            Ok(LanguageCode::GU)
        } else if eq_lower(s, "he") {
            Ok(LanguageCode::HE)
        } else if eq_lower(s, "hi") {
            Ok(LanguageCode::HI)
        } else if eq_lower(s, "hu") {
            Ok(LanguageCode::HU)
        } else if eq_lower(s, "is") {
            Ok(LanguageCode::IS)
        } else if eq_lower(s, "it") {
            Ok(LanguageCode::IT)
        } else if eq_lower(s, "ja") {
            Ok(LanguageCode::JA)
        } else if eq_lower(s, "kn") {
            Ok(LanguageCode::KN)
        } else if eq_lower(s, "ko") {
            Ok(LanguageCode::KO)
        } else if eq_lower(s, "lv") {
            Ok(LanguageCode::LV)
        } else if eq_lower(s, "lt") {
            Ok(LanguageCode::LT)
        } else if eq_lower(s, "ms") {
            Ok(LanguageCode::MS)
        } else if eq_lower(s, "ml") {
            Ok(LanguageCode::ML)
        } else if eq_lower(s, "mr") {
            Ok(LanguageCode::MR)
        } else if eq_lower(s, "nb") {
            Ok(LanguageCode::NB)
        } else if eq_lower(s, "pl") {
            Ok(LanguageCode::PL)
        } else if eq_lower(s, "pt") {
            Ok(LanguageCode::PT)
        } else if eq_lower(s, "pt-br") || eq_lower(s, "pt_br") {
            Ok(LanguageCode::PtBr)
        } else if eq_lower(s, "pa") {
            Ok(LanguageCode::PA)
        } else if eq_lower(s, "ro") {
            Ok(LanguageCode::RO)
        } else if eq_lower(s, "ru") {
            Ok(LanguageCode::RU)
        } else if eq_lower(s, "sr") {
            Ok(LanguageCode::SR)
        } else if eq_lower(s, "sk") {
            Ok(LanguageCode::SK)
        } else if eq_lower(s, "sl") {
            Ok(LanguageCode::SL)
        } else if eq_lower(s, "es") {
            Ok(LanguageCode::ES)
        } else if eq_lower(s, "sv") {
            Ok(LanguageCode::SV)
        } else if eq_lower(s, "ta") {
            Ok(LanguageCode::TA)
        } else if eq_lower(s, "te") {
            Ok(LanguageCode::TE)
        } else if eq_lower(s, "th") {
            Ok(LanguageCode::TH)
        } else if eq_lower(s, "tr") {
            Ok(LanguageCode::TR)
        } else if eq_lower(s, "uk") {
            Ok(LanguageCode::UK)
        } else if eq_lower(s, "vi") {
            Ok(LanguageCode::VI)
        } else {
            Err(UnknownCodeError { kind: CodeKind::Language, input: s.to_owned() })
        }
    }

    /// The canonical wire form: lower case, hyphenated where the code set
    /// hyphenates.
    pub fn to_wire_string(&self) -> (r: String)
        ensures
            r@ == language_token(*self),
    {
        let r: &str = match *self {
            LanguageCode::AR => "ar",
            LanguageCode::EU => "eu",
            LanguageCode::BN => "bn",
            LanguageCode::BG => "bg",
            LanguageCode::CA => "ca",
            LanguageCode::ZhHans => "zh-hans",
            LanguageCode::ZhHant => "zh-hant",
            LanguageCode::HR => "hr",
            LanguageCode::CS => "cs",
            LanguageCode::DA => "da",
            LanguageCode::NL => "nl",
            LanguageCode::EN => "en",
            LanguageCode::EnGb => "en-gb",
            LanguageCode::ET => "et",
            LanguageCode::FI => "fi",
            LanguageCode::FR => "fr",
            LanguageCode::GL => "gl",
            LanguageCode::DE => "de",
            LanguageCode::GU => "gu",
            LanguageCode::HE => "he",
            LanguageCode::HI => "hi",
            LanguageCode::HU => "hu",
            LanguageCode::IS => "is",
            LanguageCode::IT => "it",
            LanguageCode::JA => "ja",
            LanguageCode::KN => "kn",
            LanguageCode::KO => "ko",
            LanguageCode::LV => "lv",
            LanguageCode::LT => "lt",
            LanguageCode::MS => "ms",
            LanguageCode::ML => "ml",
            LanguageCode::MR => "mr",
            LanguageCode::NB => "nb",
            LanguageCode::PL => "pl",
            LanguageCode::PT => "pt",
            LanguageCode::PtBr => "pt-br",
            LanguageCode::PA => "pa",
            LanguageCode::RO => "ro",
            LanguageCode::RU => "ru",
            LanguageCode::SR => "sr",
            LanguageCode::SK => "sk",
            LanguageCode::SL => "sl",
            LanguageCode::ES => "es",
            LanguageCode::SV => "sv",
            LanguageCode::TA => "ta",
            LanguageCode::TE => "te",
            LanguageCode::TH => "th",
            LanguageCode::TR => "tr",
            LanguageCode::UK => "uk",
            LanguageCode::VI => "vi",
        };
        r.to_owned()
    }
}

/// The language code named by the (already lower-cased) `t`, in either of
/// its accepted spellings, if any.
spec fn language_of_lower(t: Seq<char>) -> Option<LanguageCode> {
    if t == "ar"@ {
        Some(LanguageCode::AR)
    } else if t == "eu"@ {
        Some(LanguageCode::EU)
    } else if t == "bn"@ {
        Some(LanguageCode::BN)
    } else if t == "bg"@ {
        Some(LanguageCode::BG)
    } else if t == "ca"@ {
        Some(LanguageCode::CA)
    } else if t == "zh-hans"@ || t == "zh_hans"@ {
        Some(LanguageCode::ZhHans)
    } else if t == "zh-hant"@ || t == "zh_hant"@ {
        Some(LanguageCode::ZhHant)
    } else if t == "hr"@ {
        Some(LanguageCode::HR)
    } else if t == "cs"@ {
        Some(LanguageCode::CS)
    } else if t == "da"@ {
        Some(LanguageCode::DA)
    } else if t == "nl"@ {
        Some(LanguageCode::NL)
    } else if t == "en"@ {
        Some(LanguageCode::EN)
    } else if t == "en-gb"@ || t == "en_gb"@ {
        Some(LanguageCode::EnGb)
    } else if t == "et"@ {
        Some(LanguageCode::ET)
    } else if t == "fi"@ {
        Some(LanguageCode::FI)
    } else if t == "fr"@ {
        Some(LanguageCode::FR)
    } else if t == "gl"@ {
        Some(LanguageCode::GL)
    } else if t == "de"@ {
        Some(LanguageCode::DE)
    } else if t == "gu"@ {
        Some(LanguageCode::GU)
    } else if t == "he"@ {
        Some(LanguageCode::HE)
    } else if t == "hi"@ {
        Some(LanguageCode::HI)
    } else if t == "hu"@ {
        Some(LanguageCode::HU)
    } else if t == "is"@ {
        Some(LanguageCode::IS)
    } else if t == "it"@ {
        Some(LanguageCode::IT)
    } else if t == "ja"@ {
        Some(LanguageCode::JA)
    } else if t == "kn"@ {
        Some(LanguageCode::KN)
    } else if t == "ko"@ {
        Some(LanguageCode::KO)
    } else if t == "lv"@ {
        Some(LanguageCode::LV)
    } else if t == "lt"@ {
        Some(LanguageCode::LT)
    } else if t == "ms"@ {
        Some(LanguageCode::MS)
    } else if t == "ml"@ {
        Some(LanguageCode::ML)
    } else if t == "mr"@ {
        Some(LanguageCode::MR)
    } else if t == "nb"@ {
        Some(LanguageCode::NB)
    } else if t == "pl"@ {
        Some(LanguageCode::PL)
    } else if t == "pt"@ {
        Some(LanguageCode::PT)
    } else if t == "pt-br"@ || t == "pt_br"@ {
        Some(LanguageCode::PtBr)
    } else if t == "pa"@ {
        Some(LanguageCode::PA)
    } else if t == "ro"@ {
        Some(LanguageCode::RO)
    } else if t == "ru"@ {
        Some(LanguageCode::RU)
    } else if t == "sr"@ {
        Some(LanguageCode::SR)
    } else if t == "sk"@ {
        Some(LanguageCode::SK)
    } else if t == "sl"@ {
        Some(LanguageCode::SL)
    } else if t == "es"@ {
        Some(LanguageCode::ES)
    } else if t == "sv"@ {
        Some(LanguageCode::SV)
    } else if t == "ta"@ {
        Some(LanguageCode::TA)
    } else if t == "te"@ {
        Some(LanguageCode::TE)
    } else if t == "th"@ {
        Some(LanguageCode::TH)
    } else if t == "tr"@ {
        Some(LanguageCode::TR)
    } else if t == "uk"@ {
        Some(LanguageCode::UK)
    } else if t == "vi"@ {
        Some(LanguageCode::VI)
    } else {
        None
    }
}

/// Law: the wire form of a language code is already canonical — lower-casing
/// it changes nothing, so the wire form parses back without loss.
pub proof fn lemma_language_wire_canonical(c: LanguageCode)
    ensures
        spec_lower(language_token(c)) == language_token(c),
{
    reveal_strlit("ar");
    reveal_strlit("eu");
    reveal_strlit("bn");
    reveal_strlit("bg");
    reveal_strlit("ca");
    reveal_strlit("zh-hans");
    reveal_strlit("zh_hans");
    reveal_strlit("zh-hant");
    reveal_strlit("zh_hant");
    reveal_strlit("hr");
    reveal_strlit("cs");
    reveal_strlit("da");
    reveal_strlit("nl");
    reveal_strlit("en");
    reveal_strlit("en-gb");
    reveal_strlit("en_gb");
    reveal_strlit("et");
    reveal_strlit("fi");
    reveal_strlit("fr");
    reveal_strlit("gl");
    reveal_strlit("de");
    reveal_strlit("gu");
    reveal_strlit("he");
    reveal_strlit("hi");
    reveal_strlit("hu");
    reveal_strlit("is");
    reveal_strlit("it");
    reveal_strlit("ja");
    reveal_strlit("kn");
    reveal_strlit("ko");
    reveal_strlit("lv");
    reveal_strlit("lt");
    reveal_strlit("ms");
    reveal_strlit("ml");
    reveal_strlit("mr");
    reveal_strlit("nb");
    reveal_strlit("pl");
    reveal_strlit("pt");
    reveal_strlit("pt-br");
    reveal_strlit("pt_br");
    reveal_strlit("pa");
    reveal_strlit("ro");
    reveal_strlit("ru");
    reveal_strlit("sr");
    reveal_strlit("sk");
    reveal_strlit("sl");
    reveal_strlit("es");
    reveal_strlit("sv");
    reveal_strlit("ta");
    reveal_strlit("te");
    reveal_strlit("th");
    reveal_strlit("tr");
    reveal_strlit("uk");
    reveal_strlit("vi");
    match c {
        LanguageCode::AR => {
            assert(spec_lower("ar"@) =~= "ar"@);
        },
        LanguageCode::EU => {
            assert(spec_lower("eu"@) =~= "eu"@);
        },
        LanguageCode::BN => {
            assert(spec_lower("bn"@) =~= "bn"@);
        },
        LanguageCode::BG => {
            assert(spec_lower("bg"@) =~= "bg"@);
        },
        LanguageCode::CA => {
            assert(spec_lower("ca"@) =~= "ca"@);
        },
        LanguageCode::ZhHans => {
            assert(spec_lower("zh-hans"@) =~= "zh-hans"@);
        },
        LanguageCode::ZhHant => {
            assert(spec_lower("zh-hant"@) =~= "zh-hant"@);
        },
        LanguageCode::HR => {
            assert(spec_lower("hr"@) =~= "hr"@);
        },
        LanguageCode::CS => {
            assert(spec_lower("cs"@) =~= "cs"@);
        },
        LanguageCode::DA => {
            assert(spec_lower("da"@) =~= "da"@);
        },
        LanguageCode::NL => {
            assert(spec_lower("nl"@) =~= "nl"@);
        },
        LanguageCode::EN => {
            assert(spec_lower("en"@) =~= "en"@);
        },
        LanguageCode::EnGb => {
            assert(spec_lower("en-gb"@) =~= "en-gb"@);
        },
        LanguageCode::ET => {
            assert(spec_lower("et"@) =~= "et"@);
        },
        LanguageCode::FI => {
            assert(spec_lower("fi"@) =~= "fi"@);
        },
        LanguageCode::FR => {
            assert(spec_lower("fr"@) =~= "fr"@);
        },
        LanguageCode::GL => {
            assert(spec_lower("gl"@) =~= "gl"@);
        },
        LanguageCode::DE => {
            assert(spec_lower("de"@) =~= "de"@);
        },
        LanguageCode::GU => {
            assert(spec_lower("gu"@) =~= "gu"@);
        },
        LanguageCode::HE => {
            assert(spec_lower("he"@) =~= "he"@);
        },
        LanguageCode::HI => {
            assert(spec_lower("hi"@) =~= "hi"@);
        },
        LanguageCode::HU => {
            assert(spec_lower("hu"@) =~= "hu"@);
        },
        LanguageCode::IS => {
            assert(spec_lower("is"@) =~= "is"@);
        },
        LanguageCode::IT => {
            assert(spec_lower("it"@) =~= "it"@);
        },
        LanguageCode::JA => {
            assert(spec_lower("ja"@) =~= "ja"@);
        },
        LanguageCode::KN => {
            assert(spec_lower("kn"@) =~= "kn"@);
        },
        LanguageCode::KO => {
            assert(spec_lower("ko"@) =~= "ko"@);
        },
        LanguageCode::LV => {
            assert(spec_lower("lv"@) =~= "lv"@);
        },
        LanguageCode::LT => {
            assert(spec_lower("lt"@) =~= "lt"@);
        },
        LanguageCode::MS => {
            assert(spec_lower("ms"@) =~= "ms"@);
        },
        LanguageCode::ML => {
            assert(spec_lower("ml"@) =~= "ml"@);
        },
        LanguageCode::MR => {
            assert(spec_lower("mr"@) =~= "mr"@);
        },
        LanguageCode::NB => {
            assert(spec_lower("nb"@) =~= "nb"@);
        },
        LanguageCode::PL => {
            assert(spec_lower("pl"@) =~= "pl"@);
        },
        LanguageCode::PT => {
            assert(spec_lower("pt"@) =~= "pt"@);
        },
        LanguageCode::PtBr => {
            assert(spec_lower("pt-br"@) =~= "pt-br"@);
        },
        LanguageCode::PA => {
            assert(spec_lower("pa"@) =~= "pa"@);
        },
        LanguageCode::RO => {
            assert(spec_lower("ro"@) =~= "ro"@);
        },
        LanguageCode::RU => {
            assert(spec_lower("ru"@) =~= "ru"@);
        },
        LanguageCode::SR => {
            assert(spec_lower("sr"@) =~= "sr"@);
        },
        LanguageCode::SK => {
            assert(spec_lower("sk"@) =~= "sk"@);
        },
        LanguageCode::SL => {
            assert(spec_lower("sl"@) =~= "sl"@);
        },
        LanguageCode::ES => {
            assert(spec_lower("es"@) =~= "es"@);
        },
        LanguageCode::SV => {
            assert(spec_lower("sv"@) =~= "sv"@);
        },
        LanguageCode::TA => {
            assert(spec_lower("ta"@) =~= "ta"@);
        },
        LanguageCode::TE => {
            assert(spec_lower("te"@) =~= "te"@);
        },
        LanguageCode::TH => {
            assert(spec_lower("th"@) =~= "th"@);
        },
        LanguageCode::TR => {
            assert(spec_lower("tr"@) =~= "tr"@);
        },
        LanguageCode::UK => {
            assert(spec_lower("uk"@) =~= "uk"@);
        },
        LanguageCode::VI => {
            assert(spec_lower("vi"@) =~= "vi"@);
        },
    }
}

/// Either accepted spelling of a language code decodes to that code.
proof fn lemma_language_decode(c: LanguageCode)
    ensures
        language_of_lower(language_token(c)) == Some(c),
        language_of_lower(language_alt_token(c)) == Some(c),
{
    reveal_strlit("ar");
    reveal_strlit("eu");
    reveal_strlit("bn");
    reveal_strlit("bg");
    reveal_strlit("ca");
    reveal_strlit("zh-hans");
    reveal_strlit("zh_hans");
    reveal_strlit("zh-hant");
    reveal_strlit("zh_hant");
    reveal_strlit("hr");
    reveal_strlit("cs");
    reveal_strlit("da");
    reveal_strlit("nl");
    reveal_strlit("en");
    reveal_strlit("en-gb");
    reveal_strlit("en_gb");
    reveal_strlit("et");
    reveal_strlit("fi");
    reveal_strlit("fr");
    reveal_strlit("gl");
    reveal_strlit("de");
    reveal_strlit("gu");
    reveal_strlit("he");
    reveal_strlit("hi");
    reveal_strlit("hu");
    reveal_strlit("is");
    reveal_strlit("it");
    reveal_strlit("ja");
    reveal_strlit("kn");
    reveal_strlit("ko");
    reveal_strlit("lv");
    reveal_strlit("lt");
    reveal_strlit("ms");
    reveal_strlit("ml");
    reveal_strlit("mr");
    reveal_strlit("nb");
    reveal_strlit("pl");
    reveal_strlit("pt");
    reveal_strlit("pt-br");
    reveal_strlit("pt_br");
    reveal_strlit("pa");
    reveal_strlit("ro");
    reveal_strlit("ru");
    reveal_strlit("sr");
    reveal_strlit("sk");
    reveal_strlit("sl");
    reveal_strlit("es");
    reveal_strlit("sv");
    reveal_strlit("ta");
    reveal_strlit("te");
    reveal_strlit("th");
    reveal_strlit("tr");
    reveal_strlit("uk");
    reveal_strlit("vi");
    // Pin each spelling's length and characters, so that the solver can
    // tell any two of them apart while it walks the decoding chain.
    assert("ar"@.len() == 2);
    assert("ar"@[0] == 'a');
    assert("ar"@[1] == 'r');
    assert("eu"@.len() == 2);
    assert("eu"@[0] == 'e');
    assert("eu"@[1] == 'u');
    assert("bn"@.len() == 2);
    assert("bn"@[0] == 'b');
    assert("bn"@[1] == 'n');
    assert("bg"@.len() == 2);
    assert("bg"@[0] == 'b');
    assert("bg"@[1] == 'g');
    assert("ca"@.len() == 2);
    assert("ca"@[0] == 'c');
    assert("ca"@[1] == 'a');
    assert("zh-hans"@.len() == 7);
    assert("zh-hans"@[0] == 'z');
    assert("zh-hans"@[1] == 'h');
    assert("zh-hans"@[2] == '-');
    assert("zh-hans"@[3] == 'h');
    assert("zh-hans"@[4] == 'a');
    assert("zh-hans"@[5] == 'n');
    assert("zh-hans"@[6] == 's');
    assert("zh_hans"@.len() == 7);
    assert("zh_hans"@[0] == 'z');
    assert("zh_hans"@[1] == 'h');
    assert("zh_hans"@[2] == '_');
    assert("zh_hans"@[3] == 'h');
    assert("zh_hans"@[4] == 'a');
    assert("zh_hans"@[5] == 'n');
    assert("zh_hans"@[6] == 's');
    assert("zh-hant"@.len() == 7);
    assert("zh-hant"@[0] == 'z');
    assert("zh-hant"@[1] == 'h');
    assert("zh-hant"@[2] == '-');
    assert("zh-hant"@[3] == 'h');
    assert("zh-hant"@[4] == 'a');
    assert("zh-hant"@[5] == 'n');
    assert("zh-hant"@[6] == 't');
    assert("zh_hant"@.len() == 7);
    assert("zh_hant"@[0] == 'z');
    assert("zh_hant"@[1] == 'h');
    assert("zh_hant"@[2] == '_');
    assert("zh_hant"@[3] == 'h');
    assert("zh_hant"@[4] == 'a');
    assert("zh_hant"@[5] == 'n');
    assert("zh_hant"@[6] == 't');
    assert("hr"@.len() == 2);
    assert("hr"@[0] == 'h');
    assert("hr"@[1] == 'r');
    assert("cs"@.len() == 2);
    assert("cs"@[0] == 'c');
    assert("cs"@[1] == 's');
    assert("da"@.len() == 2);
    assert("da"@[0] == 'd');
    assert("da"@[1] == 'a');
    assert("nl"@.len() == 2);
    assert("nl"@[0] == 'n');
    assert("nl"@[1] == 'l');
    assert("en"@.len() == 2);
    assert("en"@[0] == 'e');
    assert("en"@[1] == 'n');
    assert("en-gb"@.len() == 5);
    assert("en-gb"@[0] == 'e');
    assert("en-gb"@[1] == 'n');
    assert("en-gb"@[2] == '-');
    assert("en-gb"@[3] == 'g');
    assert("en-gb"@[4] == 'b');
    assert("en_gb"@.len() == 5);
    assert("en_gb"@[0] == 'e');
    assert("en_gb"@[1] == 'n');
    assert("en_gb"@[2] == '_');
    assert("en_gb"@[3] == 'g');
    assert("en_gb"@[4] == 'b');
    assert("et"@.len() == 2);
    assert("et"@[0] == 'e');
    assert("et"@[1] == 't');
    assert("fi"@.len() == 2);
    assert("fi"@[0] == 'f');
    assert("fi"@[1] == 'i');
    assert("fr"@.len() == 2);
    assert("fr"@[0] == 'f');
    assert("fr"@[1] == 'r');
    assert("gl"@.len() == 2);
    assert("gl"@[0] == 'g');
    assert("gl"@[1] == 'l');
    assert("de"@.len() == 2);
    assert("de"@[0] == 'd');
    assert("de"@[1] == 'e');
    assert("gu"@.len() == 2);
    assert("gu"@[0] == 'g');
    assert("gu"@[1] == 'u');
    assert("he"@.len() == 2);
    assert("he"@[0] == 'h');
    assert("he"@[1] == 'e');
    assert("hi"@.len() == 2);
    assert("hi"@[0] == 'h');
    assert("hi"@[1] == 'i');
    assert("hu"@.len() == 2);
    assert("hu"@[0] == 'h');
    assert("hu"@[1] == 'u');
    assert("is"@.len() == 2);
    assert("is"@[0] == 'i');
    assert("is"@[1] == 's');
    assert("it"@.len() == 2);
    assert("it"@[0] == 'i');
    assert("it"@[1] == 't');
    assert("ja"@.len() == 2);
    assert("ja"@[0] == 'j');
    assert("ja"@[1] == 'a');
    assert("kn"@.len() == 2);
    assert("kn"@[0] == 'k');
    assert("kn"@[1] == 'n');
    assert("ko"@.len() == 2);
    assert("ko"@[0] == 'k');
    assert("ko"@[1] == 'o');
    assert("lv"@.len() == 2);
    assert("lv"@[0] == 'l');
    assert("lv"@[1] == 'v');
    assert("lt"@.len() == 2);
    assert("lt"@[0] == 'l');
    assert("lt"@[1] == 't');
    assert("ms"@.len() == 2);
    assert("ms"@[0] == 'm');
    assert("ms"@[1] == 's');
    assert("ml"@.len() == 2);
    assert("ml"@[0] == 'm');
    assert("ml"@[1] == 'l');
    assert("mr"@.len() == 2);
    assert("mr"@[0] == 'm');
    assert("mr"@[1] == 'r');
    assert("nb"@.len() == 2);
    assert("nb"@[0] == 'n');
    assert("nb"@[1] == 'b');
    assert("pl"@.len() == 2);
    assert("pl"@[0] == 'p');
    assert("pl"@[1] == 'l');
    assert("pt"@.len() == 2);
    assert("pt"@[0] == 'p');
    assert("pt"@[1] == 't');
    assert("pt-br"@.len() == 5);
    assert("pt-br"@[0] == 'p');
    assert("pt-br"@[1] == 't');
    assert("pt-br"@[2] == '-');
    assert("pt-br"@[3] == 'b');
    assert("pt-br"@[4] == 'r');
    assert("pt_br"@.len() == 5);
    assert("pt_br"@[0] == 'p');
    assert("pt_br"@[1] == 't');
    assert("pt_br"@[2] == '_');
    assert("pt_br"@[3] == 'b');
    assert("pt_br"@[4] == 'r');
    assert("pa"@.len() == 2);
    assert("pa"@[0] == 'p');
    assert("pa"@[1] == 'a');
    assert("ro"@.len() == 2);
    assert("ro"@[0] == 'r');
    assert("ro"@[1] == 'o');
    assert("ru"@.len() == 2);
    assert("ru"@[0] == 'r');
    assert("ru"@[1] == 'u');
    assert("sr"@.len() == 2);
    assert("sr"@[0] == 's');
    assert("sr"@[1] == 'r');
    assert("sk"@.len() == 2);
    assert("sk"@[0] == 's');
    assert("sk"@[1] == 'k');
    assert("sl"@.len() == 2);
    assert("sl"@[0] == 's');
    assert("sl"@[1] == 'l');
    assert("es"@.len() == 2);
    assert("es"@[0] == 'e');
    assert("es"@[1] == 's');
    assert("sv"@.len() == 2);
    assert("sv"@[0] == 's');
    assert("sv"@[1] == 'v');
    assert("ta"@.len() == 2);
    assert("ta"@[0] == 't');
    assert("ta"@[1] == 'a');
    assert("te"@.len() == 2);
    assert("te"@[0] == 't');
    assert("te"@[1] == 'e');
    assert("th"@.len() == 2);
    assert("th"@[0] == 't');
    assert("th"@[1] == 'h');
    assert("tr"@.len() == 2);
    assert("tr"@[0] == 't');
    assert("tr"@[1] == 'r');
    assert("uk"@.len() == 2);
    assert("uk"@[0] == 'u');
    assert("uk"@[1] == 'k');
    assert("vi"@.len() == 2);
    assert("vi"@[0] == 'v');
    assert("vi"@[1] == 'i');
    match c {
        LanguageCode::AR => {
            assert(language_of_lower("ar"@) == Some(LanguageCode::AR));
        },
        LanguageCode::EU => {
            assert(language_of_lower("eu"@) == Some(LanguageCode::EU));
        },
        LanguageCode::BN => {
            assert(language_of_lower("bn"@) == Some(LanguageCode::BN));
        },
        LanguageCode::BG => {
            assert(language_of_lower("bg"@) == Some(LanguageCode::BG));
        },
        LanguageCode::CA => {
            assert(language_of_lower("ca"@) == Some(LanguageCode::CA));
        },
        LanguageCode::ZhHans => {
            assert(language_of_lower("zh-hans"@) == Some(LanguageCode::ZhHans));
            assert(language_of_lower("zh_hans"@) == Some(LanguageCode::ZhHans));
        },
        LanguageCode::ZhHant => {
            assert(language_of_lower("zh-hant"@) == Some(LanguageCode::ZhHant));
            assert(language_of_lower("zh_hant"@) == Some(LanguageCode::ZhHant));
        },
        LanguageCode::HR => {
            assert(language_of_lower("hr"@) == Some(LanguageCode::HR));
        },
        LanguageCode::CS => {
            assert(language_of_lower("cs"@) == Some(LanguageCode::CS));
        },
        LanguageCode::DA => {
            assert(language_of_lower("da"@) == Some(LanguageCode::DA));
        },
        LanguageCode::NL => {
            assert(language_of_lower("nl"@) == Some(LanguageCode::NL));
        },
        LanguageCode::EN => {
            assert(language_of_lower("en"@) == Some(LanguageCode::EN));
        },
        LanguageCode::EnGb => {
            assert(language_of_lower("en-gb"@) == Some(LanguageCode::EnGb));
            assert(language_of_lower("en_gb"@) == Some(LanguageCode::EnGb));
        },
        LanguageCode::ET => {
            assert(language_of_lower("et"@) == Some(LanguageCode::ET));
        },
        LanguageCode::FI => {
            assert(language_of_lower("fi"@) == Some(LanguageCode::FI));
        },
        LanguageCode::FR => {
            assert(language_of_lower("fr"@) == Some(LanguageCode::FR));
        },
        LanguageCode::GL => {
            assert(language_of_lower("gl"@) == Some(LanguageCode::GL));
        },
        LanguageCode::DE => {
            assert(language_of_lower("de"@) == Some(LanguageCode::DE));
        },
        LanguageCode::GU => {
            assert(language_of_lower("gu"@) == Some(LanguageCode::GU));
        },
        LanguageCode::HE => {
            assert(language_of_lower("he"@) == Some(LanguageCode::HE));
        },
        LanguageCode::HI => {
            assert(language_of_lower("hi"@) == Some(LanguageCode::HI));
        },
        LanguageCode::HU => {
            assert(language_of_lower("hu"@) == Some(LanguageCode::HU));
        },
        LanguageCode::IS => {
            assert(language_of_lower("is"@) == Some(LanguageCode::IS));
        },
        LanguageCode::IT => {
            assert(language_of_lower("it"@) == Some(LanguageCode::IT));
        },
        LanguageCode::JA => {
            assert(language_of_lower("ja"@) == Some(LanguageCode::JA));
        },
        LanguageCode::KN => {
            assert(language_of_lower("kn"@) == Some(LanguageCode::KN));
        },
        LanguageCode::KO => {
            assert(language_of_lower("ko"@) == Some(LanguageCode::KO));
        },
        LanguageCode::LV => {
            assert(language_of_lower("lv"@) == Some(LanguageCode::LV));
        },
        LanguageCode::LT => {
            assert(language_of_lower("lt"@) == Some(LanguageCode::LT));
        },
        LanguageCode::MS => {
            assert(language_of_lower("ms"@) == Some(LanguageCode::MS));
        },
        LanguageCode::ML => {
            assert(language_of_lower("ml"@) == Some(LanguageCode::ML));
        },
        LanguageCode::MR => {
            assert(language_of_lower("mr"@) == Some(LanguageCode::MR));
        },
        LanguageCode::NB => {
            assert(language_of_lower("nb"@) == Some(LanguageCode::NB));
        },
        LanguageCode::PL => {
            assert(language_of_lower("pl"@) == Some(LanguageCode::PL));
        },
        LanguageCode::PT => {
            assert(language_of_lower("pt"@) == Some(LanguageCode::PT));
        },
        LanguageCode::PtBr => {
            assert(language_of_lower("pt-br"@) == Some(LanguageCode::PtBr));
            assert(language_of_lower("pt_br"@) == Some(LanguageCode::PtBr));
        },
        LanguageCode::PA => {
            assert(language_of_lower("pa"@) == Some(LanguageCode::PA));
        },
        LanguageCode::RO => {
            assert(language_of_lower("ro"@) == Some(LanguageCode::RO));
        },
        LanguageCode::RU => {
            assert(language_of_lower("ru"@) == Some(LanguageCode::RU));
        },
        LanguageCode::SR => {
            assert(language_of_lower("sr"@) == Some(LanguageCode::SR));
        },
        LanguageCode::SK => {
            assert(language_of_lower("sk"@) == Some(LanguageCode::SK));
        },
        LanguageCode::SL => {
            assert(language_of_lower("sl"@) == Some(LanguageCode::SL));
        },
        LanguageCode::ES => {
            assert(language_of_lower("es"@) == Some(LanguageCode::ES));
        },
        LanguageCode::SV => {
            assert(language_of_lower("sv"@) == Some(LanguageCode::SV));
        },
        LanguageCode::TA => {
            assert(language_of_lower("ta"@) == Some(LanguageCode::TA));
        },
        LanguageCode::TE => {
            assert(language_of_lower("te"@) == Some(LanguageCode::TE));
        },
        LanguageCode::TH => {
            assert(language_of_lower("th"@) == Some(LanguageCode::TH));
        },
        LanguageCode::TR => {
            assert(language_of_lower("tr"@) == Some(LanguageCode::TR));
        },
        LanguageCode::UK => {
            assert(language_of_lower("uk"@) == Some(LanguageCode::UK));
        },
        LanguageCode::VI => {
            assert(language_of_lower("vi"@) == Some(LanguageCode::VI));
        },
    }
}

/// Law: no lower-cased input names two distinct language codes.
pub proof fn lemma_language_match_unique(a: LanguageCode, b: LanguageCode, t: Seq<char>)
    requires
        language_matches(a, t),
        language_matches(b, t),
    ensures
        a == b,
{
    lemma_language_decode(a);
    lemma_language_decode(b);
}

/// Law: parsing the wire form of a language code yields that code again —
/// `p`, any parse result of `to_wire_string(c)` as `parse`'s contract
/// describes it, is `c` itself.
pub proof fn lemma_language_round_trip(c: LanguageCode, p: LanguageCode)
    requires
        language_matches(p, spec_lower(language_token(c))),
    ensures
        p == c,
{
    lemma_language_wire_canonical(c);
    lemma_language_match_unique(c, p, language_token(c));
}

/// Whether some country code matches the input, case-insensitively.
pub open spec fn country_input_valid(s: Seq<char>) -> bool {
    exists|c: CountryCode| spec_lower(s) == country_token(c)
}

/// Whether some language code matches the input, case-insensitively, in
/// either accepted spelling.
pub open spec fn language_input_valid(s: Seq<char>) -> bool {
    exists|l: LanguageCode| language_matches(l, spec_lower(s))
}

} // verus!

