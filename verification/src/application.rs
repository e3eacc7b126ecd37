//! Application identity: version numbers and vendor information.

use vstd::prelude::*;

pub mod session;

verus! {

use vstd::string::StringExecFns;

/// The character for the decimal digit `d`.
pub open spec fn spec_digit(d: nat) -> char {
    if d == 0 {
        '0'
    } else if d == 1 {
        '1'
    } else if d == 2 {
        '2'
    } else if d == 3 {
        '3'
    } else if d == 4 {
        '4'
    } else if d == 5 {
        '5'
    } else if d == 6 {
        '6'
    } else if d == 7 {
        '7'
    } else if d == 8 {
        '8'
    } else {
        '9'
    }
}

/// The decimal digits of `n`, most significant first, with no leading zeros
/// except for `n == 0` itself.
pub open spec fn spec_decimal(n: nat) -> Seq<char>
    decreases n,
{
    if n < 10 {
        seq![spec_digit(n)]
    } else {
        spec_decimal(n / 10).push(spec_digit(n % 10))
    }
}

/// The one-character text of the decimal digit `d`.
fn digit_text(d: u64) -> (r: &'static str)
    requires
        d < 10,
    ensures
        r@ == seq![spec_digit(d as nat)],
{
    proof {
        reveal_strlit("0");
        reveal_strlit("1");
        reveal_strlit("2");
        reveal_strlit("3");
        reveal_strlit("4");
        reveal_strlit("5");
        reveal_strlit("6");
        reveal_strlit("7");
        reveal_strlit("8");
        reveal_strlit("9");
    }
    if d == 0 {
        "0"
    } else if d == 1 {
        "1"
    } else if d == 2 {
        "2"
    } else if d == 3 {
        "3"
    } else if d == 4 {
        "4"
    } else if d == 5 {
        "5"
    } else if d == 6 {
        "6"
    } else if d == 7 {
        "7"
    } else if d == 8 {
        "8"
    } else {
        "9"
    }
}

/// Renders `n` in decimal.
pub fn decimal_text(n: u64) -> (r: String)
    ensures
        r@ == spec_decimal(n as nat),
    decreases n,
{
    if n < 10 {
        let mut s = String::new();
        s.append(digit_text(n));
        proof {
            assert(s@ =~= spec_decimal(n as nat));
        }
        s
    } else {
        let mut s = decimal_text(n / 10);
        s.append(digit_text(n % 10));
        proof {
            assert(s@ =~= spec_decimal(n as nat));
        }
        s
    }
}

/// A three-part version number with an optional pre-release suffix.
pub struct VersionInfo {
    pub major: u16,
    pub minor: u16,
    pub bugfix: u16,
    pub suffix: String,
}

/// The textual form of a version: `major.minor`, then `.bugfix` when the
/// bugfix number is positive, then `-suffix` when the suffix is non-empty.
pub open spec fn spec_version_text(
    major: nat,
    minor: nat,
    bugfix: nat,
    suffix: Seq<char>,
) -> Seq<char> {
    spec_decimal(major) + seq!['.'] + spec_decimal(minor) + (if bugfix > 0 {
        seq!['.'] + spec_decimal(bugfix)
    } else {
        Seq::<char>::empty()
    }) + (if suffix.len() > 0 {
        seq!['-'] + suffix
    } else {
        Seq::<char>::empty()
    })
}

impl VersionInfo {
    /// A version without a pre-release suffix.
    pub fn new(major: u16, minor: u16, bugfix: u16) -> (r: VersionInfo)
        ensures
            r.major == major,
            r.minor == minor,
            r.bugfix == bugfix,
            r.suffix@ == Seq::<char>::empty(),
    {
        VersionInfo { major, minor, bugfix, suffix: String::new() }
    }

    /// A version with a pre-release suffix such as `beta1`.
    pub fn new_with_suffix(major: u16, minor: u16, bugfix: u16, suffix: &str) -> (r: VersionInfo)
        ensures
            r.major == major,
            r.minor == minor,
            r.bugfix == bugfix,
            r.suffix@ == suffix@,
    {
        VersionInfo { major, minor, bugfix, suffix: suffix.to_owned() }
    }

    /// Renders the version as text.
    pub fn to_text(&self) -> (r: String)
        ensures
            r@ == spec_version_text(
                self.major as nat,
                self.minor as nat,
                self.bugfix as nat,
                self.suffix@,
            ),
    {
        proof {
            reveal_strlit(".");
            reveal_strlit("-");
        }
        let mut s = decimal_text(self.major as u64);
        s.append(".");
        let minor_text = decimal_text(self.minor as u64);
        s.append(minor_text.as_str());
        if self.bugfix > 0 {
            s.append(".");
            let bugfix_text = decimal_text(self.bugfix as u64);
            s.append(bugfix_text.as_str());
        }
        if !self.suffix.as_str().is_empty() {
            s.append("-");
            s.append(self.suffix.as_str());
        }
        proof {
            assert(s@ =~= spec_version_text(
                self.major as nat,
                self.minor as nat,
                self.bugfix as nat,
                self.suffix@,
            ));
        }
        s
    }
}

/// Vendor and licensing information about the application.
pub struct ApplicationInfo {
    pub copyright_year: u16,
    pub license: &'static str,
    pub name: &'static str,
    pub site: &'static str,
    pub vendor_email: &'static str,
    pub vendor_name: &'static str,
    pub version_info: VersionInfo,
}

/// The identity of this application.
pub fn create_appinfo() -> (r: ApplicationInfo)
    ensures
        r.copyright_year == 2018,
        r.name@ == "markemptydirs"@,
        r.version_info.major == 0,
        r.version_info.minor == 1,
        r.version_info.bugfix == 0,
        r.version_info.suffix@ == "beta1"@,
{
    ApplicationInfo {
        copyright_year: 2018,
        license: "Simplified BSD License",
        name: "markemptydirs",
        site: "https://github.com/jonnydee/markemptydirs-rs",
        vendor_email: "jonny.dee@posteo.net",
        vendor_name: "Johann Duscher",
        version_info: VersionInfo::new_with_suffix(0, 1, 0, "beta1"),
    }
}

} // verus!
