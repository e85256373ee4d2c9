//! The distribution records the installer works from: a static catalog
//! of families and variants, and the records scanned from disk.

use vstd::prelude::*;
use vstd::string::*;
use crate::text::spec_parse_dec;
use crate::text::parse_dec;
use crate::text::spec_split;
use crate::text::split_char;

pub mod alpine;
pub mod arch;
pub mod debian;
pub mod fedora;
pub mod kali;
pub mod ubuntu;
pub mod void;

verus! {

/// The closed set of distribution families the setup script
/// distinguishes; package bootstrap is dispatched over this tag.
#[derive(PartialEq, Eq, Structural, Clone, Copy, Debug)]
pub enum FamilyKind {
    Alpine,
    Arch,
    Void,
    Fedora,
    DebianFamily,
}

/// One installable distribution variant.
#[derive(Clone, Debug)]
pub struct Distro {
    pub name: String,
    pub codename: String,
    pub version: String,
    pub url: String,
    pub family: FamilyKind,
}

/// Ghost mirror of a `Distro`.
#[verifier::ext_equal]
pub struct DistroView {
    pub name: Seq<char>,
    pub codename: Seq<char>,
    pub version: Seq<char>,
    pub url: Seq<char>,
    pub family: FamilyKind,
}

impl View for Distro {
    type V = DistroView;

    open spec fn view(&self) -> DistroView {
        DistroView {
            name: self.name@,
            codename: self.codename@,
            version: self.version@,
            url: self.url@,
            family: self.family,
        }
    }
}

impl DeepView for Distro {
    type V = DistroView;

    open spec fn deep_view(&self) -> DistroView {
        self.view()
    }
}

/// A variant record as a ghost value.
pub open spec fn spec_distro(
    name: Seq<char>,
    codename: Seq<char>,
    version: Seq<char>,
    url: Seq<char>,
    family: FamilyKind,
) -> DistroView {
    DistroView { name, codename, version, url, family }
}

/// A family of distribution variants shown together for selection.
#[derive(Clone, Debug)]
pub struct DistroFamily {
    pub name: String,
    pub description: String,
    pub variants: Vec<Distro>,
}

/// Ghost mirror of a `DistroFamily`.
#[verifier::ext_equal]
pub struct DistroFamilyView {
    pub name: Seq<char>,
    pub description: Seq<char>,
    pub variants: Seq<DistroView>,
}

impl View for DistroFamily {
    type V = DistroFamilyView;

    open spec fn view(&self) -> DistroFamilyView {
        DistroFamilyView {
            name: self.name@,
            description: self.description@,
            variants: self.variants.deep_view(),
        }
    }
}

/// A provisioned tree found on disk, with its launcher script and the
/// login names read from its password database.
#[derive(Clone, Debug)]
pub struct InstalledDistro {
    pub name: String,
    pub path: String,
    pub script_path: String,
    pub users: Vec<String>,
}

/// Fields of `d` hold exactly the given values.
pub open spec fn distro_is(
    d: Distro,
    name: Seq<char>,
    codename: Seq<char>,
    version: Seq<char>,
    url: Seq<char>,
    family: FamilyKind,
) -> bool {
    &&& d.name@ == name
    &&& d.codename@ == codename
    &&& d.version@ == version
    &&& d.url@ == url
    &&& d.family == family
}

/// Builds a variant record from its parts.
pub fn make_distro(
    name: &str,
    codename: &str,
    version: &str,
    url: String,
    family: FamilyKind,
) -> (r: Distro)
    ensures
        distro_is(r, name@, codename@, version@, url@, family),
{
    Distro {
        name: String::from_str(name),
        codename: String::from_str(codename),
        version: String::from_str(version),
        url,
        family,
    }
}

/// The release architecture token used in download URLs, chosen from
/// the host machine architecture: the first mapping whose key matches,
/// else the final fallback.
pub open spec fn spec_arch_token(
    arch: Seq<char>,
    on_aarch64: Seq<char>,
    on_x86_64: Seq<char>,
    fallback: Seq<char>,
) -> Seq<char> {
    if arch == "aarch64"@ {
        on_aarch64
    } else if arch == "x86_64"@ {
        on_x86_64
    } else {
        fallback
    }
}

/// `p1`, then the architecture token, then `p2`.
pub open spec fn spec_splice1(p1: Seq<char>, tok: Seq<char>, p2: Seq<char>) -> Seq<char> {
    p1 + tok + p2
}

/// Builds a download URL holding the architecture token once.
pub fn splice1(p1: &str, tok: &str, p2: &str) -> (r: String)
    ensures
        r@ == spec_splice1(p1@, tok@, p2@),
{
    let mut r = String::from_str(p1);
    r.append(tok);
    r.append(p2);
    r
}

/// `p1`, the token, `p2`, the token again, then `p3`.
pub open spec fn spec_splice2(
    p1: Seq<char>,
    tok: Seq<char>,
    p2: Seq<char>,
    p3: Seq<char>,
) -> Seq<char> {
    p1 + tok + p2 + tok + p3
}

/// Builds a download URL holding the architecture token twice.
pub fn splice2(p1: &str, tok: &str, p2: &str, p3: &str) -> (r: String)
    ensures
        r@ == spec_splice2(p1@, tok@, p2@, p3@),
{
    let mut r = String::from_str(p1);
    r.append(tok);
    r.append(p2);
    r.append(tok);
    r.append(p3);
    r
}

/// Picks the URL architecture token for the host architecture.
pub fn arch_token<'a>(
    arch: &str,
    on_aarch64: &'a str,
    on_x86_64: &'a str,
    fallback: &'a str,
) -> (r: &'a str)
    ensures
        r@ == spec_arch_token(arch@, on_aarch64@, on_x86_64@, fallback@),
{
    if crate::text::str_eq(arch, "aarch64") {
        on_aarch64
    } else if crate::text::str_eq(arch, "x86_64") {
        on_x86_64
    } else {
        fallback
    }
}

/// A login line is kept when it has at least three `:`-separated
/// fields and its third field is a numeric user id in `1000..60000`.
pub open spec fn spec_passwd_line_user(line: Seq<char>) -> Option<Seq<char>> {
    let fields = spec_split(line, ':');
    if fields.len() >= 3 {
        match spec_parse_dec(fields[2], u32::MAX as int) {
            Some(uid) => if 1000 <= uid < 60000 {
                Some(fields[0])
            } else {
                None
            },
            None => None,
        }
    } else {
        None
    }
}

/// The login names read from a password database: `root`, then every
/// regular account (user id in `1000..60000`), in file order.
pub open spec fn spec_users_from_passwd(lines: Seq<Seq<char>>) -> Seq<Seq<char>>
    decreases lines.len(),
{
    if lines.len() == 0 {
        Seq::empty()
    } else {
        let rest = spec_users_from_passwd(lines.drop_first());
        match spec_passwd_line_user(lines[0]) {
            Some(user) => seq![user] + rest,
            None => rest,
        }
    }
}

impl Distro {
    /// The full catalog, one family per supported distribution line.
    pub fn get_all_families(arch: &str) -> (r: Vec<DistroFamily>)
        ensures
            r.len() == 7,
            r@[0]@ == ubuntu::spec_family(arch@),
            r@[1]@ == debian::spec_family(arch@),
            r@[2]@ == alpine::spec_family(arch@),
            r@[3]@ == arch::spec_family(arch@),
            r@[4]@ == kali::spec_family(arch@),
            r@[5]@ == void::spec_family(arch@),
            r@[6]@ == fedora::spec_family(arch@),
    {
        let mut r: Vec<DistroFamily> = Vec::new();
        r.push(ubuntu::get_family(arch));
        r.push(debian::get_family(arch));
        r.push(alpine::get_family(arch));
        r.push(arch::get_family(arch));
        r.push(kali::get_family(arch));
        r.push(void::get_family(arch));
        r.push(fedora::get_family(arch));
        r
    }

    /// The flat Ubuntu catalog kept beside the family catalog; its last
    /// entry predates the dated release path of the family catalog.
    pub fn get_ubuntu_flavors(arch: &str) -> (r: Vec<Distro>)
        ensures
            ({
                let tok = spec_arch_token(arch@, "arm64"@, "amd64"@, "armhf"@);
                &&& r.len() == 4
                &&& distro_is(
                    r@[0],
                    "Ubuntu 20.04 LTS (Focal Fossa)"@,
                    "focal"@,
                    "20.04.5"@,
                    spec_splice1(
                        "https://cdimage.ubuntu.com/ubuntu-base/releases/20.04/release/ubuntu-base-20.04.5-base-"@,
                        tok,
                        ".tar.gz"@,
                    ),
                    FamilyKind::DebianFamily,
                )
                &&& distro_is(
                    r@[1],
                    "Ubuntu 22.04 LTS (Jammy Jellyfish)"@,
                    "jammy"@,
                    "22.04.5"@,
                    spec_splice1(
                        "https://cdimage.ubuntu.com/ubuntu-base/releases/22.04/release/ubuntu-base-22.04.5-base-"@,
                        tok,
                        ".tar.gz"@,
                    ),
                    FamilyKind::DebianFamily,
                )
                &&& distro_is(
                    r@[2],
                    "Ubuntu 24.04 LTS (Noble Numbat)"@,
                    "noble"@,
                    "24.04.3"@,
                    spec_splice1(
                        "https://cdimage.ubuntu.com/ubuntu-base/releases/24.04/release/ubuntu-base-24.04.3-base-"@,
                        tok,
                        ".tar.gz"@,
                    ),
                    FamilyKind::DebianFamily,
                )
                &&& distro_is(
                    r@[3],
                    "Ubuntu 26.04 LTS (Resolute Raccoon)"@,
                    "resolute"@,
                    "26.04"@,
                    spec_splice1(
                        "https://cdimage.ubuntu.com/ubuntu-base/releases/resolute/snapshot1/ubuntu-base-26.04-base-"@,
                        tok,
                        ".tar.gz"@,
                    ),
                    FamilyKind::DebianFamily,
                )
            }),
    {
        let tok = arch_token(arch, "arm64", "amd64", "armhf");
        let mut r: Vec<Distro> = Vec::new();
        r.push(
            make_distro(
                "Ubuntu 20.04 LTS (Focal Fossa)",
                "focal",
                "20.04.5",
                splice1(
                    "https://cdimage.ubuntu.com/ubuntu-base/releases/20.04/release/ubuntu-base-20.04.5-base-",
                    tok,
                    ".tar.gz",
                ),
                FamilyKind::DebianFamily,
            ),
        );
        r.push(
            make_distro(
                "Ubuntu 22.04 LTS (Jammy Jellyfish)",
                "jammy",
                "22.04.5",
                splice1(
                    "https://cdimage.ubuntu.com/ubuntu-base/releases/22.04/release/ubuntu-base-22.04.5-base-",
                    tok,
                    ".tar.gz",
                ),
                FamilyKind::DebianFamily,
            ),
        );
        r.push(
            make_distro(
                "Ubuntu 24.04 LTS (Noble Numbat)",
                "noble",
                "24.04.3",
                splice1(
                    "https://cdimage.ubuntu.com/ubuntu-base/releases/24.04/release/ubuntu-base-24.04.3-base-",
                    tok,
                    ".tar.gz",
                ),
                FamilyKind::DebianFamily,
            ),
        );
        r.push(
            make_distro(
                "Ubuntu 26.04 LTS (Resolute Raccoon)",
                "resolute",
                "26.04",
                splice1(
                    "https://cdimage.ubuntu.com/ubuntu-base/releases/resolute/snapshot1/ubuntu-base-26.04-base-",
                    tok,
                    ".tar.gz",
                ),
                FamilyKind::DebianFamily,
            ),
        );
        r
    }

    /// Extracts the login names from the text of an `etc/passwd` file:
    /// `root` first, then every account whose user id lies in
    /// `1000..60000`, in file order.
    pub fn get_users_from_passwd(content: &str) -> (r: Vec<String>)
        ensures
            r.deep_view() == seq!["root"@] + spec_users_from_passwd(spec_split(content@, '\n')),
    {
        let lines = split_char(content, '\n');
        let mut out: Vec<String> = Vec::new();
        out.push(String::from_str("root"));
        let n = lines.len();
        let mut i: usize = 0;
        proof {
            assert(lines.deep_view().skip(0) =~= lines.deep_view());
            assert(out.deep_view() =~= seq!["root"@]);
        }
        while i < n
            invariant
                n == lines.len(),
                i <= n,
                out.deep_view() + spec_users_from_passwd(lines.deep_view().skip(i as int))
                    == seq!["root"@] + spec_users_from_passwd(lines.deep_view()),
            decreases n - i,
        {
            let ghost pre = out.deep_view();
            let ghost tail = lines.deep_view().skip(i as int);
            proof {
                assert(tail[0] == lines.deep_view()[i as int]);
                assert(tail.drop_first() =~= lines.deep_view().skip(i + 1));
            }
            let fields = split_char(lines[i].as_str(), ':');
            proof {
                assert(lines.deep_view()[i as int] == lines@[i as int]@);
                assert(fields.deep_view() == spec_split(tail[0], ':'));
            }
            if fields.len() >= 3 {
                proof {
                    assert(fields@[2]@ == fields.deep_view()[2]);
                    assert(fields@[0]@ == fields.deep_view()[0]);
                }
                match parse_dec(fields[2].as_str(), u32::MAX as u64) {
                    Some(uid) => {
                        if 1000 <= uid && uid < 60000 {
                            out.push(fields[0].clone());
                            proof {
                                let user = spec_split(tail[0], ':')[0];
                                assert(out.deep_view() =~= pre + seq![user]);
                                assert(pre + (seq![user] + spec_users_from_passwd(
                                    tail.drop_first(),
                                )) =~= (pre + seq![user]) + spec_users_from_passwd(
                                    tail.drop_first(),
                                ));
                            }
                        }
                    },
                    None => {},
                }
            }
            i += 1;
        }
        proof {
            assert(lines.deep_view().skip(n as int) =~= Seq::<Seq<char>>::empty());
            assert(out.deep_view() + Seq::<Seq<char>>::empty() =~= out.deep_view());
        }
        out
    }
}

} // verus!
