//! Certificate roles and the role-dependent certificate profile: subject
//! naming, validity windows and basic constraints.

use vstd::prelude::*;
use vstd::string::StringExecFns;
use crate::pki;
use picky::key::PrivateKey;
use picky::x509::certificate::CertError;
use picky::x509::Cert;

verus! {

/// The role a stored certificate plays in the trust hierarchy.
///
/// `ROOT`, `CLIENTINTER` and `PROXYINTER` are singletons: the store keeps at
/// most one active record for each of them.  Leaf roles identify individual
/// clients or proxies and are issued outside the bootstrap path.
#[derive(Clone, Copy, Debug, PartialEq, Eq, Structural)]
pub enum Types {
    ROOT,
    CLIENTINTER,
    PROXYINTER,
    CLIENTLEAF,
    PROXYLEAF,
}

impl Types {
    /// The value stored in the `cert_type` column for this role.
    pub open spec fn spec_str(self) -> Seq<char> {
        match self {
            Types::ROOT => "ROOT"@,
            Types::CLIENTINTER => "CLIENTINTER"@,
            Types::PROXYINTER => "PROXYINTER"@,
            Types::CLIENTLEAF => "CLIENTLEAF"@,
            Types::PROXYLEAF => "PROXYLEAF"@,
        }
    }

    /// Stable textual form of the role, as persisted by the store.
    pub fn as_str(&self) -> (r: &'static str)
        ensures
            r@ == self.spec_str(),
    {
        match self {
            Types::ROOT => "ROOT",
            Types::CLIENTINTER => "CLIENTINTER",
            Types::PROXYINTER => "PROXYINTER",
            Types::CLIENTLEAF => "CLIENTLEAF",
            Types::PROXYLEAF => "PROXYLEAF",
        }
    }

    /// Roles for which at most one active record may exist.
    pub open spec fn is_singleton(self) -> bool {
        self == Types::ROOT || self == Types::CLIENTINTER || self == Types::PROXYINTER
    }

    /// Executable form of [`Types::is_singleton`].
    pub fn is_singleton_role(&self) -> (r: bool)
        ensures
            r == self.is_singleton(),
    {
        match self {
            Types::ROOT => true,
            Types::CLIENTINTER => true,
            Types::PROXYINTER => true,
            Types::CLIENTLEAF => false,
            Types::PROXYLEAF => false,
        }
    }

    /// Roles that denote a certificate authority built during bootstrap.
    pub open spec fn is_ca_role(self) -> bool {
        self.is_singleton()
    }
}

/// The purpose of an intermediate authority: issuing client leaves or proxy
/// leaves.
#[derive(Clone, Copy, Debug, PartialEq, Eq, Structural)]
pub enum InterTarget {
    CLIENT,
    PROXY,
}

impl InterTarget {
    /// The token embedded in the intermediate's subject common name.
    pub open spec fn spec_str(self) -> Seq<char> {
        match self {
            InterTarget::CLIENT => "CLIENT"@,
            InterTarget::PROXY => "PROXY"@,
        }
    }

    /// Textual form of the target token.
    pub fn as_str(&self) -> (r: &'static str)
        ensures
            r@ == self.spec_str(),
    {
        match self {
            InterTarget::CLIENT => "CLIENT",
            InterTarget::PROXY => "PROXY",
        }
    }

    /// The store role of the intermediate serving this target.
    pub open spec fn spec_role(self) -> Types {
        match self {
            InterTarget::CLIENT => Types::CLIENTINTER,
            InterTarget::PROXY => Types::PROXYINTER,
        }
    }

    /// Executable form of [`InterTarget::spec_role`].
    pub fn role(&self) -> (r: Types)
        ensures
            r == self.spec_role(),
    {
        match self {
            InterTarget::CLIENT => Types::CLIENTINTER,
            InterTarget::PROXY => Types::PROXYINTER,
        }
    }
}

/// A calendar date at day granularity, as used in certificate validity
/// windows.
#[derive(Clone, Copy, Debug, PartialEq, Eq, Structural)]
pub struct Ymd {
    pub year: u16,
    pub month: u8,
    pub day: u8,
}

/// The dates the X.509 date encoder accepts: month 1 to 12 and day 1 to 32.
pub open spec fn valid_ymd(d: Ymd) -> bool {
    1 <= d.month <= 12 && 1 <= d.day <= 32
}

/// Shifts a date by whole years, keeping month and day.
pub fn add_years(d: Ymd, years: u16) -> (r: Ymd)
    requires
        d.year + years <= u16::MAX,
    ensures
        r.year == d.year + years,
        r.month == d.month,
        r.day == d.day,
        valid_ymd(d) ==> valid_ymd(r),
{
    Ymd { year: d.year + years, month: d.month, day: d.day }
}

/// How many years a freshly built certificate of the given authority role
/// stays valid: twenty for the root, five for an intermediate.
pub open spec fn spec_validity_years(role: Types) -> u16 {
    if role == Types::ROOT {
        20
    } else {
        5
    }
}

/// Executable form of [`spec_validity_years`].
pub fn validity_years(role: Types) -> (r: u16)
    ensures
        r == spec_validity_years(role),
{
    if let Types::ROOT = role {
        20
    } else {
        5
    }
}

/// The validity window of a certificate built today for the given authority
/// role: from today until today plus the role's validity length, at day
/// granularity.
pub open spec fn spec_ca_validity(role: Types, today: Ymd) -> (Ymd, Ymd) {
    (
        today,
        Ymd {
            year: (today.year + spec_validity_years(role)) as u16,
            month: today.month,
            day: today.day,
        },
    )
}

/// Executable form of [`spec_ca_validity`].
pub fn ca_validity(role: Types, today: Ymd) -> (r: (Ymd, Ymd))
    requires
        today.year + spec_validity_years(role) <= u16::MAX,
    ensures
        r == spec_ca_validity(role, today),
        valid_ymd(today) ==> valid_ymd(r.1),
{
    (today, add_years(today, validity_years(role)))
}

/// Whether certificates of this role carry `CA=true`.
pub open spec fn spec_is_ca(role: Types) -> bool {
    role.is_ca_role()
}

/// The path length constraint of certificates of this role: the root carries
/// none, an intermediate carries zero, so that it may only sign leaves.
pub open spec fn spec_pathlen(role: Types) -> Option<u8> {
    match role {
        Types::CLIENTINTER => Some(0u8),
        Types::PROXYINTER => Some(0u8),
        _ => None,
    }
}

/// The organisational common name on the root certificate.
pub open spec fn spec_root_common_name() -> Seq<char> {
    "Driptorch"@
}

/// Subject common name of the root certificate.
pub fn root_common_name() -> (r: &'static str)
    ensures
        r@ == spec_root_common_name(),
{
    "Driptorch"
}

/// Subject common name of an intermediate: the organisation name followed by
/// the target token.
pub open spec fn spec_inter_common_name(target: InterTarget) -> Seq<char> {
    "Driptorch "@ + target.spec_str()
}

/// Builds the subject common name of the intermediate serving `target`.
pub fn inter_common_name(target: &InterTarget) -> (r: String)
    ensures
        r@ == spec_inter_common_name(*target),
{
    let mut name = String::from_str("Driptorch ");
    name.append(target.as_str());
    name
}

/// Executable form of [`spec_is_ca`]: the `CA` basic constraint handed to the
/// certificate builder.
pub fn ca_constraint(role: Types) -> (r: bool)
    ensures
        r == spec_is_ca(role),
{
    role.is_singleton_role()
}

/// The path length handed to the builder for an intermediate: zero, so the
/// intermediate may sign leaves but never another authority.
pub fn inter_pathlen(role: Types) -> (r: u8)
    requires
        role == Types::CLIENTINTER || role == Types::PROXYINTER,
    ensures
        Some(r) == spec_pathlen(role),
{
    0
}

/// Builds the self-signed root certificate: subject and issuer are the fixed
/// organisational common name, the validity window runs from `today` for
/// twenty years, and the certificate carries `CA=true` with no path length
/// restriction.
pub fn generate_root_cert(key: &PrivateKey, today: Ymd) -> (r: Result<Cert, CertError>)
    requires
        valid_ymd(today),
        today.year + 20 <= u16::MAX,
{
    let window = ca_validity(Types::ROOT, today);
    pki::build_self_signed(
        key,
        root_common_name(),
        window.0,
        window.1,
        ca_constraint(Types::ROOT),
    )
}

/// Builds an intermediate certificate for `key`, chained to and signed by the
/// root: the subject common name embeds the target token, the validity window
/// runs from `today` for five years, and the certificate carries `CA=true`
/// with a path length of zero.
pub fn generate_inter_cert(
    key: &PrivateKey,
    target: InterTarget,
    root: (&Cert, &PrivateKey),
    today: Ymd,
) -> (r: Result<Cert, CertError>)
    requires
        valid_ymd(today),
        today.year + 5 <= u16::MAX,
{
    let role = target.role();
    let window = ca_validity(role, today);
    let name = inter_common_name(&target);
    pki::build_issued(
        key,
        root.0,
        root.1,
        name.as_str(),
        window.0,
        window.1,
        ca_constraint(role),
        inter_pathlen(role),
    )
}

/// Validity window law: a certificate built today is dated from today, and
/// its expiry keeps today's month and day while the year moves forward by
/// twenty years for the root and five years for an intermediate.
pub proof fn lemma_validity_window(role: Types, today: Ymd)
    requires
        role.is_ca_role(),
        today.year + spec_validity_years(role) <= u16::MAX,
    ensures
        spec_ca_validity(role, today).0 == today,
        role == Types::ROOT ==> spec_ca_validity(role, today).1.year == today.year + 20,
        role != Types::ROOT ==> spec_ca_validity(role, today).1.year == today.year + 5,
        spec_ca_validity(role, today).1.month == today.month,
        spec_ca_validity(role, today).1.day == today.day,
{
}

/// Basic-constraints law: every bootstrap authority carries `CA=true`; both
/// intermediates carry a path length of zero, so they may only sign leaves,
/// while the root carries no path length restriction.
pub proof fn lemma_basic_constraints()
    ensures
        spec_is_ca(Types::ROOT) && spec_pathlen(Types::ROOT) is None,
        spec_is_ca(Types::CLIENTINTER) && spec_pathlen(Types::CLIENTINTER) == Some(0u8),
        spec_is_ca(Types::PROXYINTER) && spec_pathlen(Types::PROXYINTER) == Some(0u8),
{
}

/// Naming law: the two intermediates get distinct subject common names, and
/// each name is the organisation name followed by its own target token.
pub proof fn lemma_inter_names_distinct()
    ensures
        spec_inter_common_name(InterTarget::CLIENT) != spec_inter_common_name(InterTarget::PROXY),
        spec_inter_common_name(InterTarget::CLIENT).skip(10) == "CLIENT"@,
        spec_inter_common_name(InterTarget::PROXY).skip(10) == "PROXY"@,
        spec_inter_common_name(InterTarget::CLIENT) != spec_root_common_name(),
        spec_inter_common_name(InterTarget::PROXY) != spec_root_common_name(),
{
    reveal_strlit("Driptorch ");
    reveal_strlit("Driptorch");
    reveal_strlit("CLIENT");
    reveal_strlit("PROXY");
    assert(spec_inter_common_name(InterTarget::CLIENT).skip(10) =~= "CLIENT"@);
    assert(spec_inter_common_name(InterTarget::PROXY).skip(10) =~= "PROXY"@);
    assert(spec_inter_common_name(InterTarget::CLIENT).len() == 16);
    assert(spec_inter_common_name(InterTarget::PROXY).len() == 15);
}

} // verus!
