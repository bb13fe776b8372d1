//! Data model: email relay records, the create-request shape with its
//! builder, account profiles, and the domain-alias predicate.

use vstd::prelude::*;

use crate::strutil::str_eq;

verus! {

/// `i` is the position of the first `@` in `s`.
pub open spec fn is_first_at(s: Seq<char>, i: int) -> bool {
    &&& 0 <= i < s.len()
    &&& s[i] == '@'
    &&& forall|j: int| 0 <= j < i ==> s[j] != '@'
}

/// An address names a custom domain alias when the part after its first `@`
/// differs from the literal domain `mozmail.com`. An address without `@`
/// counts as a standard alias, by design rather than as an error.
pub open spec fn spec_is_domain(s: Seq<char>) -> bool {
    exists|i: int|
        is_first_at(s, i) && s.subrange(i + 1, s.len() as int) != "mozmail.com"@
}

/// The first `@` position is unique.
proof fn lemma_first_at_unique(s: Seq<char>, i: int, k: int)
    requires
        is_first_at(s, i),
        is_first_at(s, k),
    ensures
        i == k,
{
    if i < k {
        assert(s[i] != '@');
    } else if k < i {
        assert(s[k] != '@');
    }
}

/// An address whose only `@` introduces the literal domain `mozmail.com`
/// is a standard alias, never a domain alias.
pub proof fn lemma_mozmail_address_not_domain(s: Seq<char>, i: int)
    requires
        is_first_at(s, i),
        s.subrange(i + 1, s.len() as int) == "mozmail.com"@,
    ensures
        !spec_is_domain(s),
{
    assert forall|k: int|
        !(is_first_at(s, k) && s.subrange(k + 1, s.len() as int) != "mozmail.com"@) by {
        if is_first_at(s, k) {
            lemma_first_at_unique(s, i, k);
        }
    }
}

/// An address made of an `@`-free local part followed by the literal
/// suffix `@mozmail.com` is a standard alias, never a domain alias.
pub proof fn lemma_standard_suffix_not_domain(local: Seq<char>, s: Seq<char>)
    requires
        forall|j: int| 0 <= j < local.len() ==> local[j] != '@',
        s == local + "@mozmail.com"@,
    ensures
        !spec_is_domain(s),
{
    reveal_strlit("@mozmail.com");
    reveal_strlit("mozmail.com");
    let i = local.len() as int;
    assert(s[i] == '@');
    assert(forall|j: int| 0 <= j < i ==> s[j] == local[j]);
    assert(s.subrange(i + 1, s.len() as int) =~= "mozmail.com"@);
    lemma_mozmail_address_not_domain(s, i);
}

/// An address made of an `@`-free local part, one `@`, and a domain part
/// other than `mozmail.com` is a domain alias.
pub proof fn lemma_foreign_suffix_is_domain(local: Seq<char>, domain: Seq<char>, s: Seq<char>)
    requires
        forall|j: int| 0 <= j < local.len() ==> local[j] != '@',
        s == local + seq!['@'] + domain,
        domain != "mozmail.com"@,
    ensures
        spec_is_domain(s),
{
    let i = local.len() as int;
    assert(s[i] == '@');
    assert(forall|j: int| 0 <= j < i ==> s[j] == local[j]);
    assert(s.subrange(i + 1, s.len() as int) =~= domain);
    lemma_foreign_domain_is_domain(s, i);
}

/// An address whose part after the first `@` differs from `mozmail.com`
/// is a domain alias.
pub proof fn lemma_foreign_domain_is_domain(s: Seq<char>, i: int)
    requires
        is_first_at(s, i),
        s.subrange(i + 1, s.len() as int) != "mozmail.com"@,
    ensures
        spec_is_domain(s),
{
}

/// An address without any `@` is a standard alias.
pub proof fn lemma_no_at_not_domain(s: Seq<char>)
    requires
        forall|j: int| 0 <= j < s.len() ==> s[j] != '@',
    ensures
        !spec_is_domain(s),
{
}

/// One email relay (alias), as the service reports it.
#[derive(Debug, Clone, PartialEq, Eq)]
pub struct FirefoxEmailRelay {
    /// Unique identifier for this relay, assigned by the service.
    pub id: u64,
    /// The full email address of the relay.
    pub full_address: String,
    /// User-provided description for this relay.
    pub description: String,
    /// Number of emails blocked by this relay.
    pub num_blocked: u64,
    /// Number of emails forwarded by this relay.
    pub num_forwarded: u64,
    /// Number of emails replied to through this relay.
    pub num_replied: u64,
    /// Number of spam emails detected for this relay.
    pub num_spam: u64,
}

impl FirefoxEmailRelay {
    /// Whether this relay is a custom domain relay rather than a standard
    /// `mozmail.com` relay: the address is split at its first `@` and the
    /// remainder compared, case-sensitively, with `mozmail.com`.
    pub fn is_domain(&self) -> (r: bool)
        ensures
            r == spec_is_domain(self.full_address@),
    {
        let addr: &str = self.full_address.as_str();
        let n: usize = addr.unicode_len();
        let mut i: usize = 0;
        while i < n
            invariant
                0 <= i <= n,
                n == addr@.len(),
                addr@ == self.full_address@,
                forall|j: int| 0 <= j < i ==> addr@[j] != '@',
            decreases n - i,
        {
            if addr.get_char(i) == '@' {
                let dom: &str = addr.substring_char(i + 1, n);
                let same = str_eq(dom, "mozmail.com");
                proof {
                    assert(is_first_at(addr@, i as int));
                    if same {
                        lemma_mozmail_address_not_domain(addr@, i as int);
                    } else {
                        lemma_foreign_domain_is_domain(addr@, i as int);
                    }
                }
                return !same;
            }
            i += 1;
        }
        proof {
            lemma_no_at_not_domain(addr@);
        }
        false
    }
}

/// Request parameters for creating a new email relay. `description` is
/// required; `enabled` defaults to `true`; `address` defaults to absent,
/// and its presence selects the custom-domain creation path.
#[derive(Debug, Clone, PartialEq, Eq)]
pub struct FirefoxEmailRelayRequest {
    /// Description for the relay.
    pub description: String,
    /// Whether the relay starts enabled.
    pub enabled: bool,
    /// Optional custom address for domain relays.
    pub address: Option<String>,
}

impl FirefoxEmailRelayRequest {
    /// Starts a builder with nothing set.
    pub fn builder() -> (b: FirefoxEmailRelayRequestBuilder)
        ensures
            b == (FirefoxEmailRelayRequestBuilder {
                description: None,
                enabled: None,
                address: None,
            }),
    {
        FirefoxEmailRelayRequestBuilder { description: None, enabled: None, address: None }
    }
}

/// Builder for [`FirefoxEmailRelayRequest`]. `build` demands a description;
/// the other fields fall back to their defaults when unset.
#[derive(Debug, Clone, PartialEq, Eq)]
pub struct FirefoxEmailRelayRequestBuilder {
    /// Description to give the new relay; must be set before `build`.
    pub description: Option<String>,
    /// Whether the relay starts enabled; `true` when left unset.
    pub enabled: Option<bool>,
    /// Custom address for a domain relay; absent when left unset.
    pub address: Option<String>,
}

impl FirefoxEmailRelayRequestBuilder {
    /// Sets the description.
    pub fn description(self, description: String) -> (b: Self)
        ensures
            b == (FirefoxEmailRelayRequestBuilder { description: Some(description), ..self }),
    {
        FirefoxEmailRelayRequestBuilder { description: Some(description), ..self }
    }

    /// Sets whether the relay starts enabled.
    pub fn enabled(self, enabled: bool) -> (b: Self)
        ensures
            b == (FirefoxEmailRelayRequestBuilder { enabled: Some(enabled), ..self }),
    {
        FirefoxEmailRelayRequestBuilder { enabled: Some(enabled), ..self }
    }

    /// Sets the custom address.
    pub fn address(self, address: String) -> (b: Self)
        ensures
            b == (FirefoxEmailRelayRequestBuilder { address: Some(address), ..self }),
    {
        FirefoxEmailRelayRequestBuilder { address: Some(address), ..self }
    }

    /// Sets or clears the custom address.
    pub fn maybe_address(self, address: Option<String>) -> (b: Self)
        ensures
            b == (FirefoxEmailRelayRequestBuilder { address, ..self }),
    {
        FirefoxEmailRelayRequestBuilder { address, ..self }
    }

    /// Finishes the request. The description must have been set; an unset
    /// `enabled` becomes `true`, an unset `address` stays absent.
    pub fn build(self) -> (r: FirefoxEmailRelayRequest)
        requires
            self.description is Some,
        ensures
            self.description matches Some(d) ==> r.description == d,
            self.enabled matches Some(e) ==> r.enabled == e,
            self.enabled is None ==> r.enabled == true,
            r.address == self.address,
    {
        let enabled = match self.enabled {
            Some(e) => e,
            None => true,
        };
        let description = match self.description {
            Some(d) => d,
            None => String::new(),
        };
        FirefoxEmailRelayRequest { description, enabled, address: self.address }
    }
}

/// Account-level profile record, read-only from this client's side.
#[derive(Debug, Clone, PartialEq, Eq)]
pub struct FirefoxRelayProfile {
    /// Unique identifier for this profile.
    pub id: u64,
    /// The API token for this profile.
    pub api_token: String,
    /// Whether the account has reached its mask limit.
    pub at_mask_limit: bool,
    /// URL of the user's avatar image.
    pub avatar: String,
    /// Date the user subscribed to premium features.
    pub date_subscribed: String,
    /// Total number of emails blocked across all relays.
    pub emails_blocked: u64,
    /// Total number of emails forwarded across all relays.
    pub emails_forwarded: u64,
    /// Total number of emails replied to across all relays.
    pub emails_replied: u64,
    /// Whether the account has the megabundle subscription.
    pub has_megabundle: bool,
    /// Whether the account has phone masking features.
    pub has_phone: bool,
    /// Whether the account has a premium subscription.
    pub has_premium: bool,
    /// Whether the account has Mozilla VPN.
    pub has_vpn: bool,
    /// Number of level one email trackers blocked.
    pub level_one_trackers_blocked: u64,
    /// Whether metrics collection is enabled.
    pub metrics_enabled: bool,
    /// Timestamp for the next allowed email creation attempt.
    pub next_email_try: String,
    /// Onboarding state for free tier users.
    pub onboarding_free_state: u32,
    /// General onboarding state.
    pub onboarding_state: u32,
    /// Whether level one email tracker removal is enabled.
    pub remove_level_one_email_trackers: bool,
    /// Whether server-side storage is enabled.
    pub server_storage: bool,
    /// Whether phone call logs are stored.
    pub store_phone_log: bool,
    /// Custom subdomain for premium users.
    pub subdomain: String,
    /// Total number of email masks created.
    pub total_masks: u64,
}

} // verus!
