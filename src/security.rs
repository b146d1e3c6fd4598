use vstd::prelude::*;

use crate::config::{RateLimitSettings, SecuritySettings};
use crate::error::McpError;
use crate::protocol::{str_member, CallToolRequest, ReadResourceRequest};
use crate::text::{is_prefix, join2, starts_with, str_eq};

verus! {

/// Credit units in one token: a token is worth one minute of milliseconds,
/// so that refilling `rate` tokens per minute adds `rate` units per millisecond.
pub const TOKEN: u64 = 60_000;

/// Tokens the bucket holds when full: the steady rate plus the burst allowance.
pub open spec fn capacity_of(s: RateLimitSettings) -> nat {
    s.requests_per_minute as nat + s.burst as nat
}

/// Credit of a full bucket.
pub open spec fn full_credit(s: RateLimitSettings) -> nat {
    capacity_of(s) * TOKEN as nat
}

/// Credit after refilling from `last` to `now` at the configured rate, up to a full bucket.
/// A clock that went back refills nothing.
pub open spec fn refilled(s: RateLimitSettings, credit: nat, last: nat, now: nat) -> nat {
    if now <= last {
        credit
    } else {
        let c: nat = credit + (now - last) as nat * s.requests_per_minute as nat;
        if c > full_credit(s) {
            full_credit(s)
        } else {
            c
        }
    }
}

/// A token bucket that admits or rejects each request at once; it never waits.
pub struct RateLimiter {
    settings: RateLimitSettings,
    credit: u64,
    last_refill: u64,
}

impl RateLimiter {
    pub closed spec fn settings(&self) -> RateLimitSettings {
        self.settings
    }

    /// Credit in the bucket, in units of `TOKEN` per token.
    pub closed spec fn credit(&self) -> nat {
        self.credit as nat
    }

    /// The time of the last refill, in milliseconds.
    pub closed spec fn last_refill(&self) -> nat {
        self.last_refill as nat
    }

    pub open spec fn wf(&self) -> bool {
        self.credit() <= full_credit(self.settings())
    }

    /// A limiter with a full bucket.
    pub fn new(settings: &RateLimitSettings) -> (r: RateLimiter)
        ensures
            r.wf(),
            r.settings() == *settings,
            r.credit() == full_credit(*settings),
            r.last_refill() == 0,
    {
        let cap = settings.requests_per_minute as u64 + settings.burst as u64;
        RateLimiter { settings: *settings, credit: cap * TOKEN, last_refill: 0 }
    }

    /// The bucket's credit once refilled up to `now`.
    pub open spec fn refilled_at(&self, now: nat) -> nat {
        refilled(self.settings(), self.credit(), self.last_refill(), now)
    }

    /// A check at `now` admits the request.
    pub open spec fn admits_at(&self, now: nat) -> bool {
        !self.settings().enabled || self.refilled_at(now) >= TOKEN
    }

    /// The credit after a check at `now`.
    pub open spec fn credit_after(&self, now: nat) -> nat {
        if !self.settings().enabled {
            self.credit()
        } else if self.admits_at(now) {
            (self.refilled_at(now) - TOKEN) as nat
        } else {
            self.refilled_at(now)
        }
    }

    /// The time of the last refill after a check at `now`.
    pub open spec fn last_after(&self, now: nat) -> nat {
        if self.settings().enabled && now > self.last_refill() {
            now
        } else {
            self.last_refill()
        }
    }

    /// Take one token at time `now` (milliseconds). A disabled limiter admits
    /// everything and keeps no account.
    pub fn check(&mut self, now: u64) -> (r: Result<(), McpError>)
        requires
            old(self).wf(),
        ensures
            final(self).wf(),
            final(self).settings() == old(self).settings(),
            r is Ok <==> old(self).admits_at(now as nat),
            final(self).credit() == old(self).credit_after(now as nat),
            final(self).last_refill() == old(self).last_after(now as nat),
            r is Err ==> r->Err_0 is RateLimitExceeded,
    {
        if !self.settings.enabled {
            return Ok(());
        }
        let cap = self.settings.requests_per_minute as u64 + self.settings.burst as u64;
        let full = cap * TOKEN;
        if now > self.last_refill {
            let d: u128 = (now - self.last_refill) as u128;
            let rate: u128 = self.settings.requests_per_minute as u128;
            assert(d * rate <= u64::MAX as u128 * u32::MAX as u128) by (nonlinear_arith)
                requires
                    d <= u64::MAX as u128,
                    rate <= u32::MAX as u128,
            ;
            let gained: u128 = d * rate;
            let c: u128 = self.credit as u128 + gained;
            self.credit = if c > full as u128 {
                full
            } else {
                c as u64
            };
            self.last_refill = now;
        }
        if self.credit >= TOKEN {
            self.credit = self.credit - TOKEN;
            Ok(())
        } else {
            Err(McpError::RateLimitExceeded)
        }
    }
}

/// Entry `a` of a rule covers value `v`: by exact value, or, for hierarchical
/// identifiers, as a leading namespace followed by `/`.
pub open spec fn covers(a: Seq<char>, v: Seq<char>, hierarchical: bool) -> bool {
    a == v || (hierarchical && is_prefix(a + "/"@, v))
}

/// Some entry of `list` covers `v`.
pub open spec fn listed(list: Seq<String>, v: Seq<char>, hierarchical: bool) -> bool {
    exists|i: int| 0 <= i < list.len() && covers(#[trigger] list[i]@, v, hierarchical)
}

/// An allow list, when present, admits exactly what it covers; otherwise
/// everything is admitted that the deny list does not cover.
pub open spec fn rule_admits(
    allow: Option<Vec<String>>,
    deny: Vec<String>,
    v: Seq<char>,
    hierarchical: bool,
) -> bool {
    match allow {
        Some(a) => listed(a@, v, hierarchical),
        None => !listed(deny@, v, hierarchical),
    }
}

/// Whether entry `a` covers `v`.
pub fn covers_exec(a: &str, v: &str, hierarchical: bool) -> (r: bool)
    ensures
        r == covers(a@, v@, hierarchical),
{
    if str_eq(a, v) {
        return true;
    }
    if !hierarchical {
        return false;
    }
    let ns = join2(a, "/");
    starts_with(v, ns.as_str())
}

/// The first entry of `list` that covers `v`.
pub fn find_listed(list: &Vec<String>, v: &str, hierarchical: bool) -> (r: Option<usize>)
    ensures
        r is None <==> !listed(list@, v@, hierarchical),
        r is Some ==> r.unwrap() < list@.len() && covers(
            list@[r.unwrap() as int]@,
            v@,
            hierarchical,
        ),
{
    let mut i: usize = 0;
    while i < list.len()
        invariant
            i <= list@.len(),
            forall|j: int| 0 <= j < i ==> !covers(#[trigger] list@[j]@, v@, hierarchical),
        decreases list@.len() - i,
    {
        if covers_exec(list[i].as_str(), v, hierarchical) {
            return Some(i);
        }
        i = i + 1;
    }
    None
}

/// `what 'item' tail`
pub open spec fn denial_text(what: Seq<char>, item: Seq<char>, tail: Seq<char>) -> Seq<char> {
    what + " '"@ + item + "' "@ + tail
}

/// `e` is the refusal of one allow/deny rule for `v`: with an allow list it
/// names `v`, otherwise it names a denied entry that covers `v`.
pub open spec fn rule_refusal(
    allow: Option<Vec<String>>,
    deny: Vec<String>,
    v: Seq<char>,
    hierarchical: bool,
    what: Seq<char>,
    e: McpError,
) -> bool {
    match e {
        McpError::OperationNotPermitted(m) => match allow {
            Some(_) => m@ == denial_text(what, v, "is not in the allowed list"@),
            None => exists|i: int|
                0 <= i < deny@.len() && covers(#[trigger] deny@[i]@, v, hierarchical) && m@
                    == denial_text(what, deny@[i]@, "is in the denied list"@),
        },
        _ => false,
    }
}

fn denial(what: &str, item: &str, tail: &str) -> (r: String)
    ensures
        r@ == denial_text(what@, item@, tail@),
{
    let mut m = join2(what, " '");
    m.append(item);
    m.append("' ");
    m.append(tail);
    m
}

/// Apply one allow/deny rule to `v`; `what` names the kind of value in the message.
pub fn apply_rule(
    allow: &Option<Vec<String>>,
    deny: &Vec<String>,
    v: &str,
    hierarchical: bool,
    what: &str,
) -> (r: Result<(), McpError>)
    ensures
        r is Ok <==> rule_admits(*allow, *deny, v@, hierarchical),
        r is Err ==> r->Err_0 is OperationNotPermitted,
        r is Err ==> rule_refusal(*allow, *deny, v@, hierarchical, what@, r->Err_0),
{
    match allow {
        Some(a) => {
            if find_listed(a, v, hierarchical).is_none() {
                return Err(
                    McpError::OperationNotPermitted(denial(what, v, "is not in the allowed list")),
                );
            }
        },
        None => {
            match find_listed(deny, v, hierarchical) {
                Some(i) => {
                    return Err(
                        McpError::OperationNotPermitted(
                            denial(what, deny[i].as_str(), "is in the denied list"),
                        ),
                    );
                },
                None => {},
            }
        },
    }
    Ok(())
}

pub open spec fn is_compose_tool(name: Seq<char>) -> bool {
    name == "compose-up"@ || name == "compose-down"@
}

/// The policy on calling tool `name` with `args`: the command rule on its name,
/// and for the compose tools the project rule on the directory they name.
pub open spec fn tool_permitted(
    s: SecuritySettings,
    name: Seq<char>,
    args: crate::protocol::JsonValue,
) -> bool {
    &&& rule_admits(s.commands.allowed_commands, s.commands.denied_commands, name, false)
    &&& is_compose_tool(name) ==> match str_member(args, "project_directory"@) {
        Some(d) => rule_admits(s.networks.allowed_networks, s.networks.denied_networks, d, false),
        None => true,
    }
}

pub open spec fn container_scheme() -> Seq<char> {
    "docker://container/"@
}

pub open spec fn image_scheme() -> Seq<char> {
    "docker://image/"@
}

pub open spec fn compose_scheme() -> Seq<char> {
    "docker://compose/"@
}

/// `uri` without its first `k` characters.
pub open spec fn after(uri: Seq<char>, k: nat) -> Seq<char> {
    uri.subrange(k as int, uri.len() as int)
}

/// The policy on reading `uri`: images are held to the registry rule (by
/// namespace) and the base-image rule, compose projects to the project rule;
/// containers and everything else pass.
pub open spec fn resource_permitted(s: SecuritySettings, uri: Seq<char>) -> bool {
    if is_prefix(container_scheme(), uri) {
        true
    } else if is_prefix(image_scheme(), uri) {
        let image = after(uri, image_scheme().len());
        &&& rule_admits(
            s.registries.allowed_registries,
            s.registries.denied_registries,
            image,
            true,
        )
        &&& rule_admits(
            s.registries.allowed_base_images,
            s.registries.denied_base_images,
            image,
            false,
        )
    } else if is_prefix(compose_scheme(), uri) {
        rule_admits(
            s.networks.allowed_networks,
            s.networks.denied_networks,
            after(uri, compose_scheme().len()),
            false,
        )
    } else {
        true
    }
}

/// The error refusing a tool call: the command rule's on the tool's name,
/// or else the project rule's on the directory it names.
pub open spec fn tool_refusal(
    s: SecuritySettings,
    name: Seq<char>,
    args: crate::protocol::JsonValue,
    e: McpError,
) -> bool {
    if !rule_admits(s.commands.allowed_commands, s.commands.denied_commands, name, false) {
        rule_refusal(s.commands.allowed_commands, s.commands.denied_commands, name, false, "Tool"@, e)
    } else {
        rule_refusal(
            s.networks.allowed_networks,
            s.networks.denied_networks,
            str_member(args, "project_directory"@).unwrap(),
            false,
            "Project directory"@,
            e,
        )
    }
}

/// The error refusing a resource read: for an image, the registry rule's or
/// else the base-image rule's on the image; for a compose project, the
/// project rule's on its directory.
pub open spec fn resource_refusal(s: SecuritySettings, uri: Seq<char>, e: McpError) -> bool {
    if is_prefix(image_scheme(), uri) {
        let image = after(uri, image_scheme().len());
        if !rule_admits(s.registries.allowed_registries, s.registries.denied_registries, image, true) {
            rule_refusal(
                s.registries.allowed_registries,
                s.registries.denied_registries,
                image,
                true,
                "Registry"@,
                e,
            )
        } else {
            rule_refusal(
                s.registries.allowed_base_images,
                s.registries.denied_base_images,
                image,
                false,
                "Base image"@,
                e,
            )
        }
    } else {
        rule_refusal(
            s.networks.allowed_networks,
            s.networks.denied_networks,
            after(uri, compose_scheme().len()),
            false,
            "Project directory"@,
            e,
        )
    }
}

/// The part of the address after a scheme prefix that it starts with.
pub fn strip_scheme(uri: &str, scheme: &str) -> (r: String)
    requires
        is_prefix(scheme@, uri@),
    ensures
        r@ == after(uri@, scheme@.len()),
{
    let k = scheme.unicode_len();
    crate::text::drop_chars(uri, k)
}

/// Checks capability calls against the configured allow and deny lists.
pub struct SecurityValidator {
    settings: SecuritySettings,
}

impl SecurityValidator {
    pub closed spec fn settings(&self) -> SecuritySettings {
        self.settings
    }

    /// The validator takes the settings over: nothing else needs them while it holds them.
    pub fn new(settings: SecuritySettings) -> (r: SecurityValidator)
        ensures
            r.settings() == settings,
    {
        SecurityValidator { settings }
    }

    /// Admit or refuse a tool call before it runs.
    pub fn validate_tool(&self, request: &CallToolRequest) -> (r: Result<(), McpError>)
        ensures
            r is Ok <==> tool_permitted(self.settings(), request.name@, request.arguments),
            r is Err ==> r->Err_0 is OperationNotPermitted,
            r is Err ==> tool_refusal(self.settings(), request.name@, request.arguments, r->Err_0),
    {
        let commands = &self.settings.commands;
        let named = apply_rule(
            &commands.allowed_commands,
            &commands.denied_commands,
            request.name.as_str(),
            false,
            "Tool",
        );
        if named.is_err() {
            return named;
        }
        let name = request.name.as_str();
        if str_eq(name, "compose-up") || str_eq(name, "compose-down") {
            proof {
                reveal_strlit("compose-up");
                reveal_strlit("compose-down");
            }
            match request.arguments.get_str("project_directory") {
                Some(dir) => {
                    let networks = &self.settings.networks;
                    return apply_rule(
                        &networks.allowed_networks,
                        &networks.denied_networks,
                        dir.as_str(),
                        false,
                        "Project directory",
                    );
                },
                None => {},
            }
        }
        Ok(())
    }

    /// Admit or refuse a resource read before it runs.
    pub fn validate_resource(&self, request: &ReadResourceRequest) -> (r: Result<(), McpError>)
        ensures
            r is Ok <==> resource_permitted(self.settings(), request.uri@),
            r is Err ==> r->Err_0 is OperationNotPermitted,
            r is Err ==> resource_refusal(self.settings(), request.uri@, r->Err_0),
    {
        let uri = request.uri.as_str();
        if starts_with(uri, "docker://container/") {
            Ok(())
        } else if starts_with(uri, "docker://image/") {
            let image = strip_scheme(uri, "docker://image/");
            let registries = &self.settings.registries;
            let by_registry = apply_rule(
                &registries.allowed_registries,
                &registries.denied_registries,
                image.as_str(),
                true,
                "Registry",
            );
            if by_registry.is_err() {
                return by_registry;
            }
            apply_rule(
                &registries.allowed_base_images,
                &registries.denied_base_images,
                image.as_str(),
                false,
                "Base image",
            )
        } else if starts_with(uri, "docker://compose/") {
            let dir = strip_scheme(uri, "docker://compose/");
            let networks = &self.settings.networks;
            apply_rule(
                &networks.allowed_networks,
                &networks.denied_networks,
                dir.as_str(),
                false,
                "Project directory",
            )
        } else {
            Ok(())
        }
    }
}

/// With no registry allow list, an image whose name starts with a denied
/// registry and `/` cannot be read; with no rules at all on a name, it can.
pub proof fn lemma_denied_registry_refused(s: SecuritySettings, uri: Seq<char>, i: int)
    requires
        is_prefix(image_scheme(), uri),
        s.registries.allowed_registries is None,
        0 <= i < s.registries.denied_registries@.len(),
        is_prefix(
            s.registries.denied_registries@[i]@ + "/"@,
            after(uri, image_scheme().len()),
        ),
    ensures
        !resource_permitted(s, uri),
{
    assert(!is_prefix(container_scheme(), uri)) by {
        reveal_strlit("docker://container/");
        reveal_strlit("docker://image/");
        assert(uri[9] == image_scheme()[9]);
        assert(container_scheme()[9] != image_scheme()[9]);
    }
    assert(covers(
        s.registries.denied_registries@[i]@,
        after(uri, image_scheme().len()),
        true,
    ));
}

/// A bucket that has run dry admits exactly one more request once one
/// token's worth of time has passed at the configured rate: the check at that
/// time succeeds and a second check at the same time fails.
pub proof fn lemma_one_token_per_interval(l: RateLimiter, now: nat)
    requires
        l.wf(),
        l.settings().enabled,
        capacity_of(l.settings()) >= 1,
        l.credit() < TOKEN,
        now >= l.last_refill(),
        (now - l.last_refill()) * l.settings().requests_per_minute == TOKEN,
    ensures
        l.admits_at(now),
        l.credit_after(now) < TOKEN,
        l.last_after(now) == now,
        refilled(l.settings(), l.credit_after(now), l.last_after(now), now) < TOKEN,
{
    let s = l.settings();
    assert(now > l.last_refill()) by {
        if now == l.last_refill() {
            assert((now - l.last_refill()) * s.requests_per_minute == 0) by (nonlinear_arith)
                requires
                    now == l.last_refill(),
            ;
        }
    }
    assert(full_credit(s) >= TOKEN) by (nonlinear_arith)
        requires
            capacity_of(s) >= 1,
            full_credit(s) == capacity_of(s) * TOKEN as nat,
    ;
}

} // verus!
