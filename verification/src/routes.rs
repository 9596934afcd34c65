//! The routes: which method and path goes to which handler. A path is taken
//! as its bytes, and matched whole; a request that no rule takes gets the
//! answer for an unknown route.

use crate::response::{Response, ResponseView};
use vstd::prelude::*;
use vstd::slice::slice_subrange;
use vstd::string::StringSliceAdditionalSpecFns;

verus! {

/// The method of a request. `Other` stands for every method that no route
/// takes.
#[derive(Clone, Copy, Debug, PartialEq, Eq, Structural)]
pub enum Method {
    Get,
    Post,
    Put,
    Delete,
    Other,
}

/// The six handlers.
#[derive(Clone, Copy, Debug, PartialEq, Eq, Structural)]
pub enum Endpoint {
    Register,
    Login,
    CreateContent,
    GetContent,
    UpdateContent,
    DeleteContent,
}

/// One line of the routing table: requests with `method` and `path` go to
/// `endpoint`. Where `takes_id` is set, `path` is only the beginning, and an
/// id follows it.
#[derive(Clone, Copy, Debug, PartialEq, Eq)]
pub struct Rule {
    pub method: Method,
    pub path: &'static str,
    pub takes_id: bool,
    pub endpoint: Endpoint,
}

/// A [`Rule`] in contracts, its path as bytes.
pub struct RuleView {
    pub method: Method,
    pub path: Seq<u8>,
    pub takes_id: bool,
    pub endpoint: Endpoint,
}

impl View for Rule {
    type V = RuleView;

    open spec fn view(&self) -> RuleView {
        RuleView {
            method: self.method,
            path: self.path.spec_bytes(),
            takes_id: self.takes_id,
            endpoint: self.endpoint,
        }
    }
}

/// Where a request goes: the handler, and the id from the path where the
/// rule takes one.
#[derive(Clone, Copy, Debug, PartialEq, Eq, Structural)]
pub struct Route {
    pub endpoint: Endpoint,
    pub id: Option<i32>,
}

/// The byte `+`.
pub const PLUS: u8 = 43;

/// The byte `-`.
pub const MINUS: u8 = 45;

/// The byte `0`.
pub const ZERO: u8 = 48;

/// The byte `9`.
pub const NINE: u8 = 57;

/// Whether every byte is a decimal digit.
pub open spec fn all_digits(text: Seq<u8>) -> bool {
    forall|i: int| 0 <= i < text.len() ==> ZERO <= #[trigger] text[i] <= NINE
}

/// The number that decimal digits write.
pub open spec fn decimal(digits: Seq<u8>) -> int
    decreases digits.len(),
{
    if digits.len() == 0 {
        0
    } else {
        decimal(digits.drop_last()) * 10 + (digits.last() - ZERO)
    }
}

/// The id that a path segment writes: an optional sign, then at least one
/// decimal digit and nothing else, for a number that fits 32 bits.
pub open spec fn id_of(text: Seq<u8>) -> Option<i32> {
    let signed = text.len() > 0 && (text[0] == PLUS || text[0] == MINUS);
    let digits = if signed {
        text.skip(1)
    } else {
        text
    };
    let value = if signed && text[0] == MINUS {
        -decimal(digits)
    } else {
        decimal(digits)
    };
    if digits.len() > 0 && all_digits(digits) && i32::MIN <= value <= i32::MAX {
        Some(value as i32)
    } else {
        None
    }
}

/// Where `rule` sends a request, if it takes it.
pub open spec fn rule_match(rule: RuleView, method: Method, path: Seq<u8>) -> Option<Route> {
    if rule.method != method {
        None
    } else if rule.takes_id {
        if rule.path.is_prefix_of(path) {
            match id_of(path.skip(rule.path.len() as int)) {
                Some(id) => Some(Route { endpoint: rule.endpoint, id: Some(id) }),
                None => None,
            }
        } else {
            None
        }
    } else if path == rule.path {
        Some(Route { endpoint: rule.endpoint, id: None })
    } else {
        None
    }
}

/// Where the first rule of `table` that takes a request sends it.
pub open spec fn first_match(table: Seq<RuleView>, method: Method, path: Seq<u8>) -> Option<Route>
    decreases table.len(),
{
    if table.len() == 0 {
        None
    } else {
        match rule_match(table[0], method, path) {
            Some(route) => Some(route),
            None => first_match(table.skip(1), method, path),
        }
    }
}

/// The rules in contracts.
pub open spec fn table_view(rules: Seq<Rule>) -> Seq<RuleView> {
    rules.map_values(|rule: Rule| rule@)
}

/// The routing table.
pub open spec fn routing_table() -> Seq<RuleView> {
    seq![
        RuleView {
            method: Method::Post,
            path: "/api/auth/register".spec_bytes(),
            takes_id: false,
            endpoint: Endpoint::Register,
        },
        RuleView {
            method: Method::Post,
            path: "/api/auth/login".spec_bytes(),
            takes_id: false,
            endpoint: Endpoint::Login,
        },
        RuleView {
            method: Method::Post,
            path: "/api/content/".spec_bytes(),
            takes_id: true,
            endpoint: Endpoint::CreateContent,
        },
        RuleView {
            method: Method::Get,
            path: "/api/content/".spec_bytes(),
            takes_id: true,
            endpoint: Endpoint::GetContent,
        },
        RuleView {
            method: Method::Put,
            path: "/api/content/".spec_bytes(),
            takes_id: true,
            endpoint: Endpoint::UpdateContent,
        },
        RuleView {
            method: Method::Delete,
            path: "/api/content/".spec_bytes(),
            takes_id: true,
            endpoint: Endpoint::DeleteContent,
        },
    ]
}

/// Where a request goes, if any rule of the routing table takes it.
pub open spec fn route_of(method: Method, path: Seq<u8>) -> Option<Route> {
    first_match(routing_table(), method, path)
}

/// What [`resolve`] answers for a request.
pub open spec fn resolution(method: Method, path: Seq<u8>) -> Result<Route, ResponseView> {
    match route_of(method, path) {
        Some(route) => Ok(route),
        None => Err(ResponseView::unknown_route()),
    }
}

/// A resolution in contracts.
pub open spec fn resolved_view(resolved: Result<Route, Response>) -> Result<Route, ResponseView> {
    match resolved {
        Ok(route) => Ok(route),
        Err(response) => Err(response@),
    }
}

/// The routing table: registration and login under `/api/auth`, and the four
/// content routes under `/api/content`, each with an id behind it.
pub fn config() -> (rules: Vec<Rule>)
    ensures
        table_view(rules@) == routing_table(),
{
    let mut rules: Vec<Rule> = Vec::new();
    rules.push(
        Rule {
            method: Method::Post,
            path: "/api/auth/register",
            takes_id: false,
            endpoint: Endpoint::Register,
        },
    );
    rules.push(
        Rule {
            method: Method::Post,
            path: "/api/auth/login",
            takes_id: false,
            endpoint: Endpoint::Login,
        },
    );
    rules.push(
        Rule {
            method: Method::Post,
            path: "/api/content/",
            takes_id: true,
            endpoint: Endpoint::CreateContent,
        },
    );
    rules.push(
        Rule {
            method: Method::Get,
            path: "/api/content/",
            takes_id: true,
            endpoint: Endpoint::GetContent,
        },
    );
    rules.push(
        Rule {
            method: Method::Put,
            path: "/api/content/",
            takes_id: true,
            endpoint: Endpoint::UpdateContent,
        },
    );
    rules.push(
        Rule {
            method: Method::Delete,
            path: "/api/content/",
            takes_id: true,
            endpoint: Endpoint::DeleteContent,
        },
    );
    rules
}

/// Digits write no negative number.
proof fn lemma_decimal_nonnegative(digits: Seq<u8>)
    requires
        all_digits(digits),
    ensures
        0 <= decimal(digits),
    decreases digits.len(),
{
    if digits.len() > 0 {
        lemma_decimal_nonnegative(digits.drop_last());
    }
}

/// The first `k` digits write no more than all of them.
proof fn lemma_decimal_prefix(digits: Seq<u8>, k: int)
    requires
        all_digits(digits),
        0 <= k <= digits.len(),
    ensures
        decimal(digits.take(k)) <= decimal(digits),
    decreases digits.len() - k,
{
    if k == digits.len() {
        assert(digits.take(k) =~= digits);
    } else {
        lemma_decimal_prefix(digits.drop_last(), k);
        lemma_decimal_nonnegative(digits.drop_last());
        assert(digits.drop_last().take(k) =~= digits.take(k));
    }
}

/// Reads the id that a path segment writes.
pub fn parse_id(text: &[u8]) -> (id: Option<i32>)
    ensures
        id == id_of(text@),
{
    let n = text.len();
    if n == 0 {
        return None;
    }
    let negative = text[0] == MINUS;
    let start: usize = if text[0] == PLUS || text[0] == MINUS {
        1
    } else {
        0
    };
    if start == n {
        return None;
    }
    let ghost digits = text@.skip(start as int);
    assert(digits == if text@[0] == PLUS || text@[0] == MINUS {
        text@.skip(1)
    } else {
        text@
    });
    let mut magnitude: i64 = 0;
    let mut i: usize = start;
    while i < n
        invariant
            start <= i <= n,
            0 < n == text@.len(),
            digits == text@.skip(start as int),
            digits == if text@[0] == PLUS || text@[0] == MINUS {
                text@.skip(1)
            } else {
                text@
            },
            all_digits(digits.take(i - start)),
            magnitude == decimal(digits.take(i - start)),
            0 <= magnitude <= 2147483648,
        decreases n - i,
    {
        let byte = text[i];
        if byte < ZERO || byte > NINE {
            assert(digits[i - start] == byte);
            return None;
        }
        let next = magnitude * 10 + (byte - ZERO) as i64;
        assert(digits.take(i + 1 - start).drop_last() =~= digits.take(i - start));
        if next > 2147483648 {
            proof {
                if all_digits(digits) {
                    lemma_decimal_prefix(digits, i + 1 - start);
                }
            }
            return None;
        }
        magnitude = next;
        i += 1;
    }
    assert(digits.take(n - start) =~= digits);
    if negative {
        Some((0 - magnitude) as i32)
    } else if magnitude > 2147483647 {
        None
    } else {
        Some(magnitude as i32)
    }
}

/// Whether `path` begins with `prefix`.
fn has_prefix(path: &[u8], prefix: &[u8]) -> (r: bool)
    ensures
        r == prefix@.is_prefix_of(path@),
{
    if prefix.len() > path.len() {
        return false;
    }
    let mut i: usize = 0;
    while i < prefix.len()
        invariant
            i <= prefix@.len() <= path@.len(),
            forall|j: int| 0 <= j < i ==> prefix@[j] == path@[j],
        decreases prefix@.len() - i,
    {
        if prefix[i] != path[i] {
            return false;
        }
        i += 1;
    }
    true
}

/// Where `rule` sends a request, if it takes it.
fn try_rule(rule: &Rule, method: Method, path: &[u8]) -> (found: Option<Route>)
    ensures
        found == rule_match(rule@, method, path@),
{
    if rule.method != method {
        return None;
    }
    let prefix = rule.path.as_bytes();
    if !has_prefix(path, prefix) {
        return None;
    }
    if rule.takes_id {
        let rest = slice_subrange(path, prefix.len(), path.len());
        match parse_id(rest) {
            Some(id) => Some(Route { endpoint: rule.endpoint, id: Some(id) }),
            None => None,
        }
    } else if path.len() == prefix.len() {
        assert(path@ =~= prefix@);
        Some(Route { endpoint: rule.endpoint, id: None })
    } else {
        None
    }
}

/// Finds the handler for a request, or gives the answer for an unknown
/// route: 404 with the text `404 Not Found`.
pub fn resolve(method: Method, path: &[u8]) -> (resolved: Result<Route, Response>)
    ensures
        resolved_view(resolved) == resolution(method, path@),
{
    let rules = config();
    let mut i: usize = 0;
    assert(routing_table().skip(0) =~= routing_table());
    while i < rules.len()
        invariant
            i <= rules@.len(),
            table_view(rules@) == routing_table(),
            route_of(method, path@) == first_match(routing_table().skip(i as int), method, path@),
        decreases rules@.len() - i,
    {
        let found = try_rule(&rules[i], method, path);
        assert(routing_table().skip(i as int).skip(1) =~= routing_table().skip(i as int + 1));
        if let Some(route) = found {
            return Ok(route);
        }
        i += 1;
    }
    Err(Response::unknown_route())
}

} // verus!
